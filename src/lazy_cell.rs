//! A deferred value read through a shared reference: the first read runs the
//! computation and keeps the result in a write-once slot.
use vstd::prelude::*;

use crate::lazy::Lazy;
use crate::slot::Slot;

verus! {

/// A deferred value whose first read, through a shared reference, runs the
/// computation; the result is kept and handed out by reference from then on.
#[verifier::reject_recursive_types(T)]
pub struct LazyCell<F: Fn() -> T, T> {
    inner: Lazy<F, T>,
    slot: Slot<T>,
}

impl<F: Fn() -> T, T> LazyCell<F, T> {
    /// The deferred value this handle was built from; reads leave it as it
    /// is and keep the computed value in the slot beside it.
    pub closed spec fn source(self) -> Lazy<F, T> {
        self.inner
    }

    /// The computation may be run, and the slot holds only values that the
    /// source produces.
    #[verifier::type_invariant]
    spec fn well_formed(self) -> bool {
        &&& self.inner.runnable()
        &&& forall|v: T| #[trigger] (self.slot.valid())(v) == self.inner.produces(v)
    }

    /// A handle whose computation `f` has not run yet.
    pub fn thunk(f: F) -> (r: Self)
        requires
            f.requires(()),
        ensures
            r.source() == Lazy::<F, T>::Thunk(f),
    {
        let slot = Slot::new(Ghost(|v: T| f.ensures((), v)));
        LazyCell { inner: Lazy::thunk(f), slot }
    }

    /// A handle whose value is known from the start.
    pub fn value(v: T) -> (r: Self)
        ensures
            r.source() == Lazy::<F, T>::Value(v),
    {
        let slot = Slot::new(Ghost(|x: T| x == v));
        LazyCell { inner: Lazy::value(v), slot }
    }

    /// The value: a handle built from a value gives that value; one built
    /// from a computation runs it on the first read, keeps the result, and
    /// gives the kept result on every later read.
    pub fn get(&self) -> (r: &T)
        ensures
            self.source().produces(*r),
    {
        proof {
            use_type_invariant(self);
        }
        match &self.inner {
            Lazy::Value(v) => v,
            Lazy::Thunk(f) => match self.slot.get() {
                Some(v) => v,
                None => {
                    let v = f();
                    self.slot.fill(v)
                },
            },
        }
    }

    /// The value, computed first if no read has done so, handed over by
    /// consuming the handle.
    pub fn into_inner(self) -> (r: T)
        ensures
            self.source().produces(r),
    {
        proof {
            use_type_invariant(&self);
        }
        let LazyCell { inner, slot } = self;
        match inner {
            Lazy::Value(v) => v,
            Lazy::Thunk(f) => match slot.into_inner() {
                Some(v) => v,
                None => f(),
            },
        }
    }

    /// Reads of one handle agree whenever its source can give only one
    /// value: a value given at construction, or a computation with a single
    /// possible result.
    pub proof fn lemma_reads_agree(self, first: T, later: T)
        requires
            self.source().produces(first),
            self.source().produces(later),
            self.source().forced() || forall|a: T, b: T|
                self.source().produces(a) && self.source().produces(b) ==> a == b,
        ensures
            first == later,
    {
    }
}

impl<F: Fn() -> T, T> std::convert::AsRef<T> for LazyCell<F, T> {
    /// The same read as `get`.
    fn as_ref(&self) -> (r: &T)
        ensures
            self.source().produces(*r),
    {
        self.get()
    }
}

impl<F: Fn() -> T, T> std::ops::Deref for LazyCell<F, T> {
    type Target = T;

    /// The same read as `get`.
    fn deref(&self) -> (r: &T)
        ensures
            self.source().produces(*r),
    {
        self.get()
    }
}

} // verus!
