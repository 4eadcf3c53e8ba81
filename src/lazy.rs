//! A deferred value held by its owner: either a pending computation or the
//! value it produced.
use vstd::prelude::*;

verus! {

/// A value that is either still to be computed (`Thunk`) or already known
/// (`Value`). Once it holds a `Value` it never goes back to `Thunk`.
#[verifier::reject_recursive_types(T)]
pub enum Lazy<F: Fn() -> T, T> {
    Thunk(F),
    Value(T),
}

impl<F: Fn() -> T, T> Lazy<F, T> {
    /// Whether the value is known, so that reading it runs nothing.
    pub open spec fn forced(self) -> bool {
        self is Value
    }

    /// Whether `v` is a value that reading this one may give: the stored
    /// value, or any result of the pending computation.
    pub open spec fn produces(self, v: T) -> bool {
        match self {
            Lazy::Thunk(f) => f.ensures((), v),
            Lazy::Value(x) => v == x,
        }
    }

    /// The pending computation, if any, may be run.
    pub open spec fn runnable(self) -> bool {
        match self {
            Lazy::Thunk(f) => f.requires(()),
            Lazy::Value(_) => true,
        }
    }

    /// `next` is what forcing this one leaves behind: a known value that this
    /// one produces. A known value is left as it is.
    pub open spec fn forces_to(self, next: Self) -> bool {
        &&& next is Value
        &&& self.produces(next->Value_0)
    }

    /// A deferred value that is known from the start.
    pub fn value(v: T) -> (r: Self)
        ensures
            r == Lazy::<F, T>::Value(v),
    {
        Lazy::Value(v)
    }

    /// A deferred value whose computation `f` has not run yet.
    pub fn thunk(f: F) -> (r: Self)
        ensures
            r == Lazy::<F, T>::Thunk(f),
    {
        Lazy::Thunk(f)
    }

    /// Runs the pending computation, if any, and keeps its result in place of
    /// it. A known value is left untouched.
    fn force(&mut self)
        requires
            old(self).runnable(),
        ensures
            old(self).forces_to(*final(self)),
    {
        let v = match self {
            Lazy::Thunk(f) => f(),
            Lazy::Value(_) => { return; },
        };
        *self = Lazy::Value(v);
    }

    /// The value, computed first if it is not known yet. From then on this
    /// one holds it, and later reads run nothing.
    pub fn get(&mut self) -> (r: &T)
        requires
            old(self).runnable(),
        ensures
            old(self).forces_to(*final(self)),
            old(self).forced() ==> *final(self) == *old(self),
            *r == final(self)->Value_0,
    {
        self.force();
        match self {
            Lazy::Value(v) => v,
            Lazy::Thunk(_) => unreached(),
        }
    }

    /// The value if it is known; nothing is computed.
    pub fn get_if_forced(&self) -> (r: Option<&T>)
        ensures
            r is Some <==> self.forced(),
            r matches Some(v) ==> *v == self->Value_0,
    {
        match self {
            Lazy::Value(v) => Some(v),
            Lazy::Thunk(_) => None,
        }
    }

    /// Whether the value is known; nothing is computed.
    pub fn is_forced(&self) -> (r: bool)
        ensures
            r == self.forced(),
    {
        match self {
            Lazy::Value(_) => true,
            Lazy::Thunk(_) => false,
        }
    }

    /// The value, computed first if it is not known yet, handed over by
    /// consuming this one.
    pub fn into_inner(self) -> (r: T)
        requires
            self.runnable(),
        ensures
            self.produces(r),
    {
        let mut this = self;
        this.force();
        match this {
            Lazy::Value(v) => v,
            Lazy::Thunk(_) => unreached(),
        }
    }

    /// Forcing a second time changes nothing: the state and the value after
    /// two forces are those after one.
    pub proof fn lemma_force_idempotent(self, once: Self, twice: Self)
        requires
            self.forces_to(once),
            once.forces_to(twice),
        ensures
            twice == once,
    {
    }

    /// Every read after the first gives the same value, and that value is one
    /// that the original computation (or the value given at construction)
    /// produces.
    pub proof fn lemma_get_stable(self, first: Self, later: Self)
        requires
            self.forces_to(first),
            first.forces_to(later),
        ensures
            later->Value_0 == first->Value_0,
            self.produces(later->Value_0),
    {
    }

    /// Along any run of reads, each one forcing what the one before left
    /// behind, the computation runs at most once: only the first read can
    /// start from a pending state, and every state after it is the same
    /// known value.
    pub proof fn lemma_evaluated_once(runs: Seq<Self>)
        requires
            runs.len() >= 2,
            forall|i: int| 0 <= i < runs.len() - 1 ==> #[trigger] runs[i].forces_to(runs[i + 1]),
        ensures
            forall|i: int| 1 <= i < runs.len() ==> (#[trigger] runs[i]) == runs[1] && runs[i].forced(),
    {
        assert forall|i: int| 1 <= i < runs.len() implies (#[trigger] runs[i]) == runs[1] && runs[i].forced() by {
            Self::lemma_settled_from(runs, i);
        }
    }

    proof fn lemma_settled_from(runs: Seq<Self>, i: int)
        requires
            1 <= i < runs.len(),
            forall|k: int| 0 <= k < runs.len() - 1 ==> #[trigger] runs[k].forces_to(runs[k + 1]),
        ensures
            runs[i] == runs[1],
            runs[i].forced(),
        decreases i,
    {
        let j = i - 1;
        assert(runs[j].forces_to(runs[j + 1]));
        if i > 1 {
            Self::lemma_settled_from(runs, j);
        }
    }

    /// A pending value is not known until it is forced, and is known right
    /// after.
    pub proof fn lemma_pending_until_forced(f: F, next: Self)
        requires
            Lazy::<F, T>::Thunk(f).forces_to(next),
        ensures
            !Lazy::<F, T>::Thunk(f).forced(),
            next.forced(),
    {
    }

    /// A value known from the start reads as known, gives back that value,
    /// and forcing it leaves it as it was.
    pub proof fn lemma_value_starts_forced(v: T)
        ensures
            Lazy::<F, T>::Value(v).forced(),
            Lazy::<F, T>::Value(v).runnable(),
            Lazy::<F, T>::Value(v)->Value_0 == v,
            forall|next: Self| Lazy::<F, T>::Value(v).forces_to(next) <==> next == Lazy::<F, T>::Value(v),
    {
    }
}

} // verus!
