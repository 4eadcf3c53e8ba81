//! A write-once slot that can be filled through a shared reference, with a
//! predicate, fixed when the slot is made, that every value it holds meets.
use vstd::prelude::*;

verus! {

#[verifier::external_type_specification]
#[verifier::external_body]
#[verifier::reject_recursive_types(T)]
pub struct ExOnceCell<T>(std::cell::OnceCell<T>);

/// Relies on OnceCell::new: an empty cell.
pub assume_specification<T>[ std::cell::OnceCell::<T>::new ]() -> std::cell::OnceCell<T>;

/// A write-once cell of std. The cell is private to this module and is
/// filled only by `fill`, which asks that the value meet `valid`; so every
/// value it ever holds meets `valid`.
#[verifier::reject_recursive_types(T)]
pub struct Slot<T> {
    cell: std::cell::OnceCell<T>,
    valid: Ghost<spec_fn(T) -> bool>,
}

impl<T> Slot<T> {
    /// What every value in the slot meets.
    pub closed spec fn valid(&self) -> spec_fn(T) -> bool {
        self.valid@
    }

    /// An empty slot whose values will meet `valid`.
    pub fn new(Ghost(valid): Ghost<spec_fn(T) -> bool>) -> (s: Self)
        ensures
            s.valid() == valid,
    {
        Slot { cell: std::cell::OnceCell::new(), valid: Ghost(valid) }
    }

    /// Relies on OnceCell::get: the value if the cell is filled, nothing
    /// otherwise; it does not panic.
    #[verifier::external_body]
    pub(crate) fn get(&self) -> (r: Option<&T>)
        ensures
            r matches Some(v) ==> (self.valid())(*v),
    {
        self.cell.get()
    }

    /// Relies on OnceCell::get_or_init: an empty cell takes `v`, a filled one
    /// keeps its value and drops `v`; either way the value held is handed
    /// back. The closure only returns `v`, so it never initialises the cell
    /// re-entrantly and the call does not panic.
    #[verifier::external_body]
    pub(crate) fn fill(&self, v: T) -> (r: &T)
        requires
            (self.valid())(v),
        ensures
            (self.valid())(*r),
    {
        self.cell.get_or_init(move || v)
    }

    /// Relies on OnceCell::into_inner: the value if the cell was filled.
    #[verifier::external_body]
    pub(crate) fn into_inner(self) -> (r: Option<T>)
        ensures
            r matches Some(v) ==> (self.valid())(v),
    {
        self.cell.into_inner()
    }
}

} // verus!
