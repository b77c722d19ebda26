//! Write-once cells: empty at first, occupied by the first value put in, and
//! never changed afterwards.
//!
//! `Lazy` is the cell of a single owner, and refuses a second value in so
//! many words. Where many threads read the cell on every message while one
//! fills it, the channel uses `lazycell::AtomicLazyCell`, whose reads cost one
//! atomic load.

use vstd::prelude::*;
use lazycell::AtomicLazyCell;

verus! {

/// `lazycell::AtomicLazyCell`, a write-once cell that threads may share.
#[verifier::external_type_specification]
#[verifier::external_body]
#[verifier::reject_recursive_types(T)]
pub struct ExAtomicLazyCell<T>(AtomicLazyCell<T>);

/// `AtomicLazyCell::new`: a cell. That it is empty is not stated, since
/// nothing is stated of what a shared cell holds.
pub assume_specification<T>[ AtomicLazyCell::<T>::new ]() -> (cell: AtomicLazyCell<T>)
;

/// `AtomicLazyCell::fill`: puts `t` into the cell unless it is occupied or
/// being filled. Claimed: a refusal hands back the very value that was
/// offered.
pub assume_specification<T>[ AtomicLazyCell::<T>::fill ](cell: &AtomicLazyCell<T>, t: T) -> (r:
    Result<(), T>)
    ensures
        r matches Err(back) ==> back == t,
;

/// `AtomicLazyCell::borrow`: the value in the cell, if it has been filled.
/// Nothing is claimed of the result.
pub assume_specification<T>[ AtomicLazyCell::<T>::borrow ](cell: &AtomicLazyCell<T>) -> (r: Option<
    &T,
>)
;

/// A cell that is set at most once.
pub struct Lazy<T> {
    slot: Option<T>,
}

impl<T> View for Lazy<T> {
    type V = Option<T>;

    closed spec fn view(&self) -> Option<T> {
        self.slot
    }
}

impl<T> Lazy<T> {
    /// An empty cell.
    pub fn new() -> (cell: Lazy<T>)
        ensures
            cell@ is None,
    {
        Lazy { slot: None }
    }

    /// Whether a value has been published.
    pub fn is_some(&self) -> (occupied: bool)
        ensures
            occupied == (self@ is Some),
    {
        self.slot.is_some()
    }

    /// Publishes `value` if the cell is empty. An occupied cell keeps what it
    /// holds and hands `value` back.
    pub fn set(&mut self, value: T) -> (r: Result<(), T>)
        ensures
            old(self)@ is None ==> r is Ok && final(self)@ == Some(value),
            old(self)@ is Some ==> r == Err::<(), T>(value) && final(self)@ == old(self)@,
    {
        if self.slot.is_some() {
            return Err(value);
        }
        self.slot = Some(value);
        Ok(())
    }

    /// The published value, if there is one.
    pub fn as_ref(&self) -> (r: Option<&T>)
        ensures
            r is Some == (self@ is Some),
            r matches Some(v) ==> self@ == Some(*v),
    {
        self.slot.as_ref()
    }
}

} // verus!
