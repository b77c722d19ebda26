//! When the channel's readiness bit is touched.
//!
//! The polling loop reads one level-triggered bit per receiver: readable, or
//! not. The bit is written only where the count of unread messages is seen to
//! leave zero or to be about to reach it, so that an ordinary send or receive
//! costs one atomic operation and nothing more. The functions here take what
//! an atomic operation observed and say which write, if any, follows it.

use vstd::prelude::*;
use crate::engine::READABLE;

verus! {

/// The state of the readiness bit that the polling loop sees.
#[derive(Clone, Copy, Debug, PartialEq, Eq, Structural)]
pub enum Readiness {
    /// Nothing to read.
    Empty,
    /// At least one message may be waiting.
    Readable,
}

/// The readiness kinds that the engine is to hold for `readiness`, each as
/// the engine numbers it.
pub open spec fn kinds_of(readiness: Readiness) -> Set<usize> {
    match readiness {
        Readiness::Empty => Set::empty(),
        Readiness::Readable => Set::empty().insert(READABLE),
    }
}

/// After a sender's fetch-and-add saw `prev`: the step from zero to one makes
/// the channel readable.
pub open spec fn signal_after_increment(prev: usize) -> Option<Readiness> {
    if prev == 0 {
        Some(Readiness::Readable)
    } else {
        None
    }
}

/// After the receiver loaded `first` and before it subtracts: about to take
/// the last message, it clears the bit ahead of the subtraction.
pub open spec fn signal_before_decrement(first: usize) -> Option<Readiness> {
    if first == 1 {
        Some(Readiness::Empty)
    } else {
        None
    }
}

/// After the receiver's fetch-and-subtract replaced `second`, having loaded
/// `first` before: `second` is the count just before the subtraction, so
/// above one it says that a sender has counted a message since the load. The
/// bit was cleared for the last message, and is set again for that new one,
/// whose sender found the count above zero and wrote nothing.
pub open spec fn signal_after_decrement(first: usize, second: usize) -> Option<Readiness> {
    if first == 1 && second > 1 {
        Some(Readiness::Readable)
    } else {
        None
    }
}

/// At registration, with `pending` messages counted: a fresh registration
/// starts out empty and is made readable where messages already wait.
pub open spec fn signal_at_registration(pending: usize) -> Option<Readiness> {
    if pending > 0 {
        Some(Readiness::Readable)
    } else {
        None
    }
}

/// The bit that a fresh registration shows after the write, if any, that
/// `signal_at_registration` calls for.
pub open spec fn initial_readiness(pending: usize) -> Readiness {
    match signal_at_registration(pending) {
        Some(r) => r,
        None => Readiness::Empty,
    }
}

/// What a sender writes after its increment replaced `prev`.
pub fn after_increment(prev: usize) -> (signal: Option<Readiness>)
    ensures
        signal == signal_after_increment(prev),
{
    if prev == 0 {
        Some(Readiness::Readable)
    } else {
        None
    }
}

/// What the receiver writes between loading `first` and subtracting.
pub fn before_decrement(first: usize) -> (signal: Option<Readiness>)
    ensures
        signal == signal_before_decrement(first),
{
    if first == 1 {
        Some(Readiness::Empty)
    } else {
        None
    }
}

/// What the receiver writes after its subtraction replaced `second`.
pub fn after_decrement(first: usize, second: usize) -> (signal: Option<Readiness>)
    ensures
        signal == signal_after_decrement(first, second),
{
    if first == 1 && second > 1 {
        Some(Readiness::Readable)
    } else {
        None
    }
}

/// What registration writes into the fresh readiness bit.
pub fn at_registration(pending: usize) -> (signal: Option<Readiness>)
    ensures
        signal == signal_at_registration(pending),
{
    if pending > 0 {
        Some(Readiness::Readable)
    } else {
        None
    }
}

} // verus!
