//! The polling engine, as far as the channel deals with it: a registration
//! with a poll instance, and the handle that sets that registration's
//! readiness. Nothing here is proved; each item says what is taken on trust.
//!
//! The registration is made unbound by `Registration::new2`, and is bound
//! to a poll instance, changed and withdrawn through its own `update` and
//! `deregister`. The engine marks those two as deprecated in favour of calls
//! that go through the poll instance; hence the `allow`.

#![allow(deprecated)]

use vstd::prelude::*;
use mio::{Poll, PollOpt, Ready, Registration, SetReadiness, Token};

verus! {

/// `mio::Poll`, the poll instance. Only passed through.
#[verifier::external_type_specification]
#[verifier::external_body]
pub struct ExPoll(Poll);

/// `mio::Token`, the caller's name for an event source. Only passed through.
#[verifier::external_type_specification]
#[verifier::external_body]
pub struct ExToken(Token);

/// `mio::Ready`, a set of readiness states. Only passed through.
#[verifier::external_type_specification]
#[verifier::external_body]
pub struct ExReady(Ready);

/// `mio::PollOpt`, the options of a registration. Only passed through.
#[verifier::external_type_specification]
#[verifier::external_body]
pub struct ExPollOpt(PollOpt);

/// `mio::Registration`, an event source whose readiness is set by hand.
#[verifier::external_type_specification]
#[verifier::external_body]
pub struct ExRegistration(Registration);

/// `mio::SetReadiness`, the handle that sets the readiness of the
/// registration it was created with.
#[verifier::external_type_specification]
#[verifier::external_body]
pub struct ExSetReadiness(SetReadiness);

/// `std::io::Error`.
#[verifier::external_type_specification]
#[verifier::external_body]
pub struct ExIoError(std::io::Error);

/// `Registration::new2`: a registration that is bound to no poll instance
/// yet, and its setter. Nothing is claimed of the pair.
pub assume_specification[ Registration::new2 ]() -> (pair: (Registration, SetReadiness))
;

/// `Registration::update`: binds the registration to `poll` if it is bound to
/// none, and sets token, interest and options. Nothing is claimed of the
/// result.
pub assume_specification[ Registration::update ](
    registration: &Registration,
    poll: &Poll,
    token: Token,
    interest: Ready,
    opts: PollOpt,
) -> (r: Result<(), std::io::Error>)
;

/// `Registration::deregister`: withdraws all interest. Nothing is claimed of
/// the result.
pub assume_specification[ Registration::deregister ](
    registration: &Registration,
    poll: &Poll,
) -> (r: Result<(), std::io::Error>)
;

/// `SetReadiness::set_readiness`: sets the registration's readiness to
/// `ready`. The engine takes any set of kinds; the channel writes the set of
/// readable and the set of none, and is held to that here. Nothing is claimed
/// of the result.
pub assume_specification[ SetReadiness::set_readiness ](setter: &SetReadiness, ready: Ready) -> (r:
    Result<(), std::io::Error>)
    requires
        ready_kinds(ready).subset_of(Set::<usize>::empty().insert(READABLE)),
;

/// The number that the engine keeps for the readiness kind "readable", in
/// the one version of it that this crate is built with.
pub const READABLE: usize = 1;

/// The readiness kinds that a `mio::Ready` holds. `Ready` is a set of kinds,
/// kept as the bits of one word; each kind stands here as the value of its
/// bit.
pub uninterp spec fn ready_kinds(ready: Ready) -> Set<usize>;

/// `Ready::readable`. Claimed: the set that holds the kind readable and no
/// other.
pub assume_specification[ Ready::readable ]() -> (ready: Ready)
    ensures
        ready_kinds(ready) == Set::<usize>::empty().insert(READABLE),
;

/// `Ready::empty`. Claimed: the set that holds no kind.
pub assume_specification[ Ready::empty ]() -> (ready: Ready)
    ensures
        ready_kinds(ready) == Set::<usize>::empty(),
;

/// The error of kind `ErrorKind::Other` that carries `message`.
pub uninterp spec fn other_error_of(message: Seq<char>) -> std::io::Error;

/// `std::io::Error::new` with `ErrorKind::Other`. Claimed: the error is that
/// of `other_error_of` for the same message, so that equal messages give equal
/// errors.
#[verifier::external_body]
pub(crate) fn other_error(message: &str) -> (e: std::io::Error)
    ensures
        e == other_error_of(message@),
{
    std::io::Error::new(std::io::ErrorKind::Other, message)
}

} // verus!
