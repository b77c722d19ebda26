//! The bookkeeping halves of a channel.
//!
//! Every sender-side handle and the one receiver-side handle share a counter
//! of messages that were sent and not yet received, and a cell that holds the
//! readiness setter once the receiver has been registered. The counter and the
//! cell are only ever touched by atomic operations, so no contract here can
//! speak of what they hold: another thread may change it at any moment. What
//! is written to the readiness bit after each atomic operation is decided in
//! `readiness`, on the value that the operation observed; what that achieves
//! over all interleavings is proved in `model`.
//!
//! The registration itself belongs to the receiver alone. It is kept in a
//! cell of a single owner, and `register` takes the receiver exclusively.

#![allow(deprecated)]

use vstd::prelude::*;
use std::sync::Arc;
use std::sync::atomic::{AtomicUsize, Ordering};
use lazycell::AtomicLazyCell;
use mio::{Poll, PollOpt, Ready, Registration, SetReadiness, Token};
use crate::engine::{other_error, other_error_of, ready_kinds};
use crate::lazy::Lazy;
use crate::readiness::{
    after_decrement, after_increment, at_registration, before_decrement, kinds_of,
    signal_after_decrement, signal_after_increment, signal_before_decrement, Readiness,
};

verus! {

/// What the handles of one channel share.
pub struct Inner {
    pending: AtomicUsize,
    set_readiness: AtomicLazyCell<SetReadiness>,
}

/// The sending side's handle on the shared state. Each clone of a sender
/// carries one.
pub struct SenderCtl {
    inner: Arc<Inner>,
}

/// The receiving side's handle on the shared state, with the registration
/// once there is one. A channel has exactly one.
pub struct ReceiverCtl {
    registration: Lazy<Registration>,
    inner: Arc<Inner>,
}

/// Why a registration, a change to it or its removal was refused.
#[derive(Debug)]
pub enum RegistrationError {
    /// `register` on a receiver that has been registered before.
    AlreadyRegistered,
    /// `reregister` or `deregister` on a receiver that never was registered.
    NotRegistered,
    /// The polling engine refused.
    Io(std::io::Error),
}

impl RegistrationError {
    /// What the polling engine answered, as an answer of the receiver: a
    /// success stays one, and the engine's error is handed on inside `Io`.
    pub fn from_engine(answer: Result<(), std::io::Error>) -> (r: Result<(), RegistrationError>)
        ensures
            answer is Ok ==> r is Ok,
            answer matches Err(e) ==> r == Err::<(), RegistrationError>(RegistrationError::Io(e)),
    {
        match answer {
            Ok(()) => Ok(()),
            Err(e) => Err(RegistrationError::Io(e)),
        }
    }

    /// The error as the polling engine words it.
    pub open spec fn as_io(self) -> std::io::Error {
        match self {
            RegistrationError::AlreadyRegistered => other_error_of(
                "receiver already registered"@,
            ),
            RegistrationError::NotRegistered => other_error_of("receiver not registered"@),
            RegistrationError::Io(inner) => inner,
        }
    }

    /// The error as the polling engine's callers expect it: the engine's own
    /// error unchanged, a misuse of the receiver as an error of kind `Other`
    /// that says which.
    pub fn into_io(self) -> (e: std::io::Error)
        ensures
            e == self.as_io(),
    {
        match self {
            RegistrationError::AlreadyRegistered => other_error("receiver already registered"),
            RegistrationError::NotRegistered => other_error("receiver not registered"),
            RegistrationError::Io(inner) => inner,
        }
    }
}

/// The engine's value for `readiness`: the set of the one kind readable, or
/// the set of none.
fn to_ready(readiness: Readiness) -> (ready: Ready)
    ensures
        ready_kinds(ready) == kinds_of(readiness),
{
    match readiness {
        Readiness::Empty => Ready::empty(),
        Readiness::Readable => Ready::readable(),
    }
}

/// Writes `signal` through `setter`, where there is a signal and a setter.
/// Without either nothing is written and nothing can fail; with both, the
/// polling engine's answer to the write is the result.
pub fn write_readiness(setter: Option<&SetReadiness>, signal: Option<Readiness>) -> (r: Result<
    (),
    std::io::Error,
>)
    ensures
        signal is None || setter is None ==> r is Ok,
{
    match signal {
        Some(readiness) => match setter {
            Some(setter) => setter.set_readiness(to_ready(readiness)),
            None => Ok(()),
        },
        None => Ok(()),
    }
}

impl Inner {
    /// Writes `signal` to the readiness bit, if there is a signal and the
    /// setter has been published.
    fn publish(&self, signal: Option<Readiness>) -> (r: Result<(), std::io::Error>)
        ensures
            signal is None ==> r is Ok,
    {
        write_readiness(self.set_readiness.borrow(), signal)
    }
}

/// A sending and a receiving handle on fresh shared state: nothing pending,
/// nothing registered.
pub fn ctl_pair() -> (pair: (SenderCtl, ReceiverCtl))
    ensures
        !pair.1.is_registered(),
        pair.0.shared() == pair.1.shared(),
{
    let inner = Arc::new(
        Inner { pending: AtomicUsize::new(0), set_readiness: AtomicLazyCell::new() },
    );
    let tx = SenderCtl { inner: inner.clone() };
    let rx = ReceiverCtl { registration: Lazy::new(), inner };
    (tx, rx)
}

impl SenderCtl {
    /// The state that this handle shares with the other handles of its
    /// channel.
    pub closed spec fn shared(&self) -> Inner {
        *self.inner
    }

    /// Counts one message as sent. To be called once after each message that
    /// the transport accepted. Fails only where the polling engine refuses the
    /// readiness update that the step from zero to one calls for; the message
    /// is counted either way.
    pub fn inc(&self) -> Result<(), std::io::Error> {
        let prev: usize = self.inner.pending.fetch_add(1, Ordering::Acquire);
        self.announce(prev)
    }

    /// The second half of `inc`: writes what an addition that replaced
    /// `prev` calls for. Any addition but the one from zero calls for nothing
    /// and cannot fail.
    pub fn announce(&self, prev: usize) -> (r: Result<(), std::io::Error>)
        ensures
            signal_after_increment(prev) is None ==> r is Ok,
    {
        self.inner.publish(after_increment(prev))
    }
}

impl Clone for SenderCtl {
    /// Another handle on the same shared state.
    fn clone(&self) -> (other: Self)
        ensures
            other.shared() == self.shared(),
    {
        SenderCtl { inner: self.inner.clone() }
    }
}

impl ReceiverCtl {
    /// The state that this handle shares with the sending handles of its
    /// channel.
    pub closed spec fn shared(&self) -> Inner {
        *self.inner
    }

    /// Whether `register` has succeeded on this handle.
    pub closed spec fn is_registered(&self) -> bool {
        self.registration@ is Some
    }

    /// Whether `register` has succeeded on this handle.
    pub fn registered(&self) -> (yes: bool)
        ensures
            yes == self.is_registered(),
    {
        self.registration.is_some()
    }

    /// The number of messages counted as sent and not yet counted as
    /// received, as one atomic load finds it.
    pub fn pending(&self) -> usize {
        self.inner.pending.load(Ordering::Acquire)
    }

    /// Counts one message as received. To be called once after each message
    /// that the transport handed out. Where the polling engine refuses to
    /// clear the readiness bit ahead of the subtraction, the count is left as
    /// it was.
    pub fn dec(&self) -> Result<(), std::io::Error> {
        let first: usize = self.inner.pending.load(Ordering::Acquire);
        match self.clear_ahead(first) {
            Ok(()) => {},
            Err(e) => {
                return Err(e);
            },
        }
        let second: usize = self.inner.pending.fetch_sub(1, Ordering::AcqRel);
        self.settle(first, second)
    }

    /// The write of `dec` between its load and its subtraction: what a load
    /// of `first` calls for. Any load but that of one calls for nothing and
    /// cannot fail.
    pub fn clear_ahead(&self, first: usize) -> (r: Result<(), std::io::Error>)
        ensures
            signal_before_decrement(first) is None ==> r is Ok,
    {
        self.inner.publish(before_decrement(first))
    }

    /// The write of `dec` after its subtraction: what a subtraction that
    /// replaced `second` calls for, after a load of `first`. Unless the load
    /// read one and the subtraction replaced more than one, that is nothing,
    /// and cannot fail.
    pub fn settle(&self, first: usize, second: usize) -> (r: Result<(), std::io::Error>)
        ensures
            signal_after_decrement(first, second) is None ==> r is Ok,
    {
        self.inner.publish(after_decrement(first, second))
    }

    /// What `register` leaves behind and returns, by the handle before the
    /// call. A handle that was registered is refused as such and unchanged.
    /// For any other the polling engine decides: it is registered now, or
    /// the engine's error is returned and the handle is unchanged.
    pub open spec fn register_outcome(
        before: ReceiverCtl,
        after: ReceiverCtl,
        r: Result<(), RegistrationError>,
    ) -> bool {
        &&& after.shared() == before.shared()
        &&& if before.is_registered() {
            r == Err::<(), RegistrationError>(RegistrationError::AlreadyRegistered) && after
                == before
        } else {
            ||| r is Ok && after.is_registered()
            ||| (r matches Err(RegistrationError::Io(_))) && after == before
        }
    }

    /// What `reregister` and `deregister` return, by the handle: a handle
    /// that never was registered is refused, for any other the polling
    /// engine decides.
    pub open spec fn update_outcome(self, r: Result<(), RegistrationError>) -> bool {
        if self.is_registered() {
            r is Ok || (r matches Err(RegistrationError::Io(_)))
        } else {
            r == Err::<(), RegistrationError>(RegistrationError::NotRegistered)
        }
    }

    /// Registers the receiver with `poll` under `token`. A receiver is
    /// registered once in its life: a second call is refused and changes
    /// nothing. Where the polling engine refuses to bind the registration,
    /// its error is returned and the receiver can be registered later. The
    /// fresh registration is made readable at once where messages are already
    /// pending; the polling engine's answer to that first write is not waited
    /// on, since the next send or receive writes again.
    pub fn register(&mut self, poll: &Poll, token: Token, interest: Ready, opts: PollOpt) -> (r:
        Result<(), RegistrationError>)
        ensures
            ReceiverCtl::register_outcome(*old(self), *final(self), r),
    {
        if self.registration.is_some() {
            return Err(RegistrationError::AlreadyRegistered);
        }
        let (registration, setter) = Registration::new2();
        match RegistrationError::from_engine(registration.update(poll, token, interest, opts)) {
            Ok(()) => {},
            Err(e) => {
                return Err(e);
            },
        }
        let pending: usize = self.inner.pending.load(Ordering::Relaxed);
        let _ = write_readiness(Some(&setter), at_registration(pending));
        let _ = self.registration.set(registration);
        let _ = self.inner.set_readiness.fill(setter);
        Ok(())
    }

    /// Changes token, interest and options of the registration.
    pub fn reregister(&self, poll: &Poll, token: Token, interest: Ready, opts: PollOpt) -> (r:
        Result<(), RegistrationError>)
        ensures
            self.update_outcome(r),
    {
        match self.registration.as_ref() {
            Some(registration) => RegistrationError::from_engine(
                registration.update(poll, token, interest, opts),
            ),
            None => Err(RegistrationError::NotRegistered),
        }
    }

    /// Takes the registration out of `poll`. The receiver stays registered in
    /// the sense of `register`: it cannot be registered anew.
    pub fn deregister(&self, poll: &Poll) -> (r: Result<(), RegistrationError>)
        ensures
            self.update_outcome(r),
    {
        match self.registration.as_ref() {
            Some(registration) => RegistrationError::from_engine(registration.deregister(poll)),
            None => Err(RegistrationError::NotRegistered),
        }
    }
}

/// A receiver is registered at most once: after a call of `register` that
/// the polling engine did not refuse, a second call on the same handle is
/// refused as already registered and leaves the handle as it was.
pub proof fn law_registered_once(
    fresh: ReceiverCtl,
    once: ReceiverCtl,
    twice: ReceiverCtl,
    first: Result<(), RegistrationError>,
    second: Result<(), RegistrationError>,
)
    requires
        ReceiverCtl::register_outcome(fresh, once, first),
        ReceiverCtl::register_outcome(once, twice, second),
        !(first matches Err(RegistrationError::Io(_))),
    ensures
        second == Err::<(), RegistrationError>(RegistrationError::AlreadyRegistered),
        twice == once,
{
}

/// Before the first `register`, as after `ctl_pair`, a change to the
/// registration and its removal are both refused as not registered; after a
/// `register` that succeeded, neither is refused on that ground again. A
/// `register` that the polling engine refused leaves both refused as before.
pub proof fn law_update_needs_registration(
    fresh: ReceiverCtl,
    once: ReceiverCtl,
    first: Result<(), RegistrationError>,
    early: Result<(), RegistrationError>,
    late: Result<(), RegistrationError>,
)
    requires
        !fresh.is_registered(),
        fresh.update_outcome(early),
        ReceiverCtl::register_outcome(fresh, once, first),
        once.update_outcome(late),
    ensures
        early == Err::<(), RegistrationError>(RegistrationError::NotRegistered),
        first is Ok || (first matches Err(RegistrationError::Io(_))),
        first is Ok ==> late != Err::<(), RegistrationError>(RegistrationError::NotRegistered),
        first is Err ==> late == Err::<(), RegistrationError>(RegistrationError::NotRegistered),
{
}

} // verus!
