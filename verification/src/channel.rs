//! The typed ends of a channel: the transport's handles, each paired with
//! its half of the bookkeeping.

use vstd::prelude::*;
use vstd::std_specs::convert::FromSpecImpl;
use std::sync::mpsc;
use mio::{Poll, PollOpt, Ready, Token};
use crate::control::{ctl_pair, ReceiverCtl, RegistrationError, SenderCtl};
use crate::transport::{clone_sender, clone_sync_sender};

verus! {

/// The sending end. It can be cloned; all clones feed the one receiver.
#[verifier::reject_recursive_types(T)]
pub struct Sender<T> {
    tx: StdSender<T>,
    ctl: SenderCtl,
}

/// The transport's producer handle, of the bounded or the unbounded kind.
#[verifier::reject_recursive_types(T)]
pub enum StdSender<T> {
    Bounded(mpsc::SyncSender<T>),
    Unbounded(mpsc::Sender<T>),
}

/// The receiving end. There is one per channel.
#[verifier::reject_recursive_types(T)]
pub struct Receiver<T> {
    rx: mpsc::Receiver<T>,
    ctl: ReceiverCtl,
}

/// Why `send` failed.
#[derive(Debug)]
pub enum SendError<T> {
    /// The message was delivered, but the polling engine refused the
    /// readiness update that went with it.
    Io(std::io::Error),
    /// The receiver is gone. The message comes back.
    Disconnected(T),
}

/// Why `try_send` failed.
#[derive(Debug)]
pub enum TrySendError<T> {
    /// The message was delivered, but the polling engine refused the
    /// readiness update that went with it.
    Io(std::io::Error),
    /// The bounded transport is full. The message comes back.
    Full(T),
    /// The receiver is gone. The message comes back.
    Disconnected(T),
}

impl<T> From<mpsc::SendError<T>> for SendError<T> {
    fn from(src: mpsc::SendError<T>) -> (e: SendError<T>) {
        SendError::Disconnected(src.0)
    }
}

impl<T> FromSpecImpl<mpsc::SendError<T>> for SendError<T> {
    open spec fn obeys_from_spec() -> bool {
        true
    }

    open spec fn from_spec(src: mpsc::SendError<T>) -> SendError<T> {
        SendError::Disconnected(src.0)
    }
}

impl<T> From<std::io::Error> for SendError<T> {
    fn from(src: std::io::Error) -> (e: SendError<T>) {
        SendError::Io(src)
    }
}

impl<T> FromSpecImpl<std::io::Error> for SendError<T> {
    open spec fn obeys_from_spec() -> bool {
        true
    }

    open spec fn from_spec(src: std::io::Error) -> SendError<T> {
        SendError::Io(src)
    }
}

impl<T> From<mpsc::TrySendError<T>> for TrySendError<T> {
    fn from(src: mpsc::TrySendError<T>) -> (e: TrySendError<T>) {
        match src {
            mpsc::TrySendError::Full(v) => TrySendError::Full(v),
            mpsc::TrySendError::Disconnected(v) => TrySendError::Disconnected(v),
        }
    }
}

impl<T> FromSpecImpl<mpsc::TrySendError<T>> for TrySendError<T> {
    open spec fn obeys_from_spec() -> bool {
        true
    }

    open spec fn from_spec(src: mpsc::TrySendError<T>) -> TrySendError<T> {
        match src {
            mpsc::TrySendError::Full(v) => TrySendError::Full(v),
            mpsc::TrySendError::Disconnected(v) => TrySendError::Disconnected(v),
        }
    }
}

impl<T> From<mpsc::SendError<T>> for TrySendError<T> {
    fn from(src: mpsc::SendError<T>) -> (e: TrySendError<T>) {
        TrySendError::Disconnected(src.0)
    }
}

impl<T> FromSpecImpl<mpsc::SendError<T>> for TrySendError<T> {
    open spec fn obeys_from_spec() -> bool {
        true
    }

    open spec fn from_spec(src: mpsc::SendError<T>) -> TrySendError<T> {
        TrySendError::Disconnected(src.0)
    }
}

impl<T> From<std::io::Error> for TrySendError<T> {
    fn from(src: std::io::Error) -> (e: TrySendError<T>) {
        TrySendError::Io(src)
    }
}

impl<T> FromSpecImpl<std::io::Error> for TrySendError<T> {
    open spec fn obeys_from_spec() -> bool {
        true
    }

    open spec fn from_spec(src: std::io::Error) -> TrySendError<T> {
        TrySendError::Io(src)
    }
}

impl<T> SendError<T> {
    /// What counting an accepted message came to, as the result of the send:
    /// a success stays one, and the polling engine's error is handed on
    /// inside `Io`.
    pub fn after_count(counted: Result<(), std::io::Error>) -> (r: Result<(), SendError<T>>)
        ensures
            counted is Ok ==> r is Ok,
            counted matches Err(e) ==> r == Err::<(), SendError<T>>(SendError::Io(e)),
    {
        match counted {
            Ok(()) => Ok(()),
            Err(e) => Err(SendError::from(e)),
        }
    }
}

impl<T> TrySendError<T> {
    /// What counting an accepted message came to, as the result of the send:
    /// a success stays one, and the polling engine's error is handed on
    /// inside `Io`.
    pub fn after_count(counted: Result<(), std::io::Error>) -> (r: Result<(), TrySendError<T>>)
        ensures
            counted is Ok ==> r is Ok,
            counted matches Err(e) ==> r == Err::<(), TrySendError<T>>(TrySendError::Io(e)),
    {
        match counted {
            Ok(()) => Ok(()),
            Err(e) => Err(TrySendError::from(e)),
        }
    }
}

impl<T> StdSender<T> {
    /// Hands `t` to the transport, waiting for room where it is bounded and
    /// full. The only failure is a receiver that is gone, and `t` comes back
    /// with it.
    pub fn send(&self, t: T) -> (r: Result<(), SendError<T>>)
        ensures
            r matches Err(e) ==> e == SendError::Disconnected(t),
    {
        match self {
            StdSender::Bounded(tx) => match tx.send(t) {
                Ok(()) => Ok(()),
                Err(e) => Err(SendError::from(e)),
            },
            StdSender::Unbounded(tx) => match tx.send(t) {
                Ok(()) => Ok(()),
                Err(e) => Err(SendError::from(e)),
            },
        }
    }

    /// Hands `t` to the transport without waiting. It fails where the
    /// receiver is gone or, for a bounded transport only, where there is no
    /// room; `t` comes back with either.
    pub fn try_send(&self, t: T) -> (r: Result<(), TrySendError<T>>)
        ensures
            r matches Err(e) ==> e == TrySendError::Disconnected(t) || (self is Bounded && e
                == TrySendError::Full(t)),
    {
        match self {
            StdSender::Bounded(tx) => match tx.try_send(t) {
                Ok(()) => Ok(()),
                Err(e) => Err(TrySendError::from(e)),
            },
            StdSender::Unbounded(tx) => match tx.send(t) {
                Ok(()) => Ok(()),
                Err(e) => Err(TrySendError::from(e)),
            },
        }
    }
}

/// An unbounded channel on the two ends of a standard unbounded queue.
pub fn from_std_channel<T>(pair: (mpsc::Sender<T>, mpsc::Receiver<T>)) -> (ends: (
    Sender<T>,
    Receiver<T>,
))
    ensures
        ends.0.transport() == StdSender::Unbounded(pair.0),
        ends.1.transport() == pair.1,
        ends.0.control().shared() == ends.1.control().shared(),
        !ends.1.is_registered(),
{
    let (tx_ctl, rx_ctl) = ctl_pair();
    let tx = Sender { tx: StdSender::Unbounded(pair.0), ctl: tx_ctl };
    let rx = Receiver { rx: pair.1, ctl: rx_ctl };
    (tx, rx)
}

/// A bounded channel on the two ends of a standard bounded queue.
pub fn from_std_sync_channel<T>(pair: (mpsc::SyncSender<T>, mpsc::Receiver<T>)) -> (ends: (
    Sender<T>,
    Receiver<T>,
))
    ensures
        ends.0.transport() == StdSender::Bounded(pair.0),
        ends.1.transport() == pair.1,
        ends.0.control().shared() == ends.1.control().shared(),
        !ends.1.is_registered(),
{
    let (tx_ctl, rx_ctl) = ctl_pair();
    let tx = Sender { tx: StdSender::Bounded(pair.0), ctl: tx_ctl };
    let rx = Receiver { rx: pair.1, ctl: rx_ctl };
    (tx, rx)
}

impl<T> Sender<T> {
    /// The transport's producer handle.
    pub closed spec fn transport(&self) -> StdSender<T> {
        self.tx
    }

    /// The sending half of the bookkeeping.
    pub closed spec fn control(&self) -> SenderCtl {
        self.ctl
    }

    /// Follows up on what the transport answered to a blocking send. A
    /// message that it accepted is counted, and only a readiness update that
    /// the polling engine refuses can then turn the answer into an error,
    /// which `SendError::after_count` makes of the engine's own; a message that
    /// the transport gave back is not counted, and the answer stands.
    pub fn count_sent(&self, sent: Result<(), SendError<T>>) -> (r: Result<(), SendError<T>>)
        ensures
            sent is Err ==> r == sent,
            sent is Ok ==> r is Ok || (r matches Err(SendError::Io(_))),
    {
        match sent {
            Ok(()) => SendError::after_count(self.ctl.inc()),
            Err(e) => Err(e),
        }
    }

    /// Follows up on what the transport answered to a send that does not
    /// wait, as `count_sent` does for one that waits.
    pub fn count_try_sent(&self, sent: Result<(), TrySendError<T>>) -> (r: Result<
        (),
        TrySendError<T>,
    >)
        ensures
            sent is Err ==> r == sent,
            sent is Ok ==> r is Ok || (r matches Err(TrySendError::Io(_))),
    {
        match sent {
            Ok(()) => TrySendError::after_count(self.ctl.inc()),
            Err(e) => Err(e),
        }
    }

    /// Sends `t`, waiting for room where the transport is bounded and full,
    /// and counts it. A receiver that is gone gives `t` back. A refused
    /// readiness update is reported although `t` was delivered.
    pub fn send(&self, t: T) -> (r: Result<(), SendError<T>>)
        ensures
            r matches Err(e) ==> e is Io || e == SendError::Disconnected(t),
    {
        self.count_sent(self.tx.send(t))
    }

    /// Sends `t` without waiting, and counts it. A receiver that is gone, or
    /// a bounded transport that is full, gives `t` back. A refused readiness
    /// update is reported although `t` was delivered.
    pub fn try_send(&self, t: T) -> (r: Result<(), TrySendError<T>>)
        ensures
            r matches Err(e) ==> e is Io || e == TrySendError::Disconnected(t) || (
            self.transport() is Bounded && e == TrySendError::Full(t)),
    {
        self.count_try_sent(self.tx.try_send(t))
    }
}

impl<T> Clone for Sender<T> {
    /// Another sending end of the same channel.
    fn clone(&self) -> (other: Sender<T>)
        ensures
            other.transport() is Bounded == (self.transport() is Bounded),
            other.control().shared() == self.control().shared(),
    {
        Sender { tx: self.tx.clone(), ctl: self.ctl.clone() }
    }
}

impl<T> Receiver<T> {
    /// The transport's consumer handle.
    pub closed spec fn transport(&self) -> mpsc::Receiver<T> {
        self.rx
    }

    /// The receiving half of the bookkeeping.
    pub closed spec fn control(&self) -> ReceiverCtl {
        self.ctl
    }

    /// Whether `register` has succeeded on this receiver.
    pub open spec fn is_registered(&self) -> bool {
        self.control().is_registered()
    }

    /// Follows up on what the transport answered to a receive. A message
    /// that it handed out is counted as received. The answer itself is
    /// returned as it came: a readiness update that the polling engine
    /// refuses does not turn a received message into an error.
    pub fn count_received(&self, taken: Result<T, mpsc::TryRecvError>) -> (r: Result<
        T,
        mpsc::TryRecvError,
    >)
        ensures
            r == taken,
    {
        match taken {
            Ok(message) => {
                let _ = self.ctl.dec();
                Ok(message)
            },
            Err(e) => Err(e),
        }
    }

    /// Takes the next message if one is there, and counts it as received.
    /// The transport says whether there was one, and if not, whether the
    /// senders are merely silent or all gone.
    pub fn try_recv(&self) -> Result<T, mpsc::TryRecvError> {
        self.count_received(self.rx.try_recv())
    }

    /// The number of messages counted as sent and not yet counted as
    /// received, as one atomic load finds it.
    pub fn pending(&self) -> usize {
        self.ctl.pending()
    }

    /// Registers the receiver with `poll` under `token`; see
    /// [`ReceiverCtl::register`].
    pub fn register(&mut self, poll: &Poll, token: Token, interest: Ready, opts: PollOpt) -> (r:
        Result<(), RegistrationError>)
        ensures
            ReceiverCtl::register_outcome(old(self).control(), final(self).control(), r),
            final(self).transport() == old(self).transport(),
    {
        self.ctl.register(poll, token, interest, opts)
    }

    /// Changes token, interest and options of the registration.
    pub fn reregister(&self, poll: &Poll, token: Token, interest: Ready, opts: PollOpt) -> (r:
        Result<(), RegistrationError>)
        ensures
            self.control().update_outcome(r),
    {
        self.ctl.reregister(poll, token, interest, opts)
    }

    /// Takes the registration out of `poll`.
    pub fn deregister(&self, poll: &Poll) -> (r: Result<(), RegistrationError>)
        ensures
            self.control().update_outcome(r),
    {
        self.ctl.deregister(poll)
    }
}

impl<T> Clone for StdSender<T> {
    /// Another producer handle of the same kind on the same transport.
    fn clone(&self) -> (other: StdSender<T>)
        ensures
            other is Bounded == (self is Bounded),
    {
        match self {
            StdSender::Bounded(tx) => StdSender::Bounded(clone_sync_sender(tx)),
            StdSender::Unbounded(tx) => StdSender::Unbounded(clone_sender(tx)),
        }
    }
}

} // verus!
