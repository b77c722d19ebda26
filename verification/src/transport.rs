//! The FIFO transport: the standard library's multi-producer,
//! single-consumer queue, bounded or unbounded. Nothing here is proved; each
//! item says what is taken on trust.

use vstd::prelude::*;

verus! {

/// `std::sync::mpsc::Sender`, the producer handle of an unbounded queue.
#[verifier::external_type_specification]
#[verifier::external_body]
#[verifier::reject_recursive_types(T)]
pub struct ExSender<T>(std::sync::mpsc::Sender<T>);

/// `std::sync::mpsc::SyncSender`, the producer handle of a bounded queue.
#[verifier::external_type_specification]
#[verifier::external_body]
#[verifier::reject_recursive_types(T)]
pub struct ExSyncSender<T>(std::sync::mpsc::SyncSender<T>);

/// `std::sync::mpsc::Receiver`, the consumer handle of either queue.
#[verifier::external_type_specification]
#[verifier::external_body]
#[verifier::reject_recursive_types(T)]
pub struct ExReceiver<T>(std::sync::mpsc::Receiver<T>);

/// `std::sync::mpsc::SendError`: the value that could not be sent.
#[verifier::external_type_specification]
pub struct ExSendError<T>(std::sync::mpsc::SendError<T>);

/// `std::sync::mpsc::TrySendError`: the queue was full, or the receiver is
/// gone; either way with the value that could not be sent.
#[verifier::external_type_specification]
pub struct ExTrySendError<T>(std::sync::mpsc::TrySendError<T>);

/// `std::sync::mpsc::TryRecvError`: the queue was empty, or every sender is
/// gone.
#[verifier::external_type_specification]
pub struct ExTryRecvError(std::sync::mpsc::TryRecvError);

/// `Sender::send`. Whether it succeeds depends on whether the receiver is
/// still there. Claimed: an error carries the very value that was to be sent.
pub assume_specification<T>[ std::sync::mpsc::Sender::<T>::send ](
    tx: &std::sync::mpsc::Sender<T>,
    t: T,
) -> (r: Result<(), std::sync::mpsc::SendError<T>>)
    ensures
        r matches Err(e) ==> e.0 == t,
;

/// `SyncSender::send`. It may block while the queue is full. Claimed: an
/// error carries the very value that was to be sent.
pub assume_specification<T>[ std::sync::mpsc::SyncSender::<T>::send ](
    tx: &std::sync::mpsc::SyncSender<T>,
    t: T,
) -> (r: Result<(), std::sync::mpsc::SendError<T>>)
    ensures
        r matches Err(e) ==> e.0 == t,
;

/// `SyncSender::try_send`. Claimed: an error, of either kind, carries the
/// very value that was to be sent.
pub assume_specification<T>[ std::sync::mpsc::SyncSender::<T>::try_send ](
    tx: &std::sync::mpsc::SyncSender<T>,
    t: T,
) -> (r: Result<(), std::sync::mpsc::TrySendError<T>>)
    ensures
        r matches Err(e) ==> e == std::sync::mpsc::TrySendError::Full(t) || e
            == std::sync::mpsc::TrySendError::Disconnected(t),
;

/// `Receiver::try_recv`. Nothing is claimed of what it returns.
pub assume_specification<T>[ std::sync::mpsc::Receiver::<T>::try_recv ](
    rx: &std::sync::mpsc::Receiver<T>,
) -> (r: Result<T, std::sync::mpsc::TryRecvError>)
;

/// `Clone` for `Sender`. Nothing is claimed of the new handle.
#[verifier::external_body]
pub(crate) fn clone_sender<T>(tx: &std::sync::mpsc::Sender<T>) -> (other: std::sync::mpsc::Sender<
    T,
>) {
    tx.clone()
}

/// `Clone` for `SyncSender`. Nothing is claimed of the new handle.
#[verifier::external_body]
pub(crate) fn clone_sync_sender<T>(tx: &std::sync::mpsc::SyncSender<T>) -> (other:
    std::sync::mpsc::SyncSender<T>) {
    tx.clone()
}

} // verus!
