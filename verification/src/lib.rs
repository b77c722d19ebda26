//! A message channel whose receiving half can be watched by a readiness-based
//! polling loop next to sockets and timers.
//!
//! The values travel through a standard multi-producer, single-consumer
//! queue. Beside it the two ends keep a shared count of unread messages and
//! toggle one readiness bit of the polling engine when that count leaves or
//! reaches zero, without a lock.

pub mod channel;
pub mod control;
pub mod engine;
pub mod lazy;
pub mod model;
pub mod readiness;
pub mod transport;

pub use channel::{
    from_std_channel, from_std_sync_channel, Receiver, SendError, Sender, StdSender, TrySendError,
};
pub use control::{ctl_pair, ReceiverCtl, RegistrationError, SenderCtl};
pub use lazy::Lazy;
pub use readiness::Readiness;
