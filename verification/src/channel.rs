//! The control channel between the registry and a session: a bounded channel
//! of the `tokio` crate that carries cancellation signals.
//!
//! Nothing in this file is proved. Each item states what is taken on trust
//! from `tokio`.

use vstd::prelude::*;
use tokio::sync::mpsc::error::{TryRecvError, TrySendError};
use tokio::sync::mpsc::{Receiver, Sender};
use crate::session::ControlPoll;

verus! {

/// `tokio::sync::mpsc::Sender`, the sending half of a channel. Its contents
/// are not looked into.
#[verifier::external_type_specification]
#[verifier::external_body]
#[verifier::reject_recursive_types(T)]
pub struct ExSender<T>(Sender<T>);

/// `tokio::sync::mpsc::Receiver`, the receiving half of a channel. Its
/// contents are not looked into.
#[verifier::external_type_specification]
#[verifier::external_body]
#[verifier::reject_recursive_types(T)]
pub struct ExReceiver<T>(Receiver<T>);

/// The most signals that a channel may be made to hold: an eighth of the
/// largest `usize`, rounded down. `tokio` refuses a larger capacity.
pub const MAX_CAPACITY: usize = usize::MAX / 8;

/// How an attempt to signal went.
#[derive(Clone, Copy, Debug, PartialEq, Eq, Structural)]
pub enum Delivery {
    /// The signal is in the channel.
    Delivered,
    /// The channel holds as many signals as it can; this one was dropped.
    Full,
    /// The receiving half is closed or gone; this signal was dropped.
    Closed,
}

/// `tokio::sync::mpsc::channel`: makes a channel that holds up to `capacity`
/// signals. The function panics on a capacity of 0 and on one above
/// [`MAX_CAPACITY`], which `requires` leaves out. Nothing is claimed of the
/// two halves.
#[verifier::external_body]
pub(crate) fn open_channel(capacity: usize) -> (halves: (Sender<()>, Receiver<()>))
    requires
        0 < capacity <= MAX_CAPACITY,
{
    tokio::sync::mpsc::channel(capacity)
}

/// `tokio::sync::mpsc::Sender::try_send`: puts a signal into the channel
/// without waiting. How it goes depends on what the channel holds and on
/// whether its receiving half is still there, so nothing is claimed of the
/// result.
#[verifier::external_body]
pub(crate) fn try_signal(sender: &Sender<()>) -> (delivery: Delivery) {
    match sender.try_send(()) {
        Ok(()) => Delivery::Delivered,
        Err(TrySendError::Full(())) => Delivery::Full,
        Err(TrySendError::Closed(())) => Delivery::Closed,
    }
}

/// `tokio::sync::mpsc::Receiver::try_recv`: takes a waiting signal out of the
/// channel without waiting for one. What it finds depends on what was sent
/// and on whether a sending half is still there, so nothing is claimed of the
/// result.
#[verifier::external_body]
pub(crate) fn poll_control(receiver: &mut Receiver<()>) -> (poll: ControlPoll) {
    match receiver.try_recv() {
        Ok(()) => ControlPoll::Signalled,
        Err(TryRecvError::Empty) => ControlPoll::Idle,
        Err(TryRecvError::Disconnected) => ControlPoll::Disconnected,
    }
}

} // verus!
