//! The bounded channels that carry values between the threads of a trap.

use crossbeam_channel::{Receiver, Sender, TryRecvError};
use vstd::prelude::*;

verus! {

/// The sending half of a channel of `crossbeam_channel`.
#[verifier::external_type_specification]
#[verifier::external_body]
#[verifier::reject_recursive_types(T)]
pub struct ExSender<T>(Sender<T>);

/// The receiving half of a channel of `crossbeam_channel`.
#[verifier::external_type_specification]
#[verifier::external_body]
#[verifier::reject_recursive_types(T)]
pub struct ExReceiver<T>(Receiver<T>);

/// The largest capacity with which this library makes a channel.
pub const MAX_CAPACITY: usize = 2;

/// Why a receiver had nothing to hand out.
#[derive(Debug, Clone, Copy, PartialEq, Eq, Structural)]
pub enum Starved {
    /// No message is waiting, and one may still come.
    Empty,
    /// No message is waiting and every sender is gone.
    Disconnected,
}

/// `crossbeam_channel::bounded`: a new channel that holds at most `cap`
/// messages. The outside function panics on a capacity too large for its
/// buffer; the small capacities admitted here are far from that. Nothing is
/// claimed of the two halves.
#[verifier::external_body]
pub(crate) fn bounded<T>(cap: usize) -> (halves: (Sender<T>, Receiver<T>))
    requires
        cap <= MAX_CAPACITY,
{
    crossbeam_channel::bounded(cap)
}

/// `Sender::send`: hands `msg` to the channel, waiting while it is full. The
/// result says whether the message was taken; it is `false` when every
/// receiver is gone. Which of the two happens rests with the other threads,
/// so nothing is claimed of it.
#[verifier::external_body]
pub(crate) fn send<T>(sender: &Sender<T>, msg: T) -> (sent: bool) {
    sender.send(msg).is_ok()
}

/// `Receiver::recv`: the next message, waiting while the channel is empty;
/// `None` once it is empty and every sender is gone. What arrives rests with
/// the other threads, so nothing is claimed of it.
#[verifier::external_body]
pub(crate) fn recv<T>(receiver: &Receiver<T>) -> (msg: Option<T>) {
    receiver.recv().ok()
}

/// `Receiver::try_recv`: the next message if one is waiting, without
/// blocking; otherwise which of the two reasons left the receiver without one.
/// What arrives rests with the other threads, so nothing is claimed of it.
#[verifier::external_body]
pub(crate) fn try_recv<T>(receiver: &Receiver<T>) -> (msg: Result<T, Starved>) {
    match receiver.try_recv() {
        Ok(msg) => Ok(msg),
        Err(TryRecvError::Empty) => Err(Starved::Empty),
        Err(TryRecvError::Disconnected) => Err(Starved::Disconnected),
    }
}

} // verus!
