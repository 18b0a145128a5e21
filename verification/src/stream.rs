//! Trapped signals as a stream: the handler puts each signal into a bounded
//! channel, and the body of the trap polls the other end.

use crate::channel::{bounded, send, try_recv, Starved};
use crate::error::Error;
use crate::host::Host;
use crate::listener::{startup_calls, teardown_calls, TrapThreadData};
use crate::scope::{bracketed, holds, trap, Session};
use crate::signal::Signal;
use crossbeam_channel::{Receiver, Sender};
use vstd::prelude::*;
use vstd::slice::slice_to_vec;

verus! {

/// The number of signals that wait between the handler and the stream.
pub const STREAM_CAPACITY: usize = 1;

/// What a poll of a stream finds.
#[derive(Debug, PartialEq, Eq)]
pub enum Async<T> {
    /// A value is there.
    Ready(T),
    /// No value is there yet.
    NotReady,
}

/// The stream of the signals trapped by [`trap_stream`].
pub struct SignalStream {
    recv: Receiver<Signal>,
}

/// The end of a [`SignalStream`] that a handler holds.
pub struct SignalSender {
    send: Sender<Signal>,
}

/// What a poll makes of what the channel handed out: a signal that waited is
/// the next item; an empty channel is not ready; and the stream has ended
/// once the channel is empty and its sender is gone, which is when the trap
/// is closed.
pub open spec fn poll_of(received: Result<Signal, Starved>) -> Async<Option<Signal>> {
    match received {
        Ok(signal) => Async::Ready(Some(signal)),
        Err(Starved::Empty) => Async::NotReady,
        Err(Starved::Disconnected) => Async::Ready(None),
    }
}

/// A sender and the stream that it feeds.
pub fn signal_channel() -> (ends: (SignalSender, SignalStream)) {
    let (send, recv) = bounded(STREAM_CAPACITY);
    (SignalSender { send }, SignalStream { recv })
}

impl SignalSender {
    /// Puts `signal` into the stream, waiting while the signal before it has
    /// not been taken. The result says whether the stream was there to take
    /// it.
    pub fn deliver(&self, signal: Signal) -> (delivered: bool) {
        send(&self.send, signal)
    }
}

impl SignalStream {
    /// What a poll makes of what the channel handed out.
    pub fn poll_outcome(received: Result<Signal, Starved>) -> (outcome: Async<Option<Signal>>)
        ensures
            outcome == poll_of(received),
    {
        match received {
            Ok(signal) => Async::Ready(Some(signal)),
            Err(Starved::Empty) => Async::NotReady,
            Err(Starved::Disconnected) => Async::Ready(None),
        }
    }

    /// Looks for the next signal without waiting: `Ready(Some(..))` with a
    /// signal that waited, `NotReady` if none does, and `Ready(None)` once the
    /// stream has ended. Which of them it is rests with the handler's end of
    /// the channel; [`SignalStream::poll_outcome`] says what is made of each
    /// answer of the channel.
    pub fn poll(&mut self) -> (outcome: Async<Option<Signal>>) {
        SignalStream::poll_outcome(try_recv(&self.recv))
    }
}

/// Traps `signals` into a [`SignalStream`]: while `body` runs, every signal
/// trapped is an item of the stream that the body receives.
///
/// * `wrap` - makes the handler of the trap from the sender of the stream.
///   The handler delivers each signal to the sender and then wakes whoever
///   polls the stream.
/// * `body` - the work to do while the trap is active, with the session and
///   the stream. The stream ends when the trap is closed.
///
/// The other arguments, the result and the state afterwards are those of
/// [`trap`].
pub fn trap_stream<H, P, RT, W, B>(
    session: &mut Session<H, P>,
    caller: u32,
    signals: &[Signal],
    wrap: W,
    body: B,
) -> (result: Result<RT, Error>) where
    H: Clone,
    P: Host,
    W: FnOnce(SignalSender) -> H,
    B: FnOnce(&mut Session<H, P>, SignalStream) -> RT,

    requires
        old(session).accepts(caller),
        old(session).stack.wf(),
        old(session).stack.count() < usize::MAX,
        forall|sender: SignalSender| #[trigger] wrap.requires((sender,)),
        forall|inner: &mut Session<H, P>, stream: SignalStream, handler: H|
            #![trigger body.requires((inner, stream)), inner.stack.is_push_of(&old(session).stack, signals@, handler)]
            {
                &&& inner.stack.wf()
                &&& inner.stack.is_push_of(&old(session).stack, signals@, handler)
                &&& inner.owner() == Some(caller)
                &&& inner.forwarding_message() == old(session).forwarding_message()
            } ==> body.requires((inner, stream)),
        forall|inner: &mut Session<H, P>, stream: SignalStream, value: RT| #[trigger]
            body.ensures((inner, stream), value) ==> {
                &&& final(inner).stack.wf()
                &&& final(inner).stack.same_as(&inner.stack)
                &&& final(inner).owner() == inner.owner()
                &&& final(inner).forwarding_message() == inner.forwarding_message()
                &&& inner.driver.trace().is_prefix_of(final(inner).driver.trace())
            },
    ensures
        final(session).stack.wf(),
        final(session).stack.same_as(&old(session).stack),
        final(session).owner() == Some(caller),
        final(session).forwarding_message() == old(session).forwarding_message(),
        old(session).driver.trace().is_prefix_of(final(session).driver.trace()),
        old(session).stack.count() > 0 ==> result is Ok,
        result matches Err(error) ==> {
            &&& old(session).stack.count() == 0
            &&& final(session).driver.trace() == old(session).driver.trace() + startup_calls(Err(error))
        },
        result is Ok && old(session).stack.count() == 0 ==> exists|listener: TrapThreadData|
            bracketed(
                final(session).driver.trace(),
                old(session).driver.trace() + #[trigger] startup_calls(Ok(listener)),
                teardown_calls(listener),
            ),
        result matches Ok(value) ==> forall|property: spec_fn(RT) -> bool|
            (forall|inner: &mut Session<H, P>, stream: SignalStream, any: RT| #[trigger]
                body.ensures((inner, stream), any) ==> property(any)) ==> #[trigger] holds(
                property,
                value,
            ),
{
    let (sender, stream) = signal_channel();
    let handler = wrap(sender);
    let ghost before = session.stack;
    let ghost id = session.forwarding_message();
    let scoped = move |inner: &mut Session<H, P>| -> (value: RT)
        requires
            inner.stack.wf(),
            inner.stack.is_push_of(&before, signals@, handler),
            inner.owner() == Some(caller),
            inner.forwarding_message() == id,
        ensures
            final(inner).stack.wf(),
            final(inner).stack.same_as(&old(inner).stack),
            final(inner).owner() == old(inner).owner(),
            final(inner).forwarding_message() == old(inner).forwarding_message(),
            old(inner).driver.trace().is_prefix_of(final(inner).driver.trace()),
            forall|property: spec_fn(RT) -> bool|
                (forall|other: &mut Session<H, P>, items: SignalStream, any: RT| #[trigger]
                    body.ensures((other, items), any) ==> property(any)) ==> #[trigger] holds(
                    property,
                    value,
                ),
        { body(inner, stream) };
    let result = trap(session, caller, slice_to_vec(signals), handler, scoped);
    proof {
        if result is Ok {
            let value = result->Ok_0;
            assert forall|property: spec_fn(RT) -> bool|
                (forall|inner: &mut Session<H, P>, items: SignalStream, any: RT| #[trigger]
                    body.ensures((inner, items), any) ==> property(any)) implies #[trigger] holds(
                property,
                value,
            ) by {
                assert forall|inner: &mut Session<H, P>, any: RT| #[trigger]
                    scoped.ensures((inner,), any) implies property(any) by {
                    assert(holds(property, any));
                }
            }
        }
    }
    result
}

} // verus!
