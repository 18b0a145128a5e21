//! Traps as scopes: a trap is opened, a body of work runs, and the trap is
//! closed again, innermost first.

use crate::error::Error;
use crate::host::{Driver, Host, HostEvent};
use crate::laws::lemma_pop_undoes_push;
use crate::listener::{startup_calls, teardown_calls, TrapThreadData};
use crate::signal::Signal;
use crate::stack::TrapStack;
use vstd::prelude::*;

verus! {

/// Everything that the traps of a process share: the registration stack, the
/// host, the thread that owns the traps and the identifier under which
/// console control events are forwarded to the listener.
pub struct Session<H, P> {
    /// The registration stack.
    pub stack: TrapStack<H>,
    /// The binding to the operating system, behind the driver that keeps
    /// the history of the calls made on it.
    pub driver: Driver<P>,
    /// The thread that owns the traps, once a trap was opened.
    pub owner: Option<u32>,
    /// The identifier under which console control events are forwarded.
    pub console_ctrl: u32,
}

/// One live trap. It keeps the signals it was opened with, and closing it
/// takes exactly those from the registration stack.
pub struct Trap {
    signals: Vec<Signal>,
}

impl<H, P: Host> Session<H, P> {
    /// The thread that owns the traps: the first one that opened a trap.
    pub open spec fn owner(&self) -> Option<u32> {
        self.owner
    }

    /// The identifier under which console control events are forwarded.
    pub open spec fn forwarding_message(&self) -> u32 {
        self.console_ctrl
    }

    /// `thread` may open traps: no thread owns them yet, or this one does.
    pub open spec fn accepts(&self, thread: u32) -> bool {
        self.owner() is None || self.owner() == Some(thread)
    }

    /// A session without traps and without an owner. `console_ctrl` is the
    /// message identifier that the system has registered for forwarding
    /// console control events.
    pub fn new(host: P, console_ctrl: u32) -> (session: Session<H, P>)
        ensures
            session.stack.wf(),
            session.stack.is_idle(),
            session.driver.host == host,
            session.driver.trace() == Seq::<HostEvent>::empty(),
            session.owner() is None,
            session.forwarding_message() == console_ctrl,
    {
        Session { stack: TrapStack::new(), driver: Driver::new(host), owner: None, console_ctrl }
    }

    /// The identifier under which console control events are forwarded.
    pub fn console_ctrl(&self) -> (id: u32)
        ensures
            id == self.forwarding_message(),
    {
        self.console_ctrl
    }

    /// The thread that owns the traps, once a trap was opened.
    pub fn owner_thread(&self) -> (owner: Option<u32>)
        ensures
            owner == self.owner(),
    {
        self.owner
    }

    /// The owner check that precedes every trap. The first thread that asks
    /// becomes the owner. The result says whether `thread` may open traps; a
    /// refusal changes nothing.
    pub fn claim(&mut self, thread: u32) -> (accepted: bool)
        ensures
            accepted == old(self).accepts(thread),
            accepted ==> final(self).owner() == Some(thread),
            !accepted ==> final(self).owner() == old(self).owner(),
            final(self).stack == old(self).stack,
            final(self).driver == old(self).driver,
            final(self).forwarding_message() == old(self).forwarding_message(),
    {
        match self.owner {
            None => {
                self.owner = Some(thread);
                true
            },
            Some(owner) => owner == thread,
        }
    }
}

impl Trap {
    /// The signals that this trap was opened with.
    pub closed spec fn signals(&self) -> Seq<Signal> {
        self.signals@
    }

    /// The signals that this trap was opened with.
    pub fn trapped(&self) -> (signals: &Vec<Signal>)
        ensures
            signals@ == self.signals(),
    {
        &self.signals
    }

    /// Opens a trap on `signals` for the thread `caller`. The first live trap
    /// brings up the listener; if that fails the error comes back and the
    /// registration stack is as it was.
    pub fn new<H: Clone, P: Host>(
        session: &mut Session<H, P>,
        caller: u32,
        signals: Vec<Signal>,
        handler: H,
    ) -> (result: Result<Trap, Error>)
        requires
            old(session).accepts(caller),
            old(session).stack.wf(),
            old(session).stack.count() < usize::MAX,
        ensures
            final(session).stack.wf(),
            final(session).owner() == Some(caller),
            final(session).forwarding_message() == old(session).forwarding_message(),
            match result {
                Ok(trap) => {
                    &&& trap.signals() == signals@
                    &&& final(session).stack.is_push_of(&old(session).stack, signals@, handler)
                    &&& final(session).driver.trace() == old(session).driver.trace() + if old(session).stack.count()
                        > 0 {
                        Seq::<HostEvent>::empty()
                    } else {
                        startup_calls(Ok(final(session).stack.listener()->0))
                    }
                },
                Err(error) => {
                    &&& old(session).stack.count() == 0
                    &&& final(session).stack.same_as(&old(session).stack)
                    &&& final(session).driver.trace() == old(session).driver.trace() + startup_calls(
                        Err(error),
                    )
                },
            },
    {
        let _ = session.claim(caller);
        match session.stack.push_trap(signals.as_slice(), handler, &mut session.driver) {
            Ok(()) => Ok(Trap { signals }),
            Err(error) => Err(error),
        }
    }

    /// Closes this trap, which must be the innermost live one. With the last
    /// live trap the listener is torn down, and the thread has ended when
    /// this returns.
    pub fn release<H, P: Host>(self, session: &mut Session<H, P>)
        requires
            old(session).stack.wf(),
            old(session).stack.scopes().len() > 0,
            old(session).stack.scopes().last() == self.signals(),
        ensures
            final(session).stack.wf(),
            final(session).stack.is_pop_of(&old(session).stack, self.signals()),
            final(session).owner() == old(session).owner(),
            final(session).forwarding_message() == old(session).forwarding_message(),
            final(session).driver.trace() == old(session).driver.trace() + if old(session).stack.count()
                > 1 {
                Seq::<HostEvent>::empty()
            } else {
                teardown_calls(old(session).stack.listener()->0)
            },
    {
        session.stack.pop_trap(self.signals.as_slice(), &mut session.driver);
    }
}

/// `calls` begins with `head` and ends with `tail`, and the two do not
/// overlap.
pub open spec fn bracketed(calls: Seq<HostEvent>, head: Seq<HostEvent>, tail: Seq<HostEvent>) -> bool {
    &&& head.len() + tail.len() <= calls.len()
    &&& calls.take(head.len() as int) == head
    &&& calls.skip(calls.len() - tail.len()) == tail
}

/// `property` is true of `value`.
pub open spec fn holds<T>(property: spec_fn(T) -> bool, value: T) -> bool {
    property(value)
}

/// Associates `signals` with `handler` while `body` runs. Only one thread,
/// the owner, may trap signals; it may nest traps freely, and for each signal
/// the handler of the innermost trap that names it is the one chosen.
///
/// * `session` - the state that the traps of the process share. The body
///   receives it again, to open traps of its own.
/// * `caller` - the identifier of the calling thread, which must be the owner
///   of the traps or, for the first trap, becomes it.
/// * `signals` - the signals to trap while `body` runs.
/// * `handler` - what is chosen whenever one of the signals is trapped. It
///   takes the place of the signal's default, which mostly is to end the
///   process.
/// * `body` - the work to do while the trap is active. Its result is the `Ok`
///   value of the trap. It has to close every trap that it opens.
///
/// The trap fails only where it is the first live one and the listener could
/// not be brought up; the body has not run then. Either way the
/// registrations are afterwards what they were before.
pub fn trap<H: Clone, P: Host, RT, B: FnOnce(&mut Session<H, P>) -> RT>(
    session: &mut Session<H, P>,
    caller: u32,
    signals: Vec<Signal>,
    handler: H,
    body: B,
) -> (result: Result<RT, Error>)
    requires
        old(session).accepts(caller),
        old(session).stack.wf(),
        old(session).stack.count() < usize::MAX,
        forall|inner: &mut Session<H, P>|
            {
                &&& inner.stack.wf()
                &&& inner.stack.is_push_of(&old(session).stack, signals@, handler)
                &&& inner.owner() == Some(caller)
                &&& inner.forwarding_message() == old(session).forwarding_message()
            } ==> #[trigger] body.requires((inner,)),
        forall|inner: &mut Session<H, P>, value: RT| #[trigger]
            body.ensures((inner,), value) ==> {
                &&& final(inner).stack.wf()
                &&& final(inner).stack.same_as(&inner.stack)
                &&& final(inner).owner() == inner.owner()
                &&& final(inner).forwarding_message() == inner.forwarding_message()
                &&& inner.driver.trace().is_prefix_of(final(inner).driver.trace())
            },
    ensures
        final(session).stack.wf(),
        final(session).stack.same_as(&old(session).stack),
        final(session).owner() == Some(caller),
        final(session).forwarding_message() == old(session).forwarding_message(),
        old(session).driver.trace().is_prefix_of(final(session).driver.trace()),
        old(session).stack.count() > 0 ==> result is Ok,
        result matches Err(error) ==> {
            &&& old(session).stack.count() == 0
            &&& final(session).driver.trace() == old(session).driver.trace() + startup_calls(Err(error))
        },
        result is Ok && old(session).stack.count() == 0 ==> exists|listener: TrapThreadData|
            bracketed(
                final(session).driver.trace(),
                old(session).driver.trace() + #[trigger] startup_calls(Ok(listener)),
                teardown_calls(listener),
            ),
        result matches Ok(value) ==> forall|property: spec_fn(RT) -> bool|
            (forall|inner: &mut Session<H, P>, any: RT| #[trigger]
                body.ensures((inner,), any) ==> property(any)) ==> #[trigger] holds(property, value),
{
    let ghost before = session.stack;
    let ghost asked = session.driver.trace();
    let trap_guard = match Trap::new(session, caller, signals, handler) {
        Ok(guard) => guard,
        Err(error) => {
            return Err(error);
        },
    };
    let ghost pushed = session.stack;
    let ghost started = session.driver.trace();
    let value = body(session);
    let ghost inside = session.stack;
    let ghost worked = session.driver.trace();
    trap_guard.release(session);
    proof {
        assert(inside.scopes().last() == trap_guard.signals());
        lemma_pop_undoes_push(&before, &pushed, &session.stack, trap_guard.signals(), handler);
        let done = session.driver.trace();
        assert(asked.is_prefix_of(started));
        assert(started.is_prefix_of(worked));
        assert(worked.is_prefix_of(done));
        assert(asked.is_prefix_of(done));
        if before.count() == 0 {
            let listener = pushed.listener()->0;
            assert(inside.listener() == pushed.listener());
            assert(started == asked + startup_calls(Ok(listener)));
            assert(done == worked + teardown_calls(listener));
            assert(done.take(started.len() as int) =~= started);
            assert(done.skip(done.len() - teardown_calls(listener).len()) =~= teardown_calls(
                listener,
            ));
            assert(bracketed(done, asked + startup_calls(Ok(listener)), teardown_calls(listener)));
        }
    }
    Ok(value)
}

} // verus!
