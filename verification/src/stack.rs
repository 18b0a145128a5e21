//! The registration stack: for each signal the handlers of the live traps
//! that name it, innermost last, together with the count of live traps and
//! the listener that serves them.

use crate::error::Error;
use crate::host::{Driver, Host, HostEvent};
use crate::listener::{startup_calls, teardown_calls, TrapThreadData};
use crate::signal::Signal;
use vstd::prelude::*;

verus! {

/// How often `signal` occurs in `signals`.
pub open spec fn occurrences(signals: Seq<Signal>, signal: Signal) -> nat
    decreases signals.len(),
{
    if signals.len() == 0 {
        0
    } else {
        occurrences(signals.drop_last(), signal) + if signals.last() == signal {
            1nat
        } else {
            0nat
        }
    }
}

/// How often `signal` was named by the live traps `scopes`, each given by the
/// list of signals it was opened with.
pub open spec fn registered(scopes: Seq<Seq<Signal>>, signal: Signal) -> nat
    decreases scopes.len(),
{
    if scopes.len() == 0 {
        0
    } else {
        registered(scopes.drop_last(), signal) + occurrences(scopes.last(), signal)
    }
}

/// `after` is `before` with `added` copies of `handler` on top.
pub open spec fn extended<H: Clone>(before: Seq<H>, after: Seq<H>, handler: H, added: nat) -> bool {
    &&& after.len() == before.len() + added
    &&& after.take(before.len() as int) == before
    &&& forall|i: int| before.len() <= i < after.len() ==> cloned(handler, #[trigger] after[i])
}

/// `before` without its topmost `removed` handlers.
pub open spec fn shortened<H>(before: Seq<H>, removed: nat) -> Seq<H> {
    before.take(before.len() - removed)
}

/// One more occurrence is counted for the signal at `i`, and none for the
/// others, when the prefix of `signals` grows from `i` to `i + 1` items.
pub proof fn lemma_occurrences_step(signals: Seq<Signal>, i: int, signal: Signal)
    requires
        0 <= i < signals.len(),
    ensures
        occurrences(signals.take(i + 1), signal) == occurrences(signals.take(i), signal) + if signals[i]
            == signal {
            1nat
        } else {
            0nat
        },
{
    assert(signals.take(i + 1).drop_last() =~= signals.take(i));
}

/// A prefix of a list names a signal no more often than the list does.
pub proof fn lemma_occurrences_prefix(signals: Seq<Signal>, i: int, signal: Signal)
    requires
        0 <= i <= signals.len(),
    ensures
        occurrences(signals.take(i), signal) <= occurrences(signals, signal),
    decreases signals.len() - i,
{
    if i == signals.len() {
        assert(signals.take(i) =~= signals);
    } else {
        lemma_occurrences_step(signals, i, signal);
        lemma_occurrences_prefix(signals, i + 1, signal);
    }
}

/// A list names a signal at least once exactly if the signal is in it.
pub proof fn lemma_occurrences_positive(signals: Seq<Signal>, signal: Signal)
    ensures
        occurrences(signals, signal) > 0 <==> signals.contains(signal),
    decreases signals.len(),
{
    if signals.len() > 0 {
        lemma_occurrences_positive(signals.drop_last(), signal);
        if signals.contains(signal) {
            let i = choose|i: int| 0 <= i < signals.len() && signals[i] == signal;
            if i < signals.len() - 1 {
                assert(signals.drop_last()[i] == signal);
            }
        }
        if signals.drop_last().contains(signal) {
            let i = choose|i: int| 0 <= i < signals.drop_last().len() && signals.drop_last()[i] == signal;
            assert(signals[i] == signal);
        }
        if signals.last() == signal {
            assert(signals[signals.len() - 1] == signal);
        }
    }
}

/// The live traps name a signal at least once exactly if one of them has the
/// signal in its list.
pub proof fn lemma_registered_positive(scopes: Seq<Seq<Signal>>, signal: Signal)
    ensures
        registered(scopes, signal) > 0 <==> exists|k: int|
            0 <= k < scopes.len() && (#[trigger] scopes[k]).contains(signal),
    decreases scopes.len(),
{
    if scopes.len() > 0 {
        let rest = scopes.drop_last();
        lemma_registered_positive(rest, signal);
        lemma_occurrences_positive(scopes.last(), signal);
        if registered(scopes, signal) > 0 {
            if occurrences(scopes.last(), signal) > 0 {
                assert(scopes[scopes.len() - 1].contains(signal));
            } else {
                let k = choose|k: int| 0 <= k < rest.len() && (#[trigger] rest[k]).contains(signal);
                assert(scopes[k].contains(signal));
            }
        }
        if exists|k: int| 0 <= k < scopes.len() && (#[trigger] scopes[k]).contains(signal) {
            let k = choose|k: int| 0 <= k < scopes.len() && (#[trigger] scopes[k]).contains(signal);
            if k < scopes.len() - 1 {
                assert(rest[k].contains(signal));
            }
        }
    }
}

/// The process-wide registration state of the traps.
pub struct TrapStack<H> {
    num_traps: usize,
    trap_thread_data: Option<TrapThreadData>,
    ctrl_c: Vec<H>,
    ctrl_break: Vec<H>,
    close_console: Vec<H>,
    close_window: Vec<H>,
    scopes: Ghost<Seq<Seq<Signal>>>,
}

impl<H> TrapStack<H> {
    /// The number of live traps.
    pub closed spec fn count(&self) -> nat {
        self.num_traps as nat
    }

    /// The listener that serves the live traps, if one runs.
    pub closed spec fn listener(&self) -> Option<TrapThreadData> {
        self.trap_thread_data
    }

    /// The handlers registered for `signal`, outermost first.
    pub closed spec fn handlers(&self, signal: Signal) -> Seq<H> {
        match signal {
            Signal::CtrlC => self.ctrl_c@,
            Signal::CtrlBreak => self.ctrl_break@,
            Signal::CloseConsole => self.close_console@,
            Signal::CloseWindow => self.close_window@,
        }
    }

    /// The lists of signals with which the live traps were opened, outermost
    /// first.
    pub closed spec fn scopes(&self) -> Seq<Seq<Signal>> {
        self.scopes@
    }

    /// The registrations as a map: a signal is a key exactly if a handler is
    /// registered for it, and its value is the stack of those handlers.
    pub open spec fn callbacks(&self) -> Map<Signal, Seq<H>> {
        Map::new(|signal: Signal| self.handlers(signal).len() > 0, |signal: Signal| self.handlers(signal))
    }

    /// The handler that is chosen for `signal`: the one registered last
    /// among those still registered.
    pub open spec fn innermost(&self, signal: Signal) -> Option<H> {
        if self.handlers(signal).len() > 0 {
            Some(self.handlers(signal).last())
        } else {
            None
        }
    }

    /// The invariant of the stack: one live trap for each recorded scope; a
    /// listener exactly while a trap is live; and for each signal as many
    /// handlers as the live traps have named it.
    pub open spec fn wf(&self) -> bool {
        &&& self.count() == self.scopes().len()
        &&& self.listener() is Some <==> self.count() > 0
        &&& forall|signal: Signal| #[trigger] self.handlers(signal).len() == registered(self.scopes(), signal)
    }

    /// Both stacks hold the same registrations, count and listener.
    pub open spec fn same_as(&self, other: &Self) -> bool {
        &&& self.count() == other.count()
        &&& self.listener() == other.listener()
        &&& self.scopes() == other.scopes()
        &&& forall|signal: Signal| #[trigger] self.handlers(signal) == other.handlers(signal)
    }

    /// The stack has no live trap, no listener and no handler.
    pub open spec fn is_idle(&self) -> bool {
        &&& self.count() == 0
        &&& self.listener() is None
        &&& self.scopes().len() == 0
        &&& forall|signal: Signal| #[trigger] self.handlers(signal).len() == 0
    }

    /// `self` is `before` after a trap was opened on `signals` with
    /// `handler`: one more scope, a listener, which is the one that ran before
    /// if a trap was live, and on the stack of each signal one copy of the
    /// handler for each time the list names it.
    pub open spec fn is_push_of(&self, before: &Self, signals: Seq<Signal>, handler: H) -> bool where
        H: Clone,
     {
        &&& self.count() == before.count() + 1
        &&& self.scopes() == before.scopes().push(signals)
        &&& self.listener() is Some
        &&& before.count() > 0 ==> self.listener() == before.listener()
        &&& forall|signal: Signal|
            extended(
                before.handlers(signal),
                #[trigger] self.handlers(signal),
                handler,
                occurrences(signals, signal),
            )
    }

    /// `self` is `before` after its innermost trap, opened on `signals`, was
    /// closed: one scope less, no listener if that was the last one, and on
    /// the stack of each signal one handler less for each time the list names
    /// it.
    pub open spec fn is_pop_of(&self, before: &Self, signals: Seq<Signal>) -> bool {
        &&& self.count() == before.count() - 1
        &&& self.scopes() == before.scopes().drop_last()
        &&& self.listener() == if before.count() == 1 {
            None
        } else {
            before.listener()
        }
        &&& forall|signal: Signal| #[trigger]
            self.handlers(signal) == shortened(before.handlers(signal), occurrences(signals, signal))
    }

    /// A stack without traps.
    pub fn new() -> (stack: TrapStack<H>)
        ensures
            stack.wf(),
            stack.is_idle(),
    {
        TrapStack {
            num_traps: 0,
            trap_thread_data: None,
            ctrl_c: Vec::new(),
            ctrl_break: Vec::new(),
            close_console: Vec::new(),
            close_window: Vec::new(),
            scopes: Ghost(Seq::empty()),
        }
    }

    /// The number of live traps.
    pub fn active_count(&self) -> (count: usize)
        ensures
            count == self.count(),
    {
        self.num_traps
    }

    /// The listener that serves the live traps, if one runs.
    pub fn listener_data(&self) -> (listener: Option<TrapThreadData>)
        ensures
            listener == self.listener(),
    {
        self.trap_thread_data
    }

    /// The number of handlers registered for `signal`.
    pub fn depth(&self, signal: Signal) -> (depth: usize)
        ensures
            depth == self.handlers(signal).len(),
    {
        match signal {
            Signal::CtrlC => self.ctrl_c.len(),
            Signal::CtrlBreak => self.ctrl_break.len(),
            Signal::CloseConsole => self.close_console.len(),
            Signal::CloseWindow => self.close_window.len(),
        }
    }

    /// Whether a handler is registered for `signal`.
    pub fn has_handler_for(&self, signal: Signal) -> (found: bool)
        ensures
            found == (self.handlers(signal).len() > 0),
            found == self.callbacks().contains_key(signal),
            found == self.innermost(signal) is Some,
    {
        self.depth(signal) > 0
    }

    /// The handler that is chosen for `signal`: the innermost one.
    pub fn lookup_innermost(&self, signal: Signal) -> (handler: Option<&H>)
        ensures
            match handler {
                Some(h) => self.innermost(signal) == Some(*h),
                None => self.innermost(signal) is None,
            },
    {
        let stack = match signal {
            Signal::CtrlC => &self.ctrl_c,
            Signal::CtrlBreak => &self.ctrl_break,
            Signal::CloseConsole => &self.close_console,
            Signal::CloseWindow => &self.close_window,
        };
        if stack.len() > 0 {
            Some(&stack[stack.len() - 1])
        } else {
            None
        }
    }

    /// Counts one more live trap. The first one brings up the listener; if
    /// that fails, nothing is counted.
    fn increment_trap_count<P: Host>(&mut self, driver: &mut Driver<P>) -> (result: Result<(), Error>)
        requires
            old(self).num_traps < usize::MAX,
            old(self).trap_thread_data is Some <==> old(self).num_traps > 0,
        ensures
            final(self).ctrl_c == old(self).ctrl_c,
            final(self).ctrl_break == old(self).ctrl_break,
            final(self).close_console == old(self).close_console,
            final(self).close_window == old(self).close_window,
            final(self).scopes == old(self).scopes,
            match result {
                Ok(()) => {
                    &&& final(self).num_traps == old(self).num_traps + 1
                    &&& final(self).trap_thread_data is Some
                    &&& old(self).num_traps > 0 ==> {
                        &&& final(self).trap_thread_data == old(self).trap_thread_data
                        &&& final(driver).trace() == old(driver).trace()
                    }
                    &&& old(self).num_traps == 0 ==> final(driver).trace() == old(driver).trace()
                        + startup_calls(Ok(final(self).trap_thread_data->0))
                },
                Err(error) => {
                    &&& old(self).num_traps == 0
                    &&& final(self).num_traps == 0
                    &&& final(self).trap_thread_data is None
                    &&& final(driver).trace() == old(driver).trace() + startup_calls(Err(error))
                },
            },
    {
        if self.num_traps == 0 {
            match TrapThreadData::new(driver) {
                Ok(listener) => {
                    self.trap_thread_data = Some(listener);
                },
                Err(error) => {
                    return Err(error);
                },
            }
        }
        self.num_traps = self.num_traps + 1;
        Ok(())
    }

    /// Counts one live trap less. With the last one the listener is torn
    /// down.
    fn decrement_trap_count<P: Host>(&mut self, driver: &mut Driver<P>)
        requires
            old(self).num_traps > 0,
            old(self).trap_thread_data is Some,
        ensures
            final(self).ctrl_c == old(self).ctrl_c,
            final(self).ctrl_break == old(self).ctrl_break,
            final(self).close_console == old(self).close_console,
            final(self).close_window == old(self).close_window,
            final(self).scopes == old(self).scopes,
            final(self).num_traps == old(self).num_traps - 1,
            old(self).num_traps > 1 ==> final(self).trap_thread_data == old(self).trap_thread_data
                && final(driver).trace() == old(driver).trace(),
            old(self).num_traps == 1 ==> final(self).trap_thread_data is None && final(driver).trace()
                == old(driver).trace() + teardown_calls(old(self).trap_thread_data->0),
    {
        self.num_traps = self.num_traps - 1;
        if self.num_traps == 0 {
            match self.trap_thread_data {
                Some(listener) => {
                    listener.shutdown(driver);
                },
                None => {},
            }
            self.trap_thread_data = None;
        }
    }

    /// Puts one copy of `handler` on the stack of `signal`.
    fn register(&mut self, signal: Signal, handler: H)
        ensures
            final(self).num_traps == old(self).num_traps,
            final(self).trap_thread_data == old(self).trap_thread_data,
            final(self).scopes == old(self).scopes,
            final(self).handlers(signal) == old(self).handlers(signal).push(handler),
            forall|other: Signal|
                other != signal ==> #[trigger] final(self).handlers(other) == old(self).handlers(other),
    {
        match signal {
            Signal::CtrlC => self.ctrl_c.push(handler),
            Signal::CtrlBreak => self.ctrl_break.push(handler),
            Signal::CloseConsole => self.close_console.push(handler),
            Signal::CloseWindow => self.close_window.push(handler),
        }
    }

    /// Takes the topmost handler from the stack of `signal`.
    fn unregister(&mut self, signal: Signal)
        requires
            old(self).handlers(signal).len() > 0,
        ensures
            final(self).num_traps == old(self).num_traps,
            final(self).trap_thread_data == old(self).trap_thread_data,
            final(self).scopes == old(self).scopes,
            final(self).handlers(signal) == old(self).handlers(signal).drop_last(),
            forall|other: Signal|
                other != signal ==> #[trigger] final(self).handlers(other) == old(self).handlers(other),
    {
        match signal {
            Signal::CtrlC => {
                self.ctrl_c.pop();
            },
            Signal::CtrlBreak => {
                self.ctrl_break.pop();
            },
            Signal::CloseConsole => {
                self.close_console.pop();
            },
            Signal::CloseWindow => {
                self.close_window.pop();
            },
        }
    }

    /// Opens a trap: registers `handler` for each of `signals`, once for each
    /// time the list names the signal. The first live trap brings up the
    /// listener; if that fails the error comes back and the stack is as it
    /// was.
    pub fn push_trap<P: Host>(&mut self, signals: &[Signal], handler: H, driver: &mut Driver<P>) -> (result:
        Result<(), Error>) where H: Clone
        requires
            old(self).wf(),
            old(self).count() < usize::MAX,
        ensures
            final(self).wf(),
            match result {
                Ok(()) => {
                    &&& final(self).is_push_of(old(self), signals@, handler)
                    &&& final(driver).trace() == old(driver).trace() + if old(self).count() > 0 {
                        Seq::<HostEvent>::empty()
                    } else {
                        startup_calls(Ok(final(self).listener()->0))
                    }
                },
                Err(error) => {
                    &&& old(self).count() == 0
                    &&& final(self).same_as(old(self))
                    &&& final(driver).trace() == old(driver).trace() + startup_calls(Err(error))
                },
            },
    {
        let ghost before = *self;
        match self.increment_trap_count(driver) {
            Err(error) => {
                return Err(error);
            },
            Ok(()) => {},
        }
        proof {
            assert forall|signal: Signal|
                extended(
                    before.handlers(signal),
                    #[trigger] self.handlers(signal),
                    handler,
                    occurrences(signals@.take(0), signal),
                ) by {
                assert(self.handlers(signal) =~= before.handlers(signal));
                assert(self.handlers(signal).take(before.handlers(signal).len() as int)
                    =~= before.handlers(signal));
            }
        }
        let mut i: usize = 0;
        while i < signals.len()
            invariant
                i <= signals.len(),
                self.num_traps == before.num_traps + 1,
                self.scopes == before.scopes,
                self.trap_thread_data is Some,
                before.num_traps > 0 ==> self.trap_thread_data == before.trap_thread_data,
                forall|signal: Signal|
                    extended(
                        before.handlers(signal),
                        #[trigger] self.handlers(signal),
                        handler,
                        occurrences(signals@.take(i as int), signal),
                    ),
            decreases signals.len() - i,
        {
            let ghost midway = *self;
            let copy = handler.clone();
            let signal = signals[i];
            self.register(signal, copy);
            proof {
                assert forall|other: Signal|
                    extended(
                        before.handlers(other),
                        #[trigger] self.handlers(other),
                        handler,
                        occurrences(signals@.take(i + 1), other),
                    ) by {
                    lemma_occurrences_step(signals@, i as int, other);
                    assert(extended(
                        before.handlers(other),
                        midway.handlers(other),
                        handler,
                        occurrences(signals@.take(i as int), other),
                    ));
                    if other == signal {
                        assert(self.handlers(other).take(before.handlers(other).len() as int)
                            =~= midway.handlers(other).take(before.handlers(other).len() as int));
                    }
                }
            }
            i = i + 1;
        }
        proof {
            assert(old(driver).trace() + Seq::<HostEvent>::empty() =~= old(driver).trace());
            assert(signals@.take(i as int) =~= signals@);
            let ghost filled = *self;
            self.scopes@ = self.scopes@.push(signals@);
            assert(self.scopes@.drop_last() =~= before.scopes@);
            assert forall|signal: Signal|
                extended(
                    before.handlers(signal),
                    #[trigger] self.handlers(signal),
                    handler,
                    occurrences(signals@, signal),
                ) by {
                assert(self.handlers(signal) == filled.handlers(signal));
            }
            assert forall|signal: Signal| #[trigger]
                self.handlers(signal).len() == registered(self.scopes(), signal) by {
                assert(extended(
                    before.handlers(signal),
                    self.handlers(signal),
                    handler,
                    occurrences(signals@, signal),
                ));
                assert(before.handlers(signal).len() == registered(before.scopes(), signal));
            }
        }
        Ok(())
    }

    /// Whether a trap opened on `signals` can be closed as far as the stack
    /// itself shows it: a trap is live, and for each signal at least as many
    /// handlers are registered as the list names it. This holds whenever the
    /// innermost trap was opened on `signals`.
    pub fn can_pop(&self, signals: &[Signal]) -> (possible: bool)
        ensures
            possible == (self.count() > 0 && forall|signal: Signal|
                self.handlers(signal).len() >= occurrences(signals@, signal)),
            self.wf() && self.scopes().len() > 0 && self.scopes().last() == signals@ ==> possible,
    {
        proof {
            if self.wf() && self.scopes().len() > 0 && self.scopes().last() == signals@ {
                assert forall|signal: Signal|
                    self.handlers(signal).len() >= occurrences(signals@, signal) by {
                    assert(self.handlers(signal).len() == registered(self.scopes(), signal));
                }
            }
        }
        self.num_traps > 0 && self.holds_all(signals, Signal::CtrlC) && self.holds_all(
            signals,
            Signal::CtrlBreak,
        ) && self.holds_all(signals, Signal::CloseConsole) && self.holds_all(
            signals,
            Signal::CloseWindow,
        )
    }

    /// Whether at least as many handlers are registered for `signal` as
    /// `signals` names it.
    fn holds_all(&self, signals: &[Signal], signal: Signal) -> (enough: bool)
        ensures
            enough == (self.handlers(signal).len() >= occurrences(signals@, signal)),
    {
        let depth = self.depth(signal);
        let mut named: usize = 0;
        let mut i: usize = 0;
        while i < signals.len()
            invariant
                i <= signals.len(),
                named == occurrences(signals@.take(i as int), signal),
                named <= i,
                named <= depth,
                depth == self.handlers(signal).len(),
            decreases signals.len() - i,
        {
            proof {
                lemma_occurrences_step(signals@, i as int, signal);
                lemma_occurrences_prefix(signals@, i + 1, signal);
            }
            if signals[i] == signal {
                if named == depth {
                    return false;
                }
                named = named + 1;
            }
            i = i + 1;
        }
        proof {
            assert(signals@.take(i as int) =~= signals@);
        }
        true
    }

    /// Closes the innermost trap, which was opened on `signals`: takes one
    /// handler from the stack of each signal for each time the list names it.
    /// With the last live trap the listener is torn down, before any handler
    /// is taken.
    pub fn pop_trap<P: Host>(&mut self, signals: &[Signal], driver: &mut Driver<P>)
        requires
            old(self).wf(),
            old(self).scopes().len() > 0,
            old(self).scopes().last() == signals@,
        ensures
            final(self).wf(),
            final(self).is_pop_of(old(self), signals@),
            final(driver).trace() == old(driver).trace() + if old(self).count() > 1 {
                Seq::<HostEvent>::empty()
            } else {
                teardown_calls(old(self).listener()->0)
            },
    {
        let ghost before = *self;
        self.decrement_trap_count(driver);
        proof {
            assert(before.scopes().drop_last().push(signals@) =~= before.scopes());
            assert forall|signal: Signal|
                before.handlers(signal).len() >= occurrences(signals@, signal) by {
                assert(before.handlers(signal).len() == registered(before.scopes(), signal));
            }
            assert forall|signal: Signal| #[trigger]
                self.handlers(signal) == shortened(
                    before.handlers(signal),
                    occurrences(signals@.take(0), signal),
                ) by {
                assert(self.handlers(signal) =~= before.handlers(signal));
                assert(shortened(before.handlers(signal), 0) =~= before.handlers(signal));
            }
        }
        let mut i: usize = 0;
        while i < signals.len()
            invariant
                i <= signals.len(),
                self.num_traps == before.num_traps - 1,
                self.scopes == before.scopes,
                before.num_traps > 1 ==> self.trap_thread_data == before.trap_thread_data,
                before.num_traps == 1 ==> self.trap_thread_data is None,
                forall|signal: Signal|
                    before.handlers(signal).len() >= occurrences(signals@, signal),
                forall|signal: Signal| #[trigger]
                    self.handlers(signal) == shortened(
                        before.handlers(signal),
                        occurrences(signals@.take(i as int), signal),
                    ),
            decreases signals.len() - i,
        {
            let ghost midway = *self;
            let signal = signals[i];
            proof {
                lemma_occurrences_step(signals@, i as int, signal);
                lemma_occurrences_prefix(signals@, i + 1, signal);
                assert(self.handlers(signal) == shortened(
                    before.handlers(signal),
                    occurrences(signals@.take(i as int), signal),
                ));
            }
            self.unregister(signal);
            proof {
                assert forall|other: Signal| #[trigger]
                    self.handlers(other) == shortened(
                        before.handlers(other),
                        occurrences(signals@.take(i + 1), other),
                    ) by {
                    lemma_occurrences_step(signals@, i as int, other);
                    lemma_occurrences_prefix(signals@, i + 1, other);
                    assert(midway.handlers(other) == shortened(
                        before.handlers(other),
                        occurrences(signals@.take(i as int), other),
                    ));
                    if other == signal {
                        assert(self.handlers(other) =~= shortened(
                            before.handlers(other),
                            occurrences(signals@.take(i + 1), other),
                        ));
                    }
                }
            }
            i = i + 1;
        }
        proof {
            assert(old(driver).trace() + Seq::<HostEvent>::empty() =~= old(driver).trace());
            assert(signals@.take(i as int) =~= signals@);
            let ghost emptied = *self;
            self.scopes@ = self.scopes@.drop_last();
            assert forall|signal: Signal| #[trigger]
                self.handlers(signal) == shortened(
                    before.handlers(signal),
                    occurrences(signals@, signal),
                ) by {
                assert(self.handlers(signal) == emptied.handlers(signal));
            }
            assert forall|signal: Signal| #[trigger]
                self.handlers(signal).len() == registered(self.scopes(), signal) by {
                assert(self.handlers(signal) == shortened(
                    before.handlers(signal),
                    occurrences(signals@, signal),
                ));
                assert(before.handlers(signal).len() == registered(before.scopes(), signal));
            }
        }
    }
}

} // verus!
