//! What holds of the registration stack whatever the nesting of the traps.

use crate::host::Host;
use crate::scope::Session;
use crate::signal::Signal;
use crate::stack::{extended, lemma_registered_positive, occurrences, lemma_occurrences_positive, TrapStack};
use vstd::prelude::*;

verus! {

/// Innermost wins. Once a trap is opened, its handler is the one chosen for
/// every signal that it names, and for every other signal the choice is what
/// it was.
pub proof fn lemma_innermost_wins<H: Clone>(
    before: &TrapStack<H>,
    after: &TrapStack<H>,
    signals: Seq<Signal>,
    handler: H,
    signal: Signal,
)
    requires
        after.is_push_of(before, signals, handler),
    ensures
        signals.contains(signal) ==> (after.innermost(signal) matches Some(chosen) && cloned(
            handler,
            chosen,
        )),
        !signals.contains(signal) ==> after.innermost(signal) == before.innermost(signal),
{
    lemma_occurrences_positive(signals, signal);
    assert(extended(
        before.handlers(signal),
        after.handlers(signal),
        handler,
        occurrences(signals, signal),
    ));
    if !signals.contains(signal) {
        assert(after.handlers(signal) =~= before.handlers(signal));
    }
}

/// Closing the trap that was opened last leaves the registrations, the count
/// and the listener as they were before it was opened.
pub proof fn lemma_pop_undoes_push<H: Clone>(
    before: &TrapStack<H>,
    pushed: &TrapStack<H>,
    popped: &TrapStack<H>,
    signals: Seq<Signal>,
    handler: H,
)
    requires
        before.wf(),
        pushed.is_push_of(before, signals, handler),
        popped.is_pop_of(pushed, signals),
    ensures
        popped.same_as(before),
        forall|signal: Signal| popped.innermost(signal) == before.innermost(signal),
{
    assert(before.scopes().push(signals).drop_last() =~= before.scopes());
    assert forall|signal: Signal| #[trigger] popped.handlers(signal) == before.handlers(signal) by {
        assert(extended(
            before.handlers(signal),
            pushed.handlers(signal),
            handler,
            occurrences(signals, signal),
        ));
    }
}

/// When the only live trap is closed nothing is left: no trap is counted, no
/// listener runs and no handler is registered.
pub proof fn lemma_last_exit_leaves_idle<H>(before: &TrapStack<H>, after: &TrapStack<H>)
    requires
        before.wf(),
        before.count() == 1,
        after.is_pop_of(before, before.scopes().last()),
    ensures
        after.is_idle(),
        after.wf(),
{
    assert(before.scopes().drop_last().len() == 0);
    assert forall|signal: Signal| #[trigger] after.handlers(signal).len() == 0 by {
        assert(before.handlers(signal).len() == crate::stack::registered(before.scopes(), signal));
        assert(crate::stack::registered(before.scopes().drop_last(), signal) == 0);
    }
}

/// A stack that every trap has left is what a new stack is: a trap opened on
/// it finds no residue of the traps before.
pub proof fn lemma_idle_is_initial<H>(left: &TrapStack<H>, fresh: &TrapStack<H>)
    requires
        left.is_idle(),
        fresh.is_idle(),
    ensures
        left.same_as(fresh),
        left.wf(),
{
    assert(left.scopes() =~= fresh.scopes());
    assert forall|signal: Signal| #[trigger] left.handlers(signal) == fresh.handlers(signal) by {
        assert(left.handlers(signal) =~= fresh.handlers(signal));
    }
}

/// A handler is registered for a signal exactly if a live trap names the
/// signal.
pub proof fn lemma_callbacks_match_scopes<H>(stack: &TrapStack<H>, signal: Signal)
    requires
        stack.wf(),
    ensures
        stack.callbacks().contains_key(signal) <==> exists|k: int|
            0 <= k < stack.scopes().len() && (#[trigger] stack.scopes()[k]).contains(signal),
{
    lemma_registered_positive(stack.scopes(), signal);
    assert(stack.handlers(signal).len() == crate::stack::registered(stack.scopes(), signal));
}

/// Once a thread owns the traps, the owner check refuses every other thread.
pub proof fn lemma_only_the_owner_is_accepted<H, P: Host>(session: &Session<H, P>, owner: u32, thread: u32)
    requires
        session.owner() == Some(owner),
    ensures
        session.accepts(thread) <==> thread == owner,
{
}

} // verus!
