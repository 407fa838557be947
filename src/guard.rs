//! The runtime guard: the two-state policy that decides what the unit does
//! on an unrecoverable fault when no host runtime can be relied on.
//!
//! The guard starts `Running`. A fault moves it to `Halted`, which it never
//! leaves: from then on no call is answered. Spinning in place is the
//! host's part; this module decides which state the context is in and
//! whether a call gets a value.
use vstd::prelude::*;

use crate::boundary::{rust_add, wrapped_sum};

verus! {

/// The state of one execution context.
#[derive(Clone, Copy, Debug, PartialEq, Eq, Structural)]
pub enum GuardState {
    /// Calls are served.
    Running,
    /// An unrecoverable fault was seen; nothing is served again.
    Halted,
}

/// What can happen to an execution context.
#[derive(Clone, Copy, Debug, PartialEq, Eq, Structural)]
pub enum Event {
    /// The host calls the exposed addition with these operands.
    Add(u32, u32),
    /// An internal invariant was found broken.
    Fault,
}

/// The state after `e` arrives in state `s`.
pub open spec fn next_state(s: GuardState, e: Event) -> GuardState {
    match s {
        GuardState::Halted => GuardState::Halted,
        GuardState::Running => match e {
            Event::Add(_, _) => GuardState::Running,
            Event::Fault => GuardState::Halted,
        },
    }
}

/// The value handed back to the host when `e` arrives in state `s`, if any.
pub open spec fn reply(s: GuardState, e: Event) -> Option<u32> {
    match s {
        GuardState::Halted => None,
        GuardState::Running => match e {
            Event::Add(a, b) => Some(wrapped_sum(a, b)),
            Event::Fault => None,
        },
    }
}

/// The state after the events of `es` arrive in order, starting in `s`.
pub open spec fn state_after(s: GuardState, es: Seq<Event>) -> GuardState
    decreases es.len(),
{
    if es.len() == 0 {
        s
    } else {
        state_after(next_state(s, es[0]), es.drop_first())
    }
}

/// The replies to the events of `es`, in order, starting in `s`.
pub open spec fn replies(s: GuardState, es: Seq<Event>) -> Seq<Option<u32>>
    decreases es.len(),
{
    if es.len() == 0 {
        Seq::empty()
    } else {
        seq![reply(s, es[0])].add(replies(next_state(s, es[0]), es.drop_first()))
    }
}

/// The fault hook: enters `Halted`, whatever the state was.
///
/// Hands nothing back to the host. Replacing what is done on a fault
/// (a diagnostic, a watchdog reset) belongs to the integrating environment
/// and must keep this contract.
pub fn panic(state: &mut GuardState)
    ensures
        *final(state) == GuardState::Halted,
{
    *state = GuardState::Halted;
}

/// Whether the context has entered its terminal state.
pub fn is_halted(s: GuardState) -> (r: bool)
    ensures
        r == (s == GuardState::Halted),
{
    match s {
        GuardState::Running => false,
        GuardState::Halted => true,
    }
}

/// Handles one event: serves a call while `Running`, halts on a fault, and
/// answers nothing once halted.
pub fn step(s: GuardState, e: Event) -> (r: (GuardState, Option<u32>))
    ensures
        r.0 == next_state(s, e),
        r.1 == reply(s, e),
{
    let mut state = s;
    match state {
        GuardState::Halted => (state, None),
        GuardState::Running => match e {
            Event::Add(a, b) => (state, Some(rust_add(a, b))),
            Event::Fault => {
                panic(&mut state);
                (state, None)
            },
        },
    }
}

/// A call made while running is always answered, with the wrapped sum, and
/// never halts the context.
pub proof fn lemma_add_total(a: u32, b: u32)
    ensures
        next_state(GuardState::Running, Event::Add(a, b)) == GuardState::Running,
        reply(GuardState::Running, Event::Add(a, b)) == Some(wrapped_sum(a, b)),
{
}

/// A fault returns no value and leaves the context halted for good: whatever
/// events follow, the state stays `Halted` and none of them gets a reply.
pub proof fn lemma_fault_isolation(s: GuardState, es: Seq<Event>)
    ensures
        next_state(s, Event::Fault) == GuardState::Halted,
        reply(s, Event::Fault) is None,
        state_after(GuardState::Halted, es) == GuardState::Halted,
        replies(GuardState::Halted, es).len() == es.len(),
        forall|i: int| 0 <= i < es.len() ==> (#[trigger] replies(GuardState::Halted, es)[i]) is None,
    decreases es.len(),
{
    if es.len() > 0 {
        lemma_fault_isolation(s, es.drop_first());
        let rest = replies(GuardState::Halted, es.drop_first());
        assert forall|i: int| 0 <= i < es.len() implies (#[trigger] replies(GuardState::Halted, es)[i]) is None by {
            if i > 0 {
                assert(replies(GuardState::Halted, es)[i] == rest[i - 1]);
            }
        }
    }
}

} // verus!
