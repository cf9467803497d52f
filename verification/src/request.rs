//! The lifecycle of a request's rendezvous slot.
//!
//! A request is the in-flight coupling of an operation and the task awaiting
//! its response. Its slot moves through a small state machine: a one-shot
//! request is `Pending` until its single response arrives and is then
//! `Resolved`; a streaming request moves to `Streaming` on its first response
//! and stays there until the shell posts the terminal marker, which makes it
//! `Closed`. Cancelling a live request makes it `Cancelled`. The terminal
//! states (`Resolved`, `Closed`, `Cancelled`) are sinks: posting, closing or
//! cancelling again changes nothing and delivers nothing.

use vstd::prelude::*;

verus! {

/// The lifecycle a request is created with: a one-shot request accepts exactly
/// one response, a stream accepts any number until it is closed.
#[derive(Clone, Copy, PartialEq, Eq, Structural, Debug)]
pub enum Lifecycle {
    OneShot,
    Stream,
}

/// The state of a request's rendezvous slot.
#[derive(Clone, Copy, PartialEq, Eq, Structural, Debug)]
pub enum RequestState {
    /// Created, no response posted yet.
    Pending,
    /// A streaming request that has delivered at least one response.
    Streaming,
    /// A one-shot request whose single response has been delivered.
    Resolved,
    /// A streaming request terminated by the shell.
    Closed,
    /// The awaiting task was dropped before the request completed.
    Cancelled,
}

/// The moves the host can make against a slot.
#[derive(Clone, Copy, PartialEq, Eq, Structural, Debug)]
pub enum SlotAction {
    /// Post a response.
    Post,
    /// Post the terminal marker of a stream.
    Close,
    /// Drop the awaiting task.
    Cancel,
}

impl RequestState {
    /// A terminal state is a sink: no action leads out of it.
    pub open spec fn is_terminal(self) -> bool {
        match self {
            RequestState::Pending => false,
            RequestState::Streaming => false,
            RequestState::Resolved => true,
            RequestState::Closed => true,
            RequestState::Cancelled => true,
        }
    }
}

/// Whether posting a response in state `s` delivers it to the awaiting task.
pub open spec fn post_delivers(lifecycle: Lifecycle, s: RequestState) -> bool {
    match lifecycle {
        Lifecycle::OneShot => s == RequestState::Pending,
        Lifecycle::Stream => s == RequestState::Pending || s == RequestState::Streaming,
    }
}

/// The state after the host takes `action` against a slot in state `s`.
/// Actions against a terminal state are no-ops, not errors.
pub open spec fn slot_step(lifecycle: Lifecycle, s: RequestState, action: SlotAction) -> RequestState {
    if s.is_terminal() {
        s
    } else {
        match action {
            SlotAction::Post => match lifecycle {
                Lifecycle::OneShot => RequestState::Resolved,
                Lifecycle::Stream => RequestState::Streaming,
            },
            SlotAction::Close => match lifecycle {
                Lifecycle::OneShot => s,
                Lifecycle::Stream => RequestState::Closed,
            },
            SlotAction::Cancel => RequestState::Cancelled,
        }
    }
}

/// How many of the posts in `actions`, taken in order from state `s`, are
/// delivered to the awaiting task.
pub open spec fn deliveries(lifecycle: Lifecycle, s: RequestState, actions: Seq<SlotAction>) -> nat
    decreases actions.len(),
{
    if actions.len() == 0 {
        0
    } else {
        let here: nat = if actions[0] == SlotAction::Post && post_delivers(lifecycle, s) {
            1
        } else {
            0
        };
        here + deliveries(lifecycle, slot_step(lifecycle, s, actions[0]), actions.drop_first())
    }
}

/// Terminal states are sinks: whatever the host does to a completed or
/// cancelled request, the state does not change and nothing is delivered.
pub proof fn lemma_terminal_is_sink(lifecycle: Lifecycle, s: RequestState, action: SlotAction)
    requires
        s.is_terminal(),
    ensures
        slot_step(lifecycle, s, action) == s,
        !post_delivers(lifecycle, s),
{
}

/// A one-shot request delivers at most one response to its awaiting task,
/// no matter how many actions the host takes against it.
pub proof fn lemma_one_shot_at_most_once(s: RequestState, actions: Seq<SlotAction>)
    ensures
        deliveries(Lifecycle::OneShot, s, actions) <= 1,
    decreases actions.len(),
{
    if actions.len() > 0 {
        let s2 = slot_step(Lifecycle::OneShot, s, actions[0]);
        lemma_one_shot_at_most_once(s2, actions.drop_first());
        if actions[0] == SlotAction::Post && post_delivers(Lifecycle::OneShot, s) {
            lemma_never_pending_again(s2, actions.drop_first());
        }
    }
}

/// Once a one-shot request has left `Pending` it never returns there, so no
/// further post is ever delivered.
proof fn lemma_never_pending_again(s: RequestState, actions: Seq<SlotAction>)
    requires
        s != RequestState::Pending,
    ensures
        deliveries(Lifecycle::OneShot, s, actions) == 0,
    decreases actions.len(),
{
    if actions.len() > 0 {
        lemma_never_pending_again(
            slot_step(Lifecycle::OneShot, s, actions[0]),
            actions.drop_first(),
        );
    }
}

} // verus!
