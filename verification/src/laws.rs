//! The kernel's quantified guarantees, stated and proved over the same spec
//! functions the executable contracts use.

use vstd::prelude::*;

use crate::event::{EventView, ModelView};
use crate::executor::{resolve_update, turn_effects, turn_events, UpdateView};
use crate::facade::process_spec;
use crate::command::CommandView;
use crate::kv::KvResultView;
use crate::mapping::{apply_view, EventMap};
use crate::request::RequestState;
use crate::executor::KvRequestView;

verus! {

/// One call of a recorded host transcript: an event into `process_event`, a
/// reply into `resolve`, or a render acknowledgement. A resolve carries the
/// request value the host held at that point.
pub enum TranscriptCall {
    Process(EventView),
    Resolve(KvRequestView, KvResultView),
    AckRender(RequestState),
}

pub open spec fn empty_update() -> UpdateView {
    UpdateView { events: Seq::empty(), effects: Seq::empty() }
}

/// The model after one transcript call, and what the host observes. A
/// resolve of a request that is not pending observes nothing, exactly as the
/// executor's `NotOutstanding` indication promises.
pub open spec fn turn_out(m: ModelView, call: TranscriptCall) -> (ModelView, UpdateView) {
    match call {
        TranscriptCall::Process(e) => process_spec(e, m),
        TranscriptCall::Resolve(req, result) => (
            m,
            if req.state == RequestState::Pending {
                resolve_update(req.task, result)
            } else {
                empty_update()
            },
        ),
        TranscriptCall::AckRender(_) => (m, empty_update()),
    }
}

/// Everything the host observes when a transcript is replayed against an
/// initial model, one update per call.
pub open spec fn replay(m: ModelView, calls: Seq<TranscriptCall>) -> Seq<UpdateView>
    decreases calls.len(),
{
    if calls.len() == 0 {
        Seq::empty()
    } else {
        let (m2, u) = turn_out(m, calls[0]);
        seq![u] + replay(m2, calls.drop_first())
    }
}

/// The model a replayed transcript ends in.
pub open spec fn replay_model(m: ModelView, calls: Seq<TranscriptCall>) -> ModelView
    decreases calls.len(),
{
    if calls.len() == 0 {
        m
    } else {
        replay_model(turn_out(m, calls[0]).0, calls.drop_first())
    }
}

/// Determinism: replaying one recorded transcript from equal initial models
/// yields identical event and effect sequences, call for call, and equal
/// final models. Each façade entry point's `ensures` ties its runtime
/// behaviour to `turn_out`, so two runs of the same history cannot diverge.
pub proof fn lemma_replay_deterministic(m1: ModelView, m2: ModelView, calls: Seq<TranscriptCall>)
    requires
        m1 == m2,
    ensures
        replay(m1, calls) == replay(m2, calls),
        replay_model(m1, calls) == replay_model(m2, calls),
{
}

/// How many of `n` successive resolve attempts against one one-shot request
/// deliver a response to the parked task: a pending request delivers the
/// first and moves to `Resolved`; every later attempt is rejected.
pub open spec fn deliveries_of_resolves(s: RequestState, n: nat) -> nat
    decreases n,
{
    if n == 0 {
        0
    } else {
        let delivered: nat = if s == RequestState::Pending {
            1
        } else {
            0
        };
        let s2 = if s == RequestState::Pending {
            RequestState::Resolved
        } else {
            s
        };
        delivered + deliveries_of_resolves(s2, (n - 1) as nat)
    }
}

/// At-most-once: however many times the host resolves one one-shot request,
/// at most one response reaches the awaiting task.
pub proof fn lemma_at_most_once(s: RequestState, n: nat)
    ensures
        deliveries_of_resolves(s, n) <= 1,
    decreases n,
{
    if n > 0 {
        if s == RequestState::Pending {
            lemma_non_pending_never_delivers(RequestState::Resolved, (n - 1) as nat);
        } else {
            lemma_at_most_once(s, (n - 1) as nat);
        }
    }
}

proof fn lemma_non_pending_never_delivers(s: RequestState, n: nat)
    requires
        s != RequestState::Pending,
    ensures
        deliveries_of_resolves(s, n) == 0,
    decreases n,
{
    if n > 0 {
        lemma_non_pending_never_delivers(s, (n - 1) as nat);
    }
}

/// The executor's resolve follows the request slot's state machine: a
/// pending one-shot slot delivers the posted response and becomes
/// `Resolved`; a slot that is no longer pending delivers nothing, exactly
/// the `NotOutstanding` indication.
pub proof fn lemma_resolve_follows_slot_machine(s: RequestState)
    requires
        s != RequestState::Streaming,
    ensures
        s == RequestState::Pending ==> crate::request::slot_step(
            crate::request::Lifecycle::OneShot,
            s,
            crate::request::SlotAction::Post,
        ) == RequestState::Resolved,
        s == RequestState::Pending ==> crate::request::post_delivers(
            crate::request::Lifecycle::OneShot,
            s,
        ),
        s != RequestState::Pending ==> !crate::request::post_delivers(
            crate::request::Lifecycle::OneShot,
            s,
        ),
{
}

/// Ordering: within one turn, the effects of `join(a, b)` are exactly `a`'s
/// effects followed by `b`'s, and the events interleave the same way.
pub proof fn lemma_join_order(a: CommandView, b: CommandView, m: EventMap)
    ensures
        turn_effects(CommandView::Join(Box::new(a), Box::new(b)), m) == turn_effects(a, m)
            + turn_effects(b, m),
        turn_events(CommandView::Join(Box::new(a), Box::new(b)), m) == turn_events(a, m)
            + turn_events(b, m),
{
}

/// A request that is no longer outstanding — cancelled when its task was
/// dropped, or already resolved — contributes nothing to any later turn: the
/// model stands and no event or effect is observed. New requests are created
/// only by the turn a delivered reply runs, so no descendant task or request
/// of a dropped task ever comes into being, and a second response to a
/// one-shot request is discarded whole.
pub proof fn lemma_settled_request_contributes_nothing(
    m: ModelView,
    req: KvRequestView,
    result: KvResultView,
)
    requires
        req.state != RequestState::Pending,
    ensures
        turn_out(m, TranscriptCall::Resolve(req, result)).0 == m,
        turn_out(m, TranscriptCall::Resolve(req, result)).1 == empty_update(),
{
}

/// Event-map composition: re-targeting a capability twice is the same as
/// re-targeting it once with the composed map. With `c`'s context carrying
/// `mapper`, both `c.map_event(f).map_event(g)` and
/// `c.map_event(Compose(f, g))` translate every injected event to
/// `mapper(f(g(e)))`.
pub proof fn lemma_map_event_composes(mapper: EventMap, f: EventMap, g: EventMap, e: EventView)
    ensures
        apply_view(
            EventMap::Compose(
                Box::new(EventMap::Compose(Box::new(mapper), Box::new(f))),
                Box::new(g),
            ),
            e,
        ) == apply_view(
            EventMap::Compose(
                Box::new(mapper),
                Box::new(EventMap::Compose(Box::new(f), Box::new(g))),
            ),
            e,
        ),
{
    let fg = EventMap::Compose(Box::new(f), Box::new(g));
    let mf = EventMap::Compose(Box::new(mapper), Box::new(f));
    assert(apply_view(EventMap::Compose(Box::new(mf), Box::new(g)), e) == apply_view(
        mf,
        apply_view(g, e),
    ));
    assert(apply_view(mf, apply_view(g, e)) == apply_view(mapper, apply_view(f, apply_view(g, e))));
    assert(apply_view(fg, e) == apply_view(f, apply_view(g, e)));
    assert(apply_view(EventMap::Compose(Box::new(mapper), Box::new(fg)), e) == apply_view(
        mapper,
        apply_view(fg, e),
    ));
}

/// Idempotent view: the projection reads only the model — equal models give
/// equal view models. It takes the core by shared reference, so it cannot
/// have a side effect on it.
pub proof fn lemma_view_deterministic(m1: ModelView, m2: ModelView)
    requires
        m1.successful == m2.successful,
        m1.value == m2.value,
    ensures
        crate::text::success_line(m1) == crate::text::success_line(m2),
{
}

} // verus!
