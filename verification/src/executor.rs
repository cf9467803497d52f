//! The task executor: reduces a command to quiescence within a single turn,
//! filling the turn's event buffer and effect queue, and wakes a parked
//! continuation when the host resolves an effect.
//!
//! Reduction is small-step and deterministic. Events keep their submission
//! order; effects keep the order they were first produced; the two sides of a
//! join interleave in source order.

use vstd::prelude::*;

use crate::command::{
    dispatch, mapped_task, resume, resume_view, spec_mapped_task, task_accepts, Command,
    CommandView, KvTask,
};
use crate::event::{Event, EventView};
use crate::kv::{result_view, KeyValueOperation, KeyValueResult, KvOpView};
use crate::mapping::EventMap;
use crate::render::RenderOperation;
use crate::request::{slot_step, Lifecycle, RequestState, SlotAction};

verus! {

/// An outstanding key-value request: the operation for the shell to perform,
/// the state of its rendezvous slot, and the task parked on the reply.
#[derive(Debug, PartialEq, Eq)]
pub struct KeyValueRequest {
    pub operation: KeyValueOperation,
    state: RequestState,
    task: KvTask,
}

/// Mathematical view of a [`KeyValueRequest`].
pub struct KvRequestView {
    pub operation: KvOpView,
    pub state: RequestState,
    pub task: KvTask,
}

impl View for KeyValueRequest {
    type V = KvRequestView;

    closed spec fn view(&self) -> KvRequestView {
        KvRequestView { operation: self.operation@, state: self.state, task: self.task }
    }
}

/// An outstanding render request: the shell acknowledges it and the
/// requesting task completes with no further work.
#[derive(Debug, PartialEq, Eq)]
pub struct RenderRequest {
    pub operation: RenderOperation,
    state: RequestState,
}

/// Mathematical view of a [`RenderRequest`].
pub struct RenderRequestView {
    pub state: RequestState,
}

impl View for RenderRequest {
    type V = RenderRequestView;

    closed spec fn view(&self) -> RenderRequestView {
        RenderRequestView { state: self.state }
    }
}

/// An outstanding streaming request: the shell may post any number of
/// replies until it closes the stream. Each delivered reply is dispatched
/// through `callback` and translated by `mapper`. Replies are handed to the
/// host synchronously, inside the resolving turn, so there is no buffer and
/// no back-pressure policy to choose.
#[derive(Debug, PartialEq, Eq)]
pub struct StreamRequest {
    pub operation: KeyValueOperation,
    state: RequestState,
    callback: crate::command::KvCallback,
    mapper: EventMap,
}

/// Mathematical view of a [`StreamRequest`].
pub struct StreamRequestView {
    pub operation: KvOpView,
    pub state: RequestState,
    pub callback: crate::command::KvCallback,
    pub mapper: EventMap,
}

impl View for StreamRequest {
    type V = StreamRequestView;

    closed spec fn view(&self) -> StreamRequestView {
        StreamRequestView {
            operation: self.operation@,
            state: self.state,
            callback: self.callback,
            mapper: self.mapper,
        }
    }
}

/// The outward-facing view of a request as delivered to the host: one tagged
/// variant per capability, carrying the handle by which the host posts the
/// response back.
#[derive(Debug, PartialEq, Eq)]
pub enum Effect {
    KeyValue(KeyValueRequest),
    KeyValueStream(StreamRequest),
    Render(RenderRequest),
}

/// Mathematical view of an [`Effect`].
pub enum EffectView {
    KeyValue(KvRequestView),
    KeyValueStream(StreamRequestView),
    Render(RenderRequestView),
}

impl View for Effect {
    type V = EffectView;

    open spec fn view(&self) -> EffectView {
        match self {
            Effect::KeyValue(r) => EffectView::KeyValue(r@),
            Effect::KeyValueStream(r) => EffectView::KeyValueStream(r@),
            Effect::Render(r) => EffectView::Render(r@),
        }
    }
}

/// The events a command contributes to the turn's buffer, in submission
/// order, each translated by the ambient map `m`.
pub open spec fn turn_events(c: CommandView, m: EventMap) -> Seq<EventView>
    decreases c,
{
    match c {
        CommandView::Empty => Seq::empty(),
        CommandView::Emit(e) => seq![crate::mapping::apply_view(m, e)],
        CommandView::KeyValueEffect { .. } => Seq::empty(),
        CommandView::RenderEffect => Seq::empty(),
        CommandView::StreamEffect { .. } => Seq::empty(),
        CommandView::Join(a, b) => turn_events(*a, m) + turn_events(*b, m),
        CommandView::MapEvents(inner, f) => turn_events(
            *inner,
            EventMap::Compose(Box::new(m), Box::new(f)),
        ),
    }
}

/// The effects a command contributes to the turn's queue, in production
/// order. Every request starts pending; parked tasks inherit the ambient
/// translation `m`.
pub open spec fn turn_effects(c: CommandView, m: EventMap) -> Seq<EffectView>
    decreases c,
{
    match c {
        CommandView::Empty => Seq::empty(),
        CommandView::Emit(_) => Seq::empty(),
        CommandView::KeyValueEffect { operation, next } => seq![
            EffectView::KeyValue(
                KvRequestView {
                    operation,
                    state: RequestState::Pending,
                    task: spec_mapped_task(next, m),
                },
            ),
        ],
        CommandView::RenderEffect => seq![
            EffectView::Render(RenderRequestView { state: RequestState::Pending }),
        ],
        CommandView::StreamEffect { operation, callback, mapper } => seq![
            EffectView::KeyValueStream(
                StreamRequestView {
                    operation,
                    state: RequestState::Pending,
                    callback,
                    mapper: EventMap::Compose(Box::new(m), Box::new(mapper)),
                },
            ),
        ],
        CommandView::Join(a, b) => turn_effects(*a, m) + turn_effects(*b, m),
        CommandView::MapEvents(inner, f) => turn_effects(
            *inner,
            EventMap::Compose(Box::new(m), Box::new(f)),
        ),
    }
}

pub open spec fn events_view(s: Seq<Event>) -> Seq<EventView> {
    s.map_values(|e: Event| e@)
}

pub open spec fn effects_view(s: Seq<Effect>) -> Seq<EffectView> {
    s.map_values(|f: Effect| f@)
}

/// Reduce `c` to quiescence, appending the events and effects it produces to
/// the turn's buffers. `m` is the ambient event translation.
pub fn reduce(c: Command, m: &EventMap, events: &mut Vec<Event>, effects: &mut Vec<Effect>)
    ensures
        events_view(final(events)@) == events_view(old(events)@) + turn_events(c@, *m),
        effects_view(final(effects)@) == effects_view(old(effects)@) + turn_effects(c@, *m),
    decreases c,
{
    let ghost cv = c@;
    let ghost events0 = events@;
    let ghost effects0 = effects@;
    match c {
        Command::Empty => {
            proof {
                assert(events_view(events@) =~= events_view(events0) + turn_events(cv, *m));
                assert(effects_view(effects@) =~= effects_view(effects0) + turn_effects(cv, *m));
            }
        },
        Command::Emit(e) => {
            let ghost ev = e@;
            let translated = m.apply(e);
            events.push(translated);
            proof {
                assert(turn_events(cv, *m) =~= seq![crate::mapping::apply_view(*m, ev)]);
                assert(events_view(events@) =~= events_view(events0) + turn_events(cv, *m));
                assert(effects_view(effects@) =~= effects_view(effects0) + turn_effects(cv, *m));
            }
        },
        Command::KeyValueEffect { operation, next } => {
            let ghost opv = operation@;
            let ghost next0 = next;
            let request = KeyValueRequest {
                operation,
                state: RequestState::Pending,
                task: mapped_task(next, m),
            };
            effects.push(Effect::KeyValue(request));
            proof {
                assert(turn_effects(cv, *m) =~= seq![
                    EffectView::KeyValue(
                        KvRequestView {
                            operation: opv,
                            state: RequestState::Pending,
                            task: spec_mapped_task(next0, *m),
                        },
                    ),
                ]);
                assert(events_view(events@) =~= events_view(events0) + turn_events(cv, *m));
                assert(effects_view(effects@) =~= effects_view(effects0) + turn_effects(cv, *m));
            }
        },
        Command::RenderEffect => {
            effects.push(Effect::Render(RenderRequest {
                operation: RenderOperation,
                state: RequestState::Pending,
            }));
            proof {
                assert(events_view(events@) =~= events_view(events0) + turn_events(cv, *m));
                assert(effects_view(effects@) =~= effects_view(effects0) + turn_effects(cv, *m));
            }
        },
        Command::StreamEffect { operation, callback, mapper } => {
            let ghost opv = operation@;
            let ghost mapper0 = mapper;
            let request = StreamRequest {
                operation,
                state: RequestState::Pending,
                callback,
                mapper: m.after(&mapper),
            };
            effects.push(Effect::KeyValueStream(request));
            proof {
                assert(turn_effects(cv, *m) =~= seq![
                    EffectView::KeyValueStream(
                        StreamRequestView {
                            operation: opv,
                            state: RequestState::Pending,
                            callback,
                            mapper: EventMap::Compose(Box::new(*m), Box::new(mapper0)),
                        },
                    ),
                ]);
                assert(events_view(events@) =~= events_view(events0) + turn_events(cv, *m));
                assert(effects_view(effects@) =~= effects_view(effects0) + turn_effects(cv, *m));
            }
        },
        Command::Join(a, b) => {
            reduce(*a, m, events, effects);
            reduce(*b, m, events, effects);
            proof {
                assert(events_view(events@) =~= events_view(events0) + turn_events(cv, *m));
                assert(effects_view(effects@) =~= effects_view(effects0) + turn_effects(cv, *m));
            }
        },
        Command::MapEvents(inner, f) => {
            let combined = m.after(&f);
            reduce(*inner, &combined, events, effects);
            proof {
                assert(events_view(events@) =~= events_view(events0) + turn_events(cv, *m));
                assert(effects_view(effects@) =~= effects_view(effects0) + turn_effects(cv, *m));
            }
        },
    }
}

/// What a turn hands back to the host: the events and effects observed, in
/// submission order.
#[derive(Debug, PartialEq, Eq)]
pub struct Update {
    pub events: Vec<Event>,
    pub effects: Vec<Effect>,
}

/// Mathematical view of an [`Update`].
pub struct UpdateView {
    pub events: Seq<EventView>,
    pub effects: Seq<EffectView>,
}

impl View for Update {
    type V = UpdateView;

    open spec fn view(&self) -> UpdateView {
        UpdateView { events: events_view(self.events@), effects: effects_view(self.effects@) }
    }
}

impl Update {
    /// The effects observed this turn, consuming the update.
    pub fn into_effects(self) -> (r: Vec<Effect>)
        ensures
            effects_view(r@) == self@.effects,
    {
        self.effects
    }
}

/// Indication that a resolve targeted a request that is no longer
/// outstanding: benign protocol misuse, never fatal.
#[derive(Clone, Copy, PartialEq, Eq, Structural, Debug)]
pub enum ResolveError {
    NotOutstanding,
}

/// The update a woken task contributes: its completion command, reduced to
/// quiescence under the identity translation.
pub open spec fn resolve_update(task: KvTask, result: crate::kv::KvResultView) -> UpdateView {
    UpdateView {
        events: turn_events(resume_view(task, result), EventMap::Identity),
        effects: turn_effects(resume_view(task, result), EventMap::Identity),
    }
}

/// Feed the shell's reply into a parked key-value request and drive the
/// woken task to quiescence.
///
/// A pending request is resolved exactly once: it moves to `Resolved` and the
/// woken task's events and effects come back. Resolving a request that is not
/// pending changes nothing and returns the benign `NotOutstanding`
/// indication.
pub fn resolve_kv(request: &mut KeyValueRequest, result: KeyValueResult) -> (r: Result<
    Update,
    ResolveError,
>)
    requires
        old(request)@.state == RequestState::Pending ==> task_accepts(
            old(request)@.task,
            result_view(result),
        ),
    ensures
        old(request)@.state == RequestState::Pending ==> {
            &&& final(request)@.operation == old(request)@.operation
            &&& final(request)@.task == old(request)@.task
            &&& final(request)@.state == RequestState::Resolved
            &&& (r matches Result::Ok(u) && u@ == resolve_update(
                old(request)@.task,
                result_view(result),
            ))
        },
        old(request)@.state != RequestState::Pending ==> {
            &&& final(request)@ == old(request)@
            &&& r matches Result::Err(e) && e == ResolveError::NotOutstanding
        },
{
    match request.state {
        RequestState::Pending => {
            request.state = RequestState::Resolved;
            let task = request.task.clone();
            let c = resume(task, result);
            let mut events: Vec<Event> = Vec::new();
            let mut effects: Vec<Effect> = Vec::new();
            reduce(c, &EventMap::Identity, &mut events, &mut effects);
            let u = Update { events, effects };
            proof {
                assert(u@.events =~= turn_events(
                    resume_view(old(request)@.task, result_view(result)),
                    EventMap::Identity,
                ));
                assert(u@.effects =~= turn_effects(
                    resume_view(old(request)@.task, result_view(result)),
                    EventMap::Identity,
                ));
            }
            Result::Ok(u)
        },
        _ => Result::Err(ResolveError::NotOutstanding),
    }
}

/// Acknowledge a render request. The requesting task completes with no
/// further events or effects; acknowledging a request that is not pending
/// changes nothing and returns the benign indication.
pub fn resolve_render(request: &mut RenderRequest) -> (r: Result<Update, ResolveError>)
    ensures
        old(request)@.state == RequestState::Pending ==> {
            &&& final(request)@.state == RequestState::Resolved
            &&& (r matches Result::Ok(u) && u@.events == Seq::<EventView>::empty() && u@.effects
                == Seq::<EffectView>::empty())
        },
        old(request)@.state != RequestState::Pending ==> {
            &&& final(request)@ == old(request)@
            &&& r matches Result::Err(e) && e == ResolveError::NotOutstanding
        },
{
    match request.state {
        RequestState::Pending => {
            request.state = RequestState::Resolved;
            let u = Update { events: Vec::new(), effects: Vec::new() };
            proof {
                assert(u@.events =~= Seq::<EventView>::empty());
                assert(u@.effects =~= Seq::<EffectView>::empty());
            }
            Result::Ok(u)
        },
        _ => Result::Err(ResolveError::NotOutstanding),
    }
}

/// The update one delivered stream reply contributes: the consumer's
/// callback event, translated by the stream's map.
pub open spec fn stream_update(req: StreamRequestView, result: crate::kv::KvResultView) -> UpdateView {
    UpdateView {
        events: seq![
            crate::mapping::apply_view(
                req.mapper,
                crate::command::spec_dispatch(req.callback, result),
            ),
        ],
        effects: Seq::empty(),
    }
}

/// Post one reply into a streaming request. A live stream delivers the
/// reply to its consumer and stays open; posting into a closed or cancelled
/// stream changes nothing and returns the benign indication. The state
/// follows the slot machine for a streaming lifecycle.
pub fn resolve_stream(request: &mut StreamRequest, result: KeyValueResult) -> (r: Result<
    Update,
    ResolveError,
>)
    requires
        crate::request::post_delivers(Lifecycle::Stream, old(request)@.state) ==> (
        result matches Result::Ok(response) ==> crate::command::callback_compat(
            old(request)@.callback,
            response@,
        )),
    ensures
        final(request)@.operation == old(request)@.operation,
        final(request)@.callback == old(request)@.callback,
        final(request)@.mapper == old(request)@.mapper,
        final(request)@.state == slot_step(
            Lifecycle::Stream,
            old(request)@.state,
            SlotAction::Post,
        ),
        crate::request::post_delivers(Lifecycle::Stream, old(request)@.state) ==> (
        r matches Result::Ok(u) && u@ == stream_update(old(request)@, result_view(result))),
        !crate::request::post_delivers(Lifecycle::Stream, old(request)@.state) ==> (
        r matches Result::Err(e) && e == ResolveError::NotOutstanding),
{
    match request.state {
        RequestState::Pending | RequestState::Streaming => {
            request.state = RequestState::Streaming;
            let e = dispatch(request.callback, result);
            let translated = request.mapper.apply(e);
            let mut events: Vec<Event> = Vec::new();
            events.push(translated);
            let u = Update { events, effects: Vec::new() };
            proof {
                assert(u@.events =~= stream_update(old(request)@, result_view(result)).events);
                assert(u@.effects =~= Seq::<EffectView>::empty());
            }
            Result::Ok(u)
        },
        _ => Result::Err(ResolveError::NotOutstanding),
    }
}

/// Post the terminal marker of a stream: a live stream closes; a completed
/// or cancelled one is left as it is, with the benign indication.
pub fn close_stream(request: &mut StreamRequest) -> (r: Result<(), ResolveError>)
    ensures
        final(request)@.operation == old(request)@.operation,
        final(request)@.callback == old(request)@.callback,
        final(request)@.mapper == old(request)@.mapper,
        final(request)@.state == slot_step(
            Lifecycle::Stream,
            old(request)@.state,
            SlotAction::Close,
        ),
        crate::request::post_delivers(Lifecycle::Stream, old(request)@.state) <==> r is Ok,
{
    match request.state {
        RequestState::Pending | RequestState::Streaming => {
            request.state = RequestState::Closed;
            Result::Ok(())
        },
        _ => Result::Err(ResolveError::NotOutstanding),
    }
}

/// Abandon the consumer of a stream, as dropping it does: the slot moves to
/// `Cancelled` and later posts find nothing outstanding.
pub fn cancel_stream(request: &mut StreamRequest)
    ensures
        final(request)@.operation == old(request)@.operation,
        final(request)@.callback == old(request)@.callback,
        final(request)@.mapper == old(request)@.mapper,
        final(request)@.state == slot_step(
            Lifecycle::Stream,
            old(request)@.state,
            SlotAction::Cancel,
        ),
{
    match request.state {
        RequestState::Pending | RequestState::Streaming => {
            request.state = RequestState::Cancelled;
        },
        _ => {},
    }
}

/// Abandon the task parked on a key-value request, as dropping the task
/// does: the slot moves to `Cancelled`, and the shell's reply, if it ever
/// comes, finds nothing outstanding. Cancelling a completed request changes
/// nothing.
pub fn cancel_kv(request: &mut KeyValueRequest)
    ensures
        final(request)@.operation == old(request)@.operation,
        final(request)@.task == old(request)@.task,
        final(request)@.state == slot_step(
            Lifecycle::OneShot,
            old(request)@.state,
            SlotAction::Cancel,
        ),
{
    match request.state {
        RequestState::Pending | RequestState::Streaming => {
            request.state = RequestState::Cancelled;
        },
        _ => {},
    }
}

} // verus!
