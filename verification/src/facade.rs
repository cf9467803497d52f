//! The core façade: the host-facing contract of one core instance.
//!
//! `process_event` runs one turn; `resolve` feeds a shell reply into an
//! outstanding request and drives the woken task to quiescence; `view` is a
//! pure projection and never triggers the executor. Multiple cores are
//! independently usable: a core owns nothing but its model.

use vstd::prelude::*;

use crate::app::{update_accepts, update_spec, App};
use crate::capability::Capabilities;
use crate::event::{Event, EventView, Model, ModelView, ViewModel};
use crate::executor::{
    reduce, resolve_kv, resolve_render, turn_effects, turn_events, Effect, KeyValueRequest,
    RenderRequest, ResolveError, Update, UpdateView,
};
use crate::kv::{result_view, KeyValueResult};
use crate::mapping::EventMap;
use crate::text::success_line;

verus! {

/// One turn of the core: the model after the event, and the events and
/// effects observed, reduced under the identity translation.
pub open spec fn process_spec(e: EventView, m: ModelView) -> (ModelView, UpdateView) {
    let (m2, c) = update_spec(e, m, EventMap::Identity);
    (
        m2,
        UpdateView {
            events: turn_events(c, EventMap::Identity),
            effects: turn_effects(c, EventMap::Identity),
        },
    )
}

/// A core instance: the app plus the model it drives.
#[derive(Debug)]
pub struct Core {
    app: App,
    model: Model,
}

impl Core {
    /// The mathematical view of this core's model.
    pub closed spec fn model_view(&self) -> ModelView {
        self.model@
    }

    /// A core for the app over `model`.
    pub fn new(model: Model) -> (core: Core)
        ensures
            core.model_view() == model@,
    {
        Core { app: App, model }
    }

    /// Run one turn: fold `event` into the model and return the events and
    /// effects observed, in submission order.
    pub fn process_event(&mut self, event: Event) -> (u: Update)
        requires
            update_accepts(event@),
        ensures
            final(self).model_view() == process_spec(event@, old(self).model_view()).0,
            u@ == process_spec(event@, old(self).model_view()).1,
    {
        let capabilities = Capabilities::default();
        let c = self.app.update(event, &mut self.model, &capabilities);
        let mut events: Vec<Event> = Vec::new();
        let mut effects: Vec<Effect> = Vec::new();
        reduce(c, &EventMap::Identity, &mut events, &mut effects);
        let u = Update { events, effects };
        proof {
            assert(u@.events =~= process_spec(event@, old(self).model_view()).1.events);
            assert(u@.effects =~= process_spec(event@, old(self).model_view()).1.effects);
        }
        u
    }

    /// Feed a shell reply into an outstanding key-value request. The model
    /// is untouched: a woken task only emits events and effects, and the
    /// host decides what to feed back in.
    pub fn resolve(&self, request: &mut KeyValueRequest, result: KeyValueResult) -> (r: Result<
        Update,
        ResolveError,
    >)
        requires
            old(request)@.state == crate::request::RequestState::Pending
                ==> crate::command::task_accepts(old(request)@.task, result_view(result)),
        ensures
            old(request)@.state == crate::request::RequestState::Pending ==> {
                &&& final(request)@.operation == old(request)@.operation
                &&& final(request)@.task == old(request)@.task
                &&& final(request)@.state == crate::request::RequestState::Resolved
                &&& (r matches Result::Ok(u) && u@ == crate::executor::resolve_update(
                    old(request)@.task,
                    result_view(result),
                ))
            },
            old(request)@.state != crate::request::RequestState::Pending ==> {
                &&& final(request)@ == old(request)@
                &&& r matches Result::Err(e) && e == ResolveError::NotOutstanding
            },
    {
        resolve_kv(request, result)
    }

    /// Acknowledge an outstanding render request.
    pub fn resolve_render(&self, request: &mut RenderRequest) -> (r: Result<Update, ResolveError>)
        ensures
            old(request)@.state == crate::request::RequestState::Pending ==> {
                &&& final(request)@.state == crate::request::RequestState::Resolved
                &&& (r matches Result::Ok(u) && u@.events == Seq::<EventView>::empty()
                    && u@.effects == Seq::<crate::executor::EffectView>::empty())
            },
            old(request)@.state != crate::request::RequestState::Pending ==> {
                &&& final(request)@ == old(request)@
                &&& r matches Result::Err(e) && e == ResolveError::NotOutstanding
            },
    {
        resolve_render(request)
    }

    /// The pure projection of the model for the shell's UI. It has no side
    /// effect: the core is only read.
    pub fn view(&self) -> (vm: ViewModel)
        ensures
            vm@ == success_line(self.model_view()),
    {
        self.app.view(&self.model)
    }
}

} // verus!
