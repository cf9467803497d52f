//! A synchronous test harness around the app and executor.
//!
//! The harness runs exactly the production scheduler — it introduces no
//! ordering of its own — but keeps the model in the test's hands and hands
//! each turn's events and effects back for assertions.

use vstd::prelude::*;

use crate::app::{update_accepts, App};
use crate::capability::Capabilities;
use crate::event::{Event, Model, ViewModel};
use crate::executor::{
    reduce, resolve_kv, KeyValueRequest, RenderRequest, ResolveError, Update,
};
use crate::facade::process_spec;
use crate::kv::{result_view, KeyValueResult};
use crate::mapping::EventMap;
use crate::request::RequestState;
use crate::text::success_line;

verus! {

/// Drives the app one synchronous turn at a time.
#[derive(Debug)]
pub struct AppTester {
    app: App,
}

impl Default for AppTester {
    /// A tester over a fresh app with root capabilities.
    fn default() -> (t: AppTester) {
        AppTester { app: App }
    }
}

impl AppTester {
    /// Run one turn over the test's model, returning the events and effects
    /// observed, in submission order — the same reduction the core performs.
    pub fn update(&self, event: Event, model: &mut Model) -> (u: Update)
        requires
            update_accepts(event@),
        ensures
            final(model)@ == process_spec(event@, old(model)@).0,
            u@ == process_spec(event@, old(model)@).1,
    {
        let capabilities = Capabilities::default();
        let c = self.app.update(event, model, &capabilities);
        let mut events: Vec<Event> = Vec::new();
        let mut effects: Vec<crate::executor::Effect> = Vec::new();
        reduce(c, &EventMap::Identity, &mut events, &mut effects);
        let u = Update { events, effects };
        proof {
            assert(u@.events =~= process_spec(event@, old(model)@).1.events);
            assert(u@.effects =~= process_spec(event@, old(model)@).1.effects);
        }
        u
    }

    /// Feed a shell reply into an outstanding key-value request, exactly as
    /// the core does.
    pub fn resolve(&self, request: &mut KeyValueRequest, result: KeyValueResult) -> (r: Result<
        Update,
        ResolveError,
    >)
        requires
            old(request)@.state == RequestState::Pending ==> crate::command::task_accepts(
                old(request)@.task,
                result_view(result),
            ),
        ensures
            old(request)@.state == RequestState::Pending ==> {
                &&& final(request)@.operation == old(request)@.operation
                &&& final(request)@.task == old(request)@.task
                &&& final(request)@.state == RequestState::Resolved
                &&& (r matches Result::Ok(u) && u@ == crate::executor::resolve_update(
                    old(request)@.task,
                    result_view(result),
                ))
            },
            old(request)@.state != RequestState::Pending ==> {
                &&& final(request)@ == old(request)@
                &&& r matches Result::Err(e) && e == ResolveError::NotOutstanding
            },
    {
        resolve_kv(request, result)
    }

    /// Acknowledge an outstanding render request.
    pub fn resolve_render(&self, request: &mut RenderRequest) -> (r: Result<Update, ResolveError>)
        ensures
            old(request)@.state == RequestState::Pending ==> final(request)@.state
                == RequestState::Resolved && r is Ok,
            old(request)@.state != RequestState::Pending ==> final(request)@ == old(request)@
                && r is Err,
    {
        crate::executor::resolve_render(request)
    }

    /// The app's pure view projection over the test's model.
    pub fn view(&self, model: &Model) -> (vm: ViewModel)
        ensures
            vm@ == success_line(model@),
    {
        self.app.view(model)
    }
}

} // verus!
