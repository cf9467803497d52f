//! The event, model and view-model types of the built-in key-value sample
//! app that exercises the kernel.
//!
//! Events are the unit of reentry into the app's `update` function: the first
//! six variants are commands the host gives the app, the response variants
//! carry a shell reply back into `update`.

use vstd::prelude::*;

use crate::kv::{KeyValueError, KvErrorView};

verus! {

/// An event of the sample app. The kernel treats events as opaque routing
/// tokens: it moves them, in order, but never inspects them.
#[derive(Debug, PartialEq, Eq)]
pub enum Event {
    Get,
    Put,
    Delete,
    Exists,
    ListKeys,
    GetThenSet,
    GetResponse(Result<Option<Vec<u8>>, KeyValueError>),
    SetResponse(Result<Option<Vec<u8>>, KeyValueError>),
    ExistsResponse(Result<bool, KeyValueError>),
    ListKeysResponse(Result<(Vec<String>, u64), KeyValueError>),
}

/// The payload-free events, usable as constants: an event map can collapse a
/// whole family of events onto one of these triggers.
#[derive(Clone, Copy, PartialEq, Eq, Structural, Debug)]
pub enum TriggerEvent {
    Get,
    Put,
    Delete,
    Exists,
    ListKeys,
    GetThenSet,
}

/// Mathematical view of an [`Event`].
pub enum EventView {
    Get,
    Put,
    Delete,
    Exists,
    ListKeys,
    GetThenSet,
    GetResponse(Result<Option<Seq<u8>>, KvErrorView>),
    SetResponse(Result<Option<Seq<u8>>, KvErrorView>),
    ExistsResponse(Result<bool, KvErrorView>),
    ListKeysResponse(Result<(Seq<Seq<char>>, u64), KvErrorView>),
}

pub open spec fn opt_bytes_result_view(
    r: Result<Option<Vec<u8>>, KeyValueError>,
) -> Result<Option<Seq<u8>>, KvErrorView> {
    match r {
        Result::Ok(o) => Result::Ok(crate::kv::bytes_view(o)),
        Result::Err(e) => Result::Err(e@),
    }
}

pub open spec fn bool_result_view(
    r: Result<bool, KeyValueError>,
) -> Result<bool, KvErrorView> {
    match r {
        Result::Ok(b) => Result::Ok(b),
        Result::Err(e) => Result::Err(e@),
    }
}

pub open spec fn keys_result_view(
    r: Result<(Vec<String>, u64), KeyValueError>,
) -> Result<(Seq<Seq<char>>, u64), KvErrorView> {
    match r {
        Result::Ok((keys, cursor)) => Result::Ok((crate::kv::keys_view(keys), cursor)),
        Result::Err(e) => Result::Err(e@),
    }
}

impl View for Event {
    type V = EventView;

    open spec fn view(&self) -> EventView {
        match self {
            Event::Get => EventView::Get,
            Event::Put => EventView::Put,
            Event::Delete => EventView::Delete,
            Event::Exists => EventView::Exists,
            Event::ListKeys => EventView::ListKeys,
            Event::GetThenSet => EventView::GetThenSet,
            Event::GetResponse(r) => EventView::GetResponse(opt_bytes_result_view(*r)),
            Event::SetResponse(r) => EventView::SetResponse(opt_bytes_result_view(*r)),
            Event::ExistsResponse(r) => EventView::ExistsResponse(bool_result_view(*r)),
            Event::ListKeysResponse(r) => EventView::ListKeysResponse(keys_result_view(*r)),
        }
    }
}

impl TriggerEvent {
    /// The view of the event this trigger stands for.
    pub open spec fn event_view(self) -> EventView {
        match self {
            TriggerEvent::Get => EventView::Get,
            TriggerEvent::Put => EventView::Put,
            TriggerEvent::Delete => EventView::Delete,
            TriggerEvent::Exists => EventView::Exists,
            TriggerEvent::ListKeys => EventView::ListKeys,
            TriggerEvent::GetThenSet => EventView::GetThenSet,
        }
    }

    /// Materialise the event this trigger stands for.
    pub fn to_event(self) -> (e: Event)
        ensures
            e@ == self.event_view(),
    {
        match self {
            TriggerEvent::Get => Event::Get,
            TriggerEvent::Put => Event::Put,
            TriggerEvent::Delete => Event::Delete,
            TriggerEvent::Exists => Event::Exists,
            TriggerEvent::ListKeys => Event::ListKeys,
            TriggerEvent::GetThenSet => Event::GetThenSet,
        }
    }
}

/// The sample app's model, owned by the host and passed by exclusive
/// reference into every `update`.
#[derive(Debug)]
pub struct Model {
    pub value: i32,
    pub keys: Vec<String>,
    pub cursor: u64,
    pub successful: bool,
}

/// Mathematical view of a [`Model`].
pub struct ModelView {
    pub value: i32,
    pub keys: Seq<Seq<char>>,
    pub cursor: u64,
    pub successful: bool,
}

impl View for Model {
    type V = ModelView;

    open spec fn view(&self) -> ModelView {
        ModelView {
            value: self.value,
            keys: crate::kv::keys_view(self.keys),
            cursor: self.cursor,
            successful: self.successful,
        }
    }
}

impl ModelView {
    /// The view of a freshly constructed model.
    pub open spec fn init() -> ModelView {
        ModelView { value: 0, keys: Seq::empty(), cursor: 0, successful: false }
    }
}

impl Default for Model {
    /// An all-zero model: the state the sample app starts from.
    fn default() -> (m: Model)
        ensures
            m@ == ModelView::init(),
    {
        let m = Model { value: 0, keys: Vec::new(), cursor: 0, successful: false };
        proof {
            assert(m@.keys =~= ModelView::init().keys);
        }
        m
    }
}

/// What the app projects out of its model for the shell's UI.
#[derive(Debug, PartialEq, Eq)]
pub struct ViewModel {
    pub result: String,
}

impl View for ViewModel {
    type V = Seq<char>;

    open spec fn view(&self) -> Seq<char> {
        self.result@
    }
}

} // verus!
