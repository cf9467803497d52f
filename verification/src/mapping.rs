//! Event maps: the composition primitive for nesting child apps.
//!
//! A capability context is parameterised by the events it can inject. To give
//! a child app a context that speaks the child's events while the kernel
//! routes the parent's, the context carries an [`EventMap`]: a first-order
//! description of the translation applied to every event the capability
//! injects. Maps compose, and composition is associative in observable
//! events; see [`lemma_map_event_composes`](crate::laws).

use vstd::prelude::*;

use crate::event::{Event, EventView, TriggerEvent};

verus! {

/// A translation applied to every event a capability injects.
#[derive(Debug, PartialEq, Eq)]
pub enum EventMap {
    /// Forward every event unchanged.
    Identity,
    /// Collapse every event onto one payload-free trigger.
    Constant(TriggerEvent),
    /// Replace a response event by the trigger that would request the same
    /// operation again; payload-free events pass unchanged.
    Retry,
    /// Apply the second map first, then the first: `Compose(a, b)` is
    /// `a` after `b`.
    Compose(Box<EventMap>, Box<EventMap>),
}

/// What [`EventMap::Retry`] turns each event into.
pub open spec fn retry_view(e: EventView) -> EventView {
    match e {
        EventView::GetResponse(_) => EventView::Get,
        EventView::SetResponse(_) => EventView::Put,
        EventView::ExistsResponse(_) => EventView::Exists,
        EventView::ListKeysResponse(_) => EventView::ListKeys,
        _ => e,
    }
}

/// The translation a map performs, one event at a time.
pub open spec fn apply_view(m: EventMap, e: EventView) -> EventView
    decreases m,
{
    match m {
        EventMap::Identity => e,
        EventMap::Constant(t) => t.event_view(),
        EventMap::Retry => retry_view(e),
        EventMap::Compose(outer, inner) => apply_view(*outer, apply_view(*inner, e)),
    }
}

impl Clone for EventMap {
    fn clone(&self) -> (res: Self)
        ensures
            res == *self,
        decreases *self,
    {
        match self {
            EventMap::Identity => EventMap::Identity,
            EventMap::Constant(t) => EventMap::Constant(*t),
            EventMap::Retry => EventMap::Retry,
            EventMap::Compose(outer, inner) => EventMap::Compose(
                Box::new((**outer).clone()),
                Box::new((**inner).clone()),
            ),
        }
    }
}

impl EventMap {
    /// Translate one event.
    pub fn apply(&self, e: Event) -> (r: Event)
        ensures
            r@ == apply_view(*self, e@),
        decreases *self,
    {
        match self {
            EventMap::Identity => e,
            EventMap::Constant(t) => t.to_event(),
            EventMap::Retry => match e {
                Event::GetResponse(_) => Event::Get,
                Event::SetResponse(_) => Event::Put,
                Event::ExistsResponse(_) => Event::Exists,
                Event::ListKeysResponse(_) => Event::ListKeys,
                other => other,
            },
            EventMap::Compose(outer, inner) => {
                let step = inner.apply(e);
                outer.apply(step)
            },
        }
    }

    /// The map that applies `inner` first and then `self`.
    pub fn after(&self, inner: &EventMap) -> (m: EventMap)
        ensures
            m == EventMap::Compose(Box::new(*self), Box::new(*inner)),
    {
        EventMap::Compose(Box::new(self.clone()), Box::new(inner.clone()))
    }
}

/// Composition means exactly "apply the inner map, then the outer one".
pub proof fn lemma_compose_applies_in_order(outer: EventMap, inner: EventMap, e: EventView)
    ensures
        apply_view(EventMap::Compose(Box::new(outer), Box::new(inner)), e) == apply_view(
            outer,
            apply_view(inner, e),
        ),
{
}

} // verus!
