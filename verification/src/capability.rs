//! Capability contexts: the handle an app's capabilities use to emit effect
//! requests and inject events without binding to any particular shell.
//!
//! A context carries the event map of the capability it was handed to.
//! `map_event` re-targets a context for a nested child app: every event the
//! child injects is first translated, and the translation composes.

use vstd::prelude::*;

use crate::command::{mapped_task, Command, CommandView, KvCallback, KvTask};
use crate::event::Event;
use crate::kv::{KeyValueOperation, KvOpView};
use crate::mapping::{apply_view, EventMap};
use crate::render::Render;

verus! {

/// The handle given to capabilities: it builds the commands that emit effect
/// requests and inject events, translating events through its map.
#[derive(Debug, PartialEq, Eq)]
pub struct CapabilityContext {
    mapper: EventMap,
}

impl View for CapabilityContext {
    type V = EventMap;

    closed spec fn view(&self) -> EventMap {
        self.mapper
    }
}

impl Clone for CapabilityContext {
    fn clone(&self) -> (res: Self)
        ensures
            res == *self,
    {
        CapabilityContext { mapper: self.mapper.clone() }
    }
}

impl CapabilityContext {
    /// A root context: events are injected unchanged.
    pub fn new() -> (c: CapabilityContext)
        ensures
            c@ == EventMap::Identity,
    {
        CapabilityContext { mapper: EventMap::Identity }
    }

    /// A context that accepts a child's events and forwards them through
    /// `f`, then through this context's own map.
    pub fn map_event(&self, f: &EventMap) -> (c: CapabilityContext)
        ensures
            c@ == EventMap::Compose(Box::new(self@), Box::new(*f)),
    {
        CapabilityContext { mapper: self.mapper.after(f) }
    }

    /// Synthesise an event to be re-entered into the app: it lands in the
    /// current turn's event buffer, translated by this context's map.
    pub fn update_app(&self, e: Event) -> (c: Command)
        ensures
            c@ == CommandView::Emit(apply_view(self@, e@)),
    {
        Command::Emit(self.mapper.apply(e))
    }

    /// Enqueue a one-shot render effect; the shell's acknowledgement
    /// completes the requesting task with no further work.
    pub fn notify_shell(&self) -> (c: Command)
        ensures
            c@ == CommandView::RenderEffect,
    {
        Command::RenderEffect
    }

    /// Enqueue a one-shot key-value effect and park `next` on its reply; the
    /// events the parked task emits are translated by this context's map.
    pub fn request_task(&self, operation: KeyValueOperation, next: KvTask) -> (c: Command)
        ensures
            c@ == (CommandView::KeyValueEffect {
                operation: operation@,
                next: crate::command::spec_mapped_task(next, self@),
            }),
    {
        Command::KeyValueEffect { operation, next: mapped_task(next, &self.mapper) }
    }

    /// Enqueue a streaming key-value effect: the shell may post any number
    /// of replies, each dispatched through `callback` and translated by this
    /// context's map, until it closes the stream or the consumer is dropped.
    pub fn stream_from_shell(&self, operation: KeyValueOperation, callback: KvCallback) -> (c:
        Command)
        ensures
            c@ == (CommandView::StreamEffect { operation: operation@, callback, mapper: self@ }),
    {
        Command::StreamEffect { operation, callback, mapper: self.mapper.clone() }
    }

    /// Enqueue a one-shot key-value effect whose typed reply is dispatched
    /// through `callback`.
    pub fn request_from_shell(&self, operation: KeyValueOperation, callback: KvCallback) -> (c:
        Command)
        ensures
            c@ == (CommandView::KeyValueEffect {
                operation: operation@,
                next: KvTask::Dispatch { callback, mapper: self@ },
            }),
    {
        Command::KeyValueEffect {
            operation,
            next: KvTask::Dispatch { callback, mapper: self.mapper.clone() },
        }
    }
}

/// A typed handle letting app code ask the shell for effects. Capabilities
/// are cheap to clone and compose: `map_event` re-targets the context for a
/// nested child app, and the translation composes associatively.
pub trait Capability: Sized {
    /// The event map the capability's context carries.
    spec fn mapper(&self) -> EventMap;

    /// A capability whose injected events are first translated by `f`.
    fn map_event(&self, f: &EventMap) -> (r: Self)
        ensures
            r.mapper() == EventMap::Compose(Box::new(self.mapper()), Box::new(*f)),
    ;
}

/// The key-value capability: asks the shell to read and write a persistent
/// store; replies come back as the events named by the given callback.
#[derive(Debug, PartialEq, Eq)]
pub struct KeyValue {
    context: CapabilityContext,
}

impl View for KeyValue {
    type V = EventMap;

    closed spec fn view(&self) -> EventMap {
        self.context@
    }
}

impl Clone for KeyValue {
    fn clone(&self) -> (res: Self)
        ensures
            res == *self,
    {
        KeyValue { context: self.context.clone() }
    }
}

impl KeyValue {
    pub fn new(context: CapabilityContext) -> (r: KeyValue)
        ensures
            r@ == context@,
    {
        KeyValue { context }
    }

    /// Read the value under `key`; the reply arrives as `callback`.
    pub fn get(&self, key: String, callback: KvCallback) -> (c: Command)
        ensures
            c@ == (CommandView::KeyValueEffect {
                operation: KvOpView::Get { key: key@ },
                next: KvTask::Dispatch { callback, mapper: self@ },
            }),
    {
        self.context.request_from_shell(KeyValueOperation::Get { key }, callback)
    }

    /// Store `value` under `key`; the reply arrives as `callback`.
    pub fn set(&self, key: String, value: Vec<u8>, callback: KvCallback) -> (c: Command)
        ensures
            c@ == (CommandView::KeyValueEffect {
                operation: KvOpView::Put { key: key@, value: value@ },
                next: KvTask::Dispatch { callback, mapper: self@ },
            }),
    {
        self.context.request_from_shell(KeyValueOperation::Put { key, value }, callback)
    }

    /// Remove the value under `key`; the reply arrives as `callback`.
    pub fn delete(&self, key: String, callback: KvCallback) -> (c: Command)
        ensures
            c@ == (CommandView::KeyValueEffect {
                operation: KvOpView::Delete { key: key@ },
                next: KvTask::Dispatch { callback, mapper: self@ },
            }),
    {
        self.context.request_from_shell(KeyValueOperation::Delete { key }, callback)
    }

    /// Ask whether `key` is present; the reply arrives as `callback`.
    pub fn exists_key(&self, key: String, callback: KvCallback) -> (c: Command)
        ensures
            c@ == (CommandView::KeyValueEffect {
                operation: KvOpView::Exists { key: key@ },
                next: KvTask::Dispatch { callback, mapper: self@ },
            }),
    {
        self.context.request_from_shell(KeyValueOperation::Exists { key }, callback)
    }

    /// List the keys under `prefix`, starting from `cursor`; the reply
    /// arrives as `callback`.
    pub fn list_keys(&self, prefix: String, cursor: u64, callback: KvCallback) -> (c: Command)
        ensures
            c@ == (CommandView::KeyValueEffect {
                operation: KvOpView::ListKeys { prefix: prefix@, cursor },
                next: KvTask::Dispatch { callback, mapper: self@ },
            }),
    {
        self.context.request_from_shell(KeyValueOperation::ListKeys { prefix, cursor }, callback)
    }

    /// Enqueue `operation` and park `next` on its reply, translating the
    /// parked task's events through this capability's context.
    pub fn request_task(&self, operation: KeyValueOperation, next: KvTask) -> (c: Command)
        ensures
            c@ == (CommandView::KeyValueEffect {
                operation: operation@,
                next: crate::command::spec_mapped_task(next, self@),
            }),
    {
        self.context.request_task(operation, next)
    }
}

impl Capability for KeyValue {
    open spec fn mapper(&self) -> EventMap {
        self@
    }

    fn map_event(&self, f: &EventMap) -> (r: Self) {
        KeyValue { context: self.context.map_event(f) }
    }
}

/// The capability set handed to the built-in app's `update`.
#[derive(Debug, PartialEq, Eq)]
pub struct Capabilities {
    pub key_value: KeyValue,
    pub render: Render,
}

impl Default for Capabilities {
    /// Root capabilities: both contexts inject events unchanged.
    fn default() -> (c: Capabilities)
        ensures
            c.key_value@ == EventMap::Identity,
            c.render@ == EventMap::Identity,
    {
        Capabilities {
            key_value: KeyValue::new(CapabilityContext::new()),
            render: Render::new(CapabilityContext::new()),
        }
    }
}

} // verus!
