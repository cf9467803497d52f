//! The built-in key-value sample app: a pure `update` from events to
//! commands over a small counter model, and a pure `view` projection.
//!
//! `update` never performs work itself: it returns a command, and the
//! executor turns that command into effect requests. A response event with
//! an error payload, or a get response without the expected four counter
//! bytes, leaves the app no defined step; `update_accepts` excludes those
//! inputs, so `update` never panics.

use vstd::prelude::*;
use vstd::bytes::{spec_u32_from_le_bytes, spec_u32_to_le_bytes, u32_from_le_bytes, u32_to_le_bytes};
use vstd::slice::slice_subrange;

use crate::capability::Capabilities;
use crate::command::{Command, CommandView, KvCallback, KvTask};
use crate::event::{Event, EventView, Model, ModelView, ViewModel};
use crate::kv::{KeyValueOperation, KvOpView};
use crate::mapping::EventMap;
use crate::text::{format_success_line, success_line};

verus! {

/// The sample app. It holds no state of its own: the model is owned by the
/// host and borrowed exclusively for the duration of a turn.
#[derive(Debug, Default)]
pub struct App;

/// The inputs `update` is defined on. On the others the app has no defined
/// step — a programmer error the host must treat as fatal — so they are
/// excluded and the verified `update` cannot panic.
pub open spec fn update_accepts(e: EventView) -> bool {
    match e {
        EventView::GetResponse(r) => match r {
            Result::Ok(Option::Some(v)) => v.len() >= 4,
            _ => false,
        },
        EventView::SetResponse(r) => r is Ok,
        EventView::ExistsResponse(r) => r is Ok,
        EventView::ListKeysResponse(r) => r is Ok,
        _ => true,
    }
}

/// A 32-bit little-endian counter read as a signed value.
pub open spec fn i32_from_le(b: Seq<u8>) -> i32 {
    let u = spec_u32_from_le_bytes(b);
    if u <= 0x7fff_ffffu32 {
        u as i32
    } else {
        (u - 0x1_0000_0000) as i32
    }
}

/// What `update` does: the model after the event, and the command it
/// returns. `kv` is the event map the key-value capability carries.
pub open spec fn update_spec(e: EventView, m: ModelView, kv: EventMap) -> (ModelView, CommandView) {
    match e {
        EventView::Get => (
            m,
            CommandView::KeyValueEffect {
                operation: KvOpView::Get { key: "test"@ },
                next: KvTask::Dispatch { callback: KvCallback::GetResponse, mapper: kv },
            },
        ),
        EventView::Put => (
            m,
            CommandView::KeyValueEffect {
                operation: KvOpView::Put { key: "test"@, value: spec_u32_to_le_bytes(42u32) },
                next: KvTask::Dispatch { callback: KvCallback::SetResponse, mapper: kv },
            },
        ),
        EventView::Delete => (
            m,
            CommandView::KeyValueEffect {
                operation: KvOpView::Delete { key: "test"@ },
                next: KvTask::Dispatch { callback: KvCallback::SetResponse, mapper: kv },
            },
        ),
        EventView::Exists => (
            m,
            CommandView::KeyValueEffect {
                operation: KvOpView::Exists { key: "test"@ },
                next: KvTask::Dispatch { callback: KvCallback::ExistsResponse, mapper: kv },
            },
        ),
        EventView::ListKeys => (
            m,
            CommandView::KeyValueEffect {
                operation: KvOpView::ListKeys { prefix: "test:"@, cursor: 0u64 },
                next: KvTask::Dispatch { callback: KvCallback::ListKeysResponse, mapper: kv },
            },
        ),
        EventView::GetThenSet => (
            m,
            CommandView::KeyValueEffect {
                operation: KvOpView::Get { key: "test_num"@ },
                next: KvTask::PutAfterGet {
                    mapper: EventMap::Compose(Box::new(kv), Box::new(EventMap::Identity)),
                },
            },
        ),
        EventView::GetResponse(r) => match r {
            Result::Ok(Option::Some(v)) => (
                ModelView {
                    value: i32_from_le(v.take(4)),
                    keys: m.keys,
                    cursor: m.cursor,
                    successful: m.successful,
                },
                CommandView::Empty,
            ),
            _ => (m, CommandView::Empty),
        },
        EventView::SetResponse(r) => match r {
            Result::Ok(_) => (
                ModelView {
                    value: m.value,
                    keys: m.keys,
                    cursor: m.cursor,
                    successful: true,
                },
                CommandView::RenderEffect,
            ),
            _ => (m, CommandView::Empty),
        },
        EventView::ExistsResponse(r) => match r {
            Result::Ok(_) => (
                ModelView {
                    value: m.value,
                    keys: m.keys,
                    cursor: m.cursor,
                    successful: true,
                },
                CommandView::RenderEffect,
            ),
            _ => (m, CommandView::Empty),
        },
        EventView::ListKeysResponse(r) => match r {
            Result::Ok((keys, cursor)) => (
                ModelView { value: m.value, keys, cursor, successful: m.successful },
                CommandView::RenderEffect,
            ),
            _ => (m, CommandView::Empty),
        },
    }
}

impl App {
    /// One step of the app: fold `event` into the model and describe the
    /// work to do next.
    pub fn update(&self, event: Event, model: &mut Model, caps: &Capabilities) -> (c: Command)
        requires
            update_accepts(event@),
        ensures
            final(model)@ == update_spec(event@, old(model)@, caps.key_value@).0,
            c@ == update_spec(event@, old(model)@, caps.key_value@).1,
    {
        let key = "test".to_owned();
        match event {
            Event::Get => caps.key_value.get(key, KvCallback::GetResponse),
            Event::Put => caps.key_value.set(key, u32_to_le_bytes(42u32), KvCallback::SetResponse),
            Event::Delete => caps.key_value.delete(key, KvCallback::SetResponse),
            Event::Exists => caps.key_value.exists_key(key, KvCallback::ExistsResponse),
            Event::ListKeys => caps.key_value.list_keys(
                "test:".to_owned(),
                0,
                KvCallback::ListKeysResponse,
            ),
            Event::GetThenSet => {
                let kv = caps.key_value.clone();
                kv.request_task(
                    KeyValueOperation::Get { key: "test_num".to_owned() },
                    KvTask::PutAfterGet { mapper: EventMap::Identity },
                )
            },
            Event::GetResponse(r) => {
                let value = match r {
                    Result::Ok(Option::Some(value)) => value,
                    _ => vstd::pervasive::unreached(),
                };
                let int_bytes = slice_subrange(value.as_slice(), 0, 4);
                let u = u32_from_le_bytes(int_bytes);
                let n: i32 = if u <= 0x7fff_ffffu32 {
                    u as i32
                } else {
                    ((u as i64) - 0x1_0000_0000i64) as i32
                };
                model.value = n;
                proof {
                    assert(value@.subrange(0, 4) =~= value@.take(4));
                }
                Command::none()
            },
            Event::SetResponse(r) => match r {
                Result::Ok(_) => {
                    model.successful = true;
                    caps.render.render()
                },
                _ => vstd::pervasive::unreached(),
            },
            Event::ExistsResponse(r) => match r {
                Result::Ok(_) => {
                    model.successful = true;
                    caps.render.render()
                },
                _ => vstd::pervasive::unreached(),
            },
            Event::ListKeysResponse(r) => match r {
                Result::Ok((keys, cursor)) => {
                    model.keys = keys;
                    model.cursor = cursor;
                    caps.render.render()
                },
                _ => vstd::pervasive::unreached(),
            },
        }
    }

    /// Project the view model out of the model. Pure: equal models give
    /// equal view models, and the model is not touched.
    pub fn view(&self, model: &Model) -> (vm: ViewModel)
        ensures
            vm@ == success_line(model@),
    {
        ViewModel { result: format_success_line(model.successful, model.value) }
    }
}

} // verus!
