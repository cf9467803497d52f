//! The command algebra: an immutable, composable description of the work an
//! app's `update` wants done.
//!
//! A command either does nothing, emits an event into the turn's buffer,
//! requests an effect from the shell and parks a continuation on the reply,
//! joins two commands, or re-labels the events a command produces. The
//! executor reduces commands small-step and deterministically: the same
//! command always yields the same event and effect sequences.
//!
//! Continuations are first-order values. The host language's futures cannot
//! be verified, so each suspension point of the built-in app is written out
//! as a [`KvTask`] variant: the state a task parks in while it awaits a
//! key-value reply, together with the event map its context carries.

use vstd::prelude::*;
use vstd::bytes::{spec_u32_from_le_bytes, spec_u32_to_le_bytes, u32_from_le_bytes, u32_to_le_bytes};
use vstd::pervasive::unreached;

use crate::event::{Event, EventView};
use crate::kv::{
    result_view, KeyValueOperation, KeyValueResponse, KeyValueResult, KvOpView, KvResponseView,
    KvResultView,
};
use crate::mapping::EventMap;

verus! {

/// The event constructor a key-value call hands its typed response to.
#[derive(Clone, Copy, PartialEq, Eq, Structural, Debug)]
pub enum KvCallback {
    GetResponse,
    SetResponse,
    ExistsResponse,
    ListKeysResponse,
}

/// The byte payload a `Get`, `Put` or `Delete` response carries, if the
/// response is of one of those shapes.
pub open spec fn spec_bytes_payload(response: KvResponseView) -> Option<Option<Seq<u8>>> {
    match response {
        KvResponseView::Get { value } => Option::Some(value),
        KvResponseView::Put { previous } => Option::Some(previous),
        KvResponseView::Delete { previous } => Option::Some(previous),
        _ => Option::None,
    }
}

/// Whether `callback` can carry the payload of `response`.
pub open spec fn callback_compat(callback: KvCallback, response: KvResponseView) -> bool {
    match callback {
        KvCallback::GetResponse => spec_bytes_payload(response) is Some,
        KvCallback::SetResponse => spec_bytes_payload(response) is Some,
        KvCallback::ExistsResponse => response is Exists,
        KvCallback::ListKeysResponse => response is ListKeys,
    }
}

/// The event `callback` builds from a shell result. Errors pass through
/// untouched; a successful response is narrowed to its typed payload. On a
/// pairing that `callback_compat` rules out — which [`dispatch`] refuses up
/// front — the value falls back to the callback's bare trigger.
pub open spec fn spec_dispatch(callback: KvCallback, result: KvResultView) -> EventView {
    match result {
        Result::Err(e) => match callback {
            KvCallback::GetResponse => EventView::GetResponse(Result::Err(e)),
            KvCallback::SetResponse => EventView::SetResponse(Result::Err(e)),
            KvCallback::ExistsResponse => EventView::ExistsResponse(Result::Err(e)),
            KvCallback::ListKeysResponse => EventView::ListKeysResponse(Result::Err(e)),
        },
        Result::Ok(response) => match callback {
            KvCallback::GetResponse => match spec_bytes_payload(response) {
                Option::Some(p) => EventView::GetResponse(Result::Ok(p)),
                Option::None => EventView::Get,
            },
            KvCallback::SetResponse => match spec_bytes_payload(response) {
                Option::Some(p) => EventView::SetResponse(Result::Ok(p)),
                Option::None => EventView::Put,
            },
            KvCallback::ExistsResponse => match response {
                KvResponseView::Exists { is_present } => EventView::ExistsResponse(
                    Result::Ok(is_present),
                ),
                _ => EventView::Exists,
            },
            KvCallback::ListKeysResponse => match response {
                KvResponseView::ListKeys { keys, next_cursor } => EventView::ListKeysResponse(
                    Result::Ok((keys, next_cursor)),
                ),
                _ => EventView::ListKeys,
            },
        },
    }
}

/// Build the event `callback` stands for from a shell result.
pub fn dispatch(callback: KvCallback, result: KeyValueResult) -> (e: Event)
    requires
        result matches Result::Ok(response) ==> callback_compat(callback, response@),
    ensures
        e@ == spec_dispatch(callback, result_view(result)),
{
    match result {
        Result::Err(error) => match callback {
            KvCallback::GetResponse => Event::GetResponse(Result::Err(error)),
            KvCallback::SetResponse => Event::SetResponse(Result::Err(error)),
            KvCallback::ExistsResponse => Event::ExistsResponse(Result::Err(error)),
            KvCallback::ListKeysResponse => Event::ListKeysResponse(Result::Err(error)),
        },
        Result::Ok(response) => match callback {
            KvCallback::GetResponse => Event::GetResponse(Result::Ok(take_bytes_payload(response))),
            KvCallback::SetResponse => Event::SetResponse(Result::Ok(take_bytes_payload(response))),
            KvCallback::ExistsResponse => match response {
                KeyValueResponse::Exists { is_present } => Event::ExistsResponse(
                    Result::Ok(is_present),
                ),
                _ => unreached(),
            },
            KvCallback::ListKeysResponse => match response {
                KeyValueResponse::ListKeys { keys, next_cursor } => Event::ListKeysResponse(
                    Result::Ok((keys, next_cursor)),
                ),
                _ => unreached(),
            },
        },
    }
}

fn take_bytes_payload(response: KeyValueResponse) -> (p: Option<Vec<u8>>)
    requires
        spec_bytes_payload(response@) is Some,
    ensures
        Option::Some(crate::kv::bytes_view(p)) == spec_bytes_payload(response@),
{
    match response {
        KeyValueResponse::Get { value } => value,
        KeyValueResponse::Put { previous } => previous,
        KeyValueResponse::Delete { previous } => previous,
        _ => unreached(),
    }
}

/// A parked continuation, waiting for the reply to a key-value request.
#[derive(Debug, PartialEq, Eq)]
pub enum KvTask {
    /// Turn the reply into an app event through `callback`, translate it
    /// through `mapper`, and complete.
    Dispatch { callback: KvCallback, mapper: EventMap },
    /// The middle of the get-then-put chain: read a little-endian counter
    /// from the reply, then ask the shell to store its successor, parking a
    /// `SetResponse` dispatch on that second request.
    PutAfterGet { mapper: EventMap },
}

impl Clone for KvTask {
    fn clone(&self) -> (res: Self)
        ensures
            res == *self,
    {
        match self {
            KvTask::Dispatch { callback, mapper } => KvTask::Dispatch {
                callback: *callback,
                mapper: mapper.clone(),
            },
            KvTask::PutAfterGet { mapper } => KvTask::PutAfterGet { mapper: mapper.clone() },
        }
    }
}

/// `task` with `outer` applied to every event it will ever emit.
pub open spec fn spec_mapped_task(task: KvTask, outer: EventMap) -> KvTask {
    match task {
        KvTask::Dispatch { callback, mapper } => KvTask::Dispatch {
            callback,
            mapper: EventMap::Compose(Box::new(outer), Box::new(mapper)),
        },
        KvTask::PutAfterGet { mapper } => KvTask::PutAfterGet {
            mapper: EventMap::Compose(Box::new(outer), Box::new(mapper)),
        },
    }
}

/// Compose `outer` onto the event map a task carries.
pub fn mapped_task(task: KvTask, outer: &EventMap) -> (r: KvTask)
    ensures
        r == spec_mapped_task(task, *outer),
{
    match task {
        KvTask::Dispatch { callback, mapper } => KvTask::Dispatch {
            callback,
            mapper: outer.after(&mapper),
        },
        KvTask::PutAfterGet { mapper } => KvTask::PutAfterGet { mapper: outer.after(&mapper) },
    }
}

/// An immutable description of work, returned by the app's `update`.
#[derive(Debug, PartialEq, Eq)]
pub enum Command {
    /// Do nothing.
    Empty,
    /// Append an event to the turn's buffer, for the host to feed back in.
    Emit(Event),
    /// Ask the shell to perform a key-value operation and park `next` on the
    /// reply.
    KeyValueEffect { operation: KeyValueOperation, next: KvTask },
    /// Ask the shell to redraw the UI; the acknowledgement completes the
    /// requesting task with no further work.
    RenderEffect,
    /// Ask the shell to open a long-lived stream: it may post any number of
    /// replies, each dispatched through `callback` and translated by
    /// `mapper`, until it closes the stream.
    StreamEffect { operation: KeyValueOperation, callback: KvCallback, mapper: EventMap },
    /// Reduce both commands; their events and effects interleave in source
    /// order.
    Join(Box<Command>, Box<Command>),
    /// Translate every event the inner command produces. Effects are
    /// untouched, but continuations they park inherit the translation.
    MapEvents(Box<Command>, EventMap),
}

/// Mathematical view of a [`Command`].
pub enum CommandView {
    Empty,
    Emit(EventView),
    KeyValueEffect { operation: KvOpView, next: KvTask },
    RenderEffect,
    StreamEffect { operation: KvOpView, callback: KvCallback, mapper: EventMap },
    Join(Box<CommandView>, Box<CommandView>),
    MapEvents(Box<CommandView>, EventMap),
}

pub open spec fn command_view(c: &Command) -> CommandView
    decreases c,
{
    match c {
        Command::Empty => CommandView::Empty,
        Command::Emit(e) => CommandView::Emit(e@),
        Command::KeyValueEffect { operation, next } => CommandView::KeyValueEffect {
            operation: operation@,
            next: *next,
        },
        Command::RenderEffect => CommandView::RenderEffect,
        Command::StreamEffect { operation, callback, mapper } => CommandView::StreamEffect {
            operation: operation@,
            callback: *callback,
            mapper: *mapper,
        },
        Command::Join(a, b) => CommandView::Join(
            Box::new(command_view(&**a)),
            Box::new(command_view(&**b)),
        ),
        Command::MapEvents(inner, m) => CommandView::MapEvents(
            Box::new(command_view(&**inner)),
            *m,
        ),
    }
}

impl View for Command {
    type V = CommandView;

    open spec fn view(&self) -> CommandView {
        command_view(self)
    }
}

impl Command {
    /// The empty command: the executor takes no action.
    pub fn none() -> (c: Command)
        ensures
            c@ == CommandView::Empty,
    {
        Command::Empty
    }

    /// Emit `e` into the turn's event buffer.
    pub fn event(e: Event) -> (c: Command)
        ensures
            c@ == CommandView::Emit(e@),
    {
        Command::Emit(e)
    }

    /// Reduce `a`, then `b`; events and effects interleave by source order.
    pub fn join(a: Command, b: Command) -> (c: Command)
        ensures
            c@ == CommandView::Join(Box::new(a@), Box::new(b@)),
    {
        Command::Join(Box::new(a), Box::new(b))
    }

    /// Translate every event `self` produces through `m`.
    pub fn mapped(self, m: EventMap) -> (c: Command)
        ensures
            c@ == CommandView::MapEvents(Box::new(self@), m),
    {
        Command::MapEvents(Box::new(self), m)
    }
}

/// Whether a parked `task` accepts `result`: the inputs on which the
/// continuation is defined. A result outside this set leaves the awaiting
/// task no defined step — a programmer error the host must treat as fatal —
/// so `resolve` refuses it up front.
pub open spec fn task_accepts(task: KvTask, result: KvResultView) -> bool {
    match task {
        KvTask::Dispatch { callback, .. } => match result {
            Result::Ok(response) => callback_compat(callback, response),
            Result::Err(_) => true,
        },
        KvTask::PutAfterGet { .. } => match result {
            Result::Ok(KvResponseView::Get { value: Option::Some(v) }) => v.len() == 4
                && spec_u32_from_le_bytes(v) != 0x7fff_ffffu32,
            _ => false,
        },
    }
}

/// The bit pattern of a little-endian counter after adding one in 32-bit
/// two's-complement arithmetic.
pub open spec fn counter_succ(u: u32) -> u32 {
    if u == 0xffff_ffffu32 {
        0u32
    } else {
        (u + 1) as u32
    }
}

/// The command a woken task completes with.
pub open spec fn resume_view(task: KvTask, result: KvResultView) -> CommandView {
    match task {
        KvTask::Dispatch { callback, mapper } => CommandView::MapEvents(
            Box::new(CommandView::Emit(spec_dispatch(callback, result))),
            mapper,
        ),
        KvTask::PutAfterGet { mapper } => {
            let v = match result {
                Result::Ok(KvResponseView::Get { value: Option::Some(v) }) => v,
                _ => Seq::empty(),
            };
            CommandView::KeyValueEffect {
                operation: KvOpView::Put {
                    key: "test_num"@,
                    value: spec_u32_to_le_bytes(counter_succ(spec_u32_from_le_bytes(v))),
                },
                next: KvTask::Dispatch { callback: KvCallback::SetResponse, mapper },
            }
        },
    }
}

/// Resume a parked task with the shell's result, yielding the command it
/// completes with.
pub fn resume(task: KvTask, result: KeyValueResult) -> (c: Command)
    requires
        task_accepts(task, result_view(result)),
    ensures
        c@ == resume_view(task, result_view(result)),
{
    match task {
        KvTask::Dispatch { callback, mapper } => {
            let e = dispatch(callback, result);
            let inner = Command::Emit(e);
            proof {
                assert(inner@ == CommandView::Emit(e@));
            }
            Command::MapEvents(Box::new(inner), mapper)
        },
        KvTask::PutAfterGet { mapper } => {
            let v: Vec<u8> = match result {
                Result::Ok(KeyValueResponse::Get { value: Option::Some(v) }) => v,
                _ => unreached(),
            };
            let counter = u32_from_le_bytes(v.as_slice());
            let next_counter: u32 = if counter == 0xffff_ffffu32 {
                0u32
            } else {
                counter + 1
            };
            Command::KeyValueEffect {
                operation: KeyValueOperation::Put {
                    key: "test_num".to_owned(),
                    value: u32_to_le_bytes(next_counter),
                },
                next: KvTask::Dispatch { callback: KvCallback::SetResponse, mapper },
            }
        },
    }
}

} // verus!
