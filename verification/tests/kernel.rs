use crux_core::capability::{Capabilities, Capability, CapabilityContext};
use crux_core::command::{Command, KvCallback};
use crux_core::event::{Event, Model, TriggerEvent};
use crux_core::executor::{reduce, Effect, ResolveError};
use crux_core::facade::Core;
use crux_core::kv::{KeyValueError, KeyValueOperation, KeyValueResponse};
use crux_core::mapping::EventMap;
use crux_core::testing::AppTester;

#[test]
fn render_notification() {
    // A successful write acknowledgement makes the app ask for a redraw:
    // exactly one render effect, and acknowledging it yields nothing more.
    let app = AppTester::default();
    let mut model = Model::default();

    let updated = app.update(Event::SetResponse(Ok(None)), &mut model);
    assert!(model.successful);
    assert!(updated.events.is_empty());
    assert_eq!(updated.effects.len(), 1);

    let Effect::Render(mut request) = updated.effects.into_iter().next().unwrap() else {
        panic!("Expected Render effect");
    };

    let ack = app.resolve_render(&mut request).unwrap();
    assert!(ack.events.is_empty());
    assert!(ack.effects.is_empty());

    // The acknowledgement is one-shot: a second one is not outstanding.
    assert_eq!(
        app.resolve_render(&mut request),
        Err(ResolveError::NotOutstanding)
    );
}

#[test]
fn double_resolve_is_not_outstanding() {
    let app = AppTester::default();
    let mut model = Model::default();

    let updated = app.update(Event::Get, &mut model);
    let Effect::KeyValue(mut request) = updated.into_effects().into_iter().next().unwrap() else {
        panic!("Expected KeyValue effect");
    };

    let first = app
        .resolve(
            &mut request,
            Ok(KeyValueResponse::Get {
                value: Some(7i32.to_le_bytes().to_vec()),
            }),
        )
        .unwrap();
    assert_eq!(first.events.len(), 1);

    // The one-shot slot is spent: a second response is discarded with the
    // benign indication and nothing is observed.
    let second = app.resolve(
        &mut request,
        Ok(KeyValueResponse::Get {
            value: Some(9i32.to_le_bytes().to_vec()),
        }),
    );
    assert_eq!(second, Err(ResolveError::NotOutstanding));
}

#[test]
fn cancelled_request_is_not_outstanding() {
    // Dropping the task parked on a request cancels it: the shell's late
    // reply finds nothing outstanding and nothing is observed.
    let app = AppTester::default();
    let mut model = Model::default();

    let updated = app.update(Event::Get, &mut model);
    let Effect::KeyValue(mut request) = updated.into_effects().into_iter().next().unwrap() else {
        panic!("Expected KeyValue effect");
    };

    crux_core::executor::cancel_kv(&mut request);

    let late = app.resolve(
        &mut request,
        Ok(KeyValueResponse::Get {
            value: Some(1i32.to_le_bytes().to_vec()),
        }),
    );
    assert_eq!(late, Err(ResolveError::NotOutstanding));
    assert_eq!(model.value, 0);
}

#[test]
fn join_emits_effects_in_source_order() {
    let caps = Capabilities::default();
    let a = caps
        .key_value
        .get("one".to_string(), KvCallback::GetResponse);
    let b = caps
        .key_value
        .set("two".to_string(), vec![1], KvCallback::SetResponse);

    let mut events: Vec<Event> = Vec::new();
    let mut effects: Vec<Effect> = Vec::new();
    reduce(
        Command::join(a, b),
        &EventMap::Identity,
        &mut events,
        &mut effects,
    );

    assert!(events.is_empty());
    assert_eq!(effects.len(), 2);
    let Effect::KeyValue(first) = &effects[0] else {
        panic!("Expected KeyValue effect");
    };
    let Effect::KeyValue(second) = &effects[1] else {
        panic!("Expected KeyValue effect");
    };
    assert_eq!(
        first.operation,
        KeyValueOperation::Get {
            key: "one".to_string()
        }
    );
    assert_eq!(
        second.operation,
        KeyValueOperation::Put {
            key: "two".to_string(),
            value: vec![1],
        }
    );
}

#[test]
fn map_event_composes_observably() {
    // c.map_event(f).map_event(g) and c.map_event(Compose(f, g)) translate
    // every injected event alike.
    let ctx = CapabilityContext::new();
    let f = EventMap::Constant(TriggerEvent::Put);
    let g = EventMap::Retry;

    let chained = ctx.map_event(&f).map_event(&g);
    let composed = ctx.map_event(&EventMap::Compose(
        Box::new(f.clone()),
        Box::new(g.clone()),
    ));

    let inject = || Event::ExistsResponse(Ok(true));

    let mut events_chained: Vec<Event> = Vec::new();
    let mut events_composed: Vec<Event> = Vec::new();
    let mut effects: Vec<Effect> = Vec::new();
    reduce(
        chained.update_app(inject()),
        &EventMap::Identity,
        &mut events_chained,
        &mut effects,
    );
    reduce(
        composed.update_app(inject()),
        &EventMap::Identity,
        &mut events_composed,
        &mut effects,
    );

    assert_eq!(events_chained, events_composed);
    // Retry turns the response into its trigger, then the constant map
    // collapses it onto Put.
    assert_eq!(events_chained, vec![Event::Put]);
    assert!(effects.is_empty());
}

#[test]
fn map_events_translates_a_whole_command() {
    // mapped(cmd, f) translates the events cmd buffers now, and the parked
    // continuations it leaves behind inherit the translation.
    let caps = Capabilities::default();
    let cmd = Command::mapped(
        Command::join(
            Command::event(Event::ExistsResponse(Ok(true))),
            caps.key_value.get("k".to_string(), KvCallback::GetResponse),
        ),
        EventMap::Retry,
    );

    let mut events: Vec<Event> = Vec::new();
    let mut effects: Vec<Effect> = Vec::new();
    reduce(cmd, &EventMap::Identity, &mut events, &mut effects);

    assert_eq!(events, vec![Event::Exists]);

    let Effect::KeyValue(mut request) = effects.into_iter().next().unwrap() else {
        panic!("Expected KeyValue effect");
    };
    let app = AppTester::default();
    let updated = app
        .resolve(
            &mut request,
            Ok(KeyValueResponse::Get {
                value: Some(3i32.to_le_bytes().to_vec()),
            }),
        )
        .unwrap();
    assert_eq!(updated.events, vec![Event::Get]);
}

#[test]
fn mapped_capability_translates_dispatched_events() {
    // A re-targeted key-value capability translates the events its parked
    // tasks emit when the shell replies.
    let caps = Capabilities::default();
    let kv = caps.key_value.map_event(&EventMap::Retry);

    let app = AppTester::default();
    let cmd = kv.get("test".to_string(), KvCallback::GetResponse);
    let mut events: Vec<Event> = Vec::new();
    let mut effects: Vec<Effect> = Vec::new();
    reduce(cmd, &EventMap::Identity, &mut events, &mut effects);

    let Effect::KeyValue(mut request) = effects.into_iter().next().unwrap() else {
        panic!("Expected KeyValue effect");
    };
    let updated = app
        .resolve(
            &mut request,
            Ok(KeyValueResponse::Get {
                value: Some(5i32.to_le_bytes().to_vec()),
            }),
        )
        .unwrap();

    // Without the map this would be GetResponse(..); Retry collapses it to
    // the trigger that would request the same operation again.
    assert_eq!(updated.events, vec![Event::Get]);
}

#[test]
fn stream_delivers_until_closed() {
    let ctx = CapabilityContext::new();
    let cmd = ctx.stream_from_shell(
        KeyValueOperation::Get {
            key: "watch".to_string(),
        },
        KvCallback::GetResponse,
    );
    let mut events: Vec<Event> = Vec::new();
    let mut effects: Vec<Effect> = Vec::new();
    reduce(cmd, &EventMap::Identity, &mut events, &mut effects);
    assert!(events.is_empty());
    let Effect::KeyValueStream(mut request) = effects.into_iter().next().unwrap() else {
        panic!("Expected stream effect");
    };

    // A stream accepts any number of responses until terminated.
    let first = crux_core::executor::resolve_stream(
        &mut request,
        Ok(KeyValueResponse::Get {
            value: Some(vec![1]),
        }),
    )
    .unwrap();
    assert_eq!(first.events, vec![Event::GetResponse(Ok(Some(vec![1])))]);
    assert!(first.effects.is_empty());

    let second =
        crux_core::executor::resolve_stream(&mut request, Ok(KeyValueResponse::Get { value: None }))
            .unwrap();
    assert_eq!(second.events, vec![Event::GetResponse(Ok(None))]);

    // The terminal marker closes the slot; later posts find nothing
    // outstanding.
    crux_core::executor::close_stream(&mut request).unwrap();
    let late =
        crux_core::executor::resolve_stream(&mut request, Ok(KeyValueResponse::Get { value: None }));
    assert_eq!(late, Err(ResolveError::NotOutstanding));
    assert_eq!(
        crux_core::executor::close_stream(&mut request),
        Err(ResolveError::NotOutstanding)
    );
}

#[test]
fn cancelled_stream_discards_posts() {
    let ctx = CapabilityContext::new();
    let cmd = ctx.stream_from_shell(
        KeyValueOperation::Get {
            key: "watch".to_string(),
        },
        KvCallback::GetResponse,
    );
    let mut events: Vec<Event> = Vec::new();
    let mut effects: Vec<Effect> = Vec::new();
    reduce(cmd, &EventMap::Identity, &mut events, &mut effects);
    let Effect::KeyValueStream(mut request) = effects.into_iter().next().unwrap() else {
        panic!("Expected stream effect");
    };

    crux_core::executor::cancel_stream(&mut request);
    let late =
        crux_core::executor::resolve_stream(&mut request, Ok(KeyValueResponse::Get { value: None }));
    assert_eq!(late, Err(ResolveError::NotOutstanding));
}

#[test]
fn shell_error_passes_through_verbatim() {
    let app = AppTester::default();
    let mut model = Model::default();

    let updated = app.update(Event::Get, &mut model);
    let Effect::KeyValue(mut request) = updated.into_effects().into_iter().next().unwrap() else {
        panic!("Expected KeyValue effect");
    };

    let updated = app
        .resolve(
            &mut request,
            Err(KeyValueError::Io {
                message: "Socket shenanigans prevented the request".to_string(),
            }),
        )
        .unwrap();

    assert_eq!(
        updated.events,
        vec![Event::GetResponse(Err(KeyValueError::Io {
            message: "Socket shenanigans prevented the request".to_string()
        }))]
    );
}

#[test]
fn cursor_not_found_passes_through() {
    let app = AppTester::default();
    let mut model = Model::default();

    let updated = app.update(Event::ListKeys, &mut model);
    let Effect::KeyValue(mut request) = updated.into_effects().into_iter().next().unwrap() else {
        panic!("Expected KeyValue effect");
    };

    let updated = app
        .resolve(&mut request, Err(KeyValueError::CursorNotFound))
        .unwrap();

    assert_eq!(
        updated.events,
        vec![Event::ListKeysResponse(Err(KeyValueError::CursorNotFound))]
    );
}

#[test]
fn core_process_event_and_view() {
    let mut core = Core::new(Model::default());
    assert_eq!(core.view().result, "Success: false, Value: 0");

    let updated = core.process_event(Event::Get);
    let Effect::KeyValue(mut request) = updated.into_effects().into_iter().next().unwrap() else {
        panic!("Expected KeyValue effect");
    };
    let updated = core
        .resolve(
            &mut request,
            Ok(KeyValueResponse::Get {
                value: Some(42i32.to_le_bytes().to_vec()),
            }),
        )
        .unwrap();

    // The host feeds observed events back in; only then does the model move.
    assert_eq!(core.view().result, "Success: false, Value: 0");
    let event = updated.events.into_iter().next().unwrap();
    core.process_event(event);
    assert_eq!(core.view().result, "Success: false, Value: 42");
}

#[test]
fn view_is_pure_and_formats_negative_values() {
    let model = Model {
        value: -7,
        keys: Vec::new(),
        cursor: 0,
        successful: true,
    };
    let core = Core::new(model);
    assert_eq!(core.view().result, "Success: true, Value: -7");
    // Idempotent: asking again observes the same projection.
    assert_eq!(core.view().result, "Success: true, Value: -7");

    let extreme = Core::new(Model {
        value: i32::MIN,
        keys: Vec::new(),
        cursor: 0,
        successful: false,
    });
    assert_eq!(extreme.view().result, "Success: false, Value: -2147483648");
}

#[test]
fn replaying_a_transcript_is_deterministic() {
    // The same recorded calls against equal initial models observe the same
    // events and effects, call for call.
    let run = || {
        let app = AppTester::default();
        let mut model = Model::default();
        let mut observed: Vec<String> = Vec::new();

        let updated = app.update(Event::GetThenSet, &mut model);
        let Effect::KeyValue(mut request) = updated.into_effects().into_iter().next().unwrap()
        else {
            panic!("Expected KeyValue effect");
        };
        observed.push(request.operation.debug_repr());

        let updated = app
            .resolve(
                &mut request,
                Ok(KeyValueResponse::Get {
                    value: Some(17u32.to_le_bytes().to_vec()),
                }),
            )
            .unwrap();
        let Effect::KeyValue(request) = updated.into_effects().into_iter().next().unwrap() else {
            panic!("Expected KeyValue effect");
        };
        observed.push(request.operation.debug_repr());
        observed
    };

    assert_eq!(run(), run());
}

#[test]
fn get_response_reads_negative_counters() {
    let app = AppTester::default();
    let mut model = Model::default();
    app.update(
        Event::GetResponse(Ok(Some((-5i32).to_le_bytes().to_vec()))),
        &mut model,
    );
    assert_eq!(model.value, -5);
}

#[test]
fn debug_repr_utf8_boundaries() {
    let repr_of = |value: Vec<u8>| {
        KeyValueOperation::Put {
            key: "k".to_string(),
            value,
        }
        .debug_repr()
    };

    // Well-formed two- and three-byte sequences decode as text.
    assert_eq!(
        repr_of("caf\u{e9} \u{20ac}".as_bytes().to_vec()),
        "Set { key: \"k\", value: \"caf\u{e9} \u{20ac}\" }"
    );

    // Malformed encodings fall back to the byte-count placeholder: a lone
    // continuation byte, a truncated sequence, an overlong encoding, and a
    // surrogate code point.
    assert_eq!(
        repr_of(vec![0x80]),
        r#"Set { key: "k", value: <binary data - 1 bytes> }"#
    );
    assert_eq!(
        repr_of(vec![0xe2, 0x82]),
        r#"Set { key: "k", value: <binary data - 2 bytes> }"#
    );
    assert_eq!(
        repr_of(vec![0xc0, 0xaf]),
        r#"Set { key: "k", value: <binary data - 2 bytes> }"#
    );
    assert_eq!(
        repr_of(vec![0xed, 0xa0, 0x80]),
        r#"Set { key: "k", value: <binary data - 3 bytes> }"#
    );
}

#[test]
fn debug_repr_other_operations() {
    let op = KeyValueOperation::Delete {
        key: "k1".to_string(),
    };
    assert_eq!(op.debug_repr(), r#"Delete { key: "k1" }"#);

    let op = KeyValueOperation::Exists {
        key: "k2".to_string(),
    };
    assert_eq!(op.debug_repr(), r#"Exists { key: "k2" }"#);

    let op = KeyValueOperation::ListKeys {
        prefix: "test:".to_string(),
        cursor: 12005,
    };
    assert_eq!(op.debug_repr(), r#"ListKeys { prefix: "test:", cursor: 12005 }"#);
}

#[test]
fn debug_repr_truncation_boundary() {
    // Exactly fifty characters: shown whole.
    let fifty = "x".repeat(50);
    let op = KeyValueOperation::Put {
        key: "k".to_string(),
        value: fifty.as_bytes().to_vec(),
    };
    assert_eq!(
        op.debug_repr(),
        format!(r#"Set {{ key: "k", value: "{fifty}" }}"#)
    );

    // Fifty-one characters: truncated to fifty with an ellipsis.
    let op = KeyValueOperation::Put {
        key: "k".to_string(),
        value: "y".repeat(51).as_bytes().to_vec(),
    };
    assert_eq!(
        op.debug_repr(),
        format!(r#"Set {{ key: "k", value: "{}"... }}"#, "y".repeat(50))
    );

    // An empty value decodes as the empty string.
    let op = KeyValueOperation::Put {
        key: "k".to_string(),
        value: Vec::new(),
    };
    assert_eq!(op.debug_repr(), r#"Set { key: "k", value: "" }"#);
}
