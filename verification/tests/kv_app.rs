use anyhow::Result;

use crux_core::event::{Event, Model};
use crux_core::executor::Effect;
use crux_core::kv::{KeyValueOperation, KeyValueResponse};
use crux_core::testing::AppTester;

#[test]
fn test_get() {
    let app = AppTester::default();
    let mut model = Model::default();

    let updated = app.update(Event::Get, &mut model);

    let effect = updated.into_effects().into_iter().next().unwrap();
    let Effect::KeyValue(mut request) = effect else {
        panic!("Expected KeyValue effect");
    };

    let KeyValueOperation::Get { key } = request.operation.clone() else {
        panic!("Expected get operation");
    };

    assert_eq!(key, "test");

    let updated = app
        .resolve(
            &mut request,
            Ok(KeyValueResponse::Get {
                value: Some(42i32.to_le_bytes().to_vec()),
            }),
        )
        .unwrap();

    let event = updated.events.into_iter().next().unwrap();
    app.update(event, &mut model);

    assert_eq!(model.value, 42);
}

#[test]
fn test_set() {
    let app = AppTester::default();
    let mut model = Model::default();

    let updated = app.update(Event::Put, &mut model);

    let effect = updated.into_effects().into_iter().next().unwrap();
    let Effect::KeyValue(mut request) = effect else {
        panic!("Expected KeyValue effect");
    };

    let KeyValueOperation::Put { key, value } = request.operation.clone() else {
        panic!("Expected set operation");
    };

    assert_eq!(key, "test");
    assert_eq!(value, 42i32.to_le_bytes().to_vec());

    let updated = app
        .resolve(&mut request, Ok(KeyValueResponse::Put { previous: None }))
        .unwrap();

    let event = updated.events.into_iter().next().unwrap();
    app.update(event, &mut model);

    assert!(model.successful);
}

#[test]
fn test_delete() {
    let app = AppTester::default();
    let mut model = Model::default();

    let updated = app.update(Event::Delete, &mut model);

    let effect = updated.into_effects().into_iter().next().unwrap();
    let Effect::KeyValue(mut request) = effect else {
        panic!("Expected KeyValue effect");
    };

    let KeyValueOperation::Delete { key } = request.operation.clone() else {
        panic!("Expected delete operation");
    };

    assert_eq!(key, "test");

    let updated = app
        .resolve(&mut request, Ok(KeyValueResponse::Delete { previous: None }))
        .unwrap();

    let event = updated.events.into_iter().next().unwrap();
    app.update(event, &mut model);

    assert!(model.successful);
}

#[test]
fn test_exists() {
    let app = AppTester::default();
    let mut model = Model::default();

    let updated = app.update(Event::Exists, &mut model);

    let effect = updated.into_effects().into_iter().next().unwrap();
    let Effect::KeyValue(mut request) = effect else {
        panic!("Expected KeyValue effect");
    };

    let KeyValueOperation::Exists { key } = request.operation.clone() else {
        panic!("Expected exists operation");
    };

    assert_eq!(key, "test");

    let updated = app
        .resolve(&mut request, Ok(KeyValueResponse::Exists { is_present: true }))
        .unwrap();

    let event = updated.events.into_iter().next().unwrap();
    app.update(event, &mut model);

    assert!(model.successful);
}

#[test]
fn test_list_keys() {
    let app = AppTester::default();
    let mut model = Model::default();

    let updated = app.update(Event::ListKeys, &mut model);

    let effect = updated.into_effects().into_iter().next().unwrap();
    let Effect::KeyValue(mut request) = effect else {
        panic!("Expected KeyValue effect");
    };

    let KeyValueOperation::ListKeys { prefix, cursor } = request.operation.clone() else {
        panic!("Expected list keys operation");
    };

    assert_eq!(prefix, "test:");
    assert_eq!(cursor, 0);

    let updated = app
        .resolve(
            &mut request,
            Ok(KeyValueResponse::ListKeys {
                keys: vec!["test:1".to_string(), "test:2".to_string()],
                next_cursor: 2,
            }),
        )
        .unwrap();

    let event = updated.events.into_iter().next().unwrap();
    app.update(event, &mut model);

    assert_eq!(model.keys, vec!["test:1".to_string(), "test:2".to_string()]);
    assert_eq!(model.cursor, 2);
}

#[test]
pub fn test_kv_async() -> Result<()> {
    let app = AppTester::default();
    let mut model = Model::default();

    let update = app.update(Event::GetThenSet, &mut model);

    let effect = update.into_effects().into_iter().next().unwrap();
    let Effect::KeyValue(mut request) = effect else {
        panic!("Expected KeyValue effect");
    };

    let KeyValueOperation::Get { key } = request.operation.clone() else {
        panic!("Expected get operation");
    };

    assert_eq!(key, "test_num");

    let update = app
        .resolve(
            &mut request,
            Ok(KeyValueResponse::Get {
                value: Some(17u32.to_le_bytes().to_vec()),
            }),
        )
        .unwrap();

    let effect = update.into_effects().into_iter().next().unwrap();
    let Effect::KeyValue(mut request) = effect else {
        panic!("Expected KeyValue effect");
    };

    let KeyValueOperation::Put { key, value } = request.operation.clone() else {
        panic!("Expected get operation");
    };

    assert_eq!(key, "test_num".to_string());
    assert_eq!(value, 18u32.to_le_bytes().to_vec());

    let update = app
        .resolve(&mut request, Ok(KeyValueResponse::Put { previous: None }))
        .unwrap();

    let event = update.events.into_iter().next().unwrap();
    app.update(event, &mut model);

    assert!(model.successful);

    Ok(())
}

#[test]
fn test_kv_operation_debug_repr() {
    {
        // get
        let op = KeyValueOperation::Get {
            key: "my key".into(),
        };
        let repr = op.debug_repr();
        assert_eq!(repr, r#"Get { key: "my key" }"#);
    }

    {
        // set small
        let op = KeyValueOperation::Put {
            key: "my key".into(),
            value: b"my value".to_vec(),
        };
        let repr = op.debug_repr();
        assert_eq!(repr, r#"Set { key: "my key", value: "my value" }"#);
    }

    {
        // set big
        let op = KeyValueOperation::Put {
            key: "my key".into(),
            value:
                // we check that we handle unicode boundaries correctly
                "abcdefghijklmnopqrstuvwxyz abcdefghijklmnopqrstu😀😀😀😀😀😀".as_bytes().to_vec(),
        };
        let repr = op.debug_repr();
        assert_eq!(
            repr,
            r#"Set { key: "my key", value: "abcdefghijklmnopqrstuvwxyz abcdefghijklmnopqrstu😀😀"... }"#
        );
    }

    {
        // set binary
        let op = KeyValueOperation::Put {
            key: "my key".into(),
            value: vec![255, 255],
        };
        let repr = op.debug_repr();
        assert_eq!(
            repr,
            r#"Set { key: "my key", value: <binary data - 2 bytes> }"#
        );
    }
}
