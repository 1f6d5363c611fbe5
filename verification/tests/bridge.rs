use serde_json::Value;

use window_bridge::errors::{BridgeError, FieldName};
use window_bridge::json::{decode_request, route_request};
use window_bridge::message::{
    classify_target, decode, dispatch, emit_outcome, BridgeMessage, Destination, EmitAction,
    WireFields,
};

fn json(text: &str) -> Value {
    serde_json::from_str(text).expect("test input must be valid JSON")
}

// A well-formed request addressed to the reserved marker resolves to the one
// broadcast action; the targeted capability is never chosen.
#[test]
fn broadcast_route_generic() {
    let fields: WireFields<u64> = WireFields {
        target: Some("announce".to_string()),
        event: Some("refresh".to_string()),
        payload: Some(41),
    };
    match dispatch(Some(fields), 0) {
        Ok(EmitAction::Broadcast { event, payload }) => {
            assert_eq!(event, "refresh");
            assert_eq!(payload, 41);
        }
        other => panic!("expected a broadcast action, got {:?}", kind(&other)),
    }
}

// A well-formed request naming any other target resolves to the one targeted
// delivery; broadcast is never chosen.
#[test]
fn targeted_route_generic() {
    let fields: WireFields<u64> = WireFields {
        target: Some("select".to_string()),
        event: Some("close".to_string()),
        payload: None,
    };
    match dispatch(Some(fields), 7) {
        Ok(EmitAction::Deliver {
            window,
            event,
            payload,
        }) => {
            assert_eq!(window, "select");
            assert_eq!(event, "close");
            assert_eq!(payload, 7, "absent payload must be replaced by null");
        }
        other => panic!("expected a targeted delivery, got {:?}", kind(&other)),
    }
}

fn kind(r: &Result<EmitAction<u64>, BridgeError>) -> &'static str {
    match r {
        Ok(EmitAction::Broadcast { .. }) => "broadcast",
        Ok(EmitAction::Deliver { .. }) => "deliver",
        Err(_) => "error",
    }
}

// Omitting the payload field is the same as supplying the null stand-in.
#[test]
fn absent_payload_equals_null_generic() {
    let omitted: WireFields<u64> = WireFields {
        target: Some("select".to_string()),
        event: Some("close".to_string()),
        payload: None,
    };
    let explicit: WireFields<u64> = WireFields {
        target: Some("select".to_string()),
        event: Some("close".to_string()),
        payload: Some(0),
    };
    let a = decode(Some(omitted), 0).unwrap();
    let b = decode(Some(explicit), 0).unwrap();
    assert_eq!(a.event, b.event);
    assert_eq!(a.payload, b.payload);
    assert!(matches!(a.dest, Destination::Window(ref w) if w == "select"));
    assert!(matches!(b.dest, Destination::Window(ref w) if w == "select"));
}

// The error checks are mutually exclusive and run in a fixed order.
#[test]
fn error_order_generic() {
    let r = decode(None::<WireFields<u64>>, 0);
    assert!(matches!(r, Err(BridgeError::MissingPayload)));

    let no_target: WireFields<u64> = WireFields {
        target: None,
        event: None,
        payload: Some(1),
    };
    let r = decode(Some(no_target), 0);
    assert!(matches!(
        r,
        Err(BridgeError::MissingField(FieldName::Target))
    ));

    let no_event: WireFields<u64> = WireFields {
        target: Some("main".to_string()),
        event: None,
        payload: Some(1),
    };
    let r = decode(Some(no_event), 0);
    assert!(matches!(r, Err(BridgeError::MissingField(FieldName::Event))));
}

#[test]
fn classify_reserved_marker() {
    assert!(matches!(
        classify_target("announce".to_string()),
        Destination::Broadcast
    ));
    assert!(matches!(
        classify_target("main".to_string()),
        Destination::Window(ref w) if w == "main"
    ));
    // A window may carry any name but the reserved one.
    assert!(matches!(
        classify_target("announce2".to_string()),
        Destination::Window(ref w) if w == "announce2"
    ));
}

// Scenario: {"target":"announce","event":"refresh","payload":{"n":1}} is a
// broadcast of "refresh" with {"n":1}.
#[test]
fn announce_request_broadcasts() {
    let raw = json(r#"{"target":"announce","event":"refresh","payload":{"n":1}}"#);
    match route_request(Some(raw)) {
        Ok(EmitAction::Broadcast { event, payload }) => {
            assert_eq!(event, "refresh");
            assert_eq!(payload, json(r#"{"n":1}"#));
        }
        _ => panic!("expected a broadcast action"),
    }
}

// Scenario: {"target":"select","event":"close"} is a targeted delivery of
// "close" with null to the window "select".
#[test]
fn targeted_request_delivers_null_payload() {
    let raw = json(r#"{"target":"select","event":"close"}"#);
    match route_request(Some(raw)) {
        Ok(EmitAction::Deliver {
            window,
            event,
            payload,
        }) => {
            assert_eq!(window, "select");
            assert_eq!(event, "close");
            assert_eq!(payload, Value::Null);
        }
        _ => panic!("expected a targeted delivery"),
    }
}

// Scenario: an empty object is missing its target.
#[test]
fn empty_request_misses_target() {
    let r = route_request(Some(json("{}")));
    match r {
        Err(e) => {
            assert!(matches!(e, BridgeError::MissingField(FieldName::Target)));
            assert_eq!(e.message(), "Missing 'target' in payload");
        }
        Ok(_) => panic!("an empty object must be rejected"),
    }
}

// Scenario: an absent request is missing its payload.
#[test]
fn absent_request_misses_payload() {
    let r = route_request(None);
    match r {
        Err(e) => {
            assert!(matches!(e, BridgeError::MissingPayload));
            assert_eq!(e.message(), "Missing payload");
        }
        Ok(_) => panic!("an absent request must be rejected"),
    }
}

// A present but non-string field counts as missing.
#[test]
fn non_string_fields_are_missing() {
    let r = decode_request(Some(json(r#"{"target":5,"event":"x"}"#)));
    assert!(matches!(
        r,
        Err(BridgeError::MissingField(FieldName::Target))
    ));

    let r = decode_request(Some(json(r#"{"target":"main","event":{}}"#)));
    assert!(matches!(r, Err(BridgeError::MissingField(FieldName::Event))));
}

// Omitting the payload field and supplying an explicit null decode alike.
#[test]
fn absent_payload_equals_null_on_the_wire() {
    let omitted = decode_request(Some(json(r#"{"target":"a","event":"b"}"#))).unwrap();
    let explicit =
        decode_request(Some(json(r#"{"target":"a","event":"b","payload":null}"#))).unwrap();
    assert_eq!(omitted.event, explicit.event);
    assert_eq!(omitted.payload, explicit.payload);
    assert_eq!(omitted.payload, Value::Null);
}

// The decoded message carries the payload through untouched.
#[test]
fn payload_passes_through_untouched() {
    let raw = json(r#"{"target":"main","event":"rows","payload":[1,2,{"k":"v"}]}"#);
    let m: BridgeMessage<Value> = decode_request(Some(raw)).unwrap();
    assert_eq!(m.payload, json(r#"[1,2,{"k":"v"}]"#));
}

// Success of the chosen emit call passes through; a failure is wrapped as
// DeliveryFailed under the prefix of the capability that was invoked.
#[test]
fn emit_outcome_wraps_failures() {
    let broadcast: EmitAction<u64> = EmitAction::Broadcast {
        event: "e".to_string(),
        payload: 0,
    };
    let deliver: EmitAction<u64> = EmitAction::Deliver {
        window: "w".to_string(),
        event: "e".to_string(),
        payload: 0,
    };

    assert!(emit_outcome(&broadcast, Ok(())).is_ok());
    assert!(emit_outcome(&deliver, Ok(())).is_ok());

    match emit_outcome(&broadcast, Err("boom".to_string())) {
        Err(e) => {
            assert!(matches!(e, BridgeError::DeliveryFailed(_)));
            assert_eq!(e.message(), "Emit failed: boom");
        }
        Ok(()) => panic!("a failed emit must be surfaced"),
    }
    match emit_outcome(&deliver, Err("no such window".to_string())) {
        Err(e) => assert_eq!(e.message(), "Emit_to failed: no such window"),
        Ok(()) => panic!("a failed emit must be surfaced"),
    }
}

#[test]
fn error_messages_are_exact() {
    assert_eq!(BridgeError::MissingPayload.message(), "Missing payload");
    assert_eq!(
        BridgeError::MissingField(FieldName::Target).message(),
        "Missing 'target' in payload"
    );
    assert_eq!(
        BridgeError::MissingField(FieldName::Event).message(),
        "Missing 'event' in payload"
    );
    assert_eq!(
        BridgeError::DeliveryFailed("Emit failed: x".to_string()).message(),
        "Emit failed: x"
    );
    assert_eq!(FieldName::Target.name(), "target");
    assert_eq!(FieldName::Event.name(), "event");
}
