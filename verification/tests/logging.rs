use nautilus_server::forward::resolve_endpoint;
use nautilus_server::json::level_str;
use nautilus_server::level::{delivery_mode_for, failure_action_for};
use nautilus_server::{
    DeliveryMode, FailureAction, FieldValue, ForwardAction, Level, LayerState, LogEvent,
    LogServerLayer,
};

fn encode(
    timestamp: &str,
    level: Level,
    target: &str,
    name: &str,
    fields: Vec<(String, FieldValue)>,
) -> nautilus_server::LogPayload {
    nautilus_server::event::encode_event(
        timestamp.to_string(),
        LogEvent { level, target: target.to_string(), name: name.to_string(), fields },
    )
}

fn json_of(p: &nautilus_server::LogPayload) -> String {
    p.to_json().into_iter().collect()
}

#[test]
fn severity_order_is_total() {
    let levels = [Level::Trace, Level::Debug, Level::Info, Level::Warn, Level::Error];
    for (i, a) in levels.iter().enumerate() {
        for (j, b) in levels.iter().enumerate() {
            assert_eq!(a.passes(*b), i >= j);
        }
    }
}

#[test]
fn delivery_policy_blocks_only_error() {
    assert_eq!(delivery_mode_for(Level::Error), DeliveryMode::Blocking);
    assert_eq!(delivery_mode_for(Level::Warn), DeliveryMode::Detached);
    assert_eq!(delivery_mode_for(Level::Info), DeliveryMode::Detached);
    assert_eq!(delivery_mode_for(Level::Debug), DeliveryMode::Detached);
    assert_eq!(delivery_mode_for(Level::Trace), DeliveryMode::Detached);
}

#[test]
fn failure_policy_is_asymmetric() {
    assert_eq!(failure_action_for(DeliveryMode::Detached), FailureAction::Terminate);
    assert_eq!(failure_action_for(DeliveryMode::Blocking), FailureAction::ContinueLocally);
}

#[test]
fn encoding_hoists_message() {
    let fields = vec![
        ("message".to_string(), FieldValue::Text("boom".to_string())),
        ("code".to_string(), FieldValue::Unsigned(7)),
    ];
    let p = encode("t0", Level::Error, "app", "evt", fields);
    assert_eq!(p.message, Some(FieldValue::Text("boom".to_string())));
    assert_eq!(p.fields.len(), 1);
    assert_eq!(p.fields[0].0, "code");
    assert_eq!(p.fields[0].1, FieldValue::Unsigned(7));
}

#[test]
fn encoding_without_message_adds_no_key() {
    let fields = vec![
        ("a".to_string(), FieldValue::Flag(true)),
        ("b".to_string(), FieldValue::Signed(-2)),
    ];
    let p = encode("t0", Level::Info, "app", "evt", fields);
    assert!(p.message.is_none());
    assert_eq!(p.fields.len(), 2);
    assert_eq!(p.fields[0].0, "a");
    assert_eq!(p.fields[1].0, "b");
    let text = json_of(&p);
    assert!(!text.contains("\"message\""));
}

#[test]
fn json_document_exact() {
    let fields = vec![
        ("count".to_string(), FieldValue::Unsigned(7)),
        ("ok".to_string(), FieldValue::Flag(true)),
        ("message".to_string(), FieldValue::Text("hi".to_string())),
    ];
    let p = encode("2024-01-02T03:04:05+00:00", Level::Info, "app::server", "evt", fields);
    assert_eq!(
        json_of(&p),
        "{\"timestamp\":\"2024-01-02T03:04:05+00:00\",\"level\":\"INFO\",\
         \"target\":\"app::server\",\"name\":\"evt\",\
         \"fields\":{\"count\":7,\"ok\":true},\"message\":\"hi\"}"
    );
}

#[test]
fn json_empty_fields_object() {
    let p = encode("t", Level::Warn, "tg", "nm", Vec::new());
    assert_eq!(
        json_of(&p),
        "{\"timestamp\":\"t\",\"level\":\"WARN\",\"target\":\"tg\",\"name\":\"nm\",\"fields\":{}}"
    );
}

#[test]
fn json_escapes_quotes_backslashes_and_controls() {
    let fields = vec![("k".to_string(), FieldValue::Text("a\"b\\c\nd".to_string()))];
    let p = encode("t", Level::Debug, "tg", "nm", fields);
    let text = json_of(&p);
    assert!(text.contains("{\"k\":\"a\\\"b\\\\c\\u000ad\"}"));
    let parsed: serde_json::Value = serde_json::from_str(&text).unwrap();
    assert_eq!(parsed["fields"]["k"].as_str().unwrap(), "a\"b\\c\nd");
}

#[test]
fn json_integer_extremes() {
    let fields = vec![
        ("min".to_string(), FieldValue::Signed(i64::MIN)),
        ("neg".to_string(), FieldValue::Signed(-5)),
        ("zero".to_string(), FieldValue::Unsigned(0)),
        ("max".to_string(), FieldValue::Unsigned(u64::MAX)),
    ];
    let p = encode("t", Level::Trace, "tg", "nm", fields);
    let text = json_of(&p);
    assert!(text.contains("\"min\":-9223372036854775808"));
    assert!(text.contains("\"neg\":-5"));
    assert!(text.contains("\"zero\":0"));
    assert!(text.contains("\"max\":18446744073709551615"));
}

#[test]
fn json_round_trips_through_a_parser() {
    let fields = vec![
        ("message".to_string(), FieldValue::Text("m".to_string())),
        ("n".to_string(), FieldValue::Signed(41)),
        ("s".to_string(), FieldValue::Text("x y".to_string())),
    ];
    let p = encode("t", Level::Error, "tg", "nm", fields);
    let parsed: serde_json::Value = serde_json::from_str(&json_of(&p)).unwrap();
    assert_eq!(parsed["timestamp"].as_str().unwrap(), "t");
    assert_eq!(parsed["level"].as_str().unwrap(), "ERROR");
    assert_eq!(parsed["target"].as_str().unwrap(), "tg");
    assert_eq!(parsed["name"].as_str().unwrap(), "nm");
    assert_eq!(parsed["message"].as_str().unwrap(), "m");
    let fields_obj = parsed["fields"].as_object().unwrap();
    assert_eq!(fields_obj.len(), 2);
    assert_eq!(fields_obj["n"].as_i64().unwrap(), 41);
    assert_eq!(fields_obj["s"].as_str().unwrap(), "x y");
}

#[test]
fn level_names_match_wire_format() {
    assert_eq!(level_str(Level::Trace), "TRACE");
    assert_eq!(level_str(Level::Debug), "DEBUG");
    assert_eq!(level_str(Level::Info), "INFO");
    assert_eq!(level_str(Level::Warn), "WARN");
    assert_eq!(level_str(Level::Error), "ERROR");
}

#[test]
fn endpoint_resolution_prefers_configuration() {
    assert_eq!(resolve_endpoint(Some("http://example:1".to_string())), "http://example:1");
    assert_eq!(resolve_endpoint(None), "http://logserver:8080");
}

#[test]
fn layer_state_matches_probe_result() {
    let up = LogServerLayer::new("http://c:1".to_string(), Level::Info, true);
    assert_eq!(up.state(), LayerState::RemoteEnabled);
    let down = LogServerLayer::new("http://c:1".to_string(), Level::Info, false);
    assert_eq!(down.state(), LayerState::LocalOnly);
    assert_eq!(down.endpoint(), "http://c:1");
}

#[test]
fn warn_filter_drops_info_and_blocks_error() {
    let layer = LogServerLayer::new("http://c:1".to_string(), Level::Warn, true);
    let info = LogEvent {
        level: Level::Info,
        target: "tg".to_string(),
        name: "nm".to_string(),
        fields: Vec::new(),
    };
    match layer.plan_event("t".to_string(), info) {
        ForwardAction::Skip => {}
        ForwardAction::Deliver { .. } => panic!("INFO below a WARN filter must be dropped"),
    }
    let error = LogEvent {
        level: Level::Error,
        target: "tg".to_string(),
        name: "nm".to_string(),
        fields: vec![("message".to_string(), FieldValue::Text("bad".to_string()))],
    };
    match layer.plan_event("t".to_string(), error) {
        ForwardAction::Deliver { payload, mode } => {
            assert_eq!(mode, DeliveryMode::Blocking);
            assert_eq!(payload.level, Level::Error);
            assert_eq!(payload.message, Some(FieldValue::Text("bad".to_string())));
        }
        ForwardAction::Skip => panic!("ERROR above a WARN filter must be delivered"),
    }
}

#[test]
fn local_only_layer_forwards_nothing() {
    let layer = LogServerLayer::new("http://c:1".to_string(), Level::Trace, false);
    for level in [Level::Warn, Level::Error] {
        let event = LogEvent {
            level,
            target: "tg".to_string(),
            name: "nm".to_string(),
            fields: Vec::new(),
        };
        match layer.plan_event("t".to_string(), event) {
            ForwardAction::Skip => {}
            ForwardAction::Deliver { .. } => panic!("local-only layer must not deliver"),
        }
    }
}

#[test]
fn probe_document_shape() {
    let doc: String = nautilus_server::json::probe_document("t9").into_iter().collect();
    assert_eq!(
        doc,
        "{\"timestamp\":\"t9\",\"level\":\"INFO\",\
         \"target\":\"health_check\",\"name\":\"health_check\"}"
    );
    let parsed: serde_json::Value = serde_json::from_str(&doc).unwrap();
    assert!(parsed.get("fields").is_none());
    assert!(parsed.get("message").is_none());
}

#[test]
fn duplicate_field_names_keep_the_last_value() {
    let fields = vec![
        ("k".to_string(), FieldValue::Unsigned(1)),
        ("k".to_string(), FieldValue::Unsigned(2)),
    ];
    let p = encode("t", Level::Info, "tg", "nm", fields);
    let parsed: serde_json::Value = serde_json::from_str(&json_of(&p)).unwrap();
    assert_eq!(parsed["fields"]["k"].as_u64().unwrap(), 2);
}

#[test]
fn on_event_stamps_a_timestamp() {
    let layer = LogServerLayer::new("http://c:1".to_string(), Level::Info, true);
    let event = LogEvent {
        level: Level::Error,
        target: "tg".to_string(),
        name: "nm".to_string(),
        fields: Vec::new(),
    };
    match layer.on_event(event) {
        ForwardAction::Deliver { payload, mode } => {
            assert_eq!(mode, DeliveryMode::Blocking);
            assert!(!payload.timestamp.is_empty());
            let text: String = payload.to_json().into_iter().collect();
            let parsed: serde_json::Value = serde_json::from_str(&text).unwrap();
            // An RFC 3339 stamp: a four-digit year, a dash, and a 'T' further in.
            let stamp = parsed["timestamp"].as_str().unwrap();
            assert_eq!(stamp, payload.timestamp);
            assert_eq!(&stamp[4..5], "-");
            assert!(stamp.contains('T'));
        }
        ForwardAction::Skip => panic!("an ERROR event above the filter must be delivered"),
    }
}

#[test]
fn probe_document_now_is_a_stamped_probe() {
    let layer = LogServerLayer::new("http://c:1".to_string(), Level::Info, true);
    let doc: String = layer.probe_document_now().into_iter().collect();
    let parsed: serde_json::Value = serde_json::from_str(&doc).unwrap();
    assert_eq!(parsed["level"].as_str().unwrap(), "INFO");
    assert_eq!(parsed["target"].as_str().unwrap(), "health_check");
    assert_eq!(parsed["name"].as_str().unwrap(), "health_check");
    assert!(!parsed["timestamp"].as_str().unwrap().is_empty());
}
