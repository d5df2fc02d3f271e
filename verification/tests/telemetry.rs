use ferrflow::telemetry::{api_url, check_enabled, event_endpoint, event_payload, EventType, PayloadValue};

fn payload_json(
    event_type: EventType,
    package_name: Option<&str>,
    package_version: Option<&str>,
) -> serde_json::Value {
    let mut object = serde_json::Map::new();
    for (key, value) in event_payload(event_type, package_name, package_version, None).into_members() {
        let value = match value {
            PayloadValue::Event(kind) => serde_json::Value::String(kind.wire_name().to_string()),
            PayloadValue::Text(text) => serde_json::Value::String(text),
            PayloadValue::Metadata(m) => m,
        };
        object.insert(key.to_string(), value);
    }
    serde_json::Value::Object(object)
}

#[test]
fn event_type_serializes_to_snake_case() {
    assert_eq!(
        serde_json::to_string(EventType::Check.wire_name()).unwrap(),
        "\"check\""
    );
    assert_eq!(
        serde_json::to_string(EventType::Release.wire_name()).unwrap(),
        "\"release\""
    );
    assert_eq!(
        serde_json::to_string(EventType::VersionBump.wire_name()).unwrap(),
        "\"version_bump\""
    );
    assert_eq!(serde_json::to_string(EventType::Init.wire_name()).unwrap(), "\"init\"");
    assert_eq!(
        serde_json::to_string(EventType::Error.wire_name()).unwrap(),
        "\"error\""
    );
}

#[test]
fn check_enabled_disabled_values() {
    for val in ["false", "0", "off", "no", "FALSE", "Off", "NO"] {
        assert!(!check_enabled(Some(val)), "should be disabled for {val}");
    }
}

#[test]
fn check_enabled_default() {
    assert!(check_enabled(None));
}

#[test]
fn check_enabled_true_values() {
    for val in ["true", "1", "yes", "anything"] {
        assert!(check_enabled(Some(val)), "should be enabled for {val}");
    }
}

#[test]
fn check_enabled_does_not_trim() {
    assert!(check_enabled(Some(" off")));
    assert!(check_enabled(Some("")));
}

#[test]
fn api_url_defaults_to_the_hosted_api() {
    assert_eq!(api_url(None), "https://api.ferrflow.com");
    assert_eq!(api_url(Some("http://localhost:8080".to_string())), "http://localhost:8080");
}

#[test]
fn events_go_to_the_events_path_unless_disabled() {
    assert_eq!(
        event_endpoint(None, None).as_deref(),
        Some("https://api.ferrflow.com/events")
    );
    assert_eq!(
        event_endpoint(Some("yes"), Some("http://h".to_string())).as_deref(),
        Some("http://h/events")
    );
    assert!(event_endpoint(Some("OFF"), None).is_none());
}

#[test]
fn payload_skips_none_fields() {
    let json = payload_json(EventType::Check, None, None);
    assert!(!json.as_object().unwrap().contains_key("package_name"));
    assert!(!json.as_object().unwrap().contains_key("package_version"));
    assert!(!json.as_object().unwrap().contains_key("metadata"));
}

#[test]
fn payload_includes_present_fields() {
    let json = payload_json(EventType::Release, Some("my-pkg"), Some("1.0.0"));
    assert_eq!(json["event_type"], "release");
    assert_eq!(json["package_name"], "my-pkg");
    assert_eq!(json["package_version"], "1.0.0");
}

#[test]
fn payload_members_come_in_order() {
    let members = event_payload(
        EventType::VersionBump,
        None,
        Some("2.0.0"),
        Some(serde_json::from_str::<serde_json::Value>("{\"k\": 1}").unwrap()),
    )
    .into_members();
    let keys: Vec<&str> = members.iter().map(|(k, _)| *k).collect();
    assert_eq!(keys, vec!["event_type", "package_version", "metadata"]);
}
