use peekaboox::audit::{audit_details, AuditRequest, AuditValue, MouseButton};

fn field<'a>(details: &'a [(String, AuditValue)], key: &str) -> Option<&'a AuditValue> {
    details.iter().find(|(name, _)| name == key).map(|(_, value)| value)
}

#[test]
fn audit_type_text_does_not_log_secret_text() {
    let details = audit_details(&AuditRequest::TypeText {
        text: "secret".to_owned(),
        dry_run: false,
        typing_speed_chars_per_second: Some(20),
        delay_ms: Some(10),
        key_delay_ms: None,
        backend: "wtype".to_owned(),
    });

    assert_eq!(field(&details, "text_length"), Some(&AuditValue::Int(6)));
    assert_eq!(field(&details, "typing_speed_chars_per_second"), Some(&AuditValue::Int(20)));
    assert_eq!(field(&details, "backend"), Some(&AuditValue::Text("wtype".to_owned())));
    assert!(field(&details, "text").is_none());
    assert!(details
        .iter()
        .all(|(_, value)| value != &AuditValue::Text("secret".to_owned())));
}

#[test]
fn audit_counts_characters_not_bytes() {
    let request = AuditRequest::DesktopTypeInto {
        app: "gedit".to_owned(),
        target: "editor".to_owned(),
        text: "h\u{e9}llo \u{1f600}".to_owned(),
        image_path: Some("  ".to_owned()),
        prefer_accessibility: true,
        window_title: Some("Notes".to_owned()),
        clear: false,
        dry_run: true,
        window_id: None,
        verify: true,
    };
    let details = audit_details(&request);
    assert_eq!(request.method(), "desktop_type_into");
    assert_eq!(field(&details, "text_length"), Some(&AuditValue::Int(7)));
    assert_eq!(field(&details, "has_image_path"), Some(&AuditValue::Bool(false)));
    assert_eq!(field(&details, "has_window_title"), Some(&AuditValue::Bool(true)));
    assert_eq!(field(&details, "has_window_id"), Some(&AuditValue::Bool(false)));
    assert_eq!(details.len(), 10);
}

#[test]
fn audit_of_a_click_names_the_button() {
    let details = audit_details(&AuditRequest::Click {
        x: 10,
        y: -4,
        button: MouseButton::Middle,
        dry_run: true,
        bounds_policy: "clamp".to_owned(),
        backend: "auto".to_owned(),
        restore: false,
    });
    assert_eq!(field(&details, "button"), Some(&AuditValue::Text("middle".to_owned())));
    assert_eq!(field(&details, "y"), Some(&AuditValue::Int(-4)));
}

#[test]
fn audit_of_a_capture_delta_normalizes_the_stream_id() {
    let details = audit_details(&AuditRequest::CaptureDelta {
        stream_id: None,
        reset: false,
        region: None,
        window_id: Some("0x1".to_owned()),
        per_channel_threshold: 8,
        low_bandwidth: true,
    });
    assert_eq!(
        field(&details, "stream_id"),
        Some(&AuditValue::Text(peekaboox::streams::normalized_capture_stream_id("")))
    );
    assert_eq!(field(&details, "has_window_id"), Some(&AuditValue::Bool(true)));
    assert!(audit_details(&AuditRequest::Ping).is_empty());
    assert_eq!(AuditRequest::Ping.method(), "ping");
}

#[test]
fn audit_of_a_selector_keeps_only_its_length() {
    let details = audit_details(&AuditRequest::FindElements {
        selector: "label=Password".to_owned(),
        vision_fallback: false,
        app: None,
        window_title: None,
        window_id: None,
        vision_region: None,
        vision_edge_threshold: Some(40),
        vision_min_width: None,
        vision_min_height: None,
        vision_min_component_pixels: None,
        vision_max_elements: None,
        vision_merge_distance: None,
    });
    assert_eq!(field(&details, "selector_length"), Some(&AuditValue::Int(14)));
    assert_eq!(field(&details, "has_vision_edge_threshold"), Some(&AuditValue::Bool(true)));
    assert_eq!(field(&details, "has_vision_min_width"), Some(&AuditValue::Bool(false)));
}
