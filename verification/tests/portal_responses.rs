use peekaboox::portal::{
    portal_first_stream, portal_refarg_u64, portal_request_outcome, portal_result,
    portal_result_object_path, portal_stream_pipewire_serial, PortalField, PortalValue,
};

fn number(n: u64) -> PortalValue {
    PortalValue { number: Some(n), text: None, items: None }
}

fn text(t: &str) -> PortalValue {
    PortalValue { number: None, text: Some(t.to_owned()), items: None }
}

fn list(items: Vec<PortalValue>) -> PortalValue {
    PortalValue { number: None, text: None, items: Some(items) }
}

/// A variant holding a value: it reads as what it holds and yields it.
fn variant(inner: PortalValue) -> PortalValue {
    let number = inner.number;
    let text = inner.text.clone();
    PortalValue { number, text, items: Some(vec![inner]) }
}

fn field(key: &str, value: PortalValue) -> PortalField {
    PortalField { key: key.to_owned(), value }
}

/// `a(ua{sv})` with one stream: its node id and its properties.
fn streams(node_id: u64, properties: Vec<(&str, PortalValue)>) -> PortalValue {
    let mut dict = Vec::new();
    for (key, value) in properties {
        dict.push(text(key));
        dict.push(variant(value));
    }
    list(vec![list(vec![number(node_id), list(dict)])])
}

fn session_handle_results() -> Vec<PortalField> {
    vec![field("session_handle", text("/org/freedesktop/portal/desktop/session/1"))]
}

#[test]
fn lib_reads_portal_session_handle_from_response_results() {
    let session_handle = portal_result_object_path(&session_handle_results(), "session_handle").unwrap();

    assert_eq!(session_handle, "/org/freedesktop/portal/desktop/session/1");
}

#[test]
fn tests_reads_portal_session_handle_from_response_results() {
    let session_handle = portal_result_object_path(&session_handle_results(), "session_handle").unwrap();

    assert_eq!(session_handle, "/org/freedesktop/portal/desktop/session/1");
}

#[test]
fn lib_reads_portal_stream_node_id_from_response_results() {
    let results = vec![field("streams", streams(42, Vec::new()))];

    let node_id = portal_first_stream(&results).unwrap().node_id;

    assert_eq!(node_id, 42);
}

#[test]
fn tests_reads_portal_stream_node_id_from_response_results() {
    let results = vec![field("streams", streams(42, Vec::new()))];

    let node_id = portal_first_stream(&results).unwrap().node_id;

    assert_eq!(node_id, 42);
}

#[test]
fn lib_reads_portal_stream_pipewire_serial_from_response_results() {
    let results = vec![field("streams", streams(42, vec![("pipewire-serial", number(9001))]))];

    let stream = portal_first_stream(&results).unwrap();

    assert_eq!(stream.node_id, 42);
    assert_eq!(stream.pipewire_serial, Some(9001));
}

#[test]
fn tests_reads_portal_stream_pipewire_serial_from_response_results() {
    let results = vec![field("streams", streams(42, vec![("pipewire-serial", number(9001))]))];

    let stream = portal_first_stream(&results).unwrap();

    assert_eq!(stream.node_id, 42);
    assert_eq!(stream.pipewire_serial, Some(9001));
}

#[test]
fn missing_fields_are_named_in_errors() {
    let results = vec![field("other", number(1))];
    assert_eq!(
        portal_result(&results, "session_handle").unwrap_err().message,
        "xdg-desktop-portal response did not include field \"session_handle\""
    );
    let results = vec![field("session_handle", number(7))];
    assert_eq!(
        portal_result_object_path(&results, "session_handle").unwrap_err().message,
        "xdg-desktop-portal response field \"session_handle\" was not an object path"
    );
}

#[test]
fn malformed_stream_lists_are_refused() {
    let not_array = vec![field("streams", number(3))];
    assert_eq!(
        portal_first_stream(&not_array).unwrap_err().message,
        "xdg-desktop-portal Start response field \"streams\" was not an array"
    );
    let empty = vec![field("streams", list(Vec::new()))];
    assert_eq!(
        portal_first_stream(&empty).unwrap_err().message,
        "xdg-desktop-portal Start response did not include any streams"
    );
    let not_struct = vec![field("streams", list(vec![text("x")]))];
    assert_eq!(
        portal_first_stream(&not_struct).unwrap_err().message,
        "xdg-desktop-portal stream entry was not a struct"
    );
    let no_node = vec![field("streams", list(vec![list(vec![text("x")])]))];
    assert_eq!(
        portal_first_stream(&no_node).unwrap_err().message,
        "xdg-desktop-portal stream entry missed node id"
    );
    let too_big = vec![field("streams", streams(1 << 33, Vec::new()))];
    assert_eq!(
        portal_first_stream(&too_big).unwrap_err().message,
        "xdg-desktop-portal stream node id overflows u32"
    );
}

#[test]
fn pipewire_serial_is_searched_inside_nested_values() {
    let properties = list(vec![
        text("source_type"),
        variant(number(1)),
        text("pipewire-serial"),
        variant(list(vec![text("wrapped"), number(77)])),
    ]);
    assert_eq!(portal_stream_pipewire_serial(&properties), Some(77));

    let without = list(vec![text("pipewire-serial"), variant(text("none"))]);
    assert_eq!(portal_stream_pipewire_serial(&without), None);
    let dangling_key = list(vec![text("pipewire-serial")]);
    assert_eq!(portal_stream_pipewire_serial(&dangling_key), None);

    assert_eq!(portal_refarg_u64(&list(vec![text("a"), list(vec![number(5)]), number(6)])), Some(5));
    assert_eq!(portal_refarg_u64(&text("a")), None);
}

#[test]
fn portal_response_codes_decide_the_outcome() {
    assert!(portal_request_outcome("ScreenCast.Start", 0).is_ok());
    assert_eq!(
        portal_request_outcome("ScreenCast.Start", 1).unwrap_err().message,
        "xdg-desktop-portal ScreenCast.Start request was cancelled"
    );
    assert_eq!(
        portal_request_outcome("ScreenCast.SelectSources", 2).unwrap_err().message,
        "xdg-desktop-portal ScreenCast.SelectSources request failed with response code 2"
    );
}
