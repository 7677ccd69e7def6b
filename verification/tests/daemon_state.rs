use std::time::Duration;

use peekaboox::cache::{AccessibilityCache, AccessibilityCacheSnapshot, AccessibilityTreeMetadata};
use peekaboox::streams::{
    capture_stream_id, normalized_capture_stream_id, utf8_byte_len, IncrementalCaptureState,
    IncrementalCaptureStream, MAX_INCREMENTAL_CAPTURE_STREAMS,
};
use peekaboox::types::{BackendKind, CaptureFrame, PixelFormat, Rect, UiElement};

fn sample_accessibility_metadata(label: &str) -> AccessibilityTreeMetadata {
    AccessibilityTreeMetadata {
        backend_name: "test".to_owned(),
        backend_kind: BackendKind::AtSpi,
        warnings: Vec::new(),
        elements: vec![UiElement {
            id: "element-1".to_owned(),
            role: "push button".to_owned(),
            label: Some(label.to_owned()),
            bounds: Rect::new(10, 20, 100, 40),
            center: Rect::new(10, 20, 100, 40).center(),
            states: vec!["enabled".to_owned()],
            window_id: Some("window-1".to_owned()),
            window_title: Some("PeekabooX Test".to_owned()),
            app_id: Some("peekaboox-test".to_owned()),
            parent_id: None,
            child_ids: Vec::new(),
        }],
    }
}

fn frame(width: u32, height: u32) -> CaptureFrame {
    CaptureFrame {
        width,
        height,
        stride: width * 4,
        format: PixelFormat::Rgba8,
        data: vec![0; (width * height * 4) as usize],
    }
}

#[test]
fn accessibility_cache_returns_fresh_snapshot() {
    let mut cache = AccessibilityCache::new(Duration::from_secs(60).as_nanos());

    let stored = cache.store(sample_accessibility_metadata("Submit"), 1_000);
    let fresh = cache.fresh(1_000).unwrap();

    assert!(!stored.cache_hit);
    assert!(fresh.cache_hit);
    assert_eq!(fresh.metadata.elements[0].label.as_deref(), Some("Submit"));
}

#[test]
fn accessibility_cache_expires_old_snapshot() {
    let now = Duration::from_secs(10).as_nanos();
    let cache = AccessibilityCache {
        ttl_nanos: Duration::from_millis(1).as_nanos(),
        snapshot: Some(AccessibilityCacheSnapshot {
            loaded_at_nanos: now - Duration::from_secs(1).as_nanos(),
            metadata: sample_accessibility_metadata("Old"),
        }),
    };

    assert!(cache.fresh(now).is_none());
}

#[test]
fn accessibility_cache_invalidation_clears_snapshot() {
    let mut cache = AccessibilityCache::new(Duration::from_secs(60).as_nanos());
    cache.store(sample_accessibility_metadata("Submit"), 0);

    assert!(cache.invalidate());
    assert!(cache.fresh(0).is_none());
    assert!(!cache.invalidate());
}

#[test]
fn cached_tree_age_is_counted_in_whole_milliseconds() {
    let mut cache = AccessibilityCache::new(Duration::from_millis(500).as_nanos());
    cache.store(sample_accessibility_metadata("Submit"), 2_000_000);

    assert_eq!(cache.fresh(2_000_000 + 499_999_999).unwrap().age_ms, 499);
    assert_eq!(cache.fresh(2_000_000 + 500_000_000).unwrap().age_ms, 500);
    assert!(cache.fresh(2_000_000 + 500_000_001).is_none());
    assert_eq!(cache.fresh(0).unwrap().age_ms, 0);
}

#[test]
fn capture_streams_are_bounded_and_keep_their_order() {
    let mut state = IncrementalCaptureState::new();
    for index in 0..MAX_INCREMENTAL_CAPTURE_STREAMS {
        state.insert(format!("stream-{index}"), IncrementalCaptureStream { sequence: 1, frame: frame(1, 1) });
    }
    assert_eq!(state.len(), MAX_INCREMENTAL_CAPTURE_STREAMS);

    state.insert("stream-0".to_owned(), IncrementalCaptureStream { sequence: 2, frame: frame(2, 1) });
    assert_eq!(state.len(), MAX_INCREMENTAL_CAPTURE_STREAMS);
    assert_eq!(state.get("stream-0").unwrap().sequence, 2);

    state.insert("fresh".to_owned(), IncrementalCaptureStream { sequence: 1, frame: frame(1, 1) });
    assert_eq!(state.len(), MAX_INCREMENTAL_CAPTURE_STREAMS);
    assert!(state.get("stream-0").is_none());
    assert!(state.get("stream-1").is_some());
    assert!(state.get("fresh").is_some());
}

#[test]
fn capture_stream_sequences_and_previous_frames() {
    let mut state = IncrementalCaptureState::new();
    assert_eq!(state.next_sequence("agent-loop", false), 1);
    state.insert("agent-loop".to_owned(), IncrementalCaptureStream { sequence: 3, frame: frame(4, 3) });

    assert_eq!(state.next_sequence("agent-loop", false), 4);
    assert_eq!(state.next_sequence("agent-loop", true), 1);
    assert!(state.previous_frame("agent-loop", false, true, 4, 3).is_some());
    assert!(state.previous_frame("agent-loop", false, true, 4, 2).is_none());
    assert!(state.previous_frame("agent-loop", false, false, 4, 3).is_none());
    assert!(state.previous_frame("agent-loop", true, true, 4, 3).is_none());

    state.insert("agent-loop".to_owned(), IncrementalCaptureStream { sequence: u64::MAX, frame: frame(4, 3) });
    assert_eq!(state.next_sequence("agent-loop", false), u64::MAX);
}

#[test]
fn capture_stream_ids_are_normalised_and_bounded() {
    assert_eq!(normalized_capture_stream_id("  "), "default");
    assert_eq!(normalized_capture_stream_id(" agent-loop "), "agent-loop");
    assert_eq!(capture_stream_id(None), Ok("default".to_owned()));
    assert_eq!(capture_stream_id(Some(&"a".repeat(128))), Ok("a".repeat(128)));
    assert_eq!(
        capture_stream_id(Some(&"é".repeat(65))),
        Err("capture_delta stream_id is too long: maximum 128 bytes".to_owned())
    );
    let text: Vec<char> = "aé€😀".chars().collect();
    assert_eq!(utf8_byte_len(&text), "aé€😀".len() as u128);
}
