use peekaboox::cache::{AccessibilityCache, AccessibilityTreeMetadata};
use peekaboox::capture_requests::{CaptureFileFormat, RegionRequest};
use peekaboox::daemon::{DaemonPolicyProfile, SandboxProfile, ServerConfig};
use peekaboox::dispatch::{
    check_windows_limit, plan_prepared_input, plan_request, plan_window_query, InputOptions,
    RequestKind, RequestPlan,
};
use peekaboox::lookup::check_lookup_selector;
use peekaboox::requests::{InputToolSelection, MoveBoundsPolicy};
use peekaboox::types::{BackendKind, Rect};

const INPUT_DENIED: &str = "permission denied: non-dry-run input actions require peekabooxd --profile operator, --allow-input, or PEEKABOOX_ALLOW_INPUT=1";
const PLUGINS_DENIED: &str = "permission denied: plugin execution requires peekabooxd --profile operator, --allow-plugins, or PEEKABOOX_ALLOW_PLUGINS=1";

fn config(allow_input: bool, allow_plugins: bool) -> ServerConfig {
    ServerConfig {
        socket: "/tmp/peekabooxd.sock".to_owned(),
        once: false,
        audit_log: "/tmp/audit.jsonl".to_owned(),
        policy_profile: if allow_input { DaemonPolicyProfile::Operator } else { DaemonPolicyProfile::Observe },
        sandbox_profile: SandboxProfile::Off,
        allow_input,
        allow_plugins,
        vision_fallback: false,
        grpc_addr: None,
        grpc_token: None,
        accessibility_cache_ttl_ms: 500,
        accessibility_events: true,
        emergency_hotkey: true,
        plugin_paths: vec!["/etc/peekaboox/plugins".to_owned()],
    }
}

fn empty_cache() -> AccessibilityCache {
    AccessibilityCache::new(500_000_000)
}

fn filled_cache(at_nanos: u128) -> AccessibilityCache {
    let mut cache = empty_cache();
    cache.store(
        AccessibilityTreeMetadata {
            backend_name: "atspi".to_owned(),
            backend_kind: BackendKind::AtSpi,
            elements: Vec::new(),
            warnings: Vec::new(),
        },
        at_nanos,
    );
    cache
}

fn refusal(plan: RequestPlan) -> String {
    match plan {
        RequestPlan::Refuse(message) => message,
        other => panic!("expected a refusal, got {other:?}"),
    }
}

fn type_text(dry_run: bool) -> RequestKind<'static> {
    RequestKind::TypeText {
        dry_run,
        typing_speed_chars_per_second: None,
        delay_ms: None,
        key_delay_ms: None,
        backend: "auto",
    }
}

#[test]
fn ping_is_answered_with_pong() {
    let plan = plan_request(&RequestKind::Ping, &config(false, false), &empty_cache(), 0);
    assert!(matches!(plan, RequestPlan::Pong));
}

#[test]
fn real_input_is_refused_without_permission() {
    let plan = plan_request(&type_text(false), &config(false, false), &empty_cache(), 0);
    assert_eq!(refusal(plan), INPUT_DENIED);
    let plan = plan_request(&type_text(false), &config(true, false), &empty_cache(), 0);
    assert!(matches!(plan, RequestPlan::PerformInput(InputOptions::TypeText(_))));
}

#[test]
fn dry_run_input_only_detects_the_backend() {
    let plan = plan_request(&type_text(true), &config(false, false), &empty_cache(), 0);
    match plan {
        RequestPlan::DetectInputBackend(InputOptions::TypeText(options)) => {
            assert_eq!(options.backend, InputToolSelection::Auto);
        }
        other => panic!("unexpected plan {other:?}"),
    }
}

#[test]
fn bad_input_options_are_reported_before_the_gate() {
    let request = RequestKind::TypeText {
        dry_run: false,
        typing_speed_chars_per_second: Some(0),
        delay_ms: None,
        key_delay_ms: None,
        backend: "auto",
    };
    let plan = plan_request(&request, &config(false, false), &empty_cache(), 0);
    assert_eq!(refusal(plan), "typing_speed_chars_per_second must be greater than zero");
}

#[test]
fn click_resolves_positions_before_the_gate() {
    let request = RequestKind::Click { dry_run: false, bounds_policy: "clamp", backend: "auto" };
    let plan = plan_request(&request, &config(false, false), &empty_cache(), 0);
    assert!(matches!(plan, RequestPlan::PrepareInput(Some(MoveBoundsPolicy::Clamp))));

    let resolved = plan_prepared_input(&request, &config(false, false), Ok(()));
    assert_eq!(refusal(resolved), INPUT_DENIED);

    let failed = plan_prepared_input(&request, &config(false, false), Err("point is off screen".to_owned()));
    assert_eq!(refusal(failed), "point is off screen");

    let allowed = plan_prepared_input(&request, &config(true, false), Ok(()));
    assert!(matches!(allowed, RequestPlan::PerformInput(InputOptions::Click(_))));

    let bad = RequestKind::Click { dry_run: false, bounds_policy: "nowhere", backend: "auto" };
    let plan = plan_request(&bad, &config(false, false), &empty_cache(), 0);
    assert_eq!(refusal(plan), "bounds_policy must be allow, clamp, or fail, got \"nowhere\"");
}

#[test]
fn hotkey_keys_are_checked_first() {
    let keys: Vec<String> = Vec::new();
    let request = RequestKind::Hotkey {
        keys: &keys,
        dry_run: true,
        backend: "auto",
        delay_ms: None,
        key_delay_ms: None,
        repeat: None,
        interval_ms: None,
        release_before: false,
        release_after: false,
    };
    let plan = plan_request(&request, &config(true, false), &empty_cache(), 0);
    assert_eq!(refusal(plan), "hotkey must contain at least one key");

    let keys = vec!["ctrl".to_owned(), "c".to_owned()];
    let request = RequestKind::Hotkey {
        keys: &keys,
        dry_run: true,
        backend: "auto",
        delay_ms: None,
        key_delay_ms: None,
        repeat: Some(0),
        interval_ms: None,
        release_before: false,
        release_after: false,
    };
    let plan = plan_request(&request, &config(true, false), &empty_cache(), 0);
    assert!(matches!(plan, RequestPlan::PrepareInput(None)));
    let plan = plan_prepared_input(&request, &config(true, false), Ok(()));
    assert_eq!(refusal(plan), "hotkey repeat must be greater than zero");
}

#[test]
fn plugin_execution_is_gated_and_uses_configured_paths() {
    let none: Vec<String> = Vec::new();
    let given = vec!["/tmp/plugins".to_owned()];
    let request = RequestKind::CallPluginTool { paths: &none };
    assert_eq!(refusal(plan_request(&request, &config(false, false), &empty_cache(), 0)), PLUGINS_DENIED);
    match plan_request(&request, &config(false, true), &empty_cache(), 0) {
        RequestPlan::RunPluginTool(paths) => assert_eq!(paths, vec!["/etc/peekaboox/plugins".to_owned()]),
        other => panic!("unexpected plan {other:?}"),
    }
    let request = RequestKind::CallPluginTool { paths: &given };
    assert_eq!(
        refusal(plan_request(&request, &config(false, true), &empty_cache(), 0)),
        "permission denied: daemon plugin execution only uses plugin paths configured at daemon startup"
    );
}

#[test]
fn plugin_listing_defaults_to_configured_paths() {
    let none: Vec<String> = Vec::new();
    let given = vec!["/tmp/plugins".to_owned()];
    match plan_request(&RequestKind::ListPlugins { paths: &none }, &config(false, false), &empty_cache(), 0) {
        RequestPlan::ListPlugins(paths) => assert_eq!(paths, vec!["/etc/peekaboox/plugins".to_owned()]),
        other => panic!("unexpected plan {other:?}"),
    }
    match plan_request(&RequestKind::ListPlugins { paths: &given }, &config(false, false), &empty_cache(), 0) {
        RequestPlan::ListPlugins(paths) => assert_eq!(paths, given),
        other => panic!("unexpected plan {other:?}"),
    }
}

fn find(selector: &'static str) -> RequestKind<'static> {
    RequestKind::FindElements {
        selector,
        vision_fallback: false,
        vision_edge_threshold: None,
        vision_min_width: None,
        vision_min_height: None,
        vision_min_component_pixels: None,
        vision_max_elements: None,
        vision_merge_distance: None,
    }
}

#[test]
fn fresh_cache_answers_element_lookups() {
    let cache = filled_cache(1_000_000_000);
    match plan_request(&find("role=button"), &config(false, false), &cache, 1_400_000_000) {
        RequestPlan::AnswerFromCache { query, use_vision_fallback, .. } => {
            assert!(query.role.is_some());
            assert!(!use_vision_fallback);
        }
        other => panic!("unexpected plan {other:?}"),
    }
    let stale = plan_request(&find("role=button"), &config(false, false), &cache, 1_600_000_000);
    assert!(matches!(stale, RequestPlan::QueryAccessibility { .. }));
    let empty = plan_request(&find("role=button"), &config(false, false), &empty_cache(), 0);
    assert!(matches!(empty, RequestPlan::QueryAccessibility { .. }));
    let bad = plan_request(&find("bogus=1"), &config(false, false), &cache, 1_000_000_000);
    assert_eq!(refusal(bad), "unknown element selector key \"bogus\"");
}

#[test]
fn element_lookup_checks_vision_settings_first() {
    let request = RequestKind::FindElements {
        selector: "bogus=1",
        vision_fallback: false,
        vision_edge_threshold: Some(256),
        vision_min_width: None,
        vision_min_height: None,
        vision_min_component_pixels: None,
        vision_max_elements: None,
        vision_merge_distance: None,
    };
    let plan = plan_request(&request, &config(false, false), &empty_cache(), 0);
    assert_eq!(refusal(plan), "vision_edge_threshold must be between 0 and 255");
}

#[test]
fn capture_requests_are_checked_before_capturing() {
    let xwd_region = RequestKind::Capture {
        region: Some(Rect::new(0, 0, 10, 10)),
        window_id: None,
        app: None,
        window_title: None,
        title_regex: None,
        format: Some("XWD"),
    };
    assert_eq!(
        refusal(plan_request(&xwd_region, &config(false, false), &empty_cache(), 0)),
        "capture format xwd only supports full-screen file output"
    );
    let png = RequestKind::Capture {
        region: None,
        window_id: Some("  "),
        app: None,
        window_title: None,
        title_regex: None,
        format: None,
    };
    assert!(matches!(
        plan_request(&png, &config(false, false), &empty_cache(), 0),
        RequestPlan::CaptureToFile(CaptureFileFormat::Png)
    ));
    let delta = RequestKind::CaptureDelta { region: None, window_id: Some(" 0x42 ") };
    match plan_request(&delta, &config(false, false), &empty_cache(), 0) {
        RequestPlan::CaptureDelta(RegionRequest::Window(id)) => assert_eq!(id, "0x42"),
        other => panic!("unexpected plan {other:?}"),
    }
}

#[test]
fn desktop_actions_need_permission_unless_dry_run() {
    assert_eq!(
        refusal(plan_request(&RequestKind::DesktopFocus, &config(false, false), &empty_cache(), 0)),
        INPUT_DENIED
    );
    assert!(matches!(
        plan_request(&RequestKind::DesktopAction { dry_run: true }, &config(false, false), &empty_cache(), 0),
        RequestPlan::Delegate
    ));
    assert_eq!(
        refusal(plan_request(&RequestKind::DesktopAction { dry_run: false }, &config(false, false), &empty_cache(), 0)),
        INPUT_DENIED
    );
    assert!(matches!(
        plan_request(&RequestKind::Inspect, &config(false, false), &empty_cache(), 0),
        RequestPlan::Delegate
    ));
}

#[test]
fn window_listing_refuses_a_zero_limit_after_its_names() {
    let request = RequestKind::ListWindows { limit: Some(0) };
    assert!(matches!(
        plan_request(&request, &config(false, false), &empty_cache(), 0),
        RequestPlan::PrepareWindowQuery
    ));
    assert_eq!(
        refusal(plan_window_query(Some(0), Ok(()))),
        "windows limit must be greater than zero"
    );
    assert_eq!(
        refusal(plan_window_query(Some(0), Err("invalid windows sort: sideways".to_owned()))),
        "invalid windows sort: sideways"
    );
    assert!(matches!(plan_window_query(Some(3), Ok(())), RequestPlan::Delegate));
    assert!(matches!(plan_window_query(None, Ok(())), RequestPlan::Delegate));
    assert_eq!(check_windows_limit(Some(0)).unwrap_err(), "windows limit must be greater than zero");
    assert!(check_windows_limit(Some(1)).is_ok());
}

#[test]
fn grpc_lookup_refuses_a_blank_selector() {
    assert_eq!(check_lookup_selector("  \t").unwrap_err(), "selector must not be empty");
    assert_eq!(check_lookup_selector("").unwrap_err(), "selector must not be empty");
    assert!(check_lookup_selector(" role=button ").is_ok());
}
