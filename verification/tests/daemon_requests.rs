use peekaboox::backends::{ZeroCopyAvailability, ZeroCopyCaptureCapability, ZeroCopyTransport};
use peekaboox::cache::{AccessibilityTreeMetadata, CachedAccessibilityTree};
use peekaboox::capture_requests::{
    capture_backend_probe_name, capture_backend_probe_steps, capture_backend_warnings,
    capture_delta_region, capture_file_format_from_request, capture_file_region,
    capture_frame_source_label, capture_region_from_request, capture_screen_region,
    check_capture_file_request, clean_str, first_capture_window, format_rect,
    has_capture_window_scope, offset_window_relative_capture_region, window_capture_region,
    zero_copy_backend_report, CaptureBackendProbe, CaptureFileFormat, CaptureTarget,
    RegionRequest,
};
use peekaboox::frame::CaptureFrameSource;
use peekaboox::lookup::{
    apply_element_scope_metadata, backend_kind_name, element_lookup_from_tree,
    element_lookup_scope, element_matches_scope, vision_capture_area, vision_detection_overrides,
    vision_lookup_result, with_fallback_warning, ElementLookupScope, LookupOutcome,
    VisionCaptureArea,
};
use peekaboox::query::ElementQuery;
use peekaboox::requests::{
    click_options_from_fields, desktop_assertion, drag_options_from_fields,
    hotkey_options_from_fields, move_options_from_fields, parse_clipboard_backend_selection,
    parse_clipboard_restore_policy, parse_move_bounds_policy, paste_options_from_fields,
    type_options_from_fields, validate_hotkey_keys, ClipboardBackendSelection,
    ClipboardRestorePolicy, DesktopAssertion, DesktopAssertionKind, InputToolSelection,
    MoveBoundsPolicy, PasteHotkeyBackendSelection,
};
use peekaboox::types::{BackendKind, Point, Rect, UiElement, WindowInfo, WindowState};

use peekaboox::vision_requests::{
        capture_target_name, ocr_status_kind, offset_ocr_region, parse_ocr_config,
        ui_element_sort_from_name, visual_alpha_mode_from_name, visual_size_policy_from_name,
        StatusKind, UiElementSort, VisualAlphaMode, VisualSizePolicy,
    };
use peekaboox::daemon::{atspi_event_reason, check_grpc_exposure, request_has_token};
use peekaboox::daemon::{sandbox_plan, SandboxProfile, SandboxStep};

fn sample_accessibility_metadata(label: &str) -> AccessibilityTreeMetadata {
    AccessibilityTreeMetadata {
        backend_name: "test".to_owned(),
        backend_kind: BackendKind::AtSpi,
        warnings: Vec::new(),
        elements: vec![UiElement {
            id: "element-1".to_owned(),
            role: "push button".to_owned(),
            label: Some(label.to_owned()),
            bounds: Rect::new(10, 20, 100, 40),
            center: Rect::new(10, 20, 100, 40).center(),
            states: vec!["enabled".to_owned()],
            window_id: Some("window-1".to_owned()),
            window_title: Some("PeekabooX Test".to_owned()),
            app_id: Some("peekaboox-test".to_owned()),
            parent_id: None,
            child_ids: Vec::new(),
        }],
    }
}

fn no_scope() -> ElementLookupScope {
    ElementLookupScope { app: None, window_title: None, window_id: None }
}

fn window(id: &str, bounds: Rect) -> WindowInfo {
    WindowInfo {
        id: id.to_owned(),
        title: format!("{id} title"),
        app_id: None,
        bounds,
        focused: false,
        state: WindowState::Normal,
    }
}

#[test]
fn element_lookup_does_not_call_vision_fallback_when_disabled() {
    let query = ElementQuery::parse("role=visual-region").unwrap();
    let result = element_lookup_from_tree(
        &query,
        &no_scope(),
        false,
        Ok(CachedAccessibilityTree {
            metadata: sample_accessibility_metadata("Submit"),
            cache_hit: true,
            age_ms: 12,
        }),
        &[true],
    )
    .unwrap();

    let LookupOutcome::Found(result) = result else {
        panic!("expected the tree to answer the lookup");
    };
    assert_eq!(result.backend_kind, "atspi");
    assert!(result.elements.is_empty());
    assert!(result.cache_hit);
    assert_eq!(result.cache_age_ms, 12);
    assert!(!result.vision_fallback_used);
}

#[test]
fn element_lookup_falls_back_after_a_miss_or_a_failure() {
    let query = ElementQuery::parse("role=visual-region").unwrap();
    let tree = CachedAccessibilityTree {
        metadata: sample_accessibility_metadata("Submit"),
        cache_hit: false,
        age_ms: 0,
    };
    match element_lookup_from_tree(&query, &no_scope(), true, Ok(tree), &[true]).unwrap() {
        LookupOutcome::Fallback(warning) => {
            assert_eq!(warning, "no accessibility elements matched; used vision fallback")
        }
        LookupOutcome::Found(_) => panic!("expected the vision fallback"),
    }
    match element_lookup_from_tree(&query, &no_scope(), true, Err("bus down".to_owned()), &[]).unwrap() {
        LookupOutcome::Fallback(warning) => {
            assert_eq!(warning, "accessibility lookup failed: bus down; used vision fallback")
        }
        LookupOutcome::Found(_) => panic!("expected the vision fallback"),
    }
    assert_eq!(
        element_lookup_from_tree(&query, &no_scope(), false, Err("bus down".to_owned()), &[]).unwrap_err(),
        "bus down"
    );
}

#[test]
fn element_lookup_keeps_matching_elements_in_scope() {
    let query = ElementQuery::parse("state=enabled,contains=20,30,confidence>=0.9").unwrap();
    let tree = CachedAccessibilityTree {
        metadata: sample_accessibility_metadata("Submit"),
        cache_hit: true,
        age_ms: 3,
    };
    let LookupOutcome::Found(found) =
        element_lookup_from_tree(&query, &no_scope(), false, Ok(tree.clone()), &[true]).unwrap()
    else {
        panic!("expected the tree to answer the lookup");
    };
    assert_eq!(found.elements.len(), 1);
    assert_eq!(found.elements[0].states, vec!["enabled".to_owned()]);

    let LookupOutcome::Found(unconfident) =
        element_lookup_from_tree(&query, &no_scope(), false, Ok(tree.clone()), &[false]).unwrap()
    else {
        panic!("expected the tree to answer the lookup");
    };
    assert!(unconfident.elements.is_empty());

    let scope = ElementLookupScope {
        app: Some("PEEKABOOX".to_owned()),
        window_title: Some("test".to_owned()),
        window_id: Some("window-2".to_owned()),
    };
    assert!(!element_matches_scope(&tree.metadata.elements[0], &scope));
    let scope = ElementLookupScope { window_id: Some("window-1".to_owned()), ..scope };
    assert!(element_matches_scope(&tree.metadata.elements[0], &scope));
}

#[test]
fn scope_metadata_moves_elements_to_screen_coordinates() {
    let mut elements = sample_accessibility_metadata("Submit").elements;
    let scope = ElementLookupScope {
        app: Some("demo".to_owned()),
        window_title: None,
        window_id: Some("w".to_owned()),
    };
    apply_element_scope_metadata(&mut elements, &scope, Some(Rect::new(5, -10, 400, 300)));
    assert_eq!(elements[0].bounds, Rect::new(15, 10, 100, 40));
    assert_eq!(elements[0].center, Some(Point::new(65, 30)));
    assert_eq!(elements[0].app_id.as_deref(), Some("demo"));
    assert_eq!(elements[0].window_title, None);
    assert_eq!(elements[0].window_id.as_deref(), Some("w"));
    assert_eq!(backend_kind_name(BackendKind::X11), "x11");
}

#[test]
fn type_options_validate_backend_and_timing() {
    let options =
        type_options_from_fields(Some(20), Some(10), None, Some("wtype")).expect("valid type options");

    assert_eq!(options.backend, InputToolSelection::Wtype);
    assert_eq!(options.typing_speed_chars_per_second, Some(20));
    assert_eq!(options.delay_ms, Some(10));
    assert!(type_options_from_fields(Some(20), None, Some(5), Some("auto"))
        .unwrap_err()
        .contains("cannot be combined"));
}

#[test]
fn input_options_default_and_refuse() {
    let moved = move_options_from_fields(None, None, None, None).unwrap();
    assert_eq!(moved.duration_ms, 0);
    assert_eq!(moved.bounds_policy, MoveBoundsPolicy::Allow);
    assert_eq!(moved.backend, InputToolSelection::Auto);
    assert_eq!(
        move_options_from_fields(None, Some(0), None, None).unwrap_err(),
        "move steps must be greater than zero"
    );
    assert_eq!(
        move_options_from_fields(None, None, Some(" wrap "), None).unwrap_err(),
        "bounds_policy must be allow, clamp, or fail, got \"wrap\""
    );
    assert_eq!(click_options_from_fields(Some("clamp"), Some("ydotool")).unwrap().bounds_policy, MoveBoundsPolicy::Clamp);
    assert_eq!(
        click_options_from_fields(None, Some("wtype")).unwrap_err(),
        "backend must be auto, uinput, ydotool, or xdotool, got \"wtype\""
    );
    let drag = drag_options_from_fields(None, Some(4), Some("fail-out-of-bounds"), Some("uinput")).unwrap();
    assert_eq!(drag.duration_ms, 250);
    assert_eq!(drag.bounds_policy, MoveBoundsPolicy::Fail);
    assert_eq!(drag.backend, InputToolSelection::Uinput);
    assert_eq!(
        drag_options_from_fields(None, None, None, Some("ydotool")).unwrap_err(),
        "backend must be auto, uinput, or xdotool for drag, got \"ydotool\""
    );
    let hotkey = hotkey_options_from_fields(None, None, None, None, None, true, false).unwrap();
    assert_eq!(hotkey.repeat, 1);
    assert_eq!(hotkey.interval_ms, 0);
    assert_eq!(
        hotkey_options_from_fields(None, None, None, Some(0), None, false, false).unwrap_err(),
        "hotkey repeat must be greater than zero"
    );
    let paste = paste_options_from_fields(true, Some("wlcopy"), None, None, Some(5), Some("best_effort")).unwrap();
    assert_eq!(paste.clipboard_backend, ClipboardBackendSelection::WlCopy);
    assert_eq!(paste.hotkey_backend, PasteHotkeyBackendSelection::Auto);
    assert_eq!(paste.delay_ms, 80);
    assert_eq!(paste.restore_delay_ms, 5);
    assert_eq!(paste.restore_policy, ClipboardRestorePolicy::BestEffort);
    assert_eq!(parse_clipboard_backend_selection("  "), Ok(ClipboardBackendSelection::Auto));
    assert_eq!(parse_clipboard_restore_policy("off"), Ok(ClipboardRestorePolicy::Off));
    assert_eq!(parse_move_bounds_policy(""), Ok(MoveBoundsPolicy::Allow));
}

#[test]
fn hotkeys_and_assertions_are_checked() {
    assert_eq!(validate_hotkey_keys(&[]).unwrap_err(), "hotkey must contain at least one key");
    assert_eq!(
        validate_hotkey_keys(&["ctrl".to_owned(), " ".to_owned()]).unwrap_err(),
        "hotkey keys must not be empty"
    );
    assert!(validate_hotkey_keys(&["ctrl".to_owned(), "s".to_owned()]).is_ok());
    assert_eq!(desktop_assertion(DesktopAssertionKind::Active, None), Ok(DesktopAssertion::Active));
    assert_eq!(
        desktop_assertion(DesktopAssertionKind::Contains, Some("  Saved ".to_owned())),
        Ok(DesktopAssertion::Contains("Saved".to_owned()))
    );
    assert_eq!(
        desktop_assertion(DesktopAssertionKind::NotContains, Some(" ".to_owned())),
        Err("desktop assertion not_contains requires expected_text".to_owned())
    );
}

#[test]
fn capture_file_requests_are_checked() {
    assert_eq!(capture_file_format_from_request(None), Ok(CaptureFileFormat::Png));
    assert_eq!(capture_file_format_from_request(Some(" XWD ")), Ok(CaptureFileFormat::Xwd));
    assert_eq!(
        capture_file_format_from_request(Some("Jpeg")),
        Err("invalid capture format \"jpeg\"; expected png or xwd".to_owned())
    );
    assert_eq!(CaptureFileFormat::Xwd.mime_type(), "image/x-xwindowdump");
    assert_eq!(check_capture_file_request(Some("xwd"), false, false, "/tmp/screen.XWD"), Ok(CaptureFileFormat::Xwd));
    assert_eq!(
        check_capture_file_request(Some("xwd"), true, false, "/tmp/screen.xwd"),
        Err("capture format xwd only supports full-screen file output".to_owned())
    );
    assert_eq!(
        check_capture_file_request(Some("xwd"), false, false, "/tmp/screen.png"),
        Err("capture format xwd output path must end in .xwd".to_owned())
    );
    assert_eq!(check_capture_file_request(None, true, true, "shot"), Ok(CaptureFileFormat::Png));
    assert!(has_capture_window_scope(None, Some(" editor "), None, None));
    assert!(!has_capture_window_scope(Some(" "), None, Some(""), None));
    assert_eq!(clean_str(Some("  a b ")), Some("a b".to_owned()));
}

#[test]
fn capture_regions_are_resolved() {
    let window_bounds = Rect::new(100, 50, 800, 600);
    assert_eq!(
        offset_window_relative_capture_region(window_bounds, Rect::new(10, 20, 300, 200)),
        Ok(Rect::new(110, 70, 300, 200))
    );
    assert_eq!(
        offset_window_relative_capture_region(window_bounds, Rect::new(-1, 0, 10, 10)),
        Err("window-relative capture region must start inside the window".to_owned())
    );
    assert_eq!(
        offset_window_relative_capture_region(window_bounds, Rect::new(700, 0, 101, 10)),
        Err("window-relative capture region must fit inside the window".to_owned())
    );
    assert_eq!(
        offset_window_relative_capture_region(Rect::new(i32::MAX, 0, 10, 10), Rect::new(1, 0, 1, 1)),
        Err("window-relative region x overflow".to_owned())
    );
    assert_eq!(capture_file_region(Some(Rect::new(1, 2, 3, 4)), None), Ok(Some(Rect::new(1, 2, 3, 4))));
    assert_eq!(capture_file_region(None, Some(window_bounds)), Ok(Some(window_bounds)));
    assert_eq!(
        capture_region_from_request(Some(Rect::new(0, 0, 1, 1)), Some("w")),
        Err("provide either capture region or window_id, not both".to_owned())
    );
    assert_eq!(
        capture_region_from_request(None, Some(" w ")),
        Ok(RegionRequest::Window("w".to_owned()))
    );
    assert_eq!(capture_region_from_request(None, Some(" ")), Ok(RegionRequest::Known(None)));
    assert_eq!(
        capture_screen_region(Some(CaptureTarget::FullScreen(false))),
        Err("capture_screen full_screen target must be true".to_owned())
    );
    assert_eq!(
        capture_delta_region(None, Some(Rect::new(1, 1, 2, 2))),
        Ok(RegionRequest::Known(Some(Rect::new(1, 1, 2, 2))))
    );
    assert_eq!(
        capture_delta_region(Some(CaptureTarget::WindowId("x".to_owned())), None),
        Ok(RegionRequest::Window("x".to_owned()))
    );

    let windows = vec![window("a", Rect::new(0, 0, 0, 10)), window("b", Rect::new(5, 5, 10, 10))];
    assert_eq!(window_capture_region("b", &windows), Ok(Rect::new(5, 5, 10, 10)));
    assert_eq!(window_capture_region("a", &windows), Err("window a has empty bounds".to_owned()));
    assert_eq!(window_capture_region("c", &windows), Err("window not found: c".to_owned()));
    assert_eq!(first_capture_window(vec![]).unwrap_err(), "no window matched capture filters");
    assert_eq!(first_capture_window(windows.clone()).unwrap_err(), "window a has empty bounds");
    assert_eq!(first_capture_window(windows[1..].to_vec()).unwrap().id, "b");
}

#[test]
fn capture_backend_reports() {
    assert_eq!(
        capture_backend_probe_steps(CaptureBackendProbe::All),
        vec![
            CaptureBackendProbe::File,
            CaptureBackendProbe::Frame,
            CaptureBackendProbe::Region,
            CaptureBackendProbe::DmaBuf
        ]
    );
    assert!(capture_backend_probe_steps(CaptureBackendProbe::Skip).is_empty());
    assert_eq!(capture_backend_probe_steps(CaptureBackendProbe::Frame), vec![CaptureBackendProbe::Frame]);
    assert_eq!(capture_backend_probe_name(CaptureBackendProbe::DmaBuf), "dmabuf");
    assert_eq!(capture_frame_source_label(CaptureFrameSource::FullFrameCrop), "full-frame-crop");
    assert_eq!(format_rect(Rect::new(-5, 20, 300, 120)), "-5,20,300x120");

    let report = zero_copy_backend_report(
        ZeroCopyCaptureCapability {
            backend_name: "pipewire-dmabuf".to_owned(),
            backend_kind: BackendKind::Portal,
            transport: ZeroCopyTransport::XdgDesktopPortalScreenCastPipeWireDmaBuf,
            availability: ZeroCopyAvailability::Available,
        },
        false,
        false,
    );
    assert!(!report.selected);
    assert_eq!(report.reason.as_deref(), Some("compiled without pipewire-backend feature"));
    assert_eq!(report.availability, "available");
    let warnings = capture_backend_warnings(&[report], CaptureBackendProbe::All, None);
    assert_eq!(
        warnings,
        vec![
            "pipewire-dmabuf is available in the session, but this build was compiled without pipewire-backend".to_owned(),
            "region probe used default region 0,0,320,180".to_owned()
        ]
    );
}

#[test]
fn vision_request_names_are_exact() {
    assert_eq!(visual_size_policy_from_name("common-region"), Ok(VisualSizePolicy::CommonRegion));
    assert_eq!(
        visual_size_policy_from_name(" error"),
        Err("size_policy must be error, common-region, or resize-actual, got \" error\"".to_owned())
    );
    assert_eq!(visual_alpha_mode_from_name("compare"), Ok(VisualAlphaMode::Compare));
    assert_eq!(
        visual_alpha_mode_from_name("Ignore"),
        Err("alpha must be ignore or compare, got \"Ignore\"".to_owned())
    );
    assert_eq!(ui_element_sort_from_name("area"), Ok(UiElementSort::Area));
    assert!(ui_element_sort_from_name("size").is_err());

    let config = parse_ocr_config(" tessedit_char_whitelist =0123 ").unwrap();
    assert_eq!(config.key, "tessedit_char_whitelist");
    assert_eq!(config.value, "0123 ");
    assert_eq!(parse_ocr_config("a=b=c").unwrap().value, "b=c");
    assert_eq!(parse_ocr_config("novalue").unwrap_err().message(), "OCR config entries must be key=value");
    assert_eq!(
        parse_ocr_config("two words=1").unwrap_err().message(),
        "OCR config keys must be non-empty and contain no whitespace"
    );
    assert_eq!(
        parse_ocr_config(" =1").unwrap_err().message(),
        "OCR config keys must be non-empty and contain no whitespace"
    );

    assert_eq!(offset_ocr_region(Rect::new(10, 10, 5, 5), Rect::new(-3, 4, 2, 2)), Ok(Rect::new(7, 14, 2, 2)));
    assert_eq!(
        offset_ocr_region(Rect::new(i32::MIN, 0, 5, 5), Rect::new(-1, 0, 2, 2)).unwrap_err().message(),
        "OCR region x coordinate overflows i32"
    );
    assert_eq!(ocr_status_kind("tesseract is not available"), StatusKind::FailedPrecondition);
    assert_eq!(ocr_status_kind("decode failed"), StatusKind::Internal);
    assert_eq!(capture_target_name(None), "full_screen_default");
    assert_eq!(capture_target_name(Some(&CaptureTarget::WindowId("w".to_owned()))), "window");
}

#[test]
fn grpc_tokens_and_exposure() {
    assert!(request_has_token(Some("s3cret"), None, "s3cret"));
    assert!(request_has_token(None, Some("Bearer s3cret"), "s3cret"));
    assert!(!request_has_token(None, Some("bearer s3cret"), "s3cret"));
    assert!(!request_has_token(Some("other"), Some("Bearer"), "s3cret"));
    assert!(check_grpc_exposure(true, false).is_ok());
    assert!(check_grpc_exposure(false, true).is_ok());
    assert!(check_grpc_exposure(false, false).unwrap_err().contains("--grpc-token"));
    assert_eq!(
        atspi_event_reason(Some("org.a11y.atspi.Event.Focus"), None),
        "org.a11y.atspi.Event.Focus.unknown-member"
    );
}

#[test]
fn sandbox_plans_grow_with_strictness() {
    assert!(sandbox_plan(SandboxProfile::Off).is_empty());
    let strict = sandbox_plan(SandboxProfile::Strict);
    let labels: Vec<&str> = strict.iter().flat_map(|step| step.labels()).collect();
    assert_eq!(
        labels,
        vec![
            "no_new_privileges",
            "non_dumpable",
            "umask_077",
            "user_namespace",
            "user_namespace_id_map",
            "mount_namespace",
            "ipc_namespace",
            "private_mount_propagation"
        ]
    );
    assert_eq!(sandbox_plan(SandboxProfile::Basic), strict[..3].to_vec());
    assert_eq!(SandboxStep::NonDumpable.labels(), vec!["non_dumpable"]);
}

#[test]
fn element_lookup_scope_drops_blank_fields() {
    let scope = element_lookup_scope(Some("  Telegram ".to_owned()), Some("   ".to_owned()), None);
    assert_eq!(
        scope,
        ElementLookupScope { app: Some("Telegram".to_owned()), window_title: None, window_id: None }
    );
}

#[test]
fn vision_overrides_check_their_ranges() {
    let overrides = vision_detection_overrides(Some(40), Some(8), None, Some(12), Some(50), None).unwrap();
    assert_eq!(overrides.edge_threshold, Some(40));
    assert_eq!(overrides.min_width, Some(8));
    assert_eq!(overrides.min_height, None);
    assert_eq!(overrides.max_elements, Some(50));
    assert_eq!(
        vision_detection_overrides(Some(256), None, None, None, None, None).unwrap_err(),
        "vision_edge_threshold must be between 0 and 255"
    );
}

/// What the vision detector reports for the fixture image of two controls:
/// regions in image coordinates.
fn detected_visual_regions() -> Vec<UiElement> {
    [Rect::new(21, 4, 8, 8), Rect::new(40, 4, 12, 8)]
        .into_iter()
        .enumerate()
        .map(|(index, bounds)| UiElement {
            id: format!("vision:{index}"),
            role: "visual-region".to_owned(),
            label: None,
            bounds,
            center: bounds.center(),
            states: Vec::new(),
            window_id: None,
            window_title: None,
            app_id: None,
            parent_id: None,
            child_ids: Vec::new(),
        })
        .collect()
}

#[test]
fn element_lookup_uses_fixture_vision_fallback_after_accessibility_miss() {
    let query = ElementQuery::parse("role=visual-region,contains=24,7").unwrap();
    let outcome = element_lookup_from_tree(
        &query,
        &no_scope(),
        true,
        Ok(CachedAccessibilityTree {
            metadata: sample_accessibility_metadata("Submit"),
            cache_hit: true,
            age_ms: 12,
        }),
        &[true],
    )
    .unwrap();
    let LookupOutcome::Fallback(warning) = outcome else {
        panic!("expected the lookup to fall back to vision");
    };
    let detected = detected_visual_regions();
    let flags = vec![true; detected.len()];
    let result = with_fallback_warning(
        vision_lookup_result(&query, &no_scope(), None, detected, &flags),
        warning,
    );

    assert_eq!(result.backend_name, "heuristic_vision");
    assert_eq!(result.backend_kind, "vision");
    assert_eq!(result.elements.len(), 1);
    assert_eq!(result.elements[0].bounds, Rect::new(21, 4, 8, 8));
    assert_eq!(result.warnings.len(), 1);
    assert!(result.warnings[0].contains("used vision fallback"));
    assert!(!result.cache_hit);
    assert_eq!(result.cache_age_ms, 0);
    assert!(result.vision_fallback_used);
}

#[test]
fn vision_results_move_into_screen_coordinates_and_take_the_scope() {
    let query = ElementQuery::parse("role=visual-region").unwrap();
    let scope = ElementLookupScope {
        app: Some("editor".to_owned()),
        window_title: None,
        window_id: Some("0x2a".to_owned()),
    };
    let detected = detected_visual_regions();
    let result = vision_lookup_result(&query, &scope, Some(Rect::new(100, 200, 300, 300)), detected, &[true, true]);
    assert_eq!(result.elements.len(), 2);
    assert_eq!(result.elements[0].bounds, Rect::new(121, 204, 8, 8));
    assert_eq!(result.elements[0].window_id.as_deref(), Some("0x2a"));
    assert_eq!(result.elements[0].app_id.as_deref(), Some("editor"));

    assert_eq!(vision_capture_area(Some(Rect::new(1, 2, 3, 4)), &scope), VisionCaptureArea::Region(Rect::new(1, 2, 3, 4)));
    assert_eq!(vision_capture_area(None, &scope), VisionCaptureArea::ScopeWindow);
    assert_eq!(vision_capture_area(None, &no_scope()), VisionCaptureArea::FullScreen);
}
