use vstd::prelude::*;
use crate::capture_requests::{capture_backend_probe_name, CaptureBackendProbe};
use crate::dmabuf::{spec_target_name, DmaBufImportTarget};
use crate::requests::DesktopAssertionKind;
use crate::streams::{normalized_capture_stream_id, spec_stream_id};
use crate::text::{chars_of, texts, trim, trim_chars};
use crate::types::Rect;

verus! {

/// A mouse button as a request names it.
#[derive(Debug, Clone, Copy, PartialEq, Eq, Structural)]
pub enum MouseButton {
    Left,
    Middle,
    Right,
}

/// The name of a mouse button in lower case.
pub open spec fn spec_button_name(button: MouseButton) -> Seq<char> {
    match button {
        MouseButton::Left => "left"@,
        MouseButton::Middle => "middle"@,
        MouseButton::Right => "right"@,
    }
}

impl MouseButton {
    /// The button's name (see [`spec_button_name`]).
    pub fn name(self) -> (n: &'static str)
        ensures
            n@ == spec_button_name(self),
    {
        match self {
            MouseButton::Left => "left",
            MouseButton::Middle => "middle",
            MouseButton::Right => "right",
        }
    }
}

/// The name of a capture-backend probe in lower case.
pub open spec fn spec_probe_name(probe: CaptureBackendProbe) -> Seq<char> {
    match probe {
        CaptureBackendProbe::Skip => "none"@,
        CaptureBackendProbe::File => "file"@,
        CaptureBackendProbe::Frame => "frame"@,
        CaptureBackendProbe::Region => "region"@,
        CaptureBackendProbe::DmaBuf => "dmabuf"@,
        CaptureBackendProbe::All => "all"@,
    }
}

/// The name of a desktop assertion in lower case, its words run together.
pub open spec fn spec_assertion_name(assertion: DesktopAssertionKind) -> Seq<char> {
    match assertion {
        DesktopAssertionKind::Present => "present"@,
        DesktopAssertionKind::NotPresent => "notpresent"@,
        DesktopAssertionKind::Active => "active"@,
        DesktopAssertionKind::NotActive => "notactive"@,
        DesktopAssertionKind::Contains => "contains"@,
        DesktopAssertionKind::NotContains => "notcontains"@,
    }
}

fn assertion_name(assertion: DesktopAssertionKind) -> (n: &'static str)
    ensures
        n@ == spec_assertion_name(assertion),
{
    match assertion {
        DesktopAssertionKind::Present => "present",
        DesktopAssertionKind::NotPresent => "notpresent",
        DesktopAssertionKind::Active => "active",
        DesktopAssertionKind::NotActive => "notactive",
        DesktopAssertionKind::Contains => "contains",
        DesktopAssertionKind::NotContains => "notcontains",
    }
}

/// A value of an audit record field.
#[derive(Debug, Clone, PartialEq)]
pub enum AuditValue {
    Null,
    Bool(bool),
    Int(i128),
    /// A number as JSON writes it.
    Number(String),
    Text(String),
    Texts(Vec<String>),
}

/// The mathematical form of an [`AuditValue`].
pub enum AuditValueView {
    Null,
    Bool(bool),
    Int(int),
    Number(Seq<char>),
    Text(Seq<char>),
    Texts(Seq<Seq<char>>),
}

impl View for AuditValue {
    type V = AuditValueView;

    open spec fn view(&self) -> AuditValueView {
        match self {
            AuditValue::Null => AuditValueView::Null,
            AuditValue::Bool(b) => AuditValueView::Bool(*b),
            AuditValue::Int(i) => AuditValueView::Int(*i as int),
            AuditValue::Number(n) => AuditValueView::Number(n@),
            AuditValue::Text(t) => AuditValueView::Text(t@),
            AuditValue::Texts(v) => AuditValueView::Texts(texts(v@)),
        }
    }
}

/// The fields of a record as names and value views.
pub open spec fn fields_view(v: Seq<(String, AuditValue)>) -> Seq<(Seq<char>, AuditValueView)> {
    v.map_values(|e: (String, AuditValue)| (e.0@, e.1@))
}

/// An optional integer, or JSON's null.
pub open spec fn spec_opt_int(o: Option<i128>) -> AuditValueView {
    match o {
        Some(i) => AuditValueView::Int(i as int),
        None => AuditValueView::Null,
    }
}

/// An optional text, or JSON's null.
pub open spec fn spec_opt_text(o: Option<String>) -> AuditValueView {
    match o {
        Some(t) => AuditValueView::Text(t@),
        None => AuditValueView::Null,
    }
}

/// An optional number, or JSON's null.
pub open spec fn spec_opt_number(o: Option<String>) -> AuditValueView {
    match o {
        Some(n) => AuditValueView::Number(n@),
        None => AuditValueView::Null,
    }
}

/// An optional text is given and not blank.
pub open spec fn spec_has_text(o: Option<String>) -> bool {
    o matches Some(t) && trim(t@).len() > 0
}

/// An optional text, or the empty text.
pub open spec fn text_or_empty(o: Option<String>) -> Seq<char> {
    match o {
        Some(t) => t@,
        None => ""@,
    }
}

fn opt_int(o: Option<i128>) -> (v: AuditValue)
    ensures
        v@ == spec_opt_int(o),
{
    match o {
        Some(i) => AuditValue::Int(i),
        None => AuditValue::Null,
    }
}

fn opt_text_value(o: &Option<String>) -> (v: AuditValue)
    ensures
        v@ == spec_opt_text(*o),
{
    match o {
        Some(t) => AuditValue::Text(t.clone()),
        None => AuditValue::Null,
    }
}

fn opt_number(o: &Option<String>) -> (v: AuditValue)
    ensures
        v@ == spec_opt_number(*o),
{
    match o {
        Some(n) => AuditValue::Number(n.clone()),
        None => AuditValue::Null,
    }
}

fn has_text(o: &Option<String>) -> (b: bool)
    ensures
        b == spec_has_text(*o),
{
    match o {
        Some(t) => {
            let all = chars_of(t.as_str());
            let trimmed = trim_chars(&all);
            trimmed.len() > 0
        },
        None => false,
    }
}

fn char_count(s: &String) -> (n: i128)
    ensures
        n == s@.len(),
{
    let all = chars_of(s.as_str());
    all.len() as i128
}

fn copy_texts(v: &Vec<String>) -> (r: Vec<String>)
    ensures
        r@ == v@,
{
    let mut r: Vec<String> = Vec::new();
    let mut i: usize = 0;
    while i < v.len()
        invariant
            i <= v@.len(),
            r@ == v@.subrange(0, i as int),
        decreases v@.len() - i,
    {
        r.push(v[i].clone());
        assert(v@.subrange(0, i + 1) =~= v@.subrange(0, i as int).push(v@[i as int]));
        i = i + 1;
    }
    assert(v@.subrange(0, v@.len() as int) =~= v@);
    r
}

fn stream_id_text(o: &Option<String>) -> (r: String)
    ensures
        r@ == spec_stream_id(text_or_empty(*o)),
{
    match o {
        Some(t) => normalized_capture_stream_id(t.as_str()),
        None => normalized_capture_stream_id(""),
    }
}

fn push_field(out: &mut Vec<(String, AuditValue)>, key: &str, value: AuditValue)
    ensures
        fields_view(final(out)@) == fields_view(old(out)@).push((key@, value@)),
{
    let ghost before = out@;
    out.push((String::from_str(key), value));
    assert(fields_view(out@) =~= fields_view(before).push((key@, value@)));
}

/// A daemon request as its audit record reads it: the fields of the request,
/// with floating-point values already written as JSON numbers by the caller
/// and the plugin arguments counted.
#[derive(Debug, Clone)]
pub enum AuditRequest {
    Ping,
    Capture {
        output: String,
        region: Option<Rect>,
        window_id: Option<String>,
        app: Option<String>,
        window_title: Option<String>,
        title_regex: Option<String>,
        format: Option<String>,
        no_overwrite: bool,
        include_semantic_tree: bool,
    },
    CaptureDelta {
        stream_id: Option<String>,
        reset: bool,
        region: Option<Rect>,
        window_id: Option<String>,
        per_channel_threshold: i128,
        low_bandwidth: bool,
    },
    CaptureBackends {
        output: String,
        region: Option<Rect>,
        diagnose: bool,
        probe: CaptureBackendProbe,
    },
    ProbeDmaBuf {
        import_target: DmaBufImportTarget,
    },
    ListPlugins {
        paths: Vec<String>,
    },
    CallPluginTool {
        plugin_id: String,
        tool: String,
        argument_keys: usize,
        paths: Vec<String>,
        timeout_ms: i128,
        max_output_bytes: i128,
        require_trusted: bool,
        has_trust_policy: bool,
    },
    Click {
        x: i128,
        y: i128,
        button: MouseButton,
        dry_run: bool,
        bounds_policy: String,
        backend: String,
        restore: bool,
    },
    MoveMouse {
        x: i128,
        y: i128,
        dry_run: bool,
        duration_ms: i128,
        steps: Option<i128>,
        bounds_policy: String,
        backend: String,
        restore: bool,
    },
    Drag {
        from_x: i128,
        from_y: i128,
        to_x: i128,
        to_y: i128,
        button: MouseButton,
        duration_ms: i128,
        steps: Option<i128>,
        bounds_policy: String,
        backend: String,
        restore: bool,
        dry_run: bool,
    },
    TypeText {
        text: String,
        dry_run: bool,
        typing_speed_chars_per_second: Option<i128>,
        delay_ms: Option<i128>,
        key_delay_ms: Option<i128>,
        backend: String,
    },
    PasteText {
        text: String,
        preserve_clipboard: bool,
        dry_run: bool,
        clipboard_backend: String,
        hotkey_backend: String,
        delay_ms: Option<i128>,
        restore_delay_ms: Option<i128>,
        restore_policy: String,
    },
    Hotkey {
        keys: Vec<String>,
        dry_run: bool,
        backend: String,
        delay_ms: Option<i128>,
        key_delay_ms: Option<i128>,
        repeat: Option<i128>,
        interval_ms: Option<i128>,
        release_before: bool,
        release_after: bool,
    },
    ListWindows {
        id: Option<String>,
        app: Option<String>,
        title: Option<String>,
        title_regex: Option<String>,
        focused: bool,
        limit: Option<i128>,
        sort: Option<String>,
        backend: Option<String>,
        diagnose: bool,
    },
    FindElements {
        selector: String,
        vision_fallback: bool,
        app: Option<String>,
        window_title: Option<String>,
        window_id: Option<String>,
        vision_region: Option<Rect>,
        vision_edge_threshold: Option<i128>,
        vision_min_width: Option<i128>,
        vision_min_height: Option<i128>,
        vision_min_component_pixels: Option<i128>,
        vision_max_elements: Option<i128>,
        vision_merge_distance: Option<i128>,
    },
    Ocr {
        image_path: Option<String>,
        region: Option<Rect>,
        app: Option<String>,
        window_title: Option<String>,
        window_id: Option<String>,
        language: Option<String>,
        has_scale: bool,
        grayscale: bool,
        has_threshold: bool,
        invert: bool,
        has_contrast: bool,
        deskew: bool,
    },
    CompareImages {
        expected_path: String,
        actual_path: String,
        region: Option<Rect>,
        ignore_regions: Vec<Rect>,
        per_channel_threshold: i128,
        max_changed_ratio: String,
        max_changed_pixels: Option<i128>,
        max_mean_absolute_error: Option<String>,
        max_channel_delta: Option<i128>,
        size_policy: String,
        alpha_mode: String,
        has_diff_output: bool,
    },
    DetectUiState {
        image_paths: Vec<String>,
        region: Option<Rect>,
        ignore_regions: Vec<Rect>,
        per_channel_threshold: i128,
        stable_max_changed_ratio: String,
        stable_max_changed_pixels: Option<i128>,
        stable_max_mean_absolute_error: Option<String>,
        stable_max_channel_delta: Option<i128>,
        loading_min_changed_ratio: String,
        loading_min_changed_pixels: Option<i128>,
        required_stable_transitions: i128,
        size_policy: String,
        alpha_mode: String,
    },
    DetectUiElements {
        image_path: String,
        region: Option<Rect>,
        ignore_regions: Vec<Rect>,
        edge_threshold: i128,
        min_width: i128,
        min_height: i128,
        min_component_pixels: i128,
        min_confidence: Option<String>,
        max_width: Option<i128>,
        max_height: Option<i128>,
        min_area: Option<i128>,
        max_area: Option<i128>,
        max_elements: i128,
        merge_distance: i128,
        padding: i128,
        sort: String,
        has_mask_output: bool,
        has_overlay_output: bool,
    },
    DesktopFocus {
        app: String,
        use_gnome_overview: bool,
        launch_if_needed: bool,
        wait_after_focus_ms: i128,
        overview_wait_ms: i128,
        window_title: Option<String>,
        window_id: Option<String>,
        verify: bool,
    },
    DesktopLocate {
        app: String,
        target: String,
        image_path: Option<String>,
        prefer_accessibility: bool,
        window_title: Option<String>,
        window_id: Option<String>,
    },
    DesktopClick {
        app: String,
        target: String,
        image_path: Option<String>,
        prefer_accessibility: bool,
        window_title: Option<String>,
        button: MouseButton,
        dry_run: bool,
        window_id: Option<String>,
        verify: bool,
    },
    DesktopDrag {
        app: String,
        target: String,
        image_path: Option<String>,
        prefer_accessibility: bool,
        window_title: Option<String>,
        button: MouseButton,
        from_ratio_x: String,
        from_ratio_y: String,
        to_ratio_x: String,
        to_ratio_y: String,
        duration_ms: i128,
        dry_run: bool,
        window_id: Option<String>,
        verify: bool,
    },
    DesktopTypeInto {
        app: String,
        target: String,
        text: String,
        image_path: Option<String>,
        prefer_accessibility: bool,
        window_title: Option<String>,
        clear: bool,
        dry_run: bool,
        window_id: Option<String>,
        verify: bool,
    },
    DesktopAssert {
        app: String,
        target: String,
        image_path: Option<String>,
        prefer_accessibility: bool,
        window_title: Option<String>,
        window_id: Option<String>,
        assertion: DesktopAssertionKind,
        expected_text: Option<String>,
    },
    DesktopProfiles {
        app: Option<String>,
        target: Option<String>,
        command: Option<String>,
        desktop_id: Option<String>,
        supports: Option<String>,
        check: bool,
        installed: bool,
        available: bool,
    },
}

/// The name a request is audited under.
pub open spec fn spec_request_method(request: AuditRequest) -> Seq<char> {
    match request {
        AuditRequest::Ping => "ping"@,
        AuditRequest::Capture { .. } => "capture"@,
        AuditRequest::CaptureDelta { .. } => "capture_delta"@,
        AuditRequest::CaptureBackends { .. } => "capture_backends"@,
        AuditRequest::ProbeDmaBuf { .. } => "probe_dmabuf"@,
        AuditRequest::ListPlugins { .. } => "list_plugins"@,
        AuditRequest::CallPluginTool { .. } => "call_plugin_tool"@,
        AuditRequest::Click { .. } => "click"@,
        AuditRequest::MoveMouse { .. } => "move_mouse"@,
        AuditRequest::Drag { .. } => "drag"@,
        AuditRequest::TypeText { .. } => "type_text"@,
        AuditRequest::PasteText { .. } => "paste_text"@,
        AuditRequest::Hotkey { .. } => "hotkey"@,
        AuditRequest::ListWindows { .. } => "list_windows"@,
        AuditRequest::FindElements { .. } => "find_elements"@,
        AuditRequest::Ocr { .. } => "ocr"@,
        AuditRequest::CompareImages { .. } => "compare_images"@,
        AuditRequest::DetectUiState { .. } => "detect_ui_state"@,
        AuditRequest::DetectUiElements { .. } => "detect_ui_elements"@,
        AuditRequest::DesktopFocus { .. } => "desktop_focus"@,
        AuditRequest::DesktopLocate { .. } => "desktop_locate"@,
        AuditRequest::DesktopClick { .. } => "desktop_click"@,
        AuditRequest::DesktopDrag { .. } => "desktop_drag"@,
        AuditRequest::DesktopTypeInto { .. } => "desktop_type_into"@,
        AuditRequest::DesktopAssert { .. } => "desktop_assert"@,
        AuditRequest::DesktopProfiles { .. } => "desktop_profiles"@,
    }
}

/// The fields of a request's audit record, in the order the request lists
/// them (a JSON object keeps them sorted by name).
pub open spec fn spec_audit_details(request: AuditRequest) -> Seq<(Seq<char>, AuditValueView)> {
    match request {
        AuditRequest::Ping => Seq::empty(),
        AuditRequest::Capture { output, region, window_id, app, window_title, title_regex, format, no_overwrite, include_semantic_tree } => seq![
            ("output"@, AuditValueView::Text(output@)),
            ("has_region"@, AuditValueView::Bool(region is Some)),
            ("has_window_id"@, AuditValueView::Bool(spec_has_text(window_id))),
            ("has_app"@, AuditValueView::Bool(spec_has_text(app))),
            ("has_window_title"@, AuditValueView::Bool(spec_has_text(window_title))),
            ("has_title_regex"@, AuditValueView::Bool(spec_has_text(title_regex))),
            ("format"@, spec_opt_text(format)),
            ("no_overwrite"@, AuditValueView::Bool(no_overwrite)),
            ("include_semantic_tree"@, AuditValueView::Bool(include_semantic_tree)),
        ],
        AuditRequest::CaptureDelta { stream_id, reset, region, window_id, per_channel_threshold, low_bandwidth } => seq![
            ("stream_id"@, AuditValueView::Text(spec_stream_id(text_or_empty(stream_id)))),
            ("reset"@, AuditValueView::Bool(reset)),
            ("has_region"@, AuditValueView::Bool(region is Some)),
            ("has_window_id"@, AuditValueView::Bool(spec_has_text(window_id))),
            ("per_channel_threshold"@, AuditValueView::Int(per_channel_threshold as int)),
            ("low_bandwidth"@, AuditValueView::Bool(low_bandwidth)),
        ],
        AuditRequest::CaptureBackends { output, region, diagnose, probe } => seq![
            ("output"@, AuditValueView::Text(output@)),
            ("has_region"@, AuditValueView::Bool(region is Some)),
            ("diagnose"@, AuditValueView::Bool(diagnose)),
            ("probe"@, AuditValueView::Text(spec_probe_name(probe))),
        ],
        AuditRequest::ProbeDmaBuf { import_target } => seq![
            ("import_target"@, AuditValueView::Text(spec_target_name(import_target))),
        ],
        AuditRequest::ListPlugins { paths } => seq![
            ("path_count"@, AuditValueView::Int(paths@.len() as int)),
        ],
        AuditRequest::CallPluginTool { plugin_id, tool, argument_keys, paths, timeout_ms, max_output_bytes, require_trusted, has_trust_policy } => seq![
            ("plugin_id"@, AuditValueView::Text(plugin_id@)),
            ("tool"@, AuditValueView::Text(tool@)),
            ("argument_keys"@, AuditValueView::Int(argument_keys as int)),
            ("path_count"@, AuditValueView::Int(paths@.len() as int)),
            ("timeout_ms"@, AuditValueView::Int(timeout_ms as int)),
            ("max_output_bytes"@, AuditValueView::Int(max_output_bytes as int)),
            ("require_trusted"@, AuditValueView::Bool(require_trusted)),
            ("has_trust_policy"@, AuditValueView::Bool(has_trust_policy)),
        ],
        AuditRequest::Click { x, y, button, dry_run, bounds_policy, backend, restore } => seq![
            ("x"@, AuditValueView::Int(x as int)),
            ("y"@, AuditValueView::Int(y as int)),
            ("button"@, AuditValueView::Text(spec_button_name(button))),
            ("dry_run"@, AuditValueView::Bool(dry_run)),
            ("bounds_policy"@, AuditValueView::Text(bounds_policy@)),
            ("backend"@, AuditValueView::Text(backend@)),
            ("restore"@, AuditValueView::Bool(restore)),
        ],
        AuditRequest::MoveMouse { x, y, dry_run, duration_ms, steps, bounds_policy, backend, restore } => seq![
            ("x"@, AuditValueView::Int(x as int)),
            ("y"@, AuditValueView::Int(y as int)),
            ("dry_run"@, AuditValueView::Bool(dry_run)),
            ("duration_ms"@, AuditValueView::Int(duration_ms as int)),
            ("steps"@, spec_opt_int(steps)),
            ("bounds_policy"@, AuditValueView::Text(bounds_policy@)),
            ("backend"@, AuditValueView::Text(backend@)),
            ("restore"@, AuditValueView::Bool(restore)),
        ],
        AuditRequest::Drag { from_x, from_y, to_x, to_y, button, duration_ms, steps, bounds_policy, backend, restore, dry_run } => seq![
            ("from_x"@, AuditValueView::Int(from_x as int)),
            ("from_y"@, AuditValueView::Int(from_y as int)),
            ("to_x"@, AuditValueView::Int(to_x as int)),
            ("to_y"@, AuditValueView::Int(to_y as int)),
            ("button"@, AuditValueView::Text(spec_button_name(button))),
            ("duration_ms"@, AuditValueView::Int(duration_ms as int)),
            ("steps"@, spec_opt_int(steps)),
            ("bounds_policy"@, AuditValueView::Text(bounds_policy@)),
            ("backend"@, AuditValueView::Text(backend@)),
            ("restore"@, AuditValueView::Bool(restore)),
            ("dry_run"@, AuditValueView::Bool(dry_run)),
        ],
        AuditRequest::TypeText { text, dry_run, typing_speed_chars_per_second, delay_ms, key_delay_ms, backend } => seq![
            ("text_length"@, AuditValueView::Int(text@.len() as int)),
            ("dry_run"@, AuditValueView::Bool(dry_run)),
            ("typing_speed_chars_per_second"@, spec_opt_int(typing_speed_chars_per_second)),
            ("delay_ms"@, spec_opt_int(delay_ms)),
            ("key_delay_ms"@, spec_opt_int(key_delay_ms)),
            ("backend"@, AuditValueView::Text(backend@)),
        ],
        AuditRequest::PasteText { text, preserve_clipboard, dry_run, clipboard_backend, hotkey_backend, delay_ms, restore_delay_ms, restore_policy } => seq![
            ("text_length"@, AuditValueView::Int(text@.len() as int)),
            ("preserve_clipboard"@, AuditValueView::Bool(preserve_clipboard)),
            ("dry_run"@, AuditValueView::Bool(dry_run)),
            ("clipboard_backend"@, AuditValueView::Text(clipboard_backend@)),
            ("hotkey_backend"@, AuditValueView::Text(hotkey_backend@)),
            ("delay_ms"@, spec_opt_int(delay_ms)),
            ("restore_delay_ms"@, spec_opt_int(restore_delay_ms)),
            ("restore_policy"@, AuditValueView::Text(restore_policy@)),
        ],
        AuditRequest::Hotkey { keys, dry_run, backend, delay_ms, key_delay_ms, repeat, interval_ms, release_before, release_after } => seq![
            ("key_count"@, AuditValueView::Int(keys@.len() as int)),
            ("dry_run"@, AuditValueView::Bool(dry_run)),
            ("backend"@, AuditValueView::Text(backend@)),
            ("delay_ms"@, spec_opt_int(delay_ms)),
            ("key_delay_ms"@, spec_opt_int(key_delay_ms)),
            ("repeat"@, spec_opt_int(repeat)),
            ("interval_ms"@, spec_opt_int(interval_ms)),
            ("release_before"@, AuditValueView::Bool(release_before)),
            ("release_after"@, AuditValueView::Bool(release_after)),
        ],
        AuditRequest::ListWindows { id, app, title, title_regex, focused, limit, sort, backend, diagnose } => seq![
            ("id"@, spec_opt_text(id)),
            ("app"@, spec_opt_text(app)),
            ("title"@, spec_opt_text(title)),
            ("title_regex"@, spec_opt_text(title_regex)),
            ("focused"@, AuditValueView::Bool(focused)),
            ("limit"@, spec_opt_int(limit)),
            ("sort"@, spec_opt_text(sort)),
            ("backend"@, spec_opt_text(backend)),
            ("diagnose"@, AuditValueView::Bool(diagnose)),
        ],
        AuditRequest::FindElements { selector, vision_fallback, app, window_title, window_id, vision_region, vision_edge_threshold, vision_min_width, vision_min_height, vision_min_component_pixels, vision_max_elements, vision_merge_distance } => seq![
            ("selector_length"@, AuditValueView::Int(selector@.len() as int)),
            ("vision_fallback"@, AuditValueView::Bool(vision_fallback)),
            ("has_app"@, AuditValueView::Bool(spec_has_text(app))),
            ("has_window_title"@, AuditValueView::Bool(spec_has_text(window_title))),
            ("has_window_id"@, AuditValueView::Bool(spec_has_text(window_id))),
            ("has_vision_region"@, AuditValueView::Bool(vision_region is Some)),
            ("has_vision_edge_threshold"@, AuditValueView::Bool(vision_edge_threshold is Some)),
            ("has_vision_min_width"@, AuditValueView::Bool(vision_min_width is Some)),
            ("has_vision_min_height"@, AuditValueView::Bool(vision_min_height is Some)),
            ("has_vision_min_component_pixels"@, AuditValueView::Bool(vision_min_component_pixels is Some)),
            ("has_vision_max_elements"@, AuditValueView::Bool(vision_max_elements is Some)),
            ("has_vision_merge_distance"@, AuditValueView::Bool(vision_merge_distance is Some)),
        ],
        AuditRequest::Ocr { image_path, region, app, window_title, window_id, language, has_scale, grayscale, has_threshold, invert, has_contrast, deskew } => seq![
            ("has_image_path"@, AuditValueView::Bool(spec_has_text(image_path))),
            ("has_region"@, AuditValueView::Bool(region is Some)),
            ("has_app"@, AuditValueView::Bool(spec_has_text(app))),
            ("has_window_title"@, AuditValueView::Bool(spec_has_text(window_title))),
            ("has_window_id"@, AuditValueView::Bool(spec_has_text(window_id))),
            ("has_language"@, AuditValueView::Bool(spec_has_text(language))),
            ("has_preprocessing"@, AuditValueView::Bool(has_scale || grayscale || has_threshold || invert || has_contrast || deskew)),
        ],
        AuditRequest::CompareImages { expected_path, actual_path, region, ignore_regions, per_channel_threshold, max_changed_ratio, max_changed_pixels, max_mean_absolute_error, max_channel_delta, size_policy, alpha_mode, has_diff_output } => seq![
            ("expected_path"@, AuditValueView::Text(expected_path@)),
            ("actual_path"@, AuditValueView::Text(actual_path@)),
            ("has_region"@, AuditValueView::Bool(region is Some)),
            ("ignore_region_count"@, AuditValueView::Int(ignore_regions@.len() as int)),
            ("per_channel_threshold"@, AuditValueView::Int(per_channel_threshold as int)),
            ("max_changed_ratio"@, AuditValueView::Number(max_changed_ratio@)),
            ("max_changed_pixels"@, spec_opt_int(max_changed_pixels)),
            ("max_mean_absolute_error"@, spec_opt_number(max_mean_absolute_error)),
            ("max_channel_delta"@, spec_opt_int(max_channel_delta)),
            ("size_policy"@, AuditValueView::Text(size_policy@)),
            ("alpha_mode"@, AuditValueView::Text(alpha_mode@)),
            ("has_diff_output"@, AuditValueView::Bool(has_diff_output)),
        ],
        AuditRequest::DetectUiState { image_paths, region, ignore_regions, per_channel_threshold, stable_max_changed_ratio, stable_max_changed_pixels, stable_max_mean_absolute_error, stable_max_channel_delta, loading_min_changed_ratio, loading_min_changed_pixels, required_stable_transitions, size_policy, alpha_mode } => seq![
            ("image_paths"@, AuditValueView::Texts(texts(image_paths@))),
            ("image_count"@, AuditValueView::Int(image_paths@.len() as int)),
            ("has_region"@, AuditValueView::Bool(region is Some)),
            ("ignore_region_count"@, AuditValueView::Int(ignore_regions@.len() as int)),
            ("per_channel_threshold"@, AuditValueView::Int(per_channel_threshold as int)),
            ("stable_max_changed_ratio"@, AuditValueView::Number(stable_max_changed_ratio@)),
            ("stable_max_changed_pixels"@, spec_opt_int(stable_max_changed_pixels)),
            ("stable_max_mean_absolute_error"@, spec_opt_number(stable_max_mean_absolute_error)),
            ("stable_max_channel_delta"@, spec_opt_int(stable_max_channel_delta)),
            ("loading_min_changed_ratio"@, AuditValueView::Number(loading_min_changed_ratio@)),
            ("loading_min_changed_pixels"@, spec_opt_int(loading_min_changed_pixels)),
            ("required_stable_transitions"@, AuditValueView::Int(required_stable_transitions as int)),
            ("size_policy"@, AuditValueView::Text(size_policy@)),
            ("alpha_mode"@, AuditValueView::Text(alpha_mode@)),
        ],
        AuditRequest::DetectUiElements { image_path, region, ignore_regions, edge_threshold, min_width, min_height, min_component_pixels, min_confidence, max_width, max_height, min_area, max_area, max_elements, merge_distance, padding, sort, has_mask_output, has_overlay_output } => seq![
            ("image_path"@, AuditValueView::Text(image_path@)),
            ("has_region"@, AuditValueView::Bool(region is Some)),
            ("ignore_region_count"@, AuditValueView::Int(ignore_regions@.len() as int)),
            ("edge_threshold"@, AuditValueView::Int(edge_threshold as int)),
            ("min_width"@, AuditValueView::Int(min_width as int)),
            ("min_height"@, AuditValueView::Int(min_height as int)),
            ("min_component_pixels"@, AuditValueView::Int(min_component_pixels as int)),
            ("min_confidence"@, spec_opt_number(min_confidence)),
            ("max_width"@, spec_opt_int(max_width)),
            ("max_height"@, spec_opt_int(max_height)),
            ("min_area"@, spec_opt_int(min_area)),
            ("max_area"@, spec_opt_int(max_area)),
            ("max_elements"@, AuditValueView::Int(max_elements as int)),
            ("merge_distance"@, AuditValueView::Int(merge_distance as int)),
            ("padding"@, AuditValueView::Int(padding as int)),
            ("sort"@, AuditValueView::Text(sort@)),
            ("has_mask_output"@, AuditValueView::Bool(has_mask_output)),
            ("has_overlay_output"@, AuditValueView::Bool(has_overlay_output)),
        ],
        AuditRequest::DesktopFocus { app, use_gnome_overview, launch_if_needed, wait_after_focus_ms, overview_wait_ms, window_title, window_id, verify } => seq![
            ("app"@, AuditValueView::Text(app@)),
            ("use_gnome_overview"@, AuditValueView::Bool(use_gnome_overview)),
            ("launch_if_needed"@, AuditValueView::Bool(launch_if_needed)),
            ("wait_after_focus_ms"@, AuditValueView::Int(wait_after_focus_ms as int)),
            ("overview_wait_ms"@, AuditValueView::Int(overview_wait_ms as int)),
            ("has_window_title"@, AuditValueView::Bool(spec_has_text(window_title))),
            ("has_window_id"@, AuditValueView::Bool(spec_has_text(window_id))),
            ("verify"@, AuditValueView::Bool(verify)),
        ],
        AuditRequest::DesktopLocate { app, target, image_path, prefer_accessibility, window_title, window_id } => seq![
            ("app"@, AuditValueView::Text(app@)),
            ("target"@, AuditValueView::Text(target@)),
            ("has_image_path"@, AuditValueView::Bool(spec_has_text(image_path))),
            ("prefer_accessibility"@, AuditValueView::Bool(prefer_accessibility)),
            ("has_window_title"@, AuditValueView::Bool(spec_has_text(window_title))),
            ("has_window_id"@, AuditValueView::Bool(spec_has_text(window_id))),
        ],
        AuditRequest::DesktopClick { app, target, image_path, prefer_accessibility, window_title, button, dry_run, window_id, verify } => seq![
            ("app"@, AuditValueView::Text(app@)),
            ("target"@, AuditValueView::Text(target@)),
            ("has_image_path"@, AuditValueView::Bool(spec_has_text(image_path))),
            ("prefer_accessibility"@, AuditValueView::Bool(prefer_accessibility)),
            ("has_window_title"@, AuditValueView::Bool(spec_has_text(window_title))),
            ("has_window_id"@, AuditValueView::Bool(spec_has_text(window_id))),
            ("button"@, AuditValueView::Text(spec_button_name(button))),
            ("dry_run"@, AuditValueView::Bool(dry_run)),
            ("verify"@, AuditValueView::Bool(verify)),
        ],
        AuditRequest::DesktopDrag { app, target, image_path, prefer_accessibility, window_title, button, from_ratio_x, from_ratio_y, to_ratio_x, to_ratio_y, duration_ms, dry_run, window_id, verify } => seq![
            ("app"@, AuditValueView::Text(app@)),
            ("target"@, AuditValueView::Text(target@)),
            ("has_image_path"@, AuditValueView::Bool(spec_has_text(image_path))),
            ("prefer_accessibility"@, AuditValueView::Bool(prefer_accessibility)),
            ("has_window_title"@, AuditValueView::Bool(spec_has_text(window_title))),
            ("has_window_id"@, AuditValueView::Bool(spec_has_text(window_id))),
            ("button"@, AuditValueView::Text(spec_button_name(button))),
            ("from_ratio_x"@, AuditValueView::Number(from_ratio_x@)),
            ("from_ratio_y"@, AuditValueView::Number(from_ratio_y@)),
            ("to_ratio_x"@, AuditValueView::Number(to_ratio_x@)),
            ("to_ratio_y"@, AuditValueView::Number(to_ratio_y@)),
            ("duration_ms"@, AuditValueView::Int(duration_ms as int)),
            ("dry_run"@, AuditValueView::Bool(dry_run)),
            ("verify"@, AuditValueView::Bool(verify)),
        ],
        AuditRequest::DesktopTypeInto { app, target, text, image_path, prefer_accessibility, window_title, clear, dry_run, window_id, verify } => seq![
            ("app"@, AuditValueView::Text(app@)),
            ("target"@, AuditValueView::Text(target@)),
            ("text_length"@, AuditValueView::Int(text@.len() as int)),
            ("has_image_path"@, AuditValueView::Bool(spec_has_text(image_path))),
            ("prefer_accessibility"@, AuditValueView::Bool(prefer_accessibility)),
            ("has_window_title"@, AuditValueView::Bool(spec_has_text(window_title))),
            ("has_window_id"@, AuditValueView::Bool(spec_has_text(window_id))),
            ("clear"@, AuditValueView::Bool(clear)),
            ("dry_run"@, AuditValueView::Bool(dry_run)),
            ("verify"@, AuditValueView::Bool(verify)),
        ],
        AuditRequest::DesktopAssert { app, target, image_path, prefer_accessibility, window_title, window_id, assertion, expected_text } => seq![
            ("app"@, AuditValueView::Text(app@)),
            ("target"@, AuditValueView::Text(target@)),
            ("has_image_path"@, AuditValueView::Bool(spec_has_text(image_path))),
            ("prefer_accessibility"@, AuditValueView::Bool(prefer_accessibility)),
            ("has_window_title"@, AuditValueView::Bool(spec_has_text(window_title))),
            ("has_window_id"@, AuditValueView::Bool(spec_has_text(window_id))),
            ("assertion"@, AuditValueView::Text(spec_assertion_name(assertion))),
            ("has_expected_text"@, AuditValueView::Bool(spec_has_text(expected_text))),
        ],
        AuditRequest::DesktopProfiles { app, target, command, desktop_id, supports, check, installed, available } => seq![
            ("app"@, spec_opt_text(app)),
            ("target"@, spec_opt_text(target)),
            ("command"@, spec_opt_text(command)),
            ("desktop_id"@, spec_opt_text(desktop_id)),
            ("supports"@, spec_opt_text(supports)),
            ("check"@, AuditValueView::Bool(check)),
            ("installed"@, AuditValueView::Bool(installed)),
            ("available"@, AuditValueView::Bool(available)),
        ],
    }
}

/// The request with its typed, pasted or entered text replaced by `text`;
/// a request without such a text is left as it is.
pub open spec fn with_text(request: AuditRequest, text: String) -> AuditRequest {
    match request {
        AuditRequest::TypeText { dry_run, typing_speed_chars_per_second, delay_ms, key_delay_ms, backend, .. } => AuditRequest::TypeText { text, dry_run, typing_speed_chars_per_second, delay_ms, key_delay_ms, backend },
        AuditRequest::PasteText { preserve_clipboard, dry_run, clipboard_backend, hotkey_backend, delay_ms, restore_delay_ms, restore_policy, .. } => AuditRequest::PasteText { text, preserve_clipboard, dry_run, clipboard_backend, hotkey_backend, delay_ms, restore_delay_ms, restore_policy },
        AuditRequest::DesktopTypeInto { app, target, image_path, prefer_accessibility, window_title, clear, dry_run, window_id, verify, .. } => AuditRequest::DesktopTypeInto { app, target, text, image_path, prefer_accessibility, window_title, clear, dry_run, window_id, verify },
        _ => request,
    }
}

/// The typed, pasted or entered text a request carries, if any.
pub open spec fn request_text(request: AuditRequest) -> Option<String> {
    match request {
        AuditRequest::TypeText { text, .. } => Some(text),
        AuditRequest::PasteText { text, .. } => Some(text),
        AuditRequest::DesktopTypeInto { text, .. } => Some(text),
        _ => None,
    }
}
impl AuditRequest {
    /// The name the request is audited under (see [`spec_request_method`]).
    pub fn method(&self) -> (m: &'static str)
        ensures
            m@ == spec_request_method(*self),
    {
        match self {
            AuditRequest::Ping => "ping",
            AuditRequest::Capture { .. } => "capture",
            AuditRequest::CaptureDelta { .. } => "capture_delta",
            AuditRequest::CaptureBackends { .. } => "capture_backends",
            AuditRequest::ProbeDmaBuf { .. } => "probe_dmabuf",
            AuditRequest::ListPlugins { .. } => "list_plugins",
            AuditRequest::CallPluginTool { .. } => "call_plugin_tool",
            AuditRequest::Click { .. } => "click",
            AuditRequest::MoveMouse { .. } => "move_mouse",
            AuditRequest::Drag { .. } => "drag",
            AuditRequest::TypeText { .. } => "type_text",
            AuditRequest::PasteText { .. } => "paste_text",
            AuditRequest::Hotkey { .. } => "hotkey",
            AuditRequest::ListWindows { .. } => "list_windows",
            AuditRequest::FindElements { .. } => "find_elements",
            AuditRequest::Ocr { .. } => "ocr",
            AuditRequest::CompareImages { .. } => "compare_images",
            AuditRequest::DetectUiState { .. } => "detect_ui_state",
            AuditRequest::DetectUiElements { .. } => "detect_ui_elements",
            AuditRequest::DesktopFocus { .. } => "desktop_focus",
            AuditRequest::DesktopLocate { .. } => "desktop_locate",
            AuditRequest::DesktopClick { .. } => "desktop_click",
            AuditRequest::DesktopDrag { .. } => "desktop_drag",
            AuditRequest::DesktopTypeInto { .. } => "desktop_type_into",
            AuditRequest::DesktopAssert { .. } => "desktop_assert",
            AuditRequest::DesktopProfiles { .. } => "desktop_profiles",
        }
    }
}

fn details_capture(request: &AuditRequest) -> (r: Vec<(String, AuditValue)>)
    requires
        request is Capture,
    ensures
        fields_view(r@) == spec_audit_details(*request),
{
    let mut out: Vec<(String, AuditValue)> = Vec::new();
    match request {
        AuditRequest::Capture { output, region, window_id, app, window_title, title_regex, format, no_overwrite, include_semantic_tree } => {
            push_field(&mut out, "output", AuditValue::Text(output.clone()));
            push_field(&mut out, "has_region", AuditValue::Bool(region.is_some()));
            push_field(&mut out, "has_window_id", AuditValue::Bool(has_text(window_id)));
            push_field(&mut out, "has_app", AuditValue::Bool(has_text(app)));
            push_field(&mut out, "has_window_title", AuditValue::Bool(has_text(window_title)));
            push_field(&mut out, "has_title_regex", AuditValue::Bool(has_text(title_regex)));
            push_field(&mut out, "format", opt_text_value(format));
            push_field(&mut out, "no_overwrite", AuditValue::Bool(*no_overwrite));
            push_field(&mut out, "include_semantic_tree", AuditValue::Bool(*include_semantic_tree));
        },
        _ => {},
    }
    proof {
        assert(fields_view(out@) =~= spec_audit_details(*request));
    }
    out
}

fn details_capture_delta(request: &AuditRequest) -> (r: Vec<(String, AuditValue)>)
    requires
        request is CaptureDelta,
    ensures
        fields_view(r@) == spec_audit_details(*request),
{
    let mut out: Vec<(String, AuditValue)> = Vec::new();
    match request {
        AuditRequest::CaptureDelta { stream_id, reset, region, window_id, per_channel_threshold, low_bandwidth } => {
            push_field(&mut out, "stream_id", AuditValue::Text(stream_id_text(stream_id)));
            push_field(&mut out, "reset", AuditValue::Bool(*reset));
            push_field(&mut out, "has_region", AuditValue::Bool(region.is_some()));
            push_field(&mut out, "has_window_id", AuditValue::Bool(has_text(window_id)));
            push_field(&mut out, "per_channel_threshold", AuditValue::Int(*per_channel_threshold));
            push_field(&mut out, "low_bandwidth", AuditValue::Bool(*low_bandwidth));
        },
        _ => {},
    }
    proof {
        assert(fields_view(out@) =~= spec_audit_details(*request));
    }
    out
}

fn details_capture_backends(request: &AuditRequest) -> (r: Vec<(String, AuditValue)>)
    requires
        request is CaptureBackends,
    ensures
        fields_view(r@) == spec_audit_details(*request),
{
    let mut out: Vec<(String, AuditValue)> = Vec::new();
    match request {
        AuditRequest::CaptureBackends { output, region, diagnose, probe } => {
            push_field(&mut out, "output", AuditValue::Text(output.clone()));
            push_field(&mut out, "has_region", AuditValue::Bool(region.is_some()));
            push_field(&mut out, "diagnose", AuditValue::Bool(*diagnose));
            push_field(&mut out, "probe", AuditValue::Text(String::from_str(capture_backend_probe_name(*probe))));
        },
        _ => {},
    }
    proof {
        assert(fields_view(out@) =~= spec_audit_details(*request));
    }
    out
}

fn details_probe_dmabuf(request: &AuditRequest) -> (r: Vec<(String, AuditValue)>)
    requires
        request is ProbeDmaBuf,
    ensures
        fields_view(r@) == spec_audit_details(*request),
{
    let mut out: Vec<(String, AuditValue)> = Vec::new();
    match request {
        AuditRequest::ProbeDmaBuf { import_target } => {
            push_field(&mut out, "import_target", AuditValue::Text(String::from_str(import_target.name())));
        },
        _ => {},
    }
    proof {
        assert(fields_view(out@) =~= spec_audit_details(*request));
    }
    out
}

fn details_list_plugins(request: &AuditRequest) -> (r: Vec<(String, AuditValue)>)
    requires
        request is ListPlugins,
    ensures
        fields_view(r@) == spec_audit_details(*request),
{
    let mut out: Vec<(String, AuditValue)> = Vec::new();
    match request {
        AuditRequest::ListPlugins { paths } => {
            push_field(&mut out, "path_count", AuditValue::Int(paths.len() as i128));
        },
        _ => {},
    }
    proof {
        assert(fields_view(out@) =~= spec_audit_details(*request));
    }
    out
}

fn details_call_plugin_tool(request: &AuditRequest) -> (r: Vec<(String, AuditValue)>)
    requires
        request is CallPluginTool,
    ensures
        fields_view(r@) == spec_audit_details(*request),
{
    let mut out: Vec<(String, AuditValue)> = Vec::new();
    match request {
        AuditRequest::CallPluginTool { plugin_id, tool, argument_keys, paths, timeout_ms, max_output_bytes, require_trusted, has_trust_policy } => {
            push_field(&mut out, "plugin_id", AuditValue::Text(plugin_id.clone()));
            push_field(&mut out, "tool", AuditValue::Text(tool.clone()));
            push_field(&mut out, "argument_keys", AuditValue::Int(*argument_keys as i128));
            push_field(&mut out, "path_count", AuditValue::Int(paths.len() as i128));
            push_field(&mut out, "timeout_ms", AuditValue::Int(*timeout_ms));
            push_field(&mut out, "max_output_bytes", AuditValue::Int(*max_output_bytes));
            push_field(&mut out, "require_trusted", AuditValue::Bool(*require_trusted));
            push_field(&mut out, "has_trust_policy", AuditValue::Bool(*has_trust_policy));
        },
        _ => {},
    }
    proof {
        assert(fields_view(out@) =~= spec_audit_details(*request));
    }
    out
}

fn details_click(request: &AuditRequest) -> (r: Vec<(String, AuditValue)>)
    requires
        request is Click,
    ensures
        fields_view(r@) == spec_audit_details(*request),
{
    let mut out: Vec<(String, AuditValue)> = Vec::new();
    match request {
        AuditRequest::Click { x, y, button, dry_run, bounds_policy, backend, restore } => {
            push_field(&mut out, "x", AuditValue::Int(*x));
            push_field(&mut out, "y", AuditValue::Int(*y));
            push_field(&mut out, "button", AuditValue::Text(String::from_str(button.name())));
            push_field(&mut out, "dry_run", AuditValue::Bool(*dry_run));
            push_field(&mut out, "bounds_policy", AuditValue::Text(bounds_policy.clone()));
            push_field(&mut out, "backend", AuditValue::Text(backend.clone()));
            push_field(&mut out, "restore", AuditValue::Bool(*restore));
        },
        _ => {},
    }
    proof {
        assert(fields_view(out@) =~= spec_audit_details(*request));
    }
    out
}

fn details_move_mouse(request: &AuditRequest) -> (r: Vec<(String, AuditValue)>)
    requires
        request is MoveMouse,
    ensures
        fields_view(r@) == spec_audit_details(*request),
{
    let mut out: Vec<(String, AuditValue)> = Vec::new();
    match request {
        AuditRequest::MoveMouse { x, y, dry_run, duration_ms, steps, bounds_policy, backend, restore } => {
            push_field(&mut out, "x", AuditValue::Int(*x));
            push_field(&mut out, "y", AuditValue::Int(*y));
            push_field(&mut out, "dry_run", AuditValue::Bool(*dry_run));
            push_field(&mut out, "duration_ms", AuditValue::Int(*duration_ms));
            push_field(&mut out, "steps", opt_int(*steps));
            push_field(&mut out, "bounds_policy", AuditValue::Text(bounds_policy.clone()));
            push_field(&mut out, "backend", AuditValue::Text(backend.clone()));
            push_field(&mut out, "restore", AuditValue::Bool(*restore));
        },
        _ => {},
    }
    proof {
        assert(fields_view(out@) =~= spec_audit_details(*request));
    }
    out
}

fn details_drag(request: &AuditRequest) -> (r: Vec<(String, AuditValue)>)
    requires
        request is Drag,
    ensures
        fields_view(r@) == spec_audit_details(*request),
{
    let mut out: Vec<(String, AuditValue)> = Vec::new();
    match request {
        AuditRequest::Drag { from_x, from_y, to_x, to_y, button, duration_ms, steps, bounds_policy, backend, restore, dry_run } => {
            push_field(&mut out, "from_x", AuditValue::Int(*from_x));
            push_field(&mut out, "from_y", AuditValue::Int(*from_y));
            push_field(&mut out, "to_x", AuditValue::Int(*to_x));
            push_field(&mut out, "to_y", AuditValue::Int(*to_y));
            push_field(&mut out, "button", AuditValue::Text(String::from_str(button.name())));
            push_field(&mut out, "duration_ms", AuditValue::Int(*duration_ms));
            push_field(&mut out, "steps", opt_int(*steps));
            push_field(&mut out, "bounds_policy", AuditValue::Text(bounds_policy.clone()));
            push_field(&mut out, "backend", AuditValue::Text(backend.clone()));
            push_field(&mut out, "restore", AuditValue::Bool(*restore));
            push_field(&mut out, "dry_run", AuditValue::Bool(*dry_run));
        },
        _ => {},
    }
    proof {
        assert(fields_view(out@) =~= spec_audit_details(*request));
    }
    out
}

fn details_type_text(request: &AuditRequest) -> (r: Vec<(String, AuditValue)>)
    requires
        request is TypeText,
    ensures
        fields_view(r@) == spec_audit_details(*request),
{
    let mut out: Vec<(String, AuditValue)> = Vec::new();
    match request {
        AuditRequest::TypeText { text, dry_run, typing_speed_chars_per_second, delay_ms, key_delay_ms, backend } => {
            push_field(&mut out, "text_length", AuditValue::Int(char_count(text)));
            push_field(&mut out, "dry_run", AuditValue::Bool(*dry_run));
            push_field(&mut out, "typing_speed_chars_per_second", opt_int(*typing_speed_chars_per_second));
            push_field(&mut out, "delay_ms", opt_int(*delay_ms));
            push_field(&mut out, "key_delay_ms", opt_int(*key_delay_ms));
            push_field(&mut out, "backend", AuditValue::Text(backend.clone()));
        },
        _ => {},
    }
    proof {
        assert(fields_view(out@) =~= spec_audit_details(*request));
    }
    out
}

fn details_paste_text(request: &AuditRequest) -> (r: Vec<(String, AuditValue)>)
    requires
        request is PasteText,
    ensures
        fields_view(r@) == spec_audit_details(*request),
{
    let mut out: Vec<(String, AuditValue)> = Vec::new();
    match request {
        AuditRequest::PasteText { text, preserve_clipboard, dry_run, clipboard_backend, hotkey_backend, delay_ms, restore_delay_ms, restore_policy } => {
            push_field(&mut out, "text_length", AuditValue::Int(char_count(text)));
            push_field(&mut out, "preserve_clipboard", AuditValue::Bool(*preserve_clipboard));
            push_field(&mut out, "dry_run", AuditValue::Bool(*dry_run));
            push_field(&mut out, "clipboard_backend", AuditValue::Text(clipboard_backend.clone()));
            push_field(&mut out, "hotkey_backend", AuditValue::Text(hotkey_backend.clone()));
            push_field(&mut out, "delay_ms", opt_int(*delay_ms));
            push_field(&mut out, "restore_delay_ms", opt_int(*restore_delay_ms));
            push_field(&mut out, "restore_policy", AuditValue::Text(restore_policy.clone()));
        },
        _ => {},
    }
    proof {
        assert(fields_view(out@) =~= spec_audit_details(*request));
    }
    out
}

fn details_hotkey(request: &AuditRequest) -> (r: Vec<(String, AuditValue)>)
    requires
        request is Hotkey,
    ensures
        fields_view(r@) == spec_audit_details(*request),
{
    let mut out: Vec<(String, AuditValue)> = Vec::new();
    match request {
        AuditRequest::Hotkey { keys, dry_run, backend, delay_ms, key_delay_ms, repeat, interval_ms, release_before, release_after } => {
            push_field(&mut out, "key_count", AuditValue::Int(keys.len() as i128));
            push_field(&mut out, "dry_run", AuditValue::Bool(*dry_run));
            push_field(&mut out, "backend", AuditValue::Text(backend.clone()));
            push_field(&mut out, "delay_ms", opt_int(*delay_ms));
            push_field(&mut out, "key_delay_ms", opt_int(*key_delay_ms));
            push_field(&mut out, "repeat", opt_int(*repeat));
            push_field(&mut out, "interval_ms", opt_int(*interval_ms));
            push_field(&mut out, "release_before", AuditValue::Bool(*release_before));
            push_field(&mut out, "release_after", AuditValue::Bool(*release_after));
        },
        _ => {},
    }
    proof {
        assert(fields_view(out@) =~= spec_audit_details(*request));
    }
    out
}

fn details_list_windows(request: &AuditRequest) -> (r: Vec<(String, AuditValue)>)
    requires
        request is ListWindows,
    ensures
        fields_view(r@) == spec_audit_details(*request),
{
    let mut out: Vec<(String, AuditValue)> = Vec::new();
    match request {
        AuditRequest::ListWindows { id, app, title, title_regex, focused, limit, sort, backend, diagnose } => {
            push_field(&mut out, "id", opt_text_value(id));
            push_field(&mut out, "app", opt_text_value(app));
            push_field(&mut out, "title", opt_text_value(title));
            push_field(&mut out, "title_regex", opt_text_value(title_regex));
            push_field(&mut out, "focused", AuditValue::Bool(*focused));
            push_field(&mut out, "limit", opt_int(*limit));
            push_field(&mut out, "sort", opt_text_value(sort));
            push_field(&mut out, "backend", opt_text_value(backend));
            push_field(&mut out, "diagnose", AuditValue::Bool(*diagnose));
        },
        _ => {},
    }
    proof {
        assert(fields_view(out@) =~= spec_audit_details(*request));
    }
    out
}

#[verifier::rlimit(40)]
fn details_find_elements(request: &AuditRequest) -> (r: Vec<(String, AuditValue)>)
    requires
        request is FindElements,
    ensures
        fields_view(r@) == spec_audit_details(*request),
{
    let mut out: Vec<(String, AuditValue)> = Vec::new();
    match request {
        AuditRequest::FindElements { selector, vision_fallback, app, window_title, window_id, vision_region, vision_edge_threshold, vision_min_width, vision_min_height, vision_min_component_pixels, vision_max_elements, vision_merge_distance } => {
            push_field(&mut out, "selector_length", AuditValue::Int(char_count(selector)));
            push_field(&mut out, "vision_fallback", AuditValue::Bool(*vision_fallback));
            push_field(&mut out, "has_app", AuditValue::Bool(has_text(app)));
            push_field(&mut out, "has_window_title", AuditValue::Bool(has_text(window_title)));
            push_field(&mut out, "has_window_id", AuditValue::Bool(has_text(window_id)));
            push_field(&mut out, "has_vision_region", AuditValue::Bool(vision_region.is_some()));
            push_field(&mut out, "has_vision_edge_threshold", AuditValue::Bool(vision_edge_threshold.is_some()));
            push_field(&mut out, "has_vision_min_width", AuditValue::Bool(vision_min_width.is_some()));
            push_field(&mut out, "has_vision_min_height", AuditValue::Bool(vision_min_height.is_some()));
            push_field(&mut out, "has_vision_min_component_pixels", AuditValue::Bool(vision_min_component_pixels.is_some()));
            push_field(&mut out, "has_vision_max_elements", AuditValue::Bool(vision_max_elements.is_some()));
            push_field(&mut out, "has_vision_merge_distance", AuditValue::Bool(vision_merge_distance.is_some()));
        },
        _ => {},
    }
    proof {
        assert(fields_view(out@) =~= spec_audit_details(*request));
    }
    out
}

fn details_ocr(request: &AuditRequest) -> (r: Vec<(String, AuditValue)>)
    requires
        request is Ocr,
    ensures
        fields_view(r@) == spec_audit_details(*request),
{
    let mut out: Vec<(String, AuditValue)> = Vec::new();
    match request {
        AuditRequest::Ocr { image_path, region, app, window_title, window_id, language, has_scale, grayscale, has_threshold, invert, has_contrast, deskew } => {
            push_field(&mut out, "has_image_path", AuditValue::Bool(has_text(image_path)));
            push_field(&mut out, "has_region", AuditValue::Bool(region.is_some()));
            push_field(&mut out, "has_app", AuditValue::Bool(has_text(app)));
            push_field(&mut out, "has_window_title", AuditValue::Bool(has_text(window_title)));
            push_field(&mut out, "has_window_id", AuditValue::Bool(has_text(window_id)));
            push_field(&mut out, "has_language", AuditValue::Bool(has_text(language)));
            push_field(&mut out, "has_preprocessing", AuditValue::Bool(*has_scale || *grayscale || *has_threshold || *invert || *has_contrast || *deskew));
        },
        _ => {},
    }
    proof {
        assert(fields_view(out@) =~= spec_audit_details(*request));
    }
    out
}

fn details_compare_images(request: &AuditRequest) -> (r: Vec<(String, AuditValue)>)
    requires
        request is CompareImages,
    ensures
        fields_view(r@) == spec_audit_details(*request),
{
    let mut out: Vec<(String, AuditValue)> = Vec::new();
    match request {
        AuditRequest::CompareImages { expected_path, actual_path, region, ignore_regions, per_channel_threshold, max_changed_ratio, max_changed_pixels, max_mean_absolute_error, max_channel_delta, size_policy, alpha_mode, has_diff_output } => {
            push_field(&mut out, "expected_path", AuditValue::Text(expected_path.clone()));
            push_field(&mut out, "actual_path", AuditValue::Text(actual_path.clone()));
            push_field(&mut out, "has_region", AuditValue::Bool(region.is_some()));
            push_field(&mut out, "ignore_region_count", AuditValue::Int(ignore_regions.len() as i128));
            push_field(&mut out, "per_channel_threshold", AuditValue::Int(*per_channel_threshold));
            push_field(&mut out, "max_changed_ratio", AuditValue::Number(max_changed_ratio.clone()));
            push_field(&mut out, "max_changed_pixels", opt_int(*max_changed_pixels));
            push_field(&mut out, "max_mean_absolute_error", opt_number(max_mean_absolute_error));
            push_field(&mut out, "max_channel_delta", opt_int(*max_channel_delta));
            push_field(&mut out, "size_policy", AuditValue::Text(size_policy.clone()));
            push_field(&mut out, "alpha_mode", AuditValue::Text(alpha_mode.clone()));
            push_field(&mut out, "has_diff_output", AuditValue::Bool(*has_diff_output));
        },
        _ => {},
    }
    proof {
        assert(fields_view(out@) =~= spec_audit_details(*request));
    }
    out
}

fn details_detect_ui_state(request: &AuditRequest) -> (r: Vec<(String, AuditValue)>)
    requires
        request is DetectUiState,
    ensures
        fields_view(r@) == spec_audit_details(*request),
{
    let mut out: Vec<(String, AuditValue)> = Vec::new();
    match request {
        AuditRequest::DetectUiState { image_paths, region, ignore_regions, per_channel_threshold, stable_max_changed_ratio, stable_max_changed_pixels, stable_max_mean_absolute_error, stable_max_channel_delta, loading_min_changed_ratio, loading_min_changed_pixels, required_stable_transitions, size_policy, alpha_mode } => {
            push_field(&mut out, "image_paths", AuditValue::Texts(copy_texts(image_paths)));
            push_field(&mut out, "image_count", AuditValue::Int(image_paths.len() as i128));
            push_field(&mut out, "has_region", AuditValue::Bool(region.is_some()));
            push_field(&mut out, "ignore_region_count", AuditValue::Int(ignore_regions.len() as i128));
            push_field(&mut out, "per_channel_threshold", AuditValue::Int(*per_channel_threshold));
            push_field(&mut out, "stable_max_changed_ratio", AuditValue::Number(stable_max_changed_ratio.clone()));
            push_field(&mut out, "stable_max_changed_pixels", opt_int(*stable_max_changed_pixels));
            push_field(&mut out, "stable_max_mean_absolute_error", opt_number(stable_max_mean_absolute_error));
            push_field(&mut out, "stable_max_channel_delta", opt_int(*stable_max_channel_delta));
            push_field(&mut out, "loading_min_changed_ratio", AuditValue::Number(loading_min_changed_ratio.clone()));
            push_field(&mut out, "loading_min_changed_pixels", opt_int(*loading_min_changed_pixels));
            push_field(&mut out, "required_stable_transitions", AuditValue::Int(*required_stable_transitions));
            push_field(&mut out, "size_policy", AuditValue::Text(size_policy.clone()));
            push_field(&mut out, "alpha_mode", AuditValue::Text(alpha_mode.clone()));
        },
        _ => {},
    }
    proof {
        assert(fields_view(out@) =~= spec_audit_details(*request));
    }
    out
}

fn details_detect_ui_elements(request: &AuditRequest) -> (r: Vec<(String, AuditValue)>)
    requires
        request is DetectUiElements,
    ensures
        fields_view(r@) == spec_audit_details(*request),
{
    let mut out: Vec<(String, AuditValue)> = Vec::new();
    match request {
        AuditRequest::DetectUiElements { image_path, region, ignore_regions, edge_threshold, min_width, min_height, min_component_pixels, min_confidence, max_width, max_height, min_area, max_area, max_elements, merge_distance, padding, sort, has_mask_output, has_overlay_output } => {
            push_field(&mut out, "image_path", AuditValue::Text(image_path.clone()));
            push_field(&mut out, "has_region", AuditValue::Bool(region.is_some()));
            push_field(&mut out, "ignore_region_count", AuditValue::Int(ignore_regions.len() as i128));
            push_field(&mut out, "edge_threshold", AuditValue::Int(*edge_threshold));
            push_field(&mut out, "min_width", AuditValue::Int(*min_width));
            push_field(&mut out, "min_height", AuditValue::Int(*min_height));
            push_field(&mut out, "min_component_pixels", AuditValue::Int(*min_component_pixels));
            push_field(&mut out, "min_confidence", opt_number(min_confidence));
            push_field(&mut out, "max_width", opt_int(*max_width));
            push_field(&mut out, "max_height", opt_int(*max_height));
            push_field(&mut out, "min_area", opt_int(*min_area));
            push_field(&mut out, "max_area", opt_int(*max_area));
            push_field(&mut out, "max_elements", AuditValue::Int(*max_elements));
            push_field(&mut out, "merge_distance", AuditValue::Int(*merge_distance));
            push_field(&mut out, "padding", AuditValue::Int(*padding));
            push_field(&mut out, "sort", AuditValue::Text(sort.clone()));
            push_field(&mut out, "has_mask_output", AuditValue::Bool(*has_mask_output));
            push_field(&mut out, "has_overlay_output", AuditValue::Bool(*has_overlay_output));
        },
        _ => {},
    }
    proof {
        assert(fields_view(out@) =~= spec_audit_details(*request));
    }
    out
}

fn details_desktop_focus(request: &AuditRequest) -> (r: Vec<(String, AuditValue)>)
    requires
        request is DesktopFocus,
    ensures
        fields_view(r@) == spec_audit_details(*request),
{
    let mut out: Vec<(String, AuditValue)> = Vec::new();
    match request {
        AuditRequest::DesktopFocus { app, use_gnome_overview, launch_if_needed, wait_after_focus_ms, overview_wait_ms, window_title, window_id, verify } => {
            push_field(&mut out, "app", AuditValue::Text(app.clone()));
            push_field(&mut out, "use_gnome_overview", AuditValue::Bool(*use_gnome_overview));
            push_field(&mut out, "launch_if_needed", AuditValue::Bool(*launch_if_needed));
            push_field(&mut out, "wait_after_focus_ms", AuditValue::Int(*wait_after_focus_ms));
            push_field(&mut out, "overview_wait_ms", AuditValue::Int(*overview_wait_ms));
            push_field(&mut out, "has_window_title", AuditValue::Bool(has_text(window_title)));
            push_field(&mut out, "has_window_id", AuditValue::Bool(has_text(window_id)));
            push_field(&mut out, "verify", AuditValue::Bool(*verify));
        },
        _ => {},
    }
    proof {
        assert(fields_view(out@) =~= spec_audit_details(*request));
    }
    out
}

fn details_desktop_locate(request: &AuditRequest) -> (r: Vec<(String, AuditValue)>)
    requires
        request is DesktopLocate,
    ensures
        fields_view(r@) == spec_audit_details(*request),
{
    let mut out: Vec<(String, AuditValue)> = Vec::new();
    match request {
        AuditRequest::DesktopLocate { app, target, image_path, prefer_accessibility, window_title, window_id } => {
            push_field(&mut out, "app", AuditValue::Text(app.clone()));
            push_field(&mut out, "target", AuditValue::Text(target.clone()));
            push_field(&mut out, "has_image_path", AuditValue::Bool(has_text(image_path)));
            push_field(&mut out, "prefer_accessibility", AuditValue::Bool(*prefer_accessibility));
            push_field(&mut out, "has_window_title", AuditValue::Bool(has_text(window_title)));
            push_field(&mut out, "has_window_id", AuditValue::Bool(has_text(window_id)));
        },
        _ => {},
    }
    proof {
        assert(fields_view(out@) =~= spec_audit_details(*request));
    }
    out
}

fn details_desktop_click(request: &AuditRequest) -> (r: Vec<(String, AuditValue)>)
    requires
        request is DesktopClick,
    ensures
        fields_view(r@) == spec_audit_details(*request),
{
    let mut out: Vec<(String, AuditValue)> = Vec::new();
    match request {
        AuditRequest::DesktopClick { app, target, image_path, prefer_accessibility, window_title, button, dry_run, window_id, verify } => {
            push_field(&mut out, "app", AuditValue::Text(app.clone()));
            push_field(&mut out, "target", AuditValue::Text(target.clone()));
            push_field(&mut out, "has_image_path", AuditValue::Bool(has_text(image_path)));
            push_field(&mut out, "prefer_accessibility", AuditValue::Bool(*prefer_accessibility));
            push_field(&mut out, "has_window_title", AuditValue::Bool(has_text(window_title)));
            push_field(&mut out, "has_window_id", AuditValue::Bool(has_text(window_id)));
            push_field(&mut out, "button", AuditValue::Text(String::from_str(button.name())));
            push_field(&mut out, "dry_run", AuditValue::Bool(*dry_run));
            push_field(&mut out, "verify", AuditValue::Bool(*verify));
        },
        _ => {},
    }
    proof {
        assert(fields_view(out@) =~= spec_audit_details(*request));
    }
    out
}

fn details_desktop_drag(request: &AuditRequest) -> (r: Vec<(String, AuditValue)>)
    requires
        request is DesktopDrag,
    ensures
        fields_view(r@) == spec_audit_details(*request),
{
    let mut out: Vec<(String, AuditValue)> = Vec::new();
    match request {
        AuditRequest::DesktopDrag { app, target, image_path, prefer_accessibility, window_title, button, from_ratio_x, from_ratio_y, to_ratio_x, to_ratio_y, duration_ms, dry_run, window_id, verify } => {
            push_field(&mut out, "app", AuditValue::Text(app.clone()));
            push_field(&mut out, "target", AuditValue::Text(target.clone()));
            push_field(&mut out, "has_image_path", AuditValue::Bool(has_text(image_path)));
            push_field(&mut out, "prefer_accessibility", AuditValue::Bool(*prefer_accessibility));
            push_field(&mut out, "has_window_title", AuditValue::Bool(has_text(window_title)));
            push_field(&mut out, "has_window_id", AuditValue::Bool(has_text(window_id)));
            push_field(&mut out, "button", AuditValue::Text(String::from_str(button.name())));
            push_field(&mut out, "from_ratio_x", AuditValue::Number(from_ratio_x.clone()));
            push_field(&mut out, "from_ratio_y", AuditValue::Number(from_ratio_y.clone()));
            push_field(&mut out, "to_ratio_x", AuditValue::Number(to_ratio_x.clone()));
            push_field(&mut out, "to_ratio_y", AuditValue::Number(to_ratio_y.clone()));
            push_field(&mut out, "duration_ms", AuditValue::Int(*duration_ms));
            push_field(&mut out, "dry_run", AuditValue::Bool(*dry_run));
            push_field(&mut out, "verify", AuditValue::Bool(*verify));
        },
        _ => {},
    }
    proof {
        assert(fields_view(out@) =~= spec_audit_details(*request));
    }
    out
}

fn details_desktop_type_into(request: &AuditRequest) -> (r: Vec<(String, AuditValue)>)
    requires
        request is DesktopTypeInto,
    ensures
        fields_view(r@) == spec_audit_details(*request),
{
    let mut out: Vec<(String, AuditValue)> = Vec::new();
    match request {
        AuditRequest::DesktopTypeInto { app, target, text, image_path, prefer_accessibility, window_title, clear, dry_run, window_id, verify } => {
            push_field(&mut out, "app", AuditValue::Text(app.clone()));
            push_field(&mut out, "target", AuditValue::Text(target.clone()));
            push_field(&mut out, "text_length", AuditValue::Int(char_count(text)));
            push_field(&mut out, "has_image_path", AuditValue::Bool(has_text(image_path)));
            push_field(&mut out, "prefer_accessibility", AuditValue::Bool(*prefer_accessibility));
            push_field(&mut out, "has_window_title", AuditValue::Bool(has_text(window_title)));
            push_field(&mut out, "has_window_id", AuditValue::Bool(has_text(window_id)));
            push_field(&mut out, "clear", AuditValue::Bool(*clear));
            push_field(&mut out, "dry_run", AuditValue::Bool(*dry_run));
            push_field(&mut out, "verify", AuditValue::Bool(*verify));
        },
        _ => {},
    }
    proof {
        assert(fields_view(out@) =~= spec_audit_details(*request));
    }
    out
}

fn details_desktop_assert(request: &AuditRequest) -> (r: Vec<(String, AuditValue)>)
    requires
        request is DesktopAssert,
    ensures
        fields_view(r@) == spec_audit_details(*request),
{
    let mut out: Vec<(String, AuditValue)> = Vec::new();
    match request {
        AuditRequest::DesktopAssert { app, target, image_path, prefer_accessibility, window_title, window_id, assertion, expected_text } => {
            push_field(&mut out, "app", AuditValue::Text(app.clone()));
            push_field(&mut out, "target", AuditValue::Text(target.clone()));
            push_field(&mut out, "has_image_path", AuditValue::Bool(has_text(image_path)));
            push_field(&mut out, "prefer_accessibility", AuditValue::Bool(*prefer_accessibility));
            push_field(&mut out, "has_window_title", AuditValue::Bool(has_text(window_title)));
            push_field(&mut out, "has_window_id", AuditValue::Bool(has_text(window_id)));
            push_field(&mut out, "assertion", AuditValue::Text(String::from_str(assertion_name(*assertion))));
            push_field(&mut out, "has_expected_text", AuditValue::Bool(has_text(expected_text)));
        },
        _ => {},
    }
    proof {
        assert(fields_view(out@) =~= spec_audit_details(*request));
    }
    out
}

fn details_desktop_profiles(request: &AuditRequest) -> (r: Vec<(String, AuditValue)>)
    requires
        request is DesktopProfiles,
    ensures
        fields_view(r@) == spec_audit_details(*request),
{
    let mut out: Vec<(String, AuditValue)> = Vec::new();
    match request {
        AuditRequest::DesktopProfiles { app, target, command, desktop_id, supports, check, installed, available } => {
            push_field(&mut out, "app", opt_text_value(app));
            push_field(&mut out, "target", opt_text_value(target));
            push_field(&mut out, "command", opt_text_value(command));
            push_field(&mut out, "desktop_id", opt_text_value(desktop_id));
            push_field(&mut out, "supports", opt_text_value(supports));
            push_field(&mut out, "check", AuditValue::Bool(*check));
            push_field(&mut out, "installed", AuditValue::Bool(*installed));
            push_field(&mut out, "available", AuditValue::Bool(*available));
        },
        _ => {},
    }
    proof {
        assert(fields_view(out@) =~= spec_audit_details(*request));
    }
    out
}

/// The fields of a request's audit record (see [`spec_audit_details`]):
/// typed, pasted and entered texts and selectors only by their length in
/// characters, optional scopes and paths mostly only by whether they are
/// given and not blank.
pub fn audit_details(request: &AuditRequest) -> (r: Vec<(String, AuditValue)>)
    ensures
        fields_view(r@) == spec_audit_details(*request),
{
    match request {
        AuditRequest::Ping => {
            let out: Vec<(String, AuditValue)> = Vec::new();
            assert(fields_view(out@) =~= spec_audit_details(*request));
            out
        },
        AuditRequest::Capture { .. } => details_capture(request),
        AuditRequest::CaptureDelta { .. } => details_capture_delta(request),
        AuditRequest::CaptureBackends { .. } => details_capture_backends(request),
        AuditRequest::ProbeDmaBuf { .. } => details_probe_dmabuf(request),
        AuditRequest::ListPlugins { .. } => details_list_plugins(request),
        AuditRequest::CallPluginTool { .. } => details_call_plugin_tool(request),
        AuditRequest::Click { .. } => details_click(request),
        AuditRequest::MoveMouse { .. } => details_move_mouse(request),
        AuditRequest::Drag { .. } => details_drag(request),
        AuditRequest::TypeText { .. } => details_type_text(request),
        AuditRequest::PasteText { .. } => details_paste_text(request),
        AuditRequest::Hotkey { .. } => details_hotkey(request),
        AuditRequest::ListWindows { .. } => details_list_windows(request),
        AuditRequest::FindElements { .. } => details_find_elements(request),
        AuditRequest::Ocr { .. } => details_ocr(request),
        AuditRequest::CompareImages { .. } => details_compare_images(request),
        AuditRequest::DetectUiState { .. } => details_detect_ui_state(request),
        AuditRequest::DetectUiElements { .. } => details_detect_ui_elements(request),
        AuditRequest::DesktopFocus { .. } => details_desktop_focus(request),
        AuditRequest::DesktopLocate { .. } => details_desktop_locate(request),
        AuditRequest::DesktopClick { .. } => details_desktop_click(request),
        AuditRequest::DesktopDrag { .. } => details_desktop_drag(request),
        AuditRequest::DesktopTypeInto { .. } => details_desktop_type_into(request),
        AuditRequest::DesktopAssert { .. } => details_desktop_assert(request),
        AuditRequest::DesktopProfiles { .. } => details_desktop_profiles(request),
    }
}
/// An audit record keeps a request's typed, pasted or entered text only as
/// its length: replacing the text by any other of the same number of
/// characters leaves every field of the record as it was, and the record
/// holds that number as `text_length`.
pub proof fn lemma_audit_keeps_only_text_length(request: AuditRequest, text: String)
    requires
        request_text(request) matches Some(t) ==> t@.len() == text@.len(),
    ensures
        spec_audit_details(with_text(request, text)) == spec_audit_details(request),
        request_text(request) matches Some(t) ==> exists|i: int|
            0 <= i < spec_audit_details(request).len() && #[trigger] spec_audit_details(request)[i]
                == ("text_length"@, AuditValueView::Int(t@.len() as int)),
{
    match request {
        AuditRequest::TypeText { .. } => {
            assert(spec_audit_details(with_text(request, text)) =~= spec_audit_details(request));
            assert(spec_audit_details(request)[0].0 == "text_length"@);
        },
        AuditRequest::PasteText { .. } => {
            assert(spec_audit_details(with_text(request, text)) =~= spec_audit_details(request));
            assert(spec_audit_details(request)[0].0 == "text_length"@);
        },
        AuditRequest::DesktopTypeInto { .. } => {
            assert(spec_audit_details(with_text(request, text)) =~= spec_audit_details(request));
            assert(spec_audit_details(request)[2].0 == "text_length"@);
        },
        _ => {},
    }
}

} // verus!
