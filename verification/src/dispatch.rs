use vstd::prelude::*;
use crate::cache::{spec_fresh_age, AccessibilityCache};
use crate::capture_requests::{
    capture_file_format_from_request, capture_region_from_request, has_capture_window_scope,
    spec_capture_file_format, spec_clean, spec_has_window_scope, spec_region_request,
    CaptureFileFormat, RegionRequest,
};
use crate::daemon::{ensure_input_allowed, ensure_plugin_execution_allowed, ServerConfig};
use crate::lookup::{vision_detection_overrides, VisionDetectionOverrides};
use crate::query::{spec_parse_query, ElementQuery, ElementQueryView};
use crate::requests::{
    click_options_from_fields, drag_options_from_fields, hotkey_options_from_fields,
    move_options_from_fields, paste_options_from_fields, spec_clipboard_backend_selection,
    spec_clipboard_restore_policy, spec_drag_backend_selection, spec_hotkey_backend_selection,
    spec_hotkey_keys_error, spec_input_backend_selection, spec_move_bounds_policy,
    spec_paste_hotkey_backend_selection, spec_type_backend_selection, type_options_from_fields,
    validate_hotkey_keys, ClickMouseOptions, DragMouseOptions, HotkeyOptions, MoveBoundsPolicy,
    MoveMouseOptions, PasteTextOptions, TypeTextOptions,
};
use crate::text::texts;
use crate::types::Rect;

verus! {

/// A daemon request as far as the daemon decides on it before any outside
/// work: the fields that its checks, its permission gates and its cache
/// read. The rest of a request travels with the caller.
#[derive(Debug, Clone, Copy)]
pub enum RequestKind<'a> {
    Ping,
    Capture {
        region: Option<Rect>,
        window_id: Option<&'a str>,
        app: Option<&'a str>,
        window_title: Option<&'a str>,
        title_regex: Option<&'a str>,
        format: Option<&'a str>,
    },
    CaptureDelta { region: Option<Rect>, window_id: Option<&'a str> },
    CaptureBackends,
    ProbeDmaBuf,
    ListWindows { limit: Option<usize> },
    ListPlugins { paths: &'a [String] },
    CallPluginTool { paths: &'a [String] },
    Click { dry_run: bool, bounds_policy: &'a str, backend: &'a str },
    MoveMouse {
        dry_run: bool,
        duration_ms: u64,
        steps: Option<u32>,
        bounds_policy: &'a str,
        backend: &'a str,
    },
    Drag {
        dry_run: bool,
        duration_ms: u64,
        steps: Option<u32>,
        bounds_policy: &'a str,
        backend: &'a str,
    },
    TypeText {
        dry_run: bool,
        typing_speed_chars_per_second: Option<u32>,
        delay_ms: Option<u64>,
        key_delay_ms: Option<u64>,
        backend: &'a str,
    },
    PasteText {
        dry_run: bool,
        preserve_clipboard: bool,
        clipboard_backend: &'a str,
        hotkey_backend: &'a str,
        delay_ms: Option<u64>,
        restore_delay_ms: Option<u64>,
        restore_policy: &'a str,
    },
    Hotkey {
        keys: &'a [String],
        dry_run: bool,
        backend: &'a str,
        delay_ms: Option<u64>,
        key_delay_ms: Option<u64>,
        repeat: Option<u32>,
        interval_ms: Option<u64>,
        release_before: bool,
        release_after: bool,
    },
    FindElements {
        selector: &'a str,
        vision_fallback: bool,
        vision_edge_threshold: Option<u32>,
        vision_min_width: Option<u32>,
        vision_min_height: Option<u32>,
        vision_min_component_pixels: Option<u32>,
        vision_max_elements: Option<u32>,
        vision_merge_distance: Option<u32>,
    },
    /// OCR, image comparison, UI state and element detection, and the
    /// desktop locate, assert and profile queries: nothing is injected.
    Inspect,
    /// Focusing an application, which always acts on the desktop.
    DesktopFocus,
    /// Clicking, dragging or typing into a desktop target.
    DesktopAction { dry_run: bool },
}

/// The options an input request carries out.
#[derive(Debug, Clone, Copy, PartialEq, Eq, Structural)]
pub enum InputOptions {
    Click(ClickMouseOptions),
    MoveMouse(MoveMouseOptions),
    Drag(DragMouseOptions),
    TypeText(TypeTextOptions),
    PasteText(PasteTextOptions),
    Hotkey(HotkeyOptions),
}

/// What the daemon does next with a request.
#[derive(Debug)]
pub enum RequestPlan {
    /// Answer `pong`.
    Pong,
    /// Answer with this error.
    Refuse(String),
    /// Capture to the request's file in this format.
    CaptureToFile(CaptureFileFormat),
    /// Capture the difference of a stream over this region.
    CaptureDelta(RegionRequest),
    /// Hand the request to the crate that serves it; nothing is left to decide.
    Delegate,
    /// List the plugins found under these paths.
    ListPlugins(Vec<String>),
    /// Run the plugin tool, looking for plugins only under these paths.
    RunPluginTool(Vec<String>),
    /// Read the window sort and backend names with the windows crate, then
    /// ask [`plan_window_query`].
    PrepareWindowQuery,
    /// Resolve the pointer positions under this bounds policy, or normalise
    /// the hotkey's keys (`None`), then ask [`plan_prepared_input`].
    PrepareInput(Option<MoveBoundsPolicy>),
    /// Only name the backend that would carry the input out.
    DetectInputBackend(InputOptions),
    /// Inject the input.
    PerformInput(InputOptions),
    /// Look the elements up in the fresh cached tree with this query.
    AnswerFromCache {
        query: ElementQuery,
        overrides: VisionDetectionOverrides,
        use_vision_fallback: bool,
    },
    /// Read the semantic tree afresh, keep it in the cache, then look up.
    QueryAccessibility { overrides: VisionDetectionOverrides, use_vision_fallback: bool },
}

/// The mathematical form of a [`RegionRequest`].
pub enum RegionView {
    Known(Option<Rect>),
    Window(Seq<char>),
}

/// The mathematical form of a [`RequestPlan`].
pub enum PlanView {
    Pong,
    Refuse(Seq<char>),
    CaptureToFile(CaptureFileFormat),
    CaptureDelta(RegionView),
    Delegate,
    ListPlugins(Seq<Seq<char>>),
    RunPluginTool(Seq<Seq<char>>),
    PrepareWindowQuery,
    PrepareInput(Option<MoveBoundsPolicy>),
    DetectInputBackend(InputOptions),
    PerformInput(InputOptions),
    AnswerFromCache {
        query: ElementQueryView,
        overrides: VisionDetectionOverrides,
        use_vision_fallback: bool,
    },
    QueryAccessibility { overrides: VisionDetectionOverrides, use_vision_fallback: bool },
}

impl View for RequestPlan {
    type V = PlanView;

    open spec fn view(&self) -> PlanView {
        match self {
            RequestPlan::Pong => PlanView::Pong,
            RequestPlan::Refuse(m) => PlanView::Refuse(m@),
            RequestPlan::CaptureToFile(f) => PlanView::CaptureToFile(*f),
            RequestPlan::CaptureDelta(RegionRequest::Known(r)) => PlanView::CaptureDelta(
                RegionView::Known(*r),
            ),
            RequestPlan::CaptureDelta(RegionRequest::Window(id)) => PlanView::CaptureDelta(
                RegionView::Window(id@),
            ),
            RequestPlan::Delegate => PlanView::Delegate,
            RequestPlan::ListPlugins(p) => PlanView::ListPlugins(texts(p@)),
            RequestPlan::RunPluginTool(p) => PlanView::RunPluginTool(texts(p@)),
            RequestPlan::PrepareWindowQuery => PlanView::PrepareWindowQuery,
            RequestPlan::PrepareInput(b) => PlanView::PrepareInput(*b),
            RequestPlan::DetectInputBackend(o) => PlanView::DetectInputBackend(*o),
            RequestPlan::PerformInput(o) => PlanView::PerformInput(*o),
            RequestPlan::AnswerFromCache { query, overrides, use_vision_fallback } =>
                PlanView::AnswerFromCache {
                query: query@,
                overrides: *overrides,
                use_vision_fallback: *use_vision_fallback,
            },
            RequestPlan::QueryAccessibility { overrides, use_vision_fallback } =>
                PlanView::QueryAccessibility {
                overrides: *overrides,
                use_vision_fallback: *use_vision_fallback,
            },
        }
    }
}

/// The refusal of real input without permission.
pub open spec fn msg_input_denied() -> Seq<char> {
    "permission denied: non-dry-run input actions require peekabooxd --profile operator, --allow-input, or PEEKABOOX_ALLOW_INPUT=1"@
}

/// The refusal of plugin execution without permission.
pub open spec fn msg_plugins_denied() -> Seq<char> {
    "permission denied: plugin execution requires peekabooxd --profile operator, --allow-plugins, or PEEKABOOX_ALLOW_PLUGINS=1"@
}

/// The refusal of plugin paths given with a request.
pub open spec fn msg_plugin_paths() -> Seq<char> {
    "permission denied: daemon plugin execution only uses plugin paths configured at daemon startup"@
}

/// The options of a click, or why there are none.
pub open spec fn spec_click_options(bounds_policy: Seq<char>, backend: Seq<char>) -> Result<
    ClickMouseOptions,
    Seq<char>,
> {
    match spec_move_bounds_policy(bounds_policy) {
        Err(m) => Err(m),
        Ok(b) => match spec_input_backend_selection(backend) {
            Err(m) => Err(m),
            Ok(k) => Ok(ClickMouseOptions { bounds_policy: b, backend: k }),
        },
    }
}

/// The options of a pointer move, or why there are none.
pub open spec fn spec_move_options(
    duration_ms: u64,
    steps: Option<u32>,
    bounds_policy: Seq<char>,
    backend: Seq<char>,
) -> Result<MoveMouseOptions, Seq<char>> {
    if steps == Some(0u32) {
        Err("move steps must be greater than zero"@)
    } else {
        match spec_move_bounds_policy(bounds_policy) {
            Err(m) => Err(m),
            Ok(b) => match spec_input_backend_selection(backend) {
                Err(m) => Err(m),
                Ok(k) => Ok(MoveMouseOptions { duration_ms, steps, bounds_policy: b, backend: k }),
            },
        }
    }
}

/// The options of a drag, or why there are none.
pub open spec fn spec_drag_options(
    duration_ms: u64,
    steps: Option<u32>,
    bounds_policy: Seq<char>,
    backend: Seq<char>,
) -> Result<DragMouseOptions, Seq<char>> {
    if steps == Some(0u32) {
        Err("drag steps must be greater than zero"@)
    } else {
        match spec_move_bounds_policy(bounds_policy) {
            Err(m) => Err(m),
            Ok(b) => match spec_drag_backend_selection(backend) {
                Err(m) => Err(m),
                Ok(k) => Ok(DragMouseOptions { duration_ms, steps, bounds_policy: b, backend: k }),
            },
        }
    }
}

/// The options of typing, or why there are none.
pub open spec fn spec_type_options(
    typing_speed_chars_per_second: Option<u32>,
    delay_ms: Option<u64>,
    key_delay_ms: Option<u64>,
    backend: Seq<char>,
) -> Result<TypeTextOptions, Seq<char>> {
    if typing_speed_chars_per_second == Some(0u32) {
        Err("typing_speed_chars_per_second must be greater than zero"@)
    } else if typing_speed_chars_per_second is Some && key_delay_ms is Some {
        Err("typing_speed_chars_per_second cannot be combined with key_delay_ms"@)
    } else {
        match spec_type_backend_selection(backend) {
            Err(m) => Err(m),
            Ok(k) => Ok(
                TypeTextOptions { typing_speed_chars_per_second, delay_ms, key_delay_ms, backend: k },
            ),
        }
    }
}

/// The options of a paste, or why there are none.
pub open spec fn spec_paste_options(
    preserve_clipboard: bool,
    clipboard_backend: Seq<char>,
    hotkey_backend: Seq<char>,
    delay_ms: Option<u64>,
    restore_delay_ms: Option<u64>,
    restore_policy: Seq<char>,
) -> Result<PasteTextOptions, Seq<char>> {
    match spec_clipboard_backend_selection(clipboard_backend) {
        Err(m) => Err(m),
        Ok(c) => match spec_paste_hotkey_backend_selection(hotkey_backend) {
            Err(m) => Err(m),
            Ok(h) => match spec_clipboard_restore_policy(restore_policy) {
                Err(m) => Err(m),
                Ok(p) => Ok(
                    PasteTextOptions {
                        preserve_clipboard,
                        clipboard_backend: c,
                        hotkey_backend: h,
                        delay_ms: match delay_ms {
                            Some(d) => d,
                            None => 80,
                        },
                        restore_delay_ms: match restore_delay_ms {
                            Some(d) => d,
                            None => 120,
                        },
                        restore_policy: p,
                    },
                ),
            },
        },
    }
}

/// The options of a hotkey, or why there are none.
pub open spec fn spec_hotkey_options(
    backend: Seq<char>,
    delay_ms: Option<u64>,
    key_delay_ms: Option<u64>,
    repeat: Option<u32>,
    interval_ms: Option<u64>,
    release_before: bool,
    release_after: bool,
) -> Result<HotkeyOptions, Seq<char>> {
    if repeat == Some(0u32) {
        Err("hotkey repeat must be greater than zero"@)
    } else {
        match spec_hotkey_backend_selection(backend) {
            Err(m) => Err(m),
            Ok(k) => Ok(
                HotkeyOptions {
                    backend: k,
                    delay_ms,
                    key_delay_ms,
                    repeat: match repeat {
                        Some(n) => n,
                        None => 1,
                    },
                    interval_ms: match interval_ms {
                        Some(n) => n,
                        None => 0,
                    },
                    release_before,
                    release_after,
                },
            ),
        }
    }
}

/// The vision detector settings of an element lookup, or why they are
/// unusable.
pub open spec fn spec_vision_overrides(
    edge_threshold: Option<u32>,
    min_width: Option<u32>,
    min_height: Option<u32>,
    min_component_pixels: Option<u32>,
    max_elements: Option<u32>,
    merge_distance: Option<u32>,
) -> Result<VisionDetectionOverrides, Seq<char>> {
    if edge_threshold matches Some(t) && t > 255 {
        Err("vision_edge_threshold must be between 0 and 255"@)
    } else if max_elements matches Some(n) && n > usize::MAX {
        Err("vision_max_elements is too large"@)
    } else {
        Ok(
            VisionDetectionOverrides {
                edge_threshold: match edge_threshold {
                    Some(t) => Some(t as u8),
                    None => None,
                },
                min_width,
                min_height,
                min_component_pixels,
                max_elements: match max_elements {
                    Some(n) => Some(n as usize),
                    None => None,
                },
                merge_distance,
            },
        )
    }
}

/// Input with valid options: a dry run only names the backend; real input
/// needs the configuration's permission.
pub open spec fn spec_input_gate(config: ServerConfig, dry_run: bool, options: InputOptions) -> PlanView {
    if dry_run {
        PlanView::DetectInputBackend(options)
    } else if !config.allow_input {
        PlanView::Refuse(msg_input_denied())
    } else {
        PlanView::PerformInput(options)
    }
}

/// An error, or the plan that valid options lead to.
pub open spec fn spec_or_refuse<T>(r: Result<T, Seq<char>>, plan: spec_fn(T) -> PlanView) -> PlanView {
    match r {
        Err(m) => PlanView::Refuse(m),
        Ok(o) => plan(o),
    }
}

/// What the daemon does with `request` under `config`, its accessibility
/// cache read at `now` (nanoseconds).
pub open spec fn spec_plan_request<'a>(
    request: RequestKind<'a>,
    config: ServerConfig,
    cache: AccessibilityCache,
    now: u128,
) -> PlanView {
    match request {
        RequestKind::Ping => PlanView::Pong,
        RequestKind::Capture { region, window_id, app, window_title, title_regex, format } =>
            match spec_capture_file_format(format) {
            Err(m) => PlanView::Refuse(m),
            Ok(f) => if f == CaptureFileFormat::Xwd && (region is Some || spec_has_window_scope(
                window_id,
                app,
                window_title,
                title_regex,
            )) {
                PlanView::Refuse("capture format xwd only supports full-screen file output"@)
            } else {
                PlanView::CaptureToFile(f)
            },
        },
        RequestKind::CaptureDelta { region, window_id } => match spec_region_request(
            region,
            window_id,
        ) {
            Err(m) => PlanView::Refuse(m),
            Ok(Some(known)) => PlanView::CaptureDelta(RegionView::Known(known)),
            Ok(None) => PlanView::CaptureDelta(RegionView::Window(spec_clean(window_id)->0)),
        },
        RequestKind::CaptureBackends => PlanView::Delegate,
        RequestKind::ProbeDmaBuf => PlanView::Delegate,
        RequestKind::ListWindows { .. } => PlanView::PrepareWindowQuery,
        RequestKind::Inspect => PlanView::Delegate,
        RequestKind::ListPlugins { paths } => PlanView::ListPlugins(
            if paths@.len() == 0 {
                texts(config.plugin_paths@)
            } else {
                texts(paths@)
            },
        ),
        RequestKind::CallPluginTool { paths } => if !config.allow_plugins {
            PlanView::Refuse(msg_plugins_denied())
        } else if paths@.len() > 0 {
            PlanView::Refuse(msg_plugin_paths())
        } else {
            PlanView::RunPluginTool(texts(config.plugin_paths@))
        },
        RequestKind::Click { dry_run, bounds_policy, backend } => spec_or_refuse(
            spec_click_options(bounds_policy@, backend@),
            |o: ClickMouseOptions| PlanView::PrepareInput(Some(o.bounds_policy)),
        ),
        RequestKind::MoveMouse { dry_run, duration_ms, steps, bounds_policy, backend } =>
            spec_or_refuse(
            spec_move_options(duration_ms, steps, bounds_policy@, backend@),
            |o: MoveMouseOptions| PlanView::PrepareInput(Some(o.bounds_policy)),
        ),
        RequestKind::Drag { dry_run, duration_ms, steps, bounds_policy, backend } => spec_or_refuse(
            spec_drag_options(duration_ms, steps, bounds_policy@, backend@),
            |o: DragMouseOptions| PlanView::PrepareInput(Some(o.bounds_policy)),
        ),
        RequestKind::TypeText {
            dry_run,
            typing_speed_chars_per_second,
            delay_ms,
            key_delay_ms,
            backend,
        } => spec_or_refuse(
            spec_type_options(typing_speed_chars_per_second, delay_ms, key_delay_ms, backend@),
            |o: TypeTextOptions| spec_input_gate(config, dry_run, InputOptions::TypeText(o)),
        ),
        RequestKind::PasteText {
            dry_run,
            preserve_clipboard,
            clipboard_backend,
            hotkey_backend,
            delay_ms,
            restore_delay_ms,
            restore_policy,
        } => spec_or_refuse(
            spec_paste_options(
                preserve_clipboard,
                clipboard_backend@,
                hotkey_backend@,
                delay_ms,
                restore_delay_ms,
                restore_policy@,
            ),
            |o: PasteTextOptions| spec_input_gate(config, dry_run, InputOptions::PasteText(o)),
        ),
        RequestKind::Hotkey { keys, .. } => match spec_hotkey_keys_error(keys@) {
            Some(m) => PlanView::Refuse(m),
            None => PlanView::PrepareInput(None),
        },
        RequestKind::FindElements {
            selector,
            vision_fallback,
            vision_edge_threshold,
            vision_min_width,
            vision_min_height,
            vision_min_component_pixels,
            vision_max_elements,
            vision_merge_distance,
        } => match spec_vision_overrides(
            vision_edge_threshold,
            vision_min_width,
            vision_min_height,
            vision_min_component_pixels,
            vision_max_elements,
            vision_merge_distance,
        ) {
            Err(m) => PlanView::Refuse(m),
            Ok(overrides) => {
                let use_vision_fallback = vision_fallback || config.vision_fallback;
                if spec_fresh_age(cache, now) is Some {
                    match spec_parse_query(selector@) {
                        Err(m) => PlanView::Refuse(m),
                        Ok(query) => PlanView::AnswerFromCache {
                            query,
                            overrides,
                            use_vision_fallback,
                        },
                    }
                } else {
                    PlanView::QueryAccessibility { overrides, use_vision_fallback }
                }
            },
        },
        RequestKind::DesktopFocus => if !config.allow_input {
            PlanView::Refuse(msg_input_denied())
        } else {
            PlanView::Delegate
        },
        RequestKind::DesktopAction { dry_run } => if !dry_run && !config.allow_input {
            PlanView::Refuse(msg_input_denied())
        } else {
            PlanView::Delegate
        },
    }
}

/// The refusal of a window listing limited to nothing.
pub open spec fn msg_windows_limit() -> Seq<char> {
    "windows limit must be greater than zero"@
}

/// What the daemon does with a window listing once the windows crate read
/// its sort and backend names (`names` is the error it reported, if any):
/// a limit of zero is refused, anything else is listed.
pub open spec fn spec_plan_window_query(limit: Option<usize>, names: Result<(), Seq<char>>) -> PlanView {
    match names {
        Err(m) => PlanView::Refuse(m),
        Ok(_) => if limit == Some(0usize) {
            PlanView::Refuse(msg_windows_limit())
        } else {
            PlanView::Delegate
        },
    }
}

/// The requests whose input is prepared outside first: pointer positions are
/// resolved, hotkey keys normalised.
pub open spec fn spec_prepared_first<'a>(request: RequestKind<'a>) -> bool {
    ||| request is Click
    ||| request is MoveMouse
    ||| request is Drag
    ||| request is Hotkey
}

/// What the daemon does with a pointer or hotkey request once its input was
/// prepared (`prepared` is the error preparing reported, if any).
pub open spec fn spec_plan_prepared<'a>(
    request: RequestKind<'a>,
    config: ServerConfig,
    prepared: Result<(), Seq<char>>,
) -> PlanView {
    match prepared {
        Err(m) => PlanView::Refuse(m),
        Ok(_) => match request {
            RequestKind::Click { dry_run, bounds_policy, backend } => spec_or_refuse(
                spec_click_options(bounds_policy@, backend@),
                |o: ClickMouseOptions| spec_input_gate(config, dry_run, InputOptions::Click(o)),
            ),
            RequestKind::MoveMouse { dry_run, duration_ms, steps, bounds_policy, backend } =>
                spec_or_refuse(
                spec_move_options(duration_ms, steps, bounds_policy@, backend@),
                |o: MoveMouseOptions| spec_input_gate(config, dry_run, InputOptions::MoveMouse(o)),
            ),
            RequestKind::Drag { dry_run, duration_ms, steps, bounds_policy, backend } =>
                spec_or_refuse(
                spec_drag_options(duration_ms, steps, bounds_policy@, backend@),
                |o: DragMouseOptions| spec_input_gate(config, dry_run, InputOptions::Drag(o)),
            ),
            RequestKind::Hotkey {
                dry_run,
                backend,
                delay_ms,
                key_delay_ms,
                repeat,
                interval_ms,
                release_before,
                release_after,
                ..
            } => spec_or_refuse(
                spec_hotkey_options(
                    backend@,
                    delay_ms,
                    key_delay_ms,
                    repeat,
                    interval_ms,
                    release_before,
                    release_after,
                ),
                |o: HotkeyOptions| spec_input_gate(config, dry_run, InputOptions::Hotkey(o)),
            ),
            _ => PlanView::Delegate,
        },
    }
}

/// Whether an input request is a dry run; nothing for a request that
/// injects no input of its own.
pub open spec fn spec_dry_run<'a>(request: RequestKind<'a>) -> Option<bool> {
    match request {
        RequestKind::Click { dry_run, .. } => Some(dry_run),
        RequestKind::MoveMouse { dry_run, .. } => Some(dry_run),
        RequestKind::Drag { dry_run, .. } => Some(dry_run),
        RequestKind::TypeText { dry_run, .. } => Some(dry_run),
        RequestKind::PasteText { dry_run, .. } => Some(dry_run),
        RequestKind::Hotkey { dry_run, .. } => Some(dry_run),
        _ => None,
    }
}

fn copy_paths(v: &[String]) -> (r: Vec<String>)
    ensures
        r@ == v@,
{
    let mut r: Vec<String> = Vec::new();
    let mut i: usize = 0;
    while i < v.len()
        invariant
            i <= v@.len(),
            r@ == v@.subrange(0, i as int),
        decreases v@.len() - i,
    {
        r.push(v[i].clone());
        assert(v@.subrange(0, i + 1) =~= v@.subrange(0, i as int).push(v@[i as int]));
        i = i + 1;
    }
    assert(v@.subrange(0, v@.len() as int) =~= v@);
    r
}

fn input_gate(config: &ServerConfig, dry_run: bool, options: InputOptions) -> (r: RequestPlan)
    ensures
        r@ == spec_input_gate(*config, dry_run, options),
{
    if dry_run {
        RequestPlan::DetectInputBackend(options)
    } else {
        match ensure_input_allowed(config) {
            Ok(()) => RequestPlan::PerformInput(options),
            Err(e) => RequestPlan::Refuse(e),
        }
    }
}

fn click_options(bounds_policy: &str, backend: &str) -> (r: Result<ClickMouseOptions, String>)
    ensures
        match spec_click_options(bounds_policy@, backend@) {
            Ok(o) => r == Ok::<ClickMouseOptions, String>(o),
            Err(m) => r matches Err(e) && e@ == m,
        },
{
    click_options_from_fields(Some(bounds_policy), Some(backend))
}

fn move_options(duration_ms: u64, steps: Option<u32>, bounds_policy: &str, backend: &str) -> (r:
    Result<MoveMouseOptions, String>)
    ensures
        match spec_move_options(duration_ms, steps, bounds_policy@, backend@) {
            Ok(o) => r == Ok::<MoveMouseOptions, String>(o),
            Err(m) => r matches Err(e) && e@ == m,
        },
{
    move_options_from_fields(Some(duration_ms), steps, Some(bounds_policy), Some(backend))
}

fn drag_options(duration_ms: u64, steps: Option<u32>, bounds_policy: &str, backend: &str) -> (r:
    Result<DragMouseOptions, String>)
    ensures
        match spec_drag_options(duration_ms, steps, bounds_policy@, backend@) {
            Ok(o) => r == Ok::<DragMouseOptions, String>(o),
            Err(m) => r matches Err(e) && e@ == m,
        },
{
    drag_options_from_fields(Some(duration_ms), steps, Some(bounds_policy), Some(backend))
}

fn hotkey_options(
    backend: &str,
    delay_ms: Option<u64>,
    key_delay_ms: Option<u64>,
    repeat: Option<u32>,
    interval_ms: Option<u64>,
    release_before: bool,
    release_after: bool,
) -> (r: Result<HotkeyOptions, String>)
    ensures
        match spec_hotkey_options(
            backend@,
            delay_ms,
            key_delay_ms,
            repeat,
            interval_ms,
            release_before,
            release_after,
        ) {
            Ok(o) => r == Ok::<HotkeyOptions, String>(o),
            Err(m) => r matches Err(e) && e@ == m,
        },
{
    hotkey_options_from_fields(
        Some(backend),
        delay_ms,
        key_delay_ms,
        repeat,
        interval_ms,
        release_before,
        release_after,
    )
}

/// Decides what the daemon does with a request before any outside work
/// (see [`spec_plan_request`]): the request's own checks, the permission
/// gates of input and plugins, and whether the accessibility cache, read at
/// `now_nanos`, answers an element lookup.
pub fn plan_request(
    request: &RequestKind,
    config: &ServerConfig,
    cache: &AccessibilityCache,
    now_nanos: u128,
) -> (r: RequestPlan)
    ensures
        r@ == spec_plan_request(*request, *config, *cache, now_nanos),
        r@ is PerformInput ==> config.allow_input && spec_dry_run(*request) == Some(false),
        r@ is RunPluginTool ==> config.allow_plugins && (*request matches RequestKind::CallPluginTool {
            paths,
        } && paths@.len() == 0),
        request is CallPluginTool && !config.allow_plugins ==> r@ == PlanView::Refuse(
            msg_plugins_denied(),
        ),
        request is DesktopFocus && !config.allow_input ==> r@ == PlanView::Refuse(msg_input_denied()),
        (*request matches RequestKind::DesktopAction { dry_run } && !dry_run && !config.allow_input)
            ==> r@ == PlanView::Refuse(msg_input_denied()),
        request is FindElements && spec_fresh_age(*cache, now_nanos) is Some ==> (r@ is AnswerFromCache
            || r@ is Refuse),
        request is FindElements && spec_fresh_age(*cache, now_nanos) is None ==> (
        r@ is QueryAccessibility || r@ is Refuse),
{
    match request {
        RequestKind::Ping => RequestPlan::Pong,
        RequestKind::Capture { region, window_id, app, window_title, title_regex, format } => {
            match capture_file_format_from_request(*format) {
                Err(e) => RequestPlan::Refuse(e),
                Ok(f) => {
                    let xwd = match f {
                        CaptureFileFormat::Xwd => true,
                        CaptureFileFormat::Png => false,
                    };
                    if xwd && (region.is_some() || has_capture_window_scope(
                        *window_id,
                        *app,
                        *window_title,
                        *title_regex,
                    )) {
                        RequestPlan::Refuse(
                            String::from_str(
                                "capture format xwd only supports full-screen file output",
                            ),
                        )
                    } else {
                        RequestPlan::CaptureToFile(f)
                    }
                },
            }
        },
        RequestKind::CaptureDelta { region, window_id } => {
            match capture_region_from_request(*region, *window_id) {
                Err(e) => RequestPlan::Refuse(e),
                Ok(r) => RequestPlan::CaptureDelta(r),
            }
        },
        RequestKind::CaptureBackends => RequestPlan::Delegate,
        RequestKind::ProbeDmaBuf => RequestPlan::Delegate,
        RequestKind::ListWindows { .. } => RequestPlan::PrepareWindowQuery,
        RequestKind::Inspect => RequestPlan::Delegate,
        RequestKind::ListPlugins { paths } => {
            if paths.len() == 0 {
                RequestPlan::ListPlugins(copy_paths(config.plugin_paths.as_slice()))
            } else {
                RequestPlan::ListPlugins(copy_paths(paths))
            }
        },
        RequestKind::CallPluginTool { paths } => {
            match ensure_plugin_execution_allowed(config) {
                Err(e) => RequestPlan::Refuse(e),
                Ok(()) => {
                    if paths.len() > 0 {
                        RequestPlan::Refuse(
                            String::from_str(
                                "permission denied: daemon plugin execution only uses plugin paths configured at daemon startup",
                            ),
                        )
                    } else {
                        RequestPlan::RunPluginTool(copy_paths(config.plugin_paths.as_slice()))
                    }
                },
            }
        },
        RequestKind::Click { dry_run, bounds_policy, backend } => {
            match click_options(bounds_policy, backend) {
                Err(e) => RequestPlan::Refuse(e),
                Ok(o) => RequestPlan::PrepareInput(Some(o.bounds_policy)),
            }
        },
        RequestKind::MoveMouse { dry_run, duration_ms, steps, bounds_policy, backend } => {
            match move_options(*duration_ms, *steps, bounds_policy, backend) {
                Err(e) => RequestPlan::Refuse(e),
                Ok(o) => RequestPlan::PrepareInput(Some(o.bounds_policy)),
            }
        },
        RequestKind::Drag { dry_run, duration_ms, steps, bounds_policy, backend } => {
            match drag_options(*duration_ms, *steps, bounds_policy, backend) {
                Err(e) => RequestPlan::Refuse(e),
                Ok(o) => RequestPlan::PrepareInput(Some(o.bounds_policy)),
            }
        },
        RequestKind::TypeText {
            dry_run,
            typing_speed_chars_per_second,
            delay_ms,
            key_delay_ms,
            backend,
        } => {
            match type_options_from_fields(
                *typing_speed_chars_per_second,
                *delay_ms,
                *key_delay_ms,
                Some(*backend),
            ) {
                Err(e) => RequestPlan::Refuse(e),
                Ok(o) => input_gate(config, *dry_run, InputOptions::TypeText(o)),
            }
        },
        RequestKind::PasteText {
            dry_run,
            preserve_clipboard,
            clipboard_backend,
            hotkey_backend,
            delay_ms,
            restore_delay_ms,
            restore_policy,
        } => {
            match paste_options_from_fields(
                *preserve_clipboard,
                Some(*clipboard_backend),
                Some(*hotkey_backend),
                *delay_ms,
                *restore_delay_ms,
                Some(*restore_policy),
            ) {
                Err(e) => RequestPlan::Refuse(e),
                Ok(o) => input_gate(config, *dry_run, InputOptions::PasteText(o)),
            }
        },
        RequestKind::Hotkey { keys, .. } => {
            match validate_hotkey_keys(keys) {
                Err(e) => RequestPlan::Refuse(e),
                Ok(()) => RequestPlan::PrepareInput(None),
            }
        },
        RequestKind::FindElements {
            selector,
            vision_fallback,
            vision_edge_threshold,
            vision_min_width,
            vision_min_height,
            vision_min_component_pixels,
            vision_max_elements,
            vision_merge_distance,
        } => {
            match vision_detection_overrides(
                *vision_edge_threshold,
                *vision_min_width,
                *vision_min_height,
                *vision_min_component_pixels,
                *vision_max_elements,
                *vision_merge_distance,
            ) {
                Err(e) => RequestPlan::Refuse(e),
                Ok(overrides) => {
                    let use_vision_fallback = *vision_fallback || config.vision_fallback;
                    if cache.fresh(now_nanos).is_some() {
                        match ElementQuery::parse(selector) {
                            Err(e) => RequestPlan::Refuse(e.message),
                            Ok(query) => RequestPlan::AnswerFromCache {
                                query,
                                overrides,
                                use_vision_fallback,
                            },
                        }
                    } else {
                        RequestPlan::QueryAccessibility { overrides, use_vision_fallback }
                    }
                },
            }
        },
        RequestKind::DesktopFocus => {
            match ensure_input_allowed(config) {
                Err(e) => RequestPlan::Refuse(e),
                Ok(()) => RequestPlan::Delegate,
            }
        },
        RequestKind::DesktopAction { dry_run } => {
            if *dry_run {
                RequestPlan::Delegate
            } else {
                match ensure_input_allowed(config) {
                    Err(e) => RequestPlan::Refuse(e),
                    Ok(()) => RequestPlan::Delegate,
                }
            }
        },
    }
}

/// Decides a pointer or hotkey request once its input was prepared outside
/// (see [`spec_plan_prepared`]): a preparation error is the answer; else the
/// options are read, and real input needs the configuration's permission.
pub fn plan_prepared_input(request: &RequestKind, config: &ServerConfig, prepared: Result<(), String>) -> (r:
    RequestPlan)
    requires
        spec_prepared_first(*request),
    ensures
        r@ == spec_plan_prepared(
            *request,
            *config,
            match prepared {
                Ok(u) => Ok(u),
                Err(e) => Err(e@),
            },
        ),
        r@ is PerformInput ==> config.allow_input && prepared is Ok && spec_dry_run(*request) == Some(
            false,
        ),
{
    match prepared {
        Err(e) => RequestPlan::Refuse(e),
        Ok(()) => match request {
            RequestKind::Click { dry_run, bounds_policy, backend } => {
                match click_options(bounds_policy, backend) {
                    Err(e) => RequestPlan::Refuse(e),
                    Ok(o) => input_gate(config, *dry_run, InputOptions::Click(o)),
                }
            },
            RequestKind::MoveMouse { dry_run, duration_ms, steps, bounds_policy, backend } => {
                match move_options(*duration_ms, *steps, bounds_policy, backend) {
                    Err(e) => RequestPlan::Refuse(e),
                    Ok(o) => input_gate(config, *dry_run, InputOptions::MoveMouse(o)),
                }
            },
            RequestKind::Drag { dry_run, duration_ms, steps, bounds_policy, backend } => {
                match drag_options(*duration_ms, *steps, bounds_policy, backend) {
                    Err(e) => RequestPlan::Refuse(e),
                    Ok(o) => input_gate(config, *dry_run, InputOptions::Drag(o)),
                }
            },
            RequestKind::Hotkey {
                dry_run,
                backend,
                delay_ms,
                key_delay_ms,
                repeat,
                interval_ms,
                release_before,
                release_after,
                ..
            } => {
                match hotkey_options(
                    backend,
                    *delay_ms,
                    *key_delay_ms,
                    *repeat,
                    *interval_ms,
                    *release_before,
                    *release_after,
                ) {
                    Err(e) => RequestPlan::Refuse(e),
                    Ok(o) => input_gate(config, *dry_run, InputOptions::Hotkey(o)),
                }
            },
            _ => RequestPlan::Delegate,
        },
    }
}


/// Checks the limit of a window listing: zero windows is refused.
pub fn check_windows_limit(limit: Option<usize>) -> (r: Result<(), String>)
    ensures
        limit == Some(0usize) ==> (r matches Err(e) && e@ == msg_windows_limit()),
        limit != Some(0usize) ==> r is Ok,
{
    if limit == Some(0usize) {
        Err(String::from_str("windows limit must be greater than zero"))
    } else {
        Ok(())
    }
}

/// Decides a window listing once its sort and backend names were read (see
/// [`spec_plan_window_query`]).
pub fn plan_window_query(limit: Option<usize>, names: Result<(), String>) -> (r: RequestPlan)
    ensures
        r@ == spec_plan_window_query(
            limit,
            match names {
                Ok(u) => Ok(u),
                Err(e) => Err(e@),
            },
        ),
{
    match names {
        Err(e) => RequestPlan::Refuse(e),
        Ok(()) => match check_windows_limit(limit) {
            Err(e) => RequestPlan::Refuse(e),
            Ok(()) => RequestPlan::Delegate,
        },
    }
}

} // verus!
