use vstd::prelude::*;

use crate::backends::{
    spec_availability_name, spec_extension, path_extension, ZeroCopyCaptureCapability,
};
use crate::fmt::{dec, dec_int, i64_text, u64_text};
use crate::frame::CaptureFrameSource;
use crate::lookup::{backend_kind_name, spec_backend_kind_name};
use crate::selector::{debug_quoted, debug_text, non_empty_string, spec_non_empty};
use crate::text::{chars_eq_ignore_case, chars_of, eq_ignore_case, lower_chars, lower_seq, str_eq, trim, trim_chars};
use crate::types::{Rect, WindowInfo};

verus! {

/// The file format of a capture written to disk.
#[derive(Debug, Clone, Copy, PartialEq, Eq, Structural)]
pub enum CaptureFileFormat {
    Png,
    Xwd,
}

impl CaptureFileFormat {
    /// The MIME type of files of the format.
    pub fn mime_type(self) -> (m: &'static str)
        ensures
            m@ == match self {
                CaptureFileFormat::Png => "image/png"@,
                CaptureFileFormat::Xwd => "image/x-xwindowdump"@,
            },
    {
        match self {
            CaptureFileFormat::Png => "image/png",
            CaptureFileFormat::Xwd => "image/x-xwindowdump",
        }
    }
}

/// The file format a request names (`png` when it names none), read
/// trimmed and ignoring ASCII case.
pub open spec fn spec_capture_file_format(format: Option<&str>) -> Result<CaptureFileFormat, Seq<char>> {
    let k = lower_seq(
        trim(
            match format {
                Some(f) => f@,
                None => "png"@,
            },
        ),
    );
    if k.len() == 0 || k == "png"@ {
        Ok(CaptureFileFormat::Png)
    } else if k == "xwd"@ {
        Ok(CaptureFileFormat::Xwd)
    } else {
        Err("invalid capture format "@ + debug_quoted(k) + "; expected png or xwd"@)
    }
}

/// Reads the file format of a capture request (see
/// [`spec_capture_file_format`]).
pub fn capture_file_format_from_request(format: Option<&str>) -> (r: Result<CaptureFileFormat, String>)
    ensures
        match spec_capture_file_format(format) {
            Ok(f) => r == Ok::<CaptureFileFormat, String>(f),
            Err(m) => r matches Err(e) && e@ == m,
        },
{
    let text = match format {
        Some(f) => f,
        None => "png",
    };
    let all = chars_of(text);
    let t = trim_chars(&all);
    let k = lower_chars(&t);
    let png = chars_of("png");
    let xwd = chars_of("xwd");
    if k.len() == 0 || crate::text::chars_eq(&k, &png) {
        Ok(CaptureFileFormat::Png)
    } else if crate::text::chars_eq(&k, &xwd) {
        Ok(CaptureFileFormat::Xwd)
    } else {
        let mut m = String::from_str("invalid capture format ");
        let q = debug_text(&k);
        m.append(q.as_str());
        m.append("; expected png or xwd");
        Err(m)
    }
}

/// An optional request field, trimmed, unless blank.
pub open spec fn spec_clean(value: Option<&str>) -> Option<Seq<char>> {
    match value {
        Some(v) => spec_non_empty(v@),
        None => None,
    }
}

/// An optional request field, trimmed, unless blank.
pub fn clean_str(value: Option<&str>) -> (r: Option<String>)
    ensures
        match spec_clean(value) {
            Some(t) => r matches Some(s) && s@ == t,
            None => r is None,
        },
{
    match value {
        Some(v) => non_empty_string(v),
        None => None,
    }
}

/// A capture request names a window by id, application, title or title
/// pattern.
pub open spec fn spec_has_window_scope(
    window_id: Option<&str>,
    app: Option<&str>,
    window_title: Option<&str>,
    title_regex: Option<&str>,
) -> bool {
    spec_clean(window_id) is Some || spec_clean(app) is Some || spec_clean(window_title) is Some
        || spec_clean(title_regex) is Some
}

/// Whether a capture request names a window (see [`spec_has_window_scope`]).
pub fn has_capture_window_scope(
    window_id: Option<&str>,
    app: Option<&str>,
    window_title: Option<&str>,
    title_regex: Option<&str>,
) -> (r: bool)
    ensures
        r == spec_has_window_scope(window_id, app, window_title, title_regex),
{
    clean_str(window_id).is_some() || clean_str(app).is_some() || clean_str(window_title).is_some()
        || clean_str(title_regex).is_some()
}

/// The format of a capture to a file: XWD files hold the whole screen and end
/// in `.xwd` (ignoring case).
pub open spec fn spec_capture_file_check(
    format: Option<&str>,
    has_region: bool,
    has_window_scope: bool,
    output_path: Seq<char>,
) -> Result<CaptureFileFormat, Seq<char>> {
    match spec_capture_file_format(format) {
        Err(m) => Err(m),
        Ok(CaptureFileFormat::Png) => Ok(CaptureFileFormat::Png),
        Ok(CaptureFileFormat::Xwd) => if has_region || has_window_scope {
            Err("capture format xwd only supports full-screen file output"@)
        } else if !(spec_extension(output_path) matches Some(e) && eq_ignore_case(e, "xwd"@)) {
            Err("capture format xwd output path must end in .xwd"@)
        } else {
            Ok(CaptureFileFormat::Xwd)
        },
    }
}

/// Checks a capture-to-file request before anything is captured (see
/// [`spec_capture_file_check`]).
pub fn check_capture_file_request(
    format: Option<&str>,
    has_region: bool,
    has_window_scope: bool,
    output_path: &str,
) -> (r: Result<CaptureFileFormat, String>)
    ensures
        match spec_capture_file_check(format, has_region, has_window_scope, output_path@) {
            Ok(f) => r == Ok::<CaptureFileFormat, String>(f),
            Err(m) => r matches Err(e) && e@ == m,
        },
{
    let format = capture_file_format_from_request(format)?;
    match format {
        CaptureFileFormat::Png => Ok(CaptureFileFormat::Png),
        CaptureFileFormat::Xwd => {
            if has_region || has_window_scope {
                return Err(
                    String::from_str("capture format xwd only supports full-screen file output"),
                );
            }
            let path = chars_of(output_path);
            let xwd = chars_of("xwd");
            let ends_in_xwd = match path_extension(&path) {
                Some(e) => chars_eq_ignore_case(&e, &xwd),
                None => false,
            };
            if !ends_in_xwd {
                return Err(String::from_str("capture format xwd output path must end in .xwd"));
            }
            Ok(CaptureFileFormat::Xwd)
        },
    }
}

/// A region given relative to a window, moved to screen coordinates; it must
/// start and end inside the window.
pub open spec fn spec_offset_region(origin: Rect, region: Rect) -> Result<Rect, Seq<char>> {
    if region.x < 0 || region.y < 0 {
        Err("window-relative capture region must start inside the window"@)
    } else if region.x + region.width > origin.width || region.y + region.height > origin.height {
        Err("window-relative capture region must fit inside the window"@)
    } else if origin.x + region.x > i32::MAX {
        Err("window-relative region x overflow"@)
    } else if origin.y + region.y > i32::MAX {
        Err("window-relative region y overflow"@)
    } else {
        Ok(
            Rect {
                x: (origin.x + region.x) as i32,
                y: (origin.y + region.y) as i32,
                width: region.width,
                height: region.height,
            },
        )
    }
}

/// Moves a window-relative region to screen coordinates (see
/// [`spec_offset_region`]).
pub fn offset_window_relative_capture_region(origin: Rect, region: Rect) -> (r: Result<Rect, String>)
    ensures
        match spec_offset_region(origin, region) {
            Ok(x) => r == Ok::<Rect, String>(x),
            Err(m) => r matches Err(e) && e@ == m,
        },
{
    if region.x < 0 || region.y < 0 {
        return Err(String::from_str("window-relative capture region must start inside the window"));
    }
    let right: i64 = region.x as i64 + region.width as i64;
    let bottom: i64 = region.y as i64 + region.height as i64;
    if right > origin.width as i64 || bottom > origin.height as i64 {
        return Err(String::from_str("window-relative capture region must fit inside the window"));
    }
    let x: i64 = origin.x as i64 + region.x as i64;
    let y: i64 = origin.y as i64 + region.y as i64;
    if x > i32::MAX as i64 {
        return Err(String::from_str("window-relative region x overflow"));
    }
    if y > i32::MAX as i64 {
        return Err(String::from_str("window-relative region y overflow"));
    }
    Ok(Rect::new(x as i32, y as i32, region.width, region.height))
}

/// What a capture request targets.
#[derive(Debug, Clone, PartialEq, Eq)]
pub enum CaptureTarget {
    FullScreen(bool),
    Region(Rect),
    WindowId(String),
}

/// Where a capture's region comes from.
#[derive(Debug, Clone, PartialEq, Eq)]
pub enum RegionRequest {
    /// The region is known: a rectangle, or the whole screen.
    Known(Option<Rect>),
    /// The region is the bounds of the window with this (trimmed) id.
    Window(String),
}

/// The region a request asks for, given a region, a window id, or neither;
/// not both.
pub open spec fn spec_region_request(region: Option<Rect>, window_id: Option<&str>) -> Result<
    Option<Option<Rect>>,
    Seq<char>,
> {
    if region is Some && spec_clean(window_id) is Some {
        Err("provide either capture region or window_id, not both"@)
    } else if region is Some {
        Ok(Some(region))
    } else if spec_clean(window_id) is None {
        Ok(Some(None))
    } else {
        Ok(None)
    }
}

/// Where the region of a capture comes from: `Ok(Some(..))` is known,
/// `Ok(None)` is the window's bounds (see [`spec_region_request`]).
pub fn capture_region_from_request(region: Option<Rect>, window_id: Option<&str>) -> (r: Result<
    RegionRequest,
    String,
>)
    ensures
        match spec_region_request(region, window_id) {
            Err(m) => r matches Err(e) && e@ == m,
            Ok(Some(known)) => r == Ok::<RegionRequest, String>(RegionRequest::Known(known)),
            Ok(None) => r matches Ok(RegionRequest::Window(id)) && Some(id@) == spec_clean(window_id),
        },
{
    let id = clean_str(window_id);
    if region.is_some() && id.is_some() {
        return Err(String::from_str("provide either capture region or window_id, not both"));
    }
    if region.is_some() {
        return Ok(RegionRequest::Known(region));
    }
    match id {
        Some(id) => Ok(RegionRequest::Window(id)),
        None => Ok(RegionRequest::Known(None)),
    }
}

/// The capture region of a window, looked up by id in a window list.
pub fn window_capture_region(window_id: &str, windows: &[WindowInfo]) -> (r: Result<Rect, String>)
    ensures
        ({
            let found = exists|i: int| 0 <= i < windows@.len() && (#[trigger] windows@[i]).id@ == window_id@;
            &&& !found ==> (r matches Err(e) && e@ == "window not found: "@ + window_id@)
            &&& found ==> exists|k: int|
                0 <= k < windows@.len() && windows@[k].id@ == window_id@ && (forall|j: int|
                    0 <= j < k ==> (#[trigger] windows@[j]).id@ != window_id@) && if windows@[k].bounds.width
                    == 0 || windows@[k].bounds.height == 0 {
                    r matches Err(e) && e@ == "window "@ + window_id@ + " has empty bounds"@
                } else {
                    r == Ok::<Rect, String>(windows@[k].bounds)
                }
        }),
{
    let mut i: usize = 0;
    while i < windows.len()
        invariant
            i <= windows@.len(),
            forall|j: int| 0 <= j < i ==> (#[trigger] windows@[j]).id@ != window_id@,
        decreases windows@.len() - i,
    {
        if str_eq(windows[i].id.as_str(), window_id) {
            let bounds = windows[i].bounds;
            if bounds.width == 0 || bounds.height == 0 {
                let mut m = String::from_str("window ");
                m.append(window_id);
                m.append(" has empty bounds");
                return Err(m);
            }
            return Ok(bounds);
        }
        i = i + 1;
    }
    let mut m = String::from_str("window not found: ");
    m.append(window_id);
    Err(m)
}

/// The region a screen capture targets; a full-screen target must say so.
pub fn capture_screen_region(target: Option<CaptureTarget>) -> (r: Result<RegionRequest, String>)
    ensures
        match target {
            None => r == Ok::<RegionRequest, String>(RegionRequest::Known(None)),
            Some(CaptureTarget::FullScreen(true)) => r == Ok::<RegionRequest, String>(
                RegionRequest::Known(None),
            ),
            Some(CaptureTarget::FullScreen(false)) => r matches Err(e) && e@
                == "capture_screen full_screen target must be true"@,
            Some(CaptureTarget::Region(region)) => r == Ok::<RegionRequest, String>(
                RegionRequest::Known(Some(region)),
            ),
            Some(CaptureTarget::WindowId(id)) => match spec_non_empty(id@) {
                Some(t) => r matches Ok(RegionRequest::Window(w)) && w@ == t,
                None => r == Ok::<RegionRequest, String>(RegionRequest::Known(None)),
            },
        },
{
    match target {
        None => Ok(RegionRequest::Known(None)),
        Some(CaptureTarget::FullScreen(true)) => Ok(RegionRequest::Known(None)),
        Some(CaptureTarget::FullScreen(false)) => Err(
            String::from_str("capture_screen full_screen target must be true"),
        ),
        Some(CaptureTarget::Region(region)) => Ok(RegionRequest::Known(Some(region))),
        Some(CaptureTarget::WindowId(id)) => capture_region_from_request(None, Some(id.as_str())),
    }
}

/// The region a capture delta targets; without a target, the older region
/// field stands.
pub fn capture_delta_region(target: Option<CaptureTarget>, legacy_region: Option<Rect>) -> (r: Result<
    RegionRequest,
    String,
>)
    ensures
        match target {
            None => r == Ok::<RegionRequest, String>(RegionRequest::Known(legacy_region)),
            Some(CaptureTarget::FullScreen(true)) => r == Ok::<RegionRequest, String>(
                RegionRequest::Known(legacy_region),
            ),
            Some(CaptureTarget::FullScreen(false)) => r matches Err(e) && e@
                == "capture_delta full_screen target must be true"@,
            Some(CaptureTarget::Region(region)) => r == Ok::<RegionRequest, String>(
                RegionRequest::Known(Some(region)),
            ),
            Some(CaptureTarget::WindowId(id)) => match spec_non_empty(id@) {
                Some(t) => r matches Ok(RegionRequest::Window(w)) && w@ == t,
                None => r == Ok::<RegionRequest, String>(RegionRequest::Known(None)),
            },
        },
{
    match target {
        None => Ok(RegionRequest::Known(legacy_region)),
        Some(CaptureTarget::FullScreen(true)) => Ok(RegionRequest::Known(legacy_region)),
        Some(CaptureTarget::FullScreen(false)) => Err(
            String::from_str("capture_delta full_screen target must be true"),
        ),
        Some(CaptureTarget::Region(region)) => Ok(RegionRequest::Known(Some(region))),
        Some(CaptureTarget::WindowId(id)) => capture_region_from_request(None, Some(id.as_str())),
    }
}

/// The window a capture to a file is confined to: the first one listed,
/// which must not be empty.
pub fn first_capture_window(windows: Vec<WindowInfo>) -> (r: Result<WindowInfo, String>)
    ensures
        windows@.len() == 0 ==> (r matches Err(e) && e@ == "no window matched capture filters"@),
        windows@.len() > 0 ==> if windows@[0].bounds.width == 0 || windows@[0].bounds.height == 0 {
            r matches Err(e) && e@ == "window "@ + windows@[0].id@ + " has empty bounds"@
        } else {
            r == Ok::<WindowInfo, String>(windows@[0])
        },
{
    if windows.len() == 0 {
        return Err(String::from_str("no window matched capture filters"));
    }
    let mut windows = windows;
    let window = windows.remove(0);
    if window.bounds.width == 0 || window.bounds.height == 0 {
        let mut m = String::from_str("window ");
        m.append(window.id.as_str());
        m.append(" has empty bounds");
        return Err(m);
    }
    Ok(window)
}

/// The region a capture to a file covers: without a window, the requested
/// region; with one, the region taken relative to the window, or the whole
/// window.
pub fn capture_file_region(region: Option<Rect>, window_bounds: Option<Rect>) -> (r: Result<
    Option<Rect>,
    String,
>)
    ensures
        match window_bounds {
            None => r == Ok::<Option<Rect>, String>(region),
            Some(w) => match region {
                None => r == Ok::<Option<Rect>, String>(Some(w)),
                Some(g) => match spec_offset_region(w, g) {
                    Ok(x) => r == Ok::<Option<Rect>, String>(Some(x)),
                    Err(m) => r matches Err(e) && e@ == m,
                },
            },
        },
{
    match window_bounds {
        None => Ok(region),
        Some(w) => match region {
            None => Ok(Some(w)),
            Some(g) => Ok(Some(offset_window_relative_capture_region(w, g)?)),
        },
    }
}

/// Which capture paths a backend report exercises.
#[derive(Debug, Clone, Copy, PartialEq, Eq, Structural)]
pub enum CaptureBackendProbe {
    /// No probe (`none`).
    Skip,
    File,
    Frame,
    Region,
    DmaBuf,
    All,
}

/// The probes a request runs, in order: all four for `All`, none for `Skip`.
pub open spec fn spec_probe_steps(probe: CaptureBackendProbe) -> Seq<CaptureBackendProbe> {
    match probe {
        CaptureBackendProbe::Skip => Seq::empty(),
        CaptureBackendProbe::All => seq![
            CaptureBackendProbe::File,
            CaptureBackendProbe::Frame,
            CaptureBackendProbe::Region,
            CaptureBackendProbe::DmaBuf,
        ],
        other => seq![other],
    }
}

/// The probes a request runs (see [`spec_probe_steps`]).
pub fn capture_backend_probe_steps(probe: CaptureBackendProbe) -> (r: Vec<CaptureBackendProbe>)
    ensures
        r@ == spec_probe_steps(probe),
{
    let mut r: Vec<CaptureBackendProbe> = Vec::new();
    match probe {
        CaptureBackendProbe::Skip => {},
        CaptureBackendProbe::All => {
            r.push(CaptureBackendProbe::File);
            r.push(CaptureBackendProbe::Frame);
            r.push(CaptureBackendProbe::Region);
            r.push(CaptureBackendProbe::DmaBuf);
        },
        other => r.push(other),
    }
    assert(r@ =~= spec_probe_steps(probe));
    r
}

/// The name of a probe.
pub fn capture_backend_probe_name(probe: CaptureBackendProbe) -> (name: &'static str)
    ensures
        name@ == match probe {
            CaptureBackendProbe::Skip => "none"@,
            CaptureBackendProbe::File => "file"@,
            CaptureBackendProbe::Frame => "frame"@,
            CaptureBackendProbe::Region => "region"@,
            CaptureBackendProbe::DmaBuf => "dmabuf"@,
            CaptureBackendProbe::All => "all"@,
        },
{
    match probe {
        CaptureBackendProbe::Skip => "none",
        CaptureBackendProbe::File => "file",
        CaptureBackendProbe::Frame => "frame",
        CaptureBackendProbe::Region => "region",
        CaptureBackendProbe::DmaBuf => "dmabuf",
        CaptureBackendProbe::All => "all",
    }
}

/// The label of the path a frame came by.
pub open spec fn spec_source_label(source: CaptureFrameSource) -> Seq<char> {
    match source {
        CaptureFrameSource::DirectStdout => "direct-stdout"@,
        CaptureFrameSource::DmaBufZeroCopy => "dmabuf-zero-copy"@,
        CaptureFrameSource::FileFallback => "file-fallback"@,
        CaptureFrameSource::FullFrameCrop => "full-frame-crop"@,
    }
}

/// The label of the path a frame came by (see [`spec_source_label`]).
pub fn capture_frame_source_label(source: CaptureFrameSource) -> (label: &'static str)
    ensures
        label@ == spec_source_label(source),
{
    match source {
        CaptureFrameSource::DirectStdout => "direct-stdout",
        CaptureFrameSource::DmaBufZeroCopy => "dmabuf-zero-copy",
        CaptureFrameSource::FileFallback => "file-fallback",
        CaptureFrameSource::FullFrameCrop => "full-frame-crop",
    }
}

/// A rectangle as reports write it: `x,y,wxh`.
pub open spec fn spec_rect_text(rect: Rect) -> Seq<char> {
    dec_int(rect.x as int) + ","@ + dec_int(rect.y as int) + ","@ + dec(rect.width as nat) + "x"@
        + dec(rect.height as nat)
}

/// A rectangle as reports write it (see [`spec_rect_text`]).
pub fn format_rect(rect: Rect) -> (s: String)
    ensures
        s@ == spec_rect_text(rect),
{
    let mut s = i64_text(rect.x as i64);
    s.append(",");
    let y = i64_text(rect.y as i64);
    s.append(y.as_str());
    s.append(",");
    let w = u64_text(rect.width as u64);
    s.append(w.as_str());
    s.append("x");
    let h = u64_text(rect.height as u64);
    s.append(h.as_str());
    s
}

/// A zero-copy transport as a backend report lists it.
#[derive(Debug, Clone, PartialEq, Eq)]
pub struct ZeroCopyBackendReport {
    pub name: String,
    pub backend_kind: String,
    pub transport: String,
    pub availability: String,
    pub selected: bool,
    pub pipewire_backend_feature_enabled: bool,
    pub egl_backend_feature_enabled: bool,
    pub reason: Option<String>,
}

/// Reports a zero-copy transport: it is selected when the session offers it
/// and this build has the PipeWire backend; otherwise the report says why not.
pub fn zero_copy_backend_report(
    capability: ZeroCopyCaptureCapability,
    pipewire_backend_feature_enabled: bool,
    egl_backend_feature_enabled: bool,
) -> (r: ZeroCopyBackendReport)
    ensures
        r.name == capability.backend_name,
        r.backend_kind@ == spec_backend_kind_name(capability.backend_kind),
        r.transport@ == "xdg-desktop-portal-screencast-pipewire-dmabuf"@,
        r.availability@ == spec_availability_name(capability.availability),
        r.selected == (capability.availability == crate::backends::ZeroCopyAvailability::Available
            && pipewire_backend_feature_enabled),
        r.pipewire_backend_feature_enabled == pipewire_backend_feature_enabled,
        r.egl_backend_feature_enabled == egl_backend_feature_enabled,
        capability.availability != crate::backends::ZeroCopyAvailability::Available ==> (r.reason matches Some(
            m,
        ) && m@ == spec_availability_name(capability.availability)),
        capability.availability == crate::backends::ZeroCopyAvailability::Available
            && !pipewire_backend_feature_enabled ==> (r.reason matches Some(m) && m@
            == "compiled without pipewire-backend feature"@),
        capability.availability == crate::backends::ZeroCopyAvailability::Available
            && pipewire_backend_feature_enabled ==> r.reason is None,
{
    let available = capability.availability.is_available();
    let reason = if !available {
        Some(String::from_str(capability.availability.name()))
    } else if !pipewire_backend_feature_enabled {
        Some(String::from_str("compiled without pipewire-backend feature"))
    } else {
        None
    };
    ZeroCopyBackendReport {
        name: capability.backend_name,
        backend_kind: backend_kind_name(capability.backend_kind),
        transport: String::from_str(capability.transport.name()),
        availability: String::from_str(capability.availability.name()),
        selected: available && pipewire_backend_feature_enabled,
        pipewire_backend_feature_enabled,
        egl_backend_feature_enabled,
        reason,
    }
}

/// The warning for a transport the session offers but this build cannot use.
pub open spec fn msg_missing_pipewire_build(name: Seq<char>) -> Seq<char> {
    name + " is available in the session, but this build was compiled without pipewire-backend"@
}

/// The warnings of the reports up to `n`: one for each transport the session
/// offers while the build lacks the PipeWire backend.
pub open spec fn spec_backend_warnings(reports: Seq<ZeroCopyBackendReport>, n: int) -> Seq<Seq<char>>
    decreases n,
{
    if n <= 0 {
        Seq::empty()
    } else {
        let before = spec_backend_warnings(reports, n - 1);
        let r = reports[n - 1];
        if r.availability@ == "available"@ && !r.pipewire_backend_feature_enabled {
            before.push(msg_missing_pipewire_build(r.name@))
        } else {
            before
        }
    }
}

/// The warnings of a backend report: transports the build cannot use, and a
/// region probe run on the default region.
pub fn capture_backend_warnings(
    reports: &[ZeroCopyBackendReport],
    probe: CaptureBackendProbe,
    region: Option<Rect>,
) -> (r: Vec<String>)
    ensures
        crate::text::texts(r@) == if (probe == CaptureBackendProbe::Region || probe
            == CaptureBackendProbe::All) && region is None {
            spec_backend_warnings(reports@, reports@.len() as int).push(
                "region probe used default region 0,0,320,180"@,
            )
        } else {
            spec_backend_warnings(reports@, reports@.len() as int)
        },
{
    let mut r: Vec<String> = Vec::new();
    let mut i: usize = 0;
    while i < reports.len()
        invariant
            i <= reports@.len(),
            crate::text::texts(r@) == spec_backend_warnings(reports@, i as int),
        decreases reports@.len() - i,
    {
        let report = &reports[i];
        if str_eq(report.availability.as_str(), "available")
            && !report.pipewire_backend_feature_enabled {
            let mut m = report.name.clone();
            m.append(" is available in the session, but this build was compiled without pipewire-backend");
            let ghost before = r@;
            r.push(m);
            assert(crate::text::texts(r@) =~= crate::text::texts(before).push(m@));
        }
        i = i + 1;
    }
    let region_probe = match probe {
        CaptureBackendProbe::Region | CaptureBackendProbe::All => true,
        _ => false,
    };
    if region_probe && region.is_none() {
        let ghost before = r@;
        let m = String::from_str("region probe used default region 0,0,320,180");
        r.push(m);
        assert(crate::text::texts(r@) =~= crate::text::texts(before).push(m@));
    }
    r
}

/// A window-relative region that resolves lands inside the window, with its
/// size unchanged and its offset from the window's corner kept.
pub proof fn lemma_window_region_inside(origin: Rect, region: Rect)
    ensures
        spec_offset_region(origin, region) matches Ok(x) ==> {
            &&& origin.x <= x.x && x.x + x.width <= origin.x + origin.width
            &&& origin.y <= x.y && x.y + x.height <= origin.y + origin.height
            &&& x.width == region.width && x.height == region.height
            &&& x.x - origin.x == region.x && x.y - origin.y == region.y
        },
{
}

} // verus!
