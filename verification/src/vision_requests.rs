use vstd::prelude::*;

use crate::capture_requests::CaptureTarget;
use crate::selector::{debug_quoted, debug_text, spec_split_once, split_once};
use crate::text::{chars_of, contains_sub, is_ws, str_eq, string_from_chars, trim, trim_chars};
use crate::types::{PeekabooXError, Rect};

verus! {

/// How two images of different sizes are compared.
#[derive(Debug, Clone, Copy, PartialEq, Eq, Structural)]
pub enum VisualSizePolicy {
    Error,
    CommonRegion,
    ResizeActual,
}

/// Whether the alpha channel takes part in a comparison.
#[derive(Debug, Clone, Copy, PartialEq, Eq, Structural)]
pub enum VisualAlphaMode {
    Ignore,
    Compare,
}

/// The order of detected elements.
#[derive(Debug, Clone, Copy, PartialEq, Eq, Structural)]
pub enum UiElementSort {
    Position,
    Area,
    Confidence,
}

fn with_quoted(prefix: &str, value: &str) -> (r: String)
    ensures
        r@ == prefix@ + debug_quoted(value@),
{
    let mut m = String::from_str(prefix);
    let chars = chars_of(value);
    let q = debug_text(&chars);
    m.append(q.as_str());
    m
}

/// The size policy a name selects, or why it selects none.
pub open spec fn spec_visual_size_policy(value: Seq<char>) -> Result<VisualSizePolicy, Seq<char>> {
    if value == "error"@ {
        Ok(VisualSizePolicy::Error)
    } else if value == "common-region"@ {
        Ok(VisualSizePolicy::CommonRegion)
    } else if value == "resize-actual"@ {
        Ok(VisualSizePolicy::ResizeActual)
    } else {
        Err("size_policy must be error, common-region, or resize-actual, got "@ + debug_quoted(value))
    }
}

/// The alpha mode a name selects, or why it selects none.
pub open spec fn spec_visual_alpha_mode(value: Seq<char>) -> Result<VisualAlphaMode, Seq<char>> {
    if value == "ignore"@ {
        Ok(VisualAlphaMode::Ignore)
    } else if value == "compare"@ {
        Ok(VisualAlphaMode::Compare)
    } else {
        Err("alpha must be ignore or compare, got "@ + debug_quoted(value))
    }
}

/// The element order a name selects, or why it selects none.
pub open spec fn spec_ui_element_sort(value: Seq<char>) -> Result<UiElementSort, Seq<char>> {
    if value == "position"@ {
        Ok(UiElementSort::Position)
    } else if value == "area"@ {
        Ok(UiElementSort::Area)
    } else if value == "confidence"@ {
        Ok(UiElementSort::Confidence)
    } else {
        Err("sort must be position, area, or confidence, got "@ + debug_quoted(value))
    }
}

/// Reads the size policy of an image comparison, as written (see
/// [`spec_visual_size_policy`]).
pub fn visual_size_policy_from_name(value: &str) -> (r: Result<VisualSizePolicy, String>)
    ensures
        match spec_visual_size_policy(value@) {
            Ok(p) => r == Ok::<VisualSizePolicy, String>(p),
            Err(m) => r matches Err(e) && e@ == m,
        },
{
    if str_eq(value, "error") {
        Ok(VisualSizePolicy::Error)
    } else if str_eq(value, "common-region") {
        Ok(VisualSizePolicy::CommonRegion)
    } else if str_eq(value, "resize-actual") {
        Ok(VisualSizePolicy::ResizeActual)
    } else {
        Err(with_quoted("size_policy must be error, common-region, or resize-actual, got ", value))
    }
}

/// Reads the alpha mode of an image comparison, as written (see
/// [`spec_visual_alpha_mode`]).
pub fn visual_alpha_mode_from_name(value: &str) -> (r: Result<VisualAlphaMode, String>)
    ensures
        match spec_visual_alpha_mode(value@) {
            Ok(p) => r == Ok::<VisualAlphaMode, String>(p),
            Err(m) => r matches Err(e) && e@ == m,
        },
{
    if str_eq(value, "ignore") {
        Ok(VisualAlphaMode::Ignore)
    } else if str_eq(value, "compare") {
        Ok(VisualAlphaMode::Compare)
    } else {
        Err(with_quoted("alpha must be ignore or compare, got ", value))
    }
}

/// Reads the order of detected elements, as written (see
/// [`spec_ui_element_sort`]).
pub fn ui_element_sort_from_name(value: &str) -> (r: Result<UiElementSort, String>)
    ensures
        match spec_ui_element_sort(value@) {
            Ok(p) => r == Ok::<UiElementSort, String>(p),
            Err(m) => r matches Err(e) && e@ == m,
        },
{
    if str_eq(value, "position") {
        Ok(UiElementSort::Position)
    } else if str_eq(value, "area") {
        Ok(UiElementSort::Area)
    } else if str_eq(value, "confidence") {
        Ok(UiElementSort::Confidence)
    } else {
        Err(with_quoted("sort must be position, area, or confidence, got ", value))
    }
}

/// One `key=value` configuration entry of the OCR engine.
#[derive(Debug, Clone, PartialEq, Eq)]
pub struct OcrConfig {
    pub key: String,
    pub value: String,
}

/// A text holds some whitespace character.
pub open spec fn has_ws(s: Seq<char>) -> bool {
    exists|i: int| 0 <= i < s.len() && is_ws(#[trigger] s[i])
}

/// An OCR configuration entry split at its first `=`: the trimmed key, which
/// must be a single word, and the value as written.
pub open spec fn spec_ocr_config(entry: Seq<char>) -> Result<(Seq<char>, Seq<char>), Seq<char>> {
    match spec_split_once(entry, seq!['=']) {
        None => Err("OCR config entries must be key=value"@),
        Some((k, v)) => if trim(k).len() == 0 || has_ws(trim(k)) {
            Err("OCR config keys must be non-empty and contain no whitespace"@)
        } else {
            Ok((trim(k), v))
        },
    }
}

fn chars_have_ws(s: &[char]) -> (r: bool)
    ensures
        r == has_ws(s@),
{
    let mut i: usize = 0;
    while i < s.len()
        invariant
            i <= s@.len(),
            forall|j: int| 0 <= j < i ==> !is_ws(#[trigger] s@[j]),
        decreases s@.len() - i,
    {
        if crate::text::char_is_ws(s[i]) {
            return true;
        }
        i = i + 1;
    }
    false
}

/// Reads an OCR configuration entry (see [`spec_ocr_config`]).
pub fn parse_ocr_config(entry: &str) -> (r: Result<OcrConfig, PeekabooXError>)
    ensures
        match spec_ocr_config(entry@) {
            Ok((k, v)) => r matches Ok(c) && c.key@ == k && c.value@ == v,
            Err(m) => r matches Err(e) && e.message@ == m,
        },
{
    let chars = chars_of(entry);
    let eq: Vec<char> = vec!['='];
    assert(eq@ =~= seq!['=']);
    match split_once(&chars, &eq) {
        None => Err(PeekabooXError::from_str("OCR config entries must be key=value")),
        Some((k, v)) => {
            let key = trim_chars(&k);
            if key.len() == 0 || chars_have_ws(&key) {
                return Err(
                    PeekabooXError::from_str(
                        "OCR config keys must be non-empty and contain no whitespace",
                    ),
                );
            }
            Ok(OcrConfig { key: string_from_chars(&key), value: string_from_chars(&v) })
        },
    }
}

/// Moves an OCR region relative to a window to screen coordinates.
pub fn offset_ocr_region(origin: Rect, region: Rect) -> (r: Result<Rect, PeekabooXError>)
    ensures
        !(i32::MIN <= origin.x + region.x <= i32::MAX) ==> (r matches Err(e) && e.message@
            == "OCR region x coordinate overflows i32"@),
        i32::MIN <= origin.x + region.x <= i32::MAX && !(i32::MIN <= origin.y + region.y
            <= i32::MAX) ==> (r matches Err(e) && e.message@
            == "OCR region y coordinate overflows i32"@),
        i32::MIN <= origin.x + region.x <= i32::MAX && i32::MIN <= origin.y + region.y
            <= i32::MAX ==> r == Ok::<Rect, PeekabooXError>(
            Rect {
                x: (origin.x + region.x) as i32,
                y: (origin.y + region.y) as i32,
                width: region.width,
                height: region.height,
            },
        ),
{
    let x: i64 = origin.x as i64 + region.x as i64;
    let y: i64 = origin.y as i64 + region.y as i64;
    if x < i32::MIN as i64 || x > i32::MAX as i64 {
        return Err(PeekabooXError::from_str("OCR region x coordinate overflows i32"));
    }
    if y < i32::MIN as i64 || y > i32::MAX as i64 {
        return Err(PeekabooXError::from_str("OCR region y coordinate overflows i32"));
    }
    Ok(Rect::new(x as i32, y as i32, region.width, region.height))
}

/// How a failed OCR request is reported.
#[derive(Debug, Clone, Copy, PartialEq, Eq, Structural)]
pub enum StatusKind {
    FailedPrecondition,
    Internal,
}

/// An OCR failure whose message says something is not available is a failed
/// precondition; any other is internal.
pub fn ocr_status_kind(message: &str) -> (k: StatusKind)
    ensures
        k == if contains_sub(message@, "not available"@) {
            StatusKind::FailedPrecondition
        } else {
            StatusKind::Internal
        },
{
    let hay = chars_of(message);
    let needle = chars_of("not available");
    if crate::text::chars_contains(&hay, &needle) {
        StatusKind::FailedPrecondition
    } else {
        StatusKind::Internal
    }
}

/// The name of a capture target, as audit records write it.
pub fn capture_target_name(target: Option<&CaptureTarget>) -> (name: &'static str)
    ensures
        name@ == match target {
            None => "full_screen_default"@,
            Some(CaptureTarget::FullScreen(true)) => "full_screen"@,
            Some(CaptureTarget::FullScreen(false)) => "full_screen_false"@,
            Some(CaptureTarget::Region(_)) => "region"@,
            Some(CaptureTarget::WindowId(_)) => "window"@,
        },
{
    match target {
        None => "full_screen_default",
        Some(CaptureTarget::FullScreen(true)) => "full_screen",
        Some(CaptureTarget::FullScreen(false)) => "full_screen_false",
        Some(CaptureTarget::Region(_)) => "region",
        Some(CaptureTarget::WindowId(_)) => "window",
    }
}

} // verus!
