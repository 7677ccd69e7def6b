use vstd::prelude::*;

use crate::selector::{debug_quoted, debug_text, is_one_of, non_empty_string, one_of, spec_non_empty};
use crate::text::{chars_of, trim, trim_chars};

verus! {

/// How pointer moves treat points outside the screen.
#[derive(Debug, Clone, Copy, PartialEq, Eq, Structural)]
pub enum MoveBoundsPolicy {
    Allow,
    Clamp,
    Fail,
}

/// Which tool injects input.
#[derive(Debug, Clone, Copy, PartialEq, Eq, Structural)]
pub enum InputToolSelection {
    Auto,
    Uinput,
    Ydotool,
    Xdotool,
    Wtype,
}

/// Which tool sets the clipboard.
#[derive(Debug, Clone, Copy, PartialEq, Eq, Structural)]
pub enum ClipboardBackendSelection {
    Auto,
    WlCopy,
    Xclip,
    Xsel,
}

/// Which tool sends the paste hotkey.
#[derive(Debug, Clone, Copy, PartialEq, Eq, Structural)]
pub enum PasteHotkeyBackendSelection {
    Auto,
    Ydotool,
    Xdotool,
}

/// What happens to the clipboard after a paste.
#[derive(Debug, Clone, Copy, PartialEq, Eq, Structural)]
pub enum ClipboardRestorePolicy {
    Strict,
    BestEffort,
    Off,
}

fn with_quoted(prefix: &str, value: &[char]) -> (r: String)
    ensures
        r@ == prefix@ + debug_quoted(value@),
{
    let mut m = String::from_str(prefix);
    let q = debug_text(value);
    m.append(q.as_str());
    m
}

/// The choice a request text selects, or why it selects none.
pub open spec fn spec_move_bounds_policy(value: Seq<char>) -> Result<MoveBoundsPolicy, Seq<char>> {
    let t = trim(value);
    if one_of(t, seq!["", "allow"]) {
        Ok(MoveBoundsPolicy::Allow)
    } else if one_of(t, seq!["clamp"]) {
        Ok(MoveBoundsPolicy::Clamp)
    } else if one_of(t, seq!["fail", "fail-out-of-bounds"]) {
        Ok(MoveBoundsPolicy::Fail)
    } else {
        Err("bounds_policy must be allow, clamp, or fail, got "@ + debug_quoted(t))
    }
}

/// Reads a request's choice from its trimmed text (see [`spec_move_bounds_policy`]).
pub fn parse_move_bounds_policy(value: &str) -> (r: Result<MoveBoundsPolicy, String>)
    ensures
        match spec_move_bounds_policy(value@) {
            Ok(c) => r == Ok::<MoveBoundsPolicy, String>(c),
            Err(m) => r matches Err(e) && e@ == m,
        },
{
    let all = chars_of(value);
    let t = trim_chars(&all);
    let names0: [&str; 2] = ["", "allow"];
    assert(names0@ =~= seq!["", "allow"]);
    let names1: [&str; 1] = ["clamp"];
    assert(names1@ =~= seq!["clamp"]);
    let names2: [&str; 2] = ["fail", "fail-out-of-bounds"];
    assert(names2@ =~= seq!["fail", "fail-out-of-bounds"]);
    if is_one_of(&t, &names0) {
        Ok(MoveBoundsPolicy::Allow)
    } else if is_one_of(&t, &names1) {
        Ok(MoveBoundsPolicy::Clamp)
    } else if is_one_of(&t, &names2) {
        Ok(MoveBoundsPolicy::Fail)
    } else {
        Err(with_quoted("bounds_policy must be allow, clamp, or fail, got ", &t))
    }
}

/// The choice a request text selects, or why it selects none.
pub open spec fn spec_input_backend_selection(value: Seq<char>) -> Result<InputToolSelection, Seq<char>> {
    let t = trim(value);
    if one_of(t, seq!["", "auto"]) {
        Ok(InputToolSelection::Auto)
    } else if one_of(t, seq!["uinput"]) {
        Ok(InputToolSelection::Uinput)
    } else if one_of(t, seq!["ydotool"]) {
        Ok(InputToolSelection::Ydotool)
    } else if one_of(t, seq!["xdotool"]) {
        Ok(InputToolSelection::Xdotool)
    } else {
        Err("backend must be auto, uinput, ydotool, or xdotool, got "@ + debug_quoted(t))
    }
}

/// Reads a request's choice from its trimmed text (see [`spec_input_backend_selection`]).
pub fn parse_input_backend_selection(value: &str) -> (r: Result<InputToolSelection, String>)
    ensures
        match spec_input_backend_selection(value@) {
            Ok(c) => r == Ok::<InputToolSelection, String>(c),
            Err(m) => r matches Err(e) && e@ == m,
        },
{
    let all = chars_of(value);
    let t = trim_chars(&all);
    let names0: [&str; 2] = ["", "auto"];
    assert(names0@ =~= seq!["", "auto"]);
    let names1: [&str; 1] = ["uinput"];
    assert(names1@ =~= seq!["uinput"]);
    let names2: [&str; 1] = ["ydotool"];
    assert(names2@ =~= seq!["ydotool"]);
    let names3: [&str; 1] = ["xdotool"];
    assert(names3@ =~= seq!["xdotool"]);
    if is_one_of(&t, &names0) {
        Ok(InputToolSelection::Auto)
    } else if is_one_of(&t, &names1) {
        Ok(InputToolSelection::Uinput)
    } else if is_one_of(&t, &names2) {
        Ok(InputToolSelection::Ydotool)
    } else if is_one_of(&t, &names3) {
        Ok(InputToolSelection::Xdotool)
    } else {
        Err(with_quoted("backend must be auto, uinput, ydotool, or xdotool, got ", &t))
    }
}

/// The choice a request text selects, or why it selects none.
pub open spec fn spec_type_backend_selection(value: Seq<char>) -> Result<InputToolSelection, Seq<char>> {
    let t = trim(value);
    if one_of(t, seq!["", "auto"]) {
        Ok(InputToolSelection::Auto)
    } else if one_of(t, seq!["wtype"]) {
        Ok(InputToolSelection::Wtype)
    } else if one_of(t, seq!["ydotool"]) {
        Ok(InputToolSelection::Ydotool)
    } else if one_of(t, seq!["xdotool"]) {
        Ok(InputToolSelection::Xdotool)
    } else {
        Err("backend must be auto, wtype, ydotool, or xdotool for type, got "@ + debug_quoted(t))
    }
}

/// Reads a request's choice from its trimmed text (see [`spec_type_backend_selection`]).
pub fn parse_type_backend_selection(value: &str) -> (r: Result<InputToolSelection, String>)
    ensures
        match spec_type_backend_selection(value@) {
            Ok(c) => r == Ok::<InputToolSelection, String>(c),
            Err(m) => r matches Err(e) && e@ == m,
        },
{
    let all = chars_of(value);
    let t = trim_chars(&all);
    let names0: [&str; 2] = ["", "auto"];
    assert(names0@ =~= seq!["", "auto"]);
    let names1: [&str; 1] = ["wtype"];
    assert(names1@ =~= seq!["wtype"]);
    let names2: [&str; 1] = ["ydotool"];
    assert(names2@ =~= seq!["ydotool"]);
    let names3: [&str; 1] = ["xdotool"];
    assert(names3@ =~= seq!["xdotool"]);
    if is_one_of(&t, &names0) {
        Ok(InputToolSelection::Auto)
    } else if is_one_of(&t, &names1) {
        Ok(InputToolSelection::Wtype)
    } else if is_one_of(&t, &names2) {
        Ok(InputToolSelection::Ydotool)
    } else if is_one_of(&t, &names3) {
        Ok(InputToolSelection::Xdotool)
    } else {
        Err(with_quoted("backend must be auto, wtype, ydotool, or xdotool for type, got ", &t))
    }
}

/// The choice a request text selects, or why it selects none.
pub open spec fn spec_clipboard_backend_selection(value: Seq<char>) -> Result<ClipboardBackendSelection, Seq<char>> {
    let t = trim(value);
    if one_of(t, seq!["", "auto"]) {
        Ok(ClipboardBackendSelection::Auto)
    } else if one_of(t, seq!["wl-copy", "wlcopy"]) {
        Ok(ClipboardBackendSelection::WlCopy)
    } else if one_of(t, seq!["xclip"]) {
        Ok(ClipboardBackendSelection::Xclip)
    } else if one_of(t, seq!["xsel"]) {
        Ok(ClipboardBackendSelection::Xsel)
    } else {
        Err("clipboard_backend must be auto, wl-copy, xclip, or xsel, got "@ + debug_quoted(t))
    }
}

/// Reads a request's choice from its trimmed text (see [`spec_clipboard_backend_selection`]).
pub fn parse_clipboard_backend_selection(value: &str) -> (r: Result<ClipboardBackendSelection, String>)
    ensures
        match spec_clipboard_backend_selection(value@) {
            Ok(c) => r == Ok::<ClipboardBackendSelection, String>(c),
            Err(m) => r matches Err(e) && e@ == m,
        },
{
    let all = chars_of(value);
    let t = trim_chars(&all);
    let names0: [&str; 2] = ["", "auto"];
    assert(names0@ =~= seq!["", "auto"]);
    let names1: [&str; 2] = ["wl-copy", "wlcopy"];
    assert(names1@ =~= seq!["wl-copy", "wlcopy"]);
    let names2: [&str; 1] = ["xclip"];
    assert(names2@ =~= seq!["xclip"]);
    let names3: [&str; 1] = ["xsel"];
    assert(names3@ =~= seq!["xsel"]);
    if is_one_of(&t, &names0) {
        Ok(ClipboardBackendSelection::Auto)
    } else if is_one_of(&t, &names1) {
        Ok(ClipboardBackendSelection::WlCopy)
    } else if is_one_of(&t, &names2) {
        Ok(ClipboardBackendSelection::Xclip)
    } else if is_one_of(&t, &names3) {
        Ok(ClipboardBackendSelection::Xsel)
    } else {
        Err(with_quoted("clipboard_backend must be auto, wl-copy, xclip, or xsel, got ", &t))
    }
}

/// The choice a request text selects, or why it selects none.
pub open spec fn spec_paste_hotkey_backend_selection(value: Seq<char>) -> Result<PasteHotkeyBackendSelection, Seq<char>> {
    let t = trim(value);
    if one_of(t, seq!["", "auto"]) {
        Ok(PasteHotkeyBackendSelection::Auto)
    } else if one_of(t, seq!["ydotool"]) {
        Ok(PasteHotkeyBackendSelection::Ydotool)
    } else if one_of(t, seq!["xdotool"]) {
        Ok(PasteHotkeyBackendSelection::Xdotool)
    } else {
        Err("hotkey_backend must be auto, ydotool, or xdotool, got "@ + debug_quoted(t))
    }
}

/// Reads a request's choice from its trimmed text (see [`spec_paste_hotkey_backend_selection`]).
pub fn parse_paste_hotkey_backend_selection(value: &str) -> (r: Result<PasteHotkeyBackendSelection, String>)
    ensures
        match spec_paste_hotkey_backend_selection(value@) {
            Ok(c) => r == Ok::<PasteHotkeyBackendSelection, String>(c),
            Err(m) => r matches Err(e) && e@ == m,
        },
{
    let all = chars_of(value);
    let t = trim_chars(&all);
    let names0: [&str; 2] = ["", "auto"];
    assert(names0@ =~= seq!["", "auto"]);
    let names1: [&str; 1] = ["ydotool"];
    assert(names1@ =~= seq!["ydotool"]);
    let names2: [&str; 1] = ["xdotool"];
    assert(names2@ =~= seq!["xdotool"]);
    if is_one_of(&t, &names0) {
        Ok(PasteHotkeyBackendSelection::Auto)
    } else if is_one_of(&t, &names1) {
        Ok(PasteHotkeyBackendSelection::Ydotool)
    } else if is_one_of(&t, &names2) {
        Ok(PasteHotkeyBackendSelection::Xdotool)
    } else {
        Err(with_quoted("hotkey_backend must be auto, ydotool, or xdotool, got ", &t))
    }
}

/// The choice a request text selects, or why it selects none.
pub open spec fn spec_hotkey_backend_selection(value: Seq<char>) -> Result<InputToolSelection, Seq<char>> {
    let t = trim(value);
    if one_of(t, seq!["", "auto"]) {
        Ok(InputToolSelection::Auto)
    } else if one_of(t, seq!["ydotool"]) {
        Ok(InputToolSelection::Ydotool)
    } else if one_of(t, seq!["xdotool"]) {
        Ok(InputToolSelection::Xdotool)
    } else {
        Err("backend must be auto, ydotool, or xdotool for hotkey, got "@ + debug_quoted(t))
    }
}

/// Reads a request's choice from its trimmed text (see [`spec_hotkey_backend_selection`]).
pub fn parse_hotkey_backend_selection(value: &str) -> (r: Result<InputToolSelection, String>)
    ensures
        match spec_hotkey_backend_selection(value@) {
            Ok(c) => r == Ok::<InputToolSelection, String>(c),
            Err(m) => r matches Err(e) && e@ == m,
        },
{
    let all = chars_of(value);
    let t = trim_chars(&all);
    let names0: [&str; 2] = ["", "auto"];
    assert(names0@ =~= seq!["", "auto"]);
    let names1: [&str; 1] = ["ydotool"];
    assert(names1@ =~= seq!["ydotool"]);
    let names2: [&str; 1] = ["xdotool"];
    assert(names2@ =~= seq!["xdotool"]);
    if is_one_of(&t, &names0) {
        Ok(InputToolSelection::Auto)
    } else if is_one_of(&t, &names1) {
        Ok(InputToolSelection::Ydotool)
    } else if is_one_of(&t, &names2) {
        Ok(InputToolSelection::Xdotool)
    } else {
        Err(with_quoted("backend must be auto, ydotool, or xdotool for hotkey, got ", &t))
    }
}

/// The choice a request text selects, or why it selects none.
pub open spec fn spec_clipboard_restore_policy(value: Seq<char>) -> Result<ClipboardRestorePolicy, Seq<char>> {
    let t = trim(value);
    if one_of(t, seq!["", "strict"]) {
        Ok(ClipboardRestorePolicy::Strict)
    } else if one_of(t, seq!["best-effort", "best_effort"]) {
        Ok(ClipboardRestorePolicy::BestEffort)
    } else if one_of(t, seq!["off"]) {
        Ok(ClipboardRestorePolicy::Off)
    } else {
        Err("restore_policy must be strict, best-effort, or off, got "@ + debug_quoted(t))
    }
}

/// Reads a request's choice from its trimmed text (see [`spec_clipboard_restore_policy`]).
pub fn parse_clipboard_restore_policy(value: &str) -> (r: Result<ClipboardRestorePolicy, String>)
    ensures
        match spec_clipboard_restore_policy(value@) {
            Ok(c) => r == Ok::<ClipboardRestorePolicy, String>(c),
            Err(m) => r matches Err(e) && e@ == m,
        },
{
    let all = chars_of(value);
    let t = trim_chars(&all);
    let names0: [&str; 2] = ["", "strict"];
    assert(names0@ =~= seq!["", "strict"]);
    let names1: [&str; 2] = ["best-effort", "best_effort"];
    assert(names1@ =~= seq!["best-effort", "best_effort"]);
    let names2: [&str; 1] = ["off"];
    assert(names2@ =~= seq!["off"]);
    if is_one_of(&t, &names0) {
        Ok(ClipboardRestorePolicy::Strict)
    } else if is_one_of(&t, &names1) {
        Ok(ClipboardRestorePolicy::BestEffort)
    } else if is_one_of(&t, &names2) {
        Ok(ClipboardRestorePolicy::Off)
    } else {
        Err(with_quoted("restore_policy must be strict, best-effort, or off, got ", &t))
    }
}

/// The choice a request text selects, or why it selects none.
pub open spec fn spec_drag_backend_selection(value: Seq<char>) -> Result<InputToolSelection, Seq<char>> {
    let t = trim(value);
    if one_of(t, seq!["", "auto"]) {
        Ok(InputToolSelection::Auto)
    } else if one_of(t, seq!["uinput"]) {
        Ok(InputToolSelection::Uinput)
    } else if one_of(t, seq!["xdotool"]) {
        Ok(InputToolSelection::Xdotool)
    } else {
        Err("backend must be auto, uinput, or xdotool for drag, got "@ + debug_quoted(t))
    }
}

/// Reads a request's choice from its trimmed text (see [`spec_drag_backend_selection`]).
pub fn parse_drag_backend_selection(value: &str) -> (r: Result<InputToolSelection, String>)
    ensures
        match spec_drag_backend_selection(value@) {
            Ok(c) => r == Ok::<InputToolSelection, String>(c),
            Err(m) => r matches Err(e) && e@ == m,
        },
{
    let all = chars_of(value);
    let t = trim_chars(&all);
    let names0: [&str; 2] = ["", "auto"];
    assert(names0@ =~= seq!["", "auto"]);
    let names1: [&str; 1] = ["uinput"];
    assert(names1@ =~= seq!["uinput"]);
    let names2: [&str; 1] = ["xdotool"];
    assert(names2@ =~= seq!["xdotool"]);
    if is_one_of(&t, &names0) {
        Ok(InputToolSelection::Auto)
    } else if is_one_of(&t, &names1) {
        Ok(InputToolSelection::Uinput)
    } else if is_one_of(&t, &names2) {
        Ok(InputToolSelection::Xdotool)
    } else {
        Err(with_quoted("backend must be auto, uinput, or xdotool for drag, got ", &t))
    }
}

/// How a pointer move is carried out.
#[derive(Debug, Clone, Copy, PartialEq, Eq, Structural)]
pub struct MoveMouseOptions {
    pub duration_ms: u64,
    pub steps: Option<u32>,
    pub bounds_policy: MoveBoundsPolicy,
    pub backend: InputToolSelection,
}

/// How a click is carried out.
#[derive(Debug, Clone, Copy, PartialEq, Eq, Structural)]
pub struct ClickMouseOptions {
    pub bounds_policy: MoveBoundsPolicy,
    pub backend: InputToolSelection,
}

/// How text is typed.
#[derive(Debug, Clone, Copy, PartialEq, Eq, Structural)]
pub struct TypeTextOptions {
    pub typing_speed_chars_per_second: Option<u32>,
    pub delay_ms: Option<u64>,
    pub key_delay_ms: Option<u64>,
    pub backend: InputToolSelection,
}

/// How text is pasted.
#[derive(Debug, Clone, Copy, PartialEq, Eq, Structural)]
pub struct PasteTextOptions {
    pub preserve_clipboard: bool,
    pub clipboard_backend: ClipboardBackendSelection,
    pub hotkey_backend: PasteHotkeyBackendSelection,
    pub delay_ms: u64,
    pub restore_delay_ms: u64,
    pub restore_policy: ClipboardRestorePolicy,
}

/// How a hotkey is pressed.
#[derive(Debug, Clone, Copy, PartialEq, Eq, Structural)]
pub struct HotkeyOptions {
    pub backend: InputToolSelection,
    pub delay_ms: Option<u64>,
    pub key_delay_ms: Option<u64>,
    pub repeat: u32,
    pub interval_ms: u64,
    pub release_before: bool,
    pub release_after: bool,
}

/// How a drag is carried out.
#[derive(Debug, Clone, Copy, PartialEq, Eq, Structural)]
pub struct DragMouseOptions {
    pub duration_ms: u64,
    pub steps: Option<u32>,
    pub bounds_policy: MoveBoundsPolicy,
    pub backend: InputToolSelection,
}

/// The text a request gives, or a default when it gives none.
pub open spec fn or_default(value: Option<&str>, default: Seq<char>) -> Seq<char> {
    match value {
        Some(v) => v@,
        None => default,
    }
}

fn text_or<'a>(value: Option<&'a str>, default: &'a str) -> (r: &'a str)
    ensures
        r@ == or_default(value, default@),
{
    match value {
        Some(v) => v,
        None => default,
    }
}

/// The options of a pointer move: zero steps are refused; the bounds policy
/// defaults to `allow`, the backend to `auto`, the duration to zero.
pub fn move_options_from_fields(
    duration_ms: Option<u64>,
    steps: Option<u32>,
    bounds_policy: Option<&str>,
    backend: Option<&str>,
) -> (r: Result<MoveMouseOptions, String>)
    ensures
        steps == Some(0u32) ==> (r matches Err(e) && e@ == "move steps must be greater than zero"@),
        steps != Some(0u32) ==> match spec_move_bounds_policy(or_default(bounds_policy, "allow"@)) {
            Err(m) => r matches Err(e) && e@ == m,
            Ok(b) => match spec_input_backend_selection(or_default(backend, "auto"@)) {
                Err(m) => r matches Err(e) && e@ == m,
                Ok(k) => r == Ok::<MoveMouseOptions, String>(
                    MoveMouseOptions {
                        duration_ms: match duration_ms {
                            Some(d) => d,
                            None => 0,
                        },
                        steps,
                        bounds_policy: b,
                        backend: k,
                    },
                ),
            },
        },
{
    if steps == Some(0u32) {
        return Err(String::from_str("move steps must be greater than zero"));
    }
    let bounds_policy = parse_move_bounds_policy(text_or(bounds_policy, "allow"))?;
    let backend = parse_input_backend_selection(text_or(backend, "auto"))?;
    Ok(
        MoveMouseOptions {
            duration_ms: match duration_ms {
                Some(d) => d,
                None => 0,
            },
            steps,
            bounds_policy,
            backend,
        },
    )
}

/// The options of a click: the bounds policy defaults to `allow`, the
/// backend to `auto`.
pub fn click_options_from_fields(bounds_policy: Option<&str>, backend: Option<&str>) -> (r: Result<
    ClickMouseOptions,
    String,
>)
    ensures
        match spec_move_bounds_policy(or_default(bounds_policy, "allow"@)) {
            Err(m) => r matches Err(e) && e@ == m,
            Ok(b) => match spec_input_backend_selection(or_default(backend, "auto"@)) {
                Err(m) => r matches Err(e) && e@ == m,
                Ok(k) => r == Ok::<ClickMouseOptions, String>(
                    ClickMouseOptions { bounds_policy: b, backend: k },
                ),
            },
        },
{
    let bounds_policy = parse_move_bounds_policy(text_or(bounds_policy, "allow"))?;
    let backend = parse_input_backend_selection(text_or(backend, "auto"))?;
    Ok(ClickMouseOptions { bounds_policy, backend })
}

/// The options of typing: a zero speed is refused, and so is a speed given
/// together with a key delay; the backend defaults to `auto`.
pub fn type_options_from_fields(
    typing_speed_chars_per_second: Option<u32>,
    delay_ms: Option<u64>,
    key_delay_ms: Option<u64>,
    backend: Option<&str>,
) -> (r: Result<TypeTextOptions, String>)
    ensures
        typing_speed_chars_per_second == Some(0u32) ==> (r matches Err(e) && e@
            == "typing_speed_chars_per_second must be greater than zero"@),
        typing_speed_chars_per_second != Some(0u32) && typing_speed_chars_per_second is Some
            && key_delay_ms is Some ==> (r matches Err(e) && e@
            == "typing_speed_chars_per_second cannot be combined with key_delay_ms"@),
        typing_speed_chars_per_second != Some(0u32) && !(typing_speed_chars_per_second is Some
            && key_delay_ms is Some) ==> match spec_type_backend_selection(
            or_default(backend, "auto"@),
        ) {
            Err(m) => r matches Err(e) && e@ == m,
            Ok(k) => r == Ok::<TypeTextOptions, String>(
                TypeTextOptions { typing_speed_chars_per_second, delay_ms, key_delay_ms, backend: k },
            ),
        },
{
    if typing_speed_chars_per_second == Some(0u32) {
        return Err(String::from_str("typing_speed_chars_per_second must be greater than zero"));
    }
    if typing_speed_chars_per_second.is_some() && key_delay_ms.is_some() {
        return Err(
            String::from_str("typing_speed_chars_per_second cannot be combined with key_delay_ms"),
        );
    }
    let backend = parse_type_backend_selection(text_or(backend, "auto"))?;
    Ok(TypeTextOptions { typing_speed_chars_per_second, delay_ms, key_delay_ms, backend })
}

/// The options of a paste: the backends default to `auto`, the policy to
/// `strict`, the delays to 80 and 120 milliseconds.
pub fn paste_options_from_fields(
    preserve_clipboard: bool,
    clipboard_backend: Option<&str>,
    hotkey_backend: Option<&str>,
    delay_ms: Option<u64>,
    restore_delay_ms: Option<u64>,
    restore_policy: Option<&str>,
) -> (r: Result<PasteTextOptions, String>)
    ensures
        match spec_clipboard_backend_selection(or_default(clipboard_backend, "auto"@)) {
            Err(m) => r matches Err(e) && e@ == m,
            Ok(c) => match spec_paste_hotkey_backend_selection(or_default(hotkey_backend, "auto"@)) {
                Err(m) => r matches Err(e) && e@ == m,
                Ok(h) => match spec_clipboard_restore_policy(or_default(restore_policy, "strict"@)) {
                    Err(m) => r matches Err(e) && e@ == m,
                    Ok(p) => r == Ok::<PasteTextOptions, String>(
                        PasteTextOptions {
                            preserve_clipboard,
                            clipboard_backend: c,
                            hotkey_backend: h,
                            delay_ms: match delay_ms {
                                Some(d) => d,
                                None => 80,
                            },
                            restore_delay_ms: match restore_delay_ms {
                                Some(d) => d,
                                None => 120,
                            },
                            restore_policy: p,
                        },
                    ),
                },
            },
        },
{
    let clipboard_backend = parse_clipboard_backend_selection(text_or(clipboard_backend, "auto"))?;
    let hotkey_backend = parse_paste_hotkey_backend_selection(text_or(hotkey_backend, "auto"))?;
    let restore_policy = parse_clipboard_restore_policy(text_or(restore_policy, "strict"))?;
    Ok(
        PasteTextOptions {
            preserve_clipboard,
            clipboard_backend,
            hotkey_backend,
            delay_ms: match delay_ms {
                Some(d) => d,
                None => 80,
            },
            restore_delay_ms: match restore_delay_ms {
                Some(d) => d,
                None => 120,
            },
            restore_policy,
        },
    )
}

/// The options of a hotkey: zero repeats are refused; the backend defaults
/// to `auto`, the repeat count to one and the interval to zero.
pub fn hotkey_options_from_fields(
    backend: Option<&str>,
    delay_ms: Option<u64>,
    key_delay_ms: Option<u64>,
    repeat: Option<u32>,
    interval_ms: Option<u64>,
    release_before: bool,
    release_after: bool,
) -> (r: Result<HotkeyOptions, String>)
    ensures
        repeat == Some(0u32) ==> (r matches Err(e) && e@ == "hotkey repeat must be greater than zero"@),
        repeat != Some(0u32) ==> match spec_hotkey_backend_selection(or_default(backend, "auto"@)) {
            Err(m) => r matches Err(e) && e@ == m,
            Ok(k) => r == Ok::<HotkeyOptions, String>(
                HotkeyOptions {
                    backend: k,
                    delay_ms,
                    key_delay_ms,
                    repeat: match repeat {
                        Some(n) => n,
                        None => 1,
                    },
                    interval_ms: match interval_ms {
                        Some(n) => n,
                        None => 0,
                    },
                    release_before,
                    release_after,
                },
            ),
        },
{
    if repeat == Some(0u32) {
        return Err(String::from_str("hotkey repeat must be greater than zero"));
    }
    let backend = parse_hotkey_backend_selection(text_or(backend, "auto"))?;
    Ok(
        HotkeyOptions {
            backend,
            delay_ms,
            key_delay_ms,
            repeat: match repeat {
                Some(n) => n,
                None => 1,
            },
            interval_ms: match interval_ms {
                Some(n) => n,
                None => 0,
            },
            release_before,
            release_after,
        },
    )
}

/// The options of a drag: zero steps are refused; the duration defaults to
/// 250 milliseconds, the bounds policy to `allow`, the backend to `auto`.
pub fn drag_options_from_fields(
    duration_ms: Option<u64>,
    steps: Option<u32>,
    bounds_policy: Option<&str>,
    backend: Option<&str>,
) -> (r: Result<DragMouseOptions, String>)
    ensures
        steps == Some(0u32) ==> (r matches Err(e) && e@ == "drag steps must be greater than zero"@),
        steps != Some(0u32) ==> match spec_move_bounds_policy(or_default(bounds_policy, "allow"@)) {
            Err(m) => r matches Err(e) && e@ == m,
            Ok(b) => match spec_drag_backend_selection(or_default(backend, "auto"@)) {
                Err(m) => r matches Err(e) && e@ == m,
                Ok(k) => r == Ok::<DragMouseOptions, String>(
                    DragMouseOptions {
                        duration_ms: match duration_ms {
                            Some(d) => d,
                            None => 250,
                        },
                        steps,
                        bounds_policy: b,
                        backend: k,
                    },
                ),
            },
        },
{
    if steps == Some(0u32) {
        return Err(String::from_str("drag steps must be greater than zero"));
    }
    let bounds_policy = parse_move_bounds_policy(text_or(bounds_policy, "allow"))?;
    let backend = parse_drag_backend_selection(text_or(backend, "auto"))?;
    Ok(
        DragMouseOptions {
            duration_ms: match duration_ms {
                Some(d) => d,
                None => 250,
            },
            steps,
            bounds_policy,
            backend,
        },
    )
}

/// A hotkey names at least one key, and no key is blank.
pub open spec fn spec_hotkey_keys_error(keys: Seq<String>) -> Option<Seq<char>> {
    if keys.len() == 0 {
        Some("hotkey must contain at least one key"@)
    } else if exists|i: int| 0 <= i < keys.len() && trim((#[trigger] keys[i])@).len() == 0 {
        Some("hotkey keys must not be empty"@)
    } else {
        None
    }
}

/// Checks the keys of a hotkey (see [`spec_hotkey_keys_error`]).
pub fn validate_hotkey_keys(keys: &[String]) -> (r: Result<(), String>)
    ensures
        match spec_hotkey_keys_error(keys@) {
            Some(m) => r matches Err(e) && e@ == m,
            None => r is Ok,
        },
{
    if keys.len() == 0 {
        return Err(String::from_str("hotkey must contain at least one key"));
    }
    let mut i: usize = 0;
    while i < keys.len()
        invariant
            i <= keys@.len(),
            forall|j: int| 0 <= j < i ==> trim((#[trigger] keys@[j])@).len() != 0,
        decreases keys@.len() - i,
    {
        let all = chars_of(keys[i].as_str());
        let t = trim_chars(&all);
        if t.len() == 0 {
            return Err(String::from_str("hotkey keys must not be empty"));
        }
        i = i + 1;
    }
    Ok(())
}

/// What a desktop assertion checks about its target.
#[derive(Debug, Clone, PartialEq, Eq)]
pub enum DesktopAssertion {
    Present,
    NotPresent,
    Active,
    NotActive,
    Contains(String),
    NotContains(String),
}

/// The kinds of desktop assertion a request can ask for.
#[derive(Debug, Clone, Copy, PartialEq, Eq, Structural)]
pub enum DesktopAssertionKind {
    Present,
    NotPresent,
    Active,
    NotActive,
    Contains,
    NotContains,
}

/// A request gives an expected text that is not blank.
pub open spec fn has_expected_text(expected_text: Option<String>) -> bool {
    match expected_text {
        Some(t) => spec_non_empty(t@) is Some,
        None => false,
    }
}

/// The expected text of a text assertion: trimmed, and required.
pub fn required_expected_text(assertion: &str, expected_text: Option<String>) -> (r: Result<
    String,
    String,
>)
    ensures
        has_expected_text(expected_text) ==> (r matches Ok(s) && Some(s@) == spec_non_empty(
            expected_text->0@,
        )),
        !has_expected_text(expected_text) ==> (r matches Err(e) && e@ == "desktop assertion "@
            + assertion@ + " requires expected_text"@),
{
    let value = match &expected_text {
        Some(t) => non_empty_string(t.as_str()),
        None => None,
    };
    match value {
        Some(v) => Ok(v),
        None => {
            let mut m = String::from_str("desktop assertion ");
            m.append(assertion);
            m.append(" requires expected_text");
            Err(m)
        },
    }
}

/// The assertion a request asks for; the text kinds need a non-blank
/// expected text.
pub fn desktop_assertion(kind: DesktopAssertionKind, expected_text: Option<String>) -> (r: Result<
    DesktopAssertion,
    String,
>)
    ensures
        kind == DesktopAssertionKind::Present ==> r == Ok::<DesktopAssertion, String>(
            DesktopAssertion::Present,
        ),
        kind == DesktopAssertionKind::NotPresent ==> r == Ok::<DesktopAssertion, String>(
            DesktopAssertion::NotPresent,
        ),
        kind == DesktopAssertionKind::Active ==> r == Ok::<DesktopAssertion, String>(
            DesktopAssertion::Active,
        ),
        kind == DesktopAssertionKind::NotActive ==> r == Ok::<DesktopAssertion, String>(
            DesktopAssertion::NotActive,
        ),
        kind == DesktopAssertionKind::Contains && has_expected_text(expected_text) ==> (r matches Ok(
            DesktopAssertion::Contains(s),
        ) && Some(s@) == spec_non_empty(expected_text->0@)),
        kind == DesktopAssertionKind::NotContains && has_expected_text(expected_text) ==> (r matches Ok(
            DesktopAssertion::NotContains(s),
        ) && Some(s@) == spec_non_empty(expected_text->0@)),
        kind == DesktopAssertionKind::Contains && !has_expected_text(expected_text) ==> (r matches Err(
            e,
        ) && e@ == "desktop assertion "@ + "contains"@ + " requires expected_text"@),
        kind == DesktopAssertionKind::NotContains && !has_expected_text(expected_text) ==> (r matches Err(
            e,
        ) && e@ == "desktop assertion "@ + "not_contains"@ + " requires expected_text"@),
{
    match kind {
        DesktopAssertionKind::Present => Ok(DesktopAssertion::Present),
        DesktopAssertionKind::NotPresent => Ok(DesktopAssertion::NotPresent),
        DesktopAssertionKind::Active => Ok(DesktopAssertion::Active),
        DesktopAssertionKind::NotActive => Ok(DesktopAssertion::NotActive),
        DesktopAssertionKind::Contains => Ok(
            DesktopAssertion::Contains(required_expected_text("contains", expected_text)?),
        ),
        DesktopAssertionKind::NotContains => Ok(
            DesktopAssertion::NotContains(required_expected_text("not_contains", expected_text)?),
        ),
    }
}

} // verus!
