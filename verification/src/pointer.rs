use vstd::prelude::*;

use crate::capture_requests::{offset_window_relative_capture_region, spec_offset_region};
use crate::fmt::{dec_int, i64_text};
use crate::selector::{debug_quoted, debug_text};
use crate::text::{chars_contains, chars_of, contains_sub, trim, trim_chars};
use crate::types::{Point, Rect, UiElement, WindowInfo};

verus! {

/// The kind of a refusal of a pointer request, as the RPC layer reports it.
#[derive(Debug, Clone, Copy, PartialEq, Eq, Structural)]
pub enum StatusCode {
    InvalidArgument,
    FailedPrecondition,
    NotFound,
    Internal,
    PermissionDenied,
    Unimplemented,
}

/// A refused pointer request: its kind and message.
#[derive(Debug, Clone, PartialEq, Eq)]
pub struct ActionStatus {
    pub code: StatusCode,
    pub message: String,
}

/// A refusal whose message is `message`.
pub open spec fn status_is(s: ActionStatus, code: StatusCode, message: Seq<char>) -> bool {
    s.code == code && s.message@ == message
}

fn status(code: StatusCode, message: &str) -> (s: ActionStatus)
    ensures
        status_is(s, code, message@),
{
    ActionStatus { code, message: String::from_str(message) }
}

/// The pointer actions that resolve a target.
#[derive(Debug, Clone, Copy, PartialEq, Eq, Structural)]
pub enum PointerAction {
    Click,
    Move,
    Drag,
}

/// The name of a pointer action in messages.
pub open spec fn action_name(action: PointerAction) -> Seq<char> {
    match action {
        PointerAction::Click => "click"@,
        PointerAction::Move => "move"@,
        PointerAction::Drag => "drag"@,
    }
}

impl PointerAction {
    /// The action's name in messages.
    pub fn name(self) -> (name: &'static str)
        ensures
            name@ == action_name(self),
    {
        match self {
            PointerAction::Click => "click",
            PointerAction::Move => "move",
            PointerAction::Drag => "drag",
        }
    }
}

/// How a click request names its target.
#[derive(Debug, Clone, PartialEq, Eq)]
pub enum ClickTarget {
    Coordinates(Point),
    Selector(String),
    Scope,
}

/// How many of the given flags are set.
pub open spec fn count_set(a: bool, b: bool, c: bool) -> int {
    (if a { 1int } else { 0int }) + (if b { 1int } else { 0int }) + (if c { 1int } else { 0int })
}

fn flag_count(a: bool, b: bool, c: bool) -> (n: usize)
    ensures
        n == count_set(a, b, c),
{
    let mut n: usize = 0;
    if a {
        n = n + 1;
    }
    if b {
        n = n + 1;
    }
    if c {
        n = n + 1;
    }
    n
}

/// The target of a click: exactly one of coordinates, a semantic selector
/// that is not blank, or a ratio/region/window scope.
pub fn click_target(coordinates: Option<Point>, semantic_selector: Option<String>, has_scope: bool) -> (r:
    Result<ClickTarget, ActionStatus>)
    ensures
        count_set(coordinates is Some, semantic_selector is Some, has_scope) != 1 ==> (r matches Err(
            s,
        ) && status_is(
            s,
            StatusCode::InvalidArgument,
            "provide exactly one click target: coordinates, semantic_selector, or ratio/region/window scope"@,
        )),
        count_set(coordinates is Some, semantic_selector is Some, has_scope) == 1 ==> match (
            coordinates,
            semantic_selector,
        ) {
            (Some(p), _) => r == Ok::<ClickTarget, ActionStatus>(ClickTarget::Coordinates(p)),
            (None, Some(sel)) => if trim(sel@).len() == 0 {
                r matches Err(s) && status_is(
                    s,
                    StatusCode::InvalidArgument,
                    "semantic_selector must not be empty"@,
                )
            } else {
                r matches Ok(ClickTarget::Selector(t)) && t@ == sel@
            },
            (None, None) => r == Ok::<ClickTarget, ActionStatus>(ClickTarget::Scope),
        },
{
    let has_coordinates = coordinates.is_some();
    let has_selector = semantic_selector.is_some();
    if flag_count(has_coordinates, has_selector, has_scope) != 1 {
        return Err(
            status(
                StatusCode::InvalidArgument,
                "provide exactly one click target: coordinates, semantic_selector, or ratio/region/window scope",
            ),
        );
    }
    match coordinates {
        Some(p) => Ok(ClickTarget::Coordinates(p)),
        None => match semantic_selector {
            Some(selector) => {
                let trimmed = trim_chars(&chars_of(selector.as_str()));
                if trimmed.len() == 0 {
                    Err(status(StatusCode::InvalidArgument, "semantic_selector must not be empty"))
                } else {
                    Ok(ClickTarget::Selector(selector))
                }
            },
            None => Ok(ClickTarget::Scope),
        },
    }
}

/// How a mouse-move request names its target.
#[derive(Debug, Clone, Copy, PartialEq, Eq, Structural)]
pub enum MoveTarget {
    Coordinates(Point),
    Relative(Point),
    Scope,
}

/// The target of a mouse move: exactly one of coordinates, an offset from
/// the cursor, or a ratio/region/window scope.
pub fn move_target(coordinates: Option<Point>, relative: Option<Point>, has_scope: bool) -> (r: Result<
    MoveTarget,
    ActionStatus,
>)
    ensures
        count_set(coordinates is Some, relative is Some, has_scope) != 1 ==> (r matches Err(s)
            && status_is(
            s,
            StatusCode::InvalidArgument,
            "provide exactly one move target: coordinates, relative, or ratio/region/window scope"@,
        )),
        count_set(coordinates is Some, relative is Some, has_scope) == 1 ==> r == Ok::<
            MoveTarget,
            ActionStatus,
        >(
            match (coordinates, relative) {
                (Some(p), _) => MoveTarget::Coordinates(p),
                (None, Some(d)) => MoveTarget::Relative(d),
                (None, None) => MoveTarget::Scope,
            },
        ),
{
    if flag_count(coordinates.is_some(), relative.is_some(), has_scope) != 1 {
        return Err(
            status(
                StatusCode::InvalidArgument,
                "provide exactly one move target: coordinates, relative, or ratio/region/window scope",
            ),
        );
    }
    match (coordinates, relative) {
        (Some(p), _) => Ok(MoveTarget::Coordinates(p)),
        (None, Some(d)) => Ok(MoveTarget::Relative(d)),
        (None, None) => Ok(MoveTarget::Scope),
    }
}

/// The cursor moved by an offset; each coordinate must stay in `i32`.
pub fn relative_move_position(current: Point, offset: Point) -> (r: Result<Point, ActionStatus>)
    ensures
        !fits(current.x + offset.x) ==> (r matches Err(s) && status_is(
            s,
            StatusCode::InvalidArgument,
            "relative move x coordinate overflows i32"@,
        )),
        fits(current.x + offset.x) && !fits(current.y + offset.y) ==> (r matches Err(s)
            && status_is(
            s,
            StatusCode::InvalidArgument,
            "relative move y coordinate overflows i32"@,
        )),
        fits(current.x + offset.x) && fits(current.y + offset.y) ==> r == Ok::<Point, ActionStatus>(
            Point { x: (current.x + offset.x) as i32, y: (current.y + offset.y) as i32 },
        ),
{
    let x = match current.x.checked_add(offset.x) {
        Some(x) => x,
        None => {
            return Err(
                status(StatusCode::InvalidArgument, "relative move x coordinate overflows i32"),
            );
        },
    };
    let y = match current.y.checked_add(offset.y) {
        Some(y) => y,
        None => {
            return Err(
                status(StatusCode::InvalidArgument, "relative move y coordinate overflows i32"),
            );
        },
    };
    Ok(Point::new(x, y))
}

/// Whether an integer fits in an `i32`.
pub open spec fn fits(v: int) -> bool {
    i32::MIN <= v <= i32::MAX
}

/// Where a drag starts.
#[derive(Debug, Clone, Copy, PartialEq, Eq, Structural)]
pub enum DragFrom {
    At(Point),
    Current,
    Ratio,
}

/// Where a drag ends.
#[derive(Debug, Clone, Copy, PartialEq, Eq, Structural)]
pub enum DragTo {
    At(Point),
    Ratio,
}

/// The endpoints of a drag. A region or window scope needs a ratio at one
/// end at least; the start is exactly one of a point, the cursor or a ratio,
/// and the end exactly one of a point or a ratio.
pub fn drag_endpoints(
    has_scope: bool,
    from: Option<Point>,
    from_current: bool,
    has_from_ratio: bool,
    to: Option<Point>,
    has_to_ratio: bool,
) -> (r: Result<(DragFrom, DragTo), ActionStatus>)
    ensures
        has_scope && !has_from_ratio && !has_to_ratio ==> (r matches Err(s) && status_is(
            s,
            StatusCode::InvalidArgument,
            "drag region/window scope requires from_ratio or to_ratio"@,
        )),
        !(has_scope && !has_from_ratio && !has_to_ratio) && count_set(
            from is Some,
            from_current,
            has_from_ratio,
        ) != 1 ==> (r matches Err(s) && status_is(
            s,
            StatusCode::InvalidArgument,
            "provide exactly one drag from endpoint: from, from_current, or from_ratio"@,
        )),
        !(has_scope && !has_from_ratio && !has_to_ratio) && count_set(
            from is Some,
            from_current,
            has_from_ratio,
        ) == 1 && count_set(to is Some, has_to_ratio, false) != 1 ==> (r matches Err(s)
            && status_is(
            s,
            StatusCode::InvalidArgument,
            "provide exactly one drag to endpoint: to or to_ratio"@,
        )),
        !(has_scope && !has_from_ratio && !has_to_ratio) && count_set(
            from is Some,
            from_current,
            has_from_ratio,
        ) == 1 && count_set(to is Some, has_to_ratio, false) == 1 ==> r == Ok::<
            (DragFrom, DragTo),
            ActionStatus,
        >(
            (
                match from {
                    Some(p) => DragFrom::At(p),
                    None => if from_current {
                        DragFrom::Current
                    } else {
                        DragFrom::Ratio
                    },
                },
                match to {
                    Some(p) => DragTo::At(p),
                    None => DragTo::Ratio,
                },
            ),
        ),
{
    if has_scope && !has_from_ratio && !has_to_ratio {
        return Err(
            status(
                StatusCode::InvalidArgument,
                "drag region/window scope requires from_ratio or to_ratio",
            ),
        );
    }
    if flag_count(from.is_some(), from_current, has_from_ratio) != 1 {
        return Err(
            status(
                StatusCode::InvalidArgument,
                "provide exactly one drag from endpoint: from, from_current, or from_ratio",
            ),
        );
    }
    if flag_count(to.is_some(), has_to_ratio, false) != 1 {
        return Err(
            status(StatusCode::InvalidArgument, "provide exactly one drag to endpoint: to or to_ratio"),
        );
    }
    let start = match from {
        Some(p) => DragFrom::At(p),
        None => if from_current {
            DragFrom::Current
        } else {
            DragFrom::Ratio
        },
    };
    let end = match to {
        Some(p) => DragTo::At(p),
        None => DragTo::Ratio,
    };
    Ok((start, end))
}

/// The rectangle a pointer ratio is taken in: a region inside the matched
/// window, the window, the region, or else the whole screen.
pub open spec fn spec_pointer_scope(
    action: PointerAction,
    window: Option<Rect>,
    region: Option<Rect>,
    screen_size: Option<(i64, i64)>,
) -> Result<Rect, (StatusCode, Seq<char>)> {
    match (window, region) {
        (Some(w), Some(g)) => match spec_offset_region(w, g) {
            Ok(x) => Ok(x),
            Err(m) => Err((StatusCode::InvalidArgument, m)),
        },
        (Some(w), None) => Ok(w),
        (None, Some(g)) => Ok(g),
        (None, None) => match screen_size {
            None => Err(
                (
                    StatusCode::FailedPrecondition,
                    action_name(action)
                        + " ratio without region/window requires a detectable screen size"@,
                ),
            ),
            Some((w, h)) => if !(0 <= w <= u32::MAX) {
                Err((StatusCode::Internal, "screen width overflows u32"@))
            } else if !(0 <= h <= u32::MAX) {
                Err((StatusCode::Internal, "screen height overflows u32"@))
            } else {
                Ok(Rect { x: 0, y: 0, width: w as u32, height: h as u32 })
            },
        },
    }
}

/// The rectangle a pointer ratio is taken in (see [`spec_pointer_scope`]).
pub fn pointer_scope(
    action: PointerAction,
    window: Option<Rect>,
    region: Option<Rect>,
    screen_size: Option<(i64, i64)>,
) -> (r: Result<Rect, ActionStatus>)
    ensures
        match spec_pointer_scope(action, window, region, screen_size) {
            Ok(x) => r == Ok::<Rect, ActionStatus>(x),
            Err((code, m)) => r matches Err(s) && status_is(s, code, m),
        },
{
    match (window, region) {
        (Some(w), Some(g)) => match offset_window_relative_capture_region(w, g) {
            Ok(x) => Ok(x),
            Err(message) => Err(ActionStatus { code: StatusCode::InvalidArgument, message }),
        },
        (Some(w), None) => Ok(w),
        (None, Some(g)) => Ok(g),
        (None, None) => match screen_size {
            None => {
                let mut message = String::from_str(action.name());
                message.append(" ratio without region/window requires a detectable screen size");
                Err(ActionStatus { code: StatusCode::FailedPrecondition, message })
            },
            Some((w, h)) => {
                if w < 0 || w > u32::MAX as i64 {
                    return Err(status(StatusCode::Internal, "screen width overflows u32"));
                }
                if h < 0 || h > u32::MAX as i64 {
                    return Err(status(StatusCode::Internal, "screen height overflows u32"));
                }
                Ok(Rect::new(0, 0, w as u32, h as u32))
            },
        },
    }
}

/// The first window that matched a pointer request's filters; it must exist
/// and have a non-empty size.
pub fn matched_pointer_window(action: PointerAction, first: Option<WindowInfo>) -> (r: Result<
    WindowInfo,
    ActionStatus,
>)
    ensures
        first is None ==> (r matches Err(s) && status_is(
            s,
            StatusCode::NotFound,
            "no window matched "@ + action_name(action) + " filters"@,
        )),
        first matches Some(w) ==> if w.bounds.width == 0 || w.bounds.height == 0 {
            r matches Err(s) && status_is(
                s,
                StatusCode::FailedPrecondition,
                "window "@ + w.id@ + " has empty bounds"@,
            )
        } else {
            r == Ok::<WindowInfo, ActionStatus>(w)
        },
{
    match first {
        None => {
            let mut message = String::from_str("no window matched ");
            message.append(action.name());
            message.append(" filters");
            Err(ActionStatus { code: StatusCode::NotFound, message })
        },
        Some(w) => {
            if w.bounds.width == 0 || w.bounds.height == 0 {
                let mut message = String::from_str("window ");
                message.append(w.id.as_str());
                message.append(" has empty bounds");
                Err(ActionStatus { code: StatusCode::FailedPrecondition, message })
            } else {
                Ok(w)
            }
        },
    }
}

/// `x,y` of a point.
pub open spec fn point_text(p: Point) -> Seq<char> {
    dec_int(p.x as int) + ","@ + dec_int(p.y as int)
}

/// A point as `x,y`.
pub fn point_description(p: Point) -> (s: String)
    ensures
        s@ == point_text(p),
{
    let mut s = i64_text(p.x as i64);
    s.append(",");
    let y = i64_text(p.y as i64);
    s.append(y.as_str());
    s
}

/// The description of a drag that starts at the cursor.
pub fn current_cursor_description(p: Point) -> (s: String)
    ensures
        s@ == "current cursor at "@ + point_text(p),
{
    let mut s = String::from_str("current cursor at ");
    let at = point_description(p);
    s.append(at.as_str());
    s
}

/// The description of a move by an offset from the cursor.
pub fn relative_move_description(offset: Point, current: Point) -> (s: String)
    ensures
        s@ == "relative "@ + point_text(offset) + " from "@ + point_text(current),
{
    let mut s = String::from_str("relative ");
    let d = point_description(offset);
    s.append(d.as_str());
    s.append(" from ");
    let c = point_description(current);
    s.append(c.as_str());
    s
}

/// The name a click target goes by: its label, else its role.
pub open spec fn element_caption(e: UiElement) -> Seq<char> {
    match e.label {
        Some(l) => l@,
        None => e.role@,
    }
}

/// The description of a click on an element found by a selector.
pub fn selector_target_description(selector: &str, position: Point, element: &UiElement) -> (s:
    String)
    ensures
        s@ == "selector "@ + debug_quoted(selector@) + " at "@ + point_text(position) + " ("@
            + element_caption(*element) + ")"@,
{
    let mut s = String::from_str("selector ");
    let quoted = debug_text(&chars_of(selector));
    s.append(quoted.as_str());
    s.append(" at ");
    let at = point_description(position);
    s.append(at.as_str());
    s.append(" (");
    match &element.label {
        Some(l) => s.append(l.as_str()),
        None => s.append(element.role.as_str()),
    }
    s.append(")");
    s
}

/// How a failed semantic lookup is reported: not found when no element
/// matched, an internal error otherwise.
pub fn semantic_click_status(message: String) -> (s: ActionStatus)
    ensures
        s.message@ == message@,
        s.code == (if contains_sub(message@, "no clickable accessibility element matched"@) {
            StatusCode::NotFound
        } else {
            StatusCode::Internal
        }),
{
    let hay = chars_of(message.as_str());
    let needle = chars_of("no clickable accessibility element matched");
    let code = if chars_contains(&hay, &needle) {
        StatusCode::NotFound
    } else {
        StatusCode::Internal
    };
    ActionStatus { code, message }
}

/// How a click is reported when both the accessibility lookup and the vision
/// fallback failed: not found when the tree was read but nothing matched, an
/// internal error when the tree could not be read.
pub fn click_fallback_failure(tree_read: bool, error: &str, fallback_error: &str) -> (s: ActionStatus)
    ensures
        tree_read ==> status_is(
            s,
            StatusCode::NotFound,
            error@ + "; vision fallback also failed: "@ + fallback_error@,
        ),
        !tree_read ==> status_is(
            s,
            StatusCode::Internal,
            "accessibility lookup failed: "@ + error@ + "; vision fallback also failed: "@
                + fallback_error@,
        ),
{
    let mut message = if tree_read {
        String::new()
    } else {
        String::from_str("accessibility lookup failed: ")
    };
    message.append(error);
    message.append("; vision fallback also failed: ");
    message.append(fallback_error);
    ActionStatus {
        code: if tree_read {
            StatusCode::NotFound
        } else {
            StatusCode::Internal
        },
        message,
    }
}

/// `using name/kind`, and the note that the cursor was put back.
pub open spec fn backend_tail(
    backend_name: Seq<char>,
    backend_kind: Seq<char>,
    restored: bool,
) -> Seq<char> {
    " using "@ + backend_name + "/"@ + backend_kind + if restored {
        " and restored"@
    } else {
        Seq::empty()
    }
}

fn append_backend_tail(s: &mut String, backend_name: &str, backend_kind: &str, restored: bool)
    ensures
        final(s)@ == old(s)@ + backend_tail(backend_name@, backend_kind@, restored),
{
    let ghost before = s@;
    s.append(" using ");
    s.append(backend_name);
    s.append("/");
    s.append(backend_kind);
    if restored {
        s.append(" and restored");
    }
    assert(s@ =~= before + backend_tail(backend_name@, backend_kind@, restored));
}

/// The reply to a click or a mouse move: what was (or would be) done, where,
/// with which backend, and whether the cursor was put back (only when the
/// action ran and a restore was asked).
pub open spec fn spec_action_message(
    verb: Seq<char>,
    description: Seq<char>,
    position: Point,
    backend_name: Seq<char>,
    backend_kind: Seq<char>,
    restored: bool,
) -> Seq<char> {
    verb + description + " ("@ + point_text(position) + ")"@ + backend_tail(
        backend_name,
        backend_kind,
        restored,
    )
}

fn action_message(
    verb: &str,
    description: &str,
    position: Point,
    backend_name: &str,
    backend_kind: &str,
    restored: bool,
) -> (s: String)
    ensures
        s@ == spec_action_message(
            verb@,
            description@,
            position,
            backend_name@,
            backend_kind@,
            restored,
        ),
{
    let mut s = String::from_str(verb);
    s.append(description);
    s.append(" (");
    let at = point_description(position);
    s.append(at.as_str());
    s.append(")");
    append_backend_tail(&mut s, backend_name, backend_kind, restored);
    s
}

/// The reply to a click (see [`spec_action_message`]).
pub fn click_action_message(
    dry_run: bool,
    restore: bool,
    description: &str,
    position: Point,
    backend_name: &str,
    backend_kind: &str,
) -> (s: String)
    ensures
        s@ == spec_action_message(
            if dry_run {
                "would click "@
            } else {
                "clicked "@
            },
            description@,
            position,
            backend_name@,
            backend_kind@,
            restore && !dry_run,
        ),
{
    let verb = if dry_run {
        "would click "
    } else {
        "clicked "
    };
    action_message(verb, description, position, backend_name, backend_kind, restore && !dry_run)
}

/// The reply to a mouse move (see [`spec_action_message`]).
pub fn move_action_message(
    dry_run: bool,
    restore: bool,
    description: &str,
    position: Point,
    backend_name: &str,
    backend_kind: &str,
) -> (s: String)
    ensures
        s@ == spec_action_message(
            if dry_run {
                "would move mouse to "@
            } else {
                "moved mouse to "@
            },
            description@,
            position,
            backend_name@,
            backend_kind@,
            restore && !dry_run,
        ),
{
    let verb = if dry_run {
        "would move mouse to "
    } else {
        "moved mouse to "
    };
    action_message(verb, description, position, backend_name, backend_kind, restore && !dry_run)
}

/// The reply to a drag: both endpoints with their descriptions, the backend,
/// and whether the cursor was put back.
pub fn drag_action_message(
    dry_run: bool,
    restore: bool,
    from: Point,
    from_description: &str,
    to: Point,
    to_description: &str,
    backend_name: &str,
    backend_kind: &str,
) -> (s: String)
    ensures
        s@ == (if dry_run {
            "would drag"@
        } else {
            "dragged"@
        }) + " from "@ + point_text(from) + " ("@ + from_description@ + ") to "@ + point_text(to)
            + " ("@ + to_description@ + ")"@ + backend_tail(
            backend_name@,
            backend_kind@,
            restore && !dry_run,
        ),
{
    let mut s = String::from_str(
        if dry_run {
            "would drag"
        } else {
            "dragged"
        },
    );
    s.append(" from ");
    let f = point_description(from);
    s.append(f.as_str());
    s.append(" (");
    s.append(from_description);
    s.append(") to ");
    let t = point_description(to);
    s.append(t.as_str());
    s.append(" (");
    s.append(to_description);
    s.append(")");
    append_backend_tail(&mut s, backend_name, backend_kind, restore && !dry_run);
    s
}

/// The keyboard actions that reply with what was done and the backend.
#[derive(Debug, Clone, Copy, PartialEq, Eq, Structural)]
pub enum KeyboardAction {
    TypeText,
    PasteText,
    Hotkey,
}

/// What a keyboard action did, or would do on a dry run.
pub open spec fn keyboard_verb(action: KeyboardAction, dry_run: bool) -> Seq<char> {
    match action {
        KeyboardAction::TypeText => if dry_run {
            "would type text"@
        } else {
            "typed text"@
        },
        KeyboardAction::PasteText => if dry_run {
            "would paste text"@
        } else {
            "pasted text"@
        },
        KeyboardAction::Hotkey => if dry_run {
            "would press hotkey"@
        } else {
            "pressed hotkey"@
        },
    }
}

/// The reply to typing, pasting or a hotkey: what was (or would be) done and
/// with which backend.
pub fn keyboard_action_message(
    action: KeyboardAction,
    dry_run: bool,
    backend_name: &str,
    backend_kind: &str,
) -> (s: String)
    ensures
        s@ == keyboard_verb(action, dry_run) + " using "@ + backend_name@ + "/"@ + backend_kind@,
{
    let mut s = String::from_str(
        match action {
            KeyboardAction::TypeText => if dry_run {
                "would type text"
            } else {
                "typed text"
            },
            KeyboardAction::PasteText => if dry_run {
                "would paste text"
            } else {
                "pasted text"
            },
            KeyboardAction::Hotkey => if dry_run {
                "would press hotkey"
            } else {
                "pressed hotkey"
            },
        },
    );
    s.append(" using ");
    s.append(backend_name);
    s.append("/");
    s.append(backend_kind);
    s
}

} // verus!
