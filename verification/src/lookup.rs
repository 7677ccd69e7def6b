use vstd::prelude::*;

use crate::cache::CachedAccessibilityTree;
use crate::capture_requests::clean_str;
use crate::selector::spec_non_empty;
use crate::matcher::{contains_case_insensitive, spec_contains_ci};
use crate::query::{spec_query_matches, ElementQuery, ElementQueryView};
use crate::text::{chars_of, opt_text, str_eq, texts, trim, trim_chars};
use crate::types::{spec_center, BackendKind, Rect, UiElement};

verus! {

/// The lower-case name of a backend kind.
pub open spec fn spec_backend_kind_name(kind: BackendKind) -> Seq<char> {
    match kind {
        BackendKind::Wayland => "wayland"@,
        BackendKind::X11 => "x11"@,
        BackendKind::Portal => "portal"@,
        BackendKind::AtSpi => "atspi"@,
        BackendKind::Uinput => "uinput"@,
        BackendKind::Vision => "vision"@,
        BackendKind::Mock => "mock"@,
    }
}

/// The lower-case name of a backend kind, as reports spell it.
pub fn backend_kind_name(kind: BackendKind) -> (s: String)
    ensures
        s@ == spec_backend_kind_name(kind),
{
    match kind {
        BackendKind::Wayland => String::from_str("wayland"),
        BackendKind::X11 => String::from_str("x11"),
        BackendKind::Portal => String::from_str("portal"),
        BackendKind::AtSpi => String::from_str("atspi"),
        BackendKind::Uinput => String::from_str("uinput"),
        BackendKind::Vision => String::from_str("vision"),
        BackendKind::Mock => String::from_str("mock"),
    }
}

/// The window or application an element lookup is confined to.
#[derive(Debug, Clone, PartialEq, Eq)]
pub struct ElementLookupScope {
    pub app: Option<String>,
    pub window_title: Option<String>,
    pub window_id: Option<String>,
}

/// An element lies in the scope: the same window id, a window title and an
/// application id that contain the scope's (ignoring ASCII case).
pub open spec fn spec_matches_scope(e: UiElement, scope: ElementLookupScope) -> bool {
    &&& (scope.window_id matches Some(w) ==> opt_text(e.window_id) == Some(w@))
    &&& (scope.window_title matches Some(t) ==> (e.window_title matches Some(v) && spec_contains_ci(
        v@,
        t@,
    )))
    &&& (scope.app matches Some(a) ==> (e.app_id matches Some(v) && spec_contains_ci(v@, a@)))
}

/// Whether an element lies in the scope (see [`spec_matches_scope`]).
pub fn element_matches_scope(element: &UiElement, scope: &ElementLookupScope) -> (r: bool)
    ensures
        r == spec_matches_scope(*element, *scope),
{
    let window_ok = match &scope.window_id {
        Some(w) => match &element.window_id {
            Some(v) => str_eq(v.as_str(), w.as_str()),
            None => false,
        },
        None => true,
    };
    let title_ok = match &scope.window_title {
        Some(t) => match &element.window_title {
            Some(v) => contains_case_insensitive(v.as_str(), t.as_str()),
            None => false,
        },
        None => true,
    };
    let app_ok = match &scope.app {
        Some(a) => match &element.app_id {
            Some(v) => contains_case_insensitive(v.as_str(), a.as_str()),
            None => false,
        },
        None => true,
    };
    window_ok && title_ok && app_ok
}

/// Whether the flag for element `i` is set; a missing flag is not.
pub open spec fn flag_at(flags: Seq<bool>, i: int) -> bool {
    0 <= i < flags.len() && flags[i]
}

/// The first `n` elements that match the query and lie in the scope, in
/// order.
pub open spec fn kept_elements(
    q: ElementQueryView,
    scope: ElementLookupScope,
    es: Seq<UiElement>,
    flags: Seq<bool>,
    n: int,
) -> Seq<UiElement>
    decreases n,
{
    if n <= 0 {
        Seq::empty()
    } else {
        let before = kept_elements(q, scope, es, flags, n - 1);
        if spec_query_matches(q, es[n - 1], flag_at(flags, n - 1)) && spec_matches_scope(
            es[n - 1],
            scope,
        ) {
            before.push(es[n - 1])
        } else {
            before
        }
    }
}

/// Keeps the elements that match the query and lie in the scope, in order;
/// `meets_confidence[i]` says whether element `i` reaches the query's
/// confidence threshold.
pub fn retain_matching(
    query: &ElementQuery,
    scope: &ElementLookupScope,
    elements: Vec<UiElement>,
    meets_confidence: &[bool],
) -> (r: Vec<UiElement>)
    ensures
        r@ == kept_elements(query@, *scope, elements@, meets_confidence@, elements@.len() as int),
{
    let ghost all = elements@;
    let n = elements.len();
    let mut rest = elements;
    let mut kept: Vec<UiElement> = Vec::new();
    let mut i: usize = 0;
    while rest.len() > 0
        invariant
            all.len() == n,
            i + rest@.len() == all.len(),
            rest@ == all.subrange(i as int, all.len() as int),
            kept@ == kept_elements(query@, *scope, all, meets_confidence@, i as int),
        decreases rest@.len(),
    {
        let e = rest.remove(0);
        assert(e == all[i as int]);
        assert(rest@ =~= all.subrange(i + 1, all.len() as int));
        let ok = i < meets_confidence.len() && meets_confidence[i];
        if query.matches(&e, ok) && element_matches_scope(&e, scope) {
            kept.push(e);
        }
        i = i + 1;
    }
    kept
}

/// What an element lookup found.
#[derive(Debug, Clone, PartialEq, Eq)]
pub struct ElementLookupResult {
    pub backend_name: String,
    pub backend_kind: String,
    pub warnings: Vec<String>,
    pub elements: Vec<UiElement>,
    pub cache_hit: bool,
    pub cache_age_ms: u128,
    pub vision_fallback_used: bool,
}

/// How an element lookup goes on after the semantic tree was asked.
#[derive(Debug)]
pub enum LookupOutcome {
    /// The lookup is answered from the tree.
    Found(ElementLookupResult),
    /// The vision fallback is to answer; the warning is added to its result.
    Fallback(String),
}

/// Decides an element lookup from what reading the semantic tree gave: the
/// matching elements of the tree when there are some or no fallback is
/// wanted, else the vision fallback with the reason as a warning; a failed
/// read is the error unless the fallback is wanted.
pub fn element_lookup_from_tree(
    query: &ElementQuery,
    scope: &ElementLookupScope,
    use_vision_fallback: bool,
    accessibility_result: Result<CachedAccessibilityTree, String>,
    meets_confidence: &[bool],
) -> (r: Result<LookupOutcome, String>)
    ensures
        match accessibility_result {
            Ok(tree) => {
                let kept = kept_elements(
                    query@,
                    *scope,
                    tree.metadata.elements@,
                    meets_confidence@,
                    tree.metadata.elements@.len() as int,
                );
                if kept.len() > 0 || !use_vision_fallback {
                    r matches Ok(LookupOutcome::Found(x)) && {
                        &&& x.backend_name == tree.metadata.backend_name
                        &&& x.backend_kind@ == spec_backend_kind_name(tree.metadata.backend_kind)
                        &&& x.warnings == tree.metadata.warnings
                        &&& x.elements@ == kept
                        &&& x.cache_hit == tree.cache_hit
                        &&& x.cache_age_ms == tree.age_ms
                        &&& !x.vision_fallback_used
                    }
                } else {
                    r matches Ok(LookupOutcome::Fallback(w)) && w@
                        == "no accessibility elements matched; used vision fallback"@
                }
            },
            Err(e) => if use_vision_fallback {
                r matches Ok(LookupOutcome::Fallback(w)) && w@ == "accessibility lookup failed: "@
                    + e@ + "; used vision fallback"@
            } else {
                r == Err::<LookupOutcome, String>(e)
            },
        },
{
    match accessibility_result {
        Ok(tree) => {
            let CachedAccessibilityTree { metadata, cache_hit, age_ms } = tree;
            let kind = backend_kind_name(metadata.backend_kind);
            let elements = retain_matching(query, scope, metadata.elements, meets_confidence);
            if elements.len() > 0 || !use_vision_fallback {
                Ok(
                    LookupOutcome::Found(
                        ElementLookupResult {
                            backend_name: metadata.backend_name,
                            backend_kind: kind,
                            warnings: metadata.warnings,
                            elements,
                            cache_hit,
                            cache_age_ms: age_ms,
                            vision_fallback_used: false,
                        },
                    ),
                )
            } else {
                Ok(
                    LookupOutcome::Fallback(
                        String::from_str("no accessibility elements matched; used vision fallback"),
                    ),
                )
            }
        },
        Err(e) => {
            if use_vision_fallback {
                let mut w = String::from_str("accessibility lookup failed: ");
                w.append(e.as_str());
                w.append("; used vision fallback");
                Ok(LookupOutcome::Fallback(w))
            } else {
                Err(e)
            }
        },
    }
}

/// Elements found in a region of the screen, placed in screen coordinates
/// and given the scope's window and application.
pub open spec fn spec_scoped_element(e: UiElement, scope: ElementLookupScope, region: Option<Rect>) -> UiElement {
    let bounds = match region {
        Some(r) => Rect { x: (e.bounds.x + r.x) as i32, y: (e.bounds.y + r.y) as i32, ..e.bounds },
        None => e.bounds,
    };
    UiElement {
        bounds,
        center: match region {
            Some(_) => spec_center(bounds),
            None => e.center,
        },
        window_id: scope.window_id,
        window_title: scope.window_title,
        app_id: scope.app,
        ..e
    }
}

/// The region's origin can be added to every element's origin.
pub open spec fn offsets_fit(es: Seq<UiElement>, region: Option<Rect>) -> bool {
    region matches Some(r) ==> forall|i: int|
        0 <= i < es.len() ==> i32::MIN <= (#[trigger] es[i]).bounds.x + r.x <= i32::MAX && i32::MIN
            <= es[i].bounds.y + r.y <= i32::MAX
}

fn copy_opt_text(s: &Option<String>) -> (r: Option<String>)
    ensures
        r == *s,
{
    match s {
        Some(t) => Some(t.clone()),
        None => None,
    }
}

/// Moves elements found in a captured region to screen coordinates and gives
/// them the scope's window and application (see [`spec_scoped_element`]).
pub fn apply_element_scope_metadata(
    elements: &mut Vec<UiElement>,
    scope: &ElementLookupScope,
    capture_region: Option<Rect>,
)
    requires
        offsets_fit(old(elements)@, capture_region),
    ensures
        final(elements)@.len() == old(elements)@.len(),
        forall|i: int|
            0 <= i < old(elements)@.len() ==> #[trigger] final(elements)@[i] == spec_scoped_element(
                old(elements)@[i],
                *scope,
                capture_region,
            ),
{
    let ghost before = elements@;
    let mut i: usize = 0;
    while i < elements.len()
        invariant
            elements@.len() == before.len(),
            i <= before.len(),
            offsets_fit(before, capture_region),
            forall|j: int|
                0 <= j < i ==> #[trigger] elements@[j] == spec_scoped_element(
                    before[j],
                    *scope,
                    capture_region,
                ),
            forall|j: int| i <= j < before.len() ==> #[trigger] elements@[j] == before[j],
        decreases before.len() - i,
    {
        let mut e = elements.remove(i);
        assert(e == before[i as int]);
        if let Some(region) = capture_region {
            e.bounds.x = e.bounds.x + region.x;
            e.bounds.y = e.bounds.y + region.y;
            e.center = e.bounds.center();
        }
        e.window_id = copy_opt_text(&scope.window_id);
        e.window_title = copy_opt_text(&scope.window_title);
        e.app_id = copy_opt_text(&scope.app);
        let ghost mid = elements@;
        elements.insert(i, e);
        assert forall|j: int| 0 <= j < i implies #[trigger] elements@[j] == spec_scoped_element(
            before[j],
            *scope,
            capture_region,
        ) by {
            assert(elements@[j] == mid[j]);
        }
        assert forall|j: int| i < j < before.len() implies #[trigger] elements@[j] == before[j] by {
            assert(elements@[j] == mid[j - 1]);
        }
        i = i + 1;
    }
}

fn clean_opt(value: &Option<String>) -> (r: Option<String>)
    ensures
        match spec_clean_field(*value) {
            Some(t) => r matches Some(s) && s@ == t,
            None => r is None,
        },
{
    match value {
        Some(v) => clean_str(Some(v.as_str())),
        None => clean_str(None),
    }
}

/// An optional request field's text, trimmed, unless blank.
pub open spec fn spec_clean_field(value: Option<String>) -> Option<Seq<char>> {
    match value {
        Some(v) => spec_non_empty(v@),
        None => None,
    }
}

/// The scope of an element lookup from a request's fields, each trimmed and
/// dropped when blank.
pub fn element_lookup_scope(app: Option<String>, window_title: Option<String>, window_id: Option<String>) -> (r:
    ElementLookupScope)
    ensures
        opt_text(r.app) == spec_clean_field(app),
        opt_text(r.window_title) == spec_clean_field(window_title),
        opt_text(r.window_id) == spec_clean_field(window_id),
{
    ElementLookupScope {
        app: clean_opt(&app),
        window_title: clean_opt(&window_title),
        window_id: clean_opt(&window_id),
    }
}

/// The settings of the vision detector that a request overrides; the rest
/// keep the detector's defaults.
#[derive(Debug, Clone, Copy, PartialEq, Eq, Structural)]
pub struct VisionDetectionOverrides {
    pub edge_threshold: Option<u8>,
    pub min_width: Option<u32>,
    pub min_height: Option<u32>,
    pub min_component_pixels: Option<u32>,
    pub max_elements: Option<usize>,
    pub merge_distance: Option<u32>,
}

/// Reads a request's vision detector settings: the edge threshold must fit a
/// byte, checked first, and the element limit must fit a `usize`.
pub fn vision_detection_overrides(
    edge_threshold: Option<u32>,
    min_width: Option<u32>,
    min_height: Option<u32>,
    min_component_pixels: Option<u32>,
    max_elements: Option<u32>,
    merge_distance: Option<u32>,
) -> (r: Result<VisionDetectionOverrides, String>)
    ensures
        edge_threshold matches Some(t) && t > 255 ==> (r matches Err(m) && m@
            == "vision_edge_threshold must be between 0 and 255"@),
        !(edge_threshold matches Some(t) && t > 255) && (max_elements matches Some(n) && n
            > usize::MAX) ==> (r matches Err(m) && m@ == "vision_max_elements is too large"@),
        !(edge_threshold matches Some(t) && t > 255) && !(max_elements matches Some(n) && n
            > usize::MAX) ==> r == Ok::<VisionDetectionOverrides, String>(
            VisionDetectionOverrides {
                edge_threshold: match edge_threshold {
                    Some(t) => Some(t as u8),
                    None => None,
                },
                min_width,
                min_height,
                min_component_pixels,
                max_elements: match max_elements {
                    Some(n) => Some(n as usize),
                    None => None,
                },
                merge_distance,
            },
        ),
{
    let edge = match edge_threshold {
        Some(t) => {
            if t > 255 {
                return Err(String::from_str("vision_edge_threshold must be between 0 and 255"));
            }
            Some(t as u8)
        },
        None => None,
    };
    let max = match max_elements {
        Some(n) => {
            if n as u64 > usize::MAX as u64 {
                return Err(String::from_str("vision_max_elements is too large"));
            }
            Some(n as usize)
        },
        None => None,
    };
    Ok(
        VisionDetectionOverrides {
            edge_threshold: edge,
            min_width,
            min_height,
            min_component_pixels,
            max_elements: max,
            merge_distance,
        },
    )
}

/// The first `n` elements that match the query, in order.
pub open spec fn query_kept(q: ElementQueryView, es: Seq<UiElement>, flags: Seq<bool>, n: int) -> Seq<
    UiElement,
>
    decreases n,
{
    if n <= 0 {
        Seq::empty()
    } else {
        let before = query_kept(q, es, flags, n - 1);
        if spec_query_matches(q, es[n - 1], flag_at(flags, n - 1)) {
            before.push(es[n - 1])
        } else {
            before
        }
    }
}

/// Keeps the elements that match the query, in order (see [`query_kept`]).
pub fn retain_query_matches(query: &ElementQuery, elements: Vec<UiElement>, meets_confidence: &[bool]) -> (r:
    Vec<UiElement>)
    ensures
        r@ == query_kept(query@, elements@, meets_confidence@, elements@.len() as int),
{
    let ghost all = elements@;
    let n = elements.len();
    let mut rest = elements;
    let mut kept: Vec<UiElement> = Vec::new();
    let mut i: usize = 0;
    while rest.len() > 0
        invariant
            all.len() == n,
            i + rest@.len() == n,
            rest@ == all.subrange(i as int, n as int),
            kept@ == query_kept(query@, all, meets_confidence@, i as int),
        decreases rest@.len(),
    {
        let e = rest.remove(0);
        assert(e == all[i as int]);
        assert(rest@ =~= all.subrange(i + 1, n as int));
        let ok = i < meets_confidence.len() && meets_confidence[i];
        if query.matches(&e, ok) {
            kept.push(e);
        }
        i = i + 1;
    }
    kept
}

/// The first `n` items whose element matches the query, in order, each with
/// what it carries.
pub open spec fn query_kept_with<T>(
    q: ElementQueryView,
    items: Seq<(UiElement, T)>,
    flags: Seq<bool>,
    n: int,
) -> Seq<(UiElement, T)>
    decreases n,
{
    if n <= 0 {
        Seq::empty()
    } else {
        let before = query_kept_with(q, items, flags, n - 1);
        if spec_query_matches(q, items[n - 1].0, flag_at(flags, n - 1)) {
            before.push(items[n - 1])
        } else {
            before
        }
    }
}

/// Keeps the items whose element matches the query, in order, with what each
/// carries (see [`query_kept_with`]); `meets_confidence[i]` says whether item
/// `i` reaches the query's confidence threshold.
pub fn retain_query_matches_with<T>(
    query: &ElementQuery,
    items: Vec<(UiElement, T)>,
    meets_confidence: &[bool],
) -> (r: Vec<(UiElement, T)>)
    ensures
        r@ == query_kept_with(query@, items@, meets_confidence@, items@.len() as int),
{
    let ghost all = items@;
    let n = items.len();
    let mut rest = items;
    let mut kept: Vec<(UiElement, T)> = Vec::new();
    let mut i: usize = 0;
    while rest.len() > 0
        invariant
            all.len() == n,
            i + rest@.len() == n,
            rest@ == all.subrange(i as int, n as int),
            kept@ == query_kept_with(query@, all, meets_confidence@, i as int),
        decreases rest@.len(),
    {
        let item = rest.remove(0);
        assert(item == all[i as int]);
        assert(rest@ =~= all.subrange(i + 1, n as int));
        let ok = i < meets_confidence.len() && meets_confidence[i];
        if query.matches(&item.0, ok) {
            kept.push(item);
        }
        i = i + 1;
    }
    kept
}

/// The result of a lookup answered by the vision detector: the detected
/// elements moved from the captured area to the screen and given the scope,
/// those the query matches, reported by the vision backend as no cache read.
/// `meets_confidence[i]` says whether detected element `i` reaches the
/// query's confidence threshold.
pub fn vision_lookup_result(
    query: &ElementQuery,
    scope: &ElementLookupScope,
    capture_region: Option<Rect>,
    detected: Vec<UiElement>,
    meets_confidence: &[bool],
) -> (r: ElementLookupResult)
    requires
        offsets_fit(detected@, capture_region),
    ensures
        r.backend_name@ == "heuristic_vision"@,
        r.backend_kind@ == "vision"@,
        r.warnings@.len() == 0,
        r.elements@ == query_kept(
            query@,
            Seq::new(detected@.len(), |i: int| spec_scoped_element(detected@[i], *scope, capture_region)),
            meets_confidence@,
            detected@.len() as int,
        ),
        !r.cache_hit && r.cache_age_ms == 0 && r.vision_fallback_used,
{
    let mut elements = detected;
    apply_element_scope_metadata(&mut elements, scope, capture_region);
    let ghost scoped = Seq::new(detected@.len(), |i: int| spec_scoped_element(detected@[i], *scope, capture_region));
    assert(elements@ =~= scoped);
    ElementLookupResult {
        backend_name: String::from_str("heuristic_vision"),
        backend_kind: String::from_str("vision"),
        warnings: Vec::new(),
        elements: retain_query_matches(query, elements, meets_confidence),
        cache_hit: false,
        cache_age_ms: 0,
        vision_fallback_used: true,
    }
}

/// A vision fallback's result with the note that says why the fallback ran
/// added to its warnings.
pub fn with_fallback_warning(result: ElementLookupResult, warning: String) -> (r: ElementLookupResult)
    ensures
        texts(r.warnings@) == texts(result.warnings@).push(warning@),
        r.backend_name == result.backend_name,
        r.backend_kind == result.backend_kind,
        r.elements == result.elements,
        r.cache_hit == result.cache_hit,
        r.cache_age_ms == result.cache_age_ms,
        r.vision_fallback_used == result.vision_fallback_used,
{
    let mut r = result;
    let ghost before = r.warnings@;
    r.warnings.push(warning);
    proof {
        assert(texts(r.warnings@) =~= texts(before).push(warning@));
    }
    r
}

/// What the vision detector looks at: the region the request names, the
/// whole screen when the lookup has no scope, or else the scope's window,
/// whose bounds the caller finds.
#[derive(Debug, Clone, Copy, PartialEq, Eq, Structural)]
pub enum VisionCaptureArea {
    Region(Rect),
    FullScreen,
    ScopeWindow,
}

/// What the vision detector looks at (see [`VisionCaptureArea`]).
pub fn vision_capture_area(region: Option<Rect>, scope: &ElementLookupScope) -> (r: VisionCaptureArea)
    ensures
        r == match region {
            Some(g) => VisionCaptureArea::Region(g),
            None => if scope.window_id is None && scope.window_title is None && scope.app is None {
                VisionCaptureArea::FullScreen
            } else {
                VisionCaptureArea::ScopeWindow
            },
        },
{
    match region {
        Some(g) => VisionCaptureArea::Region(g),
        None => {
            if scope.window_id.is_none() && scope.window_title.is_none() && scope.app.is_none() {
                VisionCaptureArea::FullScreen
            } else {
                VisionCaptureArea::ScopeWindow
            }
        },
    }
}


/// The refusal of a blank selector by the gRPC element lookup.
pub open spec fn msg_empty_selector() -> Seq<char> {
    "selector must not be empty"@
}

/// The gRPC element lookup refuses a selector that is empty or only
/// whitespace, before anything else is read.
pub fn check_lookup_selector(selector: &str) -> (r: Result<(), String>)
    ensures
        trim(selector@).len() == 0 ==> (r matches Err(e) && e@ == msg_empty_selector()),
        trim(selector@).len() > 0 ==> r is Ok,
{
    let all = chars_of(selector);
    let trimmed = trim_chars(&all);
    if trimmed.len() == 0 {
        Err(String::from_str("selector must not be empty"))
    } else {
        Ok(())
    }
}

} // verus!
