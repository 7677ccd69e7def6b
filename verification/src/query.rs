use vstd::prelude::*;

use crate::matcher::{
    opt_matcher, spec_contains_matcher, spec_exact_matcher, spec_matcher_matches,
    spec_regex_matcher, TextMatchMode, TextMatcher, TextMatcherView,
};
use crate::numbers::{float_error, spec_float_error, spec_int_error_text, spec_parse_u32};
use crate::selector::spec_non_empty;
use crate::selector::{
    debug_quoted, debug_text, msg_point, msg_rect, one_of, parse_point_strict, parse_rect_strict,
    parse_u32, selector_key_value, selector_parts, spec_key_value, spec_parse_point,
    spec_parse_rect, spec_selector_parts, is_one_of,
};
use crate::text::{chars_of, lower_chars, lower_seq, string_from_chars, trim, trim_chars, views};
use crate::selector::{
    rect_contains_point, rect_contains_rect, rects_intersect, spec_rect_contains_point,
    spec_rect_contains_rect, spec_rects_intersect,
};
use crate::types::{PeekabooXError, Point, Rect, UiElement};

verus! {

/// Which text of an element a matcher clause is about.
#[derive(Debug, Clone, Copy, PartialEq, Eq, Structural)]
pub enum TextField {
    Id,
    Role,
    Label,
    State,
    NotState,
    WindowId,
    WindowTitle,
    App,
}

/// What a selector key sets.
#[derive(Debug, Clone, Copy, PartialEq, Eq, Structural)]
pub enum ClauseKind {
    Text(TextField, TextMatchMode),
    Bounds,
    Point,
    Confidence,
    Within,
    Intersects,
    MinWidth,
    MinHeight,
}

/// The clause a (trimmed, lower-cased) selector key names, if any.
pub open spec fn spec_clause_kind(k: Seq<char>) -> Option<ClauseKind> {
    if one_of(k, seq!["id", "element-id", "id-contains", "element-id-contains"]) {
        Some(ClauseKind::Text(TextField::Id, TextMatchMode::Contains))
    } else if one_of(k, seq!["id-exact", "element-id-exact"]) {
        Some(ClauseKind::Text(TextField::Id, TextMatchMode::Exact))
    } else if one_of(k, seq!["id-regex", "element-id-regex"]) {
        Some(ClauseKind::Text(TextField::Id, TextMatchMode::Regex))
    } else if one_of(k, seq!["role", "role-contains"]) {
        Some(ClauseKind::Text(TextField::Role, TextMatchMode::Contains))
    } else if one_of(k, seq!["role-exact"]) {
        Some(ClauseKind::Text(TextField::Role, TextMatchMode::Exact))
    } else if one_of(k, seq!["role-regex"]) {
        Some(ClauseKind::Text(TextField::Role, TextMatchMode::Regex))
    } else if one_of(
        k,
        seq!["label", "name", "text", "label-contains", "name-contains", "text-contains"],
    ) {
        Some(ClauseKind::Text(TextField::Label, TextMatchMode::Contains))
    } else if one_of(k, seq!["label-exact", "name-exact", "text-exact"]) {
        Some(ClauseKind::Text(TextField::Label, TextMatchMode::Exact))
    } else if one_of(k, seq!["label-regex", "name-regex", "text-regex"]) {
        Some(ClauseKind::Text(TextField::Label, TextMatchMode::Regex))
    } else if one_of(k, seq!["bounds", "rect"]) {
        Some(ClauseKind::Bounds)
    } else if one_of(k, seq!["contains", "point", "at"]) {
        Some(ClauseKind::Point)
    } else if one_of(k, seq!["state", "states", "state-contains"]) {
        Some(ClauseKind::Text(TextField::State, TextMatchMode::Contains))
    } else if one_of(k, seq!["state-exact"]) {
        Some(ClauseKind::Text(TextField::State, TextMatchMode::Exact))
    } else if one_of(k, seq!["state-regex"]) {
        Some(ClauseKind::Text(TextField::State, TextMatchMode::Regex))
    } else if one_of(k, seq!["not-state", "not-states"]) {
        Some(ClauseKind::Text(TextField::NotState, TextMatchMode::Contains))
    } else if one_of(k, seq!["not-state-exact"]) {
        Some(ClauseKind::Text(TextField::NotState, TextMatchMode::Exact))
    } else if one_of(k, seq!["not-state-regex"]) {
        Some(ClauseKind::Text(TextField::NotState, TextMatchMode::Regex))
    } else if one_of(k, seq!["confidence", "confidence>", "min_confidence", "min-confidence"]) {
        Some(ClauseKind::Confidence)
    } else if one_of(k, seq!["within"]) {
        Some(ClauseKind::Within)
    } else if one_of(k, seq!["intersects", "overlaps"]) {
        Some(ClauseKind::Intersects)
    } else if one_of(k, seq!["min-width", "min_width"]) {
        Some(ClauseKind::MinWidth)
    } else if one_of(k, seq!["min-height", "min_height"]) {
        Some(ClauseKind::MinHeight)
    } else if one_of(k, seq!["window-id", "window_id"]) {
        Some(ClauseKind::Text(TextField::WindowId, TextMatchMode::Contains))
    } else if one_of(k, seq!["window-id-exact", "window_id_exact"]) {
        Some(ClauseKind::Text(TextField::WindowId, TextMatchMode::Exact))
    } else if one_of(k, seq!["window-id-regex", "window_id_regex"]) {
        Some(ClauseKind::Text(TextField::WindowId, TextMatchMode::Regex))
    } else if one_of(k, seq!["window-title", "window_title"]) {
        Some(ClauseKind::Text(TextField::WindowTitle, TextMatchMode::Contains))
    } else if one_of(k, seq!["window-title-exact", "window_title_exact"]) {
        Some(ClauseKind::Text(TextField::WindowTitle, TextMatchMode::Exact))
    } else if one_of(k, seq!["window-title-regex", "window_title_regex"]) {
        Some(ClauseKind::Text(TextField::WindowTitle, TextMatchMode::Regex))
    } else if one_of(k, seq!["app", "app-id", "app_id"]) {
        Some(ClauseKind::Text(TextField::App, TextMatchMode::Contains))
    } else if one_of(k, seq!["app-exact", "app-id-exact", "app_id_exact"]) {
        Some(ClauseKind::Text(TextField::App, TextMatchMode::Exact))
    } else if one_of(k, seq!["app-regex", "app-id-regex", "app_id_regex"]) {
        Some(ClauseKind::Text(TextField::App, TextMatchMode::Regex))
    } else {
        None
    }
}


/// Names the clause a selector key sets (see [`spec_clause_kind`]).
pub fn clause_kind(k: &[char]) -> (r: Option<ClauseKind>)
    ensures
        r == spec_clause_kind(k@),
{
    let t0: [&str; 4] = ["id", "element-id", "id-contains", "element-id-contains"];
    assert(t0@ =~= seq!["id", "element-id", "id-contains", "element-id-contains"]);
    if is_one_of(k, &t0) {
        return Some(ClauseKind::Text(TextField::Id, TextMatchMode::Contains));
    }
    let t1: [&str; 2] = ["id-exact", "element-id-exact"];
    assert(t1@ =~= seq!["id-exact", "element-id-exact"]);
    if is_one_of(k, &t1) {
        return Some(ClauseKind::Text(TextField::Id, TextMatchMode::Exact));
    }
    let t2: [&str; 2] = ["id-regex", "element-id-regex"];
    assert(t2@ =~= seq!["id-regex", "element-id-regex"]);
    if is_one_of(k, &t2) {
        return Some(ClauseKind::Text(TextField::Id, TextMatchMode::Regex));
    }
    let t3: [&str; 2] = ["role", "role-contains"];
    assert(t3@ =~= seq!["role", "role-contains"]);
    if is_one_of(k, &t3) {
        return Some(ClauseKind::Text(TextField::Role, TextMatchMode::Contains));
    }
    let t4: [&str; 1] = ["role-exact"];
    assert(t4@ =~= seq!["role-exact"]);
    if is_one_of(k, &t4) {
        return Some(ClauseKind::Text(TextField::Role, TextMatchMode::Exact));
    }
    let t5: [&str; 1] = ["role-regex"];
    assert(t5@ =~= seq!["role-regex"]);
    if is_one_of(k, &t5) {
        return Some(ClauseKind::Text(TextField::Role, TextMatchMode::Regex));
    }
    let t6: [&str; 6] = ["label", "name", "text", "label-contains", "name-contains", "text-contains"];
    assert(t6@ =~= seq!["label", "name", "text", "label-contains", "name-contains", "text-contains"]);
    if is_one_of(k, &t6) {
        return Some(ClauseKind::Text(TextField::Label, TextMatchMode::Contains));
    }
    let t7: [&str; 3] = ["label-exact", "name-exact", "text-exact"];
    assert(t7@ =~= seq!["label-exact", "name-exact", "text-exact"]);
    if is_one_of(k, &t7) {
        return Some(ClauseKind::Text(TextField::Label, TextMatchMode::Exact));
    }
    let t8: [&str; 3] = ["label-regex", "name-regex", "text-regex"];
    assert(t8@ =~= seq!["label-regex", "name-regex", "text-regex"]);
    if is_one_of(k, &t8) {
        return Some(ClauseKind::Text(TextField::Label, TextMatchMode::Regex));
    }
    let t9: [&str; 2] = ["bounds", "rect"];
    assert(t9@ =~= seq!["bounds", "rect"]);
    if is_one_of(k, &t9) {
        return Some(ClauseKind::Bounds);
    }
    let t10: [&str; 3] = ["contains", "point", "at"];
    assert(t10@ =~= seq!["contains", "point", "at"]);
    if is_one_of(k, &t10) {
        return Some(ClauseKind::Point);
    }
    let t11: [&str; 3] = ["state", "states", "state-contains"];
    assert(t11@ =~= seq!["state", "states", "state-contains"]);
    if is_one_of(k, &t11) {
        return Some(ClauseKind::Text(TextField::State, TextMatchMode::Contains));
    }
    let t12: [&str; 1] = ["state-exact"];
    assert(t12@ =~= seq!["state-exact"]);
    if is_one_of(k, &t12) {
        return Some(ClauseKind::Text(TextField::State, TextMatchMode::Exact));
    }
    let t13: [&str; 1] = ["state-regex"];
    assert(t13@ =~= seq!["state-regex"]);
    if is_one_of(k, &t13) {
        return Some(ClauseKind::Text(TextField::State, TextMatchMode::Regex));
    }
    let t14: [&str; 2] = ["not-state", "not-states"];
    assert(t14@ =~= seq!["not-state", "not-states"]);
    if is_one_of(k, &t14) {
        return Some(ClauseKind::Text(TextField::NotState, TextMatchMode::Contains));
    }
    let t15: [&str; 1] = ["not-state-exact"];
    assert(t15@ =~= seq!["not-state-exact"]);
    if is_one_of(k, &t15) {
        return Some(ClauseKind::Text(TextField::NotState, TextMatchMode::Exact));
    }
    let t16: [&str; 1] = ["not-state-regex"];
    assert(t16@ =~= seq!["not-state-regex"]);
    if is_one_of(k, &t16) {
        return Some(ClauseKind::Text(TextField::NotState, TextMatchMode::Regex));
    }
    let t17: [&str; 4] = ["confidence", "confidence>", "min_confidence", "min-confidence"];
    assert(t17@ =~= seq!["confidence", "confidence>", "min_confidence", "min-confidence"]);
    if is_one_of(k, &t17) {
        return Some(ClauseKind::Confidence);
    }
    let t18: [&str; 1] = ["within"];
    assert(t18@ =~= seq!["within"]);
    if is_one_of(k, &t18) {
        return Some(ClauseKind::Within);
    }
    let t19: [&str; 2] = ["intersects", "overlaps"];
    assert(t19@ =~= seq!["intersects", "overlaps"]);
    if is_one_of(k, &t19) {
        return Some(ClauseKind::Intersects);
    }
    let t20: [&str; 2] = ["min-width", "min_width"];
    assert(t20@ =~= seq!["min-width", "min_width"]);
    if is_one_of(k, &t20) {
        return Some(ClauseKind::MinWidth);
    }
    let t21: [&str; 2] = ["min-height", "min_height"];
    assert(t21@ =~= seq!["min-height", "min_height"]);
    if is_one_of(k, &t21) {
        return Some(ClauseKind::MinHeight);
    }
    let t22: [&str; 2] = ["window-id", "window_id"];
    assert(t22@ =~= seq!["window-id", "window_id"]);
    if is_one_of(k, &t22) {
        return Some(ClauseKind::Text(TextField::WindowId, TextMatchMode::Contains));
    }
    let t23: [&str; 2] = ["window-id-exact", "window_id_exact"];
    assert(t23@ =~= seq!["window-id-exact", "window_id_exact"]);
    if is_one_of(k, &t23) {
        return Some(ClauseKind::Text(TextField::WindowId, TextMatchMode::Exact));
    }
    let t24: [&str; 2] = ["window-id-regex", "window_id_regex"];
    assert(t24@ =~= seq!["window-id-regex", "window_id_regex"]);
    if is_one_of(k, &t24) {
        return Some(ClauseKind::Text(TextField::WindowId, TextMatchMode::Regex));
    }
    let t25: [&str; 2] = ["window-title", "window_title"];
    assert(t25@ =~= seq!["window-title", "window_title"]);
    if is_one_of(k, &t25) {
        return Some(ClauseKind::Text(TextField::WindowTitle, TextMatchMode::Contains));
    }
    let t26: [&str; 2] = ["window-title-exact", "window_title_exact"];
    assert(t26@ =~= seq!["window-title-exact", "window_title_exact"]);
    if is_one_of(k, &t26) {
        return Some(ClauseKind::Text(TextField::WindowTitle, TextMatchMode::Exact));
    }
    let t27: [&str; 2] = ["window-title-regex", "window_title_regex"];
    assert(t27@ =~= seq!["window-title-regex", "window_title_regex"]);
    if is_one_of(k, &t27) {
        return Some(ClauseKind::Text(TextField::WindowTitle, TextMatchMode::Regex));
    }
    let t28: [&str; 3] = ["app", "app-id", "app_id"];
    assert(t28@ =~= seq!["app", "app-id", "app_id"]);
    if is_one_of(k, &t28) {
        return Some(ClauseKind::Text(TextField::App, TextMatchMode::Contains));
    }
    let t29: [&str; 3] = ["app-exact", "app-id-exact", "app_id_exact"];
    assert(t29@ =~= seq!["app-exact", "app-id-exact", "app_id_exact"]);
    if is_one_of(k, &t29) {
        return Some(ClauseKind::Text(TextField::App, TextMatchMode::Exact));
    }
    let t30: [&str; 3] = ["app-regex", "app-id-regex", "app_id_regex"];
    assert(t30@ =~= seq!["app-regex", "app-id-regex", "app_id_regex"]);
    if is_one_of(k, &t30) {
        return Some(ClauseKind::Text(TextField::App, TextMatchMode::Regex));
    }
    None
}


/// A confidence clause as written: its key and trimmed value. The threshold is
/// a floating-point number, which the caller reads and compares.
#[derive(Debug, Clone, PartialEq, Eq)]
pub struct ConfidenceClause {
    pub key: String,
    pub value: String,
}

/// What an element must satisfy to match a selector.
#[derive(Debug, Clone, PartialEq, Eq)]
pub struct ElementQuery {
    pub id: Option<TextMatcher>,
    pub role: Option<TextMatcher>,
    pub label: Option<TextMatcher>,
    pub bounds: Option<Rect>,
    pub contains_point: Option<Point>,
    pub state: Option<TextMatcher>,
    pub not_state: Option<TextMatcher>,
    pub min_confidence: Option<ConfidenceClause>,
    pub within: Option<Rect>,
    pub intersects: Option<Rect>,
    pub min_width: Option<u32>,
    pub min_height: Option<u32>,
    pub window_id: Option<TextMatcher>,
    pub window_title: Option<TextMatcher>,
    pub app: Option<TextMatcher>,
}

/// The mathematical form of an [`ElementQuery`].
pub struct ElementQueryView {
    pub id: Option<TextMatcherView>,
    pub role: Option<TextMatcherView>,
    pub label: Option<TextMatcherView>,
    pub bounds: Option<Rect>,
    pub contains_point: Option<Point>,
    pub state: Option<TextMatcherView>,
    pub not_state: Option<TextMatcherView>,
    pub min_confidence: Option<(Seq<char>, Seq<char>)>,
    pub within: Option<Rect>,
    pub intersects: Option<Rect>,
    pub min_width: Option<u32>,
    pub min_height: Option<u32>,
    pub window_id: Option<TextMatcherView>,
    pub window_title: Option<TextMatcherView>,
    pub app: Option<TextMatcherView>,
}

impl View for ElementQuery {
    type V = ElementQueryView;

    open spec fn view(&self) -> ElementQueryView {
        ElementQueryView {
            id: opt_matcher(self.id),
            role: opt_matcher(self.role),
            label: opt_matcher(self.label),
            bounds: self.bounds,
            contains_point: self.contains_point,
            state: opt_matcher(self.state),
            not_state: opt_matcher(self.not_state),
            min_confidence: match self.min_confidence {
                Some(c) => Some((c.key@, c.value@)),
                None => None,
            },
            within: self.within,
            intersects: self.intersects,
            min_width: self.min_width,
            min_height: self.min_height,
            window_id: opt_matcher(self.window_id),
            window_title: opt_matcher(self.window_title),
            app: opt_matcher(self.app),
        }
    }
}

/// The query with no constraint.
pub open spec fn empty_query() -> ElementQueryView {
    ElementQueryView {
        id: None,
        role: None,
        label: None,
        bounds: None,
        contains_point: None,
        state: None,
        not_state: None,
        min_confidence: None,
        within: None,
        intersects: None,
        min_width: None,
        min_height: None,
        window_id: None,
        window_title: None,
        app: None,
    }
}

/// The query with one text clause replaced.
pub open spec fn set_text(q: ElementQueryView, field: TextField, m: Option<TextMatcherView>) -> ElementQueryView {
    match field {
        TextField::Id => ElementQueryView { id: m, ..q },
        TextField::Role => ElementQueryView { role: m, ..q },
        TextField::Label => ElementQueryView { label: m, ..q },
        TextField::State => ElementQueryView { state: m, ..q },
        TextField::NotState => ElementQueryView { not_state: m, ..q },
        TextField::WindowId => ElementQueryView { window_id: m, ..q },
        TextField::WindowTitle => ElementQueryView { window_title: m, ..q },
        TextField::App => ElementQueryView { app: m, ..q },
    }
}

/// One `key=value` clause applied to a query: the value is trimmed, the key is
/// trimmed and lower-cased to find the clause; later clauses replace earlier
/// ones of the same kind. A confidence value must be a float as
/// `str::parse::<f32>` reads one.
pub open spec fn apply_clause(q: ElementQueryView, key: Seq<char>, raw_value: Seq<char>) -> Result<
    ElementQueryView,
    Seq<char>,
> {
    let v = trim(raw_value);
    match spec_clause_kind(lower_seq(trim(key))) {
        None => Err("unknown element selector key "@ + debug_quoted(key)),
        Some(ClauseKind::Text(field, TextMatchMode::Contains)) => Ok(
            set_text(q, field, spec_contains_matcher(v)),
        ),
        Some(ClauseKind::Text(field, TextMatchMode::Exact)) => Ok(
            set_text(q, field, spec_exact_matcher(v)),
        ),
        Some(ClauseKind::Text(field, TextMatchMode::Regex)) => match spec_regex_matcher(v) {
            Ok(m) => Ok(set_text(q, field, m)),
            Err(e) => Err(e),
        },
        Some(ClauseKind::Bounds) => match spec_parse_rect(v) {
            Some(r) => Ok(ElementQueryView { bounds: Some(r), ..q }),
            None => Err(msg_rect(key, v)),
        },
        Some(ClauseKind::Point) => match spec_parse_point(v) {
            Some(p) => Ok(ElementQueryView { contains_point: Some(p), ..q }),
            None => Err(msg_point(key, v)),
        },
        Some(ClauseKind::Within) => match spec_parse_rect(v) {
            Some(r) => Ok(ElementQueryView { within: Some(r), ..q }),
            None => Err(msg_rect(key, v)),
        },
        Some(ClauseKind::Intersects) => match spec_parse_rect(v) {
            Some(r) => Ok(ElementQueryView { intersects: Some(r), ..q }),
            None => Err(msg_rect(key, v)),
        },
        Some(ClauseKind::MinWidth) => match spec_parse_u32(v) {
            Ok(n) => Ok(ElementQueryView { min_width: Some(n as u32), ..q }),
            Err(kind) => Err(msg_u32(key, v, kind)),
        },
        Some(ClauseKind::MinHeight) => match spec_parse_u32(v) {
            Ok(n) => Ok(ElementQueryView { min_height: Some(n as u32), ..q }),
            Err(kind) => Err(msg_u32(key, v, kind)),
        },
        Some(ClauseKind::Confidence) => match spec_float_error(v) {
            Some(e) => Err("selector "@ + key + " must be a float, got "@ + debug_quoted(v) + ": "@ + e),
            None => Ok(ElementQueryView { min_confidence: Some((key, v)), ..q }),
        },
    }
}

/// The keys that name the label's substring clause.
pub open spec fn label_contains_keys() -> Seq<Seq<char>> {
    seq!["label"@, "name"@, "text"@, "label-contains"@, "name-contains"@, "text-contains"@]
}

/// `label`, `name` and `text` (and their `-contains` forms) all set one
/// clause: the label must contain the trimmed value, as a substring (no
/// clause for a blank value); so `name=v` and `text=v` parse as `label=v`.
pub proof fn lemma_label_aliases_set_a_contains_clause(q: ElementQueryView, key: Seq<char>, value: Seq<char>)
    requires
        label_contains_keys().contains(key),
    ensures
        apply_clause(q, key, value) == Ok::<ElementQueryView, Seq<char>>(
            ElementQueryView {
                label: match spec_non_empty(trim(value)) {
                    Some(t) => Some(TextMatcherView { value: t, mode: TextMatchMode::Contains }),
                    None => None,
                },
                ..q
            },
        ),
        apply_clause(q, key, value) == apply_clause(q, "label"@, value),
{
    reveal_strlit("label");
    reveal_strlit("name");
    reveal_strlit("text");
    reveal_strlit("label-contains");
    reveal_strlit("name-contains");
    reveal_strlit("text-contains");
    reveal_strlit("id");
    reveal_strlit("element-id");
    reveal_strlit("id-contains");
    reveal_strlit("element-id-contains");
    reveal_strlit("id-exact");
    reveal_strlit("element-id-exact");
    reveal_strlit("id-regex");
    reveal_strlit("element-id-regex");
    reveal_strlit("role");
    reveal_strlit("role-contains");
    reveal_strlit("role-exact");
    reveal_strlit("role-regex");
    let keys = label_contains_keys();
    let i = choose|i: int| 0 <= i < keys.len() && keys[i] == key;
    assert(forall|j: int| 0 <= j < key.len() ==> 'a' <= #[trigger] key[j] <= 'z' || key[j] == '-');
    assert(!crate::text::is_ws(key[0]) && !crate::text::is_ws(key.last()));
    crate::text::lemma_trim_unchanged(key);
    assert(lower_seq(key) =~= key);
    let aliases = seq!["label", "name", "text", "label-contains", "name-contains", "text-contains"];
    assert(aliases[i]@ == key);
    assert(one_of(key, aliases));
    assert(!one_of(key, seq!["id", "element-id", "id-contains", "element-id-contains"]));
    assert(!one_of(key, seq!["id-exact", "element-id-exact"]));
    assert(!one_of(key, seq!["id-regex", "element-id-regex"]));
    assert(!one_of(key, seq!["role", "role-contains"]));
    assert(!one_of(key, seq!["role-exact"]));
    assert(!one_of(key, seq!["role-regex"]));
    let label = "label"@;
    assert(forall|j: int| 0 <= j < label.len() ==> 'a' <= #[trigger] label[j] <= 'z');
    assert(!crate::text::is_ws(label[0]) && !crate::text::is_ws(label.last()));
    crate::text::lemma_trim_unchanged(label);
    assert(lower_seq(label) =~= label);
    assert(aliases[0]@ == label);
}

/// A clause replaces an earlier clause with the same key: whatever the first
/// value set, the second one's outcome stands.
pub proof fn lemma_later_clause_replaces(
    q: ElementQueryView,
    key: Seq<char>,
    first: Seq<char>,
    second: Seq<char>,
)
    requires
        apply_clause(q, key, first) is Ok,
    ensures
        apply_clause(apply_clause(q, key, first)->Ok_0, key, second) == apply_clause(q, key, second),
{
}

/// The error for a size clause that is not a `u32`.
pub open spec fn msg_u32(key: Seq<char>, value: Seq<char>, kind: crate::numbers::IntErrorKind) -> Seq<char> {
    "selector "@ + key + " must be an unsigned integer, got "@ + debug_quoted(value) + ": "@
        + spec_int_error_text(kind)
}

/// One selector part applied to a query: a `key=value` clause, or else the
/// label text when no label is set yet.
pub open spec fn apply_part(q: ElementQueryView, part: Seq<char>) -> Result<ElementQueryView, Seq<char>> {
    match spec_key_value(part) {
        Some((k, v)) => apply_clause(q, k, v),
        None => if q.label is None {
            Ok(ElementQueryView { label: spec_contains_matcher(part), ..q })
        } else {
            Err("unexpected unqualified selector part "@ + debug_quoted(part))
        },
    }
}

/// The parts applied in order; the first error stops.
pub open spec fn apply_parts(q: ElementQueryView, parts: Seq<Seq<char>>) -> Result<
    ElementQueryView,
    Seq<char>,
>
    decreases parts.len(),
{
    if parts.len() == 0 {
        Ok(q)
    } else {
        match apply_part(q, parts[0]) {
            Ok(next) => apply_parts(next, parts.subrange(1, parts.len() as int)),
            Err(e) => Err(e),
        }
    }
}

/// The query a selector describes, or why it is malformed.
pub open spec fn spec_parse_query(selector: Seq<char>) -> Result<ElementQueryView, Seq<char>> {
    let s = trim(selector);
    if s.len() == 0 {
        Ok(empty_query())
    } else {
        apply_parts(empty_query(), spec_selector_parts(s))
    }
}

impl ElementQuery {
    /// The query with no constraint.
    pub fn empty() -> (q: Self)
        ensures
            q@ == empty_query(),
    {
        ElementQuery {
            id: None,
            role: None,
            label: None,
            bounds: None,
            contains_point: None,
            state: None,
            not_state: None,
            min_confidence: None,
            within: None,
            intersects: None,
            min_width: None,
            min_height: None,
            window_id: None,
            window_title: None,
            app: None,
        }
    }

    fn set_text(&mut self, field: TextField, m: Option<TextMatcher>)
        ensures
            final(self)@ == set_text(old(self)@, field, opt_matcher(m)),
    {
        match field {
            TextField::Id => self.id = m,
            TextField::Role => self.role = m,
            TextField::Label => self.label = m,
            TextField::State => self.state = m,
            TextField::NotState => self.not_state = m,
            TextField::WindowId => self.window_id = m,
            TextField::WindowTitle => self.window_title = m,
            TextField::App => self.app = m,
        }
    }

    fn apply_clause(&mut self, key: &[char], raw_value: &[char]) -> (r: Result<(), PeekabooXError>)
        ensures
            match apply_clause(old(self)@, key@, raw_value@) {
                Ok(q) => r is Ok && final(self)@ == q,
                Err(m) => r matches Err(e) && e.message@ == m,
            },
    {
        let value = trim_chars(raw_value);
        let value_text = string_from_chars(value.as_slice());
        let trimmed_key = trim_chars(key);
        let k = lower_chars(&trimmed_key);
        match clause_kind(&k) {
            None => {
                let mut m = String::from_str("unknown element selector key ");
                let q = debug_text(key);
                m.append(q.as_str());
                Err(PeekabooXError::new(m))
            },
            Some(ClauseKind::Text(field, TextMatchMode::Contains)) => {
                self.set_text(field, TextMatcher::contains(value_text.as_str()));
                Ok(())
            },
            Some(ClauseKind::Text(field, TextMatchMode::Exact)) => {
                self.set_text(field, TextMatcher::exact(value_text.as_str()));
                Ok(())
            },
            Some(ClauseKind::Text(field, TextMatchMode::Regex)) => {
                let m = TextMatcher::regex(value_text.as_str())?;
                self.set_text(field, m);
                Ok(())
            },
            Some(ClauseKind::Bounds) => {
                self.bounds = Some(parse_rect_strict(&value, key)?);
                Ok(())
            },
            Some(ClauseKind::Point) => {
                self.contains_point = Some(parse_point_strict(&value, key)?);
                Ok(())
            },
            Some(ClauseKind::Within) => {
                self.within = Some(parse_rect_strict(&value, key)?);
                Ok(())
            },
            Some(ClauseKind::Intersects) => {
                self.intersects = Some(parse_rect_strict(&value, key)?);
                Ok(())
            },
            Some(ClauseKind::MinWidth) => {
                self.min_width = Some(parse_u32(&value, key)?);
                Ok(())
            },
            Some(ClauseKind::MinHeight) => {
                self.min_height = Some(parse_u32(&value, key)?);
                Ok(())
            },
            Some(ClauseKind::Confidence) => {
                match float_error(&value) {
                    Some(e) => {
                        let mut m = String::from_str("selector ");
                        let k = string_from_chars(key);
                        m.append(k.as_str());
                        m.append(" must be a float, got ");
                        let q = debug_text(&value);
                        m.append(q.as_str());
                        m.append(": ");
                        m.append(e);
                        Err(PeekabooXError::new(m))
                    },
                    None => {
                        self.min_confidence = Some(
                            ConfidenceClause { key: string_from_chars(key), value: value_text },
                        );
                        Ok(())
                    },
                }
            },
        }
    }

    fn apply_part(&mut self, part: &[char]) -> (r: Result<(), PeekabooXError>)
        ensures
            match apply_part(old(self)@, part@) {
                Ok(q) => r is Ok && final(self)@ == q,
                Err(m) => r matches Err(e) && e.message@ == m,
            },
    {
        match selector_key_value(part) {
            Some((k, v)) => self.apply_clause(&k, &v),
            None => {
                if self.label.is_none() {
                    let text = string_from_chars(part);
                    self.label = TextMatcher::contains(text.as_str());
                    Ok(())
                } else {
                    let mut m = String::from_str("unexpected unqualified selector part ");
                    let q = debug_text(part);
                    m.append(q.as_str());
                    Err(PeekabooXError::new(m))
                }
            },
        }
    }

    /// Parses a selector such as `role=push button,label=Submit` (see
    /// [`spec_parse_query`]).
    pub fn parse(selector: &str) -> (r: Result<Self, PeekabooXError>)
        ensures
            match spec_parse_query(selector@) {
                Ok(q) => r matches Ok(x) && x@ == q,
                Err(m) => r matches Err(e) && e.message@ == m,
            },
    {
        let all = chars_of(selector);
        let s = trim_chars(&all);
        let mut query = Self::empty();
        if s.len() == 0 {
            return Ok(query);
        }
        let parts = selector_parts(&s);
        let ghost ps = spec_selector_parts(s@);
        let mut i: usize = 0;
        assert(ps.subrange(0, ps.len() as int) =~= ps);
        while i < parts.len()
            invariant
                i <= parts@.len(),
                views(parts@) == ps,
                ps == spec_selector_parts(s@),
                s@ == trim(selector@),
                s@.len() > 0,
                apply_parts(empty_query(), ps) == apply_parts(
                    query@,
                    ps.subrange(i as int, ps.len() as int),
                ),
            decreases parts@.len() - i,
        {
            assert(views(parts@)[i as int] == parts@[i as int]@);
            let ghost rest = ps.subrange(i as int, ps.len() as int);
            assert(rest[0] == ps[i as int]);
            assert(rest.subrange(1, rest.len() as int) =~= ps.subrange(i + 1, ps.len() as int));
            query.apply_part(&parts[i])?;
            i = i + 1;
        }
        assert(ps.subrange(i as int, ps.len() as int) =~= Seq::<Seq<char>>::empty());
        Ok(query)
    }
}


/// A required text matches, or there is no requirement.
pub open spec fn text_clause_holds(m: Option<TextMatcherView>, text: Seq<char>) -> bool {
    match m {
        Some(m) => spec_matcher_matches(m, text),
        None => true,
    }
}

/// A required text matches an optional text, which must then be present.
pub open spec fn opt_text_clause_holds(m: Option<TextMatcherView>, text: Option<String>) -> bool {
    match m {
        Some(m) => match text {
            Some(t) => spec_matcher_matches(m, t@),
            None => false,
        },
        None => true,
    }
}

/// Some state of the list is accepted by the matcher.
pub open spec fn some_state_matches(m: TextMatcherView, states: Seq<String>) -> bool {
    exists|i: int| 0 <= i < states.len() && spec_matcher_matches(m, (#[trigger] states[i])@)
}

/// Whether `e` satisfies every clause of `q`; `meets_confidence` says whether
/// the element's confidence reaches the query's threshold, and only counts
/// when the query has one.
pub open spec fn spec_query_matches(q: ElementQueryView, e: UiElement, meets_confidence: bool) -> bool {
    &&& text_clause_holds(q.id, e.id@)
    &&& text_clause_holds(q.role, e.role@)
    &&& opt_text_clause_holds(q.label, e.label)
    &&& (q.bounds matches Some(b) ==> e.bounds == b)
    &&& (q.contains_point matches Some(p) ==> spec_rect_contains_point(e.bounds, p))
    &&& (q.state matches Some(m) ==> some_state_matches(m, e.states@))
    &&& (q.not_state matches Some(m) ==> !some_state_matches(m, e.states@))
    &&& (q.min_confidence is Some ==> meets_confidence)
    &&& (q.within matches Some(b) ==> spec_rect_contains_rect(b, e.bounds))
    &&& (q.intersects matches Some(b) ==> spec_rects_intersect(b, e.bounds))
    &&& (q.min_width matches Some(w) ==> e.bounds.width >= w)
    &&& (q.min_height matches Some(h) ==> e.bounds.height >= h)
    &&& opt_text_clause_holds(q.window_id, e.window_id)
    &&& opt_text_clause_holds(q.window_title, e.window_title)
    &&& (q.app matches Some(m) ==> (opt_text_clause_holds(q.app, e.app_id) || opt_text_clause_holds(
        q.app,
        e.window_title,
    )))
}

/// `finer` sets the clause that `coarser` sets, to the same value, or
/// `coarser` leaves it unset.
pub open spec fn clause_refines<T>(finer: Option<T>, coarser: Option<T>) -> bool {
    coarser is None || finer == coarser
}

/// `finer` keeps every clause of `coarser` and may set more.
pub open spec fn query_refines(finer: ElementQueryView, coarser: ElementQueryView) -> bool {
    &&& clause_refines(finer.id, coarser.id)
    &&& clause_refines(finer.role, coarser.role)
    &&& clause_refines(finer.label, coarser.label)
    &&& clause_refines(finer.bounds, coarser.bounds)
    &&& clause_refines(finer.contains_point, coarser.contains_point)
    &&& clause_refines(finer.state, coarser.state)
    &&& clause_refines(finer.not_state, coarser.not_state)
    &&& clause_refines(finer.min_confidence, coarser.min_confidence)
    &&& clause_refines(finer.within, coarser.within)
    &&& clause_refines(finer.intersects, coarser.intersects)
    &&& clause_refines(finer.min_width, coarser.min_width)
    &&& clause_refines(finer.min_height, coarser.min_height)
    &&& clause_refines(finer.window_id, coarser.window_id)
    &&& clause_refines(finer.window_title, coarser.window_title)
    &&& clause_refines(finer.app, coarser.app)
}

/// Each clause only narrows: a query with more clauses matches no element
/// that the query without them rejects.
pub proof fn lemma_more_clauses_match_fewer(
    finer: ElementQueryView,
    coarser: ElementQueryView,
    element: UiElement,
    meets_confidence: bool,
)
    requires
        query_refines(finer, coarser),
    ensures
        spec_query_matches(finer, element, meets_confidence) ==> spec_query_matches(
            coarser,
            element,
            meets_confidence,
        ),
{
}

/// The query with no clause, which the empty selector describes, matches
/// every element.
pub proof fn lemma_empty_query_matches_all(element: UiElement, meets_confidence: bool)
    ensures
        spec_query_matches(empty_query(), element, meets_confidence),
        spec_parse_query(Seq::empty()) == Ok::<ElementQueryView, Seq<char>>(empty_query()),
{
    crate::text::lemma_trim_unchanged(Seq::<char>::empty());
}

fn text_clause(m: &Option<TextMatcher>, text: &str) -> (r: bool)
    ensures
        r == text_clause_holds(opt_matcher(*m), text@),
{
    match m {
        Some(m) => m.matches(text),
        None => true,
    }
}

fn opt_text_clause(m: &Option<TextMatcher>, text: &Option<String>) -> (r: bool)
    ensures
        r == opt_text_clause_holds(opt_matcher(*m), *text),
{
    match m {
        Some(m) => match text {
            Some(t) => m.matches(t.as_str()),
            None => false,
        },
        None => true,
    }
}

fn any_state_matches(m: &TextMatcher, states: &Vec<String>) -> (r: bool)
    ensures
        r == some_state_matches(m@, states@),
{
    let mut i: usize = 0;
    while i < states.len()
        invariant
            i <= states@.len(),
            forall|j: int| 0 <= j < i ==> !spec_matcher_matches(m@, (#[trigger] states@[j])@),
        decreases states@.len() - i,
    {
        if m.matches(states[i].as_str()) {
            return true;
        }
        i = i + 1;
    }
    false
}

impl ElementQuery {
    /// Whether `element` satisfies every clause (see [`spec_query_matches`]).
    pub fn matches(&self, element: &UiElement, meets_confidence: bool) -> (r: bool)
        ensures
            r == spec_query_matches(self@, *element, meets_confidence),
    {
        let id_ok = text_clause(&self.id, element.id.as_str());
        let role_ok = text_clause(&self.role, element.role.as_str());
        let label_ok = opt_text_clause(&self.label, &element.label);
        let bounds_ok = match self.bounds {
            Some(b) => element.bounds == b,
            None => true,
        };
        let point_ok = match self.contains_point {
            Some(p) => rect_contains_point(element.bounds, p),
            None => true,
        };
        let state_ok = match &self.state {
            Some(m) => any_state_matches(m, &element.states),
            None => true,
        };
        let not_state_ok = match &self.not_state {
            Some(m) => !any_state_matches(m, &element.states),
            None => true,
        };
        let confidence_ok = self.min_confidence.is_none() || meets_confidence;
        let within_ok = match self.within {
            Some(b) => rect_contains_rect(b, element.bounds),
            None => true,
        };
        let intersects_ok = match self.intersects {
            Some(b) => rects_intersect(b, element.bounds),
            None => true,
        };
        let width_ok = match self.min_width {
            Some(w) => element.bounds.width >= w,
            None => true,
        };
        let height_ok = match self.min_height {
            Some(h) => element.bounds.height >= h,
            None => true,
        };
        let window_id_ok = opt_text_clause(&self.window_id, &element.window_id);
        let window_title_ok = opt_text_clause(&self.window_title, &element.window_title);
        let app_ok = match &self.app {
            Some(_) => opt_text_clause(&self.app, &element.app_id) || opt_text_clause(
                &self.app,
                &element.window_title,
            ),
            None => true,
        };
        id_ok && role_ok && label_ok && bounds_ok && point_ok && state_ok && not_state_ok
            && confidence_ok && within_ok && intersects_ok && width_ok && height_ok && window_id_ok
            && window_title_ok && app_ok
    }

    /// The query a selector describes, or the empty query when it is malformed.
    pub fn from_selector(selector: &str) -> (q: Self)
        ensures
            match spec_parse_query(selector@) {
                Ok(v) => q@ == v,
                Err(_) => q@ == empty_query(),
            },
    {
        match Self::parse(selector) {
            Ok(q) => q,
            Err(_) => Self::empty(),
        }
    }
}

} // verus!
