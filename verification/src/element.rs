use vstd::prelude::*;

use crate::matcher::spec_matcher_matches;
use crate::query::{spec_parse_query, spec_query_matches, ElementQuery, ElementQueryView};
use crate::selector::{debug_quoted, debug_text};
use crate::text::{chars_eq_ignore_case, chars_of, eq_ignore_case, trim, trim_chars};
use crate::types::{spec_center, PeekabooXError, Point, UiElement};

verus! {

/// An element's click point: its recorded center, else the center of its
/// bounds.
pub open spec fn spec_element_center(e: UiElement) -> Option<Point> {
    match e.center {
        Some(p) => Some(p),
        None => spec_center(e.bounds),
    }
}

/// The point a click on `element` aims at (see [`spec_element_center`]).
pub fn element_center(element: &UiElement) -> (r: Option<Point>)
    ensures
        r == spec_element_center(*element),
{
    match element.center {
        Some(p) => Some(p),
        None => element.bounds.center(),
    }
}

/// How well an element answers a query: an exact label scores 1000 and a
/// matching one 500, an exact role 200 and a matching one 100, and a
/// clickable point 10.
pub open spec fn spec_click_score(q: ElementQueryView, e: UiElement) -> int {
    let label_score: int = match q.label {
        Some(m) => match e.label {
            Some(l) => if eq_ignore_case(l@, m.value) {
                1000
            } else if spec_matcher_matches(m, l@) {
                500
            } else {
                0
            },
            None => 0,
        },
        None => 0,
    };
    let role_score: int = match q.role {
        Some(m) => if eq_ignore_case(e.role@, m.value) {
            200
        } else if spec_matcher_matches(m, e.role@) {
            100
        } else {
            0
        },
        None => 0,
    };
    let center_score: int = if spec_element_center(e) is Some {
        10
    } else {
        0
    };
    label_score + role_score + center_score
}

/// The score of `element` for `query` (see [`spec_click_score`]).
pub fn click_target_score(query: &ElementQuery, element: &UiElement) -> (r: i32)
    ensures
        r == spec_click_score(query@, *element),
{
    let mut score: i32 = 0;
    match (&query.label, &element.label) {
        (Some(m), Some(l)) => {
            let lc = chars_of(l.as_str());
            let vc = chars_of(m.value.as_str());
            if chars_eq_ignore_case(&lc, &vc) {
                score = score + 1000;
            } else if m.matches(l.as_str()) {
                score = score + 500;
            }
        },
        _ => {},
    }
    match &query.role {
        Some(m) => {
            let rc = chars_of(element.role.as_str());
            let vc = chars_of(m.value.as_str());
            if chars_eq_ignore_case(&rc, &vc) {
                score = score + 200;
            } else if m.matches(element.role.as_str()) {
                score = score + 100;
            }
        },
        None => {},
    }
    if element_center(element).is_some() {
        score = score + 10;
    }
    score
}

/// Lexicographic order of two texts from index `i` on, by code point; a
/// proper prefix comes first.
pub open spec fn text_lt_from(a: Seq<char>, b: Seq<char>, i: int) -> bool
    decreases a.len() - i,
{
    if i >= a.len() {
        i < b.len()
    } else if i >= b.len() {
        false
    } else if a[i] != b[i] {
        a[i] < b[i]
    } else {
        text_lt_from(a, b, i + 1)
    }
}

/// Lexicographic order of two texts by code point, the order of `str`.
pub open spec fn text_lt(a: Seq<char>, b: Seq<char>) -> bool {
    text_lt_from(a, b, 0)
}

/// The order of texts is transitive.
pub proof fn lemma_text_lt_trans(a: Seq<char>, b: Seq<char>, c: Seq<char>, i: int)
    requires
        0 <= i,
        text_lt_from(a, b, i),
        text_lt_from(b, c, i),
    ensures
        text_lt_from(a, c, i),
    decreases a.len() - i,
{
    if i < a.len() && i < b.len() && i < c.len() && a[i] == b[i] && b[i] == c[i] {
        lemma_text_lt_trans(a, b, c, i + 1);
    }
}

/// Of two texts that neither precedes, both hold the same characters.
pub proof fn lemma_text_lt_total(a: Seq<char>, b: Seq<char>, i: int)
    requires
        0 <= i <= a.len(),
        i <= b.len(),
        !text_lt_from(a, b, i),
        !text_lt_from(b, a, i),
    ensures
        a.len() == b.len(),
        forall|j: int| i <= j < a.len() ==> a[j] == b[j],
    decreases a.len() - i,
{
    if i < a.len() && i < b.len() {
        if a[i] == b[i] {
            lemma_text_lt_total(a, b, i + 1);
        } else {
            assert(a[i] != b[i]);
        }
    }
}

/// No text precedes itself.
pub proof fn lemma_text_lt_irreflexive(a: Seq<char>, i: int)
    requires
        0 <= i,
    ensures
        !text_lt_from(a, a, i),
    decreases a.len() - i,
{
    if i < a.len() {
        lemma_text_lt_irreflexive(a, i + 1);
    }
}

/// Whether `a` comes before `b` in the order of [`text_lt`].
pub fn text_less(a: &[char], b: &[char]) -> (r: bool)
    ensures
        r == text_lt(a@, b@),
{
    let mut i: usize = 0;
    while i < a.len() && i < b.len() && a[i] == b[i]
        invariant
            i <= a@.len(),
            i <= b@.len(),
            text_lt(a@, b@) == text_lt_from(a@, b@, i as int),
        decreases a@.len() - i,
    {
        i = i + 1;
    }
    if i >= a.len() {
        i < b.len()
    } else if i >= b.len() {
        false
    } else {
        a[i] < b[i]
    }
}

/// `a` goes before `b` as a click target: a higher score, or the same score
/// and an id that comes first.
pub open spec fn preferred(q: ElementQueryView, a: UiElement, b: UiElement) -> bool {
    spec_click_score(q, a) > spec_click_score(q, b) || (spec_click_score(q, a) == spec_click_score(
        q,
        b,
    ) && text_lt(a.id@, b.id@))
}

/// An element that can be clicked for the query: it matches, and it has a
/// point to click. The flag beside it tells whether its confidence reaches
/// the query's threshold.
pub open spec fn click_candidate(q: ElementQueryView, c: (UiElement, bool)) -> bool {
    spec_query_matches(q, c.0, c.1) && spec_element_center(c.0) is Some
}

/// Index `k` holds the target of a click: a candidate that goes before every
/// candidate listed earlier, and that no later candidate goes before.
pub open spec fn is_click_target(q: ElementQueryView, cs: Seq<(UiElement, bool)>, k: int) -> bool {
    &&& 0 <= k < cs.len()
    &&& click_candidate(q, cs[k])
    &&& forall|j: int|
        0 <= j < k && click_candidate(q, #[trigger] cs[j]) ==> preferred(q, cs[k].0, cs[j].0)
    &&& forall|j: int|
        k < j < cs.len() && click_candidate(q, #[trigger] cs[j]) ==> !preferred(q, cs[j].0, cs[k].0)
}

/// No element of the list can be clicked for the query.
pub open spec fn no_click_candidate(q: ElementQueryView, cs: Seq<(UiElement, bool)>) -> bool {
    forall|j: int| 0 <= j < cs.len() ==> !click_candidate(q, #[trigger] cs[j])
}

proof fn lemma_preferred_trans(q: ElementQueryView, a: UiElement, b: UiElement, c: UiElement)
    requires
        preferred(q, a, b),
        preferred(q, b, c),
    ensures
        preferred(q, a, c),
{
    if spec_click_score(q, a) == spec_click_score(q, b) && spec_click_score(q, b)
        == spec_click_score(q, c) {
        lemma_text_lt_trans(a.id@, b.id@, c.id@, 0);
    }
}

proof fn lemma_preferred_step(q: ElementQueryView, a: UiElement, b: UiElement, c: UiElement)
    requires
        preferred(q, a, b),
        !preferred(q, c, b),
    ensures
        preferred(q, a, c),
{
    if spec_click_score(q, a) == spec_click_score(q, b) && spec_click_score(q, b)
        == spec_click_score(q, c) {
        if !text_lt(c.id@, b.id@) && !text_lt(b.id@, c.id@) {
            lemma_text_lt_total(c.id@, b.id@, 0);
            assert(c.id@ =~= b.id@);
        } else if text_lt(b.id@, c.id@) {
            lemma_text_lt_trans(a.id@, b.id@, c.id@, 0);
        }
    }
}

/// The index of the element a click on the query aims at, if any (see
/// [`is_click_target`]).
pub fn best_click_target(query: &ElementQuery, candidates: &[(UiElement, bool)]) -> (r: Option<
    usize,
>)
    ensures
        match r {
            Some(k) => is_click_target(query@, candidates@, k as int),
            None => no_click_candidate(query@, candidates@),
        },
{
    let ghost q = query@;
    let mut best: Option<usize> = None;
    let mut best_score: i32 = 0;
    let mut i: usize = 0;
    while i < candidates.len()
        invariant
            q == query@,
            i <= candidates@.len(),
            match best {
                Some(k) => {
                    &&& k < i
                    &&& is_click_target(q, candidates@.subrange(0, i as int), k as int)
                    &&& best_score == spec_click_score(q, candidates@[k as int].0)
                },
                None => no_click_candidate(q, candidates@.subrange(0, i as int)),
            },
        decreases candidates@.len() - i,
    {
        let ghost prefix = candidates@.subrange(0, i as int);
        let ghost next = candidates@.subrange(0, i + 1);
        assert(next =~= prefix.push(candidates@[i as int]));
        let c = &candidates[i];
        let is_candidate = query.matches(&c.0, c.1) && element_center(&c.0).is_some();
        if is_candidate {
            let score = click_target_score(query, &c.0);
            match best {
                None => {
                    proof {
                        assert forall|j: int|
                            0 <= j < i && click_candidate(
                                q,
                                #[trigger] next[j],
                            ) implies preferred(q, next[i as int].0, next[j].0) by {
                            assert(next[j] == prefix[j]);
                        }
                    }
                    best = Some(i);
                    best_score = score;
                },
                Some(k) => {
                    let bk = &candidates[k];
                    let better = score > best_score || (score == best_score && text_less(
                        &chars_of(c.0.id.as_str()),
                        &chars_of(bk.0.id.as_str()),
                    ));
                    if better {
                        proof {
                            assert(preferred(q, c.0, bk.0));
                            assert forall|j: int|
                                0 <= j < i && click_candidate(
                                    q,
                                    #[trigger] next[j],
                                ) implies preferred(q, next[i as int].0, next[j].0) by {
                                assert(next[j] == prefix[j]);
                                if j < k {
                                    assert(click_candidate(q, prefix[j]));
                                    lemma_preferred_trans(q, c.0, bk.0, prefix[j].0);
                                } else if j > k {
                                    assert(click_candidate(q, prefix[j]));
                                    lemma_preferred_step(q, c.0, bk.0, prefix[j].0);
                                }
                            }
                        }
                        best = Some(i);
                        best_score = score;
                    } else {
                        proof {
                            assert(!preferred(q, c.0, bk.0));
                            assert forall|j: int|
                                0 <= j < k && click_candidate(
                                    q,
                                    #[trigger] next[j],
                                ) implies preferred(q, next[k as int].0, next[j].0) by {
                                assert(next[j] == prefix[j]);
                            }
                            assert forall|j: int|
                                k < j < next.len() && click_candidate(
                                    q,
                                    #[trigger] next[j],
                                ) implies !preferred(q, next[j].0, next[k as int].0) by {
                                if j < i {
                                    assert(next[j] == prefix[j]);
                                }
                            }
                        }
                    }
                },
            }
        } else {
            proof {
                match best {
                    Some(k) => {
                        assert forall|j: int|
                            0 <= j < k && click_candidate(
                                q,
                                #[trigger] next[j],
                            ) implies preferred(q, next[k as int].0, next[j].0) by {
                            assert(next[j] == prefix[j]);
                        }
                        assert forall|j: int|
                            k < j < next.len() && click_candidate(
                                q,
                                #[trigger] next[j],
                            ) implies !preferred(q, next[j].0, next[k as int].0) by {
                            if j < i {
                                assert(next[j] == prefix[j]);
                            }
                        }
                    },
                    None => {
                        assert forall|j: int| 0 <= j < next.len() implies !click_candidate(
                            q,
                            #[trigger] next[j],
                        ) by {
                            if j < i {
                                assert(next[j] == prefix[j]);
                            }
                        }
                    },
                }
            }
        }
        i = i + 1;
    }
    assert(candidates@.subrange(0, i as int) =~= candidates@);
    best
}

/// The element a click lands on, and the point it aims at.
#[derive(Debug, Clone, PartialEq, Eq)]
pub struct ResolvedClickTarget {
    pub element: UiElement,
    pub position: Point,
}

/// The error text for a selector that no clickable element matched.
pub open spec fn msg_no_target(selector: Seq<char>) -> Seq<char> {
    "no clickable accessibility element matched selector "@ + debug_quoted(selector)
}

/// Whether a click selector is blank.
fn selector_is_blank(selector: &str) -> (r: bool)
    ensures
        r == (trim(selector@).len() == 0),
{
    let all = chars_of(selector);
    let t = trim_chars(&all);
    t.len() == 0
}

/// Resolves a click selector against elements, each paired with whether its
/// confidence reaches the selector's threshold. A blank selector and a
/// malformed one are errors; otherwise the target is the element at the
/// index [`is_click_target`] names, and its click point.
pub fn resolve_click_target_from_elements(selector: &str, elements: Vec<(UiElement, bool)>) -> (r:
    Result<ResolvedClickTarget, PeekabooXError>)
    ensures
        trim(selector@).len() == 0 ==> (r matches Err(e) && e.message@
            == "click selector must not be empty"@),
        trim(selector@).len() != 0 ==> match spec_parse_query(selector@) {
            Err(m) => r matches Err(e) && e.message@ == m,
            Ok(q) => if no_click_candidate(q, elements@) {
                r matches Err(e) && e.message@ == msg_no_target(selector@)
            } else {
                r matches Ok(t) && exists|k: int|
                    is_click_target(q, elements@, k) && t.element == elements@[k].0 && Some(
                        t.position,
                    ) == spec_element_center(elements@[k].0)
            },
        },
{
    if selector_is_blank(selector) {
        return Err(PeekabooXError::from_str("click selector must not be empty"));
    }
    let query = ElementQuery::parse(selector)?;
    match best_click_target(&query, elements.as_slice()) {
        Some(k) => {
            let mut elements = elements;
            let (element, _) = elements.remove(k);
            let position = element_center(&element).unwrap();
            Ok(ResolvedClickTarget { element, position })
        },
        None => {
            let mut m = String::from_str("no clickable accessibility element matched selector ");
            let chars = chars_of(selector);
            let q = debug_text(&chars);
            m.append(q.as_str());
            Err(PeekabooXError::new(m))
        },
    }
}

/// Two elements hold the same values, field by field.
pub open spec fn same_element(a: UiElement, b: UiElement) -> bool {
    &&& a.id == b.id
    &&& a.role == b.role
    &&& a.label == b.label
    &&& a.bounds == b.bounds
    &&& a.center == b.center
    &&& a.states@ == b.states@
    &&& a.window_id == b.window_id
    &&& a.window_title == b.window_title
    &&& a.app_id == b.app_id
    &&& a.parent_id == b.parent_id
    &&& a.child_ids@ == b.child_ids@
}

fn copy_opt_text(s: &Option<String>) -> (r: Option<String>)
    ensures
        r == *s,
{
    match s {
        Some(t) => Some(t.clone()),
        None => None,
    }
}

fn copy_texts(v: &Vec<String>) -> (r: Vec<String>)
    ensures
        r@ == v@,
{
    let mut r: Vec<String> = Vec::new();
    let mut i: usize = 0;
    while i < v.len()
        invariant
            i <= v@.len(),
            r@ == v@.subrange(0, i as int),
        decreases v@.len() - i,
    {
        r.push(v[i].clone());
        assert(v@.subrange(0, i + 1) =~= v@.subrange(0, i as int).push(v@[i as int]));
        i = i + 1;
    }
    assert(v@.subrange(0, v@.len() as int) =~= v@);
    r
}

/// A copy of an element that holds the same values.
pub fn copy_element(e: &UiElement) -> (r: UiElement)
    ensures
        same_element(r, *e),
{
    UiElement {
        id: e.id.clone(),
        role: e.role.clone(),
        label: copy_opt_text(&e.label),
        bounds: e.bounds,
        center: e.center,
        states: copy_texts(&e.states),
        window_id: copy_opt_text(&e.window_id),
        window_title: copy_opt_text(&e.window_title),
        app_id: copy_opt_text(&e.app_id),
        parent_id: copy_opt_text(&e.parent_id),
        child_ids: copy_texts(&e.child_ids),
    }
}

/// Resolves a click selector against a borrowed list of elements, as
/// [`resolve_click_target_from_elements`] does; the target is a copy.
pub fn resolve_click_target_from_tree(selector: &str, elements: &[(UiElement, bool)]) -> (r: Result<
    ResolvedClickTarget,
    PeekabooXError,
>)
    ensures
        trim(selector@).len() == 0 ==> (r matches Err(e) && e.message@
            == "click selector must not be empty"@),
        trim(selector@).len() != 0 ==> match spec_parse_query(selector@) {
            Err(m) => r matches Err(e) && e.message@ == m,
            Ok(q) => if no_click_candidate(q, elements@) {
                r matches Err(e) && e.message@ == msg_no_target(selector@)
            } else {
                r matches Ok(t) && exists|k: int|
                    is_click_target(q, elements@, k) && same_element(t.element, elements@[k].0)
                        && Some(t.position) == spec_element_center(elements@[k].0)
            },
        },
{
    if selector_is_blank(selector) {
        return Err(PeekabooXError::from_str("click selector must not be empty"));
    }
    let query = ElementQuery::parse(selector)?;
    match best_click_target(&query, elements) {
        Some(k) => {
            let element = copy_element(&elements[k].0);
            let position = element_center(&elements[k].0).unwrap();
            Ok(ResolvedClickTarget { element, position })
        },
        None => {
            let mut m = String::from_str("no clickable accessibility element matched selector ");
            let chars = chars_of(selector);
            let q = debug_text(&chars);
            m.append(q.as_str());
            Err(PeekabooXError::new(m))
        },
    }
}

/// At most one index of a list is the target of a click: the choice does not
/// depend on how ties are searched.
pub proof fn lemma_click_target_unique(
    q: ElementQueryView,
    cs: Seq<(UiElement, bool)>,
    k1: int,
    k2: int,
)
    requires
        is_click_target(q, cs, k1),
        is_click_target(q, cs, k2),
    ensures
        k1 == k2,
{
    if k1 < k2 {
        assert(click_candidate(q, cs[k1]));
        assert(preferred(q, cs[k2].0, cs[k1].0));
    } else if k2 < k1 {
        assert(click_candidate(q, cs[k2]));
        assert(preferred(q, cs[k1].0, cs[k2].0));
    }
}

/// The target of a click matches the selector's query, has a point to click,
/// and no candidate scores higher.
pub proof fn lemma_click_target_best_score(q: ElementQueryView, cs: Seq<(UiElement, bool)>, k: int, j: int)
    requires
        is_click_target(q, cs, k),
        0 <= j < cs.len(),
        click_candidate(q, cs[j]),
    ensures
        spec_query_matches(q, cs[k].0, cs[k].1),
        spec_element_center(cs[k].0) is Some,
        spec_click_score(q, cs[j].0) <= spec_click_score(q, cs[k].0),
{
    if j < k {
        assert(preferred(q, cs[k].0, cs[j].0));
    } else if j > k {
        assert(!preferred(q, cs[j].0, cs[k].0));
    }
}

} // verus!
