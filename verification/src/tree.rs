use vstd::prelude::*;

use crate::element::{lemma_text_lt_irreflexive, lemma_text_lt_trans, text_less, text_lt};
use crate::text::{chars_of, opt_text, str_eq};
use crate::types::UiElement;

verus! {

/// Order of optional texts: absent first, then by [`text_lt`].
pub open spec fn opt_text_lt(a: Option<Seq<char>>, b: Option<Seq<char>>) -> bool {
    match (a, b) {
        (None, Some(_)) => true,
        (Some(x), Some(y)) => text_lt(x, y),
        _ => false,
    }
}

/// The order of a semantic tree's elements: by role, then label, then id.
pub open spec fn element_key_lt(a: UiElement, b: UiElement) -> bool {
    ||| text_lt(a.role@, b.role@)
    ||| a.role@ == b.role@ && opt_text_lt(opt_text(a.label), opt_text(b.label))
    ||| a.role@ == b.role@ && opt_text(a.label) == opt_text(b.label) && text_lt(a.id@, b.id@)
}

fn opt_text_less(a: &Option<String>, b: &Option<String>) -> (r: bool)
    ensures
        r == opt_text_lt(opt_text(*a), opt_text(*b)),
{
    match (a, b) {
        (None, Some(_)) => true,
        (Some(x), Some(y)) => text_less(&chars_of(x.as_str()), &chars_of(y.as_str())),
        _ => false,
    }
}

fn opt_text_eq(a: &Option<String>, b: &Option<String>) -> (r: bool)
    ensures
        r == (opt_text(*a) == opt_text(*b)),
{
    match (a, b) {
        (None, None) => true,
        (Some(x), Some(y)) => str_eq(x.as_str(), y.as_str()),
        _ => false,
    }
}

/// Whether `a` goes before `b` (see [`element_key_lt`]).
pub fn element_key_less(a: &UiElement, b: &UiElement) -> (r: bool)
    ensures
        r == element_key_lt(*a, *b),
{
    if text_less(&chars_of(a.role.as_str()), &chars_of(b.role.as_str())) {
        return true;
    }
    if !str_eq(a.role.as_str(), b.role.as_str()) {
        return false;
    }
    if opt_text_less(&a.label, &b.label) {
        return true;
    }
    opt_text_eq(&a.label, &b.label) && text_less(&chars_of(a.id.as_str()), &chars_of(b.id.as_str()))
}

/// Where a stable insertion puts `e` into `s`, searching from `j`: before the
/// first element that goes after it.
pub open spec fn insert_pos(s: Seq<UiElement>, e: UiElement, j: int) -> int
    decreases s.len() - j,
{
    if j < 0 || j >= s.len() {
        s.len() as int
    } else if element_key_lt(e, s[j]) {
        j
    } else {
        insert_pos(s, e, j + 1)
    }
}

/// The elements sorted by [`element_key_lt`], stably: each one goes after
/// the earlier ones it does not precede.
pub open spec fn spec_sorted_elements(s: Seq<UiElement>) -> Seq<UiElement>
    decreases s.len(),
{
    if s.len() == 0 {
        s
    } else {
        let t = spec_sorted_elements(s.drop_last());
        t.insert(insert_pos(t, s.last(), 0), s.last())
    }
}

proof fn lemma_insert_pos_bounds(s: Seq<UiElement>, e: UiElement, j: int)
    requires
        0 <= j <= s.len(),
    ensures
        j <= insert_pos(s, e, j) <= s.len(),
    decreases s.len() - j,
{
    if j < s.len() && !element_key_lt(e, s[j]) {
        lemma_insert_pos_bounds(s, e, j + 1);
    }
}

/// Sorts elements by role, label and id, keeping the order of equal ones
/// (see [`spec_sorted_elements`]).
pub fn sort_elements(elements: Vec<UiElement>) -> (r: Vec<UiElement>)
    ensures
        r@ == spec_sorted_elements(elements@),
{
    let ghost all = elements@;
    let n = elements.len();
    let mut rest = elements;
    let mut sorted: Vec<UiElement> = Vec::new();
    let mut i: usize = 0;
    while rest.len() > 0
        invariant
            all.len() == n,
            i + rest@.len() == n,
            rest@ == all.subrange(i as int, n as int),
            sorted@ == spec_sorted_elements(all.subrange(0, i as int)),
        decreases rest@.len(),
    {
        let e = rest.remove(0);
        assert(e == all[i as int]);
        assert(rest@ =~= all.subrange(i + 1, n as int));
        let ghost t = sorted@;
        let mut j: usize = 0;
        while j < sorted.len() && !element_key_less(&e, &sorted[j])
            invariant
                t == sorted@,
                j <= sorted@.len(),
                insert_pos(t, e, 0) == insert_pos(t, e, j as int),
            decreases sorted@.len() - j,
        {
            j = j + 1;
        }
        proof {
            let prefix = all.subrange(0, i + 1);
            assert(prefix.drop_last() =~= all.subrange(0, i as int));
            assert(prefix.last() == e);
        }
        sorted.insert(j, e);
        i = i + 1;
    }
    assert(all.subrange(0, n as int) =~= all);
    sorted
}

/// The elements with every run of consecutive equal ids cut down to its
/// first element.
pub open spec fn spec_dedup_ids(s: Seq<UiElement>) -> Seq<UiElement>
    decreases s.len(),
{
    if s.len() <= 1 {
        s
    } else {
        let t = spec_dedup_ids(s.drop_last());
        if s.last().id@ == s[s.len() - 2].id@ {
            t
        } else {
            t.push(s.last())
        }
    }
}

/// Drops each element whose id equals the previous element's (see
/// [`spec_dedup_ids`]).
pub fn dedup_ids(elements: Vec<UiElement>) -> (r: Vec<UiElement>)
    ensures
        r@ == spec_dedup_ids(elements@),
{
    let ghost all = elements@;
    let n = elements.len();
    let mut rest = elements;
    let mut kept: Vec<UiElement> = Vec::new();
    let mut previous: Option<String> = None;
    let mut i: usize = 0;
    while rest.len() > 0
        invariant
            all.len() == n,
            i + rest@.len() == n,
            rest@ == all.subrange(i as int, n as int),
            kept@ == spec_dedup_ids(all.subrange(0, i as int)),
            i == 0 <==> previous is None,
            i > 0 ==> (previous matches Some(p) && p@ == all[i - 1].id@),
        decreases rest@.len(),
    {
        let e = rest.remove(0);
        assert(e == all[i as int]);
        assert(rest@ =~= all.subrange(i + 1, n as int));
        let same = match &previous {
            Some(p) => str_eq(p.as_str(), e.id.as_str()),
            None => false,
        };
        let id = e.id.clone();
        proof {
            let prefix = all.subrange(0, i + 1);
            assert(prefix.drop_last() =~= all.subrange(0, i as int));
            assert(prefix.last() == e);
            if i > 0 {
                assert(prefix[prefix.len() - 2] == all[i - 1]);
            } else {
                assert(prefix.len() == 1);
                assert(spec_dedup_ids(prefix) == prefix);
                assert(prefix =~= Seq::<UiElement>::empty().push(e));
            }
        }
        if !same {
            kept.push(e);
        }
        previous = Some(id);
        i = i + 1;
    }
    assert(all.subrange(0, n as int) =~= all);
    kept
}

/// The elements of a semantic tree in report order: sorted by role, label
/// and id, one element per run of equal ids.
pub fn normalize_tree_elements(elements: Vec<UiElement>) -> (r: Vec<UiElement>)
    ensures
        r@ == spec_dedup_ids(spec_sorted_elements(elements@)),
{
    dedup_ids(sort_elements(elements))
}

proof fn lemma_opt_text_lt_trans(a: Option<Seq<char>>, b: Option<Seq<char>>, c: Option<Seq<char>>)
    requires
        opt_text_lt(a, b),
        opt_text_lt(b, c),
    ensures
        opt_text_lt(a, c),
{
    if a is Some {
        lemma_text_lt_trans(a->0, b->0, c->0, 0);
    }
}

proof fn lemma_opt_text_lt_irreflexive(a: Option<Seq<char>>)
    ensures
        !opt_text_lt(a, a),
{
    if a is Some {
        lemma_text_lt_irreflexive(a->0, 0);
    }
}

/// The order of elements is transitive and irreflexive, so no element goes
/// before one that goes before it.
pub proof fn lemma_element_key_order(a: UiElement, b: UiElement, c: UiElement)
    ensures
        !element_key_lt(a, a),
        element_key_lt(a, b) && element_key_lt(b, c) ==> element_key_lt(a, c),
        element_key_lt(a, b) ==> !element_key_lt(b, a),
{
    lemma_text_lt_irreflexive(a.role@, 0);
    lemma_text_lt_irreflexive(a.id@, 0);
    lemma_opt_text_lt_irreflexive(opt_text(a.label));
    if element_key_lt(a, b) && element_key_lt(b, c) {
        if text_lt(a.role@, b.role@) && text_lt(b.role@, c.role@) {
            lemma_text_lt_trans(a.role@, b.role@, c.role@, 0);
        }
        if opt_text_lt(opt_text(a.label), opt_text(b.label)) && opt_text_lt(
            opt_text(b.label),
            opt_text(c.label),
        ) {
            lemma_opt_text_lt_trans(opt_text(a.label), opt_text(b.label), opt_text(c.label));
        }
        if text_lt(a.id@, b.id@) && text_lt(b.id@, c.id@) {
            lemma_text_lt_trans(a.id@, b.id@, c.id@, 0);
        }
    }
    if element_key_lt(a, b) && element_key_lt(b, a) {
        if text_lt(a.role@, b.role@) && text_lt(b.role@, a.role@) {
            lemma_text_lt_trans(a.role@, b.role@, a.role@, 0);
        }
        if opt_text_lt(opt_text(a.label), opt_text(b.label)) && opt_text_lt(
            opt_text(b.label),
            opt_text(a.label),
        ) {
            lemma_opt_text_lt_trans(opt_text(a.label), opt_text(b.label), opt_text(a.label));
        }
        if text_lt(a.id@, b.id@) && text_lt(b.id@, a.id@) {
            lemma_text_lt_trans(a.id@, b.id@, a.id@, 0);
        }
    }
}

/// Elements in order: none goes before an element listed earlier.
pub open spec fn elements_sorted(s: Seq<UiElement>) -> bool {
    forall|i: int, j: int| 0 <= i < j < s.len() ==> !element_key_lt(#[trigger] s[j], #[trigger] s[i])
}

proof fn lemma_insert_pos_facts(s: Seq<UiElement>, e: UiElement, j: int)
    requires
        0 <= j <= s.len(),
        forall|k: int| 0 <= k < j ==> !element_key_lt(e, #[trigger] s[k]),
    ensures
        j <= insert_pos(s, e, j) <= s.len(),
        forall|k: int| 0 <= k < insert_pos(s, e, j) ==> !element_key_lt(e, #[trigger] s[k]),
        insert_pos(s, e, j) < s.len() ==> element_key_lt(e, s[insert_pos(s, e, j)]),
    decreases s.len() - j,
{
    if j < s.len() && !element_key_lt(e, s[j]) {
        lemma_insert_pos_facts(s, e, j + 1);
    }
}

/// Sorting puts the elements in order and keeps every one of them, as often
/// as it occurs.
pub proof fn lemma_sorted_elements(s: Seq<UiElement>)
    ensures
        elements_sorted(spec_sorted_elements(s)),
        spec_sorted_elements(s).to_multiset() == s.to_multiset(),
    decreases s.len(),
{
    broadcast use vstd::seq_lib::to_multiset_build, vstd::seq_lib::to_multiset_insert;

    if s.len() == 0 {
    } else {
        let rest = s.drop_last();
        lemma_sorted_elements(rest);
        let t = spec_sorted_elements(rest);
        let e = s.last();
        let p = insert_pos(t, e, 0);
        lemma_insert_pos_facts(t, e, 0);
        let r = t.insert(p, e);
        assert forall|i: int, j: int| 0 <= i < j < r.len() implies !element_key_lt(
            #[trigger] r[j],
            #[trigger] r[i],
        ) by {
            if j < p {
                assert(r[i] == t[i] && r[j] == t[j]);
            } else if j == p {
                assert(r[i] == t[i] && r[j] == e);
                lemma_element_key_order(e, t[i], e);
                if element_key_lt(e, t[i]) {
                    assert(!element_key_lt(e, t[i]));
                }
            } else if i < p {
                assert(r[i] == t[i] && r[j] == t[j - 1]);
            } else if i == p {
                assert(r[i] == e && r[j] == t[j - 1]);
                lemma_element_key_order(t[j - 1], e, t[p]);
                if j - 1 > p {
                    assert(!element_key_lt(t[j - 1], t[p]));
                }
            } else {
                assert(r[i] == t[i - 1] && r[j] == t[j - 1]);
            }
        }
        assert(s =~= rest.push(e));
    }
}

/// After the cut, no two neighbours share an id, and every id of the list is
/// still there.
pub proof fn lemma_dedup_ids(s: Seq<UiElement>)
    ensures
        forall|i: int|
            0 <= i < spec_dedup_ids(s).len() - 1 ==> (#[trigger] spec_dedup_ids(s)[i]).id@
                != spec_dedup_ids(s)[i + 1].id@,
        forall|i: int|
            0 <= i < s.len() ==> exists|k: int|
                0 <= k < spec_dedup_ids(s).len() && (#[trigger] spec_dedup_ids(s)[k]).id@ == (
                #[trigger] s[i]).id@,
        s.len() > 0 ==> spec_dedup_ids(s).len() > 0 && spec_dedup_ids(s).last().id@ == s.last().id@,
    decreases s.len(),
{
    if s.len() > 1 {
        let rest = s.drop_last();
        lemma_dedup_ids(rest);
        let t = spec_dedup_ids(rest);
        let d = spec_dedup_ids(s);
        assert(rest.last() == s[s.len() - 2]);
        assert forall|i: int| 0 <= i < s.len() implies exists|k: int|
            0 <= k < d.len() && (#[trigger] d[k]).id@ == (#[trigger] s[i]).id@ by {
            if i < s.len() - 1 {
                assert(s[i] == rest[i]);
                let k = choose|k: int| 0 <= k < t.len() && (#[trigger] t[k]).id@ == rest[i].id@;
                assert(d[k] == t[k]);
            } else if s.last().id@ == s[s.len() - 2].id@ {
                assert(d[t.len() - 1] == t.last());
            } else {
                assert(d[t.len() as int] == s.last());
            }
        }
        if s.last().id@ != s[s.len() - 2].id@ {
            assert forall|i: int| 0 <= i < d.len() - 1 implies (#[trigger] d[i]).id@ != d[i + 1].id@ by {
                if i < t.len() - 1 {
                    assert(d[i] == t[i] && d[i + 1] == t[i + 1]);
                } else {
                    assert(d[i] == t.last());
                }
            }
        }
    } else if s.len() == 1 {
        assert(spec_dedup_ids(s)[0] == s[0]);
    }
}

} // verus!
