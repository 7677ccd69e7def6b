use vstd::prelude::*;

use crate::selector::{
    is_one_of, non_empty_string, one_of, rect_from_extents, spec_non_empty, spec_rect_from_extents,
};
use crate::text::{chars_of, lower_chars, lower_seq, str_eq, string_from_chars, texts, trim, trim_chars};
use crate::cache::AccessibilityTreeMetadata;
use crate::tree::{normalize_tree_elements, spec_dedup_ids, spec_sorted_elements};
use crate::query::ElementQuery;
use crate::types::{spec_center, BackendKind, PeekabooXError, Rect, UiElement};

verus! {

/// The number of states an AT-SPI state set names.
pub const STATE_COUNT: usize = 44;

/// The AT-SPI state names, by bit index.
pub open spec fn state_name_table() -> Seq<&'static str> {
    seq![
        "invalid", "active", "armed", "busy", "checked", "collapsed", "defunct", "editable",
        "enabled", "expandable", "expanded", "focusable", "focused", "has-tooltip", "horizontal",
        "iconified", "modal", "multi-line", "multi-selectable", "opaque", "pressed", "resizable",
        "selectable", "selected", "sensitive", "showing", "single-line", "stale", "transient",
        "vertical", "visible", "manages-descendants", "indeterminate", "required", "truncated",
        "animated", "invalid-entry", "supports-autocompletion", "selectable-text", "is-default",
        "visited", "checkable", "has-popup", "read-only",
    ]
}

/// Bit `index` of a state set held as 32-bit words, lowest bit first; bits
/// past the last word are clear.
pub open spec fn spec_state_bit(words: Seq<u32>, index: nat) -> bool {
    let w = index / 32;
    w < words.len() && words[w as int] & (1u32 << ((index % 32) as u32)) != 0
}

/// The names of the set bits among the first `n` states, in index order.
pub open spec fn state_names_upto(words: Seq<u32>, n: nat) -> Seq<Seq<char>>
    decreases n,
{
    if n == 0 {
        Seq::empty()
    } else {
        let before = state_names_upto(words, (n - 1) as nat);
        if spec_state_bit(words, (n - 1) as nat) {
            before.push(state_name_table()[n - 1]@)
        } else {
            before
        }
    }
}

/// The names of all the states a state set holds, in index order.
pub open spec fn spec_state_names(words: Seq<u32>) -> Seq<Seq<char>> {
    state_names_upto(words, STATE_COUNT as nat)
}

/// Whether bit `index` of the state set is set (see [`spec_state_bit`]).
pub fn atspi_state_bit_is_set(states: &[u32], index: usize) -> (r: bool)
    ensures
        r == spec_state_bit(states@, index as nat),
{
    let w = index / 32;
    if w >= states.len() {
        return false;
    }
    let shift: u32 = (index % 32) as u32;
    states[w] & (1u32 << shift) != 0
}

/// The names of the states an AT-SPI state set holds, in index order.
pub fn atspi_state_names(states: &[u32]) -> (r: Vec<String>)
    ensures
        texts(r@) == spec_state_names(states@),
{
    let table: [&str; 44] = [
        "invalid", "active", "armed", "busy", "checked", "collapsed", "defunct", "editable",
        "enabled", "expandable", "expanded", "focusable", "focused", "has-tooltip", "horizontal",
        "iconified", "modal", "multi-line", "multi-selectable", "opaque", "pressed", "resizable",
        "selectable", "selected", "sensitive", "showing", "single-line", "stale", "transient",
        "vertical", "visible", "manages-descendants", "indeterminate", "required", "truncated",
        "animated", "invalid-entry", "supports-autocompletion", "selectable-text", "is-default",
        "visited", "checkable", "has-popup", "read-only",
    ];
    assert(table@ =~= state_name_table());
    let mut r: Vec<String> = Vec::new();
    let mut i: usize = 0;
    while i < STATE_COUNT
        invariant
            i <= STATE_COUNT,
            table@ == state_name_table(),
            texts(r@) == state_names_upto(states@, i as nat),
        decreases STATE_COUNT - i,
    {
        if atspi_state_bit_is_set(states, i) {
            let name = String::from_str(table[i]);
            let ghost before = r@;
            r.push(name);
            assert(texts(r@) =~= texts(before).push(name@));
        }
        i = i + 1;
    }
    r
}

/// The state name of each value of AT-SPI's `AtspiStateType` enumeration
/// (`ATSPI_STATE_INVALID` is 0, `ATSPI_STATE_ACTIVE` 1, ...,
/// `ATSPI_STATE_READ_ONLY` 43): the enumerator's suffix in lower case with
/// `_` written `-`.
pub open spec fn atspi_state_type_name(value: int) -> Seq<char> {
    if value == 0 {
        "invalid"@
    } else if value == 1 {
        "active"@
    } else if value == 2 {
        "armed"@
    } else if value == 3 {
        "busy"@
    } else if value == 4 {
        "checked"@
    } else if value == 5 {
        "collapsed"@
    } else if value == 6 {
        "defunct"@
    } else if value == 7 {
        "editable"@
    } else if value == 8 {
        "enabled"@
    } else if value == 9 {
        "expandable"@
    } else if value == 10 {
        "expanded"@
    } else if value == 11 {
        "focusable"@
    } else if value == 12 {
        "focused"@
    } else if value == 13 {
        "has-tooltip"@
    } else if value == 14 {
        "horizontal"@
    } else if value == 15 {
        "iconified"@
    } else if value == 16 {
        "modal"@
    } else if value == 17 {
        "multi-line"@
    } else if value == 18 {
        "multi-selectable"@
    } else if value == 19 {
        "opaque"@
    } else if value == 20 {
        "pressed"@
    } else if value == 21 {
        "resizable"@
    } else if value == 22 {
        "selectable"@
    } else if value == 23 {
        "selected"@
    } else if value == 24 {
        "sensitive"@
    } else if value == 25 {
        "showing"@
    } else if value == 26 {
        "single-line"@
    } else if value == 27 {
        "stale"@
    } else if value == 28 {
        "transient"@
    } else if value == 29 {
        "vertical"@
    } else if value == 30 {
        "visible"@
    } else if value == 31 {
        "manages-descendants"@
    } else if value == 32 {
        "indeterminate"@
    } else if value == 33 {
        "required"@
    } else if value == 34 {
        "truncated"@
    } else if value == 35 {
        "animated"@
    } else if value == 36 {
        "invalid-entry"@
    } else if value == 37 {
        "supports-autocompletion"@
    } else if value == 38 {
        "selectable-text"@
    } else if value == 39 {
        "is-default"@
    } else if value == 40 {
        "visited"@
    } else if value == 41 {
        "checkable"@
    } else if value == 42 {
        "has-popup"@
    } else if value == 43 {
        "read-only"@
    } else {
        Seq::empty()
    }
}

/// The AT-SPI names of the set bits among the first `n` states, in index
/// order.
pub open spec fn atspi_names_of_set_bits(words: Seq<u32>, n: nat) -> Seq<Seq<char>>
    decreases n,
{
    if n == 0 {
        Seq::empty()
    } else {
        let before = atspi_names_of_set_bits(words, (n - 1) as nat);
        if spec_state_bit(words, (n - 1) as nat) {
            before.push(atspi_state_type_name(n - 1))
        } else {
            before
        }
    }
}

proof fn lemma_state_table_is_atspi_enum()
    ensures
        forall|i: int| 0 <= i < STATE_COUNT ==> #[trigger] state_name_table()[i]@ == atspi_state_type_name(i),
{
    let t = state_name_table();
    assert(t[0]@ == atspi_state_type_name(0));
    assert(t[1]@ == atspi_state_type_name(1));
    assert(t[2]@ == atspi_state_type_name(2));
    assert(t[3]@ == atspi_state_type_name(3));
    assert(t[4]@ == atspi_state_type_name(4));
    assert(t[5]@ == atspi_state_type_name(5));
    assert(t[6]@ == atspi_state_type_name(6));
    assert(t[7]@ == atspi_state_type_name(7));
    assert(t[8]@ == atspi_state_type_name(8));
    assert(t[9]@ == atspi_state_type_name(9));
    assert(t[10]@ == atspi_state_type_name(10));
    assert(t[11]@ == atspi_state_type_name(11));
    assert(t[12]@ == atspi_state_type_name(12));
    assert(t[13]@ == atspi_state_type_name(13));
    assert(t[14]@ == atspi_state_type_name(14));
    assert(t[15]@ == atspi_state_type_name(15));
    assert(t[16]@ == atspi_state_type_name(16));
    assert(t[17]@ == atspi_state_type_name(17));
    assert(t[18]@ == atspi_state_type_name(18));
    assert(t[19]@ == atspi_state_type_name(19));
    assert(t[20]@ == atspi_state_type_name(20));
    assert(t[21]@ == atspi_state_type_name(21));
    assert(t[22]@ == atspi_state_type_name(22));
    assert(t[23]@ == atspi_state_type_name(23));
    assert(t[24]@ == atspi_state_type_name(24));
    assert(t[25]@ == atspi_state_type_name(25));
    assert(t[26]@ == atspi_state_type_name(26));
    assert(t[27]@ == atspi_state_type_name(27));
    assert(t[28]@ == atspi_state_type_name(28));
    assert(t[29]@ == atspi_state_type_name(29));
    assert(t[30]@ == atspi_state_type_name(30));
    assert(t[31]@ == atspi_state_type_name(31));
    assert(t[32]@ == atspi_state_type_name(32));
    assert(t[33]@ == atspi_state_type_name(33));
    assert(t[34]@ == atspi_state_type_name(34));
    assert(t[35]@ == atspi_state_type_name(35));
    assert(t[36]@ == atspi_state_type_name(36));
    assert(t[37]@ == atspi_state_type_name(37));
    assert(t[38]@ == atspi_state_type_name(38));
    assert(t[39]@ == atspi_state_type_name(39));
    assert(t[40]@ == atspi_state_type_name(40));
    assert(t[41]@ == atspi_state_type_name(41));
    assert(t[42]@ == atspi_state_type_name(42));
    assert(t[43]@ == atspi_state_type_name(43));
}

/// A state set's names are exactly the AT-SPI `AtspiStateType` names of its
/// set bits, in bit order: bit `i` names enumeration value `i` (bit 11
/// `focusable`, bit 12 `focused`, ...), whatever words the set holds.
pub proof fn lemma_state_names_follow_atspi_enum(words: Seq<u32>)
    ensures
        spec_state_names(words) == atspi_names_of_set_bits(words, STATE_COUNT as nat),
        forall|i: nat| i < STATE_COUNT && #[trigger] spec_state_bit(words, i) ==> spec_state_names(
            words,
        ).contains(atspi_state_type_name(i as int)),
{
    lemma_state_table_is_atspi_enum();
    lemma_names_upto_follow_enum(words, STATE_COUNT as nat);
    assert forall|i: nat| i < STATE_COUNT && #[trigger] spec_state_bit(words, i) implies spec_state_names(
        words,
    ).contains(atspi_state_type_name(i as int)) by {
        lemma_set_bit_is_named(words, i, STATE_COUNT as nat);
    }
}

proof fn lemma_names_upto_follow_enum(words: Seq<u32>, n: nat)
    requires
        n <= STATE_COUNT,
        forall|i: int| 0 <= i < STATE_COUNT ==> #[trigger] state_name_table()[i]@ == atspi_state_type_name(i),
    ensures
        state_names_upto(words, n) == atspi_names_of_set_bits(words, n),
    decreases n,
{
    if n > 0 {
        lemma_names_upto_follow_enum(words, (n - 1) as nat);
        assert(state_name_table()[n - 1]@ == atspi_state_type_name(n - 1));
    }
}

proof fn lemma_set_bit_is_named(words: Seq<u32>, i: nat, n: nat)
    requires
        i < n,
        spec_state_bit(words, i),
    ensures
        atspi_names_of_set_bits(words, n).contains(atspi_state_type_name(i as int)),
    decreases n,
{
    let before = atspi_names_of_set_bits(words, (n - 1) as nat);
    if i == n - 1 {
        assert(atspi_names_of_set_bits(words, n) == before.push(atspi_state_type_name(i as int)));
        assert(atspi_names_of_set_bits(words, n)[before.len() as int] == atspi_state_type_name(i as int));
    } else {
        lemma_set_bit_is_named(words, i, (n - 1) as nat);
        let k = choose|k: int| 0 <= k < before.len() && before[k] == atspi_state_type_name(i as int);
        if spec_state_bit(words, (n - 1) as nat) {
            assert(atspi_names_of_set_bits(words, n)[k] == before[k]);
        }
    }
}

/// Roles of containers that carry no meaning of their own.
pub open spec fn spec_is_structural_role(role: Seq<char>) -> bool {
    one_of(role, seq!["application", "panel", "filler", "root pane", "layered pane", "unknown"])
}

/// Whether a role (as written, case included) is a mere container.
pub fn is_structural_role(role: &str) -> (r: bool)
    ensures
        r == spec_is_structural_role(role@),
{
    let t: [&str; 6] = ["application", "panel", "filler", "root pane", "layered pane", "unknown"];
    assert(t@ =~= seq!["application", "panel", "filler", "root pane", "layered pane", "unknown"]);
    let c = chars_of(role);
    is_one_of(&c, &t)
}

/// Roles of elements that open a window of their own, compared ignoring
/// ASCII case.
pub open spec fn spec_is_window_role(role: Seq<char>) -> bool {
    one_of(
        lower_seq(role),
        seq!["frame", "window", "dialog", "alert", "file chooser", "page tab list"],
    )
}

/// Whether a role opens a window of its own (see [`spec_is_window_role`]).
pub fn is_window_role(role: &str) -> (r: bool)
    ensures
        r == spec_is_window_role(role@),
{
    let t: [&str; 6] = ["frame", "window", "dialog", "alert", "file chooser", "page tab list"];
    assert(t@ =~= seq!["frame", "window", "dialog", "alert", "file chooser", "page tab list"]);
    let c = chars_of(role);
    let l = lower_chars(&c);
    is_one_of(&l, &t)
}

/// What a node of the AT-SPI tree inherits from its ancestors.
#[derive(Debug, Clone, PartialEq, Eq)]
pub struct AtSpiElementContext {
    pub app_id: Option<String>,
    pub window_id: Option<String>,
    pub window_title: Option<String>,
    pub parent_id: Option<String>,
}

fn copy_opt_text(s: &Option<String>) -> (r: Option<String>)
    ensures
        r == *s,
{
    match s {
        Some(t) => Some(t.clone()),
        None => None,
    }
}

/// The context handed to the children of `element`: the element becomes the
/// parent, and a window-like element also becomes the window, titled by its
/// label.
pub fn context_for_children(parent_context: &AtSpiElementContext, element: &UiElement) -> (r:
    AtSpiElementContext)
    ensures
        r.app_id == parent_context.app_id,
        r.parent_id == Some(element.id),
        spec_is_window_role(element.role@) ==> r.window_id == Some(element.id) && r.window_title
            == element.label,
        !spec_is_window_role(element.role@) ==> r.window_id == parent_context.window_id
            && r.window_title == parent_context.window_title,
{
    let window = is_window_role(element.role.as_str());
    AtSpiElementContext {
        app_id: copy_opt_text(&parent_context.app_id),
        window_id: if window {
            Some(element.id.clone())
        } else {
            copy_opt_text(&parent_context.window_id)
        },
        window_title: if window {
            copy_opt_text(&element.label)
        } else {
            copy_opt_text(&parent_context.window_title)
        },
        parent_id: Some(element.id.clone()),
    }
}

/// The bounds of an element from its extents, when they were read and their
/// size is not negative; the empty rectangle at the origin otherwise.
pub open spec fn spec_element_bounds(extents: Option<(i32, i32, i32, i32)>) -> Rect {
    match extents {
        Some(e) => match spec_rect_from_extents(e.0, e.1, e.2, e.3) {
            Some(r) => r,
            None => Rect { x: 0, y: 0, width: 0, height: 0 },
        },
        None => Rect { x: 0, y: 0, width: 0, height: 0 },
    }
}

/// Builds the element for one AT-SPI node from what was read of it: its id,
/// role name, accessible name, extents and state words (each `None` when
/// reading it failed), the context it inherits and its children's ids. A node
/// with a blank role gives none, and so does an unlabelled, sizeless node of a
/// structural role.
pub fn ui_element_from_parts(
    id: String,
    role: &str,
    name: Option<String>,
    extents: Option<(i32, i32, i32, i32)>,
    state_words: Option<Vec<u32>>,
    context: &AtSpiElementContext,
    child_ids: Vec<String>,
) -> (r: Option<UiElement>)
    ensures
        ({
            let role_t = trim(role@);
            let label = match name {
                Some(n) => spec_non_empty(n@),
                None => None,
            };
            let bounds = spec_element_bounds(extents);
            if role_t.len() == 0 || (label is None && bounds.width == 0 && bounds.height == 0
                && spec_is_structural_role(role_t)) {
                r is None
            } else {
                r matches Some(e) && {
                    &&& e.id == id
                    &&& e.role@ == role_t
                    &&& match e.label {
                        Some(l) => label == Some(l@),
                        None => label is None,
                    }
                    &&& e.bounds == bounds
                    &&& e.center == spec_center(bounds)
                    &&& texts(e.states@) == match state_words {
                        Some(w) => spec_state_names(w@),
                        None => Seq::empty(),
                    }
                    &&& e.window_id == context.window_id
                    &&& e.window_title == context.window_title
                    &&& e.app_id == context.app_id
                    &&& e.parent_id == context.parent_id
                    &&& e.child_ids == child_ids
                }
            }
        }),
{
    let role_chars = chars_of(role);
    let role_t = trim_chars(&role_chars);
    if role_t.len() == 0 {
        return None;
    }
    let role_text = string_from_chars(role_t.as_slice());
    let label = match &name {
        Some(n) => non_empty_string(n.as_str()),
        None => None,
    };
    let bounds = match extents {
        Some(e) => match rect_from_extents(e) {
            Some(r) => r,
            None => Rect::new(0, 0, 0, 0),
        },
        None => Rect::new(0, 0, 0, 0),
    };
    if label.is_none() && bounds.width == 0 && bounds.height == 0 && is_structural_role(
        role_text.as_str(),
    ) {
        return None;
    }
    let states = match &state_words {
        Some(w) => atspi_state_names(w.as_slice()),
        None => Vec::new(),
    };
    proof {
        if state_words is None {
            assert(texts(states@) =~= Seq::<Seq<char>>::empty());
        }
    }
    Some(
        UiElement {
            id,
            role: role_text,
            label,
            bounds,
            center: bounds.center(),
            states,
            window_id: copy_opt_text(&context.window_id),
            window_title: copy_opt_text(&context.window_title),
            app_id: copy_opt_text(&context.app_id),
            parent_id: copy_opt_text(&context.parent_id),
            child_ids,
        },
    )
}

/// The deepest level of the AT-SPI tree that is read.
pub const MAX_TREE_DEPTH: usize = 12;

/// The most AT-SPI nodes visited in one read.
pub const MAX_TREE_NODES: usize = 5000;

/// The most elements kept from one read.
pub const MAX_TREE_ELEMENTS: usize = 2000;

/// No text occurs twice in the list.
pub open spec fn texts_distinct(s: Seq<Seq<char>>) -> bool {
    forall|i: int, j: int| 0 <= i < j < s.len() ==> #[trigger] s[i] != #[trigger] s[j]
}

/// A read of the AT-SPI tree in progress: the elements kept, the nodes
/// visited, and what went wrong on the way.
#[derive(Debug)]
pub struct AtSpiTraversal {
    elements: Vec<UiElement>,
    visited: Vec<String>,
    warnings: Vec<String>,
}

impl AtSpiTraversal {
    #[verifier::type_invariant]
    spec fn within_limits(self) -> bool {
        &&& self.elements@.len() <= MAX_TREE_ELEMENTS
        &&& self.visited@.len() <= MAX_TREE_NODES
        &&& texts_distinct(texts(self.visited@))
    }

    /// The elements kept so far.
    pub closed spec fn spec_elements(self) -> Seq<UiElement> {
        self.elements@
    }

    /// The ids of the nodes visited so far, in order.
    pub closed spec fn spec_visited(self) -> Seq<Seq<char>> {
        texts(self.visited@)
    }

    /// The warnings so far.
    pub closed spec fn spec_warnings(self) -> Seq<Seq<char>> {
        texts(self.warnings@)
    }

    /// A read that has found nothing yet.
    pub fn new() -> (t: Self)
        ensures
            t.spec_elements().len() == 0,
            t.spec_visited().len() == 0,
            t.spec_warnings().len() == 0,
            texts_distinct(t.spec_visited()),
    {
        let t = AtSpiTraversal { elements: Vec::new(), visited: Vec::new(), warnings: Vec::new() };
        assert(texts(t.visited@) =~= Seq::<Seq<char>>::empty());
        t
    }

    /// The read has found as many elements or visited as many nodes as it may.
    pub fn exhausted(&self) -> (r: bool)
        ensures
            r == (self.spec_elements().len() >= MAX_TREE_ELEMENTS || self.spec_visited().len()
                >= MAX_TREE_NODES),
    {
        self.elements.len() >= MAX_TREE_ELEMENTS || self.visited.len() >= MAX_TREE_NODES
    }

    fn has_visited(&self, id: &str) -> (r: bool)
        ensures
            r == self.spec_visited().contains(id@),
    {
        let mut i: usize = 0;
        while i < self.visited.len()
            invariant
                i <= self.visited@.len(),
                forall|k: int| 0 <= k < i ==> (#[trigger] self.visited@[k])@ != id@,
            decreases self.visited@.len() - i,
        {
            if str_eq(self.visited[i].as_str(), id) {
                assert(texts(self.visited@)[i as int] == id@);
                return true;
            }
            i = i + 1;
        }
        proof {
            if texts(self.visited@).contains(id@) {
                let k = choose|k: int| 0 <= k < texts(self.visited@).len() && texts(self.visited@)[k] == id@;
                assert(self.visited@[k]@ == id@);
            }
        }
        false
    }

    /// Enters the node `object_id` at `depth`: refused past the deepest level,
    /// once the read is exhausted, and for a node already visited; an entered
    /// node counts as visited.
    pub fn enter(&mut self, depth: usize, object_id: String) -> (entered: bool)
        ensures
            final(self).spec_elements().len() <= MAX_TREE_ELEMENTS,
            final(self).spec_visited().len() <= MAX_TREE_NODES,
            texts_distinct(final(self).spec_visited()),
            entered == (depth <= MAX_TREE_DEPTH && !(old(self).spec_elements().len()
                >= MAX_TREE_ELEMENTS || old(self).spec_visited().len() >= MAX_TREE_NODES)
                && !old(self).spec_visited().contains(object_id@)),
            entered ==> final(self).spec_visited() == old(self).spec_visited().push(object_id@),
            !entered ==> final(self).spec_visited() == old(self).spec_visited(),
            final(self).spec_elements() == old(self).spec_elements(),
            final(self).spec_warnings() == old(self).spec_warnings(),
    {
        proof {
            use_type_invariant(&*self);
        }
        if depth > MAX_TREE_DEPTH || self.exhausted() || self.has_visited(object_id.as_str()) {
            return false;
        }
        let ghost before = texts(self.visited@);
        let mut visited = Vec::new();
        std::mem::swap(&mut visited, &mut self.visited);
        visited.push(object_id);
        proof {
            let after = texts(visited@);
            assert(after =~= before.push(visited@.last()@));
            assert forall|i: int, j: int| 0 <= i < j < after.len() implies #[trigger] after[i]
                != #[trigger] after[j] by {
                if j < before.len() {
                    assert(after[i] == before[i] && after[j] == before[j]);
                } else {
                    assert(after[i] == before[i]);
                    assert(before.contains(before[i]));
                }
            }
        }
        self.visited = visited;
        true
    }

    /// Keeps an element, unless the read already holds as many as it may.
    pub fn add_element(&mut self, element: UiElement) -> (added: bool)
        ensures
            final(self).spec_elements().len() <= MAX_TREE_ELEMENTS,
            final(self).spec_visited().len() <= MAX_TREE_NODES,
            texts_distinct(final(self).spec_visited()),
            added == (old(self).spec_elements().len() < MAX_TREE_ELEMENTS),
            added ==> final(self).spec_elements() == old(self).spec_elements().push(element),
            !added ==> final(self).spec_elements() == old(self).spec_elements(),
            final(self).spec_visited() == old(self).spec_visited(),
            final(self).spec_warnings() == old(self).spec_warnings(),
    {
        proof {
            use_type_invariant(&*self);
        }
        if self.elements.len() >= MAX_TREE_ELEMENTS {
            return false;
        }
        let mut elements = Vec::new();
        std::mem::swap(&mut elements, &mut self.elements);
        elements.push(element);
        self.elements = elements;
        true
    }

    /// Records what went wrong with a node.
    pub fn warn(&mut self, warning: String)
        ensures
            final(self).spec_elements().len() <= MAX_TREE_ELEMENTS,
            final(self).spec_visited().len() <= MAX_TREE_NODES,
            texts_distinct(final(self).spec_visited()),
            final(self).spec_warnings() == old(self).spec_warnings().push(warning@),
            final(self).spec_elements() == old(self).spec_elements(),
            final(self).spec_visited() == old(self).spec_visited(),
    {
        proof {
            use_type_invariant(&*self);
        }
        let ghost before = texts(self.warnings@);
        let mut warnings = Vec::new();
        std::mem::swap(&mut warnings, &mut self.warnings);
        warnings.push(warning);
        proof {
            assert(texts(warnings@) =~= before.push(warnings@.last()@));
        }
        self.warnings = warnings;
    }

    /// After an application's subtree: once the read is exhausted, notes which
    /// limit stopped it and says to stop.
    pub fn application_done(&mut self) -> (stop: bool)
        ensures
            final(self).spec_elements().len() <= MAX_TREE_ELEMENTS,
            final(self).spec_visited().len() <= MAX_TREE_NODES,
            texts_distinct(final(self).spec_visited()),
            stop == (old(self).spec_elements().len() >= MAX_TREE_ELEMENTS || old(
                self,
            ).spec_visited().len() >= MAX_TREE_NODES),
            old(self).spec_elements().len() >= MAX_TREE_ELEMENTS ==> final(self).spec_warnings()
                == old(self).spec_warnings().push("stopped AT-SPI traversal after 2000 elements"@),
            old(self).spec_elements().len() < MAX_TREE_ELEMENTS && old(self).spec_visited().len()
                >= MAX_TREE_NODES ==> final(self).spec_warnings() == old(self).spec_warnings().push(
                "stopped AT-SPI traversal after 5000 nodes"@,
            ),
            !stop ==> final(self).spec_warnings() == old(self).spec_warnings(),
            final(self).spec_elements() == old(self).spec_elements(),
            final(self).spec_visited() == old(self).spec_visited(),
    {
        proof {
            use_type_invariant(&*self);
        }
        if self.elements.len() >= MAX_TREE_ELEMENTS {
            self.warn(String::from_str("stopped AT-SPI traversal after 2000 elements"));
            return true;
        }
        if self.visited.len() >= MAX_TREE_NODES {
            self.warn(String::from_str("stopped AT-SPI traversal after 5000 nodes"));
            return true;
        }
        false
    }

    /// The tree the read found, from the AT-SPI backend: its elements sorted
    /// by role, label and id, one per id, and its warnings.
    pub fn finish(self) -> (m: AccessibilityTreeMetadata)
        ensures
            m.backend_name@ == "at-spi"@,
            m.backend_kind == BackendKind::AtSpi,
            m.elements@ == spec_dedup_ids(spec_sorted_elements(self.spec_elements())),
            texts(m.warnings@) == self.spec_warnings(),
    {
        let AtSpiTraversal { elements, visited: _, warnings } = self;
        AccessibilityTreeMetadata {
            backend_name: String::from_str("at-spi"),
            backend_kind: BackendKind::AtSpi,
            elements: normalize_tree_elements(elements),
            warnings,
        }
    }
}

/// An accessibility backend for sessions that offer none: every request
/// fails.
#[derive(Debug, Clone, Copy, PartialEq, Eq, Structural)]
pub struct UnimplementedAccessibilityBackend;

impl UnimplementedAccessibilityBackend {
    /// No semantic tree can be read.
    pub fn semantic_tree(&self) -> (r: Result<Vec<UiElement>, PeekabooXError>)
        ensures
            r matches Err(e) && e.message@ == "accessibility backend is unavailable in this environment"@,
    {
        Err(PeekabooXError::from_str("accessibility backend is unavailable in this environment"))
    }

    /// No element can be looked up.
    pub fn find_elements(&self, query: &ElementQuery) -> (r: Result<Vec<UiElement>, PeekabooXError>)
        ensures
            r matches Err(e) && e.message@
                == "accessibility element query is unavailable in this environment"@,
    {
        Err(PeekabooXError::from_str("accessibility element query is unavailable in this environment"))
    }
}

} // verus!
