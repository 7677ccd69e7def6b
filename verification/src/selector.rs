use vstd::prelude::*;

use crate::fmt::{hex_char, hex_digit};
use crate::numbers::{parse_i32_text, parse_u32_text, spec_int_error_text, spec_parse_i32, spec_parse_u32};
use crate::text::{chars_eq, chars_of, lower_chars, lower_seq, occurs_at, slice_range, split_tokens, string_from_chars, tokens, trim, trim_chars, views, Separators};
use crate::types::{PeekabooXError, Point, Rect};

verus! {

/// The trimmed text, unless it is empty.
pub open spec fn spec_non_empty(value: Seq<char>) -> Option<Seq<char>> {
    if trim(value).len() == 0 {
        None
    } else {
        Some(trim(value))
    }
}

/// Trims a text and keeps it only if something is left.
pub fn non_empty_string(value: &str) -> (r: Option<String>)
    ensures
        match spec_non_empty(value@) {
            Some(t) => r matches Some(s) && s@ == t,
            None => r is None,
        },
{
    let v = chars_of(value);
    let t = trim_chars(&v);
    if t.len() == 0 {
        None
    } else {
        Some(string_from_chars(t.as_slice()))
    }
}

/// An AT-SPI extent as a rectangle; negative sizes are refused.
pub open spec fn spec_rect_from_extents(x: i32, y: i32, width: i32, height: i32) -> Option<Rect> {
    if width < 0 || height < 0 {
        None
    } else {
        Some(Rect { x, y, width: width as u32, height: height as u32 })
    }
}

/// A rectangle from AT-SPI extents; `None` when a side is negative.
pub fn rect_from_extents(extents: (i32, i32, i32, i32)) -> (r: Option<Rect>)
    ensures
        r == spec_rect_from_extents(extents.0, extents.1, extents.2, extents.3),
{
    let (x, y, width, height) = extents;
    if width < 0 || height < 0 {
        return None;
    }
    Some(Rect::new(x, y, width as u32, height as u32))
}

/// The numbers of a numeric list such as `10,20 300x120`, when every token is
/// an `i32`, there are `expected` of them, and (for four numbers) the last two
/// are not negative.
pub open spec fn spec_parse_i32_list(value: Seq<char>, expected: nat) -> Option<Seq<int>> {
    let parts = tokens(value, Separators::NumericList);
    if exists|i: int| 0 <= i < parts.len() && (#[trigger] spec_parse_i32(parts[i])) is Err {
        None
    } else {
        let numbers = parts.map_values(|p: Seq<char>| spec_parse_i32(p)->Ok_0);
        if expected == 4 && numbers.len() > 2 && numbers[2] < 0 {
            None
        } else if expected == 4 && numbers.len() > 3 && numbers[3] < 0 {
            None
        } else if numbers.len() != expected {
            None
        } else {
            Some(numbers)
        }
    }
}

/// Number of tokens of a numeric list.
pub fn numeric_part_count(value: &[char]) -> (n: usize)
    ensures
        n == tokens(value@, Separators::NumericList).len(),
{
    let parts = split_tokens(value, Separators::NumericList);
    assert(views(parts@).len() == parts@.len());
    parts.len()
}

/// Parses a numeric list (see [`spec_parse_i32_list`]).
pub fn parse_i32_list(value: &[char], expected_len: usize) -> (r: Option<Vec<i32>>)
    ensures
        match spec_parse_i32_list(value@, expected_len as nat) {
            Some(numbers) => r matches Some(v) && v@.len() == numbers.len() && forall|i: int|
                0 <= i < numbers.len() ==> v@[i] == numbers[i],
            None => r is None,
        },
{
    let parts = split_tokens(value, Separators::NumericList);
    let ghost ps = tokens(value@, Separators::NumericList);
    let mut numbers: Vec<i32> = Vec::new();
    let mut i: usize = 0;
    while i < parts.len()
        invariant
            i <= parts@.len(),
            views(parts@) == ps,
            ps == tokens(value@, Separators::NumericList),
            numbers@.len() == i,
            forall|j: int| 0 <= j < i ==> ((#[trigger] spec_parse_i32(ps[j])) matches Ok(v) && numbers@[j] == v),
        decreases parts@.len() - i,
    {
        assert(views(parts@)[i as int] == parts@[i as int]@);
        match parse_i32_text(&parts[i]) {
            Ok(n) => {
                numbers.push(n);
            },
            Err(_) => {
                assert(spec_parse_i32(ps[i as int]) is Err);
                assert(exists|j: int| 0 <= j < ps.len() && (#[trigger] spec_parse_i32(ps[j])) is Err);
                return None;
            },
        }
        i = i + 1;
    }
    let ghost spec_numbers = ps.map_values(|p: Seq<char>| spec_parse_i32(p)->Ok_0);
    assert(forall|j: int| 0 <= j < ps.len() ==> numbers@[j] == spec_numbers[j]);
    if expected_len == 4 && numbers.len() > 2 && numbers[2] < 0 {
        return None;
    }
    if expected_len == 4 && numbers.len() > 3 && numbers[3] < 0 {
        return None;
    }
    if numbers.len() != expected_len {
        return None;
    }
    Some(numbers)
}

/// A rectangle written as `x,y,width,height`, when it reads as one.
pub open spec fn spec_parse_rect(value: Seq<char>) -> Option<Rect> {
    match spec_parse_i32_list(value, 4) {
        Some(n) => Some(Rect { x: n[0] as i32, y: n[1] as i32, width: n[2] as u32, height: n[3] as u32 }),
        None => None,
    }
}

/// A point written as `x,y`, when it reads as one.
pub open spec fn spec_parse_point(value: Seq<char>) -> Option<Point> {
    match spec_parse_i32_list(value, 2) {
        Some(n) => Some(Point { x: n[0] as i32, y: n[1] as i32 }),
        None => None,
    }
}

/// `x,y,width,height` with a non-negative size.
pub fn parse_rect(value: &[char]) -> (r: Option<Rect>)
    ensures
        r == spec_parse_rect(value@),
{
    let numbers = parse_i32_list(value, 4)?;
    Some(Rect::new(numbers[0], numbers[1], numbers[2] as u32, numbers[3] as u32))
}

/// `x,y`.
pub fn parse_point(value: &[char]) -> (r: Option<Point>)
    ensures
        r == spec_parse_point(value@),
{
    let numbers = parse_i32_list(value, 2)?;
    Some(Point::new(numbers[0], numbers[1]))
}

/// Lower-case hexadecimal digits of a value below 256, without leading zeros.
pub open spec fn hex_short(n: nat) -> Seq<char> {
    if n < 16 {
        seq![hex_char(n)]
    } else {
        seq![hex_char(n / 16), hex_char(n % 16)]
    }
}

/// An ASCII control character other than the named escapes.
pub open spec fn is_ascii_control(c: char) -> bool {
    (c as u32) < 0x20 || (c as u32) == 0x7f
}

/// What `char::escape_debug` writes for a character.
pub uninterp spec fn char_escape_debug(c: char) -> Seq<char>;

/// `char::escape_debug` on one character, written out: the characters of
/// its `Display`. The contract claims only that the outcome is the named
/// function of the character (the escaping follows std's Unicode tables of
/// printable and grapheme-extending characters).
#[verifier::external_body]
fn escape_debug_text(c: char) -> (r: String)
    ensures
        r@ == char_escape_debug(c),
{
    c.escape_debug().to_string()
}

/// A character as `{:?}` writes it inside a quoted `str`: quotes,
/// backslashes and the named control characters get their escapes, other
/// ASCII control characters a `\u{..}` escape, printable ASCII stays as it
/// is, and a non-ASCII character is written as `char::escape_debug` writes
/// it (which, past ASCII, is how `str`'s `Debug` writes it too).
pub open spec fn debug_char(c: char) -> Seq<char> {
    if c == '"' {
        seq!['\\', '"']
    } else if c == '\\' {
        seq!['\\', '\\']
    } else if c == '\n' {
        seq!['\\', 'n']
    } else if c == '\r' {
        seq!['\\', 'r']
    } else if c == '\t' {
        seq!['\\', 't']
    } else if c == '\0' {
        seq!['\\', '0']
    } else if is_ascii_control(c) {
        seq!['\\', 'u', '{'] + hex_short((c as u32) as nat) + seq!['}']
    } else if (c as u32) < 0x80 {
        seq![c]
    } else {
        char_escape_debug(c)
    }
}

/// The characters of a text, escaped as `{:?}` escapes them.
pub open spec fn debug_body(s: Seq<char>) -> Seq<char>
    decreases s.len(),
{
    if s.len() == 0 {
        Seq::empty()
    } else {
        debug_body(s.drop_last()) + debug_char(s.last())
    }
}

/// A text in double quotes with quotes, backslashes and common control
/// characters escaped, as `{:?}` prints a `str`.
pub open spec fn debug_quoted(s: Seq<char>) -> Seq<char> {
    seq!['"'] + debug_body(s) + seq!['"']
}

fn push_debug_char(out: &mut Vec<char>, c: char)
    ensures
        final(out)@ == old(out)@ + debug_char(c),
{
    let ghost before = out@;
    if c == '"' {
        out.push('\\');
        out.push('"');
    } else if c == '\\' {
        out.push('\\');
        out.push('\\');
    } else if c == '\n' {
        out.push('\\');
        out.push('n');
    } else if c == '\r' {
        out.push('\\');
        out.push('r');
    } else if c == '\t' {
        out.push('\\');
        out.push('t');
    } else if c == '\0' {
        out.push('\\');
        out.push('0');
    } else if (c as u32) < 0x20 || (c as u32) == 0x7f {
        let v = c as u32;
        out.push('\\');
        out.push('u');
        out.push('{');
        if v >= 16 {
            out.push(hex_digit((v / 16) as u64));
        }
        out.push(hex_digit((v % 16) as u64));
        out.push('}');
    } else if (c as u32) < 0x80 {
        out.push(c);
    } else {
        let escaped = escape_debug_text(c);
        let chars = chars_of(escaped.as_str());
        let mut i: usize = 0;
        while i < chars.len()
            invariant
                i <= chars@.len(),
                chars@ == char_escape_debug(c),
                out@ == before + chars@.subrange(0, i as int),
            decreases chars@.len() - i,
        {
            out.push(chars[i]);
            i = i + 1;
            assert(out@ =~= before + chars@.subrange(0, i as int));
        }
        assert(chars@.subrange(0, chars@.len() as int) =~= chars@);
    }
    assert(out@ =~= before + debug_char(c));
}

/// Quotes a text for an error message (see [`debug_quoted`]).
pub fn debug_text(s: &[char]) -> (r: String)
    ensures
        r@ == debug_quoted(s@),
{
    let mut out: Vec<char> = Vec::new();
    out.push('"');
    let mut i: usize = 0;
    while i < s.len()
        invariant
            i <= s.len(),
            out@ == seq!['"'] + debug_body(s@.subrange(0, i as int)),
        decreases s.len() - i,
    {
        assert(s@.subrange(0, i + 1).drop_last() =~= s@.subrange(0, i as int));
        push_debug_char(&mut out, s[i]);
        i = i + 1;
        assert(out@ =~= seq!['"'] + debug_body(s@.subrange(0, i as int)));
    }
    assert(s@.subrange(0, s.len() as int) =~= s@);
    out.push('"');
    assert(out@ =~= debug_quoted(s@));
    string_from_chars(out.as_slice())
}

/// The error for a rectangle clause that does not read as one.
pub open spec fn msg_rect(key: Seq<char>, value: Seq<char>) -> Seq<char> {
    "selector "@ + key + " must be x,y,width,height with non-negative size, got "@ + debug_quoted(value)
}

/// The error for a point clause that does not read as one.
pub open spec fn msg_point(key: Seq<char>, value: Seq<char>) -> Seq<char> {
    "selector "@ + key + " must be x,y, got "@ + debug_quoted(value)
}

/// A rectangle clause value, or the selector error for it.
pub fn parse_rect_strict(value: &[char], key: &[char]) -> (r: Result<Rect, PeekabooXError>)
    ensures
        match spec_parse_rect(value@) {
            Some(rect) => r == Ok::<Rect, PeekabooXError>(rect),
            None => r matches Err(e) && e.message@ == msg_rect(key@, value@),
        },
{
    match parse_rect(value) {
        Some(rect) => Ok(rect),
        None => {
            let mut m = String::from_str("selector ");
            let k = string_from_chars(key);
            m.append(k.as_str());
            m.append(" must be x,y,width,height with non-negative size, got ");
            let q = debug_text(value);
            m.append(q.as_str());
            Err(PeekabooXError::new(m))
        },
    }
}

/// A point clause value, or the selector error for it.
pub fn parse_point_strict(value: &[char], key: &[char]) -> (r: Result<Point, PeekabooXError>)
    ensures
        match spec_parse_point(value@) {
            Some(point) => r == Ok::<Point, PeekabooXError>(point),
            None => r matches Err(e) && e.message@ == msg_point(key@, value@),
        },
{
    match parse_point(value) {
        Some(point) => Ok(point),
        None => {
            let mut m = String::from_str("selector ");
            let k = string_from_chars(key);
            m.append(k.as_str());
            m.append(" must be x,y, got ");
            let q = debug_text(value);
            m.append(q.as_str());
            Err(PeekabooXError::new(m))
        },
    }
}

/// An unsigned clause value, or the selector error for it.
pub fn parse_u32(value: &[char], key: &[char]) -> (r: Result<u32, PeekabooXError>)
    ensures
        match spec_parse_u32(value@) {
            Ok(n) => r == Ok::<u32, PeekabooXError>(n as u32),
            Err(kind) => r matches Err(e) && e.message@ == "selector "@ + key@
                + " must be an unsigned integer, got "@ + debug_quoted(value@) + ": "@
                + spec_int_error_text(kind),
        },
{
    match parse_u32_text(value) {
        Ok(n) => Ok(n),
        Err(kind) => {
            let mut m = String::from_str("selector ");
            let k = string_from_chars(key);
            m.append(k.as_str());
            m.append(" must be an unsigned integer, got ");
            let q = debug_text(value);
            m.append(q.as_str());
            m.append(": ");
            m.append(kind.text());
            Err(PeekabooXError::new(m))
        },
    }
}

/// `point` lies in the (non-empty) rectangle, right and bottom edges excluded.
pub open spec fn spec_rect_contains_point(rect: Rect, point: Point) -> bool {
    rect.width != 0 && rect.height != 0 && rect.x <= point.x < rect.x + rect.width && rect.y
        <= point.y < rect.y + rect.height
}

/// `rect` lies within `container`; empty rectangles contain and are contained
/// in nothing.
pub open spec fn spec_rect_contains_rect(container: Rect, rect: Rect) -> bool {
    &&& container.width != 0 && container.height != 0 && rect.width != 0 && rect.height != 0
    &&& rect.x >= container.x && rect.y >= container.y
    &&& rect.x + rect.width <= container.x + container.width
    &&& rect.y + rect.height <= container.y + container.height
}

/// The two (non-empty) rectangles share some area.
pub open spec fn spec_rects_intersect(a: Rect, b: Rect) -> bool {
    &&& a.width != 0 && a.height != 0 && b.width != 0 && b.height != 0
    &&& a.x < b.x + b.width && a.x + a.width > b.x
    &&& a.y < b.y + b.height && a.y + a.height > b.y
}

/// A rectangle within another intersects it, and so does every rectangle
/// containing it; a point of a rectangle within another lies in that one too.
pub proof fn lemma_containment(outer: Rect, inner: Rect, other: Rect, p: Point)
    ensures
        spec_rect_contains_rect(outer, inner) ==> spec_rects_intersect(outer, inner),
        spec_rect_contains_rect(outer, inner) && spec_rects_intersect(inner, other)
            ==> spec_rects_intersect(outer, other),
        spec_rect_contains_rect(outer, inner) && spec_rect_contains_point(inner, p)
            ==> spec_rect_contains_point(outer, p),
        spec_rects_intersect(inner, other) == spec_rects_intersect(other, inner),
{
}

/// Whether a point lies inside a non-empty rectangle.
pub fn rect_contains_point(rect: Rect, point: Point) -> (r: bool)
    ensures
        r == spec_rect_contains_point(rect, point),
{
    if rect.width == 0 || rect.height == 0 {
        return false;
    }
    let left = rect.x as i64;
    let top = rect.y as i64;
    let right = left + rect.width as i64;
    let bottom = top + rect.height as i64;
    let x = point.x as i64;
    let y = point.y as i64;
    x >= left && x < right && y >= top && y < bottom
}

/// Whether a rectangle lies inside another.
pub fn rect_contains_rect(container: Rect, rect: Rect) -> (r: bool)
    ensures
        r == spec_rect_contains_rect(container, rect),
{
    if container.width == 0 || container.height == 0 || rect.width == 0 || rect.height == 0 {
        return false;
    }
    let cl = container.x as i64;
    let ct = container.y as i64;
    let cr = cl + container.width as i64;
    let cb = ct + container.height as i64;
    let rl = rect.x as i64;
    let rt = rect.y as i64;
    let rr = rl + rect.width as i64;
    let rb = rt + rect.height as i64;
    rl >= cl && rt >= ct && rr <= cr && rb <= cb
}

/// Whether two rectangles overlap.
pub fn rects_intersect(left: Rect, right: Rect) -> (r: bool)
    ensures
        r == spec_rects_intersect(left, right),
{
    if left.width == 0 || left.height == 0 || right.width == 0 || right.height == 0 {
        return false;
    }
    let lx1 = left.x as i64;
    let ly1 = left.y as i64;
    let lx2 = lx1 + left.width as i64;
    let ly2 = ly1 + left.height as i64;
    let rx1 = right.x as i64;
    let ry1 = right.y as i64;
    let rx2 = rx1 + right.width as i64;
    let ry2 = ry1 + right.height as i64;
    lx1 < rx2 && lx2 > rx1 && ly1 < ry2 && ly2 > ry1
}


/// `k` is one of the texts of `options`.
pub open spec fn one_of(k: Seq<char>, options: Seq<&str>) -> bool {
    exists|i: int| 0 <= i < options.len() && k == (#[trigger] options[i])@
}

/// Whether `k` equals one of `options`.
pub fn is_one_of(k: &[char], options: &[&str]) -> (r: bool)
    ensures
        r == one_of(k@, options@),
{
    let mut i: usize = 0;
    while i < options.len()
        invariant
            i <= options@.len(),
            forall|j: int| 0 <= j < i ==> k@ != (#[trigger] options@[j])@,
        decreases options@.len() - i,
    {
        let o = chars_of(options[i]);
        if chars_eq(k, &o) {
            assert(k@ == options@[i as int]@);
            return true;
        }
        i = i + 1;
    }
    false
}

/// Index of the first occurrence of `pat` at or after `i`.
pub open spec fn find_from(s: Seq<char>, pat: Seq<char>, i: int) -> Option<int>
    decreases s.len() - i,
{
    if i < 0 || i >= s.len() || i + pat.len() > s.len() {
        None
    } else if occurs_at(s, pat, i) {
        Some(i)
    } else {
        find_from(s, pat, i + 1)
    }
}

/// `str::split_once`: the text before and after the first occurrence of `pat`.
pub open spec fn spec_split_once(s: Seq<char>, pat: Seq<char>) -> Option<(Seq<char>, Seq<char>)> {
    match find_from(s, pat, 0) {
        Some(i) => Some((s.subrange(0, i), s.subrange(i + pat.len(), s.len() as int))),
        None => None,
    }
}

/// The key and value of a selector part: split at the first `>=`, else at the
/// first `=`, else at the first `:`.
pub open spec fn spec_key_value(part: Seq<char>) -> Option<(Seq<char>, Seq<char>)> {
    match spec_split_once(part, seq!['>', '=']) {
        Some(kv) => Some(kv),
        None => match spec_split_once(part, seq!['=']) {
            Some(kv) => Some(kv),
            None => spec_split_once(part, seq![':']),
        },
    }
}

/// Splits at the first occurrence of `pat` (see [`spec_split_once`]).
pub fn split_once(s: &[char], pat: &[char]) -> (r: Option<(Vec<char>, Vec<char>)>)
    requires
        pat@.len() > 0,
    ensures
        match spec_split_once(s@, pat@) {
            Some((a, b)) => r matches Some(p) && p.0@ == a && p.1@ == b,
            None => r is None,
        },
{
    let mut i: usize = 0;
    if pat.len() > s.len() {
        return None;
    }
    let n = s.len();
    let last = s.len() - pat.len();
    while i <= last
        invariant
            n == s@.len(),
            pat@.len() > 0,
            pat@.len() <= s@.len(),
            last == s@.len() - pat@.len(),
            i <= last + 1,
            find_from(s@, pat@, 0) == find_from(s@, pat@, i as int),
        decreases s@.len() - i,
    {
        if crate::text::chars_occur_at(s, pat, i) {
            return Some((slice_range(s, 0, i), slice_range(s, i + pat.len(), s.len())));
        }
        if i == last {
            assert(find_from(s@, pat@, i + 1) is None);
            return None;
        }
        i = i + 1;
    }
    None
}

/// Splits a selector part into key and value (see [`spec_key_value`]).
pub fn selector_key_value(part: &[char]) -> (r: Option<(Vec<char>, Vec<char>)>)
    ensures
        match spec_key_value(part@) {
            Some((k, v)) => r matches Some(p) && p.0@ == k && p.1@ == v,
            None => r is None,
        },
{
    let ge: Vec<char> = vec!['>', '='];
    assert(ge@ =~= seq!['>', '=']);
    if let Some(kv) = split_once(part, &ge) {
        return Some(kv);
    }
    let eq: Vec<char> = vec!['='];
    assert(eq@ =~= seq!['=']);
    if let Some(kv) = split_once(part, &eq) {
        return Some(kv);
    }
    let colon: Vec<char> = vec![':'];
    assert(colon@ =~= seq![':']);
    split_once(part, &colon)
}

/// The clause keys whose value is a rectangle.
pub open spec fn rect_keys() -> Seq<&'static str> {
    seq!["bounds", "rect", "within", "intersects", "overlaps"]
}

/// The clause keys whose value is a point.
pub open spec fn point_keys() -> Seq<&'static str> {
    seq!["contains", "point", "at"]
}

/// How many numbers the value of a geometric key holds (keys compared trimmed
/// and ASCII case-insensitively).
pub open spec fn spec_numeric_len(key: Seq<char>) -> Option<nat> {
    let k = lower_seq(trim(key));
    if one_of(k, rect_keys()) {
        Some(4)
    } else if one_of(k, point_keys()) {
        Some(2)
    } else {
        None
    }
}

/// How many numbers a clause key's value must hold; `None` for a key that takes text.
pub fn numeric_selector_len(key: &[char]) -> (r: Option<usize>)
    ensures
        match spec_numeric_len(key@) {
            Some(n) => r == Some(n as usize),
            None => r is None,
        },
{
    let t = trim_chars(key);
    let k = lower_chars(&t);
    let rect: [&str; 5] = ["bounds", "rect", "within", "intersects", "overlaps"];
    assert(rect@ =~= rect_keys());
    let point: [&str; 3] = ["contains", "point", "at"];
    assert(point@ =~= point_keys());
    if is_one_of(&k, &rect) {
        Some(4)
    } else if is_one_of(&k, &point) {
        Some(2)
    } else {
        None
    }
}


/// `str::split(c)`: the pieces between occurrences of `c`, empty pieces included.
pub open spec fn split_on(s: Seq<char>, c: char) -> Seq<Seq<char>>
    decreases s.len(),
{
    if s.len() == 0 {
        seq![Seq::empty()]
    } else {
        let t = split_on(s.drop_last(), c);
        if s.last() == c {
            t.push(Seq::empty())
        } else {
            t.update(t.len() - 1, t.last().push(s.last()))
        }
    }
}

proof fn lemma_split_on_nonempty(s: Seq<char>, c: char)
    ensures
        split_on(s, c).len() > 0,
    decreases s.len(),
{
    if s.len() > 0 {
        lemma_split_on_nonempty(s.drop_last(), c);
    }
}

/// The pieces trimmed, empty ones dropped.
pub open spec fn clean_parts(pieces: Seq<Seq<char>>) -> Seq<Seq<char>>
    decreases pieces.len(),
{
    if pieces.len() == 0 {
        Seq::empty()
    } else {
        let c = clean_parts(pieces.drop_last());
        let p = trim(pieces.last());
        if p.len() == 0 {
            c
        } else {
            c.push(p)
        }
    }
}

/// A part with a geometric key whose value still lacks numbers takes in the
/// next part, when that part is not itself a `key=value` clause.
pub open spec fn can_absorb(cur: Seq<char>, next: Seq<char>) -> bool {
    match spec_key_value(cur) {
        Some((k, v)) => match spec_numeric_len(k) {
            Some(n) => tokens(v, Separators::NumericList).len() < n && spec_key_value(next) is None,
            None => false,
        },
        None => false,
    }
}

/// Joins the parts after index `i` onto the part being built (`cur`) while it
/// can take them, collecting finished parts in `acc`.
pub open spec fn merge_state(
    parts: Seq<Seq<char>>,
    i: int,
    cur: Seq<char>,
    acc: Seq<Seq<char>>,
) -> Seq<Seq<char>>
    decreases parts.len() - i,
{
    if i < 0 || i + 1 >= parts.len() {
        acc.push(cur)
    } else if can_absorb(cur, parts[i + 1]) {
        merge_state(parts, i + 1, cur + seq![','] + parts[i + 1], acc)
    } else {
        merge_state(parts, i + 1, parts[i + 1], acc.push(cur))
    }
}

/// The clauses of a selector: comma-separated, trimmed, non-empty parts, where
/// the numbers of a geometric clause (`bounds=10,20,90,30`) stay together.
pub open spec fn spec_selector_parts(selector: Seq<char>) -> Seq<Seq<char>> {
    let parts = clean_parts(split_on(selector, ','));
    if parts.len() == 0 {
        Seq::empty()
    } else {
        merge_state(parts, 0, parts[0], Seq::empty())
    }
}

fn comma_pieces(s: &[char]) -> (r: Vec<Vec<char>>)
    ensures
        views(r@) == clean_parts(split_on(s@, ',')),
{
    let mut done: Vec<Vec<char>> = Vec::new();
    let mut cur: Vec<char> = Vec::new();
    let mut i: usize = 0;
    while i < s.len()
        invariant
            i <= s.len(),
            split_on(s@.subrange(0, i as int), ',').len() > 0,
            split_on(s@.subrange(0, i as int), ',').last() == cur@,
            views(done@) == clean_parts(split_on(s@.subrange(0, i as int), ',').drop_last()),
        decreases s.len() - i,
    {
        let c = s[i];
        let ghost pre = split_on(s@.subrange(0, i as int), ',');
        assert(s@.subrange(0, i + 1).drop_last() =~= s@.subrange(0, i as int));
        if c == ',' {
            let t = trim_chars(&cur);
            if t.len() > 0 {
                let ghost before = done@;
                done.push(t);
                assert(views(done@) =~= views(before).push(t@));
            }
            cur = Vec::new();
            proof {
                let post = split_on(s@.subrange(0, i + 1), ',');
                assert(post == pre.push(Seq::empty()));
                assert(post.drop_last() =~= pre);
                assert(pre =~= pre.drop_last().push(pre.last()));
            }
        } else {
            cur.push(c);
            proof {
                let post = split_on(s@.subrange(0, i + 1), ',');
                assert(post.drop_last() =~= pre.drop_last());
            }
        }
        i = i + 1;
    }
    assert(s@.subrange(0, s.len() as int) =~= s@);
    let ghost all = split_on(s@, ',');
    assert(all =~= all.drop_last().push(all.last()));
    let t = trim_chars(&cur);
    if t.len() > 0 {
        let ghost before = done@;
        done.push(t);
        assert(views(done@) =~= views(before).push(t@));
    }
    done
}

fn absorbs(cur: &[char], next: &[char]) -> (r: bool)
    ensures
        r == can_absorb(cur@, next@),
{
    match selector_key_value(cur) {
        Some((k, v)) => match numeric_selector_len(&k) {
            Some(n) => numeric_part_count(&v) < n && selector_key_value(next).is_none(),
            None => false,
        },
        None => false,
    }
}

fn append_chars(cur: &mut Vec<char>, other: &Vec<char>)
    ensures
        final(cur)@ == old(cur)@ + other@,
{
    let ghost base = cur@;
    let mut k: usize = 0;
    while k < other.len()
        invariant
            k <= other@.len(),
            cur@ == base + other@.subrange(0, k as int),
        decreases other@.len() - k,
    {
        cur.push(other[k]);
        k = k + 1;
        assert(cur@ =~= base + other@.subrange(0, k as int));
    }
    assert(other@.subrange(0, k as int) =~= other@);
}

fn copy_chars(v: &Vec<char>) -> (r: Vec<char>)
    ensures
        r@ == v@,
{
    slice_range(v.as_slice(), 0, v.len())
}

/// The clauses of a selector (see [`spec_selector_parts`]).
pub fn selector_parts(selector: &[char]) -> (r: Vec<Vec<char>>)
    ensures
        views(r@) == spec_selector_parts(selector@),
{
    let parts = comma_pieces(selector);
    let ghost ps = clean_parts(split_on(selector@, ','));
    if parts.len() == 0 {
        return Vec::new();
    }
    assert(views(parts@)[0] == parts@[0]@);
    let mut out: Vec<Vec<char>> = Vec::new();
    let mut cur = copy_chars(&parts[0]);
    assert(views(out@) =~= Seq::<Seq<char>>::empty());
    let n = parts.len();
    let mut i: usize = 0;
    while i + 1 < n
        invariant
            n == parts@.len(),
            i < n,
            views(parts@) == ps,
            merge_state(ps, 0, ps[0], Seq::empty()) == merge_state(ps, i as int, cur@, views(out@)),
        decreases n - i,
    {
        assert(views(parts@)[i + 1] == parts@[i + 1]@);
        let next = copy_chars(&parts[i + 1]);
        if absorbs(&cur, &next) {
            let ghost old_cur = cur@;
            cur.push(',');
            append_chars(&mut cur, &next);
            assert(cur@ =~= old_cur + seq![','] + next@);
        } else {
            let finished = cur;
            let ghost before = out@;
            out.push(finished);
            assert(views(out@) =~= views(before).push(finished@));
            cur = next;
        }
        i = i + 1;
    }
    let ghost before = out@;
    out.push(cur);
    assert(views(out@) =~= views(before).push(out@.last()@));
    out
}

/// The clauses of a selector as strings.
pub fn split_selector_parts(selector: &str) -> (r: Vec<String>)
    ensures
        r@.len() == spec_selector_parts(selector@).len(),
        forall|i: int| 0 <= i < r@.len() ==> (#[trigger] r@[i])@ == spec_selector_parts(selector@)[i],
{
    let s = chars_of(selector);
    let parts = selector_parts(&s);
    let mut out: Vec<String> = Vec::new();
    let mut i: usize = 0;
    while i < parts.len()
        invariant
            i <= parts@.len(),
            views(parts@) == spec_selector_parts(selector@),
            out@.len() == i,
            forall|j: int| 0 <= j < i ==> (#[trigger] out@[j])@ == spec_selector_parts(selector@)[j],
        decreases parts@.len() - i,
    {
        assert(views(parts@)[i as int] == parts@[i as int]@);
        out.push(string_from_chars(parts[i].as_slice()));
        i = i + 1;
    }
    out
}

} // verus!
