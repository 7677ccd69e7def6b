use vstd::prelude::*;
use crate::text::{chars_eq_ignore_case, chars_of, eq_ignore_case, slice_range};

verus! {

/// Why a text is not an integer of the wanted type, as `std`'s parser reports it.
#[derive(Debug, Clone, Copy, PartialEq, Eq, Structural)]
pub enum IntErrorKind {
    Empty,
    InvalidDigit,
    PosOverflow,
    NegOverflow,
}

/// How the standard integer parser describes each failure.
pub open spec fn spec_int_error_text(kind: IntErrorKind) -> Seq<char> {
    match kind {
        IntErrorKind::Empty => "cannot parse integer from empty string"@,
        IntErrorKind::InvalidDigit => "invalid digit found in string"@,
        IntErrorKind::PosOverflow => "number too large to fit in target type"@,
        IntErrorKind::NegOverflow => "number too small to fit in target type"@,
    }
}

impl IntErrorKind {
    /// The text `std` displays for the error.
    pub fn text(self) -> (t: &'static str)
        ensures
            t@ == spec_int_error_text(self),
    {
        match self {
            IntErrorKind::Empty => "cannot parse integer from empty string",
            IntErrorKind::InvalidDigit => "invalid digit found in string",
            IntErrorKind::PosOverflow => "number too large to fit in target type",
            IntErrorKind::NegOverflow => "number too small to fit in target type",
        }
    }
}

/// An ASCII decimal digit.
pub open spec fn is_digit(c: char) -> bool {
    '0' <= c && c <= '9'
}

/// The value of an ASCII decimal digit.
pub open spec fn digit_value(c: char) -> int {
    (c as int) - ('0' as int)
}

/// Reads decimal digits left to right onto `acc`, stopping at the first
/// non-digit or at the first step past `max` (`negative`: the value is
/// subtracted and bounded below by `-max - 1`).
pub open spec fn scan_digits(s: Seq<char>, acc: int, negative: bool, max: int) -> Result<int, IntErrorKind>
    decreases s.len(),
{
    if s.len() == 0 {
        Ok(acc)
    } else if !is_digit(s[0]) {
        Err(IntErrorKind::InvalidDigit)
    } else {
        let next = if negative { acc * 10 - digit_value(s[0]) } else { acc * 10 + digit_value(s[0]) };
        if !negative && next > max {
            Err(IntErrorKind::PosOverflow)
        } else if negative && next < -max - 1 {
            Err(IntErrorKind::NegOverflow)
        } else {
            scan_digits(s.subrange(1, s.len() as int), next, negative, max)
        }
    }
}

/// `str::parse::<u32>`: an optional `+`, then one or more decimal digits.
pub open spec fn spec_parse_u32(s: Seq<char>) -> Result<int, IntErrorKind> {
    if s.len() == 0 {
        Err(IntErrorKind::Empty)
    } else {
        let body = if s[0] == '+' { s.subrange(1, s.len() as int) } else { s };
        if body.len() == 0 {
            Err(IntErrorKind::InvalidDigit)
        } else {
            scan_digits(body, 0, false, u32::MAX as int)
        }
    }
}

/// `str::parse::<i32>`: an optional `+` or `-`, then one or more decimal digits.
pub open spec fn spec_parse_i32(s: Seq<char>) -> Result<int, IntErrorKind> {
    if s.len() == 0 {
        Err(IntErrorKind::Empty)
    } else {
        let negative = s[0] == '-';
        let body = if s[0] == '+' || s[0] == '-' { s.subrange(1, s.len() as int) } else { s };
        if body.len() == 0 {
            Err(IntErrorKind::InvalidDigit)
        } else {
            scan_digits(body, 0, negative, i32::MAX as int)
        }
    }
}

proof fn lemma_scan_bounds(s: Seq<char>, acc: int, negative: bool, max: int)
    requires
        max >= 0,
        -max - 1 <= acc <= max,
        negative ==> acc <= 0,
        !negative ==> acc >= 0,
    ensures
        scan_digits(s, acc, negative, max) matches Ok(v) ==> -max - 1 <= v <= max && (negative
            ==> v <= 0) && (!negative ==> v >= 0),
    decreases s.len(),
{
    if s.len() > 0 && is_digit(s[0]) {
        let next = if negative { acc * 10 - digit_value(s[0]) } else { acc * 10 + digit_value(s[0]) };
        if !(!negative && next > max) && !(negative && next < -max - 1) {
            if negative {
                assert(acc * 10 <= 0) by (nonlinear_arith)
                    requires
                        acc <= 0,
                ;
            } else {
                assert(acc * 10 >= 0) by (nonlinear_arith)
                    requires
                        acc >= 0,
                ;
            }
            lemma_scan_bounds(s.subrange(1, s.len() as int), next, negative, max);
        }
    }
}

fn scan(s: &[char], start: usize, negative: bool, max: i64) -> (r: Result<i64, IntErrorKind>)
    requires
        start <= s.len(),
        0 <= max <= u32::MAX,
    ensures
        match scan_digits(s@.subrange(start as int, s@.len() as int), 0, negative, max as int) {
            Ok(v) => r == Ok::<i64, IntErrorKind>(v as i64),
            Err(k) => r == Err::<i64, IntErrorKind>(k),
        },
{
    let mut acc: i64 = 0;
    let mut i = start;
    let ghost whole = s@.subrange(start as int, s@.len() as int);
    while i < s.len()
        invariant
            start <= i <= s.len(),
            whole == s@.subrange(start as int, s@.len() as int),
            0 <= max <= u32::MAX,
            -max - 1 <= acc <= max,
            negative ==> acc <= 0,
            !negative ==> acc >= 0,
            scan_digits(whole, 0, negative, max as int) == scan_digits(
                s@.subrange(i as int, s@.len() as int),
                acc as int,
                negative,
                max as int,
            ),
        decreases s.len() - i,
    {
        let ghost rest = s@.subrange(i as int, s@.len() as int);
        assert(rest[0] == s@[i as int]);
        assert(rest.subrange(1, rest.len() as int) =~= s@.subrange(i + 1, s@.len() as int));
        let c = s[i];
        if !('0' <= c && c <= '9') {
            assert(scan_digits(rest, acc as int, negative, max as int) == Err::<int, IntErrorKind>(
                IntErrorKind::InvalidDigit,
            ));
            return Err(IntErrorKind::InvalidDigit);
        }
        let d: i64 = (c as u32 - '0' as u32) as i64;
        assert(d == digit_value(c));
        let next: i64 = if negative { acc * 10 - d } else { acc * 10 + d };
        if !negative && next > max {
            assert(scan_digits(rest, acc as int, negative, max as int) == Err::<int, IntErrorKind>(
                IntErrorKind::PosOverflow,
            ));
            return Err(IntErrorKind::PosOverflow);
        }
        if negative && next < -max - 1 {
            assert(scan_digits(rest, acc as int, negative, max as int) == Err::<int, IntErrorKind>(
                IntErrorKind::NegOverflow,
            ));
            return Err(IntErrorKind::NegOverflow);
        }
        proof {
            if negative {
                assert(acc * 10 <= 0) by (nonlinear_arith)
                    requires
                        acc <= 0,
                ;
            } else {
                assert(acc * 10 >= 0) by (nonlinear_arith)
                    requires
                        acc >= 0,
                ;
            }
        }
        acc = next;
        i = i + 1;
    }
    assert(s@.subrange(i as int, s@.len() as int) =~= Seq::<char>::empty());
    Ok(acc)
}

/// Parses an unsigned 32-bit decimal number as `str::parse::<u32>` does.
pub fn parse_u32_text(s: &[char]) -> (r: Result<u32, IntErrorKind>)
    ensures
        match spec_parse_u32(s@) {
            Ok(v) => r == Ok::<u32, IntErrorKind>(v as u32) && 0 <= v <= u32::MAX,
            Err(k) => r == Err::<u32, IntErrorKind>(k),
        },
{
    if s.len() == 0 {
        return Err(IntErrorKind::Empty);
    }
    let start: usize = if s[0] == '+' { 1 } else { 0 };
    assert(s@.subrange(0, s@.len() as int) =~= s@);
    if start == s.len() {
        return Err(IntErrorKind::InvalidDigit);
    }
    proof {
        lemma_scan_bounds(s@.subrange(start as int, s@.len() as int), 0, false, u32::MAX as int);
    }
    match scan(s, start, false, 0xffff_ffffi64) {
        Ok(v) => {
            Ok(v as u32)
        },
        Err(k) => Err(k),
    }
}

proof fn lemma_scan_nonneg(s: Seq<char>, acc: int, max: int)
    requires
        acc >= 0,
    ensures
        scan_digits(s, acc, false, max) matches Ok(v) ==> v >= 0,
    decreases s.len(),
{
    if s.len() > 0 && is_digit(s[0]) {
        let next = acc * 10 + digit_value(s[0]);
        assert(next >= 0) by (nonlinear_arith)
            requires
                acc >= 0,
                next == acc * 10 + digit_value(s[0]),
                digit_value(s[0]) >= 0,
        ;
        lemma_scan_nonneg(s.subrange(1, s.len() as int), next, max);
    }
}

/// Parses a signed 32-bit decimal number as `str::parse::<i32>` does.
pub fn parse_i32_text(s: &[char]) -> (r: Result<i32, IntErrorKind>)
    ensures
        match spec_parse_i32(s@) {
            Ok(v) => r == Ok::<i32, IntErrorKind>(v as i32) && i32::MIN <= v <= i32::MAX,
            Err(k) => r == Err::<i32, IntErrorKind>(k),
        },
{
    if s.len() == 0 {
        return Err(IntErrorKind::Empty);
    }
    let negative = s[0] == '-';
    let start: usize = if s[0] == '+' || s[0] == '-' { 1 } else { 0 };
    assert(s@.subrange(0, s@.len() as int) =~= s@);
    if start == s.len() {
        return Err(IntErrorKind::InvalidDigit);
    }
    proof {
        lemma_scan_bounds(s@.subrange(start as int, s@.len() as int), 0, negative, i32::MAX as int);
    }
    match scan(s, start, negative, 0x7fff_ffffi64) {
        Ok(v) => Ok(v as i32),
        Err(k) => Err(k),
    }
}

/// `str::parse::<u64>`: an optional `+`, then one or more decimal digits.
pub open spec fn spec_parse_u64(s: Seq<char>) -> Result<int, IntErrorKind> {
    if s.len() == 0 {
        Err(IntErrorKind::Empty)
    } else {
        let body = if s[0] == '+' { s.subrange(1, s.len() as int) } else { s };
        if body.len() == 0 {
            Err(IntErrorKind::InvalidDigit)
        } else {
            scan_digits(body, 0, false, u64::MAX as int)
        }
    }
}

fn scan_u64(s: &[char], start: usize) -> (r: Result<u64, IntErrorKind>)
    requires
        start <= s.len(),
    ensures
        match scan_digits(s@.subrange(start as int, s@.len() as int), 0, false, u64::MAX as int) {
            Ok(v) => r == Ok::<u64, IntErrorKind>(v as u64) && 0 <= v <= u64::MAX,
            Err(k) => r == Err::<u64, IntErrorKind>(k),
        },
{
    let mut acc: u64 = 0;
    let mut i = start;
    let ghost whole = s@.subrange(start as int, s@.len() as int);
    while i < s.len()
        invariant
            start <= i <= s.len(),
            whole == s@.subrange(start as int, s@.len() as int),
            scan_digits(whole, 0, false, u64::MAX as int) == scan_digits(
                s@.subrange(i as int, s@.len() as int),
                acc as int,
                false,
                u64::MAX as int,
            ),
        decreases s.len() - i,
    {
        let ghost rest = s@.subrange(i as int, s@.len() as int);
        assert(rest[0] == s@[i as int]);
        assert(rest.subrange(1, rest.len() as int) =~= s@.subrange(i + 1, s@.len() as int));
        let c = s[i];
        if !('0' <= c && c <= '9') {
            return Err(IntErrorKind::InvalidDigit);
        }
        let d: u128 = (c as u32 - '0' as u32) as u128;
        assert(d == digit_value(c));
        let next: u128 = acc as u128 * 10 + d;
        if next > 0xffff_ffff_ffff_ffffu128 {
            return Err(IntErrorKind::PosOverflow);
        }
        acc = next as u64;
        i = i + 1;
    }
    assert(s@.subrange(i as int, s@.len() as int) =~= Seq::<char>::empty());
    Ok(acc)
}

/// Parses an unsigned 64-bit decimal number as `str::parse::<u64>` does.
pub fn parse_u64_text(s: &[char]) -> (r: Result<u64, IntErrorKind>)
    ensures
        match spec_parse_u64(s@) {
            Ok(v) => r == Ok::<u64, IntErrorKind>(v as u64) && 0 <= v <= u64::MAX,
            Err(k) => r == Err::<u64, IntErrorKind>(k),
        },
{
    if s.len() == 0 {
        return Err(IntErrorKind::Empty);
    }
    let start: usize = if s[0] == '+' { 1 } else { 0 };
    assert(s@.subrange(0, s@.len() as int) =~= s@);
    if start == s.len() {
        return Err(IntErrorKind::InvalidDigit);
    }
    scan_u64(s, start)
}

/// How many decimal digits follow one another from index `i` of `s`.
pub open spec fn digits_from(s: Seq<char>, i: int) -> nat
    decreases s.len() - i,
{
    if 0 <= i < s.len() && is_digit(s[i]) {
        1 + digits_from(s, i + 1)
    } else {
        0
    }
}

/// From index `i`, `s` holds nothing, or an exponent: `e` or `E`, an optional
/// sign, and one or more digits up to the end.
pub open spec fn exponent_from(s: Seq<char>, i: int) -> bool {
    ||| i == s.len()
    ||| (0 <= i < s.len() && (s[i] == 'e' || s[i] == 'E') && {
        let j = if i + 1 < s.len() && (s[i + 1] == '+' || s[i + 1] == '-') {
            i + 2
        } else {
            i + 1
        };
        j < s.len() && j + digits_from(s, j) == s.len()
    })
}

/// From index `i`, `s` holds a decimal number: digits, a point, digits (at
/// least one digit on either side of an optional point), then an optional
/// exponent.
pub open spec fn decimal_from(s: Seq<char>, i: int) -> bool {
    let a = digits_from(s, i);
    let p = i + a;
    if p < s.len() && s[p] == '.' {
        let b = digits_from(s, p + 1);
        a + b > 0 && exponent_from(s, p + 1 + b)
    } else {
        a > 0 && exponent_from(s, p)
    }
}

/// The grammar that `str::parse::<f32>` documents: an optional sign, then
/// `inf`, `infinity` or `nan` in any case, or a decimal number.
pub open spec fn spec_is_float_literal(s: Seq<char>) -> bool {
    let i: int = if s.len() > 0 && (s[0] == '+' || s[0] == '-') { 1 } else { 0 };
    let t = s.subrange(i, s.len() as int);
    ||| eq_ignore_case(t, "inf"@)
    ||| eq_ignore_case(t, "infinity"@)
    ||| eq_ignore_case(t, "nan"@)
    ||| decimal_from(s, i)
}

/// What `str::parse::<f32>` reports for a text that is not a float, as its
/// error displays; nothing for a float.
pub open spec fn spec_float_error(s: Seq<char>) -> Option<Seq<char>> {
    if s.len() == 0 {
        Some("cannot parse float from empty string"@)
    } else if !spec_is_float_literal(s) {
        Some("invalid float literal"@)
    } else {
        None
    }
}

fn count_digits(s: &[char], i: usize) -> (n: usize)
    requires
        i <= s.len(),
    ensures
        n == digits_from(s@, i as int),
        i + n <= s.len(),
{
    let mut j: usize = i;
    while j < s.len() && '0' <= s[j] && s[j] <= '9'
        invariant
            i <= j <= s.len(),
            digits_from(s@, i as int) == (j - i) + digits_from(s@, j as int),
        decreases s.len() - j,
    {
        j = j + 1;
    }
    j - i
}

fn exponent_at(s: &[char], i: usize) -> (r: bool)
    requires
        i <= s.len(),
    ensures
        r == exponent_from(s@, i as int),
{
    if i == s.len() {
        return true;
    }
    if s[i] != 'e' && s[i] != 'E' {
        return false;
    }
    let j: usize = if i + 1 < s.len() && (s[i + 1] == '+' || s[i + 1] == '-') {
        i + 2
    } else {
        i + 1
    };
    if j >= s.len() {
        return false;
    }
    j + count_digits(s, j) == s.len()
}

fn decimal_at(s: &[char], i: usize) -> (r: bool)
    requires
        i <= s.len(),
    ensures
        r == decimal_from(s@, i as int),
{
    let a = count_digits(s, i);
    let p = i + a;
    if p < s.len() && s[p] == '.' {
        let b = count_digits(s, p + 1);
        a + b > 0 && exponent_at(s, p + 1 + b)
    } else {
        a > 0 && exponent_at(s, p)
    }
}

/// Whether `s` is a float as `str::parse::<f32>` reads one (see
/// [`spec_is_float_literal`]).
pub fn is_float_literal(s: &[char]) -> (r: bool)
    ensures
        r == spec_is_float_literal(s@),
{
    let i: usize = if s.len() > 0 && (s[0] == '+' || s[0] == '-') { 1 } else { 0 };
    let t = slice_range(s, i, s.len());
    let inf = chars_of("inf");
    let infinity = chars_of("infinity");
    let nan = chars_of("nan");
    chars_eq_ignore_case(&t, &inf) || chars_eq_ignore_case(&t, &infinity) || chars_eq_ignore_case(
        &t,
        &nan,
    ) || decimal_at(s, i)
}

/// The error `str::parse::<f32>` reports for `s`, or nothing when `s` is a
/// float (see [`spec_float_error`]).
pub fn float_error(s: &[char]) -> (r: Option<&'static str>)
    ensures
        match spec_float_error(s@) {
            Some(e) => r matches Some(t) && t@ == e,
            None => r is None,
        },
{
    if s.len() == 0 {
        Some("cannot parse float from empty string")
    } else if !is_float_literal(s) {
        Some("invalid float literal")
    } else {
        None
    }
}

} // verus!
