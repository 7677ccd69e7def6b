use vstd::prelude::*;
use vstd::string::StringSliceAdditionalSpecFns;
use vstd::utf8::{decode_utf8, valid_utf8};

use crate::types::PeekabooXError;

verus! {

/// The value of a hexadecimal digit byte, if it is one.
pub open spec fn spec_hex_value(b: u8) -> Option<u8> {
    if 48 <= b <= 57 {
        Some((b - 48) as u8)
    } else if 97 <= b <= 102 {
        Some((b - 97 + 10) as u8)
    } else if 65 <= b <= 70 {
        Some((b - 65 + 10) as u8)
    } else {
        None
    }
}

/// What can go wrong while percent-decoding.
pub enum PercentError {
    /// A `%` without two bytes after it.
    Truncated,
    /// A byte after `%` that is not a hexadecimal digit.
    BadDigit(u8),
}

/// Percent-decoding of bytes: `%XY` becomes the byte `0xXY`, every other byte
/// is kept; the first malformed escape is the error.
pub open spec fn spec_percent_decode(b: Seq<u8>) -> Result<Seq<u8>, PercentError>
    decreases b.len(),
{
    if b.len() == 0 {
        Ok(Seq::empty())
    } else if b[0] == 37u8 {
        if b.len() < 3 {
            Err(PercentError::Truncated)
        } else if spec_hex_value(b[1]) is None {
            Err(PercentError::BadDigit(b[1]))
        } else if spec_hex_value(b[2]) is None {
            Err(PercentError::BadDigit(b[2]))
        } else {
            match spec_percent_decode(b.subrange(3, b.len() as int)) {
                Ok(rest) => Ok(
                    seq![(spec_hex_value(b[1])->0 * 16 + spec_hex_value(b[2])->0) as u8] + rest,
                ),
                Err(e) => Err(e),
            }
        }
    } else {
        match spec_percent_decode(b.subrange(1, b.len() as int)) {
            Ok(rest) => Ok(seq![b[0]] + rest),
            Err(e) => Err(e),
        }
    }
}


/// Bytes without a `%` decode to themselves.
pub proof fn lemma_percent_decode_without_escapes(b: Seq<u8>)
    requires
        forall|i: int| 0 <= i < b.len() ==> b[i] != 37u8,
    ensures
        spec_percent_decode(b) == Ok::<Seq<u8>, PercentError>(b),
    decreases b.len(),
{
    if b.len() > 0 {
        let rest = b.subrange(1, b.len() as int);
        assert forall|i: int| 0 <= i < rest.len() implies rest[i] != 37u8 by {
            assert(rest[i] == b[i + 1]);
        }
        lemma_percent_decode_without_escapes(rest);
        assert(b[0] != 37u8);
        assert(seq![b[0]] + rest =~= b);
    } else {
        assert(b =~= Seq::<u8>::empty());
    }
}

/// The error text for a byte that is not a hexadecimal digit.
pub open spec fn msg_bad_digit(b: u8) -> Seq<char> {
    "invalid hex digit in percent encoding: "@ + seq![b as char]
}

/// The value of a hexadecimal digit.
pub fn hex_value(value: u8) -> (r: Result<u8, PeekabooXError>)
    ensures
        match spec_hex_value(value) {
            Some(v) => r == Ok::<u8, PeekabooXError>(v),
            None => r matches Err(e) && e.message@ == msg_bad_digit(value),
        },
{
    if 48 <= value && value <= 57 {
        Ok(value - 48)
    } else if 97 <= value && value <= 102 {
        Ok(value - 97 + 10)
    } else if 65 <= value && value <= 70 {
        Ok(value - 65 + 10)
    } else {
        let mut m = String::from_str("invalid hex digit in percent encoding: ");
        let c: Vec<char> = vec![value as char];
        let t = crate::text::string_from_chars(c.as_slice());
        m.append(t.as_str());
        Err(PeekabooXError::new(m))
    }
}

/// `String::from_utf8`: the text the bytes encode, or the decoder's error text.
#[verifier::external_body]
fn string_from_utf8(bytes: Vec<u8>) -> (r: Result<String, String>)
    ensures
        r is Ok <==> valid_utf8(bytes@),
        r matches Ok(s) ==> s@ == decode_utf8(bytes@),
{
    match String::from_utf8(bytes) {
        Ok(s) => Ok(s),
        Err(e) => Err(format!("{e}")),
    }
}

proof fn lemma_decode_step(b: Seq<u8>, i: int)
    requires
        0 <= i < b.len(),
    ensures
        b[i] != 37u8 ==> spec_percent_decode(b.subrange(i, b.len() as int)) == (match spec_percent_decode(b.subrange(i + 1, b.len() as int)) {
            Ok(rest) => Ok(seq![b[i]] + rest),
            Err(e) => Err(e),
        }),
{
    let s = b.subrange(i, b.len() as int);
    assert(s.subrange(1, s.len() as int) =~= b.subrange(i + 1, b.len() as int));
}

/// The error text for a path with a malformed escape.
pub open spec fn msg_truncated(value: Seq<char>) -> Seq<char> {
    "invalid percent encoding in file URI path: "@ + value
}

/// Percent-decodes a UTF-8 text: malformed escapes and decoded bytes that are
/// not UTF-8 are errors.
pub fn percent_decode(value: &str) -> (r: Result<String, PeekabooXError>)
    ensures
        match spec_percent_decode(value.spec_bytes()) {
            Err(PercentError::Truncated) => r matches Err(e) && e.message@ == msg_truncated(value@),
            Err(PercentError::BadDigit(d)) => r matches Err(e) && e.message@ == msg_bad_digit(d),
            Ok(decoded) => (r is Ok <==> valid_utf8(decoded)) && (r matches Ok(s) ==> s@
                == decode_utf8(decoded)),
        },
{
    let bytes = value.as_bytes();
    let ghost all = bytes@;
    let mut decoded: Vec<u8> = Vec::new();
    let mut index: usize = 0;
    assert(all.subrange(0, all.len() as int) =~= all);
    proof {
        match spec_percent_decode(all) {
            Ok(rest) => {
                assert(decoded@ + rest =~= rest);
            },
            Err(e) => {},
        }
    }
    while index < bytes.len()
        invariant
            all == bytes@,
            all == value.spec_bytes(),
            index <= bytes@.len(),
            spec_percent_decode(all) == (match spec_percent_decode(all.subrange(index as int, all.len() as int)) {
                Ok(rest) => Ok(decoded@ + rest),
                Err(e) => Err(e),
            }),
        decreases bytes@.len() - index,
    {
        let ghost s = all.subrange(index as int, all.len() as int);
        if bytes[index] == 37u8 {
            if bytes.len() - index < 3 {
                let mut m = String::from_str("invalid percent encoding in file URI path: ");
                m.append(value);
                return Err(PeekabooXError::new(m));
            }
            assert(s[1] == all[index + 1] && s[2] == all[index + 2]);
            let high = hex_value(bytes[index + 1])?;
            let low = hex_value(bytes[index + 2])?;
            assert(s.subrange(3, s.len() as int) =~= all.subrange(index + 3, all.len() as int));
            let ghost before = decoded@;
            decoded.push(high * 16 + low);
            proof {
                match spec_percent_decode(all.subrange(index + 3, all.len() as int)) {
                    Ok(rest) => {
                        assert(decoded@ + rest =~= before + (seq![(high * 16 + low) as u8] + rest));
                    },
                    Err(e) => {},
                }
            }
            index = index + 3;
        } else {
            proof {
                lemma_decode_step(all, index as int);
            }
            let ghost before = decoded@;
            decoded.push(bytes[index]);
            proof {
                match spec_percent_decode(all.subrange(index + 1, all.len() as int)) {
                    Ok(rest) => {
                        assert(decoded@ + rest =~= before + (seq![all[index as int]] + rest));
                    },
                    Err(e) => {},
                }
            }
            index = index + 1;
        }
    }
    assert(all.subrange(index as int, all.len() as int) =~= Seq::<u8>::empty());
    assert(decoded@ + Seq::<u8>::empty() =~= decoded@);
    match string_from_utf8(decoded) {
        Ok(s) => Ok(s),
        Err(text) => {
            let mut m = String::from_str("file URI path is not UTF-8: ");
            m.append(text.as_str());
            Err(PeekabooXError::new(m))
        },
    }
}


/// The outcome of [`percent_decode`] on the bytes of `text`, as `r` should be.
pub open spec fn decoded_as(r: Result<String, PeekabooXError>, text: Seq<char>, whole: Seq<char>) -> bool {
    match spec_percent_decode(vstd::utf8::encode_utf8(text)) {
        Err(PercentError::Truncated) => r matches Err(e) && e.message@ == msg_truncated(text),
        Err(PercentError::BadDigit(d)) => r matches Err(e) && e.message@ == msg_bad_digit(d),
        Ok(decoded) => (r is Ok <==> valid_utf8(decoded)) && (r matches Ok(s) ==> s@ == decode_utf8(
            decoded,
        )),
    }
}

/// The local path a `file://` URI names; other URIs are refused.
pub fn file_uri_to_path(uri: &str) -> (r: Result<String, PeekabooXError>)
    ensures
        uri@.len() >= 7 && uri@.subrange(0, 7) == "file://"@ ==> decoded_as(
            r,
            uri@.subrange(7, uri@.len() as int),
            uri@,
        ),
        !(uri@.len() >= 7 && uri@.subrange(0, 7) == "file://"@) ==> (r matches Err(e)
            && e.message@ == "xdg-desktop-portal returned a non-file URI: "@ + uri@),
{
    let n = uri.unicode_len();
    let prefix = crate::text::chars_of("file://");
    let mut is_file = n >= 7;
    if is_file {
        let head = crate::text::chars_of(uri.substring_char(0, 7));
        is_file = crate::text::chars_eq(&head, &prefix);
    }
    if !is_file {
        let mut m = String::from_str("xdg-desktop-portal returned a non-file URI: ");
        m.append(uri);
        return Err(PeekabooXError::new(m));
    }
    let path = uri.substring_char(7, n);
    percent_decode(path)
}

/// Where the portal put the screenshot, from its response code and URI: `0`
/// carries a URI, `1` is a cancellation, anything else a failure.
pub fn portal_screenshot_source(response: u32, uri: Option<&str>) -> (r: Result<String, PeekabooXError>)
    ensures
        response == 0 && uri is None ==> (r matches Err(e) && e.message@
            == "xdg-desktop-portal response did not include a screenshot URI"@),
        response == 1 ==> (r matches Err(e) && e.message@ == "xdg-desktop-portal screenshot request was cancelled"@),
        response > 1 ==> (r matches Err(e) && e.message@
            == "xdg-desktop-portal screenshot request failed with response code "@
            + crate::fmt::dec(response as nat)),
        response == 0 && uri is Some ==> {
            let u = uri->0@;
            &&& u.len() >= 7 && u.subrange(0, 7) == "file://"@ ==> decoded_as(r, u.subrange(7, u.len() as int), u)
            &&& !(u.len() >= 7 && u.subrange(0, 7) == "file://"@) ==> (r matches Err(e)
                && e.message@ == "xdg-desktop-portal returned a non-file URI: "@ + u)
        },
{
    if response == 0 {
        match uri {
            Some(u) => file_uri_to_path(u),
            None => Err(
                PeekabooXError::from_str("xdg-desktop-portal response did not include a screenshot URI"),
            ),
        }
    } else if response == 1 {
        Err(PeekabooXError::from_str("xdg-desktop-portal screenshot request was cancelled"))
    } else {
        let mut m = String::from_str("xdg-desktop-portal screenshot request failed with response code ");
        let t = crate::fmt::u64_text(response as u64);
        m.append(t.as_str());
        Err(PeekabooXError::new(m))
    }
}

/// A character allowed in a D-Bus object path element.
pub open spec fn path_element_char(c: char) -> bool {
    ('A' <= c && c <= 'Z') || ('a' <= c && c <= 'z') || ('0' <= c && c <= '9') || c == '_'
}

/// The request path element for a bus name: the leading `:` dropped, every
/// `.` turned into `_`.
pub open spec fn sender_element(sender: Seq<char>) -> Seq<char> {
    let s = if sender.len() > 0 && sender[0] == ':' {
        sender.subrange(1, sender.len() as int)
    } else {
        sender
    };
    s.map_values(|c: char| if c == '.' { '_' } else { c })
}

/// `e` is a valid D-Bus object path element: non-empty, of `[A-Za-z0-9_]`.
pub open spec fn valid_element(e: Seq<char>) -> bool {
    e.len() > 0 && forall|i: int| 0 <= i < e.len() ==> path_element_char(#[trigger] e[i])
}

/// The portal request object path for a sender and a handle token.
pub open spec fn spec_request_path(sender: Seq<char>, token: Seq<char>) -> Seq<char> {
    "/org/freedesktop/portal/desktop/request/"@ + sender_element(sender) + "/"@ + token
}

fn valid_element_exec(e: &[char]) -> (r: bool)
    ensures
        r == valid_element(e@),
{
    if e.len() == 0 {
        return false;
    }
    let mut i: usize = 0;
    while i < e.len()
        invariant
            i <= e.len(),
            forall|j: int| 0 <= j < i ==> path_element_char(#[trigger] e@[j]),
        decreases e.len() - i,
    {
        let c = e[i];
        if !(('A' <= c && c <= 'Z') || ('a' <= c && c <= 'z') || ('0' <= c && c <= '9') || c == '_') {
            return false;
        }
        i = i + 1;
    }
    true
}

/// The object path on which the portal answers a request made with
/// `handle_token` by the connection named `unique_name`; refused when either
/// element would not be a valid object path element.
pub fn portal_request_path_from_unique_name(unique_name: &str, handle_token: &str) -> (r: Result<
    String,
    PeekabooXError,
>)
    ensures
        valid_element(sender_element(unique_name@)) && valid_element(handle_token@) ==> (r matches Ok(
            p,
        ) && p@ == spec_request_path(unique_name@, handle_token@)),
        !(valid_element(sender_element(unique_name@)) && valid_element(handle_token@)) ==> (r matches Err(
            e,
        ) && e.message@ == "invalid portal object path "@ + spec_request_path(
            unique_name@,
            handle_token@,
        )),
{
    let name = crate::text::chars_of(unique_name);
    let mut element: Vec<char> = Vec::new();
    let mut i: usize = 0;
    if name.len() > 0 && name[0] == ':' {
        i = 1;
    }
    let ghost base = if name@.len() > 0 && name@[0] == ':' {
        name@.subrange(1, name@.len() as int)
    } else {
        name@
    };
    let ghost skip = i as int;
    while i < name.len()
        invariant
            skip <= i <= name@.len(),
            skip == 0 || skip == 1,
            base == name@.subrange(skip, name@.len() as int),
            element@ == base.subrange(0, i - skip).map_values(|c: char| if c == '.' { '_' } else { c }),
        decreases name@.len() - i,
    {
        let c = name[i];
        element.push(if c == '.' { '_' } else { c });
        i = i + 1;
        assert(element@ =~= base.subrange(0, i - skip).map_values(|c: char| if c == '.' { '_' } else { c }));
    }
    assert(base.subrange(0, base.len() as int) =~= base);
    let token = crate::text::chars_of(handle_token);
    let sender = crate::text::string_from_chars(element.as_slice());
    let mut path = String::from_str("/org/freedesktop/portal/desktop/request/");
    path.append(sender.as_str());
    path.append("/");
    path.append(handle_token);
    if valid_element_exec(&element) && valid_element_exec(&token) {
        Ok(path)
    } else {
        let mut m = String::from_str("invalid portal object path ");
        m.append(path.as_str());
        Err(PeekabooXError::new(m))
    }
}

} // verus!
