use vstd::prelude::*;

use crate::fmt::dec;
use crate::selector::{debug_quoted, debug_text};
use crate::text::{chars_of, str_eq};
use crate::types::PeekabooXError;

verus! {

/// A value of an xdg-desktop-portal response, as D-Bus hands it over: the
/// number it reads as, the text it reads as (a string or an object path), and
/// the values it holds (the items of an array, the fields of a struct, the
/// keys and values of a dictionary in turn, or the value in a variant).
#[derive(Debug)]
pub struct PortalValue {
    pub number: Option<u64>,
    pub text: Option<String>,
    pub items: Option<Vec<PortalValue>>,
}

/// One field of a portal response's results.
#[derive(Debug)]
pub struct PortalField {
    pub key: String,
    pub value: PortalValue,
}

/// The stream a screen-cast session hands out: its PipeWire node and, when
/// the portal tells it, the PipeWire serial of that node.
#[derive(Debug, Clone, Copy, PartialEq, Eq, Structural)]
pub struct PortalScreenCastStream {
    pub node_id: u32,
    pub pipewire_serial: Option<u64>,
}

/// The first number found in a value: the value itself when it reads as a
/// number, else the first number found in what it holds, in order.
pub open spec fn spec_value_u64(v: PortalValue) -> Option<u64>
    decreases v, 0nat,
{
    match v.number {
        Some(n) => Some(n),
        None => match v.items {
            Some(items) => spec_items_u64(items, 0),
            None => None,
        },
    }
}

/// The first number found in `items[i..]` (see [`spec_value_u64`]).
pub open spec fn spec_items_u64(items: Vec<PortalValue>, i: int) -> Option<u64>
    decreases items, items@.len() - i,
{
    if i < 0 || i >= items@.len() {
        None
    } else {
        match spec_value_u64(items@[i]) {
            Some(n) => Some(n),
            None => spec_items_u64(items, i + 1),
        }
    }
}

/// The first number found in a portal value (see [`spec_value_u64`]).
pub fn portal_refarg_u64(value: &PortalValue) -> (r: Option<u64>)
    ensures
        r == spec_value_u64(*value),
    decreases *value, 1nat,
{
    match value.number {
        Some(n) => Some(n),
        None => match &value.items {
            Some(items) => items_u64(items, 0),
            None => None,
        },
    }
}

fn items_u64(items: &Vec<PortalValue>, start: usize) -> (r: Option<u64>)
    requires
        start <= items@.len(),
    ensures
        r == spec_items_u64(*items, start as int),
    decreases *items, 0nat,
{
    let mut i = start;
    while i < items.len()
        invariant
            start <= i <= items@.len(),
            spec_items_u64(*items, start as int) == spec_items_u64(*items, i as int),
        decreases items@.len() - i,
    {
        proof {
            vstd::std_specs::vec::axiom_vec_index_decreases(*items, i as int);
        }
        let found = portal_refarg_u64(&items[i]);
        if found.is_some() {
            return found;
        }
        i = i + 1;
    }
    None
}

/// Whether a value reads as exactly the text `t`.
pub open spec fn reads_as(v: PortalValue, t: Seq<char>) -> bool {
    v.text matches Some(s) && s@ == t
}

/// The PipeWire serial among stream properties: the number in the value that
/// follows the first `pipewire-serial` key that has one. Keys and values come
/// in turn; a key with no value after it ends the search.
pub open spec fn spec_serial_from(items: Seq<PortalValue>, i: int) -> Option<u64>
    decreases items.len() - i,
{
    if i < 0 || i >= items.len() || i + 1 >= items.len() {
        None
    } else if reads_as(items[i], "pipewire-serial"@) && spec_value_u64(items[i + 1]) is Some {
        spec_value_u64(items[i + 1])
    } else {
        spec_serial_from(items, i + 2)
    }
}

/// The PipeWire serial in a stream's properties (see [`spec_serial_from`]).
pub open spec fn spec_stream_serial(properties: PortalValue) -> Option<u64> {
    match properties.items {
        Some(items) => spec_serial_from(items@, 0),
        None => None,
    }
}

/// The PipeWire serial in a stream's properties (see [`spec_serial_from`]).
pub fn portal_stream_pipewire_serial(properties: &PortalValue) -> (r: Option<u64>)
    ensures
        r == spec_stream_serial(*properties),
{
    let items = match &properties.items {
        Some(items) => items,
        None => return None,
    };
    let mut i: usize = 0;
    while i < items.len()
        invariant
            i <= items@.len() + 1,
            properties.items == Some(*items),
            spec_serial_from(items@, 0) == spec_serial_from(items@, i as int),
        decreases items@.len() + 1 - i,
    {
        if i + 1 >= items.len() {
            return None;
        }
        let key_matches = match &items[i].text {
            Some(key) => str_eq(key.as_str(), "pipewire-serial"),
            None => false,
        };
        if key_matches {
            let serial = portal_refarg_u64(&items[i + 1]);
            if serial.is_some() {
                return serial;
            }
        }
        i = i + 2;
    }
    None
}

/// The value of the first field named `key`.
pub open spec fn spec_field(results: Seq<PortalField>, key: Seq<char>) -> Option<PortalValue>
    decreases results.len(),
{
    if results.len() == 0 {
        None
    } else if results[0].key@ == key {
        Some(results[0].value)
    } else {
        spec_field(results.drop_first(), key)
    }
}

/// The error for a response that lacks a field.
pub open spec fn msg_missing_field(key: Seq<char>) -> Seq<char> {
    "xdg-desktop-portal response did not include field "@ + debug_quoted(key)
}

/// The value of a response field, or the error that the response lacks it.
pub fn portal_result<'a>(results: &'a [PortalField], key: &str) -> (r: Result<
    &'a PortalValue,
    PeekabooXError,
>)
    ensures
        match spec_field(results@, key@) {
            Some(v) => r matches Ok(x) && *x == v,
            None => r matches Err(e) && e.message@ == msg_missing_field(key@),
        },
{
    let mut i: usize = 0;
    assert(results@.subrange(0, results@.len() as int) =~= results@);
    while i < results.len()
        invariant
            i <= results@.len(),
            spec_field(results@, key@) == spec_field(results@.subrange(i as int, results@.len() as int), key@),
        decreases results@.len() - i,
    {
        let ghost rest = results@.subrange(i as int, results@.len() as int);
        assert(rest.drop_first() =~= results@.subrange(i + 1, results@.len() as int));
        if str_eq(results[i].key.as_str(), key) {
            return Ok(&results[i].value);
        }
        i = i + 1;
    }
    assert(results@.subrange(i as int, results@.len() as int).len() == 0);
    let mut m = String::from_str("xdg-desktop-portal response did not include field ");
    let quoted = debug_text(&chars_of(key));
    m.append(quoted.as_str());
    Err(PeekabooXError::new(m))
}

/// An object path from a response field: its text, or the error that the
/// field is missing or holds no text.
pub fn portal_result_object_path(results: &[PortalField], key: &str) -> (r: Result<
    String,
    PeekabooXError,
>)
    ensures
        match spec_field(results@, key@) {
            None => r matches Err(e) && e.message@ == msg_missing_field(key@),
            Some(v) => match v.text {
                Some(t) => r matches Ok(s) && s@ == t@,
                None => r matches Err(e) && e.message@ == "xdg-desktop-portal response field "@
                    + debug_quoted(key@) + " was not an object path"@,
            },
        },
{
    let value = match portal_result(results, key) {
        Ok(value) => value,
        Err(e) => return Err(e),
    };
    match &value.text {
        Some(t) => Ok(t.clone()),
        None => {
            let mut m = String::from_str("xdg-desktop-portal response field ");
            let quoted = debug_text(&chars_of(key));
            m.append(quoted.as_str());
            m.append(" was not an object path");
            Err(PeekabooXError::new(m))
        },
    }
}

/// The first stream of a screen-cast start response, or what is wrong with
/// the response.
pub open spec fn spec_first_stream(results: Seq<PortalField>) -> Result<
    PortalScreenCastStream,
    Seq<char>,
> {
    match spec_field(results, "streams"@) {
        None => Err(msg_missing_field("streams"@)),
        Some(streams) => match streams.items {
            None => Err("xdg-desktop-portal Start response field \"streams\" was not an array"@),
            Some(list) => if list@.len() == 0 {
                Err("xdg-desktop-portal Start response did not include any streams"@)
            } else {
                match list@[0].items {
                    None => Err("xdg-desktop-portal stream entry was not a struct"@),
                    Some(fields) => if fields@.len() == 0 || fields@[0].number is None {
                        Err("xdg-desktop-portal stream entry missed node id"@)
                    } else if fields@[0].number->0 > u32::MAX {
                        Err("xdg-desktop-portal stream node id overflows u32"@)
                    } else {
                        Ok(
                            PortalScreenCastStream {
                                node_id: fields@[0].number->0 as u32,
                                pipewire_serial: if fields@.len() >= 2 {
                                    spec_stream_serial(fields@[1])
                                } else {
                                    None
                                },
                            },
                        )
                    },
                }
            },
        },
    }
}

/// The first stream of a screen-cast start response (see
/// [`spec_first_stream`]).
pub fn portal_first_stream(results: &[PortalField]) -> (r: Result<
    PortalScreenCastStream,
    PeekabooXError,
>)
    ensures
        match spec_first_stream(results@) {
            Ok(s) => r == Ok::<PortalScreenCastStream, PeekabooXError>(s),
            Err(m) => r matches Err(e) && e.message@ == m,
        },
{
    let streams = match portal_result(results, "streams") {
        Ok(v) => v,
        Err(e) => return Err(e),
    };
    let list = match &streams.items {
        Some(list) => list,
        None => {
            return Err(
                PeekabooXError::from_str(
                    "xdg-desktop-portal Start response field \"streams\" was not an array",
                ),
            )
        },
    };
    if list.len() == 0 {
        return Err(
            PeekabooXError::from_str("xdg-desktop-portal Start response did not include any streams"),
        );
    }
    let fields = match &list[0].items {
        Some(fields) => fields,
        None => {
            return Err(PeekabooXError::from_str("xdg-desktop-portal stream entry was not a struct"))
        },
    };
    if fields.len() == 0 {
        return Err(PeekabooXError::from_str("xdg-desktop-portal stream entry missed node id"));
    }
    let node = match fields[0].number {
        Some(n) => n,
        None => {
            return Err(PeekabooXError::from_str("xdg-desktop-portal stream entry missed node id"))
        },
    };
    if node > u32::MAX as u64 {
        return Err(PeekabooXError::from_str("xdg-desktop-portal stream node id overflows u32"));
    }
    let pipewire_serial = if fields.len() >= 2 {
        portal_stream_pipewire_serial(&fields[1])
    } else {
        None
    };
    Ok(PortalScreenCastStream { node_id: node as u32, pipewire_serial })
}

/// What a portal request's response code means: `0` is success, `1` a
/// cancellation, anything else a failure.
pub fn portal_request_outcome(operation: &str, response: u32) -> (r: Result<(), PeekabooXError>)
    ensures
        response == 0 ==> r is Ok,
        response == 1 ==> (r matches Err(e) && e.message@ == "xdg-desktop-portal "@ + operation@
            + " request was cancelled"@),
        response > 1 ==> (r matches Err(e) && e.message@ == "xdg-desktop-portal "@ + operation@
            + " request failed with response code "@ + dec(response as nat)),
{
    if response == 0 {
        return Ok(());
    }
    let mut m = String::from_str("xdg-desktop-portal ");
    m.append(operation);
    if response == 1 {
        m.append(" request was cancelled");
    } else {
        m.append(" request failed with response code ");
        let code = crate::fmt::u64_text(response as u64);
        m.append(code.as_str());
    }
    Err(PeekabooXError::new(m))
}

} // verus!
