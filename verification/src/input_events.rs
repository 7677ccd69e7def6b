use vstd::prelude::*;

verus! {

/// A 16-bit number from two bytes in the given byte order.
pub open spec fn spec_u16_from(b0: u8, b1: u8, little_endian: bool) -> int {
    if little_endian {
        b0 + 256 * b1
    } else {
        256 * b0 + b1
    }
}

/// A 32-bit unsigned number from four bytes in the given byte order.
pub open spec fn spec_u32_from(b0: u8, b1: u8, b2: u8, b3: u8, little_endian: bool) -> int {
    if little_endian {
        b0 + 256 * b1 + 65536 * b2 + 16777216 * b3
    } else {
        16777216 * b0 + 65536 * b1 + 256 * b2 + b3
    }
}

/// The two's-complement reading of a 32-bit pattern.
pub open spec fn spec_i32_of(u: int) -> int {
    if u >= 0x8000_0000 {
        u - 0x1_0000_0000
    } else {
        u
    }
}

/// A Linux `input_event` record: a timestamp of `time_size` bytes, then the
/// event type, the key code and the value in the machine's byte order.
pub open spec fn spec_input_event(bytes: Seq<u8>, time_size: int, little_endian: bool) -> Option<
    (u16, u16, i32),
> {
    if bytes.len() < time_size + 8 {
        None
    } else {
        let t = time_size;
        Some(
            (
                spec_u16_from(bytes[t], bytes[t + 1], little_endian) as u16,
                spec_u16_from(bytes[t + 2], bytes[t + 3], little_endian) as u16,
                spec_i32_of(
                    spec_u32_from(
                        bytes[t + 4],
                        bytes[t + 5],
                        bytes[t + 6],
                        bytes[t + 7],
                        little_endian,
                    ),
                ) as i32,
            ),
        )
    }
}

fn u16_from(b0: u8, b1: u8, little_endian: bool) -> (v: u16)
    ensures
        v == spec_u16_from(b0, b1, little_endian),
{
    if little_endian {
        b0 as u16 + 256 * (b1 as u16)
    } else {
        256 * (b0 as u16) + b1 as u16
    }
}

fn i32_from(b0: u8, b1: u8, b2: u8, b3: u8, little_endian: bool) -> (v: i32)
    ensures
        v == spec_i32_of(spec_u32_from(b0, b1, b2, b3, little_endian)),
{
    let u: u32 = if little_endian {
        b0 as u32 + 256 * (b1 as u32) + 65536 * (b2 as u32) + 16777216 * (b3 as u32)
    } else {
        16777216 * (b0 as u32) + 65536 * (b1 as u32) + 256 * (b2 as u32) + b3 as u32
    };
    if u < 0x8000_0000 {
        u as i32
    } else {
        let below: u32 = 0xFFFF_FFFF - u;
        -(below as i32) - 1
    }
}

/// The event type, key code and value of a Linux input event record (see
/// [`spec_input_event`]); `None` when the record is too short.
pub fn parse_linux_input_event(bytes: &[u8], time_size: usize, little_endian: bool) -> (r: Option<
    (u16, u16, i32),
>)
    requires
        time_size + 8 <= usize::MAX,
    ensures
        r == spec_input_event(bytes@, time_size as int, little_endian),
{
    if bytes.len() < time_size + 8 {
        return None;
    }
    let t = time_size;
    let event_type = u16_from(bytes[t], bytes[t + 1], little_endian);
    let key_code = u16_from(bytes[t + 2], bytes[t + 3], little_endian);
    let value = i32_from(bytes[t + 4], bytes[t + 5], bytes[t + 6], bytes[t + 7], little_endian);
    Some((event_type, key_code, value))
}

/// The size of a Linux input event record with a timestamp of `time_size`
/// bytes.
pub fn linux_input_event_size(time_size: usize) -> (n: usize)
    requires
        time_size + 8 <= usize::MAX,
    ensures
        n == time_size + 8,
{
    time_size + 8
}

/// The two bytes of a 16-bit number in the given byte order.
pub open spec fn spec_u16_bytes(a: u16, little_endian: bool) -> Seq<u8> {
    if little_endian {
        seq![(a % 256) as u8, (a / 256) as u8]
    } else {
        seq![(a / 256) as u8, (a % 256) as u8]
    }
}

/// The four bytes of a 32-bit number's two's-complement pattern in the given
/// byte order.
pub open spec fn spec_i32_bytes(v: i32, little_endian: bool) -> Seq<u8> {
    let u: int = if v < 0 {
        v + 0x1_0000_0000
    } else {
        v as int
    };
    let b0 = (u % 256) as u8;
    let b1 = ((u / 256) % 256) as u8;
    let b2 = ((u / 65536) % 256) as u8;
    let b3 = (u / 16777216) as u8;
    if little_endian {
        seq![b0, b1, b2, b3]
    } else {
        seq![b3, b2, b1, b0]
    }
}

proof fn lemma_u32_digits(u: int)
    requires
        0 <= u < 0x1_0000_0000,
    ensures
        (u % 256) + 256 * ((u / 256) % 256) + 65536 * ((u / 65536) % 256) + 16777216 * (u
            / 16777216) == u,
        u / 16777216 < 256,
{
    assert(u == 256 * (u / 256) + u % 256) by (nonlinear_arith);
    assert(u / 256 == 256 * ((u / 256) / 256) + (u / 256) % 256) by (nonlinear_arith);
    assert((u / 256) / 256 == u / 65536) by (nonlinear_arith) requires u >= 0;
    assert(u / 65536 == 256 * ((u / 65536) / 256) + (u / 65536) % 256) by (nonlinear_arith);
    assert((u / 65536) / 256 == u / 16777216) by (nonlinear_arith) requires u >= 0;
    assert(u / 16777216 < 256) by (nonlinear_arith) requires 0 <= u < 0x1_0000_0000;
}

/// A record whose event fields were written in the machine's byte order
/// reads back as the same event type, key code and value.
pub proof fn lemma_input_event_round_trip(
    bytes: Seq<u8>,
    time_size: int,
    little_endian: bool,
    event_type: u16,
    key_code: u16,
    value: i32,
)
    requires
        0 <= time_size,
        bytes.len() >= time_size + 8,
        bytes.subrange(time_size, time_size + 2) == spec_u16_bytes(event_type, little_endian),
        bytes.subrange(time_size + 2, time_size + 4) == spec_u16_bytes(key_code, little_endian),
        bytes.subrange(time_size + 4, time_size + 8) == spec_i32_bytes(value, little_endian),
    ensures
        spec_input_event(bytes, time_size, little_endian) == Some((event_type, key_code, value)),
{
    let t = time_size;
    assert(bytes[t] == bytes.subrange(t, t + 2)[0]);
    assert(bytes[t + 1] == bytes.subrange(t, t + 2)[1]);
    assert(bytes[t + 2] == bytes.subrange(t + 2, t + 4)[0]);
    assert(bytes[t + 3] == bytes.subrange(t + 2, t + 4)[1]);
    assert(bytes[t + 4] == bytes.subrange(t + 4, t + 8)[0]);
    assert(bytes[t + 5] == bytes.subrange(t + 4, t + 8)[1]);
    assert(bytes[t + 6] == bytes.subrange(t + 4, t + 8)[2]);
    assert(bytes[t + 7] == bytes.subrange(t + 4, t + 8)[3]);
    let u: int = if value < 0 {
        value + 0x1_0000_0000
    } else {
        value as int
    };
    lemma_u32_digits(u);
    assert(spec_u16_from(bytes[t], bytes[t + 1], little_endian) == event_type);
    assert(spec_u16_from(bytes[t + 2], bytes[t + 3], little_endian) == key_code);
    assert(spec_u32_from(bytes[t + 4], bytes[t + 5], bytes[t + 6], bytes[t + 7], little_endian)
        == u);
}

} // verus!
