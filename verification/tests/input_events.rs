use peekaboox::input_events::{linux_input_event_size, parse_linux_input_event};

const TIMEVAL_SIZE: usize = 16;
const EV_KEY: u16 = 1;
const KEY_ESC: u16 = 1;

fn machine_is_little_endian() -> bool {
    u16::from_ne_bytes([1, 0]) == 1
}

#[test]
fn linux_input_event_parser_reads_key_events() {
    let mut bytes = vec![0_u8; linux_input_event_size(TIMEVAL_SIZE)];
    let offset = TIMEVAL_SIZE;
    bytes[offset..offset + 2].copy_from_slice(&EV_KEY.to_ne_bytes());
    bytes[offset + 2..offset + 4].copy_from_slice(&KEY_ESC.to_ne_bytes());
    bytes[offset + 4..offset + 8].copy_from_slice(&1_i32.to_ne_bytes());

    assert_eq!(
        parse_linux_input_event(&bytes, TIMEVAL_SIZE, machine_is_little_endian()),
        Some((EV_KEY, KEY_ESC, 1))
    );
}

#[test]
fn input_event_parser_reads_both_byte_orders_and_negative_values() {
    let mut bytes = vec![0_u8; 4];
    bytes.extend_from_slice(&[0x02, 0x01, 0x34, 0x12, 0xFF, 0xFF, 0xFF, 0xFF]);
    assert_eq!(parse_linux_input_event(&bytes, 4, true), Some((0x0102, 0x1234, -1)));
    assert_eq!(parse_linux_input_event(&bytes, 4, false), Some((0x0201, 0x3412, -1)));

    let mut big = vec![0_u8; 4];
    big.extend_from_slice(&[0, 1, 0, 30, 0x80, 0, 0, 0]);
    assert_eq!(parse_linux_input_event(&big, 4, false), Some((1, 30, i32::MIN)));
    assert_eq!(parse_linux_input_event(&big, 4, true), Some((0x0100, 0x1E00, 0x80)));
}

#[test]
fn input_event_parser_refuses_short_records() {
    assert_eq!(linux_input_event_size(16), 24);
    assert_eq!(parse_linux_input_event(&[0_u8; 23], 16, true), None);
    assert!(parse_linux_input_event(&[0_u8; 24], 16, true).is_some());
}
