use slint_backend_kindle::buttons::{
    event_devices, is_oasis_model, is_sliceable, key_supported, page_turn, parse_device_number,
    parse_event, supports_keys, supports_page_turns, ButtonInput, DeviceProbe, InputEvent,
    PageTurnDirection, EV_KEY, KEY_LEFT, KEY_NEXT, KEY_PAGEDOWN, KEY_PAGEUP, KEY_PREVIOUS,
    KEY_RIGHT,
};

fn raw(kind: u16, code: u16, value: i32) -> [u8; 16] {
    let mut bytes = [0u8; 16];
    bytes[8..10].copy_from_slice(&kind.to_le_bytes());
    bytes[10..12].copy_from_slice(&code.to_le_bytes());
    bytes[12..16].copy_from_slice(&value.to_le_bytes());
    bytes
}

fn press(code: u16) -> InputEvent {
    parse_event(&raw(EV_KEY, code, 1))
}

fn with_keys(codes: &[u16]) -> [u8; 32] {
    let mut bits = [0u8; 32];
    for code in codes {
        bits[*code as usize / 8] |= 1 << (*code % 8);
    }
    bits
}

const KEYS: Option<[u8; 8]> = Some([0x02, 0, 0, 0, 0, 0, 0, 0]);

#[test]
fn events_are_read_low_byte_first() {
    let event = parse_event(&[1, 2, 3, 4, 5, 6, 7, 8, 9, 10, 11, 12, 0xfe, 0xff, 0xff, 0xff]);
    assert_eq!(event.tv_sec, 0x0403_0201);
    assert_eq!(event.tv_usec, 0x0807_0605);
    assert_eq!(event.kind, 0x0a09);
    assert_eq!(event.code, 0x0c0b);
    assert_eq!(event.value, -2);
}

#[test]
fn keys_turn_pages() {
    for code in [104, 194, 105] {
        assert_eq!(page_turn(press(code), false), Some(PageTurnDirection::Prev));
        assert_eq!(page_turn(press(code), true), Some(PageTurnDirection::Next));
    }
    for code in [109, 193, 106] {
        assert_eq!(page_turn(press(code), false), Some(PageTurnDirection::Next));
        assert_eq!(page_turn(press(code), true), Some(PageTurnDirection::Prev));
    }
    assert_eq!([KEY_PAGEUP, KEY_PREVIOUS, KEY_LEFT], [104, 194, 105]);
    assert_eq!([KEY_PAGEDOWN, KEY_NEXT, KEY_RIGHT], [109, 193, 106]);
    assert_eq!(page_turn(press(116), false), None);
}

#[test]
fn only_pressing_and_holding_turns_pages() {
    let turn = |kind, value| page_turn(parse_event(&raw(kind, KEY_PAGEUP, value)), false);
    assert_eq!(turn(EV_KEY, 1), Some(PageTurnDirection::Prev));
    assert_eq!(turn(EV_KEY, 2), Some(PageTurnDirection::Prev));
    assert_eq!(turn(EV_KEY, 0), None);
    assert_eq!(turn(EV_KEY, 3), None);
    assert_eq!(turn(EV_KEY, -1), None);
    assert_eq!(turn(0, 1), None);
    assert_eq!(turn(3, 1), None);
}

#[test]
fn key_bits_are_counted_from_the_lowest() {
    let bits = with_keys(&[0, 15, 104]);
    assert!(key_supported(&bits, 0));
    assert!(key_supported(&bits, 15));
    assert!(key_supported(&bits, 104));
    assert!(!key_supported(&bits, 1));
    assert!(!key_supported(&bits, 105));
    assert!(!key_supported(&bits, 256));
    assert!(!key_supported(&[], 0));
    assert_eq!(bits[13], 1);
}

#[test]
fn devices_with_any_page_key_are_used() {
    for code in [104, 194, 105, 109, 193, 106] {
        assert!(supports_page_turns(&with_keys(&[code])));
    }
    assert!(!supports_page_turns(&with_keys(&[116, 103, 107, 108])));
    assert!(supports_keys(&[0x02, 0, 0, 0, 0, 0, 0, 0]));
    assert!(!supports_keys(&[0xfd, 255, 255, 255, 255, 255, 255, 255]));
}

#[test]
fn event_devices_come_in_the_order_of_their_numbers() {
    let names = [
        "event10", "mice", "event2", "event", "by-path", "event0", "eventx", "event31", "event1a",
        "Event3", "event02", "event+4", "event\u{661}",
    ];
    let names: Vec<String> = names.iter().map(|name| name.to_string()).collect();
    assert_eq!(event_devices(&names), vec![5, 2, 10, 0, 7]);
    assert!(event_devices(&[]).is_empty());
}

#[test]
fn device_numbers_are_decimal() {
    assert_eq!(parse_device_number("event0"), Some(0));
    assert_eq!(parse_device_number("event16"), Some(16));
    assert_eq!(parse_device_number("event007"), Some(7));
    assert_eq!(parse_device_number("event18446744073709551615"), Some(u64::MAX));
    assert_eq!(parse_device_number("event18446744073709551616"), None);
    assert_eq!(parse_device_number("event99999999999999999999"), None);
    assert_eq!(parse_device_number("event"), None);
    assert_eq!(parse_device_number("even1"), None);
    assert_eq!(parse_device_number("event-1"), None);
    assert_eq!(parse_device_number("event1 "), None);
}

#[test]
fn opening_sorts_the_devices() {
    let probes = [
        DeviceProbe { fd: 3, ev_bits: KEYS, key_bits: Some(with_keys(&[116])) },
        DeviceProbe { fd: 4, ev_bits: KEYS, key_bits: Some(with_keys(&[104, 109])) },
        DeviceProbe { fd: 5, ev_bits: None, key_bits: Some(with_keys(&[104])) },
        DeviceProbe { fd: 6, ev_bits: Some([0; 8]), key_bits: Some(with_keys(&[104])) },
        DeviceProbe { fd: 7, ev_bits: KEYS, key_bits: None },
        DeviceProbe { fd: 8, ev_bits: KEYS, key_bits: Some(with_keys(&[193])) },
    ];
    let (input, useless) = ButtonInput::open(&probes, Some("G000WQ0123456789\n"));
    let input = input.unwrap();
    assert_eq!(input.fds(), &[4, 8]);
    assert!(input.inverted);
    assert_eq!(useless, vec![3, 5, 6, 7]);
    let (input, useless) = ButtonInput::open(&probes[..1], None);
    assert!(input.is_none());
    assert_eq!(useless, vec![3]);
}

#[test]
fn waiting_events_turn_pages_in_order() {
    let (input, _) = ButtonInput::open(
        &[DeviceProbe { fd: 4, ev_bits: KEYS, key_bits: Some(with_keys(&[104])) }],
        None,
    );
    let input = input.unwrap();
    let events = [raw(EV_KEY, 104, 1), raw(EV_KEY, 104, 0), raw(0, 0, 0), raw(EV_KEY, 109, 2)];
    let turns = input.poll(&events);
    assert_eq!(turns, vec![PageTurnDirection::Prev, PageTurnDirection::Next]);
    let mut split = input.poll(&events[..1]);
    split.extend(input.poll(&events[1..]));
    assert_eq!(turns, split);
    assert!(input.poll(&[]).is_empty());
}

#[test]
fn oasis_models_are_told_by_serial_number() {
    for usid in ["G0B0GC123", "G000P8xyz", "G0011L", "G000WP0000", "B00LM1", "xx0SAx", "xx0GTx"] {
        assert!(is_oasis_model(Some(usid)), "{usid}");
    }
    for usid in ["G0B0GA123", "G09010", "B024150", "g0b0gc123", "G0B0G", "x0GC", ""] {
        assert!(!is_oasis_model(Some(usid)), "{usid}");
    }
    assert!(!is_oasis_model(None));
}

#[test]
fn white_space_around_the_serial_number_is_ignored() {
    assert!(is_oasis_model(Some(" \t\r\n\u{a0}\u{3000}G0B0GC123\u{2009}\n")));
    assert!(!is_oasis_model(Some("   G0B0G   ")));
    assert!(!is_oasis_model(Some(" \n ")));
}

#[test]
fn white_space_is_what_unicode_says() {
    for c in (0..0x11_0000u32).filter_map(char::from_u32) {
        let leading = format!("{c}G0B0GC");
        let trailing = format!("xx0GC{c}");
        if c.is_whitespace() {
            assert!(is_sliceable(&leading) && is_oasis_model(Some(&leading)));
            assert!(is_sliceable(&trailing) && !is_oasis_model(Some(&trailing)));
        } else {
            assert!(!is_sliceable(&leading) || !is_oasis_model(Some(&leading)));
            assert!(!is_sliceable(&trailing) || is_oasis_model(Some(&trailing)));
        }
    }
}

#[test]
fn a_serial_number_can_be_cut_only_between_characters() {
    assert!(is_sliceable("G0B0GC\u{e9}"));
    assert!(is_sliceable("\u{e9}0GCx"));
    assert!(is_sliceable("abc"));
    assert!(is_sliceable("\u{e9}\u{e9}"));
    assert!(!is_sliceable("xx0GC\u{e9}"));
    assert!(!is_sliceable("x\u{e9}\u{e9}\u{e9}"));
    assert!(is_oasis_model(Some("\u{e9}0GCx")));
}
