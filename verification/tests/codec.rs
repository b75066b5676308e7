use lan_mouse::protocol::{AxisKind, ButtonState, Event, KeyState};

fn frame_of(e: &Event) -> [u8; 21] {
    let buf = e.encode();
    buf.as_slice().try_into().expect("every frame is 21 bytes")
}

#[test]
fn mouse_round_trip_concrete() {
    let e = Event::Mouse { t: 100, x: 1.5f64.to_bits(), y: (-2.25f64).to_bits() };
    let frame = frame_of(&e);
    let back = Event::decode(frame).expect("an encoded frame decodes");
    assert_eq!(back, e);
    match back {
        Event::Mouse { t, x, y } => {
            assert_eq!(t, 100);
            assert_eq!(f64::from_bits(x), 1.5);
            assert_eq!(f64::from_bits(y), -2.25);
        }
        other => panic!("decoded to the wrong variant: {:?}", other),
    }
}

#[test]
fn button_round_trip_concrete() {
    let e = Event::Button { t: 7, b: 272, s: ButtonState::Pressed };
    let back = Event::decode(frame_of(&e)).expect("an encoded frame decodes");
    match back {
        Event::Button { t, b, s } => {
            assert_eq!(t, 7);
            assert_eq!(b, 272);
            assert_eq!(s, ButtonState::Pressed);
        }
        other => panic!("decoded to the wrong variant: {:?}", other),
    }
}

#[test]
fn round_trip_every_variant() {
    let events = vec![
        Event::Mouse { t: 0, x: 0.0f64.to_bits(), y: (-0.0f64).to_bits() },
        Event::Mouse { t: u32::MAX, x: 0.125f64.to_bits(), y: f64::MAX.to_bits() },
        Event::Button { t: 1, b: 0, s: ButtonState::Released },
        Event::Button { t: u32::MAX, b: u32::MAX, s: ButtonState::Pressed },
        Event::Axis { t: 3, a: AxisKind::Vertical, v: 15.0f64.to_bits() },
        Event::Axis { t: 4, a: AxisKind::Horizontal, v: (-1.0f64).to_bits() },
        Event::Key { t: 5, k: 30, s: KeyState::Pressed },
        Event::Key { t: 6, k: 0, s: KeyState::Released },
        Event::KeyModifier { mods_depressed: 1, mods_latched: 2, mods_locked: 3, group: 4 },
        Event::KeyModifier { mods_depressed: 0, mods_latched: 0, mods_locked: 0, group: 0 },
    ];
    for e in events {
        let back = Event::decode(frame_of(&e)).expect("an encoded frame decodes");
        assert_eq!(back, e);
    }
}

#[test]
fn negative_zero_bits_survive() {
    let e = Event::Mouse { t: 9, x: (-0.0f64).to_bits(), y: 0.0f64.to_bits() };
    let back = Event::decode(frame_of(&e)).unwrap();
    match back {
        Event::Mouse { x, y, .. } => {
            assert_eq!(x, (-0.0f64).to_bits());
            assert_eq!(y, 0.0f64.to_bits());
            assert_ne!(x, y, "-0.0 and 0.0 differ bit for bit");
        }
        other => panic!("decoded to the wrong variant: {:?}", other),
    }
}

#[test]
fn frame_len_every_variant() {
    let events = [
        Event::Mouse { t: 1, x: 2, y: 3 },
        Event::Button { t: 1, b: 2, s: ButtonState::Released },
        Event::Axis { t: 1, a: AxisKind::Vertical, v: 2 },
        Event::Key { t: 1, k: 2, s: KeyState::Pressed },
        Event::KeyModifier { mods_depressed: 1, mods_latched: 2, mods_locked: 3, group: 4 },
    ];
    for e in events {
        assert_eq!(e.encode().len(), 21);
    }
}

#[test]
fn little_endian_layout_is_exact() {
    let e = Event::Button { t: 0x1234_5678, b: 0xAABB_CCDD, s: ButtonState::Pressed };
    let frame = frame_of(&e);
    assert_eq!(frame[0], 1);
    assert_eq!(&frame[1..5], &[0x78, 0x56, 0x34, 0x12]);
    assert_eq!(&frame[5..9], &[0xDD, 0xCC, 0xBB, 0xAA]);
    assert_eq!(frame[9], 1);
}

#[test]
fn short_variants_are_zero_padded() {
    let button = frame_of(&Event::Button { t: 1, b: 2, s: ButtonState::Released });
    assert!(button[10..21].iter().all(|&b| b == 0));
    let axis = frame_of(&Event::Axis { t: 1, a: AxisKind::Horizontal, v: u64::MAX });
    assert!(axis[14..21].iter().all(|&b| b == 0));
    let key = frame_of(&Event::Key { t: 1, k: 2, s: KeyState::Pressed });
    assert!(key[10..21].iter().all(|&b| b == 0));
    let mods = frame_of(&Event::KeyModifier {
        mods_depressed: 1,
        mods_latched: 2,
        mods_locked: 3,
        group: 4,
    });
    assert!(mods[17..21].iter().all(|&b| b == 0));
}

#[test]
fn unknown_tag_is_rejected() {
    for tag in [5u8, 17, 255] {
        let mut frame = [0u8; 21];
        frame[0] = tag;
        assert!(Event::decode(frame).is_err(), "tag {} must be rejected", tag);
    }
}

#[test]
fn bad_button_state_is_rejected() {
    let mut frame = frame_of(&Event::Button { t: 1, b: 2, s: ButtonState::Pressed });
    frame[9] = 2;
    assert!(Event::decode(frame).is_err());
    frame[9] = 255;
    assert!(Event::decode(frame).is_err());
}

#[test]
fn bad_key_state_is_rejected() {
    let mut frame = frame_of(&Event::Key { t: 1, k: 2, s: KeyState::Released });
    frame[9] = 7;
    assert!(Event::decode(frame).is_err());
}

#[test]
fn bad_axis_kind_is_rejected() {
    let mut frame = frame_of(&Event::Axis { t: 1, a: AxisKind::Vertical, v: 2 });
    frame[5] = 3;
    assert!(Event::decode(frame).is_err());
}

#[test]
fn trailing_bytes_are_ignored_on_decode() {
    let mut frame = frame_of(&Event::Button { t: 1, b: 2, s: ButtonState::Pressed });
    for b in frame[10..21].iter_mut() {
        *b = 0xEE;
    }
    let back = Event::decode(frame).expect("trailing bytes do not matter");
    assert_eq!(back, Event::Button { t: 1, b: 2, s: ButtonState::Pressed });
}
