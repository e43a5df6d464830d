use raw_input_window::{
    complete_fill, decode_record, kind_of, probe_size, window_proc, DecodeError, DeviceEvent,
    DeviceKind, KeyboardInput, MouseInput, PointerWidth, SizedRequest, WindowAction,
    MAX_RECORD_LEN, RIM_TYPEHID, RIM_TYPEKEYBOARD, RIM_TYPEMOUSE, WM_INPUT, WM_KEYDOWN,
};

fn header(kind: u32, width: PointerWidth, total: u32) -> Vec<u8> {
    let mut b = Vec::new();
    b.extend_from_slice(&kind.to_le_bytes());
    b.extend_from_slice(&total.to_le_bytes());
    let word = match width {
        PointerWidth::Bits32 => 4,
        PointerWidth::Bits64 => 8,
    };
    // device handle, then wparam
    b.extend(std::iter::repeat(0xAB).take(word));
    b.extend(std::iter::repeat(0xCD).take(word));
    b
}

fn keyboard_record(width: PointerWidth, make: u16, flags: u16, vkey: u16, msg: u32, extra: u32) -> Vec<u8> {
    let mut b = header(RIM_TYPEKEYBOARD, width, 0);
    b.extend_from_slice(&make.to_le_bytes());
    b.extend_from_slice(&flags.to_le_bytes());
    b.extend_from_slice(&0u16.to_le_bytes());
    b.extend_from_slice(&vkey.to_le_bytes());
    b.extend_from_slice(&msg.to_le_bytes());
    b.extend_from_slice(&extra.to_le_bytes());
    b
}

fn mouse_record(width: PointerWidth, x: i32, y: i32) -> Vec<u8> {
    let mut b = header(RIM_TYPEMOUSE, width, 0);
    b.extend_from_slice(&0x0001u16.to_le_bytes()); // flags
    b.extend_from_slice(&0xFFFFu16.to_le_bytes()); // padding
    b.extend_from_slice(&0x0004u16.to_le_bytes()); // button flags
    b.extend_from_slice(&0x0078u16.to_le_bytes()); // button data
    b.extend_from_slice(&0x1234_5678u32.to_le_bytes()); // raw buttons
    b.extend_from_slice(&x.to_le_bytes());
    b.extend_from_slice(&y.to_le_bytes());
    b.extend_from_slice(&0xDEAD_BEEFu32.to_le_bytes());
    b
}

fn envelope_request(handle: isize, size: u32) -> SizedRequest {
    match window_proc(WM_INPUT, handle) {
        WindowAction::DecodeRawInput(env) => probe_size(env, 0, size).expect("probe accepted"),
        other => panic!("unexpected action {:?}", other),
    }
}

#[test]
fn keyboard_key_down_a_decodes() {
    let b = keyboard_record(PointerWidth::Bits64, 0x1E, 0, 0x41, WM_KEYDOWN, 7);
    assert_eq!(b.len(), 40);
    let ev = decode_record(&b, PointerWidth::Bits64).unwrap();
    match ev {
        DeviceEvent::Keyboard(k) => {
            assert_eq!(k.vkey, 0x41);
            assert_eq!(k.message, WM_KEYDOWN);
            assert_eq!(k.message, 0x0100);
            assert_eq!(k.make_code, 0x1E);
            assert_eq!(k.extra_information, 7);
        }
        other => panic!("expected keyboard, got {:?}", other),
    }
}

#[test]
fn keyboard_key_down_a_through_protocol() {
    let b = keyboard_record(PointerWidth::Bits64, 0x1E, 0, 0x41, WM_KEYDOWN, 0);
    let mut req = envelope_request(0x55, b.len() as u32);
    assert_eq!(req.handle(), 0x55);
    assert_eq!(req.size(), 40);
    req.buffer_mut().copy_from_slice(&b);
    let ev = complete_fill(req, 40, PointerWidth::Bits64).unwrap();
    assert_eq!(
        ev,
        DeviceEvent::Keyboard(KeyboardInput {
            make_code: 0x1E,
            flags: 0,
            reserved: 0,
            vkey: 0x41,
            message: WM_KEYDOWN,
            extra_information: 0,
        })
    );
}

#[test]
fn mouse_record_decodes_signed_deltas() {
    let b = mouse_record(PointerWidth::Bits64, -5, 300);
    assert_eq!(b.len(), 48);
    let ev = decode_record(&b, PointerWidth::Bits64).unwrap();
    assert_eq!(
        ev,
        DeviceEvent::Mouse(MouseInput {
            flags: 1,
            button_flags: 4,
            button_data: 0x78,
            raw_buttons: 0x1234_5678,
            last_x: -5,
            last_y: 300,
            extra_information: 0xDEAD_BEEF,
        })
    );
    match ev {
        DeviceEvent::Mouse(m) => assert_eq!(m.buttons(), 0x0078_0004),
        other => panic!("expected mouse, got {:?}", other),
    }
}

#[test]
fn mouse_extreme_deltas() {
    let b = mouse_record(PointerWidth::Bits32, i32::MIN, i32::MAX);
    assert_eq!(b.len(), 40);
    match decode_record(&b, PointerWidth::Bits32).unwrap() {
        DeviceEvent::Mouse(m) => {
            assert_eq!(m.last_x, i32::MIN);
            assert_eq!(m.last_y, i32::MAX);
        }
        other => panic!("expected mouse, got {:?}", other),
    }
}

#[test]
fn keyboard_record_on_32_bit_layout() {
    let b = keyboard_record(PointerWidth::Bits32, 0x2A, 1, 0x10, 0x0101, 0xFFFF_FFFF);
    assert_eq!(b.len(), 32);
    match decode_record(&b, PointerWidth::Bits32).unwrap() {
        DeviceEvent::Keyboard(k) => {
            assert_eq!(k.make_code, 0x2A);
            assert_eq!(k.flags, 1);
            assert_eq!(k.vkey, 0x10);
            assert_eq!(k.message, 0x0101);
            assert_eq!(k.extra_information, 0xFFFF_FFFF);
        }
        other => panic!("expected keyboard, got {:?}", other),
    }
}

#[test]
fn other_discriminant_is_not_an_error() {
    let mut b = header(RIM_TYPEHID, PointerWidth::Bits64, 0);
    b.extend_from_slice(&[1, 2, 3, 4]);
    assert_eq!(decode_record(&b, PointerWidth::Bits64), Ok(DeviceEvent::Other(RIM_TYPEHID)));
    let b = header(0xFFFF_FFFF, PointerWidth::Bits64, 0);
    assert_eq!(decode_record(&b, PointerWidth::Bits64), Ok(DeviceEvent::Other(0xFFFF_FFFF)));
}

#[test]
fn every_discriminant_has_its_shape() {
    for t in [RIM_TYPEMOUSE, RIM_TYPEKEYBOARD, RIM_TYPEHID, 3, 77] {
        let mut b = header(t, PointerWidth::Bits64, 0);
        b.extend(std::iter::repeat(0).take(24));
        let ev = decode_record(&b, PointerWidth::Bits64).unwrap();
        match kind_of(t) {
            DeviceKind::Keyboard => assert!(matches!(ev, DeviceEvent::Keyboard(_))),
            DeviceKind::Mouse => assert!(matches!(ev, DeviceEvent::Mouse(_))),
            DeviceKind::Other => assert_eq!(ev, DeviceEvent::Other(t)),
        }
    }
    assert_eq!(kind_of(0), DeviceKind::Mouse);
    assert_eq!(kind_of(1), DeviceKind::Keyboard);
    assert_eq!(kind_of(2), DeviceKind::Other);
}

#[test]
fn truncated_header_is_refused() {
    assert_eq!(
        decode_record(&[], PointerWidth::Bits64),
        Err(DecodeError::Truncated { needed: 24, length: 0 })
    );
    assert_eq!(
        decode_record(&[0u8; 23], PointerWidth::Bits64),
        Err(DecodeError::Truncated { needed: 24, length: 23 })
    );
    assert_eq!(
        decode_record(&[0u8; 15], PointerWidth::Bits32),
        Err(DecodeError::Truncated { needed: 16, length: 15 })
    );
}

#[test]
fn truncated_payload_is_refused() {
    let b = keyboard_record(PointerWidth::Bits64, 1, 2, 3, 4, 5);
    assert_eq!(
        decode_record(&b[..39], PointerWidth::Bits64),
        Err(DecodeError::Truncated { needed: 40, length: 39 })
    );
    let m = mouse_record(PointerWidth::Bits64, 1, 1);
    assert_eq!(
        decode_record(&m[..40], PointerWidth::Bits64),
        Err(DecodeError::Truncated { needed: 48, length: 40 })
    );
}

#[test]
fn probe_failure_is_reported() {
    let env = match window_proc(WM_INPUT, 9) {
        WindowAction::DecodeRawInput(env) => env,
        other => panic!("unexpected action {:?}", other),
    };
    assert_eq!(env.handle(), 9);
    assert_eq!(probe_size(env, 0xFFFF_FFFF, 40).unwrap_err(), DecodeError::Probe { status: 0xFFFF_FFFF });
}

#[test]
fn oversized_probe_is_refused() {
    let env = match window_proc(WM_INPUT, 9) {
        WindowAction::DecodeRawInput(env) => env,
        other => panic!("unexpected action {:?}", other),
    };
    assert_eq!(
        probe_size(env, 0, MAX_RECORD_LEN + 1).unwrap_err(),
        DecodeError::Oversized { size: MAX_RECORD_LEN + 1 }
    );
    let req = envelope_request(9, MAX_RECORD_LEN);
    assert_eq!(req.size(), MAX_RECORD_LEN);
}

#[test]
fn probe_gives_zeroed_buffer_of_exact_size() {
    let mut req = envelope_request(3, 48);
    assert_eq!(req.handle(), 3);
    let buf = req.buffer_mut();
    assert_eq!(buf.len(), 48);
    assert!(buf.iter().all(|&x| x == 0));
}

#[test]
fn fill_size_mismatch_is_refused_whole() {
    let b = keyboard_record(PointerWidth::Bits64, 0x1E, 0, 0x41, WM_KEYDOWN, 0);
    let mut req = envelope_request(1, 40);
    req.buffer_mut().copy_from_slice(&b);
    assert_eq!(
        complete_fill(req, 32, PointerWidth::Bits64),
        Err(DecodeError::SizeMismatch { expected: 40, actual: 32 })
    );
    let mut req = envelope_request(1, 40);
    req.buffer_mut().copy_from_slice(&b);
    assert_eq!(
        complete_fill(req, 0xFFFF_FFFF, PointerWidth::Bits64),
        Err(DecodeError::SizeMismatch { expected: 40, actual: 0xFFFF_FFFF })
    );
}

#[test]
fn native_width_matches_target() {
    let w = PointerWidth::native();
    if usize::BITS == 64 {
        assert_eq!(w, PointerWidth::Bits64);
        assert_eq!(w.header_len(), 24);
    } else {
        assert_eq!(w, PointerWidth::Bits32);
        assert_eq!(w.header_len(), 16);
    }
}
