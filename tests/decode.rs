use input_decode::report::{
    EV_ABS, EV_FF, EV_FF_STATUS, EV_KEY, EV_LED, EV_MSC, EV_PWR, EV_REL, EV_REP, EV_SND, EV_SW,
    EV_SYN, MSC_SCAN,
};
use input_decode::{DecodeError, Event, RawReport};

fn decode(category: u16, code: u16, value: i32, state: &mut u8) -> Result<Option<Event>, DecodeError> {
    Event::<i32>::from_input_event(&RawReport::new(category, code, value), state)
}

fn decode_all(reports: &[(u16, u16, i32)], state: &mut u8) -> Vec<Result<Option<Event>, DecodeError>> {
    let mut out = Vec::new();
    for &(category, code, value) in reports {
        out.push(decode(category, code, value, state));
    }
    out
}

#[test]
fn named_buttons_press_and_release() {
    let table: Vec<(u16, fn(bool) -> Event)> = vec![
        (0x08B, Event::Context),
        (0x09E, Event::PaddleLeft),
        (0x09F, Event::PaddleRight),
        (0x120, Event::Trigger),
        (0x121, Event::ActionM),
        (0x122, Event::Bumper),
        (0x123, Event::ActionR),
        (0x124, Event::ActionL),
        (0x125, Event::Pinky),
        (0x130, Event::ActionA),
        (0x131, Event::ActionB),
        (0x132, Event::ActionC),
        (0x133, Event::ActionV),
        (0x134, Event::ActionH),
        (0x135, Event::ActionD),
        (0x136, Event::BumperL),
        (0x137, Event::BumperR),
        (0x13A, Event::MenuL),
        (0x13B, Event::MenuR),
        (0x13C, Event::Exit),
        (0x13D, Event::Joy),
        (0x13E, Event::Cam),
        (0x13F, Event::PinkyRight),
        (0x140, Event::PinkyLeft),
        (0x220, Event::Up),
        (0x221, Event::Down),
        (0x222, Event::Left),
        (0x223, Event::Right),
    ];
    let mut state = 0u8;
    for (code, variant) in table {
        assert_eq!(decode(EV_KEY, code, 1, &mut state), Ok(Some(variant(true))));
        assert_eq!(decode(EV_KEY, code, -5, &mut state), Ok(Some(variant(true))));
        assert_eq!(decode(EV_KEY, code, 0, &mut state), Ok(Some(variant(false))));
    }
    assert_eq!(state, 0);
}

#[test]
fn button_pressed_whatever_payload_type() {
    let mut state = 0u8;
    let r = Event::<i8>::from_input_event(&RawReport::new(EV_KEY, 0x130, 1000), &mut state);
    assert_eq!(r, Ok(Some(Event::ActionA(true))));
}

#[test]
fn numbered_buttons_cover_one_to_fifty() {
    let mut state = 0u8;
    let mut seen = vec![false; 51];
    let codes: Vec<u16> = (0x126..=0x12F).chain(0x2C0..=0x2E7).collect();
    for (i, code) in codes.iter().enumerate() {
        match decode(EV_KEY, *code, 1, &mut state) {
            Ok(Some(Event::Number(n, true))) => {
                assert_eq!(n as usize, i + 1);
                assert!(!seen[n as usize]);
                seen[n as usize] = true;
            }
            other => panic!("unexpected {:?}", other),
        }
    }
    assert!(seen[1..].iter().all(|s| *s));
    assert_eq!(decode(EV_KEY, 0x126, 1, &mut state), Ok(Some(Event::Number(1, true))));
    assert_eq!(decode(EV_KEY, 0x12F, 0, &mut state), Ok(Some(Event::Number(10, false))));
    assert_eq!(decode(EV_KEY, 0x2C0, 1, &mut state), Ok(Some(Event::Number(11, true))));
    assert_eq!(decode(EV_KEY, 0x2E7, 0, &mut state), Ok(Some(Event::Number(50, false))));
    assert_eq!(decode(EV_KEY, 0x2E8, 1, &mut state), Err(DecodeError::UnsupportedCode));
}

#[test]
fn analog_triggers_carry_value() {
    let mut state = 0u8;
    assert_eq!(decode(EV_KEY, 0x138, 200, &mut state), Ok(Some(Event::TriggerL(200))));
    assert_eq!(decode(EV_KEY, 0x139, 0, &mut state), Ok(Some(Event::TriggerR(0))));
    let r = Event::<i8>::from_input_event(&RawReport::new(EV_KEY, 0x138, 200), &mut state);
    assert_eq!(r, Ok(None));
    let r = Event::<u8>::from_input_event(&RawReport::new(EV_KEY, 0x139, 200), &mut state);
    assert_eq!(r, Ok(Some(Event::TriggerR(200u8))));
}

fn hat_events(axis: u16) -> (fn(bool) -> Event, fn(bool) -> Event) {
    match axis {
        0x10 => (Event::PovRight, Event::PovLeft),
        0x11 => (Event::PovDown, Event::PovUp),
        0x12 => (Event::HatRight, Event::HatLeft),
        0x13 => (Event::HatDown, Event::HatUp),
        0x14 => (Event::TrimRight, Event::TrimLeft),
        0x15 => (Event::TrimDown, Event::TrimUp),
        0x16 => (Event::MicRight, Event::MicLeft),
        _ => (Event::MicDown, Event::MicUp),
    }
}

#[test]
fn hat_positive_then_centre() {
    for axis in 0x10..=0x17u16 {
        let (pos, _) = hat_events(axis);
        let mut state = 0u8;
        let out = decode_all(&[(EV_ABS, axis, 1), (EV_ABS, axis, 0)], &mut state);
        assert_eq!(out, vec![Ok(Some(pos(true))), Ok(Some(pos(false)))]);
        assert_eq!(state, 0);
    }
}

#[test]
fn hat_negative_then_centre() {
    for axis in 0x10..=0x17u16 {
        let (_, neg) = hat_events(axis);
        let mut state = 0u8;
        let out = decode_all(&[(EV_ABS, axis, -1), (EV_ABS, axis, 0)], &mut state);
        assert_eq!(out, vec![Ok(Some(neg(true))), Ok(Some(neg(false)))]);
        assert_eq!(state, 0);
    }
}

#[test]
fn hat_reversal_without_centre_releases_positive() {
    for axis in 0x10..=0x17u16 {
        let (pos, neg) = hat_events(axis);
        let mut state = 0u8;
        let out = decode_all(&[(EV_ABS, axis, 1), (EV_ABS, axis, -1), (EV_ABS, axis, 0)], &mut state);
        assert_eq!(out, vec![Ok(Some(pos(true))), Ok(Some(neg(true))), Ok(Some(pos(false)))]);
    }
}

#[test]
fn hat_state_bits() {
    let mut state = 0u8;
    decode(EV_ABS, 0x10, 1, &mut state).unwrap();
    assert_eq!(state, 0b0000_0001);
    decode(EV_ABS, 0x17, 3, &mut state).unwrap();
    assert_eq!(state, 0b1000_0001);
    decode(EV_ABS, 0x17, -3, &mut state).unwrap();
    assert_eq!(state, 0b1000_0001);
    decode(EV_ABS, 0x10, 0, &mut state).unwrap();
    assert_eq!(state, 0b1000_0000);
}

#[test]
fn hat_centre_twice() {
    let mut state = 0u8;
    decode(EV_ABS, 0x12, 1, &mut state).unwrap();
    assert_eq!(decode(EV_ABS, 0x12, 0, &mut state), Ok(Some(Event::HatRight(false))));
    let after_first = state;
    assert_eq!(decode(EV_ABS, 0x12, 0, &mut state), Ok(Some(Event::HatLeft(false))));
    assert_eq!(state, after_first);
    assert_eq!(decode(EV_ABS, 0x12, 0, &mut state), Ok(Some(Event::HatLeft(false))));
}

#[test]
fn hat_drops_value_payload_cannot_hold() {
    let mut state = 0b0000_0010u8;
    let r = Event::<i8>::from_input_event(&RawReport::new(EV_ABS, 0x11, 100_000), &mut state);
    assert_eq!(r, Ok(None));
    assert_eq!(state, 0b0000_0010);
    let r = Event::<u8>::from_input_event(&RawReport::new(EV_ABS, 0x10, -1), &mut state);
    assert_eq!(r, Ok(None));
    assert_eq!(state, 0b0000_0010);
    let r = Event::<u8>::from_input_event(&RawReport::new(EV_ABS, 0x10, 1), &mut state);
    assert_eq!(r, Ok(Some(Event::PovRight(true))));
    assert_eq!(state, 0b0000_0011);
    let r = Event::<i8>::from_input_event(&RawReport::new(EV_ABS, 0x11, 100), &mut state);
    assert_eq!(r, Ok(Some(Event::PovDown(true))));
}

#[test]
fn two_states_same_reports() {
    let reports = [
        (EV_ABS, 0x10, 1),
        (EV_KEY, 0x130, 1),
        (EV_ABS, 0x13, -1),
        (EV_SYN, 0, 0),
        (EV_ABS, 0x10, 0),
        (EV_ABS, 0x13, 0),
        (EV_REL, 0x00, -7),
    ];
    let mut first = 0u8;
    let mut second = 0u8;
    let a = decode_all(&reports, &mut first);
    let b = decode_all(&reports, &mut second);
    assert_eq!(a, b);
    assert_eq!(first, second);
    let before = first;
    let mut other = 0u8;
    assert_eq!(decode(EV_ABS, 0x16, 1, &mut other), Ok(Some(Event::MicRight(true))));
    assert_eq!(first, before);
    assert_eq!(other, 0b0100_0000);
}

#[test]
fn unknown_codes_are_unsupported() {
    let mut state = 0u8;
    assert_eq!(decode(EV_KEY, 0x100, 1, &mut state), Err(DecodeError::UnsupportedCode));
    assert_eq!(decode(EV_KEY, 0x001, 0, &mut state), Err(DecodeError::UnsupportedCode));
    assert_eq!(decode(EV_REL, 0x02, 1, &mut state), Err(DecodeError::UnsupportedCode));
    assert_eq!(decode(EV_REL, 0x08, 1, &mut state), Err(DecodeError::UnsupportedCode));
    assert_eq!(decode(EV_ABS, 0x18, 1, &mut state), Err(DecodeError::UnsupportedCode));
    assert_eq!(decode(EV_ABS, 0x3F, 0, &mut state), Err(DecodeError::UnsupportedCode));
    assert_eq!(state, 0);
}

#[test]
fn hat_example_right_and_left() {
    let mut state = 0u8;
    let out = decode_all(&[(EV_ABS, 0x10, 1), (EV_ABS, 0x10, 0)], &mut state);
    assert_eq!(out, vec![Ok(Some(Event::PovRight(true))), Ok(Some(Event::PovRight(false)))]);
    let mut state = 0u8;
    let out = decode_all(&[(EV_ABS, 0x10, -1), (EV_ABS, 0x10, 0)], &mut state);
    assert_eq!(out, vec![Ok(Some(Event::PovLeft(true))), Ok(Some(Event::PovLeft(false)))]);
}

#[test]
fn absolute_axes() {
    let table: Vec<(u16, fn(i32) -> Event)> = vec![
        (0x00, Event::JoyX),
        (0x01, Event::JoyY),
        (0x02, Event::JoyZ),
        (0x03, Event::CamX),
        (0x04, Event::CamY),
        (0x05, Event::CamZ),
        (0x06, Event::Throttle),
        (0x07, Event::Rudder),
        (0x08, Event::Wheel),
        (0x09, Event::Gas),
        (0x0A, Event::Brake),
        (0x0B, Event::Slew),
        (0x0C, Event::ThrottleL),
        (0x0D, Event::ThrottleR),
        (0x0E, Event::ScrollX),
        (0x0F, Event::ScrollY),
    ];
    let mut state = 0u8;
    for (code, variant) in table {
        assert_eq!(decode(EV_ABS, code, -32768, &mut state), Ok(Some(variant(-32768))));
        assert_eq!(decode(EV_ABS, code, i32::MAX, &mut state), Ok(Some(variant(i32::MAX))));
    }
    assert_eq!(state, 0);
}

#[test]
fn narrow_payload_drops_values_out_of_range() {
    let mut state = 0u8;
    let r = Event::<i8>::from_input_event(&RawReport::new(EV_ABS, 0x00, 300), &mut state);
    assert_eq!(r, Ok(None));
    let r = Event::<i8>::from_input_event(&RawReport::new(EV_ABS, 0x00, -128), &mut state);
    assert_eq!(r, Ok(Some(Event::JoyX(-128i8))));
    let r = Event::<u16>::from_input_event(&RawReport::new(EV_ABS, 0x01, -1), &mut state);
    assert_eq!(r, Ok(None));
    let r = Event::<i16>::from_input_event(&RawReport::new(EV_REL, 0x00, 40_000), &mut state);
    assert_eq!(r, Ok(None));
    let r = Event::<i64>::from_input_event(&RawReport::new(EV_REL, 0x01, i32::MIN), &mut state);
    assert_eq!(r, Ok(Some(Event::MouseY(i32::MIN as i64))));
}

#[test]
fn mouse_motion() {
    let mut state = 0u8;
    assert_eq!(decode(EV_REL, 0x00, -7, &mut state), Ok(Some(Event::MouseX(-7))));
    assert_eq!(decode(EV_REL, 0x01, 12, &mut state), Ok(Some(Event::MouseY(12))));
}

#[test]
fn categories() {
    let mut state = 0u8;
    assert_eq!(decode(EV_SYN, 0, 0, &mut state), Ok(None));
    assert_eq!(decode(EV_FF, 0x50, 1, &mut state), Ok(None));
    assert_eq!(decode(EV_FF_STATUS, 0, 1, &mut state), Ok(None));
    assert_eq!(decode(EV_MSC, MSC_SCAN, 0x90001, &mut state), Ok(None));
    assert_eq!(decode(EV_MSC, 0x03, 0, &mut state), Err(DecodeError::InvariantViolation));
    for category in [EV_SW, EV_LED, EV_SND, EV_REP, EV_PWR, 0x1F, 0x20, 0x101] {
        assert_eq!(decode(category, 0, 0, &mut state), Err(DecodeError::UnsupportedCategory));
    }
    assert_eq!(state, 0);
}

#[test]
fn codes_match_kernel_headers() {
    assert_eq!(EV_SYN as i32, input_linux_sys::EV_SYN);
    assert_eq!(EV_KEY as i32, input_linux_sys::EV_KEY);
    assert_eq!(EV_REL as i32, input_linux_sys::EV_REL);
    assert_eq!(EV_ABS as i32, input_linux_sys::EV_ABS);
    assert_eq!(EV_MSC as i32, input_linux_sys::EV_MSC);
    assert_eq!(EV_SW as i32, input_linux_sys::EV_SW);
    assert_eq!(EV_LED as i32, input_linux_sys::EV_LED);
    assert_eq!(EV_SND as i32, input_linux_sys::EV_SND);
    assert_eq!(EV_REP as i32, input_linux_sys::EV_REP);
    assert_eq!(EV_FF as i32, input_linux_sys::EV_FF);
    assert_eq!(EV_PWR as i32, input_linux_sys::EV_PWR);
    assert_eq!(EV_FF_STATUS as i32, input_linux_sys::EV_FF_STATUS);
    assert_eq!(MSC_SCAN as i32, input_linux_sys::MSC_SCAN);
    assert_eq!(input_decode::relative::REL_X as i32, input_linux_sys::REL_X);
    assert_eq!(input_decode::relative::REL_Y as i32, input_linux_sys::REL_Y);
    assert_eq!(input_decode::absolute::ABS_HAT0X as i32, input_linux_sys::ABS_HAT0X);
    assert_eq!(input_decode::absolute::ABS_HAT3Y as i32, input_linux_sys::ABS_HAT3Y);
    assert_eq!(input_decode::button::BTN_TL2 as i32, input_linux_sys::BTN_TL2);
    assert_eq!(input_decode::button::BTN_TR2 as i32, input_linux_sys::BTN_TR2);
    assert_eq!(input_decode::button::BTN_BASE1 as i32, input_linux_sys::BTN_BASE);
    assert_eq!(input_decode::button::BTN_TRIGGER_HAPPY1 as i32, input_linux_sys::BTN_TRIGGER_HAPPY1);
    assert_eq!(input_decode::button::BTN_TRIGGER_HAPPY40 as i32, input_linux_sys::BTN_TRIGGER_HAPPY40);
}

#[test]
fn unsigned_payload_rejects_negative() {
    let mut state = 0u8;
    let r = Event::<u64>::from_input_event(&RawReport::new(EV_ABS, 0x09, -1), &mut state);
    assert_eq!(r, Ok(None));
    let r = Event::<u64>::from_input_event(&RawReport::new(EV_ABS, 0x09, 255), &mut state);
    assert_eq!(r, Ok(Some(Event::Gas(255u64))));
    let r = Event::<u32>::from_input_event(&RawReport::new(EV_ABS, 0x0A, 7), &mut state);
    assert_eq!(r, Ok(Some(Event::Brake(7u32))));
}
