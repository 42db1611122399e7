//! The button decoder: named buttons, the two analog shoulder triggers, and
//! two hardware ranges of numbered buttons merged into one index space.
use vstd::prelude::*;
use crate::event::{AxisValue, Event};
use crate::report::DecodeError;

verus! {

/// The left analog trigger, which reports an analog value.
pub const BTN_TL2: u16 = 0x138;

/// The right analog trigger, which reports an analog value.
pub const BTN_TR2: u16 = 0x139;

/// The first "base" button: numbered 1.
pub const BTN_BASE1: u16 = 0x126;

/// The last "base" button: numbered 10.
pub const BTN_BASE10: u16 = 0x12F;

/// The first "trigger happy" button: numbered 11.
pub const BTN_TRIGGER_HAPPY1: u16 = 0x2C0;

/// The last "trigger happy" button: numbered 50.
pub const BTN_TRIGGER_HAPPY40: u16 = 0x2E7;

/// The index of numbered button `code`: the base buttons are 1 to 10, the
/// trigger-happy buttons 11 to 50.
pub open spec fn button_number(code: u16) -> Option<i8> {
    if BTN_BASE1 <= code <= BTN_BASE10 {
        Some((code - BTN_BASE1 + 1) as i8)
    } else if BTN_TRIGGER_HAPPY1 <= code <= BTN_TRIGGER_HAPPY40 {
        Some((code - BTN_TRIGGER_HAPPY1 + 11) as i8)
    } else {
        None
    }
}

impl<T: AxisValue> Event<T> {
    /// The digital event of named button `code`, if it is one.
    pub open spec fn named_button(code: u16, pressed: bool) -> Option<Event<T>> {
        match code {
            0x08B => Some(Event::Context(pressed)),  // KEY_MENU
            0x09E => Some(Event::PaddleLeft(pressed)),  // KEY_BACK
            0x09F => Some(Event::PaddleRight(pressed)),  // KEY_FORWARD
            0x120 => Some(Event::Trigger(pressed)),  // BTN_TRIGGER
            0x121 => Some(Event::ActionM(pressed)),  // BTN_THUMB
            0x122 => Some(Event::Bumper(pressed)),  // BTN_THUMB2
            0x123 => Some(Event::ActionR(pressed)),  // BTN_TOP
            0x124 => Some(Event::ActionL(pressed)),  // BTN_TOP2
            0x125 => Some(Event::Pinky(pressed)),  // BTN_PINKIE
            0x130 => Some(Event::ActionA(pressed)),  // BTN_A / BTN_SOUTH
            0x131 => Some(Event::ActionB(pressed)),  // BTN_B / BTN_EAST
            0x132 => Some(Event::ActionC(pressed)),  // BTN_C
            0x133 => Some(Event::ActionV(pressed)),  // BTN_X / BTN_NORTH
            0x134 => Some(Event::ActionH(pressed)),  // BTN_Y / BTN_WEST
            0x135 => Some(Event::ActionD(pressed)),  // BTN_Z
            0x136 => Some(Event::BumperL(pressed)),  // BTN_TL
            0x137 => Some(Event::BumperR(pressed)),  // BTN_TR
            0x13A => Some(Event::MenuL(pressed)),  // BTN_SELECT
            0x13B => Some(Event::MenuR(pressed)),  // BTN_START
            0x13C => Some(Event::Exit(pressed)),  // BTN_MODE
            0x13D => Some(Event::Joy(pressed)),  // BTN_THUMBL
            0x13E => Some(Event::Cam(pressed)),  // BTN_THUMBR
            0x13F => Some(Event::PinkyRight(pressed)),  // BTN_PINKYR
            0x140 => Some(Event::PinkyLeft(pressed)),  // BTN_PINKYL
            0x220 => Some(Event::Up(pressed)),  // BTN_DPAD_UP
            0x221 => Some(Event::Down(pressed)),  // BTN_DPAD_DOWN
            0x222 => Some(Event::Left(pressed)),  // BTN_DPAD_LEFT
            0x223 => Some(Event::Right(pressed)),  // BTN_DPAD_RIGHT
            _ => None,
        }
    }

    /// The result of a button report.
    ///
    /// The button counts as pressed when `value` is nonzero. The analog
    /// triggers carry `value` through the conversion policy instead, and
    /// yield no event where it does not fit. A code that is neither named,
    /// numbered nor a trigger is unsupported.
    pub open spec fn key_outcome(code: u16, value: i32) -> Result<Option<Event<T>>, DecodeError> {
        if code == BTN_TL2 || code == BTN_TR2 {
            Ok(
                match T::spec_from_raw(value) {
                    Some(v) => Some(
                        if code == BTN_TL2 {
                            Event::TriggerL(v)
                        } else {
                            Event::TriggerR(v)
                        },
                    ),
                    None => None,
                },
            )
        } else if let Some(n) = button_number(code) {
            Ok(Some(Event::Number(n, value != 0)))
        } else {
            match Self::named_button(code, value != 0) {
                Some(e) => Ok(Some(e)),
                None => Err(DecodeError::UnsupportedCode),
            }
        }
    }

    fn from_named_button(code: u16, pressed: bool) -> (e: Option<Self>)
        ensures
            e == Self::named_button(code, pressed),
    {
        match code {
            0x08B => Some(Event::Context(pressed)),  // KEY_MENU
            0x09E => Some(Event::PaddleLeft(pressed)),  // KEY_BACK
            0x09F => Some(Event::PaddleRight(pressed)),  // KEY_FORWARD
            0x120 => Some(Event::Trigger(pressed)),  // BTN_TRIGGER
            0x121 => Some(Event::ActionM(pressed)),  // BTN_THUMB
            0x122 => Some(Event::Bumper(pressed)),  // BTN_THUMB2
            0x123 => Some(Event::ActionR(pressed)),  // BTN_TOP
            0x124 => Some(Event::ActionL(pressed)),  // BTN_TOP2
            0x125 => Some(Event::Pinky(pressed)),  // BTN_PINKIE
            0x130 => Some(Event::ActionA(pressed)),  // BTN_A / BTN_SOUTH
            0x131 => Some(Event::ActionB(pressed)),  // BTN_B / BTN_EAST
            0x132 => Some(Event::ActionC(pressed)),  // BTN_C
            0x133 => Some(Event::ActionV(pressed)),  // BTN_X / BTN_NORTH
            0x134 => Some(Event::ActionH(pressed)),  // BTN_Y / BTN_WEST
            0x135 => Some(Event::ActionD(pressed)),  // BTN_Z
            0x136 => Some(Event::BumperL(pressed)),  // BTN_TL
            0x137 => Some(Event::BumperR(pressed)),  // BTN_TR
            0x13A => Some(Event::MenuL(pressed)),  // BTN_SELECT
            0x13B => Some(Event::MenuR(pressed)),  // BTN_START
            0x13C => Some(Event::Exit(pressed)),  // BTN_MODE
            0x13D => Some(Event::Joy(pressed)),  // BTN_THUMBL
            0x13E => Some(Event::Cam(pressed)),  // BTN_THUMBR
            0x13F => Some(Event::PinkyRight(pressed)),  // BTN_PINKYR
            0x140 => Some(Event::PinkyLeft(pressed)),  // BTN_PINKYL
            0x220 => Some(Event::Up(pressed)),  // BTN_DPAD_UP
            0x221 => Some(Event::Down(pressed)),  // BTN_DPAD_DOWN
            0x222 => Some(Event::Left(pressed)),  // BTN_DPAD_LEFT
            0x223 => Some(Event::Right(pressed)),  // BTN_DPAD_RIGHT
            _ => None,
        }
    }

    /// Decodes a button report with code `key` and value `value`.
    pub(crate) fn from_key_event(key: u16, value: i32) -> (r: Result<Option<Self>, DecodeError>)
        ensures
            r == Self::key_outcome(key, value),
    {
        let pushed = value != 0;
        if key == BTN_TL2 || key == BTN_TR2 {
            match T::from_raw(value) {
                Some(v) => Ok(
                    Some(
                        if key == BTN_TL2 {
                            Event::TriggerL(v)
                        } else {
                            Event::TriggerR(v)
                        },
                    ),
                ),
                None => Ok(None),
            }
        } else if BTN_BASE1 <= key && key <= BTN_BASE10 {
            Ok(Some(Event::Number((key - BTN_BASE1 + 1) as i8, pushed)))
        } else if BTN_TRIGGER_HAPPY1 <= key && key <= BTN_TRIGGER_HAPPY40 {
            Ok(Some(Event::Number((key - BTN_TRIGGER_HAPPY1 + 11) as i8, pushed)))
        } else {
            match Self::from_named_button(key, pushed) {
                Some(e) => Ok(Some(e)),
                None => Err(DecodeError::UnsupportedCode),
            }
        }
    }
}

} // verus!

verus! {

/// The code of numbered button `n`, for `n` from 1 to 50.
pub open spec fn number_code(n: i8) -> u16
    recommends
        1 <= n <= 50,
{
    if n <= 10 {
        (BTN_BASE1 + n - 1) as u16
    } else {
        (BTN_TRIGGER_HAPPY1 + n - 11) as u16
    }
}

impl<T: AxisValue> Event<T> {
    /// The digital event of button `code` in the given pressed state, if the
    /// code is a named or a numbered button.
    pub open spec fn digital_button(code: u16, pressed: bool) -> Option<Event<T>> {
        match button_number(code) {
            Some(n) => Some(Event::Number(n, pressed)),
            None => Self::named_button(code, pressed),
        }
    }
}

/// Every named or numbered button decodes to one fixed event for that code:
/// pressed for any nonzero value, released for zero.
pub proof fn lemma_button_press_release<T: AxisValue>(code: u16, value: i32)
    requires
        Event::<T>::digital_button(code, true) is Some,
    ensures
        Event::<T>::key_outcome(code, value) == Ok::<Option<Event<T>>, DecodeError>(
            Event::<T>::digital_button(code, value != 0),
        ),
        Event::<T>::digital_button(code, true).unwrap().pressed_state() == Some(true),
        Event::<T>::digital_button(code, false).unwrap().pressed_state() == Some(false),
{
}

/// The two numbered ranges: the base buttons take the indices 1 to 10 in
/// order, the trigger-happy buttons 11 to 50, and every index from 1 to 50
/// belongs to exactly one code, `number_code` of it.
pub proof fn lemma_button_numbers()
    ensures
        forall|c: u16|
            BTN_BASE1 <= c <= BTN_BASE10 ==> #[trigger] button_number(c) == Some(
                (c - BTN_BASE1 + 1) as i8,
            ),
        forall|c: u16|
            BTN_TRIGGER_HAPPY1 <= c <= BTN_TRIGGER_HAPPY40 ==> #[trigger] button_number(c) == Some(
                (c - BTN_TRIGGER_HAPPY1 + 11) as i8,
            ),
        forall|c: u16|
            #[trigger] button_number(c) matches Some(n) ==> 1 <= n <= 50 && (n <= 10 <==> c
                <= BTN_BASE10),
        forall|c1: u16, c2: u16|
            #[trigger] button_number(c1) is Some && button_number(c1) == #[trigger] button_number(
                c2,
            ) ==> c1 == c2,
        forall|n: i8| 1 <= n <= 50 ==> button_number(#[trigger] number_code(n)) == Some(n),
{
}

} // verus!
