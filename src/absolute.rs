//! The absolute-axis decoder: continuous axes, and hat axes that report
//! one of two opposing directions by the sign of their value.
use vstd::prelude::*;
use crate::event::{AxisValue, Event};
use crate::hat_state::{
    apply_bitmask_eq, apply_bitmask_greater, held, with_held, without_held, HAT_AXES,
};
use crate::report::DecodeError;

verus! {

/// The last code of the continuous absolute axes.
pub const ABS_LAST_AXIS: u16 = 0x0F;

/// The code of the first hat axis; hat axis `i` has code `ABS_HAT0X + i`.
pub const ABS_HAT0X: u16 = 0x10;

/// The code of the last hat axis.
pub const ABS_HAT3Y: u16 = 0x17;

impl<T: AxisValue> Event<T> {
    /// The event of continuous absolute axis `code` (at most `ABS_LAST_AXIS`)
    /// carrying `v`.
    pub open spec fn axis_event(code: u16, v: T) -> Event<T>
        recommends
            code <= ABS_LAST_AXIS,
    {
        match code {
            0x00 => Event::JoyX(v),
            0x01 => Event::JoyY(v),
            0x02 => Event::JoyZ(v),
            0x03 => Event::CamX(v),
            0x04 => Event::CamY(v),
            0x05 => Event::CamZ(v),
            0x06 => Event::Throttle(v),
            0x07 => Event::Rudder(v),
            0x08 => Event::Wheel(v),
            0x09 => Event::Gas(v),
            0x0A => Event::Brake(v),
            0x0B => Event::Slew(v),
            0x0C => Event::ThrottleL(v),
            0x0D => Event::ThrottleR(v),
            0x0E => Event::ScrollX(v),
            _ => Event::ScrollY(v),
        }
    }

    /// The event of one direction of hat axis `axis` (below `HAT_AXES`).
    ///
    /// Axes come in horizontal / vertical pairs: main hat, extra hat, trim
    /// hat, mic hat. A positive reading means right or down.
    pub open spec fn hat_event(axis: u8, positive: bool, pressed: bool) -> Event<T>
        recommends
            axis < HAT_AXES,
    {
        match axis {
            0 => if positive { Event::PovRight(pressed) } else { Event::PovLeft(pressed) },
            1 => if positive { Event::PovDown(pressed) } else { Event::PovUp(pressed) },
            2 => if positive { Event::HatRight(pressed) } else { Event::HatLeft(pressed) },
            3 => if positive { Event::HatDown(pressed) } else { Event::HatUp(pressed) },
            4 => if positive { Event::TrimRight(pressed) } else { Event::TrimLeft(pressed) },
            5 => if positive { Event::TrimDown(pressed) } else { Event::TrimUp(pressed) },
            6 => if positive { Event::MicRight(pressed) } else { Event::MicLeft(pressed) },
            _ => if positive { Event::MicDown(pressed) } else { Event::MicUp(pressed) },
        }
    }

    /// The event and next state for a reading of `value` on hat axis `axis`.
    ///
    /// A positive reading presses the positive direction and sets the
    /// axis's hold bit; a negative one presses the negative direction and
    /// leaves the bit as it was; zero clears the bit and releases the
    /// positive direction if the bit was set, the negative one otherwise.
    pub open spec fn hat_outcome(axis: u8, value: i32, state: u8) -> (Event<T>, u8) {
        if value > 0 {
            (Self::hat_event(axis, true, true), with_held(state, axis))
        } else if value < 0 {
            (Self::hat_event(axis, false, true), state)
        } else {
            (Self::hat_event(axis, held(state, axis), false), without_held(state, axis))
        }
    }

    /// The result and next state for an absolute-axis report.
    ///
    /// Every value passes through the conversion policy first: where the
    /// payload type cannot hold it, the report yields no event and the state
    /// is left as it was. Otherwise a continuous axis yields its analog event
    /// and a hat axis the event of its direction, updating its hold bit. Any
    /// other code is unsupported, whatever the value.
    pub open spec fn abs_outcome(code: u16, value: i32, state: u8) -> (
        Result<Option<Event<T>>, DecodeError>,
        u8,
    ) {
        if code <= ABS_LAST_AXIS {
            (
                Ok(
                    match T::spec_from_raw(value) {
                        Some(v) => Some(Self::axis_event(code, v)),
                        None => None,
                    },
                ),
                state,
            )
        } else if code <= ABS_HAT3Y {
            match T::spec_from_raw(value) {
                Some(_) => {
                    let (e, next) = Self::hat_outcome((code - ABS_HAT0X) as u8, value, state);
                    (Ok(Some(e)), next)
                },
                None => (Ok(None), state),
            }
        } else {
            (Err(DecodeError::UnsupportedCode), state)
        }
    }

    fn from_axis(code: u16, v: T) -> (e: Self)
        requires
            code <= ABS_LAST_AXIS,
        ensures
            e == Self::axis_event(code, v),
    {
        match code {
            0x00 => Event::JoyX(v),
            0x01 => Event::JoyY(v),
            0x02 => Event::JoyZ(v),
            0x03 => Event::CamX(v),
            0x04 => Event::CamY(v),
            0x05 => Event::CamZ(v),
            0x06 => Event::Throttle(v),
            0x07 => Event::Rudder(v),
            0x08 => Event::Wheel(v),
            0x09 => Event::Gas(v),
            0x0A => Event::Brake(v),
            0x0B => Event::Slew(v),
            0x0C => Event::ThrottleL(v),
            0x0D => Event::ThrottleR(v),
            0x0E => Event::ScrollX(v),
            _ => Event::ScrollY(v),
        }
    }

    fn from_hat(axis: u8, positive: bool, pressed: bool) -> (e: Self)
        requires
            axis < HAT_AXES,
        ensures
            e == Self::hat_event(axis, positive, pressed),
    {
        match axis {
            0 => if positive { Event::PovRight(pressed) } else { Event::PovLeft(pressed) },
            1 => if positive { Event::PovDown(pressed) } else { Event::PovUp(pressed) },
            2 => if positive { Event::HatRight(pressed) } else { Event::HatLeft(pressed) },
            3 => if positive { Event::HatDown(pressed) } else { Event::HatUp(pressed) },
            4 => if positive { Event::TrimRight(pressed) } else { Event::TrimLeft(pressed) },
            5 => if positive { Event::TrimDown(pressed) } else { Event::TrimUp(pressed) },
            6 => if positive { Event::MicRight(pressed) } else { Event::MicLeft(pressed) },
            _ => if positive { Event::MicDown(pressed) } else { Event::MicUp(pressed) },
        }
    }

    /// Decodes a reading of hat axis `axis`, updating its hold bit.
    fn from_hat_event(axis: u8, value: i32, state: &mut u8) -> (e: Self)
        requires
            axis < HAT_AXES,
        ensures
            (e, *final(state)) == Self::hat_outcome(axis, value, *old(state)),
    {
        if value > 0 {
            apply_bitmask_greater(state, axis);
            Self::from_hat(axis, true, true)
        } else if value < 0 {
            Self::from_hat(axis, false, true)
        } else {
            let was_held = apply_bitmask_eq(state, axis);
            Self::from_hat(axis, was_held, false)
        }
    }

    /// Decodes an absolute-axis report with code `code` and value `value`.
    pub(crate) fn from_abs_event(code: u16, value: i32, state: &mut u8) -> (r: Result<
        Option<Self>,
        DecodeError,
    >)
        ensures
            (r, *final(state)) == Self::abs_outcome(code, value, *old(state)),
    {
        if code <= ABS_LAST_AXIS {
            match T::from_raw(value) {
                Some(v) => Ok(Some(Self::from_axis(code, v))),
                None => Ok(None),
            }
        } else if code <= ABS_HAT3Y {
            match T::from_raw(value) {
                Some(_) => Ok(Some(Self::from_hat_event((code - ABS_HAT0X) as u8, value, state))),
                None => Ok(None),
            }
        } else {
            Err(DecodeError::UnsupportedCode)
        }
    }
}

} // verus!
