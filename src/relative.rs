//! The relative-axis decoder: mouse motion deltas.
use vstd::prelude::*;
use crate::event::{AxisValue, Event};
use crate::report::DecodeError;

verus! {

/// Horizontal mouse motion.
pub const REL_X: u16 = 0x00;

/// Vertical mouse motion.
pub const REL_Y: u16 = 0x01;

impl<T: AxisValue> Event<T> {
    /// The result of a relative-axis report.
    ///
    /// The two mouse axes carry `value` through the conversion policy and
    /// yield no event where it does not fit; every other relative axis is
    /// unsupported.
    pub open spec fn rel_outcome(code: u16, value: i32) -> Result<Option<Event<T>>, DecodeError> {
        if code == REL_X || code == REL_Y {
            Ok(
                match T::spec_from_raw(value) {
                    Some(v) => Some(
                        if code == REL_X {
                            Event::MouseX(v)
                        } else {
                            Event::MouseY(v)
                        },
                    ),
                    None => None,
                },
            )
        } else {
            Err(DecodeError::UnsupportedCode)
        }
    }

    /// Decodes a relative-axis report with code `axis` and value `value`.
    pub(crate) fn from_rel_event(axis: u16, value: i32) -> (r: Result<Option<Self>, DecodeError>)
        ensures
            r == Self::rel_outcome(axis, value),
    {
        if axis != REL_X && axis != REL_Y {
            return Err(DecodeError::UnsupportedCode);
        }
        match T::from_raw(value) {
            Some(v) => Ok(
                Some(
                    if axis == REL_X {
                        Event::MouseX(v)
                    } else {
                        Event::MouseY(v)
                    },
                ),
            ),
            None => Ok(None),
        }
    }
}

} // verus!
