//! Raw reports as the host input subsystem delivers them, and the ways a
//! report can fail to decode.
use vstd::prelude::*;

verus! {

/// Synchronization markers.
pub const EV_SYN: u16 = 0x00;

/// Buttons and keys.
pub const EV_KEY: u16 = 0x01;

/// Relative axes.
pub const EV_REL: u16 = 0x02;

/// Absolute axes.
pub const EV_ABS: u16 = 0x03;

/// Miscellaneous data, such as scan codes.
pub const EV_MSC: u16 = 0x04;

/// Switches.
pub const EV_SW: u16 = 0x05;

/// LEDs.
pub const EV_LED: u16 = 0x11;

/// Sounds.
pub const EV_SND: u16 = 0x12;

/// Auto-repeat settings.
pub const EV_REP: u16 = 0x14;

/// Force feedback.
pub const EV_FF: u16 = 0x15;

/// Power button and suspend events.
pub const EV_PWR: u16 = 0x16;

/// Force feedback status.
pub const EV_FF_STATUS: u16 = 0x17;

/// The one code that miscellaneous reports are expected to carry: a scan code.
pub const MSC_SCAN: u16 = 0x04;

/// One report of an input device: a category, a code within that category,
/// and a signed value.
#[derive(Debug, Clone, Copy, PartialEq, Eq)]
pub struct RawReport {
    pub category: u16,
    pub code: u16,
    pub value: i32,
}

/// Why a report could not be decoded.
///
/// Each of these is a defect in the code tables or in the input stream; a
/// report that is merely of no interest decodes to no event instead.
#[derive(Debug, Clone, Copy, PartialEq, Eq)]
pub enum DecodeError {
    /// The category has no decoder.
    UnsupportedCategory,
    /// The category has a decoder, but the code is not in its table.
    UnsupportedCode,
    /// A category that carries one fixed code carried another.
    InvariantViolation,
}

impl RawReport {
    /// A report of the given category, code and value.
    pub fn new(category: u16, code: u16, value: i32) -> (r: RawReport)
        ensures
            r == (RawReport { category, code, value }),
    {
        RawReport { category, code, value }
    }
}

} // verus!
