//! Decoding of raw input-device reports into typed controller events.
//!
//! A report is a `(category, code, value)` triple. Button reports become
//! digital or numbered events, relative and absolute axis reports become
//! analog events, and hat axes become press / release events of two opposing
//! directions, with one bit of per-device state for each hat axis.
pub mod absolute;
pub mod button;
pub mod decode;
pub mod event;
pub mod hat_state;
pub mod relative;
pub mod report;

pub use event::{AxisValue, Event};
pub use report::{DecodeError, RawReport};
