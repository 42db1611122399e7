//! The report dispatcher: routes a raw report to the decoder of its category.
use vstd::prelude::*;
use crate::absolute::{ABS_HAT0X, ABS_HAT3Y};
use crate::button::{BTN_TL2, BTN_TR2};
use crate::event::{AxisValue, Event};
use crate::hat_state::{held, lemma_with_held, lemma_without_held, HAT_AXES};
use crate::relative::{REL_X, REL_Y};
use crate::report::{
    DecodeError, RawReport, EV_ABS, EV_FF, EV_FF_STATUS, EV_KEY, EV_MSC, EV_REL, EV_SYN, MSC_SCAN,
};

verus! {

/// Whether reports of `category` carry nothing of interest and are skipped:
/// synchronization markers and force feedback.
pub open spec fn is_ignored_category(category: u16) -> bool {
    category == EV_SYN || category == EV_FF || category == EV_FF_STATUS
}

/// Whether reports of `category` are decoded into events by a table of codes.
pub open spec fn is_decoded_category(category: u16) -> bool {
    category == EV_KEY || category == EV_REL || category == EV_ABS
}

impl<T: AxisValue> Event<T> {
    /// Whether `code` is in the table of `category`, one of the categories
    /// decoded by a table.
    pub open spec fn is_known_code(category: u16, code: u16) -> bool
        recommends
            is_decoded_category(category),
    {
        if category == EV_KEY {
            code == BTN_TL2 || code == BTN_TR2 || Self::digital_button(code, true) is Some
        } else if category == EV_REL {
            code == REL_X || code == REL_Y
        } else {
            code <= ABS_HAT3Y
        }
    }

    /// The result and next decode state for `report` decoded in `state`.
    pub open spec fn decode(report: RawReport, state: u8) -> (
        Result<Option<Event<T>>, DecodeError>,
        u8,
    ) {
        let code = report.code;
        let value = report.value;
        if report.category == EV_ABS {
            Self::abs_outcome(code, value, state)
        } else if report.category == EV_KEY {
            (Self::key_outcome(code, value), state)
        } else if report.category == EV_REL {
            (Self::rel_outcome(code, value), state)
        } else if is_ignored_category(report.category) {
            (Ok(None), state)
        } else if report.category == EV_MSC {
            (
                if code == MSC_SCAN {
                    Ok(None)
                } else {
                    Err(DecodeError::InvariantViolation)
                },
                state,
            )
        } else {
            (Err(DecodeError::UnsupportedCategory), state)
        }
    }

    /// Decodes one report of a device whose decode state is `state`.
    ///
    /// Returns the event the report stands for, `Ok(None)` for a report that
    /// carries none (an ignored category, a scan code, or an axis or trigger
    /// value that the payload type cannot hold), or the reason it cannot be
    /// decoded. Only hat-axis reports whose value the payload type can hold
    /// change `state`.
    pub fn from_input_event(input_event: &RawReport, state: &mut u8) -> (r: Result<
        Option<Self>,
        DecodeError,
    >)
        ensures
            (r, *final(state)) == Self::decode(*input_event, *old(state)),
            input_event.category != EV_ABS ==> *final(state) == *old(state),
            input_event.category == EV_ABS && input_event.code <= ABS_HAT3Y
                && T::spec_from_raw(input_event.value) is None ==> r == Ok::<
                Option<Self>,
                DecodeError,
            >(None) && *final(state) == *old(state),
            is_ignored_category(input_event.category) ==> r == Ok::<Option<Self>, DecodeError>(
                None,
            ),
            r == Err::<Option<Self>, DecodeError>(DecodeError::UnsupportedCode)
                ==> is_decoded_category(input_event.category),
            is_decoded_category(input_event.category) ==> (r == Err::<Option<Self>, DecodeError>(
                DecodeError::UnsupportedCode,
            ) <==> !Self::is_known_code(input_event.category, input_event.code)),
            is_decoded_category(input_event.category) && Self::is_known_code(
                input_event.category,
                input_event.code,
            ) ==> r.is_ok(),
    {
        let code = input_event.code;
        let value = input_event.value;
        match input_event.category {
            EV_ABS => Self::from_abs_event(code, value, state),
            EV_KEY => Self::from_key_event(code, value),
            EV_REL => Self::from_rel_event(code, value),
            EV_SYN | EV_FF | EV_FF_STATUS => Ok(None),
            EV_MSC => {
                if code != MSC_SCAN {
                    Err(DecodeError::InvariantViolation)
                } else {
                    Ok(None)
                }
            },
            _ => Err(DecodeError::UnsupportedCategory),
        }
    }
}

/// The results of decoding `reports` in order from `state`, and the state
/// after the last of them.
pub open spec fn replay<T: AxisValue>(reports: Seq<RawReport>, state: u8) -> (
    Seq<Result<Option<Event<T>>, DecodeError>>,
    u8,
)
    decreases reports.len(),
{
    if reports.len() == 0 {
        (Seq::empty(), state)
    } else {
        let (first, next) = Event::<T>::decode(reports[0], state);
        let (rest, last) = replay::<T>(reports.drop_first(), next);
        (seq![first].add(rest), last)
    }
}

/// A report of hat axis `axis` reading `value`.
pub open spec fn hat_report(axis: u8, value: i32) -> RawReport {
    RawReport { category: EV_ABS, code: (ABS_HAT0X + axis) as u16, value }
}

/// The event that a hat report yields.
pub open spec fn hat_result<T: AxisValue>(axis: u8, positive: bool, pressed: bool) -> Result<
    Option<Event<T>>,
    DecodeError,
> {
    Ok(Some(Event::<T>::hat_event(axis, positive, pressed)))
}

/// Two decode states that start out equal, such as two fresh states of two
/// devices, give the same results and end equal when fed the same reports.
pub proof fn lemma_states_independent<T: AxisValue>(reports: Seq<RawReport>, a: u8, b: u8)
    requires
        a == b,
    ensures
        replay::<T>(reports, a) == replay::<T>(reports, b),
{
}

/// A hat axis pushed to its positive side and back to the centre presses and
/// then releases its positive direction, whatever the state before, when the
/// payload type can hold both readings.
pub proof fn lemma_hat_positive_round_trip<T: AxisValue>(axis: u8, value: i32, state: u8)
    requires
        axis < HAT_AXES,
        value > 0,
        T::spec_from_raw(value) is Some,
        T::spec_from_raw(0) is Some,
    ensures
        replay::<T>(seq![hat_report(axis, value), hat_report(axis, 0)], state).0 == seq![
            hat_result::<T>(axis, true, true),
            hat_result::<T>(axis, true, false),
        ],
{
    lemma_with_held(state, axis, axis);
    reveal_with_fuel(replay, 3);
    let s = seq![hat_report(axis, value), hat_report(axis, 0)];
    assert(s.drop_first().drop_first() =~= Seq::empty());
    assert(s.drop_first() =~= seq![hat_report(axis, 0)]);
    assert(replay::<T>(s, state).0 =~= seq![
        hat_result::<T>(axis, true, true),
        hat_result::<T>(axis, true, false),
    ]);
}

/// A hat axis pushed to its negative side and back to the centre presses and
/// then releases its negative direction, when its hold bit was clear before
/// (as in a fresh state, or after the axis was last centred) and the payload
/// type can hold both readings.
pub proof fn lemma_hat_negative_round_trip<T: AxisValue>(axis: u8, value: i32, state: u8)
    requires
        axis < HAT_AXES,
        value < 0,
        !held(state, axis),
        T::spec_from_raw(value) is Some,
        T::spec_from_raw(0) is Some,
    ensures
        replay::<T>(seq![hat_report(axis, value), hat_report(axis, 0)], state).0 == seq![
            hat_result::<T>(axis, false, true),
            hat_result::<T>(axis, false, false),
        ],
{
    reveal_with_fuel(replay, 3);
    let s = seq![hat_report(axis, value), hat_report(axis, 0)];
    assert(s.drop_first().drop_first() =~= Seq::empty());
    assert(s.drop_first() =~= seq![hat_report(axis, 0)]);
    assert(replay::<T>(s, state).0 =~= seq![
        hat_result::<T>(axis, false, true),
        hat_result::<T>(axis, false, false),
    ]);
}

/// A hat axis that goes from its positive side straight to its negative side
/// and then to the centre reports the release of the positive direction: a
/// negative reading neither reads nor clears the hold bit that the positive
/// reading set. The payload type is one that can hold all three readings.
pub proof fn lemma_hat_reversal_releases_positive<T: AxisValue>(
    axis: u8,
    up: i32,
    down: i32,
    state: u8,
)
    requires
        axis < HAT_AXES,
        up > 0,
        down < 0,
        T::spec_from_raw(up) is Some,
        T::spec_from_raw(down) is Some,
        T::spec_from_raw(0) is Some,
    ensures
        replay::<T>(
            seq![hat_report(axis, up), hat_report(axis, down), hat_report(axis, 0)],
            state,
        ).0 == seq![
            hat_result::<T>(axis, true, true),
            hat_result::<T>(axis, false, true),
            hat_result::<T>(axis, true, false),
        ],
{
    lemma_with_held(state, axis, axis);
    reveal_with_fuel(replay, 4);
    let s = seq![hat_report(axis, up), hat_report(axis, down), hat_report(axis, 0)];
    assert(s.drop_first().drop_first().drop_first() =~= Seq::empty());
    assert(s.drop_first().drop_first() =~= seq![hat_report(axis, 0)]);
    assert(s.drop_first() =~= seq![hat_report(axis, down), hat_report(axis, 0)]);
    assert(replay::<T>(s, state).0 =~= seq![
        hat_result::<T>(axis, true, true),
        hat_result::<T>(axis, false, true),
        hat_result::<T>(axis, true, false),
    ]);
}

/// Two centre readings in a row on a hat axis: the first releases the
/// direction that the hold bit records, the second finds the bit clear and
/// releases the negative direction, and leaves the state as the first left it,
/// when the payload type can hold a zero.
pub proof fn lemma_hat_centre_twice<T: AxisValue>(axis: u8, state: u8)
    requires
        axis < HAT_AXES,
        T::spec_from_raw(0) is Some,
    ensures
        ({
            let first = Event::<T>::decode(hat_report(axis, 0), state);
            let second = Event::<T>::decode(hat_report(axis, 0), first.1);
            &&& first.0 == hat_result::<T>(axis, held(state, axis), false)
            &&& second.0 == hat_result::<T>(axis, false, false)
            &&& second.1 == first.1
        }),
{
    lemma_without_held(state, axis, axis);
}

/// Decoding a report changes no hold bit but, for a hat report, that of its
/// own axis.
pub proof fn lemma_other_axes_kept<T: AxisValue>(report: RawReport, state: u8, other: u8)
    requires
        other < HAT_AXES,
        !(report.category == EV_ABS && report.code == ABS_HAT0X + other),
    ensures
        held(Event::<T>::decode(report, state).1, other) == held(state, other),
{
    if report.category == EV_ABS && ABS_HAT0X <= report.code <= ABS_HAT3Y {
        let axis = (report.code - ABS_HAT0X) as u8;
        lemma_with_held(state, axis, other);
        lemma_without_held(state, axis, other);
    }
}

} // verus!
