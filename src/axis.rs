//! Scroll events: how each axis of a raw scroll event becomes part of one
//! outgoing scroll frame.
use crate::geometry::SUBPIXELS;
use vstd::prelude::*;

verus! {

/// The kind of device a scroll event came from.
#[derive(Clone, Copy, Debug, PartialEq, Eq, Structural)]
pub enum AxisSource {
    /// A finger on a touchpad: a scroll sequence ends with an amount of zero.
    Finger,
    Continuous,
    Wheel,
    WheelTilt,
}

/// What a scroll frame says of one axis.
#[derive(Clone, Copy, Debug, PartialEq, Eq, Structural)]
pub enum AxisOutcome {
    /// Nothing.
    Silent,
    /// Scroll by `amount` sub-pixel steps, with the wheel movement in
    /// 1/120 of a click when the device reported one.
    Value { amount: i64, discrete: Option<i32> },
    /// The scroll sequence on this axis has ended.
    Stop,
}

/// One scroll frame, delivered as a whole.
#[derive(Clone, Copy, Debug, PartialEq, Eq, Structural)]
pub struct AxisFrame {
    pub source: AxisSource,
    pub time: u32,
    pub horizontal: AxisOutcome,
    pub vertical: AxisOutcome,
}

/// Sub-pixel steps scrolled per 1/120 of a wheel click when a device
/// reports clicks alone: a whole click scrolls three pixels, that is
/// `3 * SUBPIXELS` steps over 120 units.
pub const V120_DISTANCE: i64 = 3;

/// A whole click scrolls three pixels.
pub proof fn lemma_click_is_three_pixels()
    ensures
        120 * V120_DISTANCE == 3 * SUBPIXELS,
{
}

/// The amount scrolled on one axis: the continuous amount if there is one,
/// else three pixels for each wheel click (`discrete` counts 1/120 of a
/// click), else nothing.
pub open spec fn scroll_amount(amount: Option<i64>, discrete: Option<i32>) -> int {
    match amount {
        Some(a) => a as int,
        None => match discrete {
            Some(d) => d * V120_DISTANCE,
            None => 0,
        },
    }
}

/// What the frame says of one axis: a nonzero amount is sent with its
/// clicks; a zero amount from a finger ends the sequence; any other zero
/// amount says nothing.
pub open spec fn axis_outcome_spec(
    amount: Option<i64>,
    discrete: Option<i32>,
    source: AxisSource,
) -> AxisOutcome {
    let v = scroll_amount(amount, discrete);
    if v != 0 {
        AxisOutcome::Value { amount: v as i64, discrete }
    } else if source == AxisSource::Finger {
        AxisOutcome::Stop
    } else {
        AxisOutcome::Silent
    }
}

/// Decides what the scroll frame says of one axis.
pub fn axis_outcome(amount: Option<i64>, discrete: Option<i32>, source: AxisSource) -> (r:
    AxisOutcome)
    ensures
        r == axis_outcome_spec(amount, discrete, source),
        r matches AxisOutcome::Value { amount: a, .. } ==> a == scroll_amount(amount, discrete),
{
    let value: i64 = match amount {
        Some(a) => a,
        None => match discrete {
            Some(d) => d as i64 * V120_DISTANCE,
            None => 0,
        },
    };
    if value != 0 {
        AxisOutcome::Value { amount: value, discrete }
    } else if source == AxisSource::Finger {
        AxisOutcome::Stop
    } else {
        AxisOutcome::Silent
    }
}

/// Builds the frame for a scroll event; each axis is decided on its own.
pub fn axis_frame(
    source: AxisSource,
    time: u32,
    horizontal: Option<i64>,
    horizontal_discrete: Option<i32>,
    vertical: Option<i64>,
    vertical_discrete: Option<i32>,
) -> (r: AxisFrame)
    ensures
        r.source == source,
        r.time == time,
        r.horizontal == axis_outcome_spec(horizontal, horizontal_discrete, source),
        r.vertical == axis_outcome_spec(vertical, vertical_discrete, source),
{
    AxisFrame {
        source,
        time,
        horizontal: axis_outcome(horizontal, horizontal_discrete, source),
        vertical: axis_outcome(vertical, vertical_discrete, source),
    }
}

/// A scroll of zero on one axis says nothing of that axis from a device
/// other than a finger, and ends the sequence on that axis alone from a
/// finger.
pub proof fn lemma_zero_scroll(
    source: AxisSource,
    amount: Option<i64>,
    discrete: Option<i32>,
    other_amount: Option<i64>,
    other_discrete: Option<i32>,
)
    requires
        scroll_amount(amount, discrete) == 0,
        scroll_amount(other_amount, other_discrete) != 0,
    ensures
        source != AxisSource::Finger ==> axis_outcome_spec(amount, discrete, source)
            == AxisOutcome::Silent,
        source == AxisSource::Finger ==> axis_outcome_spec(amount, discrete, source)
            == AxisOutcome::Stop,
        axis_outcome_spec(other_amount, other_discrete, source) is Value,
{
}

} // verus!
