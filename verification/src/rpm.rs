//! Engine speed: from pulse counts to a speed, and from the speed to the
//! events that tell the state machine when the engine is fast enough.

use vstd::prelude::*;
use crate::control::{RPM_SPAN, RPM_STEP};
use crate::shared::{ProcessData, RpmEvent, RPM_MIN};
use crate::units::UNIT;
use crate::zc::{above_after, detect_zero_crossing_with_hysteresis};

verus! {

/// Length of one counting interval in milliseconds.
pub const RPM_LOOP_TIME_MS: u64 = 100;

/// Pole pairs of the alternator; each gives two pulses per revolution.
pub const POLE_PAIRS: i64 = 6;

/// Diameter of the alternator's pulley, in tenths of a millimetre.
pub const PULLEY_ALTERNATOR: i64 = 537;

/// Diameter of the engine's pulley, in tenths of a millimetre.
pub const PULLEY_ENGINE: i64 = 1282;

/// Engine speed below which the alternator cannot charge, in fixed-point rpm.
pub const LOW_RPM_THRESHOLD: i64 = 500_000_000;

/// Dead-band around [`LOW_RPM_THRESHOLD`] as a fixed-point fraction.
pub const RPM_HYSTERESIS: i64 = 50_000;

/// Engine speed in fixed-point rpm for a number of pulses counted in one
/// interval, rounded towards zero: pulses per minute, divided by the pulses
/// per revolution of the alternator, times the ratio of the pulleys.
pub open spec fn rpm_of_pulses(pulse_count: int) -> int {
    let per_pulse = 60_000 * PULLEY_ALTERNATOR * UNIT;
    let divisor = RPM_LOOP_TIME_MS * POLE_PAIRS * 2 * PULLEY_ENGINE;
    if pulse_count >= 0 {
        pulse_count * per_pulse / divisor
    } else {
        -((-pulse_count) * per_pulse / divisor)
    }
}

/// The event to send after a sample, if any: `Normal` when the speed has
/// risen above the band, `Low` when it has fallen below.
pub open spec fn crossing_event(was_above: bool, is_above: bool) -> Option<RpmEvent> {
    if is_above == was_above {
        None
    } else if is_above {
        Some(RpmEvent::Normal)
    } else {
        Some(RpmEvent::Low)
    }
}

/// Turns the pulses counted in one interval into the engine speed, stores
/// the speed in the telemetry and returns it.
pub fn read_rpm(pulse_count: i16, process_data: &mut ProcessData) -> (rpm: i64)
    ensures
        rpm == rpm_of_pulses(pulse_count as int),
        *final(process_data) == (ProcessData { rpm: Some(rpm), ..*old(process_data) }),
{
    let per_pulse: i64 = 32_220_000_000_000;
    let divisor: i64 = 1_538_400;
    assert(per_pulse == 60_000 * PULLEY_ALTERNATOR * UNIT);
    assert(divisor == RPM_LOOP_TIME_MS * POLE_PAIRS * 2 * PULLEY_ENGINE);
    let rpm: i64 = if pulse_count >= 0 {
        (pulse_count as i64) * per_pulse / divisor
    } else {
        -((-(pulse_count as i64)) * per_pulse / divisor)
    };
    process_data.rpm = Some(rpm);
    rpm
}

impl ProcessData {
    /// The engine speed was sampled and lies above the low speed threshold.
    pub open spec fn rpm_normal(&self) -> bool {
        self.rpm matches Some(rpm) && rpm > LOW_RPM_THRESHOLD
    }

    /// Whether the engine is fast enough to charge.
    pub fn rpm_is_normal(&self) -> (normal: bool)
        ensures
            normal == self.rpm_normal(),
    {
        match self.rpm {
            Some(rpm) => rpm > LOW_RPM_THRESHOLD,
            None => false,
        }
    }
}

/// Watches the engine speed and reports when it crosses the low speed
/// threshold.
#[derive(Copy, Clone, Debug, PartialEq, Eq, Structural)]
pub struct RpmMonitor {
    /// The speed was above the band when it last left it.
    pub above: bool,
}

impl RpmMonitor {
    /// A monitor that takes the engine to be slow until a sample shows
    /// otherwise.
    pub fn new() -> (monitor: RpmMonitor)
        ensures
            !monitor.above,
    {
        RpmMonitor { above: false }
    }

    /// Takes one speed sample and returns the event to send, if the speed
    /// has crossed the band.
    pub fn sample(&mut self, rpm: i64) -> (event: Option<RpmEvent>)
        ensures
            final(self).above == above_after(
                rpm as int,
                LOW_RPM_THRESHOLD as int,
                RPM_HYSTERESIS as int,
                old(self).above,
            ),
            event == crossing_event(old(self).above, final(self).above),
    {
        let (above, crossed): (bool, bool) = detect_zero_crossing_with_hysteresis(
            rpm,
            LOW_RPM_THRESHOLD,
            RPM_HYSTERESIS,
            self.above,
        );
        self.above = above;
        if !crossed {
            None
        } else if above {
            Some(RpmEvent::Normal)
        } else {
            Some(RpmEvent::Low)
        }
    }
}

/// The fixed-point constants are the whole-number constants times [`UNIT`]:
/// the low speed threshold is the speed table's lowest speed, and the width
/// of a bucket is the table's step.
pub proof fn lemma_fixed_point_constants_agree()
    ensures
        LOW_RPM_THRESHOLD == RPM_MIN * UNIT,
        RPM_SPAN == RPM_STEP * UNIT,
{
}

/// The monitor's events alternate: of two events in a row, whatever lies
/// between them, one is `Normal` and the other `Low`, and the first event of
/// a new monitor is `Normal`.
pub proof fn lemma_crossing_events_alternate(a: bool, b: bool, c: bool)
    ensures
        crossing_event(a, b) is Some && crossing_event(b, c) is Some ==> crossing_event(a, b)
            != crossing_event(b, c),
        crossing_event(b, b) is None,
        crossing_event(false, c) is Some ==> crossing_event(false, c) == Some(RpmEvent::Normal),
{
}

} // verus!
