//! The controller: regulation parameters and the setpoint computed from them.
//!
//! The state machine switches the controller between its modes; a periodic
//! tick turns the parameters and the current engine speed into the field
//! current limit.

use vstd::prelude::*;
use crate::shared::{
    PpsSetMode, ProcessData, Setpoint, MAX_FIELD_CURRENT, MAX_FIELD_VOLTAGE, RPM_MAX, RPM_MIN,
};
use crate::arith::{lemma_product_bound, lemma_product_is_not_negative, lemma_share_is_bounded};
use crate::units::{as_int, clamp, UNIT};

verus! {

/// Width of one bucket of the speed table, in rpm.
pub const RPM_STEP: usize = 100;

/// Number of entries of the speed table.
pub const RPM_ARRAY_SIZE: usize = (RPM_MAX - RPM_MIN) / RPM_STEP;

/// Width of one bucket of the speed table, [`RPM_STEP`], in fixed-point rpm.
pub const RPM_SPAN: i64 = 100_000_000;

/// Field current that flows whenever the regulator is not off, so that the
/// alternator gives a signal from which the engine speed can be measured.
pub const IDLE_FIELD_CURRENT: i64 = 1_000_000;

/// Change of the target factor for one short press of a button.
pub const TARGET_STEP: i64 = 50_000;

/// Time between two control ticks in milliseconds.
pub const LOOP_INTERVAL_MS: u64 = 100;

/// Entry `i` of the speed table: the factor 1 at the lowest speed, reduced
/// from bucket to bucket by the share that one bucket has of the lowest
/// speed. The faster the alternator turns, the less field it needs for the
/// same current.
pub open spec fn rpm_factor_entry(i: nat) -> int
    decreases i,
{
    if i == 0 {
        UNIT as int
    } else {
        rpm_factor_entry((i - 1) as nat) * (RPM_MIN - RPM_STEP) / (RPM_MIN as int)
    }
}

/// Distance of `rpm` from the table's first entry, held inside the table.
pub open spec fn rpm_offset(rpm: int) -> int {
    clamp(rpm - RPM_MIN * UNIT, 0, (RPM_ARRAY_SIZE - 1) * RPM_SPAN)
}

/// The bucket whose two ends are interpolated for `rpm`.
pub open spec fn rpm_bucket(rpm: int) -> int {
    let bucket = rpm_offset(rpm) / (RPM_SPAN as int);
    if bucket < RPM_ARRAY_SIZE - 2 {
        bucket
    } else {
        RPM_ARRAY_SIZE - 2
    }
}

/// The speed factor for `rpm`: the table's entries, joined by straight lines
/// and continued flat beyond both ends.
pub open spec fn rpm_factor(rpm: int) -> int {
    let bucket = rpm_bucket(rpm);
    let part = rpm_offset(rpm) - bucket * RPM_SPAN;
    let f0 = rpm_factor_entry(bucket as nat);
    let f1 = rpm_factor_entry((bucket + 1) as nat);
    f0 - (f0 - f1) * part / (RPM_SPAN as int)
}

/// The charge current share of the field current: the maximum scaled by the
/// three factors.
pub open spec fn charge_current(rpm_factor: int, target: int, derating: int) -> int {
    MAX_FIELD_CURRENT * rpm_factor * target * derating / (UNIT * UNIT * UNIT)
}

/// The controller's parameters as mathematical values.
pub struct ControllerState {
    /// Share of the maximum charge current that the operator asks for.
    pub target: int,
    /// Share to which a protection function reduces the charge current.
    pub derating: int,
    /// The idle field current is on.
    pub idle: bool,
    /// Charging is in progress.
    pub charge: bool,
    /// The charge current follows the speed table.
    pub rpm_derating: bool,
}

impl ControllerState {
    /// Both factors lie in `0 ..= 1`, and charging implies the idle current.
    pub open spec fn inv(self) -> bool {
        &&& 0 <= self.target <= UNIT
        &&& 0 <= self.derating <= UNIT
        &&& self.charge ==> self.idle
    }

    /// The state of a new controller.
    pub open spec fn initial() -> ControllerState {
        ControllerState {
            target: 0,
            derating: UNIT as int,
            idle: false,
            charge: false,
            rpm_derating: false,
        }
    }

    /// The speed factor in effect, if there is one: 1 while the speed table
    /// is switched off, else the table's factor for a sampled speed.
    pub open spec fn speed_factor(self, rpm: Option<i64>) -> Option<int> {
        if !self.rpm_derating {
            Some(UNIT as int)
        } else {
            match rpm {
                Some(rpm) => Some(rpm_factor(rpm as int)),
                None => None,
            }
        }
    }

    /// The field current limit for the given engine speed. There is none
    /// while a charge current would depend on a speed that was never sampled.
    pub open spec fn field_current(self, rpm: Option<i64>) -> Option<int> {
        let idle_part = if self.idle {
            IDLE_FIELD_CURRENT as int
        } else {
            0
        };
        if !self.charge {
            Some(idle_part)
        } else {
            match self.speed_factor(rpm) {
                Some(factor) => Some(idle_part + charge_current(factor, self.target, self.derating)),
                None => None,
            }
        }
    }

    /// The state after idle was entered.
    pub open spec fn started_idle(self) -> ControllerState {
        ControllerState { idle: true, charge: false, target: 0, ..self }
    }

    /// The state after charging was entered.
    pub open spec fn started_charging(self) -> ControllerState {
        ControllerState { idle: true, charge: true, ..self }
    }

    /// The state after the controller was stopped.
    pub open spec fn stopped(self) -> ControllerState {
        ControllerState { idle: false, charge: false, ..self }
    }

    /// The state after the target factor was adjusted by `target_inc`.
    pub open spec fn adjusted(self, target_inc: int) -> ControllerState {
        ControllerState { target: self.adjusted_target(target_inc), ..self }
    }

    /// The target factor after an adjustment by `target_inc`.
    pub open spec fn adjusted_target(self, target_inc: int) -> int {
        clamp(self.target + target_inc, 0, UNIT as int)
    }
}

/// Regulation parameters and mode flags.
///
/// The state machine's entry actions and the operator's buttons change them;
/// [`Controller::update`] reads them once per tick.
#[derive(Debug)]
pub struct Controller {
    target: i64,
    derating: i64,
    idle: bool,
    charge: bool,
    rpm_derating: bool,
    rpm_factor: [i64; RPM_ARRAY_SIZE],
}

impl View for Controller {
    type V = ControllerState;

    closed spec fn view(&self) -> ControllerState {
        ControllerState {
            target: self.target as int,
            derating: self.derating as int,
            idle: self.idle,
            charge: self.charge,
            rpm_derating: self.rpm_derating,
        }
    }
}

/// The array holds the speed table.
pub open spec fn is_rpm_factor_table(table: Seq<i64>) -> bool {
    &&& table.len() == RPM_ARRAY_SIZE
    &&& forall|i: int| 0 <= i < RPM_ARRAY_SIZE ==> table[i] == rpm_factor_entry(i as nat)
}

impl Controller {
    #[verifier::type_invariant]
    spec fn well_formed(self) -> bool {
        &&& self@.inv()
        &&& is_rpm_factor_table(self.rpm_factor@)
    }

    /// A controller that is off: target factor 0, no derating, the speed
    /// table switched off.
    pub fn new() -> (controller: Controller)
        ensures
            controller@ == ControllerState::initial(),
    {
        Controller {
            derating: UNIT,
            target: 0,
            idle: false,
            charge: false,
            rpm_derating: false,
            rpm_factor: Self::const_rpm_factor(),
        }
    }

    /// Share of the maximum charge current that the operator asks for.
    pub fn target(&self) -> (target: i64)
        ensures
            target == self@.target,
            0 <= target <= UNIT,
    {
        proof {
            use_type_invariant(self);
        }
        self.target
    }

    /// Share to which the charge current is reduced for protection.
    pub fn derating(&self) -> (derating: i64)
        ensures
            derating == self@.derating,
            0 <= derating <= UNIT,
    {
        proof {
            use_type_invariant(self);
        }
        self.derating
    }

    /// Whether the idle field current is on.
    pub fn is_idle(&self) -> (idle: bool)
        ensures
            idle == self@.idle,
    {
        self.idle
    }

    /// Whether charging is in progress.
    pub fn is_charging(&self) -> (charge: bool)
        ensures
            charge == self@.charge,
            charge ==> self@.idle,
    {
        proof {
            use_type_invariant(self);
        }
        self.charge
    }

    /// Whether the charge current follows the speed table.
    pub fn rpm_derating(&self) -> (enabled: bool)
        ensures
            enabled == self@.rpm_derating,
    {
        self.rpm_derating
    }

    /// Switches the speed table on or off. While it is off the speed factor
    /// is 1 at every engine speed.
    pub fn set_rpm_derating(&mut self, enabled: bool)
        ensures
            final(self)@ == (ControllerState { rpm_derating: enabled, ..old(self)@ }),
            final(self)@.inv(),
    {
        proof {
            use_type_invariant(&*self);
        }
        self.rpm_derating = enabled;
    }

    /// Sets the target factor. It must lie in `0 ..= 1`.
    pub fn adjust_target(&mut self, target: i64)
        requires
            0 <= target <= UNIT,
        ensures
            final(self)@ == (ControllerState { target: target as int, ..old(self)@ }),
            final(self)@.inv(),
    {
        proof {
            use_type_invariant(&*self);
        }
        self.target = target;
    }

    /// Moves the target factor by `target_inc` and holds it in `0 ..= 1`.
    pub fn adjust_target_factor_inc(&mut self, target_inc: i64)
        ensures
            final(self)@ == old(self)@.adjusted(target_inc as int),
            0 <= final(self)@.target <= UNIT,
            final(self)@.inv(),
    {
        proof {
            use_type_invariant(&*self);
        }
        let target: i64 = if target_inc >= UNIT - self.target {
            UNIT
        } else if target_inc <= -self.target {
            0
        } else {
            self.target + target_inc
        };
        self.target = target;
    }

    /// Raises the target factor by one [`TARGET_STEP`] for each press of a
    /// burst of short presses, as far as 1.
    pub fn raise_target(&mut self, presses: usize)
        ensures
            final(self)@ == old(self)@.adjusted(step_delta(presses as int)),
            final(self)@.inv(),
    {
        let delta: i64 = target_delta(presses);
        self.adjust_target_factor_inc(delta);
    }

    /// Lowers the target factor by one [`TARGET_STEP`] for each press of a
    /// burst of short presses, as far as 0.
    pub fn lower_target(&mut self, presses: usize)
        ensures
            final(self)@ == old(self)@.adjusted(-step_delta(presses as int)),
            final(self)@.inv(),
    {
        let delta: i64 = target_delta(presses);
        self.adjust_target_factor_inc(-delta);
    }

    /// Sets the derating factor. It must lie in `0 ..= 1`.
    pub fn set_derating_factor(&mut self, derating: i64)
        requires
            0 <= derating <= UNIT,
        ensures
            final(self)@ == (ControllerState { derating: derating as int, ..old(self)@ }),
            final(self)@.inv(),
    {
        proof {
            use_type_invariant(&*self);
        }
        self.derating = derating;
    }

    /// Enters idle: the module is switched on with the full field voltage
    /// limit, the idle current flows, nothing is charged and the target
    /// factor starts from 0.
    pub fn start_idle(&mut self, setpoint: &mut Setpoint)
        ensures
            final(self)@ == old(self)@.started_idle(),
            *final(setpoint) == old(setpoint).switched_on(),
            final(self)@.inv(),
    {
        proof {
            use_type_invariant(&*self);
        }
        setpoint.field_voltage_limit = Some(MAX_FIELD_VOLTAGE);
        setpoint.pps_enabled = PpsSetMode::On.to_u8();
        self.idle = true;
        self.charge = false;
        self.target = 0;
    }

    /// Enters charging: the charge current is added to the idle current.
    pub fn start_charging(&mut self)
        ensures
            final(self)@ == old(self)@.started_charging(),
            final(self)@.inv(),
    {
        proof {
            use_type_invariant(&*self);
        }
        self.idle = true;
        self.charge = true;
    }

    /// Switches off: no field current, field voltage limit 0, module
    /// disabled.
    pub fn stop(&mut self, setpoint: &mut Setpoint)
        ensures
            final(self)@ == old(self)@.stopped(),
            *final(setpoint) == old(setpoint).switched_off(),
            final(self)@.inv(),
    {
        proof {
            use_type_invariant(&*self);
        }
        self.charge = false;
        self.idle = false;
        setpoint.field_voltage_limit = Some(0);
        setpoint.pps_enabled = PpsSetMode::Off.to_u8();
    }

    /// Computes the speed table.
    pub fn const_rpm_factor() -> (table: [i64; RPM_ARRAY_SIZE])
        ensures
            is_rpm_factor_table(table@),
    {
        let mut table: [i64; RPM_ARRAY_SIZE] = [0; RPM_ARRAY_SIZE];
        let mut entry: i64 = UNIT;
        let mut i: usize = 0;
        while i < RPM_ARRAY_SIZE
            invariant
                i <= RPM_ARRAY_SIZE,
                entry == rpm_factor_entry(i as nat),
                0 <= entry <= UNIT,
                forall|j: int| 0 <= j < i ==> table@[j] == rpm_factor_entry(j as nat),
            decreases RPM_ARRAY_SIZE - i,
        {
            table[i] = entry;
            proof {
                lemma_rpm_factor_entry_decays(i as nat);
            }
            entry = entry * ((RPM_MIN - RPM_STEP) as i64) / (RPM_MIN as i64);
            i += 1;
        }
        table
    }

    /// The speed factor for an engine speed, interpolated in `table`.
    fn interpolate(table: &[i64; RPM_ARRAY_SIZE], rpm: i64) -> (factor: i64)
        requires
            is_rpm_factor_table(table@),
        ensures
            factor == rpm_factor(rpm as int),
            0 <= factor <= UNIT,
    {
        let first: i64 = (RPM_MIN as i64) * UNIT;
        let last_offset: i64 = ((RPM_ARRAY_SIZE - 1) as i64) * RPM_SPAN;
        let offset: i64 = if rpm <= first {
            0
        } else if rpm - first >= last_offset {
            last_offset
        } else {
            rpm - first
        };
        let whole: i64 = offset / RPM_SPAN;
        let bucket: usize = if whole < (RPM_ARRAY_SIZE - 2) as i64 {
            whole as usize
        } else {
            RPM_ARRAY_SIZE - 2
        };
        let part: i64 = offset - (bucket as i64) * RPM_SPAN;
        let f0: i64 = table[bucket];
        let f1: i64 = table[bucket + 1];
        proof {
            lemma_rpm_factor_entry_decays(bucket as nat);
            lemma_product_bound((f0 - f1) as int, part as int, UNIT as int, RPM_SPAN as int);
            lemma_share_is_bounded((f0 - f1) as int, part as int, RPM_SPAN as int);
        }
        f0 - (f0 - f1) * part / RPM_SPAN
    }

    /// The speed factor for an engine speed: the speed table's entries,
    /// joined by straight lines and continued flat beyond both ends.
    pub fn lookup_rpm_factor(rpm: i64) -> (factor: i64)
        ensures
            factor == rpm_factor(rpm as int),
            0 <= factor <= UNIT,
    {
        let table: [i64; RPM_ARRAY_SIZE] = Self::const_rpm_factor();
        Self::interpolate(&table, rpm)
    }

    /// One control tick: publishes the target factor for display and the
    /// field current limit for the power module.
    pub fn update(&self, process_data: &mut ProcessData, setpoint: &mut Setpoint)
        ensures
            as_int(final(process_data).target_factor) == Some(self@.target),
            *final(process_data) == (ProcessData {
                target_factor: final(process_data).target_factor,
                ..*old(process_data)
            }),
            as_int(final(setpoint).field_current_limit) == self@.field_current(
                old(process_data).rpm,
            ),
            *final(setpoint) == (Setpoint {
                field_current_limit: final(setpoint).field_current_limit,
                ..*old(setpoint)
            }),
            final(setpoint).field_current_limit matches Some(limit) ==> 0 <= limit
                <= IDLE_FIELD_CURRENT + MAX_FIELD_CURRENT,
    {
        proof {
            use_type_invariant(self);
        }
        process_data.target_factor = Some(self.target);
        let idle_part: i64 = if self.idle {
            IDLE_FIELD_CURRENT
        } else {
            0
        };
        let limit: Option<i64> = if !self.charge {
            Some(idle_part)
        } else if !self.rpm_derating {
            Some(idle_part + Self::scale(UNIT, self.target, self.derating))
        } else {
            match process_data.rpm {
                Some(rpm) => {
                    let factor: i64 = Self::interpolate(&self.rpm_factor, rpm);
                    Some(idle_part + Self::scale(factor, self.target, self.derating))
                },
                None => None,
            }
        };
        setpoint.field_current_limit = limit;
    }

    /// The maximum charge current scaled by three factors in `0 ..= 1`.
    fn scale(rpm_factor: i64, target: i64, derating: i64) -> (current: i64)
        requires
            0 <= rpm_factor <= UNIT,
            0 <= target <= UNIT,
            0 <= derating <= UNIT,
        ensures
            current == charge_current(rpm_factor as int, target as int, derating as int),
            0 <= current <= MAX_FIELD_CURRENT,
    {
        proof {
            lemma_product_bound(
                MAX_FIELD_CURRENT as int,
                rpm_factor as int,
                MAX_FIELD_CURRENT as int,
                UNIT as int,
            );
            lemma_product_bound(
                MAX_FIELD_CURRENT * rpm_factor,
                target as int,
                MAX_FIELD_CURRENT * UNIT,
                UNIT as int,
            );
            lemma_product_bound(
                MAX_FIELD_CURRENT * rpm_factor * target,
                derating as int,
                MAX_FIELD_CURRENT * UNIT * UNIT,
                UNIT as int,
            );
            lemma_product_is_not_negative(MAX_FIELD_CURRENT as int, rpm_factor as int);
            lemma_product_is_not_negative(MAX_FIELD_CURRENT * rpm_factor, target as int);
            lemma_product_is_not_negative(
                MAX_FIELD_CURRENT * rpm_factor * target,
                derating as int,
            );
        }
        let by_speed: u128 = (MAX_FIELD_CURRENT as u128) * (rpm_factor as u128);
        let by_target: u128 = by_speed * (target as u128);
        let by_derating: u128 = by_target * (derating as u128);
        let cube: u128 = 1_000_000_000_000_000_000;
        assert(cube == UNIT * UNIT * UNIT);
        let current: u128 = by_derating / cube;
        assert(current <= MAX_FIELD_CURRENT);
        current as i64
    }
}

/// Change of the target factor that a burst of `step` short presses asks
/// for: one [`TARGET_STEP`] per press, but never more than the whole range.
pub open spec fn step_delta(step: int) -> int {
    if TARGET_STEP * step < UNIT {
        TARGET_STEP * step
    } else {
        UNIT as int
    }
}

/// Computes [`step_delta`].
fn target_delta(presses: usize) -> (delta: i64)
    ensures
        delta == step_delta(presses as int),
        0 <= delta <= UNIT,
{
    if presses < 20 {
        TARGET_STEP * (presses as i64)
    } else {
        UNIT
    }
}

/// Marks the point at which charging starts. Nothing is switched here: the
/// controller is switched by [`Controller::start_charging`], and the firmware
/// writes the line for its log.
pub fn start_charging() {
}

/// Marks the point at which charging stops. Nothing is switched here: the
/// controller is switched by [`Controller::start_idle`] and
/// [`Controller::stop`], and the firmware writes the line for its log.
pub fn stop_charging() {
}

/// Marks a request for `step` steps more current. Nothing is adjusted here:
/// the target factor is moved by [`Controller::raise_target`], and the
/// firmware writes the line for its log.
pub fn inc_current(step: u32) {
}

/// Marks a request for `step` steps less current. Nothing is adjusted here:
/// the target factor is moved by [`Controller::lower_target`], and the
/// firmware writes the line for its log.
pub fn dec_current(step: u32) {
}

/// The target factor after a run of adjustments, applied in order.
pub open spec fn target_after(start: int, increments: Seq<int>) -> int
    decreases increments.len(),
{
    if increments.len() == 0 {
        start
    } else {
        clamp(target_after(start, increments.drop_last()) + increments.last(), 0, UNIT as int)
    }
}

/// The table's entries never rise and never leave `0 ..= 1`.
pub proof fn lemma_rpm_factor_entry_decays(i: nat)
    ensures
        0 <= rpm_factor_entry(i + 1) <= rpm_factor_entry(i) <= UNIT,
    decreases i,
{
    if i > 0 {
        lemma_rpm_factor_entry_decays((i - 1) as nat);
    }
    let entry = rpm_factor_entry(i);
    assert(rpm_factor_entry(i + 1) == entry * 400 / 500);
}

/// At the table's first and last speed the factor is the table's first and
/// last entry.
pub proof fn lemma_rpm_factor_at_table_ends()
    ensures
        rpm_factor(RPM_MIN * UNIT) == rpm_factor_entry(0),
        rpm_factor(RPM_MAX * UNIT) == rpm_factor_entry((RPM_ARRAY_SIZE - 1) as nat),
{
    lemma_rpm_factor_clamps(RPM_MIN * UNIT);
    lemma_rpm_factor_clamps(RPM_MAX * UNIT);
}

/// Below the table's first speed the factor is the first entry, above its
/// last speed the last entry: the table is not continued by a slope.
pub proof fn lemma_rpm_factor_clamps(rpm: int)
    ensures
        rpm <= RPM_MIN * UNIT ==> rpm_factor(rpm) == rpm_factor_entry(0),
        rpm >= RPM_MAX * UNIT ==> rpm_factor(rpm) == rpm_factor_entry(
            (RPM_ARRAY_SIZE - 1) as nat,
        ),
{
    if rpm <= RPM_MIN * UNIT {
        assert(rpm_offset(rpm) == 0);
        assert(rpm_bucket(rpm) == 0);
        let drop = rpm_factor_entry(0) - rpm_factor_entry(1);
        assert(drop * 0 / (RPM_SPAN as int) == 0) by (nonlinear_arith);
    }
    if rpm >= RPM_MAX * UNIT {
        assert(rpm_offset(rpm) == 39 * RPM_SPAN);
        assert(rpm_bucket(rpm) == 38);
        let f0 = rpm_factor_entry(38);
        let f1 = rpm_factor_entry(39);
        assert((f0 - f1) * RPM_SPAN / (RPM_SPAN as int) == f0 - f1) by (nonlinear_arith)
            requires
                RPM_SPAN > 0,
        ;
    }
}

/// At the speed where bucket `i` begins the factor is entry `i`.
pub proof fn lemma_rpm_factor_at_entry(i: nat)
    requires
        i < RPM_ARRAY_SIZE,
    ensures
        rpm_factor(RPM_MIN * UNIT + i * RPM_SPAN) == rpm_factor_entry(i),
{
    let rpm = RPM_MIN * UNIT + i * RPM_SPAN;
    assert(rpm_offset(rpm) == i * RPM_SPAN);
    if i < RPM_ARRAY_SIZE - 1 {
        assert(rpm_bucket(rpm) == i);
        let drop = rpm_factor_entry(i) - rpm_factor_entry(i + 1);
        assert(drop * 0 / (RPM_SPAN as int) == 0) by (nonlinear_arith);
    } else {
        assert(rpm_bucket(rpm) == 38);
        let f0 = rpm_factor_entry(38);
        let f1 = rpm_factor_entry(39);
        assert((f0 - f1) * RPM_SPAN / (RPM_SPAN as int) == f0 - f1) by (nonlinear_arith)
            requires
                RPM_SPAN > 0,
        ;
    }
}

/// Halfway between the speeds of two neighbouring entries the factor is
/// their arithmetic mean, rounded up to a whole count.
pub proof fn lemma_rpm_factor_at_midpoint(i: nat)
    requires
        i + 1 < RPM_ARRAY_SIZE,
    ensures
        ({
            let sum = rpm_factor_entry(i) + rpm_factor_entry(i + 1);
            let factor = rpm_factor(RPM_MIN * UNIT + i * RPM_SPAN + RPM_SPAN / 2);
            2 * factor == sum || 2 * factor == sum + 1
        }),
{
    let rpm = RPM_MIN * UNIT + i * RPM_SPAN + RPM_SPAN / 2;
    assert(rpm_offset(rpm) == i * RPM_SPAN + RPM_SPAN / 2);
    assert(rpm_bucket(rpm) == i);
    let f0 = rpm_factor_entry(i);
    let f1 = rpm_factor_entry(i + 1);
    lemma_rpm_factor_entry_decays(i);
    let drop = f0 - f1;
    assert(drop * 50_000_000 / 100_000_000 == drop / 2) by (nonlinear_arith)
        requires
            drop >= 0,
    ;
}

/// The factor for any speed lies between the two entries of its bucket, and
/// so in `0 ..= 1`.
pub proof fn lemma_rpm_factor_is_between_entries(rpm: int)
    ensures
        rpm_factor_entry((rpm_bucket(rpm) + 1) as nat) <= rpm_factor(rpm) <= rpm_factor_entry(
            rpm_bucket(rpm) as nat,
        ),
        0 <= rpm_factor(rpm) <= UNIT,
{
    let bucket = rpm_bucket(rpm);
    let part = rpm_offset(rpm) - bucket * RPM_SPAN;
    lemma_rpm_factor_entry_decays(bucket as nat);
    let f0 = rpm_factor_entry(bucket as nat);
    let f1 = rpm_factor_entry((bucket + 1) as nat);
    lemma_share_is_bounded(f0 - f1, part, RPM_SPAN as int);
}

/// A burst of short presses moves the target factor by one step per press:
/// that the change asked for is capped at the whole range makes no
/// difference to a target factor that is held in `0 ..= 1` anyway.
pub proof fn lemma_presses_move_target_by_steps(controller: ControllerState, presses: nat)
    requires
        controller.inv(),
    ensures
        controller.adjusted_target(step_delta(presses as int)) == clamp(
            controller.target + TARGET_STEP * presses,
            0,
            UNIT as int,
        ),
        controller.adjusted_target(-step_delta(presses as int)) == clamp(
            controller.target - TARGET_STEP * presses,
            0,
            UNIT as int,
        ),
{
}

/// The charge current for factors in `0 ..= 1` lies between nothing and the
/// maximum, and is the maximum when all three factors are 1.
pub proof fn lemma_charge_current_is_bounded(rpm_factor: int, target: int, derating: int)
    requires
        0 <= rpm_factor <= UNIT,
        0 <= target <= UNIT,
        0 <= derating <= UNIT,
    ensures
        0 <= charge_current(rpm_factor, target, derating) <= MAX_FIELD_CURRENT,
        charge_current(UNIT as int, UNIT as int, UNIT as int) == MAX_FIELD_CURRENT,
        charge_current(rpm_factor, 0, derating) == 0,
{
    lemma_product_bound(MAX_FIELD_CURRENT as int, rpm_factor, MAX_FIELD_CURRENT as int, UNIT as int);
    lemma_product_bound(
        MAX_FIELD_CURRENT * rpm_factor,
        target,
        MAX_FIELD_CURRENT * UNIT,
        UNIT as int,
    );
    lemma_product_bound(
        MAX_FIELD_CURRENT * rpm_factor * target,
        derating,
        MAX_FIELD_CURRENT * UNIT * UNIT,
        UNIT as int,
    );
    lemma_product_is_not_negative(MAX_FIELD_CURRENT as int, rpm_factor);
    lemma_product_is_not_negative(MAX_FIELD_CURRENT * rpm_factor, target);
    lemma_product_is_not_negative(MAX_FIELD_CURRENT * rpm_factor * target, derating);
    assert(UNIT * UNIT * UNIT == 1_000_000_000_000_000_000);
    assert(MAX_FIELD_CURRENT * UNIT * UNIT * UNIT == 3_000_000_000_000_000_000_000_000);
    assert(MAX_FIELD_CURRENT * rpm_factor * 0 * derating == 0) by (nonlinear_arith);
}

/// While charging without derating at a speed factor of 1, the field current
/// limit is the idle current plus the target factor's share of the maximum
/// charge current: half the maximum on top of the idle current for a target
/// factor of one half.
pub proof fn lemma_setpoint_follows_target(controller: ControllerState, rpm: Option<i64>)
    requires
        controller.inv(),
        controller.charge,
        controller.derating == UNIT,
        controller.speed_factor(rpm) == Some(UNIT as int),
    ensures
        controller.field_current(rpm) == Some(
            IDLE_FIELD_CURRENT + MAX_FIELD_CURRENT * controller.target / (UNIT as int),
        ),
        controller.target * 2 == UNIT ==> controller.field_current(rpm) == Some(
            IDLE_FIELD_CURRENT + MAX_FIELD_CURRENT / 2,
        ),
{
    let target = controller.target;
    assert(MAX_FIELD_CURRENT * UNIT * target * UNIT == (MAX_FIELD_CURRENT * target) * (UNIT
        * UNIT)) by (nonlinear_arith);
    assert(UNIT * UNIT * UNIT == (UNIT as int) * (UNIT * UNIT)) by (nonlinear_arith);
    assert((MAX_FIELD_CURRENT * target) * (UNIT * UNIT) / ((UNIT as int) * (UNIT * UNIT))
        == MAX_FIELD_CURRENT * target / (UNIT as int)) by {
        vstd::arithmetic::div_mod::lemma_div_multiples_vanish_quotient(
            UNIT * UNIT,
            MAX_FIELD_CURRENT * target,
            UNIT as int,
        );
        assert((UNIT * UNIT) * (MAX_FIELD_CURRENT * target) == (MAX_FIELD_CURRENT * target) * (UNIT
            * UNIT)) by (nonlinear_arith);
        assert((UNIT * UNIT) * (UNIT as int) == (UNIT as int) * (UNIT * UNIT))
            by (nonlinear_arith);
    }
}

/// However the target factor is adjusted, it stays in `0 ..= 1`.
pub proof fn lemma_target_stays_in_range(start: int, increments: Seq<int>)
    requires
        0 <= start <= UNIT,
    ensures
        0 <= target_after(start, increments) <= UNIT,
    decreases increments.len(),
{
    if increments.len() > 0 {
        lemma_target_stays_in_range(start, increments.drop_last());
    }
}

} // verus!
