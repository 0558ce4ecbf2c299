use altreg::control::{
    dec_current, inc_current, start_charging, stop_charging, Controller, IDLE_FIELD_CURRENT,
    RPM_ARRAY_SIZE, RPM_SPAN, RPM_STEP, TARGET_STEP,
};
use altreg::shared::{
    PpsSetMode, ProcessData, Setpoint, MAX_FIELD_CURRENT, MAX_FIELD_VOLTAGE, RPM_MAX, RPM_MIN,
};
use altreg::units::UNIT;

fn rpm(whole: usize) -> i64 {
    whole as i64 * UNIT
}

fn as_f32(fixed: i64) -> f32 {
    fixed as f32 / UNIT as f32
}

#[test]
fn control_test_lookup_rpm_factor_min() {
    assert_eq!(Controller::lookup_rpm_factor(rpm(RPM_MIN)), Controller::const_rpm_factor()[0]);
}

#[test]
fn control_test_lookup_rpm_factor_max() {
    assert_eq!(
        Controller::lookup_rpm_factor(rpm(RPM_MAX)),
        Controller::const_rpm_factor()[RPM_ARRAY_SIZE - 1]
    );
}

#[test]
fn control_test_lookup_rpm_factor_interpolation() {
    let table = Controller::const_rpm_factor();
    let rpm = rpm(RPM_MIN) + rpm(RPM_STEP) / 2;
    let expected = (as_f32(table[0]) + as_f32(table[1])) / 2.0;
    assert!((as_f32(Controller::lookup_rpm_factor(rpm)) - expected).abs() < f32::EPSILON);
}

#[test]
fn control_test_lookup_rpm_factor_below_min() {
    assert_eq!(
        Controller::lookup_rpm_factor(rpm(RPM_MIN) - rpm(100)),
        Controller::const_rpm_factor()[0]
    );
}

#[test]
fn control_test_lookup_rpm_factor_above_max() {
    assert_eq!(
        Controller::lookup_rpm_factor(rpm(RPM_MAX) + rpm(100)),
        Controller::const_rpm_factor()[RPM_ARRAY_SIZE - 1]
    );
}

#[test]
fn mod_test_lookup_rpm_factor_min() {
    assert_eq!(Controller::lookup_rpm_factor(rpm(RPM_MIN)), Controller::const_rpm_factor()[0]);
}

#[test]
fn mod_test_lookup_rpm_factor_max() {
    assert_eq!(
        Controller::lookup_rpm_factor(rpm(RPM_MAX)),
        Controller::const_rpm_factor()[RPM_ARRAY_SIZE - 1]
    );
}

#[test]
fn mod_test_lookup_rpm_factor_interpolation() {
    let table = Controller::const_rpm_factor();
    let rpm = rpm(RPM_MIN) + rpm(RPM_STEP) / 2;
    let expected = (as_f32(table[0]) + as_f32(table[1])) / 2.0;
    assert!((as_f32(Controller::lookup_rpm_factor(rpm)) - expected).abs() < f32::EPSILON);
}

#[test]
fn mod_test_lookup_rpm_factor_below_min() {
    assert_eq!(
        Controller::lookup_rpm_factor(rpm(RPM_MIN) - rpm(100)),
        Controller::const_rpm_factor()[0]
    );
}

#[test]
fn mod_test_lookup_rpm_factor_above_max() {
    assert_eq!(
        Controller::lookup_rpm_factor(rpm(RPM_MAX) + rpm(100)),
        Controller::const_rpm_factor()[RPM_ARRAY_SIZE - 1]
    );
}

#[test]
fn table_has_forty_entries_that_decay_by_a_fifth() {
    let table = Controller::const_rpm_factor();
    assert_eq!(RPM_ARRAY_SIZE, 40);
    assert_eq!(table.len(), 40);
    assert_eq!(table[0], 1_000_000);
    assert_eq!(table[1], 800_000);
    assert_eq!(table[2], 640_000);
    assert_eq!(table[3], 512_000);
    assert_eq!(table[6], 262_144);
    assert_eq!(table[7], 209_715);
    assert_eq!(table[8], 167_772);
    for i in 1..RPM_ARRAY_SIZE {
        assert_eq!(table[i], table[i - 1] * 4 / 5);
        assert!(table[i] < table[i - 1]);
        assert!(table[i] > 0);
    }
}

#[test]
fn lookup_is_exact_at_every_entry() {
    let table = Controller::const_rpm_factor();
    for i in 0..RPM_ARRAY_SIZE {
        let speed = rpm(RPM_MIN) + i as i64 * RPM_SPAN;
        assert_eq!(Controller::lookup_rpm_factor(speed), table[i]);
    }
}

#[test]
fn lookup_at_midpoints_is_the_mean_rounded_up() {
    let table = Controller::const_rpm_factor();
    assert_eq!(Controller::lookup_rpm_factor(rpm(550)), 900_000);
    assert_eq!(Controller::lookup_rpm_factor(rpm(650)), 720_000);
    for i in 0..RPM_ARRAY_SIZE - 1 {
        let speed = rpm(RPM_MIN) + i as i64 * RPM_SPAN + RPM_SPAN / 2;
        let sum = table[i] + table[i + 1];
        assert_eq!(Controller::lookup_rpm_factor(speed), (sum + 1) / 2);
    }
}

#[test]
fn lookup_interpolates_linearly_inside_a_bucket() {
    // a quarter of the way from 1.0 down to 0.8
    assert_eq!(Controller::lookup_rpm_factor(rpm(525)), 950_000);
    // three quarters of the way from 0.8 down to 0.64
    assert_eq!(Controller::lookup_rpm_factor(rpm(675)), 680_000);
}

#[test]
fn lookup_does_not_extrapolate() {
    let table = Controller::const_rpm_factor();
    assert_eq!(Controller::lookup_rpm_factor(0), table[0]);
    assert_eq!(Controller::lookup_rpm_factor(-rpm(3000)), table[0]);
    assert_eq!(Controller::lookup_rpm_factor(i64::MIN), table[0]);
    assert_eq!(Controller::lookup_rpm_factor(rpm(4400)), table[39]);
    assert_eq!(Controller::lookup_rpm_factor(rpm(100_000)), table[39]);
    assert_eq!(Controller::lookup_rpm_factor(i64::MAX), table[39]);
}

#[test]
fn new_controller_is_off() {
    let c = Controller::new();
    assert_eq!(c.target(), 0);
    assert_eq!(c.derating(), UNIT);
    assert!(!c.is_idle());
    assert!(!c.is_charging());
    assert!(!c.rpm_derating());
}

#[test]
fn target_factor_is_clamped_to_unit_range() {
    let mut c = Controller::new();
    c.adjust_target_factor_inc(300_000);
    assert_eq!(c.target(), 300_000);
    c.adjust_target_factor_inc(900_000);
    assert_eq!(c.target(), UNIT);
    c.adjust_target_factor_inc(i64::MAX);
    assert_eq!(c.target(), UNIT);
    c.adjust_target_factor_inc(-250_000);
    assert_eq!(c.target(), 750_000);
    c.adjust_target_factor_inc(-2_000_000);
    assert_eq!(c.target(), 0);
    c.adjust_target_factor_inc(i64::MIN);
    assert_eq!(c.target(), 0);
    let steps: [i64; 12] = [7, -3, 999_999, 2, -1, -1_000_001, 500_000, 500_000, 1, -UNIT, UNIT, 0];
    for step in steps {
        c.adjust_target_factor_inc(step);
        assert!(0 <= c.target() && c.target() <= UNIT);
    }
}

#[test]
fn setpoint_for_half_target_is_idle_plus_half_of_maximum() {
    let mut c = Controller::new();
    let mut data = ProcessData::new();
    let mut setpoint = Setpoint::new();
    c.start_charging();
    c.adjust_target_factor_inc(500_000);
    c.set_derating_factor(UNIT);
    c.update(&mut data, &mut setpoint);
    assert_eq!(setpoint.field_current_limit, Some(IDLE_FIELD_CURRENT + MAX_FIELD_CURRENT / 2));
    assert_eq!(setpoint.field_current_limit, Some(2_500_000));
    assert_eq!(data.target_factor, Some(500_000));
}

#[test]
fn setpoint_with_speed_table_switched_on() {
    let mut c = Controller::new();
    let mut data = ProcessData::new();
    let mut setpoint = Setpoint::new();
    c.set_rpm_derating(true);
    assert!(c.rpm_derating());
    c.start_charging();
    c.adjust_target_factor_inc(500_000);

    // never sampled: nothing is commanded
    c.update(&mut data, &mut setpoint);
    assert_eq!(setpoint.field_current_limit, None);

    // factor 1.0 at the lowest speed
    data.rpm = Some(rpm(RPM_MIN));
    c.update(&mut data, &mut setpoint);
    assert_eq!(setpoint.field_current_limit, Some(2_500_000));

    // factor 0.8 one bucket up: 1 A + 3 A * 0.8 * 0.5
    data.rpm = Some(rpm(600));
    c.update(&mut data, &mut setpoint);
    assert_eq!(setpoint.field_current_limit, Some(2_200_000));

    // derating to 25 %: 1 A + 3 A * 0.8 * 0.5 * 0.25
    c.set_derating_factor(250_000);
    c.update(&mut data, &mut setpoint);
    assert_eq!(setpoint.field_current_limit, Some(1_300_000));

    // switched off again the speed does not matter
    c.set_rpm_derating(false);
    c.update(&mut data, &mut setpoint);
    assert_eq!(setpoint.field_current_limit, Some(1_375_000));
}

#[test]
fn setpoint_in_each_mode() {
    let mut c = Controller::new();
    let mut data = ProcessData::new();
    let mut setpoint = Setpoint::new();

    c.update(&mut data, &mut setpoint);
    assert_eq!(setpoint.field_current_limit, Some(0));
    assert_eq!(data.target_factor, Some(0));

    c.adjust_target_factor_inc(400_000);
    c.start_idle(&mut setpoint);
    assert!(c.is_idle());
    assert!(!c.is_charging());
    assert_eq!(c.target(), 0);
    assert_eq!(setpoint.field_voltage_limit, Some(MAX_FIELD_VOLTAGE));
    assert_eq!(setpoint.pps_enabled, PpsSetMode::On.to_u8());
    c.update(&mut data, &mut setpoint);
    assert_eq!(setpoint.field_current_limit, Some(IDLE_FIELD_CURRENT));

    c.start_charging();
    assert!(c.is_idle());
    assert!(c.is_charging());
    c.adjust_target_factor_inc(UNIT);
    c.update(&mut data, &mut setpoint);
    assert_eq!(setpoint.field_current_limit, Some(IDLE_FIELD_CURRENT + MAX_FIELD_CURRENT));
    assert_eq!(data.target_factor, Some(UNIT));

    c.stop(&mut setpoint);
    assert!(!c.is_idle());
    assert!(!c.is_charging());
    assert_eq!(setpoint.field_voltage_limit, Some(0));
    assert_eq!(setpoint.pps_enabled, PpsSetMode::Off.to_u8());
    c.update(&mut data, &mut setpoint);
    assert_eq!(setpoint.field_current_limit, Some(0));
    assert!(!setpoint.contactor_state);
}

#[test]
fn charge_current_is_rounded_down() {
    let mut c = Controller::new();
    let mut data = ProcessData::new();
    let mut setpoint = Setpoint::new();
    c.start_charging();
    c.adjust_target_factor_inc(333_333);
    c.set_derating_factor(333_333);
    c.update(&mut data, &mut setpoint);
    // 3_000_000 * 0.333333 * 0.333333 = 333_332.666...
    assert_eq!(setpoint.field_current_limit, Some(IDLE_FIELD_CURRENT + 333_332));
}

#[test]
fn button_steps_move_the_target_by_a_twentieth() {
    let mut c = Controller::new();
    c.start_charging();
    c.raise_target(1);
    assert_eq!(c.target(), TARGET_STEP);
    c.raise_target(3);
    assert_eq!(c.target(), 200_000);
    c.lower_target(2);
    assert_eq!(c.target(), 100_000);
    c.raise_target(19);
    assert_eq!(c.target(), UNIT);
    c.lower_target(20);
    assert_eq!(c.target(), 0);
    c.raise_target(usize::MAX);
    assert_eq!(c.target(), UNIT);
    c.lower_target(usize::MAX);
    assert_eq!(c.target(), 0);
    c.raise_target(0);
    assert_eq!(c.target(), 0);
    c.raise_target(7);
    c.lower_target(0);
    assert_eq!(c.target(), 350_000);
    // the flags are not touched
    assert!(c.is_charging());
    assert!(c.is_idle());
}

#[test]
fn marks_for_the_log_take_any_step() {
    start_charging();
    stop_charging();
    for step in [0u32, 1, 19, 20, u32::MAX] {
        inc_current(step);
        dec_current(step);
    }
}

#[test]
fn target_can_be_set_directly() {
    let mut c = Controller::new();
    c.adjust_target(500_000);
    assert_eq!(c.target(), 500_000);
    c.adjust_target(UNIT);
    assert_eq!(c.target(), UNIT);
    c.adjust_target(0);
    assert_eq!(c.target(), 0);
}

#[test]
fn bucket_width_is_the_step_in_fixed_point() {
    assert_eq!(RPM_SPAN, RPM_STEP as i64 * UNIT);
    assert_eq!(RPM_ARRAY_SIZE, (RPM_MAX - RPM_MIN) / RPM_STEP);
    assert_eq!(TARGET_STEP * 20, UNIT);
}
