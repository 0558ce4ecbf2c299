use altreg::rpm::{read_rpm, RpmMonitor, LOW_RPM_THRESHOLD, RPM_HYSTERESIS};
use altreg::shared::{ProcessData, RpmEvent, RPM_MIN};
use altreg::units::UNIT;

#[test]
fn pulses_become_engine_speed() {
    let mut data = ProcessData::new();
    assert_eq!(read_rpm(0, &mut data), 0);
    assert_eq!(data.rpm, Some(0));
    // 60 pulses in 100 ms: 3000 rpm at the alternator, times 53.7 / 128.2
    assert_eq!(read_rpm(60, &mut data), 1_256_630_265);
    assert_eq!(data.rpm, Some(1_256_630_265));
    assert_eq!(read_rpm(1, &mut data), 20_943_837);
    assert_eq!(read_rpm(-1, &mut data), -20_943_837);
    assert_eq!(read_rpm(i16::MAX, &mut data), 686_266_731_669);
    assert_eq!(read_rpm(i16::MIN, &mut data), -686_287_675_507);
    assert_eq!(data.rpm, Some(-686_287_675_507));
    assert_eq!(data.temperature, None);
}

#[test]
fn speed_agrees_with_float_formula() {
    let mut data = ProcessData::new();
    for pulses in [1i16, 7, 24, 100, 215, 1000, 20_000] {
        let expected =
            pulses as f64 * 60.0 * (1.0 / 6.0 / 2.0) * (1000.0 / 100.0) * (53.7 / 128.2);
        let got = read_rpm(pulses, &mut data) as f64 / 1e6;
        assert!((got - expected).abs() < 2e-6, "{pulses}: {got} vs {expected}");
    }
}

#[test]
fn engine_is_normal_above_the_threshold() {
    let mut data = ProcessData::new();
    assert!(!data.rpm_is_normal());
    data.rpm = Some(LOW_RPM_THRESHOLD);
    assert!(!data.rpm_is_normal());
    data.rpm = Some(LOW_RPM_THRESHOLD + 1);
    assert!(data.rpm_is_normal());
    data.rpm = Some(0);
    assert!(!data.rpm_is_normal());
    data.rpm = Some(i64::MAX);
    assert!(data.rpm_is_normal());
    assert_eq!(LOW_RPM_THRESHOLD, RPM_MIN as i64 * UNIT);
    assert_eq!(RPM_HYSTERESIS, 50_000);
}

#[test]
fn monitor_reports_each_crossing_once() {
    let mut monitor = RpmMonitor::new();
    assert!(!monitor.above);
    let rpm = |whole: i64| whole * UNIT;
    // band 475 ..= 525 rpm
    assert_eq!(monitor.sample(rpm(0)), None);
    assert_eq!(monitor.sample(rpm(500)), None);
    assert_eq!(monitor.sample(rpm(524)), None);
    assert_eq!(monitor.sample(rpm(525)), Some(RpmEvent::Normal));
    assert!(monitor.above);
    assert_eq!(monitor.sample(rpm(2000)), None);
    assert_eq!(monitor.sample(rpm(500)), None);
    assert_eq!(monitor.sample(rpm(475)), None);
    assert_eq!(monitor.sample(rpm(475) - 1), Some(RpmEvent::Low));
    assert!(!monitor.above);
    assert_eq!(monitor.sample(rpm(475)), None);
    assert_eq!(monitor.sample(rpm(510)), None);
    assert_eq!(monitor.sample(rpm(490)), None);
    assert_eq!(monitor.sample(rpm(600)), Some(RpmEvent::Normal));
    assert_eq!(monitor.sample(rpm(100)), Some(RpmEvent::Low));
}
