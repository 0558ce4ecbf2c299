use altreg::io::{
    button_event, power_up_command, read_pps, write_pps, Button, Press, PPS_LOOP_TIME_MS,
    PPS_TIMEOUT_MS,
};
use altreg::pps::{Error, WriteCommand};
use altreg::shared::{ButtonEvent, PpsRunningMode, PpsSetMode, ProcessData, Setpoint};
use altreg::single::Single;
use embedded_hal::i2c::ErrorKind;

fn single(value: f32) -> Single {
    Single::from_bits(value.to_bits())
}

#[test]
fn module_is_disabled_first() {
    assert_eq!(power_up_command(), WriteCommand::ModuleEnable(false));
}

#[test]
fn nothing_published_nothing_written() {
    let mut setpoint = Setpoint::new();
    assert_eq!(write_pps(&mut setpoint), Ok(vec![]));
    assert_eq!(setpoint, Setpoint::new());
}

#[test]
fn published_values_are_written_in_order() {
    let mut setpoint = Setpoint::new();
    setpoint.field_current_limit = Some(2_500_000);
    setpoint.field_voltage_limit = Some(20_000_000);
    setpoint.pps_enabled = PpsSetMode::On.to_u8();
    setpoint.contactor_state = true;
    assert_eq!(
        write_pps(&mut setpoint),
        Ok(vec![
            WriteCommand::SetCurrent(single(2.5)),
            WriteCommand::SetVoltage(single(20.0)),
            WriteCommand::ModuleEnable(true),
        ])
    );
    assert_eq!(setpoint.field_current_limit, None);
    assert_eq!(setpoint.field_voltage_limit, None);
    assert_eq!(setpoint.pps_enabled, PpsSetMode::DontTouch.to_u8());
    assert!(setpoint.contactor_state);
    // a second cycle without new values has nothing to do
    assert_eq!(write_pps(&mut setpoint), Ok(vec![]));
}

#[test]
fn each_cell_is_written_on_its_own() {
    let mut setpoint = Setpoint::new();
    setpoint.field_current_limit = Some(1_000_000);
    assert_eq!(write_pps(&mut setpoint), Ok(vec![WriteCommand::SetCurrent(single(1.0))]));

    setpoint.field_voltage_limit = Some(0);
    assert_eq!(write_pps(&mut setpoint), Ok(vec![WriteCommand::SetVoltage(single(0.0))]));

    setpoint.pps_enabled = PpsSetMode::Off.to_u8();
    assert_eq!(write_pps(&mut setpoint), Ok(vec![WriteCommand::ModuleEnable(false)]));

    setpoint.field_voltage_limit = Some(0);
    setpoint.pps_enabled = PpsSetMode::Off.to_u8();
    assert_eq!(
        write_pps(&mut setpoint),
        Ok(vec![WriteCommand::SetVoltage(single(0.0)), WriteCommand::ModuleEnable(false)])
    );
    assert_eq!(setpoint, Setpoint::new());
}

#[test]
fn unknown_enable_byte_is_unsupported_and_still_resets() {
    for byte in [3u8, 4, 0x80, 0xff] {
        let mut setpoint = Setpoint::new();
        setpoint.field_current_limit = Some(2_000_000);
        setpoint.field_voltage_limit = Some(12_000_000);
        setpoint.pps_enabled = byte;
        assert_eq!(write_pps(&mut setpoint), Err(Error::Unsupported));
        assert_eq!(setpoint, Setpoint::new());
    }
}

#[test]
fn take_reads_and_resets() {
    let mut setpoint = Setpoint::new();
    setpoint.field_current_limit = Some(5);
    setpoint.field_voltage_limit = Some(6);
    setpoint.pps_enabled = 1;
    assert_eq!(setpoint.take_field_current_limit(), Some(5));
    assert_eq!(setpoint.take_field_current_limit(), None);
    assert_eq!(setpoint.field_voltage_limit, Some(6));
    assert_eq!(setpoint.take_field_voltage_limit(), Some(6));
    assert_eq!(setpoint.take_field_voltage_limit(), None);
    assert_eq!(setpoint.pps_enabled, 1);
    assert_eq!(setpoint.take_pps_enabled(), 1);
    assert_eq!(setpoint.take_pps_enabled(), 2);
    assert_eq!(setpoint, Setpoint::new());
}

#[test]
fn stores_start_unsampled() {
    let data = ProcessData::new();
    assert_eq!(data.rpm, None);
    assert_eq!(data.temperature, None);
    assert_eq!(data.bat_current, None);
    assert_eq!(data.bat_soc, None);
    assert_eq!(data.bat_voltage, None);
    assert_eq!(data.input_voltage, None);
    assert_eq!(data.field_voltage, None);
    assert_eq!(data.field_current, None);
    assert_eq!(data.pps_temperature, None);
    assert_eq!(data.pps_mode, PpsRunningMode::Unknown.to_u8());
    assert_eq!(data.ble_rate, Some(0));
    assert_eq!(data.target_factor, Some(0));
    let setpoint = Setpoint::new();
    assert_eq!(setpoint.field_current_limit, None);
    assert_eq!(setpoint.field_voltage_limit, None);
    assert_eq!(setpoint.pps_enabled, PpsSetMode::DontTouch.to_u8());
    assert!(!setpoint.contactor_state);
}

#[test]
fn readings_are_stored() {
    let mut data = ProcessData::new();
    data.rpm = Some(1_000_000_000);
    read_pps(
        &mut data,
        Ok(single(13.5)),
        Ok(single(2.25)),
        Ok(single(41.0)),
        Ok(single(14.0)),
        Ok(PpsRunningMode::Current),
    );
    assert_eq!(data.field_voltage, Some(13_500_000));
    assert_eq!(data.field_current, Some(2_250_000));
    assert_eq!(data.pps_temperature, Some(41_000_000));
    assert_eq!(data.input_voltage, Some(14_000_000));
    assert_eq!(data.pps_mode, 2);
    assert_eq!(data.rpm, Some(1_000_000_000));
    assert_eq!(data.bat_voltage, None);
}

#[test]
fn failed_readings_leave_their_cells() {
    let mut data = ProcessData::new();
    read_pps(
        &mut data,
        Ok(single(13.5)),
        Ok(single(2.25)),
        Ok(single(41.0)),
        Ok(single(14.0)),
        Ok(PpsRunningMode::Voltage),
    );
    let before = data;
    read_pps(
        &mut data,
        Err(Error::I2c(ErrorKind::Bus)),
        Err(Error::ResultInvalid),
        Err(Error::Unknown),
        Err(Error::Unsupported),
        Err(Error::Unknown),
    );
    assert_eq!(data, before);
    read_pps(
        &mut data,
        Err(Error::ModuleNotFound),
        Ok(single(0.5)),
        Err(Error::FormatError),
        Err(Error::Unknown),
        Ok(PpsRunningMode::Off),
    );
    assert_eq!(data.field_voltage, Some(13_500_000));
    assert_eq!(data.field_current, Some(500_000));
    assert_eq!(data.pps_temperature, Some(41_000_000));
    assert_eq!(data.input_voltage, Some(14_000_000));
    assert_eq!(data.pps_mode, 0);
}

#[test]
fn readings_that_are_no_numbers_unsample_their_cells() {
    let mut data = ProcessData::new();
    data.field_voltage = Some(1);
    data.field_current = Some(2);
    data.pps_temperature = Some(3);
    read_pps(
        &mut data,
        Ok(single(f32::NAN)),
        Ok(single(f32::INFINITY)),
        Ok(single(1e30)),
        Err(Error::Unknown),
        Err(Error::Unknown),
    );
    assert_eq!(data.field_voltage, None);
    assert_eq!(data.field_current, None);
    assert_eq!(data.pps_temperature, None);
    assert_eq!(data.input_voltage, None);
    assert_eq!(data.pps_mode, 3);
}

#[test]
fn buttons_map_to_events() {
    assert_eq!(button_event(Button::Left, Press::Short(1)), ButtonEvent::DecShort(1));
    assert_eq!(button_event(Button::Left, Press::Short(4)), ButtonEvent::DecShort(4));
    assert_eq!(button_event(Button::Left, Press::Long), ButtonEvent::DecLong);
    assert_eq!(button_event(Button::Center, Press::Short(2)), ButtonEvent::OkShort(2));
    assert_eq!(button_event(Button::Center, Press::Long), ButtonEvent::OkLong);
    assert_eq!(button_event(Button::Right, Press::Short(3)), ButtonEvent::IncShort(3));
    assert_eq!(button_event(Button::Right, Press::Long), ButtonEvent::IncLong);
}

#[test]
fn exchange_is_given_up_after_three_cycles() {
    assert_eq!(PPS_LOOP_TIME_MS, 500);
    assert_eq!(PPS_TIMEOUT_MS, 3 * PPS_LOOP_TIME_MS);
}
