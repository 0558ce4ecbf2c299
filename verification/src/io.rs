//! The steps between the stores and the collaborators that do the I/O.
//!
//! The I/O tasks exchange bytes with the hardware; what they send and what
//! they make of the answers is decided here.

use vstd::prelude::*;
use crate::pps::{Error, WriteCommand};
use crate::shared::{ButtonEvent, PpsRunningMode, PpsSetMode, ProcessData, Setpoint};
use crate::single::{encoding, Single};
use crate::units::as_int;

verus! {

/// Time between two exchanges with the power module in milliseconds.
pub const PPS_LOOP_TIME_MS: u64 = 500;

/// Time after which an exchange with the power module is given up, in
/// milliseconds: three cycles.
pub const PPS_TIMEOUT_MS: u64 = 1500;

/// The single that is sent for a fixed-point limit.
pub open spec fn limit_on_wire(limit: i64) -> Single {
    Single { bits: encoding(limit as int) as u32 }
}

/// The commands that bring the power module up to date with what the
/// setpoint store holds, in the order in which they are sent: the current
/// limit and the voltage limit, each if one was published, then the enable
/// command unless it is `DontTouch`. An enable byte that names no command
/// is `Error::Unsupported`.
pub open spec fn pending_writes(setpoint: Setpoint) -> Result<Seq<WriteCommand>, Error> {
    match PpsSetMode::decode(setpoint.pps_enabled) {
        None => Err(Error::Unsupported),
        Some(mode) => Ok(
            (match setpoint.field_current_limit {
                Some(limit) => seq![WriteCommand::SetCurrent(limit_on_wire(limit))],
                None => Seq::<WriteCommand>::empty(),
            }) + (match setpoint.field_voltage_limit {
                Some(limit) => seq![WriteCommand::SetVoltage(limit_on_wire(limit))],
                None => Seq::<WriteCommand>::empty(),
            }) + (match mode {
                PpsSetMode::Off => seq![WriteCommand::ModuleEnable(false)],
                PpsSetMode::On => seq![WriteCommand::ModuleEnable(true)],
                PpsSetMode::DontTouch => Seq::<WriteCommand>::empty(),
            }),
        ),
    }
}

/// The setpoint store after the I/O task has taken what was published: no
/// limits, and `DontTouch`.
pub open spec fn taken(setpoint: Setpoint) -> Setpoint {
    Setpoint {
        field_current_limit: None,
        field_voltage_limit: None,
        pps_enabled: PpsSetMode::DontTouch.code(),
        ..setpoint
    }
}

/// What a telemetry cell holds after a reading: the reading in fixed-point
/// if the exchange succeeded, else what it held before.
pub open spec fn cell_after(cell: Option<i64>, reading: Result<Single, Error>) -> Option<int> {
    match reading {
        Ok(single) => single.micro(),
        Err(_) => as_int(cell),
    }
}

/// The first command after power-up: the module is disabled before anything
/// else happens, in case a reset has left it energized.
pub fn power_up_command() -> (command: WriteCommand)
    ensures
        command == WriteCommand::ModuleEnable(false),
{
    WriteCommand::ModuleEnable(false)
}

/// Takes what was published in the setpoint store and returns the commands
/// to send, in order. The store is reset whether or not the commands can be
/// built, so that nothing is ever sent twice.
pub fn write_pps(setpoint: &mut Setpoint) -> (r: Result<Vec<WriteCommand>, Error>)
    ensures
        *final(setpoint) == taken(*old(setpoint)),
        r matches Ok(commands) ==> pending_writes(*old(setpoint)) == Ok::<
            Seq<WriteCommand>,
            Error,
        >(commands@),
        r matches Err(error) ==> pending_writes(*old(setpoint)) == Err::<
            Seq<WriteCommand>,
            Error,
        >(error),
{
    let current_limit: Option<i64> = setpoint.take_field_current_limit();
    let voltage_limit: Option<i64> = setpoint.take_field_voltage_limit();
    let enabled: PpsSetMode = match PpsSetMode::from_u8(setpoint.take_pps_enabled()) {
        Some(mode) => mode,
        None => {
            return Err(Error::Unsupported);
        },
    };
    let mut commands: Vec<WriteCommand> = Vec::new();
    if let Some(limit) = current_limit {
        commands.push(WriteCommand::SetCurrent(Single::from_micro(limit)));
    }
    if let Some(limit) = voltage_limit {
        commands.push(WriteCommand::SetVoltage(Single::from_micro(limit)));
    }
    match enabled {
        PpsSetMode::Off => {
            commands.push(WriteCommand::ModuleEnable(false));
        },
        PpsSetMode::On => {
            commands.push(WriteCommand::ModuleEnable(true));
        },
        PpsSetMode::DontTouch => {},
    }
    proof {
        assert(pending_writes(*old(setpoint)) matches Ok(pending) && pending =~= commands@);
    }
    Ok(commands)
}

/// Stores what was read from the power module. A reading whose exchange
/// failed leaves its cell as it was.
pub fn read_pps(
    process_data: &mut ProcessData,
    voltage: Result<Single, Error>,
    current: Result<Single, Error>,
    temperature: Result<Single, Error>,
    input_voltage: Result<Single, Error>,
    running_mode: Result<PpsRunningMode, Error>,
)
    ensures
        as_int(final(process_data).field_voltage) == cell_after(
            old(process_data).field_voltage,
            voltage,
        ),
        as_int(final(process_data).field_current) == cell_after(
            old(process_data).field_current,
            current,
        ),
        as_int(final(process_data).pps_temperature) == cell_after(
            old(process_data).pps_temperature,
            temperature,
        ),
        as_int(final(process_data).input_voltage) == cell_after(
            old(process_data).input_voltage,
            input_voltage,
        ),
        final(process_data).pps_mode == (match running_mode {
            Ok(mode) => mode.code(),
            Err(_) => old(process_data).pps_mode,
        }),
        *final(process_data) == (ProcessData {
            field_voltage: final(process_data).field_voltage,
            field_current: final(process_data).field_current,
            pps_temperature: final(process_data).pps_temperature,
            input_voltage: final(process_data).input_voltage,
            pps_mode: final(process_data).pps_mode,
            ..*old(process_data)
        }),
{
    if let Ok(single) = voltage {
        process_data.field_voltage = single.to_micro();
    }
    if let Ok(single) = current {
        process_data.field_current = single.to_micro();
    }
    if let Ok(single) = temperature {
        process_data.pps_temperature = single.to_micro();
    }
    if let Ok(single) = input_voltage {
        process_data.input_voltage = single.to_micro();
    }
    if let Ok(mode) = running_mode {
        process_data.pps_mode = mode.to_u8();
    }
}

/// What was taken from the setpoint store is not written again: until
/// something new is published there is nothing to send.
pub proof fn lemma_nothing_is_written_twice(setpoint: Setpoint)
    ensures
        pending_writes(taken(setpoint)) == Ok::<Seq<WriteCommand>, Error>(
            Seq::<WriteCommand>::empty(),
        ),
{
    assert(Seq::<WriteCommand>::empty() + Seq::<WriteCommand>::empty() + Seq::<
        WriteCommand,
    >::empty() =~= Seq::<WriteCommand>::empty());
}

/// One of the regulator's three buttons.
#[derive(Copy, Clone, Debug, PartialEq, Eq, Structural)]
pub enum Button {
    Left,
    Center,
    Right,
}

/// What the debouncer reports of a button: a burst of short presses or one
/// long press.
#[derive(Copy, Clone, Debug, PartialEq, Eq, Structural)]
pub enum Press {
    Short(usize),
    Long,
}

/// The event that a press of a button stands for: the left button lowers,
/// the right button raises, the middle button confirms.
pub fn button_event(button: Button, press: Press) -> (event: ButtonEvent)
    ensures
        event == (match (button, press) {
            (Button::Left, Press::Short(count)) => ButtonEvent::DecShort(count),
            (Button::Left, Press::Long) => ButtonEvent::DecLong,
            (Button::Center, Press::Short(count)) => ButtonEvent::OkShort(count),
            (Button::Center, Press::Long) => ButtonEvent::OkLong,
            (Button::Right, Press::Short(count)) => ButtonEvent::IncShort(count),
            (Button::Right, Press::Long) => ButtonEvent::IncLong,
        }),
{
    match button {
        Button::Left => match press {
            Press::Short(count) => ButtonEvent::DecShort(count),
            Press::Long => ButtonEvent::DecLong,
        },
        Button::Center => match press {
            Press::Short(count) => ButtonEvent::OkShort(count),
            Press::Long => ButtonEvent::OkLong,
        },
        Button::Right => match press {
            Press::Short(count) => ButtonEvent::IncShort(count),
            Press::Long => ButtonEvent::IncLong,
        },
    }
}

} // verus!
