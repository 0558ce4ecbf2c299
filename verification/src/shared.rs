//! Data shared between the regulator's tasks: limits, the power module's
//! modes, the telemetry and setpoint stores and the events on the bus.

use vstd::prelude::*;

verus! {

/// Highest field current that is ever commanded on top of the idle current,
/// in microamperes.
pub const MAX_FIELD_CURRENT: i64 = 3_000_000;

/// Field voltage limit while the regulator is active, in microvolts.
pub const MAX_FIELD_VOLTAGE: i64 = 20_000_000;

/// Lowest engine speed at which charging is possible, in rpm.
pub const RPM_MIN: usize = 500;

/// Highest engine speed that the regulator distinguishes, in rpm.
pub const RPM_MAX: usize = 4500;

/// Capacity of the status string that names the regulator's mode, in bytes.
pub const RM_LEN: usize = 10;

/// Capacity of the event bus. A producer that finds the bus full waits.
pub const MAX_EVENTS: usize = 10;

/// Running mode that the power module reports.
#[derive(Copy, Clone, Debug, PartialEq, Eq, Structural)]
pub enum PpsRunningMode {
    Off,
    Voltage,
    Current,
    Unknown,
}

impl PpsRunningMode {
    /// The byte that stands for this mode on the wire and in the store.
    pub open spec fn code(self) -> u8 {
        match self {
            PpsRunningMode::Off => 0,
            PpsRunningMode::Voltage => 1,
            PpsRunningMode::Current => 2,
            PpsRunningMode::Unknown => 3,
        }
    }

    /// The mode that `byte` stands for, if any.
    pub open spec fn decode(byte: u8) -> Option<PpsRunningMode> {
        if byte == 0 {
            Some(PpsRunningMode::Off)
        } else if byte == 1 {
            Some(PpsRunningMode::Voltage)
        } else if byte == 2 {
            Some(PpsRunningMode::Current)
        } else if byte == 3 {
            Some(PpsRunningMode::Unknown)
        } else {
            None
        }
    }

    /// Decodes a mode byte; bytes above 3 stand for no mode.
    pub fn from_u8(byte: u8) -> (mode: Option<PpsRunningMode>)
        ensures
            mode == Self::decode(byte),
            mode is Some <==> byte <= 3,
            mode matches Some(m) ==> m.code() == byte,
    {
        match byte {
            0 => Some(PpsRunningMode::Off),
            1 => Some(PpsRunningMode::Voltage),
            2 => Some(PpsRunningMode::Current),
            3 => Some(PpsRunningMode::Unknown),
            _ => None,
        }
    }

    /// The byte that stands for this mode.
    pub fn to_u8(self) -> (byte: u8)
        ensures
            byte == self.code(),
            Self::decode(byte) == Some(self),
    {
        match self {
            PpsRunningMode::Off => 0,
            PpsRunningMode::Voltage => 1,
            PpsRunningMode::Current => 2,
            PpsRunningMode::Unknown => 3,
        }
    }
}

impl Default for PpsRunningMode {
    fn default() -> (mode: PpsRunningMode)
        ensures
            mode == PpsRunningMode::Unknown,
    {
        PpsRunningMode::Unknown
    }
}

/// Command for the power module's output stage.
///
/// `DontTouch` means that nothing is commanded in this cycle, so that an idle
/// controller never forces the module off by accident.
#[derive(Copy, Clone, Debug, PartialEq, Eq, Structural)]
pub enum PpsSetMode {
    Off,
    On,
    DontTouch,
}

impl PpsSetMode {
    /// The byte that stands for this command in the store.
    pub open spec fn code(self) -> u8 {
        match self {
            PpsSetMode::Off => 0,
            PpsSetMode::On => 1,
            PpsSetMode::DontTouch => 2,
        }
    }

    /// The command that `byte` stands for, if any.
    pub open spec fn decode(byte: u8) -> Option<PpsSetMode> {
        if byte == 0 {
            Some(PpsSetMode::Off)
        } else if byte == 1 {
            Some(PpsSetMode::On)
        } else if byte == 2 {
            Some(PpsSetMode::DontTouch)
        } else {
            None
        }
    }

    /// Decodes a command byte; bytes above 2 stand for no command.
    pub fn from_u8(byte: u8) -> (mode: Option<PpsSetMode>)
        ensures
            mode == Self::decode(byte),
            mode is Some <==> byte <= 2,
            mode matches Some(m) ==> m.code() == byte,
    {
        match byte {
            0 => Some(PpsSetMode::Off),
            1 => Some(PpsSetMode::On),
            2 => Some(PpsSetMode::DontTouch),
            _ => None,
        }
    }

    /// The byte that stands for this command.
    pub fn to_u8(self) -> (byte: u8)
        ensures
            byte == self.code(),
            Self::decode(byte) == Some(self),
    {
        match self {
            PpsSetMode::Off => 0,
            PpsSetMode::On => 1,
            PpsSetMode::DontTouch => 2,
        }
    }
}

impl Default for PpsSetMode {
    fn default() -> (mode: PpsSetMode)
        ensures
            mode == PpsSetMode::DontTouch,
    {
        PpsSetMode::DontTouch
    }
}

/// Everything that the regulator observes.
///
/// Each cell is written by one producer and read by any number of consumers;
/// no two cells are updated together. An analog cell holds `None` until its
/// first sample arrives.
#[derive(Copy, Clone, Debug, PartialEq, Eq, Structural)]
pub struct ProcessData {
    /// Engine speed.
    pub rpm: Option<i64>,
    /// Coolant or ambient temperature.
    pub temperature: Option<i64>,
    /// Battery current.
    pub bat_current: Option<i64>,
    /// Battery state of charge.
    pub bat_soc: Option<i64>,
    /// Battery voltage.
    pub bat_voltage: Option<i64>,
    /// Input voltage of the power module.
    pub input_voltage: Option<i64>,
    /// Field voltage read back from the power module.
    pub field_voltage: Option<i64>,
    /// Field current read back from the power module.
    pub field_current: Option<i64>,
    /// Temperature of the power module.
    pub pps_temperature: Option<i64>,
    /// Running mode of the power module, as its [`PpsRunningMode`] byte.
    pub pps_mode: u8,
    /// Smoothed rate of battery telemetry samples.
    pub ble_rate: Option<i64>,
    /// Target factor that the controller currently works with.
    pub target_factor: Option<i64>,
}

impl ProcessData {
    /// The store before any producer has written: analog cells unsampled,
    /// the module's mode unknown, rate and target factor zero.
    pub open spec fn initial() -> ProcessData {
        ProcessData {
            rpm: None,
            temperature: None,
            bat_current: None,
            bat_soc: None,
            bat_voltage: None,
            input_voltage: None,
            field_voltage: None,
            field_current: None,
            pps_temperature: None,
            pps_mode: PpsRunningMode::Unknown.code(),
            ble_rate: Some(0i64),
            target_factor: Some(0i64),
        }
    }

    /// Creates the store in its initial state.
    pub fn new() -> (data: ProcessData)
        ensures
            data == Self::initial(),
    {
        ProcessData {
            rpm: None,
            temperature: None,
            bat_current: None,
            bat_soc: None,
            bat_voltage: None,
            input_voltage: None,
            field_voltage: None,
            field_current: None,
            pps_temperature: None,
            pps_mode: PpsRunningMode::Unknown.to_u8(),
            ble_rate: Some(0),
            target_factor: Some(0),
        }
    }
}

/// What the regulator commands.
///
/// The controller and the state machine write, the power module's I/O task
/// takes. A limit of `None` and an enable byte of `DontTouch` mean that
/// nothing new was published since the cell was last taken.
#[derive(Copy, Clone, Debug, PartialEq, Eq, Structural)]
pub struct Setpoint {
    /// Field current limit.
    pub field_current_limit: Option<i64>,
    /// Field voltage limit.
    pub field_voltage_limit: Option<i64>,
    /// Enable command, as its [`PpsSetMode`] byte.
    pub pps_enabled: u8,
    /// Commanded state of the contactor.
    pub contactor_state: bool,
}

impl Setpoint {
    /// The store with nothing commanded.
    pub open spec fn initial() -> Setpoint {
        Setpoint {
            field_current_limit: None,
            field_voltage_limit: None,
            pps_enabled: PpsSetMode::DontTouch.code(),
            contactor_state: false,
        }
    }

    /// The store after the module was commanded on with the full field
    /// voltage limit.
    pub open spec fn switched_on(self) -> Setpoint {
        Setpoint {
            field_voltage_limit: Some(MAX_FIELD_VOLTAGE),
            pps_enabled: PpsSetMode::On.code(),
            ..self
        }
    }

    /// The store after the module was commanded off with a field voltage
    /// limit of zero.
    pub open spec fn switched_off(self) -> Setpoint {
        Setpoint { field_voltage_limit: Some(0i64), pps_enabled: PpsSetMode::Off.code(), ..self }
    }

    /// Creates the store with nothing commanded.
    pub fn new() -> (setpoint: Setpoint)
        ensures
            setpoint == Self::initial(),
    {
        Setpoint {
            field_current_limit: None,
            field_voltage_limit: None,
            pps_enabled: PpsSetMode::DontTouch.to_u8(),
            contactor_state: false,
        }
    }

    /// Reads the field current limit and resets the cell, so that the value
    /// is applied at most once.
    pub fn take_field_current_limit(&mut self) -> (limit: Option<i64>)
        ensures
            limit == old(self).field_current_limit,
            *final(self) == (Setpoint { field_current_limit: None, ..*old(self) }),
    {
        let limit: Option<i64> = self.field_current_limit;
        self.field_current_limit = None;
        limit
    }

    /// Reads the field voltage limit and resets the cell, so that the value
    /// is applied at most once.
    pub fn take_field_voltage_limit(&mut self) -> (limit: Option<i64>)
        ensures
            limit == old(self).field_voltage_limit,
            *final(self) == (Setpoint { field_voltage_limit: None, ..*old(self) }),
    {
        let limit: Option<i64> = self.field_voltage_limit;
        self.field_voltage_limit = None;
        limit
    }

    /// Reads the enable byte and resets the cell to `DontTouch`.
    pub fn take_pps_enabled(&mut self) -> (byte: u8)
        ensures
            byte == old(self).pps_enabled,
            *final(self) == (Setpoint {
                pps_enabled: PpsSetMode::DontTouch.code(),
                ..*old(self)
            }),
    {
        let byte: u8 = self.pps_enabled;
        self.pps_enabled = PpsSetMode::DontTouch.to_u8();
        byte
    }
}

/// Temperature class reported by a thermal monitor.
#[derive(Copy, Clone, Debug, PartialEq, Eq, Structural)]
pub enum TemperatureEvent {
    Normal,
    Warning,
    Overheated,
}

/// Engine speed class reported by the speed monitor.
#[derive(Copy, Clone, Debug, PartialEq, Eq, Structural)]
pub enum RpmEvent {
    Low,
    HighIdle,
    Normal,
}

/// Debounced operator input. Short presses carry the number of presses in
/// the burst.
#[derive(Copy, Clone, Debug, PartialEq, Eq, Structural)]
pub enum ButtonEvent {
    DecShort(usize),
    DecLong,
    OkShort(usize),
    OkLong,
    IncShort(usize),
    IncLong,
}

/// Everything that can arrive on the regulator's event bus.
#[derive(Copy, Clone, Debug, PartialEq, Eq, Structural)]
pub enum RegulatorEvent {
    Ready,
    Rpm(RpmEvent),
    Button(ButtonEvent),
    Temperature(TemperatureEvent),
}

} // verus!
