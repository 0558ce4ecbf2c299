//! Register protocol of the programmable power supply module.
//!
//! The module is a bus device with byte-addressed registers. A read sends the
//! register address and fetches one, two or four bytes; a write sends the
//! address followed by one or four bytes. Nothing here touches the bus: the
//! functions build the frames and interpret the responses.

use vstd::prelude::*;
use crate::shared::PpsRunningMode;
use crate::single::{le_bytes, le_u32, lemma_le_spell_then_read, Single};

verus! {

#[verifier::external_type_specification]
#[verifier::external_body]
pub struct ExI2cErrorKind(embedded_hal::i2c::ErrorKind);

/// What can go wrong in an exchange with the power module.
#[derive(Copy, Clone, Debug, PartialEq, Eq)]
pub enum Error {
    /// The response holds a value outside the register's range.
    Unknown,
    /// The response is of another kind than the one asked for.
    ResultInvalid,
    /// The command cannot be carried out.
    Unsupported,
    /// No power module answers on the bus.
    ModuleNotFound,
    /// The response is malformed.
    FormatError,
    /// The bus transaction itself failed.
    I2c(embedded_hal::i2c::ErrorKind),
}

impl Error {
    /// The error that stands for a failed bus transaction of the given kind.
    pub fn from_kind(kind: embedded_hal::i2c::ErrorKind) -> (error: Error)
        ensures
            error == Error::I2c(kind),
    {
        Error::I2c(kind)
    }
}

/// The registers that can be read.
#[derive(Copy, Clone, Debug, PartialEq, Eq, Structural)]
pub enum ReadCommand {
    ModuleId,
    GetRunningMode,
    GetDataFlag,
    ReadbackVoltage,
    ReadbackCurrent,
    GetTemperature,
    GetInputVoltage,
    GetAddress,
    PsuUidW0,
    PsuUidW1,
    PsuUidW2,
}

/// A decoded response.
#[derive(Copy, Clone, Debug, PartialEq, Eq, Structural)]
pub enum ReadResult {
    ModuleId(u16),
    RunningMode(PpsRunningMode),
    ReadbackVoltage(Single),
    ReadbackCurrent(Single),
    Temperature(Single),
    InputVoltage(Single),
}

impl ReadCommand {
    /// Address of the register.
    pub open spec fn register(self) -> u8 {
        match self {
            ReadCommand::ModuleId => 0x00,
            ReadCommand::GetRunningMode => 0x05,
            ReadCommand::GetDataFlag => 0x07,
            ReadCommand::ReadbackVoltage => 0x08,
            ReadCommand::ReadbackCurrent => 0x0c,
            ReadCommand::GetTemperature => 0x10,
            ReadCommand::GetInputVoltage => 0x14,
            ReadCommand::GetAddress => 0x50,
            ReadCommand::PsuUidW0 => 0x52,
            ReadCommand::PsuUidW1 => 0x56,
            ReadCommand::PsuUidW2 => 0x5a,
        }
    }

    /// Number of bytes that the register holds.
    pub open spec fn response_len(self) -> usize {
        match self {
            ReadCommand::ModuleId => 2,
            ReadCommand::GetRunningMode | ReadCommand::GetDataFlag | ReadCommand::GetAddress => 1,
            _ => 4,
        }
    }

    /// What a response means. Bytes beyond the register's length are not
    /// looked at.
    pub open spec fn decode(self, bytes: Seq<u8>) -> Result<ReadResult, Error>
        recommends
            bytes.len() == 4,
    {
        match self {
            ReadCommand::ModuleId => Ok(ReadResult::ModuleId((bytes[0] + bytes[1] * 0x100) as u16)),
            ReadCommand::GetRunningMode => match PpsRunningMode::decode(bytes[0]) {
                Some(mode) => Ok(ReadResult::RunningMode(mode)),
                None => Err(Error::Unknown),
            },
            ReadCommand::ReadbackVoltage => Ok(
                ReadResult::ReadbackVoltage(Single { bits: le_u32(bytes) as u32 }),
            ),
            ReadCommand::ReadbackCurrent => Ok(
                ReadResult::ReadbackCurrent(Single { bits: le_u32(bytes) as u32 }),
            ),
            ReadCommand::GetTemperature => Ok(
                ReadResult::Temperature(Single { bits: le_u32(bytes) as u32 }),
            ),
            ReadCommand::GetInputVoltage => Ok(
                ReadResult::InputVoltage(Single { bits: le_u32(bytes) as u32 }),
            ),
            _ => Err(Error::Unsupported),
        }
    }

    /// The register address to send and the number of bytes to fetch.
    pub fn get_read_command(&self) -> (r: (u8, usize))
        ensures
            r.0 == self.register(),
            r.1 == self.response_len(),
            r.1 == 1 || r.1 == 2 || r.1 == 4,
    {
        match self {
            ReadCommand::ModuleId => (0x0, 2),
            ReadCommand::GetRunningMode => (0x05, 1),
            ReadCommand::GetDataFlag => (0x07, 1),
            ReadCommand::ReadbackVoltage => (0x08, 4),
            ReadCommand::ReadbackCurrent => (0x0c, 4),
            ReadCommand::GetTemperature => (0x10, 4),
            ReadCommand::GetInputVoltage => (0x14, 4),
            ReadCommand::GetAddress => (0x50, 1),
            ReadCommand::PsuUidW0 => (0x52, 4),
            ReadCommand::PsuUidW1 => (0x56, 4),
            ReadCommand::PsuUidW2 => (0x5a, 4),
        }
    }

    /// Interprets the bytes fetched for this command.
    ///
    /// `buffer` holds the response in its first bytes and anything behind
    /// them. A running mode byte that names no mode is `Error::Unknown`; a
    /// register without a typed result is `Error::Unsupported`.
    pub fn evaluate_result(&self, buffer: &[u8; 4]) -> (r: Result<ReadResult, Error>)
        ensures
            r == self.decode(buffer@),
    {
        match self {
            ReadCommand::ModuleId => {
                let low: u16 = buffer[0] as u16;
                let high: u16 = buffer[1] as u16;
                Ok(ReadResult::ModuleId(high * 0x100 + low))
            },
            ReadCommand::GetRunningMode => match PpsRunningMode::from_u8(buffer[0]) {
                Some(mode) => Ok(ReadResult::RunningMode(mode)),
                None => Err(Error::Unknown),
            },
            ReadCommand::ReadbackVoltage => Ok(
                ReadResult::ReadbackVoltage(Single::from_le_bytes(*buffer)),
            ),
            ReadCommand::ReadbackCurrent => Ok(
                ReadResult::ReadbackCurrent(Single::from_le_bytes(*buffer)),
            ),
            ReadCommand::GetTemperature => Ok(
                ReadResult::Temperature(Single::from_le_bytes(*buffer)),
            ),
            ReadCommand::GetInputVoltage => Ok(
                ReadResult::InputVoltage(Single::from_le_bytes(*buffer)),
            ),
            _ => Err(Error::Unsupported),
        }
    }
}

impl ReadResult {
    /// The running mode, if that is what was read.
    pub fn get_running_mode(&self) -> (r: Result<PpsRunningMode, Error>)
        ensures
            r == (match *self {
                ReadResult::RunningMode(mode) => Ok::<PpsRunningMode, Error>(mode),
                _ => Err(Error::ResultInvalid),
            }),
    {
        match self {
            ReadResult::RunningMode(mode) => Ok(*mode),
            _ => Err(Error::ResultInvalid),
        }
    }

    /// The output voltage, if that is what was read.
    pub fn get_voltage(&self) -> (r: Result<Single, Error>)
        ensures
            r == (match *self {
                ReadResult::ReadbackVoltage(voltage) => Ok::<Single, Error>(voltage),
                _ => Err(Error::ResultInvalid),
            }),
    {
        match self {
            ReadResult::ReadbackVoltage(voltage) => Ok(*voltage),
            _ => Err(Error::ResultInvalid),
        }
    }

    /// The output current, if that is what was read.
    pub fn get_current(&self) -> (r: Result<Single, Error>)
        ensures
            r == (match *self {
                ReadResult::ReadbackCurrent(current) => Ok::<Single, Error>(current),
                _ => Err(Error::ResultInvalid),
            }),
    {
        match self {
            ReadResult::ReadbackCurrent(current) => Ok(*current),
            _ => Err(Error::ResultInvalid),
        }
    }

    /// The module's temperature, if that is what was read.
    pub fn get_temperature(&self) -> (r: Result<Single, Error>)
        ensures
            r == (match *self {
                ReadResult::Temperature(temperature) => Ok::<Single, Error>(temperature),
                _ => Err(Error::ResultInvalid),
            }),
    {
        match self {
            ReadResult::Temperature(temperature) => Ok(*temperature),
            _ => Err(Error::ResultInvalid),
        }
    }

    /// The input voltage, if that is what was read.
    pub fn get_input_voltage(&self) -> (r: Result<Single, Error>)
        ensures
            r == (match *self {
                ReadResult::InputVoltage(voltage) => Ok::<Single, Error>(voltage),
                _ => Err(Error::ResultInvalid),
            }),
    {
        match self {
            ReadResult::InputVoltage(voltage) => Ok(*voltage),
            _ => Err(Error::ResultInvalid),
        }
    }

    /// The module's identifier, if that is what was read.
    pub fn get_module_id(&self) -> (r: Result<u16, Error>)
        ensures
            r == (match *self {
                ReadResult::ModuleId(id) => Ok::<u16, Error>(id),
                _ => Err(Error::ResultInvalid),
            }),
    {
        match self {
            ReadResult::ModuleId(id) => Ok(*id),
            _ => Err(Error::ResultInvalid),
        }
    }
}

/// No two registers share an address.
pub proof fn lemma_registers_are_distinct(a: ReadCommand, b: ReadCommand)
    requires
        a.register() == b.register(),
    ensures
        a == b,
{
}

/// What can be written to the module.
#[derive(Copy, Clone, Debug, PartialEq, Eq, Structural)]
pub enum WriteCommand {
    ModuleEnable(bool),
    SetVoltage(Single),
    SetCurrent(Single),
}

impl WriteCommand {
    /// The bytes to put on the bus: register address, then the payload.
    pub open spec fn frame(self) -> Seq<u8> {
        match self {
            WriteCommand::ModuleEnable(enable) => seq![0x04u8, if enable { 1u8 } else { 0u8 }],
            WriteCommand::SetVoltage(voltage) => seq![0x18u8] + le_bytes(voltage.bits),
            WriteCommand::SetCurrent(current) => seq![0x1cu8] + le_bytes(current.bits),
        }
    }

    /// Writes the frame of this command to the start of `buffer` and returns
    /// its length. The rest of the buffer keeps what it held.
    pub fn get_write_command(&self, buffer: &mut [u8; 5]) -> (n: usize)
        ensures
            n == self.frame().len(),
            n == 2 || n == 5,
            final(buffer)@.subrange(0, n as int) == self.frame(),
            forall|i: int| n <= i < 5 ==> final(buffer)@[i] == old(buffer)@[i],
    {
        match self {
            WriteCommand::ModuleEnable(enable) => {
                buffer[0] = 0x04;
                buffer[1] = if *enable { 1 } else { 0 };
                assert(buffer@.subrange(0, 2) =~= self.frame());
                2
            },
            WriteCommand::SetVoltage(voltage) => {
                let payload: [u8; 4] = voltage.to_le_bytes();
                buffer[0] = 0x18;
                buffer[1] = payload[0];
                buffer[2] = payload[1];
                buffer[3] = payload[2];
                buffer[4] = payload[3];
                assert(buffer@.subrange(0, 5) =~= self.frame());
                5
            },
            WriteCommand::SetCurrent(current) => {
                let payload: [u8; 4] = current.to_le_bytes();
                buffer[0] = 0x1c;
                buffer[1] = payload[0];
                buffer[2] = payload[1];
                buffer[3] = payload[2];
                buffer[4] = payload[3];
                assert(buffer@.subrange(0, 5) =~= self.frame());
                5
            },
        }
    }
}

/// The payload of a limit's frame is the limit's single as the module
/// reports it back: what is written as a voltage or a current is read as
/// the same voltage or current.
pub proof fn lemma_limit_frame_reads_back(single: Single)
    ensures
        ReadCommand::ReadbackVoltage.decode(WriteCommand::SetVoltage(single).frame().subrange(1, 5))
            == Ok::<ReadResult, Error>(ReadResult::ReadbackVoltage(single)),
        ReadCommand::ReadbackCurrent.decode(WriteCommand::SetCurrent(single).frame().subrange(1, 5))
            == Ok::<ReadResult, Error>(ReadResult::ReadbackCurrent(single)),
{
    lemma_le_spell_then_read(single.bits);
    assert(WriteCommand::SetVoltage(single).frame().subrange(1, 5) =~= le_bytes(single.bits));
    assert(WriteCommand::SetCurrent(single).frame().subrange(1, 5) =~= le_bytes(single.bits));
}

} // verus!
