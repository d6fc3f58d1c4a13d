//! Debug, firmware-version, temperature and pin commands.

use vstd::prelude::*;

use crate::commands::{send_params_wf, NinaCommand, Params, RecvParam, SendParam};
use crate::transport::{CountdownTimer, InputLine, OutputLine, SpiTransfer};
use crate::{Error, WifiNina};

verus! {

/// The mode of a pin on the chip, as Arduino names them.
#[derive(Debug, PartialEq, Eq, Structural, Clone, Copy)]
pub enum ArduinoPinMode {
    Input,
    Output,
    InputPullup,
    Unknown,
}

impl ArduinoPinMode {
    /// The wire byte for the mode.
    pub open spec fn spec_byte(self) -> u8 {
        match self {
            ArduinoPinMode::Input => 0,
            ArduinoPinMode::Output => 1,
            ArduinoPinMode::InputPullup => 2,
            ArduinoPinMode::Unknown => 255,
        }
    }

    /// The wire byte for the mode.
    pub fn byte(self) -> (r: u8)
        ensures
            r == self.spec_byte(),
    {
        match self {
            ArduinoPinMode::Input => 0,
            ArduinoPinMode::Output => 1,
            ArduinoPinMode::InputPullup => 2,
            ArduinoPinMode::Unknown => 255,
        }
    }

    /// The mode a byte stands for.
    pub fn from_byte(b: u8) -> (r: ArduinoPinMode)
        ensures
            b == 0 ==> r == ArduinoPinMode::Input,
            b == 1 ==> r == ArduinoPinMode::Output,
            b == 2 ==> r == ArduinoPinMode::InputPullup,
            b > 2 ==> r == ArduinoPinMode::Unknown,
    {
        match b {
            0u8 => ArduinoPinMode::Input,
            1u8 => ArduinoPinMode::Output,
            2u8 => ArduinoPinMode::InputPullup,
            _ => ArduinoPinMode::Unknown,
        }
    }
}

impl<CS, B, T> WifiNina<CS, B, T> where CS: OutputLine, B: InputLine, T: CountdownTimer {
    /// Sends a command of single-byte parameters and expects the bare
    /// acknowledgement back.
    fn byte_command_ack<S: SpiTransfer>(
        &mut self,
        spi: &mut S,
        cmd: NinaCommand,
        bytes: &Vec<u8>,
    ) -> (r: Result<(), Error>)
        requires
            bytes@.len() <= 255,
    {
        let send = crate::commands::byte_params(bytes);
        assert(send_params_wf(send.params@, send.use_16_bit_length));
        let mut rs: Vec<RecvParam> = Vec::new();
        rs.push(RecvParam::Ack);
        let recv = Params::of(rs);
        self.send_and_receive(spi, cmd, &send, &recv)?;
        Ok(())
    }

    /// Puts the chip in or out of debug mode, in which it echoes command
    /// traffic on its UART.
    pub fn set_debug<S: SpiTransfer>(&mut self, spi: &mut S, enabled: bool) -> (r: Result<
        (),
        Error,
    >) {
        let mut bytes: Vec<u8> = Vec::new();
        bytes.push(if enabled { 1 } else { 0 });
        self.byte_command_ack(spi, NinaCommand::SetDebug, &bytes)
    }

    /// Returns the chip's internal temperature as the four raw bytes of a
    /// little-endian 32-bit float, for the embedding program to decode.
    pub fn get_temperature<S: SpiTransfer>(&mut self, spi: &mut S) -> (r: Result<[u8; 4], Error>) {
        let send: Params<SendParam> = Params::none();
        let mut rs: Vec<RecvParam> = Vec::new();
        rs.push(RecvParam::Float);
        let recv = Params::of(rs);
        let vals = self.send_and_receive(spi, NinaCommand::GetTemperature, &send, &recv)?;
        assert(crate::commands::value_matches_shape(
            crate::commands::rv_views(vals@)[0],
            recv.params@[0],
        ));
        Ok(crate::commands::take_float_bytes(&vals, 0))
    }

    /// Returns the firmware version as the bytes the chip reports, up to
    /// ten of them; the final byte of the reported string is a C-string
    /// terminator, which callers drop when printing. The request is
    /// `GetFirmwareVersion` with no parameters; what the reply holds is
    /// the chip's to choose, so only its size is promised here.
    pub fn get_firmware_version<S: SpiTransfer>(&mut self, spi: &mut S) -> (r: Result<
        Vec<u8>,
        Error,
    >)
        ensures
            r matches Ok(v) ==> v@.len() <= 10,
    {
        let send: Params<SendParam> = Params::none();
        let mut rs: Vec<RecvParam> = Vec::new();
        rs.push(RecvParam::Buffer(10));
        let recv = Params::of(rs);
        let vals = self.send_and_receive(spi, NinaCommand::GetFirmwareVersion, &send, &recv)?;
        assert(crate::commands::value_matches_shape(
            crate::commands::rv_views(vals@)[0],
            recv.params@[0],
        ));
        let (buf, _reported) = crate::commands::take_buffer(&vals, 0);
        Ok(buf)
    }

    /// Sets the mode of a pin on the chip.
    pub fn pin_set_mode<S: SpiTransfer>(
        &mut self,
        spi: &mut S,
        pin: u8,
        mode: ArduinoPinMode,
    ) -> (r: Result<(), Error>) {
        let mut bytes: Vec<u8> = Vec::new();
        bytes.push(pin);
        bytes.push(mode.byte());
        self.byte_command_ack(spi, NinaCommand::SetPinMode, &bytes)
    }

    /// Drives a pin on the chip high or low.
    pub fn pin_digital_write<S: SpiTransfer>(
        &mut self,
        spi: &mut S,
        pin: u8,
        value: u8,
    ) -> (r: Result<(), Error>) {
        let mut bytes: Vec<u8> = Vec::new();
        bytes.push(pin);
        bytes.push(value);
        self.byte_command_ack(spi, NinaCommand::SetDigitalWrite, &bytes)
    }

    /// Drives a pin on the chip with an analog duty cycle.
    pub fn pin_analog_write<S: SpiTransfer>(
        &mut self,
        spi: &mut S,
        pin: u8,
        value: u8,
    ) -> (r: Result<(), Error>) {
        let mut bytes: Vec<u8> = Vec::new();
        bytes.push(pin);
        bytes.push(value);
        self.byte_command_ack(spi, NinaCommand::SetAnalogWrite, &bytes)
    }
}

} // verus!
