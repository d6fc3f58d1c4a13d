//! Host-side driver for the WiFiNINA Wi-Fi coprocessor (an ESP32 running the
//! Arduino/Adafruit NINA firmware), attached over an SPI bus with a
//! chip-select output, a "busy" input, and an optional reset line.
//!
//! The crate is organised around three verified subsystems:
//!
//! * the SPI command protocol codec ([`commands`]): framing, length
//!   encoding, per-command parameter marshalling and unmarshalling;
//! * the socket layer ([`commands::socket`]): allocation, connection,
//!   streaming read/write, server accept, and release of coprocessor socket
//!   handles;
//! * the HTTP head framer ([`http`]): a buffering, incrementally driven
//!   parser that extracts a request or response head from a byte stream and
//!   then streams the body.
//!
//! Board wiring (pins, SPI peripherals, timers) is reached only through the
//! small traits in [`transport`], which the embedding program implements.

pub mod chip_select;
pub mod commands;
pub mod http;
pub mod millis;
pub mod transport;

use vstd::prelude::*;

use crate::chip_select::WifiNinaChipSelect;
use crate::commands::socket::SocketStatus;
use crate::commands::wifi::WifiStatus;
use crate::transport::{CountdownTimer, InputLine, OutputLine};

verus! {

/// Everything that can go wrong between the driver and the chip.
#[derive(Debug, PartialEq, Eq, Structural, Clone, Copy)]
pub enum Error {
    /// The chip-select output could not be driven.
    ChipSelectPinError,
    /// The chip's busy pin did not settle within the wait after selecting.
    ChipSelectTimeout,
    /// The reset output could not be driven.
    ResetPinError,
    /// The chip did not start its response within the expected time.
    ResponseTimeout,
    /// The chip sent fewer response parameters than expected; the value is
    /// the index of the first missing one.
    MissingParam(u8),
    /// The chip sent more response parameters than expected; the value is
    /// the count it announced.
    UnexpectedParam(u8),
    /// A response parameter had a different size than expected:
    /// `(expected, got)`.
    MismatchedParamSize(usize, usize),
    /// The chip answered with its error token instead of a response.
    ErrorResponse,
    /// The chip sent a byte other than the expected one: `(expected, got)`.
    UnexpectedResponse(u8, u8),
    /// A Wi-Fi connection or access point did not come up in time; holds the
    /// last status the chip reported.
    ConnectionFailed(WifiStatus),
    /// A socket connection was not established in time; holds the last
    /// status the chip reported.
    SocketConnectionFailed(SocketStatus),
    /// A read, write or close was attempted on a socket already closed.
    SocketClosed,
    /// The chip has no socket handles left to give out.
    NoSocketAvailable,
    /// The SPI bus itself failed.
    SpiError,
    /// A formatted write into a socket failed.
    FormatError,
}

/// The outcome of an operation that may simply not be ready yet: either a
/// real [`Error`], or a request to try again later.
#[derive(Debug, PartialEq, Eq, Structural, Clone, Copy)]
pub enum NbError {
    /// Nothing is wrong, but the operation cannot proceed yet.
    WouldBlock,
    /// The operation failed.
    Other(Error),
}

/// Device interface for the WiFiNINA ESP32 Wi-Fi coprocessor.
///
/// Owns the chip-select handshake (CS output plus busy input) and the
/// count-down timer; the SPI bus is borrowed on every call so the embedding
/// program can share it, as long as nothing else touches it during a call.
pub struct WifiNina<CS, B, T> {
    /// The chip-select handshake over the CS and busy pins.
    pub(crate) chip_select: WifiNinaChipSelect<CS, B>,
    /// The timer behind every bounded wait.
    pub(crate) timer: T,
}

impl<CS, B, T> WifiNina<CS, B, T> where CS: OutputLine, B: InputLine, T: CountdownTimer {
    /// Creates a driver over the given pins and timer, deselecting the chip.
    /// Only driving the chip-select line can fail here.
    ///
    /// The caller resets the chip separately with [`Self::reset`] when a
    /// reset line is wired.
    pub fn new(cs: CS, busy: B, timer: T) -> (r: Result<Self, Error>)
        ensures
            r matches Err(e) ==> e == Error::ChipSelectPinError,
    {
        match WifiNinaChipSelect::new(cs, busy) {
            Ok(chip_select) => Ok(WifiNina { chip_select, timer }),
            Err(_) => Err(Error::ChipSelectPinError),
        }
    }

    /// Busy-waits until the running timer period has elapsed.
    fn wait_timer(&mut self) {
        let mut fuel: u32 = 0;
        while fuel < u32::MAX
            decreases u32::MAX - fuel,
        {
            if self.timer.expired() {
                return ;
            }
            fuel += 1;
        }
    }

    /// Reboots the chip: drives the reset line low for 200 ms, releases it,
    /// then waits 750 ms for the chip to boot. Only driving the reset line
    /// can fail here.
    pub fn reset<R: OutputLine>(&mut self, reset: &mut R) -> (r: Result<(), Error>)
        ensures
            r matches Err(e) ==> e == Error::ResetPinError,
    {
        if reset.set_low().is_err() {
            return Err(Error::ResetPinError);
        }
        self.timer.start_ms(200);
        self.wait_timer();
        if reset.set_high().is_err() {
            return Err(Error::ResetPinError);
        }
        self.timer.start_ms(750);
        self.wait_timer();
        Ok(())
    }
}

} // verus!
