//! The narrow hardware boundary of the driver.
//!
//! The driver core never touches a peripheral directly: it reaches the SPI
//! bus, the chip-select output, the busy input and the count-down timer only
//! through the traits below, which the embedding program implements for its
//! board. The contracts of the driver therefore hold for every
//! implementation of these traits, whatever bytes or levels the hardware
//! produces.

use vstd::prelude::*;

verus! {

/// A chip-select or reset output line could not be driven.
#[derive(Clone, Copy, PartialEq, Eq, Structural, Debug)]
pub struct PinFault;

/// The SPI peripheral reported a transfer error.
#[derive(Clone, Copy, PartialEq, Eq, Structural, Debug)]
pub struct SpiFault;

/// A digital output line, driven high or low.
pub trait OutputLine {
    fn set_high(&mut self) -> (r: Result<(), PinFault>);

    fn set_low(&mut self) -> (r: Result<(), PinFault>);
}

/// A digital input line, read as high or low.
pub trait InputLine {
    fn is_high(&mut self) -> (r: Result<bool, PinFault>);
}

/// A full-duplex SPI byte channel.
///
/// The bus clocks one byte out for every byte in, so even a pure read must
/// transmit a byte; `transfer_byte` transmits `0x00` and returns whatever
/// the device clocked back.
pub trait SpiTransfer {
    /// Clocks out a zero byte and returns the byte the device sent back.
    fn transfer_byte(&mut self) -> (r: Result<u8, SpiFault>);

    /// Clocks out `b`, discarding whatever the device sent back.
    fn write_byte(&mut self, b: u8) -> (r: Result<(), SpiFault>);
}

/// A millisecond count-down timer for bounded busy-waits.
pub trait CountdownTimer {
    /// Starts (or restarts) the timer for `ms` milliseconds.
    fn start_ms(&mut self, ms: u32);

    /// True once the period given to the last `start_ms` has elapsed.
    fn expired(&mut self) -> (r: bool);
}

} // verus!
