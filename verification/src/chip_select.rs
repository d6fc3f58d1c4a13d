//! The chip-select handshake with the coprocessor.
//!
//! The chip raises its busy line while it works. Selecting it therefore
//! means: wait for busy to go low (chip ready), drive CS low, then wait for
//! busy to go high (chip acknowledged). Deselecting drives CS high again; a
//! failure on that path is latched rather than returned, because deselection
//! also runs on scope-exit paths that cannot report errors.

use vstd::prelude::*;

use crate::millis::Milliseconds;
use crate::transport::{CountdownTimer, InputLine, OutputLine};

verus! {

/// What can go wrong while selecting or deselecting the chip.
#[derive(Debug, PartialEq, Eq, Structural, Clone, Copy)]
pub enum WifiNinaChipSelectError {
    /// The CS output could not be driven.
    CsPinError,
    /// The busy input could not be read.
    BusyPinError,
    /// The busy line did not reach the wanted level before the deadline.
    DeviceReadyTimeout,
}

/// Owns the CS output and busy input and performs the select handshake.
pub struct WifiNinaChipSelect<CS, B> {
    /// The chip-select output, active low.
    pub cs: CS,
    /// The chip's busy output, high while it must not be addressed.
    pub busy: B,
    /// The last error seen while deselecting, kept for inspection because
    /// deselection itself cannot fail out.
    pub last_deselect_err: Option<WifiNinaChipSelectError>,
}

impl<CS, B> WifiNinaChipSelect<CS, B> where CS: OutputLine, B: InputLine {
    /// Builds the selector and drives CS high, which is "deselected".
    /// Only that one pin write can fail here.
    pub fn new(cs: CS, busy: B) -> (r: Result<Self, WifiNinaChipSelectError>)
        ensures
            r matches Ok(s) ==> s.last_deselect_err is None,
            r matches Err(e) ==> e == WifiNinaChipSelectError::CsPinError,
    {
        let mut cs = cs;
        match cs.set_high() {
            Ok(_) => Ok(WifiNinaChipSelect { cs, busy, last_deselect_err: None }),
            Err(_) => Err(WifiNinaChipSelectError::CsPinError),
        }
    }

    /// Blocks until the busy line reads `val`, or fails with
    /// `DeviceReadyTimeout` once `timeout` elapses; a failure to read the
    /// line at all is `BusyPinError`.
    fn wait_for_busy<T: CountdownTimer>(
        &mut self,
        timer: &mut T,
        timeout: Milliseconds,
        val: bool,
    ) -> (r: Result<(), WifiNinaChipSelectError>)
        ensures
            final(self).last_deselect_err == old(self).last_deselect_err,
            r matches Err(e) ==> (e == WifiNinaChipSelectError::BusyPinError || e
                == WifiNinaChipSelectError::DeviceReadyTimeout),
    {
        timer.start_ms(timeout.0);
        let mut fuel: u32 = 0;
        while fuel < u32::MAX
            invariant
                self.last_deselect_err == old(self).last_deselect_err,
            decreases u32::MAX - fuel,
        {
            match self.busy.is_high() {
                Ok(b) => {
                    if b == val {
                        return Ok(());
                    }
                },
                Err(_) => {
                    return Err(WifiNinaChipSelectError::BusyPinError);
                },
            }
            if timer.expired() {
                return Err(WifiNinaChipSelectError::DeviceReadyTimeout);
            }
            fuel += 1;
        }
        Err(WifiNinaChipSelectError::DeviceReadyTimeout)
    }

    /// Selects the chip: waits up to 10 s for busy to go low, drives CS low,
    /// then waits up to 1 s for busy to go high as the acknowledgement.
    /// A timed-out wait is `DeviceReadyTimeout`; a pin that cannot be
    /// driven or read is its pin error. The deselect latch is untouched.
    ///
    /// Between a successful `select` and the matching [`Self::deselect`],
    /// nothing else may drive the bus.
    pub fn select<T: CountdownTimer>(&mut self, timer: &mut T) -> (r: Result<
        (),
        WifiNinaChipSelectError,
    >)
        ensures
            final(self).last_deselect_err == old(self).last_deselect_err,
    {
        self.wait_for_busy(timer, Milliseconds(10_000), false)?;
        if self.cs.set_low().is_err() {
            return Err(WifiNinaChipSelectError::CsPinError);
        }
        self.wait_for_busy(timer, Milliseconds(1_000), true)?;
        Ok(())
    }

    /// Deselects the chip by driving CS high again. A pin failure here is
    /// latched in `last_deselect_err` instead of propagating.
    pub fn deselect(&mut self)
        ensures
            final(self).last_deselect_err is None || final(self).last_deselect_err == Some(
                WifiNinaChipSelectError::CsPinError,
            ),
    {
        match self.cs.set_high() {
            Ok(_) => {
                self.last_deselect_err = None;
            },
            Err(_) => {
                self.last_deselect_err = Some(WifiNinaChipSelectError::CsPinError);
            },
        }
    }
}

} // verus!
