//! Hardware ports the driver is generic over.
//!
//! The driver needs three capabilities from the board it runs on: an atomic
//! read/write transaction over the serial bus ([`BusDevice`]), a digital
//! output level on the chip-enable line ([`ChipEnable`]) and timed waits
//! ([`Delay`]).  Each port carries the contract the driver's proofs rest on:
//! a bus device behaves, as far as its transactions succeed, like the
//! register-level chip model in [`crate::chip`].
//!
//! [`crate::sim`] implements all three ports over an in-memory chip, which
//! shows the contracts are satisfiable and gives the tests a device to run
//! against; adapters for real hardware implement them over a board support
//! package.

use vstd::prelude::*;

verus! {

use crate::chip::ChipState;
use crate::chip::chip_after_command;
use crate::chip::chip_after_read;
use crate::chip::chip_wf;
use crate::chip::reg_read_byte;
use crate::chip::status_byte;
use crate::chip::valid_command_frame;
use crate::chip::valid_read_frame;

/// One atomic transaction at a time over the serial bus, with the transceiver
/// on the far end.  The implementor owns the select-signal discipline around
/// each transaction: the driver sees whole transactions only.
///
/// The `chip` view is the model state of the chip behind the bus.  Each
/// transaction that returns `Ok` behaved like the model says; after a failed
/// transaction nothing is known about the chip's state beyond its
/// well-formedness.
pub trait BusDevice {
    /// The bus's own transfer error type.
    type Error;

    /// The model state of the chip behind the bus.  The default leaves the
    /// state unspecified, which is all an unverified adapter over real
    /// hardware can say; a verified implementation overrides it.
    open spec fn chip(&self) -> ChipState {
        vstd::pervasive::arbitrary()
    }

    /// Perform one write-direction transaction: the opcode byte goes out
    /// first, then the data bytes.  Returns the status byte the chip shifts
    /// back while it receives the opcode.
    fn transfer_write(&mut self, op: u8, data: &[u8]) -> (r: Result<u8, Self::Error>)
        requires
            valid_command_frame(op, data@),
        ensures
            r matches Ok(st) ==> st == status_byte(old(self).chip()),
            r is Ok ==> final(self).chip() == chip_after_command(old(self).chip(), op, data@),
            chip_wf(old(self).chip()) ==> chip_wf(final(self).chip()),
    ;

    /// Perform one read-direction transaction: the opcode byte goes out,
    /// then `n` bytes are shifted back.  Returns the status byte and the
    /// bytes read.
    ///
    /// A register read returns the register's byte and leaves the chip
    /// unchanged.  A payload read discards the front payload of the receive
    /// FIFO and returns its bytes; positions past the payload's length, and
    /// the whole read-back when the FIFO was empty, carry no defined value.
    fn transfer_read(&mut self, op: u8, n: usize) -> (r: Result<(u8, Vec<u8>), Self::Error>)
        requires
            valid_read_frame(op, n as nat),
        ensures
            r matches Ok(b) ==> b.0 == status_byte(old(self).chip()),
            r matches Ok(b) ==> b.1@.len() == n,
            r matches Ok(b) ==> ((op & 0b1110_0000 == 0 && n == 1) ==> b.1@[0] == reg_read_byte(
                old(self).chip(),
                op,
            )),
            r matches Ok(b) ==> ((op == 0b0110_0001 && old(self).chip().rx_fifo.len() > 0)
                ==> forall|i: int|
                0 <= i < n && i < old(self).chip().rx_fifo[0].data.len() ==> b.1@[i] == old(
                    self,
                ).chip().rx_fifo[0].data[i]),
            r is Ok ==> final(self).chip() == chip_after_read(old(self).chip(), op),
            chip_wf(old(self).chip()) ==> chip_wf(final(self).chip()),
    ;
}

/// The digital output level of the chip-enable line, whose level and pulses
/// trigger radio activity independently of the bus.
pub trait ChipEnable {
    /// The line's own error type.
    type Error;

    /// The level the line is currently driven to.  The default leaves the
    /// level unspecified; a verified implementation overrides it.
    open spec fn level(&self) -> bool {
        vstd::pervasive::arbitrary()
    }

    /// Drive the line high.
    fn set_high(&mut self) -> (r: Result<(), Self::Error>)
        ensures
            r is Ok ==> final(self).level(),
    ;

    /// Drive the line low.
    fn set_low(&mut self) -> (r: Result<(), Self::Error>)
        ensures
            r is Ok ==> !final(self).level(),
    ;
}

/// Timed waits.  The view counts the total time requested so far, so a
/// caller's contract can state how long it asked to wait.  An implementation
/// over real hardware blocks for at least the requested time, in full,
/// before returning — the chip's settle times are correctness requirements,
/// not hints; a simulated implementation may only count.
pub trait Delay {
    /// Total time requested so far, in µs.  The default leaves the count
    /// unspecified; a verified implementation overrides it.
    open spec fn elapsed_us(&self) -> nat {
        vstd::pervasive::arbitrary()
    }

    /// Block for at least `ms` milliseconds.
    fn delay_ms(&mut self, ms: u32)
        ensures
            final(self).elapsed_us() == old(self).elapsed_us() + ms * 1000,
    ;

    /// Block for at least `us` microseconds.
    fn delay_us(&mut self, us: u32)
        ensures
            final(self).elapsed_us() == old(self).elapsed_us() + us,
    ;
}

} // verus!
