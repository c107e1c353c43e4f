//! Errors that can occur when configuring the transceiver and when sending
//! and receiving data.

use vstd::prelude::*;

verus! {

/// All errors the driver can report.  The type is generic over the error
/// types of the two hardware ports it drives: the bus device and the
/// chip-enable line.
///
/// Every error is returned to the caller immediately; the driver never
/// retries on its own.  The only retransmission is the chip's built-in
/// automatic one, which is invisible below this layer.
#[derive(Debug)]
pub enum TransceiverError<SpiErr, CeErr> {
    /// The underlying bus transfer failed.
    Spi(SpiErr),
    /// The chip-enable line could not be driven.
    Ce(CeErr),
    /// Communication mismatch: a register read back after initialization did
    /// not hold the expected composed value, or the status byte carried the
    /// reserved pipe number.  The payload is the offending byte.
    Comm(u8),
    /// The maximum number of automatic retransmissions was reached without an
    /// acknowledgement.  The transmit FIFO has been flushed when this is
    /// reported, so the driver is in a consistent state for the next attempt.
    MaxRetries,
    /// The caller-supplied read buffer is smaller than the configured static
    /// payload size, so a full payload cannot be delivered into it.
    BufferTooSmall {
        /// The required buffer size in bytes.
        required: u8,
        /// The buffer size that was provided.
        actual: u8,
    },
}

} // verus!
