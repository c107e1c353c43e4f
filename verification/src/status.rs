//! Decoders for the chip's status and FIFO-status bytes and for the
//! interrupt bitfield.

use vstd::prelude::*;

verus! {

use crate::config::DataPipe;

/// The status byte's pipe-number field was the reserved value 6, which no
/// hardware state defines.
#[derive(Copy, Clone, PartialEq, Eq, Structural, Debug)]
pub struct UnknownPipe;

/// The status byte returned by the chip on every bus transaction.
///
/// Layout, from bit 7 down to bit 0: an inverted validity marker (0 means the
/// byte is valid), RX-data-ready, TX-data-sent, max-retries-reached, a 3-bit
/// pipe number, and TX-FIFO-full.
#[derive(Copy, Clone, PartialEq, Eq, Structural)]
pub struct Status(u8);

impl Status {
    /// The raw byte this status was decoded from.
    pub closed spec fn spec_raw(&self) -> u8 {
        self.0
    }

    /// The 3-bit pipe-number field: 0 to 5 name a pipe, 7 means no pipe has
    /// data, and 6 is reserved.
    pub open spec fn spec_pipe_field(&self) -> u8 {
        (self.spec_raw() >> 1) & 0b111
    }

    /// Wrap a raw status byte.
    pub fn from_raw(t: u8) -> (r: Self)
        ensures
            r.spec_raw() == t,
    {
        Status(t)
    }

    /// The raw byte this status was decoded from.
    pub fn raw(&self) -> (r: u8)
        ensures
            r == self.spec_raw(),
    {
        self.0
    }

    /// Whether the byte is a valid status at all: the top bit is an inverted
    /// validity marker, so a set top bit means the transfer went wrong.
    pub fn is_valid(&self) -> (r: bool)
        ensures
            r == (self.spec_raw() & 0b1000_0000 == 0),
    {
        self.0 & 0b1000_0000 == 0
    }

    /// Whether there is data ready to be read.
    pub fn data_ready(&self) -> (r: bool)
        ensures
            r == ((self.spec_raw() >> 6) & 1 != 0),
    {
        (self.0 >> 6) & 1 != 0
    }

    /// Whether data has been sent.
    pub fn data_sent(&self) -> (r: bool)
        ensures
            r == ((self.spec_raw() >> 5) & 1 != 0),
    {
        (self.0 >> 5) & 1 != 0
    }

    /// Whether the maximum number of automatic retransmissions has been
    /// reached.  Can only be true when automatic acknowledgement is enabled.
    pub fn reached_max_retries(&self) -> (r: bool)
        ensures
            r == ((self.spec_raw() >> 4) & 1 != 0),
    {
        (self.0 >> 4) & 1 != 0
    }

    /// The data pipe on which a payload is waiting to be read.
    ///
    /// Returns `Ok(None)` when the pipe field holds 7, which the chip uses to
    /// say that no pipe has data.  The field value 6 is reserved and never
    /// produced by defined hardware states; it is reported as an explicit
    /// [`UnknownPipe`] error rather than mapped onto a pipe.
    pub fn data_pipe_available(&self) -> (r: Result<Option<DataPipe>, UnknownPipe>)
        ensures
            self.spec_pipe_field() <= 5 ==> (r matches Ok(p) && p matches Some(dp)
                && dp.spec_pipe() == self.spec_pipe_field()),
            self.spec_pipe_field() == 7 ==> r == Ok::<Option<DataPipe>, UnknownPipe>(None),
            self.spec_pipe_field() == 6 ==> (r matches Err(e)),
    {
        let raw: u8 = self.0;
        let field: u8 = (raw >> 1) & 0b111;
        proof {
            assert((raw >> 1) & 0b111 <= 7) by (bit_vector);
        }
        if field <= 5 {
            Ok(Some(DataPipe::from_number(field)))
        } else if field == 7 {
            Ok(None)
        } else {
            Err(UnknownPipe)
        }
    }

    /// Whether the transmit FIFO is full.
    pub fn tx_full(&self) -> (r: bool)
        ensures
            r == (self.spec_raw() & 1 != 0),
    {
        self.0 & 1 != 0
    }
}

/// The interrupt conditions the chip can raise on its interrupt pin.
///
/// Each variant occupies the same bit position as the status flag it mirrors.
#[derive(Copy, Clone, PartialEq, Eq, Structural)]
pub enum InterruptKind {
    /// The maximum number of retransmissions was reached.
    MaxRetries,
    /// A packet was transmitted and, if acknowledgement is on, acknowledged.
    TxDataSent,
    /// New data arrived in the receive FIFO.
    RxDataReady,
}

impl InterruptKind {
    /// The interrupt's bit, in both the status byte and the interrupt mask.
    pub open spec fn spec_mask(self) -> u8 {
        match self {
            InterruptKind::MaxRetries => 0b0001_0000,
            InterruptKind::TxDataSent => 0b0010_0000,
            InterruptKind::RxDataReady => 0b0100_0000,
        }
    }

    /// The interrupt's bit, in both the status byte and the interrupt mask.
    pub fn mask(&self) -> (r: u8)
        ensures
            r == self.spec_mask(),
    {
        match self {
            InterruptKind::MaxRetries => 0b0001_0000,
            InterruptKind::TxDataSent => 0b0010_0000,
            InterruptKind::RxDataReady => 0b0100_0000,
        }
    }
}

/// A bitfield of interrupt conditions, built by chaining the methods that add
/// one condition each.
#[derive(Copy, Clone, PartialEq, Eq, Structural)]
pub struct Interrupts(u8);

impl Interrupts {
    /// The raw bitfield; only the three interrupt bits can be set.
    pub closed spec fn spec_raw(&self) -> u8 {
        self.0
    }

    /// Create an empty interrupt set.
    pub fn new() -> (r: Self)
        ensures
            r.spec_raw() == 0,
    {
        Interrupts(0)
    }

    /// Create an interrupt set with all three interrupts.
    pub fn all() -> (r: Self)
        ensures
            r.spec_raw() == 0b0111_0000,
    {
        let r = Interrupts::new().max_retries().tx_data_sent().rx_data_ready();
        proof {
            assert(((0u8 | 0b0001_0000) | 0b0010_0000) | 0b0100_0000 == 0b0111_0000)
                by (bit_vector);
        }
        r
    }

    /// Add the maximum-retries interrupt to this set.
    pub fn max_retries(self) -> (r: Self)
        ensures
            r.spec_raw() == self.spec_raw() | 0b0001_0000,
    {
        Interrupts(self.0 | 0b0001_0000)
    }

    /// Add the TX-data-sent interrupt to this set.
    pub fn tx_data_sent(self) -> (r: Self)
        ensures
            r.spec_raw() == self.spec_raw() | 0b0010_0000,
    {
        Interrupts(self.0 | 0b0010_0000)
    }

    /// Add the RX-data-ready interrupt to this set.
    pub fn rx_data_ready(self) -> (r: Self)
        ensures
            r.spec_raw() == self.spec_raw() | 0b0100_0000,
    {
        Interrupts(self.0 | 0b0100_0000)
    }

    /// Whether the given interrupt kind is in this set.
    pub fn contains(&self, irq: InterruptKind) -> (r: bool)
        ensures
            r == (self.spec_raw() & irq.spec_mask() != 0),
    {
        self.0 & irq.mask() != 0
    }

    /// The raw bitfield, as written to the STATUS or CONFIG register.
    pub fn raw(&self) -> (r: u8)
        ensures
            r == self.spec_raw(),
    {
        self.0
    }

    /// Decode an interrupt set from a raw byte; only the bits that correspond
    /// to interrupts are kept.
    pub fn from_raw(t: u8) -> (r: Self)
        ensures
            r.spec_raw() == t & 0b0111_0000,
    {
        Interrupts(t & 0b0111_0000)
    }
}

impl Default for Interrupts {
    fn default() -> (r: Self)
        ensures
            r.spec_raw() == 0,
    {
        Interrupts(0)
    }
}

/// The FIFO-status byte read from the dedicated FIFO_STATUS register.
///
/// Layout: bit 5 TX full, bit 4 TX empty, bit 1 RX full, bit 0 RX empty.
#[derive(Copy, Clone, PartialEq, Eq, Structural)]
pub struct FIFOStatus(u8);

impl FIFOStatus {
    /// The raw byte this status was decoded from.
    pub closed spec fn spec_raw(&self) -> u8 {
        self.0
    }

    /// Wrap a raw FIFO-status byte.
    pub fn from_raw(t: u8) -> (r: Self)
        ensures
            r.spec_raw() == t,
    {
        FIFOStatus(t)
    }

    /// Whether the transmit queue is full.
    pub fn tx_full(&self) -> (r: bool)
        ensures
            r == ((self.spec_raw() >> 5) & 1 != 0),
    {
        (self.0 >> 5) & 1 != 0
    }

    /// Whether the transmit queue is empty.
    pub fn tx_empty(&self) -> (r: bool)
        ensures
            r == ((self.spec_raw() >> 4) & 1 != 0),
    {
        (self.0 >> 4) & 1 != 0
    }

    /// Whether the receive queue is full.
    pub fn rx_full(&self) -> (r: bool)
        ensures
            r == ((self.spec_raw() >> 1) & 1 != 0),
    {
        (self.0 >> 1) & 1 != 0
    }

    /// Whether the receive queue is empty.
    pub fn rx_empty(&self) -> (r: bool)
        ensures
            r == (self.spec_raw() & 1 != 0),
    {
        self.0 & 1 != 0
    }
}

} // verus!
