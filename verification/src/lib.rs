//! Driver for the nRF24L01+ single-chip 2.4 GHz transceiver.
//!
//! The driver talks to the chip over a synchronous serial bus: every operation
//! is one or more bus transactions, each consisting of a one-byte instruction
//! optionally followed by data bytes, and every transaction returns the chip's
//! status byte.  The library is written against three small hardware ports —
//! [`device::BusDevice`] for the bus, [`device::ChipEnable`] for the
//! chip-enable line and [`device::Delay`] for timed waits — so the protocol
//! logic itself is independent of any particular board support package.
//!
//! The behaviour of every operation is specified against a register-level
//! model of the chip, [`chip::ChipState`]; [`sim::SimBus`] is an in-crate
//! implementation of that model that the tests run against.

use vstd::prelude::*;

pub mod chip;
pub mod config;
pub mod device;
pub mod error;
pub mod nrf24;
pub mod registers;
pub mod sim;
pub mod status;

pub use crate::nrf24::Nrf24l01;

verus! {

/// Max size in bytes of a single payload to be sent or received.
pub const MAX_PAYLOAD_SIZE: u8 = 32;

} // verus!
