//! Register map and bus instruction set of the transceiver.

use vstd::prelude::*;

verus! {

/// The chip's register map.  Each register is reached over the bus by a
/// 5-bit address embedded in a read-register or write-register instruction.
#[allow(non_camel_case_types)]
#[derive(Clone, Copy, PartialEq, Eq, Structural)]
pub enum Register {
    CONFIG,
    EN_AA,
    EN_RXADDR,
    SETUP_AW,
    SETUP_RETR,
    RF_CH,
    RF_SETUP,
    STATUS,
    OBSERVE_TX,
    CD,
    RX_ADDR_P0,
    RX_ADDR_P1,
    RX_ADDR_P2,
    RX_ADDR_P3,
    RX_ADDR_P4,
    RX_ADDR_P5,
    TX_ADDR,
    RX_PW_P0,
    RX_PW_P1,
    RX_PW_P2,
    RX_PW_P3,
    RX_PW_P4,
    RX_PW_P5,
    FIFO_STATUS,
    DYNPD,
    FEATURE,
}

impl Register {
    /// The register's 5-bit memory-map address.
    pub open spec fn spec_addr(self) -> u8 {
        match self {
            Register::CONFIG => 0x00,
            Register::EN_AA => 0x01,
            Register::EN_RXADDR => 0x02,
            Register::SETUP_AW => 0x03,
            Register::SETUP_RETR => 0x04,
            Register::RF_CH => 0x05,
            Register::RF_SETUP => 0x06,
            Register::STATUS => 0x07,
            Register::OBSERVE_TX => 0x08,
            Register::CD => 0x09,
            Register::RX_ADDR_P0 => 0x0a,
            Register::RX_ADDR_P1 => 0x0b,
            Register::RX_ADDR_P2 => 0x0c,
            Register::RX_ADDR_P3 => 0x0d,
            Register::RX_ADDR_P4 => 0x0e,
            Register::RX_ADDR_P5 => 0x0f,
            Register::TX_ADDR => 0x10,
            Register::RX_PW_P0 => 0x11,
            Register::RX_PW_P1 => 0x12,
            Register::RX_PW_P2 => 0x13,
            Register::RX_PW_P3 => 0x14,
            Register::RX_PW_P4 => 0x15,
            Register::RX_PW_P5 => 0x16,
            Register::FIFO_STATUS => 0x17,
            Register::DYNPD => 0x1c,
            Register::FEATURE => 0x1d,
        }
    }

    /// The register's 5-bit memory-map address.
    pub fn addr(&self) -> (r: u8)
        ensures
            r == self.spec_addr(),
            r < 0x20,
    {
        match self {
            Register::CONFIG => 0x00,
            Register::EN_AA => 0x01,
            Register::EN_RXADDR => 0x02,
            Register::SETUP_AW => 0x03,
            Register::SETUP_RETR => 0x04,
            Register::RF_CH => 0x05,
            Register::RF_SETUP => 0x06,
            Register::STATUS => 0x07,
            Register::OBSERVE_TX => 0x08,
            Register::CD => 0x09,
            Register::RX_ADDR_P0 => 0x0a,
            Register::RX_ADDR_P1 => 0x0b,
            Register::RX_ADDR_P2 => 0x0c,
            Register::RX_ADDR_P3 => 0x0d,
            Register::RX_ADDR_P4 => 0x0e,
            Register::RX_ADDR_P5 => 0x0f,
            Register::TX_ADDR => 0x10,
            Register::RX_PW_P0 => 0x11,
            Register::RX_PW_P1 => 0x12,
            Register::RX_PW_P2 => 0x13,
            Register::RX_PW_P3 => 0x14,
            Register::RX_PW_P4 => 0x15,
            Register::RX_PW_P5 => 0x16,
            Register::FIFO_STATUS => 0x17,
            Register::DYNPD => 0x1c,
            Register::FEATURE => 0x1d,
        }
    }
}

/// The chip's bus instruction set.  Each variant is the opcode byte that
/// starts a transaction; read-register and write-register opcodes carry the
/// register address in their low five bits.
#[derive(Clone, Copy, PartialEq, Eq, Structural)]
pub enum Instruction {
    /// Read a register.  The low five bits of the opcode are the address.
    RR,
    /// Write a register.  The low five bits of the opcode are the address.
    WR,
    /// Read the front payload of the receive FIFO.
    RRX,
    /// Write a payload into the transmit FIFO.
    WTX,
    /// Flush the transmit FIFO.
    FTX,
    /// Flush the receive FIFO.
    FRX,
    /// No operation; used to read the status byte alone.
    NOP,
}

impl Instruction {
    /// The instruction's opcode byte (base opcode for RR and WR).
    pub open spec fn spec_opcode(self) -> u8 {
        match self {
            Instruction::RR => 0b0000_0000,
            Instruction::WR => 0b0010_0000,
            Instruction::RRX => 0b0110_0001,
            Instruction::WTX => 0b1010_0000,
            Instruction::FTX => 0b1110_0001,
            Instruction::FRX => 0b1110_0010,
            Instruction::NOP => 0b1111_1111,
        }
    }

    /// The instruction's opcode byte (base opcode for RR and WR).
    pub fn opcode(&self) -> (r: u8)
        ensures
            r == self.spec_opcode(),
    {
        match self {
            Instruction::RR => 0b0000_0000,
            Instruction::WR => 0b0010_0000,
            Instruction::RRX => 0b0110_0001,
            Instruction::WTX => 0b1010_0000,
            Instruction::FTX => 0b1110_0001,
            Instruction::FRX => 0b1110_0010,
            Instruction::NOP => 0b1111_1111,
        }
    }
}

} // verus!
