//! Register-level model of the transceiver.
//!
//! [`ChipState`] is the ghost state of the chip as it is observable over the
//! bus: the register file, the latched interrupt flags and the two payload
//! FIFOs.  The spec functions in this module give the meaning of every bus
//! instruction the driver issues: which frames are well formed, how a write
//! command changes the state, what a read returns and what the status byte
//! carried by every transaction holds.
//!
//! Changes the radio makes on its own — a packet arriving in the receive
//! FIFO, the data-sent or max-retries flags latching after a transmission —
//! are not transitions of this model; a device implementation represents them
//! by entering the corresponding state directly.

use vstd::prelude::*;

verus! {

/// One received payload waiting in the receive FIFO, tagged with the pipe it
/// arrived on.
pub ghost struct RxPayload {
    /// The pipe the payload arrived on, 0 to 5.
    pub pipe: u8,
    /// The payload bytes.
    pub data: Seq<u8>,
}

/// The bus-observable state of the chip.
///
/// Single-byte registers are held as bytes; the three 5-byte address
/// registers hold the byte sequence last written to them (least-significant
/// byte first, 1 to 5 bytes).  The STATUS register is not a stored byte: its
/// interrupt flags live in `flags` and its other fields are derived from the
/// FIFOs, see [`status_byte`].
#[verifier::ext_equal]
pub ghost struct ChipState {
    /// CONFIG register: mode, power and interrupt-mask bits.
    pub config: u8,
    /// EN_AA register: per-pipe auto-acknowledgement enable bits.
    pub en_aa: u8,
    /// EN_RXADDR register: per-pipe address enable bits.
    pub en_rxaddr: u8,
    /// SETUP_AW register: address width encoding.
    pub setup_aw: u8,
    /// SETUP_RETR register: retransmission delay and count nibbles.
    pub setup_retr: u8,
    /// RF_CH register: radio-frequency channel.
    pub rf_ch: u8,
    /// RF_SETUP register: data rate and power level bits.
    pub rf_setup: u8,
    /// The three latched interrupt flags of the STATUS register, in their
    /// status-byte bit positions (bits 4 to 6); all other bits are zero.
    pub flags: u8,
    /// OBSERVE_TX register: lost- and retransmitted-packet counters.
    pub observe_tx: u8,
    /// CD register: carrier-detect bit.
    pub cd: u8,
    /// Receive address of pipe 0, 1 to 5 bytes.
    pub rx_addr_p0: Seq<u8>,
    /// Receive address of pipe 1, 1 to 5 bytes.
    pub rx_addr_p1: Seq<u8>,
    /// Unique least-significant address byte of pipe 2.
    pub rx_addr_p2: u8,
    /// Unique least-significant address byte of pipe 3.
    pub rx_addr_p3: u8,
    /// Unique least-significant address byte of pipe 4.
    pub rx_addr_p4: u8,
    /// Unique least-significant address byte of pipe 5.
    pub rx_addr_p5: u8,
    /// Transmit address, 1 to 5 bytes.
    pub tx_addr: Seq<u8>,
    /// RX_PW_P0 register: static payload size of pipe 0.
    pub rx_pw_p0: u8,
    /// RX_PW_P1 register: static payload size of pipe 1.
    pub rx_pw_p1: u8,
    /// RX_PW_P2 register: static payload size of pipe 2.
    pub rx_pw_p2: u8,
    /// RX_PW_P3 register: static payload size of pipe 3.
    pub rx_pw_p3: u8,
    /// RX_PW_P4 register: static payload size of pipe 4.
    pub rx_pw_p4: u8,
    /// RX_PW_P5 register: static payload size of pipe 5.
    pub rx_pw_p5: u8,
    /// DYNPD register: per-pipe dynamic-payload enable bits.
    pub dynpd: u8,
    /// FEATURE register: dynamic-payload and acknowledgement-payload enables.
    pub feature: u8,
    /// The transmit FIFO, up to three payloads, oldest first.
    pub tx_fifo: Seq<Seq<u8>>,
    /// The receive FIFO, up to three payloads, oldest first.
    pub rx_fifo: Seq<RxPayload>,
}

/// Well-formedness of a chip state: what is true of every state a real chip
/// can be in.  The interrupt flags sit in bits 4 to 6 alone, the FIFOs hold
/// at most three payloads of at most 32 bytes each tagged with real pipe
/// numbers, and the address registers hold 1 to 5 bytes.
pub open spec fn chip_wf(c: ChipState) -> bool {
    &&& c.flags & 0b1000_1111 == 0
    &&& c.tx_fifo.len() <= 3
    &&& c.rx_fifo.len() <= 3
    &&& forall|i: int|
        0 <= i < c.rx_fifo.len() ==> (#[trigger] c.rx_fifo[i]).pipe < 6
            && c.rx_fifo[i].data.len() <= 32
    &&& forall|i: int| 0 <= i < c.tx_fifo.len() ==> (#[trigger] c.tx_fifo[i]).len() <= 32
    &&& 1 <= c.rx_addr_p0.len() <= 5
    &&& 1 <= c.rx_addr_p1.len() <= 5
    &&& 1 <= c.tx_addr.len() <= 5
}

/// The state of the chip after releasing reset, as the data sheet defines it.
pub open spec fn reset_state() -> ChipState {
    ChipState {
        config: 0b0000_1000,
        en_aa: 0b0011_1111,
        en_rxaddr: 0b0000_0011,
        setup_aw: 0b0000_0011,
        setup_retr: 0b0000_0011,
        rf_ch: 0b0000_0010,
        rf_setup: 0b0000_1110,
        flags: 0,
        observe_tx: 0,
        cd: 0,
        rx_addr_p0: seq![0xe7u8, 0xe7u8, 0xe7u8, 0xe7u8, 0xe7u8],
        rx_addr_p1: seq![0xc2u8, 0xc2u8, 0xc2u8, 0xc2u8, 0xc2u8],
        rx_addr_p2: 0xc3,
        rx_addr_p3: 0xc4,
        rx_addr_p4: 0xc5,
        rx_addr_p5: 0xc6,
        tx_addr: seq![0xe7u8, 0xe7u8, 0xe7u8, 0xe7u8, 0xe7u8],
        rx_pw_p0: 0,
        rx_pw_p1: 0,
        rx_pw_p2: 0,
        rx_pw_p3: 0,
        rx_pw_p4: 0,
        rx_pw_p5: 0,
        dynpd: 0,
        feature: 0,
        tx_fifo: Seq::empty(),
        rx_fifo: Seq::empty(),
    }
}

/// The 3-bit pipe-number field of the status byte: the pipe of the payload at
/// the front of the receive FIFO, or 7 when the FIFO is empty.
pub open spec fn pipe_field(c: ChipState) -> u8 {
    if c.rx_fifo.len() == 0 {
        7
    } else {
        c.rx_fifo[0].pipe
    }
}

/// Bit 0 of the status byte: whether the transmit FIFO is full.
pub open spec fn tx_full_bit(c: ChipState) -> u8 {
    if c.tx_fifo.len() >= 3 {
        1
    } else {
        0
    }
}

/// The status byte the chip returns while it receives any instruction: the
/// latched interrupt flags, the pipe number of the front receive payload and
/// the transmit-FIFO-full bit.  Bit 7, the inverted validity marker, is zero.
pub open spec fn status_byte(c: ChipState) -> u8 {
    c.flags | (pipe_field(c) << 1) | tx_full_bit(c)
}

/// The FIFO_STATUS register byte, derived from the two FIFOs.
pub open spec fn fifo_status_byte(c: ChipState) -> u8 {
    (if c.tx_fifo.len() >= 3 { 0b0010_0000u8 } else { 0u8 })
        | (if c.tx_fifo.len() == 0 { 0b0001_0000u8 } else { 0u8 })
        | (if c.rx_fifo.len() >= 3 { 0b0000_0010u8 } else { 0u8 })
        | (if c.rx_fifo.len() == 0 { 0b0000_0001u8 } else { 0u8 })
}

/// Whether a 5-bit register address names a register at all.
pub open spec fn known_register(addr: u8) -> bool {
    addr <= 0x17 || addr == 0x1c || addr == 0x1d
}

/// Whether a register can be written: all known registers except the
/// read-only OBSERVE_TX, CD and FIFO_STATUS.
pub open spec fn writable_register(addr: u8) -> bool {
    known_register(addr) && addr != 0x08 && addr != 0x09 && addr != 0x17
}

/// Whether a register holds a multi-byte value: the two full receive
/// addresses and the transmit address.
pub open spec fn multibyte_register(addr: u8) -> bool {
    addr == 0x0a || addr == 0x0b || addr == 0x10
}

/// The registers the hardware never modifies on its own: every writable
/// single-byte register except STATUS, whose flags the chip both latches and
/// clears on writes.
pub open spec fn config_register(addr: u8) -> bool {
    writable_register(addr) && !multibyte_register(addr) && addr != 0x07
}

/// Whether an opcode byte with attached written data bytes is a well-formed
/// write-direction frame: a no-operation or FIFO flush with no data, a
/// transmit payload of at most 32 bytes, or a register write carrying one
/// byte (1 to 5 bytes for the address registers).
pub open spec fn valid_command_frame(op: u8, data: Seq<u8>) -> bool {
    ||| ((op == 0b1111_1111 || op == 0b1110_0001 || op == 0b1110_0010) && data.len() == 0)
    ||| (op == 0b1010_0000 && data.len() <= 32)
    ||| (op & 0b1110_0000 == 0b0010_0000 && writable_register(op & 0b0001_1111) && (
        if multibyte_register(op & 0b0001_1111) {
            1 <= data.len() <= 5
        } else {
            data.len() == 1
        }
    ))
}

/// Whether an opcode byte with a read-back length is a well-formed
/// read-direction frame: a payload read of at most 32 bytes, or a single-byte
/// register read.
pub open spec fn valid_read_frame(op: u8, n: nat) -> bool {
    ||| (op == 0b0110_0001 && n <= 32)
    ||| (op & 0b1110_0000 == 0 && known_register(op) && n == 1)
}

/// The chip state after a register write: the addressed register takes the
/// written byte (the written sequence, for the address registers).  A write
/// to STATUS clears exactly the latched flags whose bits are set in the
/// written byte; writes to unknown or read-only addresses change nothing.
pub open spec fn reg_store(c: ChipState, addr: u8, data: Seq<u8>) -> ChipState {
    let b = data[0];
    if addr == 0x00 {
        ChipState { config: b, ..c }
    } else if addr == 0x01 {
        ChipState { en_aa: b, ..c }
    } else if addr == 0x02 {
        ChipState { en_rxaddr: b, ..c }
    } else if addr == 0x03 {
        ChipState { setup_aw: b, ..c }
    } else if addr == 0x04 {
        ChipState { setup_retr: b, ..c }
    } else if addr == 0x05 {
        ChipState { rf_ch: b, ..c }
    } else if addr == 0x06 {
        ChipState { rf_setup: b, ..c }
    } else if addr == 0x07 {
        ChipState { flags: c.flags & !(b & 0b0111_0000), ..c }
    } else if addr == 0x0a {
        ChipState { rx_addr_p0: data, ..c }
    } else if addr == 0x0b {
        ChipState { rx_addr_p1: data, ..c }
    } else if addr == 0x0c {
        ChipState { rx_addr_p2: b, ..c }
    } else if addr == 0x0d {
        ChipState { rx_addr_p3: b, ..c }
    } else if addr == 0x0e {
        ChipState { rx_addr_p4: b, ..c }
    } else if addr == 0x0f {
        ChipState { rx_addr_p5: b, ..c }
    } else if addr == 0x10 {
        ChipState { tx_addr: data, ..c }
    } else if addr == 0x11 {
        ChipState { rx_pw_p0: b, ..c }
    } else if addr == 0x12 {
        ChipState { rx_pw_p1: b, ..c }
    } else if addr == 0x13 {
        ChipState { rx_pw_p2: b, ..c }
    } else if addr == 0x14 {
        ChipState { rx_pw_p3: b, ..c }
    } else if addr == 0x15 {
        ChipState { rx_pw_p4: b, ..c }
    } else if addr == 0x16 {
        ChipState { rx_pw_p5: b, ..c }
    } else if addr == 0x1c {
        ChipState { dynpd: b, ..c }
    } else if addr == 0x1d {
        ChipState { feature: b, ..c }
    } else {
        c
    }
}

/// The byte a single-byte read of a register returns.  Reading a multi-byte
/// address register with a one-byte transfer returns its least-significant
/// byte; unknown addresses read as zero.
pub open spec fn reg_read_byte(c: ChipState, addr: u8) -> u8 {
    if addr == 0x00 {
        c.config
    } else if addr == 0x01 {
        c.en_aa
    } else if addr == 0x02 {
        c.en_rxaddr
    } else if addr == 0x03 {
        c.setup_aw
    } else if addr == 0x04 {
        c.setup_retr
    } else if addr == 0x05 {
        c.rf_ch
    } else if addr == 0x06 {
        c.rf_setup
    } else if addr == 0x07 {
        status_byte(c)
    } else if addr == 0x08 {
        c.observe_tx
    } else if addr == 0x09 {
        c.cd
    } else if addr == 0x0a {
        if c.rx_addr_p0.len() > 0 {
            c.rx_addr_p0[0]
        } else {
            0
        }
    } else if addr == 0x0b {
        if c.rx_addr_p1.len() > 0 {
            c.rx_addr_p1[0]
        } else {
            0
        }
    } else if addr == 0x0c {
        c.rx_addr_p2
    } else if addr == 0x0d {
        c.rx_addr_p3
    } else if addr == 0x0e {
        c.rx_addr_p4
    } else if addr == 0x0f {
        c.rx_addr_p5
    } else if addr == 0x10 {
        if c.tx_addr.len() > 0 {
            c.tx_addr[0]
        } else {
            0
        }
    } else if addr == 0x11 {
        c.rx_pw_p0
    } else if addr == 0x12 {
        c.rx_pw_p1
    } else if addr == 0x13 {
        c.rx_pw_p2
    } else if addr == 0x14 {
        c.rx_pw_p3
    } else if addr == 0x15 {
        c.rx_pw_p4
    } else if addr == 0x16 {
        c.rx_pw_p5
    } else if addr == 0x17 {
        fifo_status_byte(c)
    } else if addr == 0x1c {
        c.dynpd
    } else if addr == 0x1d {
        c.feature
    } else {
        0
    }
}

/// The chip state after a well-formed write-direction frame: a register write
/// stores into the register file, a transmit payload is appended to the
/// transmit FIFO when it has room and is dropped when it is full, the two
/// flush instructions empty their FIFO, and a no-operation changes nothing.
pub open spec fn chip_after_command(c: ChipState, op: u8, data: Seq<u8>) -> ChipState {
    if op & 0b1110_0000 == 0b0010_0000 {
        reg_store(c, op & 0b0001_1111, data)
    } else if op == 0b1010_0000 {
        if c.tx_fifo.len() < 3 {
            ChipState { tx_fifo: c.tx_fifo.push(data), ..c }
        } else {
            c
        }
    } else if op == 0b1110_0001 {
        ChipState { tx_fifo: Seq::empty(), ..c }
    } else if op == 0b1110_0010 {
        ChipState { rx_fifo: Seq::empty(), ..c }
    } else {
        c
    }
}

/// The chip state after a well-formed read-direction frame: a payload read
/// discards the front of the receive FIFO, a register read changes nothing.
pub open spec fn chip_after_read(c: ChipState, op: u8) -> ChipState {
    if op == 0b0110_0001 && c.rx_fifo.len() > 0 {
        ChipState { rx_fifo: c.rx_fifo.drop_first(), ..c }
    } else {
        c
    }
}

/// The operating mode of the chip, determined by the CONFIG register's power
/// and receiver bits together with the chip-enable line.
#[derive(Copy, Clone, PartialEq, Eq, Structural)]
pub enum OperatingMode {
    /// Power bit clear: the radio is off.
    PowerDown,
    /// Powered, chip-enable low: ready, neither listening nor transmitting.
    Standby,
    /// Powered, receiver role, chip-enable high: listening.
    Receive,
    /// Powered, transmitter role, chip-enable high: emptying the transmit
    /// FIFO over the air.
    Transmit,
}

/// The operating mode a chip state and a chip-enable level put the radio in.
pub open spec fn spec_mode(c: ChipState, ce: bool) -> OperatingMode {
    if c.config & 0b0000_0010 == 0 {
        OperatingMode::PowerDown
    } else if !ce {
        OperatingMode::Standby
    } else if c.config & 0b0000_0001 != 0 {
        OperatingMode::Receive
    } else {
        OperatingMode::Transmit
    }
}

/// Writing a byte with all three interrupt bits set to the STATUS register
/// clears every latched flag of a well-formed chip.
pub proof fn lemma_clear_all_flags(f: u8)
    requires
        f & 0b1000_1111 == 0,
    ensures
        f & !(0b0111_0000u8 & 0b0111_0000) == 0,
{
    assert(f & !(0b0111_0000u8 & 0b0111_0000) == 0) by (bit_vector)
        requires
            f & 0b1000_1111 == 0,
    ;
}

/// How setting or clearing the receiver and power bits of the CONFIG register
/// value interacts with reading them back.
pub proof fn lemma_config_bits(x: u8)
    ensures
        (x | 0b0000_0001) & 0b0000_0010 == x & 0b0000_0010,
        (x | 0b0000_0001) & 0b0000_0001 != 0,
        (x & !0b0000_0001) & 0b0000_0010 == x & 0b0000_0010,
        (x & !0b0000_0001) & 0b0000_0001 == 0,
        (x | 0b0000_0010) & 0b0000_0010 != 0,
        (x & !0b0000_0010) & 0b0000_0010 == 0,
        x & 0b0000_0010 != 0 ==> x | 0b0000_0010 == x,
        (x | 0b0000_0100) & 0b0000_0100 != 0,
        (0b0000_0010u8 | x) & 0b0000_0010 != 0,
        (0b0000_0010u8 | x) & 0b0000_0001 == x & 0b0000_0001,
{
    assert((x | 0b0000_0001) & 0b0000_0010 == x & 0b0000_0010 && (x | 0b0000_0001) & 0b0000_0001
        != 0 && (x & !0b0000_0001) & 0b0000_0010 == x & 0b0000_0010 && (x & !0b0000_0001)
        & 0b0000_0001 == 0 && (x | 0b0000_0010) & 0b0000_0010 != 0 && (x & !0b0000_0010)
        & 0b0000_0010 == 0 && (x & 0b0000_0010 != 0 ==> x | 0b0000_0010 == x) && (x | 0b0000_0100)
        & 0b0000_0100 != 0 && (0b0000_0010u8 | x) & 0b0000_0010 != 0 && (0b0000_0010u8 | x)
        & 0b0000_0001 == x & 0b0000_0001) by (bit_vector);
}

/// A write-register opcode (the write base combined with a 5-bit address)
/// decodes back into its parts, and a bare 5-bit address is a read-register
/// opcode as it stands.
pub proof fn lemma_register_opcode(addr: u8)
    requires
        addr < 0b0010_0000,
    ensures
        (0b0010_0000u8 | addr) & 0b1110_0000 == 0b0010_0000,
        (0b0010_0000u8 | addr) & 0b0001_1111 == addr,
        addr & 0b1110_0000 == 0,
{
    assert((0b0010_0000u8 | addr) & 0b1110_0000 == 0b0010_0000 && (0b0010_0000u8 | addr)
        & 0b0001_1111 == addr && addr & 0b1110_0000 == 0) by (bit_vector)
        requires
            addr < 0b0010_0000,
    ;
}

/// None of the fixed one-byte instructions carries the write-register or
/// read-register base in its top three bits.
pub proof fn lemma_fixed_opcodes_distinct()
    ensures
        0b1111_1111u8 & 0b1110_0000 != 0b0010_0000,
        0b1110_0001u8 & 0b1110_0000 != 0b0010_0000,
        0b1110_0010u8 & 0b1110_0000 != 0b0010_0000,
        0b1010_0000u8 & 0b1110_0000 != 0b0010_0000,
        0b0110_0001u8 & 0b1110_0000 != 0,
{
    assert(0b1111_1111u8 & 0b1110_0000 != 0b0010_0000 && 0b1110_0001u8 & 0b1110_0000
        != 0b0010_0000 && 0b1110_0010u8 & 0b1110_0000 != 0b0010_0000 && 0b1010_0000u8
        & 0b1110_0000 != 0b0010_0000 && 0b0110_0001u8 & 0b1110_0000 != 0) by (bit_vector);
}

/// Law: writing a register that the hardware does not modify on its own and
/// reading it back returns exactly the value written, whatever state the chip
/// was in.
pub proof fn lemma_register_roundtrip(c: ChipState, addr: u8, v: u8)
    requires
        config_register(addr),
    ensures
        reg_read_byte(reg_store(c, addr, seq![v]), addr) == v,
{
}

/// Law: a well-formed write-direction frame keeps the chip well formed.
pub proof fn lemma_command_preserves_wf(c: ChipState, op: u8, data: Seq<u8>)
    requires
        chip_wf(c),
        valid_command_frame(op, data),
    ensures
        chip_wf(chip_after_command(c, op, data)),
{
    let c2 = chip_after_command(c, op, data);
    lemma_fixed_opcodes_distinct();
    if op & 0b1110_0000 == 0b0010_0000 && (op & 0b0001_1111) == 0x07 {
        let b = data[0];
        let f = c.flags;
        assert((f & !(b & 0b0111_0000)) & 0b1000_1111 == 0) by (bit_vector)
            requires
                f & 0b1000_1111 == 0,
        ;
    }
    assert(forall|i: int| 0 <= i < c2.rx_fifo.len() ==> c2.rx_fifo[i] == c.rx_fifo[i]);
    if op == 0b1010_0000 && c.tx_fifo.len() < 3 {
        assert(forall|i: int|
            0 <= i < c.tx_fifo.len() ==> c2.tx_fifo[i] == #[trigger] c.tx_fifo[i]);
    }
}

/// Law: a well-formed read-direction frame keeps the chip well formed.
pub proof fn lemma_read_preserves_wf(c: ChipState, op: u8)
    requires
        chip_wf(c),
    ensures
        chip_wf(chip_after_read(c, op)),
{
    let c2 = chip_after_read(c, op);
    assert(forall|i: int|
        0 <= i < c2.rx_fifo.len() ==> #[trigger] c2.rx_fifo[i] == c.rx_fifo[i + 1]
            || c2.rx_fifo[i] == c.rx_fifo[i]);
}

/// Law: in a well-formed state, the status byte decomposes exactly into the
/// latched flags (bits 4 to 6), the pipe field (bits 1 to 3) and the
/// transmit-full bit (bit 0), and its validity marker (bit 7) is clear.
pub proof fn lemma_status_byte_fields(c: ChipState)
    requires
        chip_wf(c),
    ensures
        status_byte(c) & 0b1000_0000 == 0,
        status_byte(c) & 0b0111_0000 == c.flags,
        ((status_byte(c) >> 6) & 1 != 0) == (c.flags & 0b0100_0000 != 0),
        ((status_byte(c) >> 5) & 1 != 0) == (c.flags & 0b0010_0000 != 0),
        ((status_byte(c) >> 4) & 1 != 0) == (c.flags & 0b0001_0000 != 0),
        (status_byte(c) >> 1) & 0b111 == pipe_field(c),
        status_byte(c) & 1 == tx_full_bit(c),
{
    let f = c.flags;
    let p = pipe_field(c);
    let t = tx_full_bit(c);
    let s = status_byte(c);
    assert(s == f | (p << 1) | t);
    assert((f | (p << 1) | t) & 0b1000_0000 == 0 && (f | (p << 1) | t) & 0b0111_0000 == f && (((f
        | (p << 1) | t) >> 6) & 1 != 0) == (f & 0b0100_0000 != 0) && (((f | (p << 1) | t) >> 5) & 1
        != 0) == (f & 0b0010_0000 != 0) && (((f | (p << 1) | t) >> 4) & 1 != 0) == (f & 0b0001_0000
        != 0) && ((f | (p << 1) | t) >> 1) & 0b111 == p && (f | (p << 1) | t) & 1 == t)
        by (bit_vector)
        requires
            f & 0b1000_1111 == 0,
            p <= 7,
            t <= 1,
    ;
}

} // verus!
