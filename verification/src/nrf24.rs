//! The transceiver driver.
//!
//! [`Nrf24l01`] owns exclusive handles to the bus device and the chip-enable
//! line, plus cached copies of the CONFIG register value and the active
//! payload sizing mode.  Every operation is a fixed sequence of bus
//! transactions; the contracts state their combined effect on the chip model
//! of [`crate::chip`].

use vstd::prelude::*;

verus! {

use crate::MAX_PAYLOAD_SIZE;
use crate::chip::ChipState;
use crate::chip::OperatingMode;
use crate::chip::chip_after_command;
use crate::chip::chip_after_read;
use crate::chip::chip_wf;
use crate::chip::lemma_clear_all_flags;
use crate::chip::lemma_command_preserves_wf;
use crate::chip::lemma_config_bits;
use crate::chip::lemma_fixed_opcodes_distinct;
use crate::chip::lemma_register_opcode;
use crate::chip::lemma_status_byte_fields;
use crate::chip::multibyte_register;
use crate::chip::reg_read_byte;
use crate::chip::reg_store;
use crate::chip::spec_mode;
use crate::chip::status_byte;
use crate::chip::valid_command_frame;
use crate::chip::writable_register;
use crate::config::AddressWidth;
use crate::config::AutoRetransmission;
use crate::config::DataPipe;
use crate::config::DataRate;
use crate::config::EncodingScheme;
use crate::config::MAX_CHANNEL;
use crate::config::NrfConfig;
use crate::config::PALevel;
use crate::config::PayloadSize;
use crate::device::BusDevice;
use crate::device::ChipEnable;
use crate::device::Delay;
use crate::error::TransceiverError;
use crate::registers::Instruction;
use crate::registers::Register;
use crate::status::Interrupts;
use crate::status::Status;

/// Whether the chip's payload-size registers agree with a payload sizing
/// mode: in static mode all six per-pipe size registers hold the size, in
/// dynamic mode the feature bit is on and all six dynamic-payload bits are
/// set.
pub open spec fn payload_regs_match(c: ChipState, ps: PayloadSize) -> bool {
    match ps {
        PayloadSize::Static(n) => c.rx_pw_p0 == n && c.rx_pw_p1 == n && c.rx_pw_p2 == n
            && c.rx_pw_p3 == n && c.rx_pw_p4 == n && c.rx_pw_p5 == n,
        PayloadSize::Dynamic => c.feature & 0b0000_0100 != 0 && c.dynpd == 0b0001_1111,
    }
}

/// An address as it reaches the chip: at most the first five bytes.
pub open spec fn addr_trunc(a: Seq<u8>) -> Seq<u8> {
    if a.len() <= 5 {
        a
    } else {
        a.take(5)
    }
}

/// How many bytes one payload transfer moves: the static size in static
/// mode, and the caller's buffer length clipped to the maximum payload size
/// in dynamic mode.
pub open spec fn spec_transfer_len(ps: PayloadSize, buf_len: nat) -> nat {
    match ps {
        PayloadSize::Static(n) => n as nat,
        PayloadSize::Dynamic => if buf_len <= MAX_PAYLOAD_SIZE as nat {
            buf_len
        } else {
            MAX_PAYLOAD_SIZE as nat
        },
    }
}

/// The payload one write frames: `k` bytes, the buffer's own where it
/// reaches and zeros past its end.
pub open spec fn spec_tx_payload(buf: Seq<u8>, k: nat) -> Seq<u8> {
    Seq::new(
        k,
        |i: int|
            if i < buf.len() {
                buf[i]
            } else {
                0u8
            },
    )
}

/// Law: enabling one pipe in the enable-addresses register sets exactly that
/// pipe's bit and preserves every other pipe's bit.
pub proof fn lemma_enable_bit_preserves_others(e: u8, p: u8, q: u8)
    requires
        p < 8,
        q < 8,
        p != q,
    ensures
        ((e | (1u8 << p)) >> p) & 1 == 1,
        ((e | (1u8 << p)) >> q) & 1 == (e >> q) & 1,
{
    assert(((e | (1u8 << p)) >> p) & 1 == 1 && ((e | (1u8 << p)) >> q) & 1 == (e >> q) & 1)
        by (bit_vector)
        requires
            p < 8,
            q < 8,
            p != q,
    ;
}

/// The transceiver driver.  It requires unique access for every operation,
/// so no two logical operations can interleave their bus transactions.
pub struct Nrf24l01<SPI, CE> {
    spi: SPI,
    ce: CE,
    config_reg: u8,
    payload_size: PayloadSize,
}

impl<SPI: BusDevice, CE: ChipEnable> Nrf24l01<SPI, CE> {
    /// The model state of the chip this driver drives.
    pub closed spec fn chip(&self) -> ChipState {
        self.spi.chip()
    }

    /// The level of the chip-enable line.
    pub closed spec fn ce_level(&self) -> bool {
        self.ce.level()
    }

    /// The driver's cached copy of the CONFIG register value.
    pub closed spec fn spec_config_cache(&self) -> u8 {
        self.config_reg
    }

    /// The payload sizing mode the driver is configured for.
    pub closed spec fn spec_payload_size(&self) -> PayloadSize {
        self.payload_size
    }

    /// The operating mode the chip is in.
    pub open spec fn mode(&self) -> OperatingMode {
        spec_mode(self.chip(), self.ce_level())
    }

    /// The driver invariant, established by initialization and kept by every
    /// operation that returns success: the chip is well formed, the CONFIG
    /// cache agrees with the chip's CONFIG register, the cached payload mode
    /// is valid and agrees with the chip's payload registers, and the address
    /// width register holds one of its three legal encodings.
    pub open spec fn inv(&self) -> bool {
        &&& chip_wf(self.chip())
        &&& self.spec_config_cache() == self.chip().config
        &&& self.spec_payload_size().wf()
        &&& payload_regs_match(self.chip(), self.spec_payload_size())
        &&& (self.chip().setup_aw == 1 || self.chip().setup_aw == 2 || self.chip().setup_aw == 3)
    }

    /// Drive the chip-enable line high.
    fn set_ce_high(&mut self) -> (r: Result<(), TransceiverError<SPI::Error, CE::Error>>)
        ensures
            final(self).chip() == old(self).chip(),
            final(self).spec_config_cache() == old(self).spec_config_cache(),
            final(self).spec_payload_size() == old(self).spec_payload_size(),
            r is Ok ==> final(self).ce_level(),
            r matches Err(e) ==> e is Ce,
    {
        match self.ce.set_high() {
            Ok(()) => Ok(()),
            Err(e) => Err(TransceiverError::Ce(e)),
        }
    }

    /// Drive the chip-enable line low.
    fn set_ce_low(&mut self) -> (r: Result<(), TransceiverError<SPI::Error, CE::Error>>)
        ensures
            final(self).chip() == old(self).chip(),
            final(self).spec_config_cache() == old(self).spec_config_cache(),
            final(self).spec_payload_size() == old(self).spec_payload_size(),
            r is Ok ==> !final(self).ce_level(),
            r matches Err(e) ==> e is Ce,
    {
        match self.ce.set_low() {
            Ok(()) => Ok(()),
            Err(e) => Err(TransceiverError::Ce(e)),
        }
    }

    /// Send an instruction with attached data bytes over the bus; the status
    /// byte comes back.
    fn send_command_bytes(&mut self, instruction: Instruction, buf: &[u8]) -> (r: Result<
        Status,
        TransceiverError<SPI::Error, CE::Error>,
    >)
        requires
            chip_wf(old(self).chip()),
            valid_command_frame(instruction.spec_opcode(), buf@),
        ensures
            chip_wf(final(self).chip()),
            final(self).ce_level() == old(self).ce_level(),
            final(self).spec_config_cache() == old(self).spec_config_cache(),
            final(self).spec_payload_size() == old(self).spec_payload_size(),
            r matches Ok(st) ==> st.spec_raw() == status_byte(old(self).chip())
                && final(self).chip() == chip_after_command(old(self).chip(), instruction.spec_opcode(), buf@),
            r matches Err(e) ==> e is Spi,
    {
        let op = instruction.opcode();
        match self.spi.transfer_write(op, buf) {
            Ok(st) => Ok(Status::from_raw(st)),
            Err(e) => Err(TransceiverError::Spi(e)),
        }
    }

    /// Send an instruction without data bytes; the status byte comes back.
    fn send_command(&mut self, instruction: Instruction) -> (r: Result<
        Status,
        TransceiverError<SPI::Error, CE::Error>,
    >)
        requires
            chip_wf(old(self).chip()),
            valid_command_frame(instruction.spec_opcode(), Seq::empty()),
        ensures
            chip_wf(final(self).chip()),
            final(self).ce_level() == old(self).ce_level(),
            final(self).spec_config_cache() == old(self).spec_config_cache(),
            final(self).spec_payload_size() == old(self).spec_payload_size(),
            r matches Ok(st) ==> st.spec_raw() == status_byte(old(self).chip()) && final(self).chip() == chip_after_command(
                old(self).chip(),
                instruction.spec_opcode(),
                Seq::empty(),
            ),
            r matches Err(e) ==> e is Spi,
    {
        let empty: Vec<u8> = Vec::new();
        proof {
            assert(empty@ =~= Seq::<u8>::empty());
        }
        self.send_command_bytes(instruction, empty.as_slice())
    }

    /// Write a single-byte register.
    fn write_register(&mut self, register: Register, value: u8) -> (r: Result<
        (),
        TransceiverError<SPI::Error, CE::Error>,
    >)
        requires
            chip_wf(old(self).chip()),
            writable_register(register.spec_addr()),
            !multibyte_register(register.spec_addr()),
        ensures
            chip_wf(final(self).chip()),
            final(self).ce_level() == old(self).ce_level(),
            final(self).spec_config_cache() == old(self).spec_config_cache(),
            final(self).spec_payload_size() == old(self).spec_payload_size(),
            r is Ok ==> final(self).chip() == reg_store(
                old(self).chip(),
                register.spec_addr(),
                seq![value],
            ),
            r matches Err(e) ==> e is Spi,
    {
        let addr = register.addr();
        let op = Instruction::WR.opcode() | addr;
        let mut data: Vec<u8> = Vec::new();
        data.push(value);
        proof {
            lemma_register_opcode(addr);
            assert(data@ =~= seq![value]);
            if chip_wf(old(self).chip()) {
                lemma_command_preserves_wf(old(self).chip(), op, data@);
            }
        }
        match self.spi.transfer_write(op, data.as_slice()) {
            Ok(_) => Ok(()),
            Err(e) => Err(TransceiverError::Spi(e)),
        }
    }

    /// Write a multi-byte address register.
    fn write_register_bytes(&mut self, register: Register, buf: &[u8]) -> (r: Result<
        (),
        TransceiverError<SPI::Error, CE::Error>,
    >)
        requires
            chip_wf(old(self).chip()),
            multibyte_register(register.spec_addr()),
            1 <= buf@.len() <= 5,
        ensures
            chip_wf(final(self).chip()),
            final(self).ce_level() == old(self).ce_level(),
            final(self).spec_config_cache() == old(self).spec_config_cache(),
            final(self).spec_payload_size() == old(self).spec_payload_size(),
            r is Ok ==> final(self).chip() == reg_store(
                old(self).chip(),
                register.spec_addr(),
                buf@,
            ),
            r matches Err(e) ==> e is Spi,
    {
        let addr = register.addr();
        let op = Instruction::WR.opcode() | addr;
        proof {
            lemma_register_opcode(addr);
            if chip_wf(old(self).chip()) {
                lemma_command_preserves_wf(old(self).chip(), op, buf@);
            }
        }
        match self.spi.transfer_write(op, buf) {
            Ok(_) => Ok(()),
            Err(e) => Err(TransceiverError::Spi(e)),
        }
    }

    /// Read a single-byte register; the chip is left unchanged.
    fn read_register(&mut self, register: Register) -> (r: Result<
        u8,
        TransceiverError<SPI::Error, CE::Error>,
    >)
        requires
            chip_wf(old(self).chip()),
        ensures
            chip_wf(final(self).chip()),
            final(self).ce_level() == old(self).ce_level(),
            final(self).spec_config_cache() == old(self).spec_config_cache(),
            final(self).spec_payload_size() == old(self).spec_payload_size(),
            r is Ok ==> final(self).chip() == old(self).chip(),
            r matches Ok(b) ==> b == reg_read_byte(old(self).chip(), register.spec_addr()),
            r matches Err(e) ==> e is Spi,
    {
        let addr = register.addr();
        proof {
            lemma_register_opcode(addr);
        }
        match self.spi.transfer_read(addr, 1) {
            Ok((_, bytes)) => Ok(bytes[0]),
            Err(e) => Err(TransceiverError::Spi(e)),
        }
    }

    /// Clear all three latched interrupt flags by writing their bits back to
    /// the STATUS register.
    fn clear_status_flags(&mut self) -> (r: Result<
        (),
        TransceiverError<SPI::Error, CE::Error>,
    >)
        requires
            chip_wf(old(self).chip()),
        ensures
            chip_wf(final(self).chip()),
            final(self).ce_level() == old(self).ce_level(),
            final(self).spec_config_cache() == old(self).spec_config_cache(),
            final(self).spec_payload_size() == old(self).spec_payload_size(),
            r is Ok ==> final(self).chip() == (ChipState { flags: 0, ..old(self).chip() }),
            r matches Err(e) ==> e is Spi,
    {
        let r = self.write_register(Register::STATUS, 0b0111_0000);
        proof {
            lemma_clear_all_flags(old(self).chip().flags);
        }
        r
    }

    /// Whether the driver believes the chip is powered up, from the cached
    /// CONFIG value.
    fn is_powered_up(&self) -> (r: bool)
        ensures
            r == (self.spec_config_cache() & 0b0000_0010 != 0),
    {
        self.config_reg & 0b0000_0010 != 0
    }

    /// The payload sizing mode the driver is configured for.
    pub fn payload_size(&self) -> (r: PayloadSize)
        ensures
            r == self.spec_payload_size(),
    {
        self.payload_size
    }

    /// Set the frequency channel the chip operates on, a number between 0 and
    /// 125; larger values are clipped to 125.
    pub fn set_channel(&mut self, channel: u8) -> (r: Result<
        (),
        TransceiverError<SPI::Error, CE::Error>,
    >)
        requires
            old(self).inv(),
        ensures
            chip_wf(final(self).chip()),
            final(self).ce_level() == old(self).ce_level(),
            r is Ok ==> final(self).inv()
                && final(self).chip() == (ChipState {
                rf_ch: if channel < MAX_CHANNEL { channel } else { MAX_CHANNEL },
                ..old(self).chip()
            }) && final(self).spec_payload_size() == old(self).spec_payload_size(),
            r matches Err(e) ==> e is Spi,
    {
        let clipped: u8 = if channel < MAX_CHANNEL {
            channel
        } else {
            MAX_CHANNEL
        };
        self.write_register(Register::RF_CH, clipped)
    }

    /// The frequency channel the chip operates on.  The radio frequency is
    /// the channel plus 2400 MHz.
    pub fn channel(&mut self) -> (r: Result<u8, TransceiverError<SPI::Error, CE::Error>>)
        requires
            old(self).inv(),
        ensures
            chip_wf(final(self).chip()),
            final(self).ce_level() == old(self).ce_level(),
            r is Ok ==> final(self).inv()
                && final(self).chip() == old(self).chip()
                && final(self).spec_payload_size() == old(self).spec_payload_size(),
            r matches Ok(ch) ==> ch == old(self).chip().rf_ch,
            r matches Err(e) ==> e is Spi,
    {
        self.read_register(Register::RF_CH)
    }

    /// Configure the automatic retransmission delay and count.
    pub fn set_retries(&mut self, auto_retry: AutoRetransmission) -> (r: Result<
        (),
        TransceiverError<SPI::Error, CE::Error>,
    >)
        requires
            old(self).inv(),
            auto_retry.wf(),
        ensures
            chip_wf(final(self).chip()),
            final(self).ce_level() == old(self).ce_level(),
            r is Ok ==> final(self).inv()
                && final(self).chip() == (ChipState {
                setup_retr: auto_retry.spec_register(),
                ..old(self).chip()
            }) && final(self).spec_payload_size() == old(self).spec_payload_size(),
            r matches Err(e) ==> e is Spi,
    {
        self.write_register(
            Register::SETUP_RETR,
            (auto_retry.raw_delay() << 4u8) | auto_retry.count(),
        )
    }

    /// Read the automatic retransmission configuration back from the chip.
    pub fn retries(&mut self) -> (r: Result<
        AutoRetransmission,
        TransceiverError<SPI::Error, CE::Error>,
    >)
        requires
            old(self).inv(),
        ensures
            chip_wf(final(self).chip()),
            final(self).ce_level() == old(self).ce_level(),
            r is Ok ==> final(self).inv()
                && final(self).chip() == old(self).chip()
                && final(self).spec_payload_size() == old(self).spec_payload_size(),
            r matches Ok(ar) ==> ar.spec_raw_delay() == old(self).chip().setup_retr >> 4
                && ar.spec_count() == old(self).chip().setup_retr & 0b0000_1111 && ar.wf(),
            r matches Err(e) ==> e is Spi,
    {
        match self.read_register(Register::SETUP_RETR) {
            Ok(reg) => Ok(AutoRetransmission::from_register(reg)),
            Err(e) => Err(e),
        }
    }

    /// Set the address width used by all pipes.
    pub fn set_address_width(&mut self, width: AddressWidth) -> (r: Result<
        (),
        TransceiverError<SPI::Error, CE::Error>,
    >)
        requires
            old(self).inv(),
        ensures
            chip_wf(final(self).chip()),
            final(self).ce_level() == old(self).ce_level(),
            r is Ok ==> final(self).inv()
                && final(self).chip() == (ChipState {
                setup_aw: width.spec_value(),
                ..old(self).chip()
            }) && final(self).spec_payload_size() == old(self).spec_payload_size(),
            r matches Err(e) ==> e is Spi,
    {
        self.write_register(Register::SETUP_AW, width.value())
    }

    /// The data rate the chip is configured for.
    pub fn data_rate(&mut self) -> (r: Result<DataRate, TransceiverError<SPI::Error, CE::Error>>)
        requires
            old(self).inv(),
        ensures
            chip_wf(final(self).chip()),
            final(self).ce_level() == old(self).ce_level(),
            r is Ok ==> final(self).inv()
                && final(self).chip() == old(self).chip()
                && final(self).spec_payload_size() == old(self).spec_payload_size(),
            r matches Ok(d) ==> d == DataRate::spec_from_bits(old(self).chip().rf_setup),
            r matches Err(e) ==> e is Spi,
    {
        match self.read_register(Register::RF_SETUP) {
            Ok(reg) => Ok(DataRate::from_bits(reg)),
            Err(e) => Err(e),
        }
    }

    /// The power amplification level the chip is configured for.
    pub fn power_amp_level(&mut self) -> (r: Result<
        PALevel,
        TransceiverError<SPI::Error, CE::Error>,
    >)
        requires
            old(self).inv(),
        ensures
            chip_wf(final(self).chip()),
            final(self).ce_level() == old(self).ce_level(),
            r is Ok ==> final(self).inv()
                && final(self).chip() == old(self).chip()
                && final(self).spec_payload_size() == old(self).spec_payload_size(),
            r matches Ok(l) ==> l == PALevel::spec_from_bits(old(self).chip().rf_setup),
            r matches Err(e) ==> e is Spi,
    {
        match self.read_register(Register::RF_SETUP) {
            Ok(reg) => Ok(PALevel::from_bits(reg)),
            Err(e) => Err(e),
        }
    }

    /// Flush the transmit FIFO.
    pub fn flush_tx(&mut self) -> (r: Result<(), TransceiverError<SPI::Error, CE::Error>>)
        requires
            old(self).inv(),
        ensures
            chip_wf(final(self).chip()),
            final(self).ce_level() == old(self).ce_level(),
            r is Ok ==> final(self).inv()
                && final(self).chip() == (ChipState {
                tx_fifo: Seq::empty(),
                ..old(self).chip()
            }) && final(self).spec_payload_size() == old(self).spec_payload_size(),
            r matches Err(e) ==> e is Spi,
    {
        proof {
            lemma_fixed_opcodes_distinct();
        }
        match self.send_command(Instruction::FTX) {
            Ok(_) => Ok(()),
            Err(e) => Err(e),
        }
    }

    /// Flush the receive FIFO.
    pub fn flush_rx(&mut self) -> (r: Result<(), TransceiverError<SPI::Error, CE::Error>>)
        requires
            old(self).inv(),
        ensures
            chip_wf(final(self).chip()),
            final(self).ce_level() == old(self).ce_level(),
            r is Ok ==> final(self).inv()
                && final(self).chip() == (ChipState {
                rx_fifo: Seq::empty(),
                ..old(self).chip()
            }) && final(self).spec_payload_size() == old(self).spec_payload_size(),
            r matches Err(e) ==> e is Spi,
    {
        proof {
            lemma_fixed_opcodes_distinct();
        }
        match self.send_command(Instruction::FRX) {
            Ok(_) => Ok(()),
            Err(e) => Err(e),
        }
    }

    /// Read the status byte, through the no-operation instruction.
    pub fn status(&mut self) -> (r: Result<Status, TransceiverError<SPI::Error, CE::Error>>)
        requires
            old(self).inv(),
        ensures
            chip_wf(final(self).chip()),
            final(self).ce_level() == old(self).ce_level(),
            r is Ok ==> final(self).inv()
                && final(self).chip() == old(self).chip()
                && final(self).spec_payload_size() == old(self).spec_payload_size(),
            r matches Ok(st) ==> st.spec_raw() == status_byte(old(self).chip()),
            r matches Err(e) ==> e is Spi,
    {
        proof {
            lemma_fixed_opcodes_distinct();
        }
        self.send_command(Instruction::NOP)
    }

    /// Clear the data-ready, data-sent and max-retries interrupt flags.
    pub fn reset_status(&mut self) -> (r: Result<(), TransceiverError<SPI::Error, CE::Error>>)
        requires
            old(self).inv(),
        ensures
            chip_wf(final(self).chip()),
            final(self).ce_level() == old(self).ce_level(),
            r is Ok ==> final(self).inv()
                && final(self).chip() == (ChipState {
                flags: 0,
                ..old(self).chip()
            }) && final(self).spec_payload_size() == old(self).spec_payload_size(),
            r matches Err(e) ==> e is Spi,
    {
        self.clear_status_flags()
    }

    /// Enable the given cyclic-redundancy-check scheme.
    pub fn enable_crc(&mut self, scheme: EncodingScheme) -> (r: Result<
        (),
        TransceiverError<SPI::Error, CE::Error>,
    >)
        requires
            old(self).inv(),
        ensures
            chip_wf(final(self).chip()),
            final(self).ce_level() == old(self).ce_level(),
            r is Ok ==> final(self).inv()
                && final(self).chip() == (ChipState {
                config: (old(self).spec_config_cache() & !0b0000_1100) | scheme.spec_scheme(),
                ..old(self).chip()
            }) && final(self).spec_payload_size() == old(self).spec_payload_size(),
            r matches Err(e) ==> e is Spi,
    {
        let mask = EncodingScheme::bitmask();
        self.config_reg = (self.config_reg & !mask) | scheme.scheme();
        self.write_register(Register::CONFIG, self.config_reg)
    }

    /// The cyclic-redundancy-check scheme the chip is configured for.
    pub fn crc_encoding_scheme(&mut self) -> (r: Result<
        EncodingScheme,
        TransceiverError<SPI::Error, CE::Error>,
    >)
        requires
            old(self).inv(),
        ensures
            chip_wf(final(self).chip()),
            final(self).ce_level() == old(self).ce_level(),
            r is Ok ==> final(self).inv()
                && final(self).chip() == old(self).chip()
                && final(self).spec_payload_size() == old(self).spec_payload_size(),
            r matches Ok(s) ==> s == EncodingScheme::spec_from_bits(old(self).chip().config),
            r matches Err(e) ==> e is Spi,
    {
        match self.read_register(Register::CONFIG) {
            Ok(reg) => Ok(EncodingScheme::from_bits(reg)),
            Err(e) => Err(e),
        }
    }

    /// Apply a payload sizing mode to the chip and remember it.
    fn apply_payload_size(&mut self, payload_size: PayloadSize) -> (r: Result<
        (),
        TransceiverError<SPI::Error, CE::Error>,
    >)
        requires
            chip_wf(old(self).chip()),
        ensures
            chip_wf(final(self).chip()),
            final(self).ce_level() == old(self).ce_level(),
            final(self).spec_config_cache() == old(self).spec_config_cache(),
            r is Ok ==> final(self).spec_payload_size() == payload_size.spec_truncate(),
            r is Ok ==> final(self).spec_payload_size().wf(),
            r is Ok ==> payload_regs_match(final(self).chip(), final(self).spec_payload_size()),
            r is Ok ==> final(self).chip() == ({
                let c0 = old(self).chip();
                match payload_size.spec_truncate() {
                    PayloadSize::Static(n) => ChipState {
                        feature: if old(self).spec_payload_size() is Dynamic {
                            c0.feature & !0b0000_0100
                        } else {
                            c0.feature
                        },
                        rx_pw_p0: n,
                        rx_pw_p1: n,
                        rx_pw_p2: n,
                        rx_pw_p3: n,
                        rx_pw_p4: n,
                        rx_pw_p5: n,
                        ..c0
                    },
                    PayloadSize::Dynamic => ChipState {
                        feature: c0.feature | 0b0000_0100,
                        dynpd: 0b0001_1111,
                        ..c0
                    },
                }
            }),
            r matches Err(e) ==> e is Spi,
    {
        let normalized = payload_size.truncate();
        match normalized {
            PayloadSize::Static(size) => {
                let was_dynamic = match self.payload_size {
                    PayloadSize::Dynamic => true,
                    _ => false,
                };
                if was_dynamic {
                    // Dynamic payloads were on: clear the feature bit first.
                    let feature = self.read_register(Register::FEATURE)?;
                    self.write_register(Register::FEATURE, feature & !0b0000_0100)?;
                }
                self.write_register(Register::RX_PW_P0, size)?;
                self.write_register(Register::RX_PW_P1, size)?;
                self.write_register(Register::RX_PW_P2, size)?;
                self.write_register(Register::RX_PW_P3, size)?;
                self.write_register(Register::RX_PW_P4, size)?;
                self.write_register(Register::RX_PW_P5, size)?;
            },
            PayloadSize::Dynamic => {
                let feature = self.read_register(Register::FEATURE)?;
                self.write_register(Register::FEATURE, feature | 0b0000_0100)?;
                self.write_register(Register::DYNPD, 0b0001_1111)?;
                proof {
                    lemma_config_bits(old(self).chip().feature);
                }
            },
        }
        self.payload_size = normalized;
        Ok(())
    }

    /// Set the payload sizing mode: dynamic, or static with a fixed size.
    /// A static size of zero asks for dynamic mode, and static sizes above
    /// the maximum payload size clamp to it.
    pub fn set_payload_size(&mut self, payload_size: PayloadSize) -> (r: Result<
        (),
        TransceiverError<SPI::Error, CE::Error>,
    >)
        requires
            old(self).inv(),
        ensures
            chip_wf(final(self).chip()),
            final(self).ce_level() == old(self).ce_level(),
            r is Ok ==> final(self).inv() && final(self).spec_payload_size()
                == payload_size.spec_truncate(),
            r is Ok ==> final(self).chip() == ({
                let c0 = old(self).chip();
                match payload_size.spec_truncate() {
                    PayloadSize::Static(n) => ChipState {
                        feature: if old(self).spec_payload_size() is Dynamic {
                            c0.feature & !0b0000_0100
                        } else {
                            c0.feature
                        },
                        rx_pw_p0: n,
                        rx_pw_p1: n,
                        rx_pw_p2: n,
                        rx_pw_p3: n,
                        rx_pw_p4: n,
                        rx_pw_p5: n,
                        ..c0
                    },
                    PayloadSize::Dynamic => ChipState {
                        feature: c0.feature | 0b0000_0100,
                        dynpd: 0b0001_1111,
                        ..c0
                    },
                }
            }),
            r matches Err(e) ==> e is Spi,
    {
        self.apply_payload_size(payload_size)
    }

    /// Power the chip up.  A freshly initialized driver is already powered
    /// up; call this after [`Nrf24l01::power_down`].  When the chip was
    /// powered down, the required settle time is waited in full before the
    /// call returns.
    pub fn power_up<D: Delay>(&mut self, delay: &mut D) -> (r: Result<
        (),
        TransceiverError<SPI::Error, CE::Error>,
    >)
        requires
            old(self).inv(),
        ensures
            chip_wf(final(self).chip()),
            final(self).ce_level() == old(self).ce_level(),
            r is Ok ==> final(self).inv()
                && final(self).spec_payload_size() == old(self).spec_payload_size()
                && final(self).spec_config_cache() == (old(self).spec_config_cache() | 0b0000_0010)
                && final(self).chip() == (ChipState {
                config: old(self).spec_config_cache() | 0b0000_0010,
                ..old(self).chip()
            }) && final(self).mode() != OperatingMode::PowerDown && final(delay).elapsed_us()
                == old(delay).elapsed_us() + (
            if old(self).spec_config_cache() & 0b0000_0010 != 0 {
                0nat
            } else {
                5000nat
            }),
            r matches Err(e) ==> e is Spi,
    {
        proof {
            lemma_config_bits(old(self).spec_config_cache());
        }
        if !self.is_powered_up() {
            self.config_reg = self.config_reg | 0b0000_0010;
            self.write_register(Register::CONFIG, self.config_reg)?;
            delay.delay_ms(5);
        }
        Ok(())
    }

    /// Power the chip down into its low-power mode.  The chip-enable line is
    /// released first.
    pub fn power_down(&mut self) -> (r: Result<(), TransceiverError<SPI::Error, CE::Error>>)
        requires
            old(self).inv(),
        ensures
            chip_wf(final(self).chip()),
            r is Ok ==> final(self).inv() && !final(self).ce_level()
                && final(self).spec_payload_size() == old(self).spec_payload_size()
                && final(self).spec_config_cache() == (old(self).spec_config_cache() & !0b0000_0010)
                && final(self).chip() == (ChipState {
                config: old(self).spec_config_cache() & !0b0000_0010,
                ..old(self).chip()
            }) && final(self).mode() == OperatingMode::PowerDown,
            r matches Err(e) ==> e is Spi || e is Ce,
    {
        proof {
            lemma_config_bits(old(self).spec_config_cache());
        }
        self.set_ce_low()?;
        self.config_reg = self.config_reg & !0b0000_0010;
        self.write_register(Register::CONFIG, self.config_reg)
    }

    /// Start listening on the pipes that are open for reading: set the
    /// receiver bit, clear the interrupt flags and raise the chip-enable
    /// line.  At least one reading pipe must be open.
    pub fn start_listening(&mut self) -> (r: Result<(), TransceiverError<SPI::Error, CE::Error>>)
        requires
            old(self).inv(),
            old(self).chip().en_rxaddr & 0b0011_1111 != 0,
        ensures
            chip_wf(final(self).chip()),
            r is Ok ==> final(self).inv() && final(self).ce_level()
                && final(self).spec_payload_size() == old(self).spec_payload_size()
                && final(self).spec_config_cache() == (old(self).spec_config_cache() | 0b0000_0001)
                && final(self).chip() == (ChipState {
                config: old(self).spec_config_cache() | 0b0000_0001,
                flags: 0,
                ..old(self).chip()
            }) && (old(self).spec_config_cache() & 0b0000_0010 != 0 ==> final(self).mode()
                == OperatingMode::Receive),
            r matches Err(e) ==> e is Spi || e is Ce,
    {
        proof {
            lemma_config_bits(old(self).spec_config_cache());
        }
        self.config_reg = self.config_reg | 0b0000_0001;
        self.write_register(Register::CONFIG, self.config_reg)?;
        self.clear_status_flags()?;
        self.set_ce_high()?;
        Ok(())
    }

    /// Stop listening: release the chip-enable line first, then clear the
    /// receiver bit — in that order, so the chip cannot transmit by mistake
    /// in between.
    pub fn stop_listening(&mut self) -> (r: Result<(), TransceiverError<SPI::Error, CE::Error>>)
        requires
            old(self).inv(),
        ensures
            chip_wf(final(self).chip()),
            r is Ok ==> final(self).inv() && !final(self).ce_level()
                && final(self).spec_payload_size() == old(self).spec_payload_size()
                && final(self).spec_config_cache() == (old(self).spec_config_cache() & !0b0000_0001)
                && final(self).chip() == (ChipState {
                config: old(self).spec_config_cache() & !0b0000_0001,
                ..old(self).chip()
            }) && (old(self).spec_config_cache() & 0b0000_0010 != 0 ==> final(self).mode()
                == OperatingMode::Standby),
            r matches Err(e) ==> e is Spi || e is Ce,
    {
        proof {
            lemma_config_bits(old(self).spec_config_cache());
        }
        self.set_ce_low()?;
        self.config_reg = self.config_reg & !0b0000_0001;
        self.write_register(Register::CONFIG, self.config_reg)
    }

    /// Open the given pipe for reading on an address.
    ///
    /// Pipes 0 and 1 take the full address (truncated to five bytes); pipes
    /// 2 to 5 share the upper bytes of pipe 1's address and take only their
    /// unique least-significant byte, the first byte of the buffer.  The
    /// pipe's bit in the enable-addresses register is then set, preserving
    /// the other pipes' bits.
    ///
    /// Call this before [`Nrf24l01::start_listening`].
    pub fn open_reading_pipe(&mut self, pipe: DataPipe, addr: &[u8]) -> (r: Result<
        (),
        TransceiverError<SPI::Error, CE::Error>,
    >)
        requires
            old(self).inv(),
            addr@.len() >= 1,
        ensures
            chip_wf(final(self).chip()),
            final(self).ce_level() == old(self).ce_level(),
            r is Ok ==> final(self).inv()
                && final(self).spec_payload_size() == old(self).spec_payload_size()
                && final(self).chip() == ({
                let c0 = old(self).chip();
                let c1 = match pipe {
                    DataPipe::DP0 => ChipState { rx_addr_p0: addr_trunc(addr@), ..c0 },
                    DataPipe::DP1 => ChipState { rx_addr_p1: addr_trunc(addr@), ..c0 },
                    DataPipe::DP2 => ChipState { rx_addr_p2: addr@[0], ..c0 },
                    DataPipe::DP3 => ChipState { rx_addr_p3: addr@[0], ..c0 },
                    DataPipe::DP4 => ChipState { rx_addr_p4: addr@[0], ..c0 },
                    DataPipe::DP5 => ChipState { rx_addr_p5: addr@[0], ..c0 },
                };
                ChipState { en_rxaddr: c0.en_rxaddr | (1u8 << pipe.spec_pipe()), ..c1 }
            }),
            r matches Err(e) ==> e is Spi,
    {
        let addr_t: &[u8] = if addr.len() > 5 {
            &addr[0..5]
        } else {
            addr
        };
        proof {
            assert(addr_t@ == addr_trunc(addr@));
        }
        let reg = pipe.rx_address_register();
        match pipe {
            DataPipe::DP0 | DataPipe::DP1 => {
                self.write_register_bytes(reg, addr_t)?;
            },
            _ => {
                self.write_register(reg, addr_t[0])?;
            },
        }
        let old_reg = self.read_register(Register::EN_RXADDR)?;
        self.write_register(Register::EN_RXADDR, old_reg | (1u8 << pipe.pipe()))?;
        Ok(())
    }

    /// Open the writing pipe on an address (truncated to five bytes).
    ///
    /// The address is written both to the transmit-address register and to
    /// pipe 0's receive address, because acknowledgements arrive on pipe 0;
    /// this holds even if pipe 0 is never opened for reception explicitly.
    ///
    /// Call this before [`Nrf24l01::write`].
    pub fn open_writing_pipe(&mut self, addr: &[u8]) -> (r: Result<
        (),
        TransceiverError<SPI::Error, CE::Error>,
    >)
        requires
            old(self).inv(),
            addr@.len() >= 1,
        ensures
            chip_wf(final(self).chip()),
            final(self).ce_level() == old(self).ce_level(),
            r is Ok ==> final(self).inv()
                && final(self).spec_payload_size() == old(self).spec_payload_size()
                && final(self).chip() == (ChipState {
                rx_addr_p0: addr_trunc(addr@),
                tx_addr: addr_trunc(addr@),
                ..old(self).chip()
            }),
            r matches Err(e) ==> e is Spi,
    {
        let addr_t: &[u8] = if addr.len() > 5 {
            &addr[0..5]
        } else {
            addr
        };
        proof {
            assert(addr_t@ == addr_trunc(addr@));
        }
        self.write_register_bytes(Register::RX_ADDR_P0, addr_t)?;
        self.write_register_bytes(Register::TX_ADDR, addr_t)?;
        Ok(())
    }

    /// The data pipe on which a payload is waiting, or `None` when the
    /// receive FIFO is empty.
    pub fn data_available_on_pipe(&mut self) -> (r: Result<
        Option<DataPipe>,
        TransceiverError<SPI::Error, CE::Error>,
    >)
        requires
            old(self).inv(),
        ensures
            chip_wf(final(self).chip()),
            final(self).ce_level() == old(self).ce_level(),
            r is Ok ==> final(self).inv()
                && final(self).chip() == old(self).chip()
                && final(self).spec_payload_size() == old(self).spec_payload_size(),
            r matches Ok(p) ==> (match p {
                Some(dp) => old(self).chip().rx_fifo.len() > 0 && dp.spec_pipe() == old(self).chip().rx_fifo[0].pipe,
                None => old(self).chip().rx_fifo.len() == 0,
            }),
            r matches Err(e) ==> e is Spi,
    {
        let st = self.status()?;
        proof {
            lemma_status_byte_fields(old(self).chip());
        }
        match st.data_pipe_available() {
            Ok(p) => Ok(p),
            Err(_) => {
                proof {
                    assert(false);
                }
                Err(TransceiverError::Comm(st.raw()))
            },
        }
    }

    /// Whether any payload is waiting to be read.
    pub fn data_available(&mut self) -> (r: Result<bool, TransceiverError<SPI::Error, CE::Error>>)
        requires
            old(self).inv(),
        ensures
            chip_wf(final(self).chip()),
            final(self).ce_level() == old(self).ce_level(),
            r is Ok ==> final(self).inv()
                && final(self).chip() == old(self).chip()
                && final(self).spec_payload_size() == old(self).spec_payload_size(),
            r matches Ok(b) ==> b == (old(self).chip().rx_fifo.len() > 0),
            r matches Err(e) ==> e is Spi,
    {
        match self.data_available_on_pipe() {
            Ok(p) => Ok(
                match p {
                    Some(_) => true,
                    None => false,
                },
            ),
            Err(e) => Err(e),
        }
    }

    /// Mask the given interrupt conditions.  A masked condition still
    /// latches its status flag, but no longer asserts the interrupt pin; the
    /// mask bits live in the CONFIG register, in the same positions as the
    /// status flags they gate.
    pub fn mask_interrupts(&mut self, irq: Interrupts) -> (r: Result<
        (),
        TransceiverError<SPI::Error, CE::Error>,
    >)
        requires
            old(self).inv(),
        ensures
            chip_wf(final(self).chip()),
            final(self).ce_level() == old(self).ce_level(),
            r is Ok ==> final(self).inv()
                && final(self).spec_payload_size() == old(self).spec_payload_size()
                && final(self).spec_config_cache() == ((old(self).spec_config_cache() & !0b0111_0000) | irq.spec_raw()) && final(self).chip()
                == (ChipState {
                config: (old(self).spec_config_cache() & !0b0111_0000) | irq.spec_raw(),
                ..old(self).chip()
            }),
            r matches Err(e) ==> e is Spi,
    {
        let all = Interrupts::all().raw();
        self.config_reg = (self.config_reg & !all) | irq.raw();
        self.write_register(Register::CONFIG, self.config_reg)
    }

    /// Query which interrupt conditions have fired, and clear them so new
    /// ones can latch.
    pub fn interrupt_src(&mut self) -> (r: Result<
        Interrupts,
        TransceiverError<SPI::Error, CE::Error>,
    >)
        requires
            old(self).inv(),
        ensures
            chip_wf(final(self).chip()),
            final(self).ce_level() == old(self).ce_level(),
            r is Ok ==> final(self).inv()
                && final(self).spec_payload_size() == old(self).spec_payload_size()
                && final(self).chip() == (ChipState {
                flags: 0,
                ..old(self).chip()
            }),
            r matches Ok(irq) ==> irq.spec_raw() == old(self).chip().flags,
            r matches Err(e) ==> e is Spi,
    {
        let status = self.status()?;
        proof {
            lemma_status_byte_fields(old(self).chip());
        }
        self.clear_status_flags()?;
        Ok(Interrupts::from_raw(status.raw()))
    }

    /// Whether a chip answers on the bus: the address width register of a
    /// connected chip always reads back as one of its three legal encodings.
    pub fn is_connected(&mut self) -> (r: Result<bool, TransceiverError<SPI::Error, CE::Error>>)
        requires
            old(self).inv(),
        ensures
            chip_wf(final(self).chip()),
            final(self).ce_level() == old(self).ce_level(),
            r is Ok ==> final(self).inv()
                && final(self).chip() == old(self).chip()
                && final(self).spec_payload_size() == old(self).spec_payload_size(),
            r matches Ok(b) ==> b == (old(self).chip().setup_aw == 1 || old(self).chip().setup_aw
                == 2 || old(self).chip().setup_aw == 3),
            r matches Err(e) ==> e is Spi,
    {
        match self.read_register(Register::SETUP_AW) {
            Ok(aw) => Ok(aw == 0b01 || aw == 0b10 || aw == 0b11),
            Err(e) => Err(e),
        }
    }

    /// Create a driver and initialize the chip with the given configuration.
    ///
    /// The chip is configured step by step: retransmission, radio setup,
    /// payload sizing, address width, status flags, channel, FIFO flushes;
    /// then it is powered up with the configured check scheme and the CONFIG
    /// register is read back — a mismatch is a communication error and
    /// initialization fails outright.  The two hardware settle times of 5 ms
    /// each are waited in full.
    pub fn new<D: Delay>(spi: SPI, ce: CE, delay: &mut D, config: NrfConfig) -> (r: Result<
        Self,
        TransceiverError<SPI::Error, CE::Error>,
    >)
        requires
            chip_wf(spi.chip()),
            config.auto_retry.wf(),
        ensures
            r matches Err(e) ==> (e is Spi || e is Ce),
            r matches Ok(nrf) ==> ({
                &&& nrf.inv()
                &&& !nrf.ce_level()
                &&& nrf.chip().setup_retr == config.auto_retry.spec_register()
                &&& nrf.chip().rf_setup == (config.data_rate.spec_rate()
                    | config.pa_level.spec_level())
                &&& nrf.spec_payload_size() == config.payload_size.spec_truncate()
                &&& nrf.chip().setup_aw == config.addr_width.spec_value()
                &&& nrf.chip().rf_ch == (if config.channel < MAX_CHANNEL {
                    config.channel
                } else {
                    MAX_CHANNEL
                })
                &&& nrf.chip().config == (0b0000_0010 | config.crc_encoding_scheme.spec_scheme())
                &&& nrf.spec_config_cache() == nrf.chip().config
                &&& nrf.chip().flags == 0
                &&& nrf.chip().tx_fifo.len() == 0
                &&& nrf.chip().rx_fifo.len() == 0
                &&& nrf.chip().feature == (if config.payload_size.spec_truncate() is Dynamic {
                    spi.chip().feature | 0b0000_0100
                } else {
                    spi.chip().feature
                })
                &&& nrf.chip().dynpd == (if config.payload_size.spec_truncate() is Dynamic {
                    0b0001_1111u8
                } else {
                    spi.chip().dynpd
                })
                &&& nrf.chip().en_aa == spi.chip().en_aa
                &&& nrf.chip().en_rxaddr == spi.chip().en_rxaddr
                &&& nrf.chip().rx_addr_p0 == spi.chip().rx_addr_p0
                &&& nrf.chip().rx_addr_p1 == spi.chip().rx_addr_p1
                &&& nrf.chip().rx_addr_p2 == spi.chip().rx_addr_p2
                &&& nrf.chip().rx_addr_p3 == spi.chip().rx_addr_p3
                &&& nrf.chip().rx_addr_p4 == spi.chip().rx_addr_p4
                &&& nrf.chip().rx_addr_p5 == spi.chip().rx_addr_p5
                &&& nrf.chip().tx_addr == spi.chip().tx_addr
                &&& nrf.mode() == OperatingMode::Standby
                &&& final(delay).elapsed_us() == old(delay).elapsed_us() + 10000
            }),
    {
        let mut driver = Nrf24l01 {
            spi,
            ce,
            config_reg: 0,
            payload_size: PayloadSize::Static(MAX_PAYLOAD_SIZE),
        };
        driver.set_ce_low()?;
        // The radio must settle before configuration writes stick.
        delay.delay_ms(5);
        driver.write_register(
            Register::SETUP_RETR,
            (config.auto_retry.raw_delay() << 4u8) | config.auto_retry.count(),
        )?;
        driver.write_register(
            Register::RF_SETUP,
            config.data_rate.rate() | config.pa_level.level(),
        )?;
        driver.apply_payload_size(config.payload_size)?;
        driver.write_register(Register::SETUP_AW, config.addr_width.value())?;
        driver.clear_status_flags()?;
        let clipped_channel: u8 = if config.channel < MAX_CHANNEL {
            config.channel
        } else {
            MAX_CHANNEL
        };
        driver.write_register(Register::RF_CH, clipped_channel)?;
        proof {
            lemma_fixed_opcodes_distinct();
        }
        let _ = driver.send_command(Instruction::FRX)?;
        let _ = driver.send_command(Instruction::FTX)?;
        // Power up, with the configured redundancy-check scheme.
        let config_val = 0b0000_0010 | config.crc_encoding_scheme.scheme();
        driver.write_register(Register::CONFIG, config_val)?;
        // Wait for the startup to complete before trusting the readback.
        delay.delay_ms(5);
        let readback = driver.read_register(Register::CONFIG)?;
        driver.config_reg = readback;
        proof {
            lemma_config_bits(config.crc_encoding_scheme.spec_scheme());
        }
        if readback != config_val {
            Err(TransceiverError::Comm(readback))
        } else {
            Ok(driver)
        }
    }

    /// Read the next available payload into the front of `buf`, returning
    /// the number of bytes placed there: the configured size in static mode,
    /// the buffer's length clipped to the maximum payload size in dynamic
    /// mode.  The rest of the buffer is left as it was.
    ///
    /// In static mode an undersized buffer is rejected before anything is
    /// read.  Check [`Nrf24l01::data_available`] first: the payload comes
    /// off the front of the receive FIFO, and what is read from an empty
    /// FIFO carries no defined value.
    pub fn read(&mut self, buf: &mut Vec<u8>) -> (r: Result<
        usize,
        TransceiverError<SPI::Error, CE::Error>,
    >)
        requires
            old(self).inv(),
        ensures
            chip_wf(final(self).chip()),
            final(self).ce_level() == old(self).ce_level(),
            r is Err ==> final(buf)@ == old(buf)@,
            r matches Err(e) ==> (e is Spi || e is BufferTooSmall),
            r matches Err(e) ==> ((e is BufferTooSmall) <==> (match old(self).spec_payload_size() {
                PayloadSize::Static(n) => old(buf)@.len() < n as nat,
                PayloadSize::Dynamic => false,
            })),
            (match old(self).spec_payload_size() {
                PayloadSize::Static(n) => old(buf)@.len() < n as nat,
                PayloadSize::Dynamic => false,
            }) ==> (r matches Err(TransceiverError::BufferTooSmall { required, actual })
                && old(self).spec_payload_size() == PayloadSize::Static(required)
                && actual == old(buf)@.len() as u8
                && final(self).chip() == old(self).chip()
                && final(self).inv()
                && final(buf)@ == old(buf)@),
            r matches Ok(k) ==> ({
                let c0 = old(self).chip();
                let klen = spec_transfer_len(old(self).spec_payload_size(), old(buf)@.len());
                &&& k as nat == klen
                &&& final(self).inv()
                &&& final(self).spec_payload_size() == old(self).spec_payload_size()
                &&& final(self).chip() == chip_after_read(c0, 0b0110_0001)
                &&& final(buf)@.len() == old(buf)@.len()
                &&& (forall|j: int|
                    klen <= j < old(buf)@.len() ==> final(buf)@[j] == old(buf)@[j])
                &&& (c0.rx_fifo.len() > 0 ==> (forall|j: int|
                    0 <= j < klen && j < c0.rx_fifo[0].data.len() ==> final(buf)@[j]
                        == c0.rx_fifo[0].data[j]))
            }),
    {
        let len: usize;
        match self.payload_size {
            PayloadSize::Static(n) => {
                if buf.len() < n as usize {
                    return Err(
                        TransceiverError::BufferTooSmall { required: n, actual: buf.len() as u8 },
                    );
                }
                len = n as usize;
            },
            PayloadSize::Dynamic => {
                len = if buf.len() < MAX_PAYLOAD_SIZE as usize {
                    buf.len()
                } else {
                    MAX_PAYLOAD_SIZE as usize
                };
            },
        }
        let read_back = match self.spi.transfer_read(Instruction::RRX.opcode(), len) {
            Ok(p) => p,
            Err(e) => {
                return Err(TransceiverError::Spi(e));
            },
        };
        let data = read_back.1;
        // Splice the payload into the front of the caller's buffer.
        let mut out: Vec<u8> = Vec::new();
        let mut i: usize = 0;
        while i < len
            invariant
                i <= len,
                len == data@.len(),
                out@.len() == i,
                forall|j: int| 0 <= j < i ==> out@[j] == data@[j],
            decreases len - i,
        {
            out.push(data[i]);
            i += 1;
        }
        while i < buf.len()
            invariant
                len <= i <= buf@.len(),
                len == data@.len(),
                out@.len() == i,
                forall|j: int| 0 <= j < len ==> out@[j] == data@[j],
                forall|j: int| len <= j < i ==> out@[j] == buf@[j],
            decreases buf@.len() - i,
        {
            out.push(buf[i]);
            i += 1;
        }
        *buf = out;
        Ok(len)
    }

    /// Write a payload to the opened writing pipe and start the
    /// transmission: the payload enters the transmit FIFO, the chip-enable
    /// line is pulsed high for 10 µs, and all interrupt flags are cleared.
    ///
    /// In static mode exactly the configured number of bytes is framed: a
    /// longer buffer is cut off and a shorter one is zero-padded, so the FIFO
    /// entry length is deterministic.  In dynamic mode the buffer is sent as
    /// it is, clipped to the maximum payload size.
    ///
    /// The outcome follows the status captured when the payload was written:
    /// if it reports that the maximum number of retransmissions was reached,
    /// the transmit FIFO is flushed and a max-retries error is returned, so
    /// the driver is in a consistent state for the next attempt; otherwise,
    /// and with both ports answering, the call succeeds.
    pub fn write<D: Delay>(&mut self, delay: &mut D, buf: &[u8]) -> (r: Result<
        (),
        TransceiverError<SPI::Error, CE::Error>,
    >)
        requires
            old(self).inv(),
        ensures
            chip_wf(final(self).chip()),
            r matches Err(e) ==> (e is Spi || e is Ce || e is MaxRetries),
            old(self).chip().flags & 0b0001_0000 != 0 ==> !(r is Ok),
            r is Ok ==> ({
                let c0 = old(self).chip();
                let k = spec_transfer_len(old(self).spec_payload_size(), buf@.len());
                &&& c0.flags & 0b0001_0000 == 0
                &&& final(self).inv()
                &&& final(self).spec_payload_size() == old(self).spec_payload_size()
                &&& !final(self).ce_level()
                &&& final(self).chip() == (ChipState {
                    flags: 0,
                    tx_fifo: if c0.tx_fifo.len() < 3 {
                        c0.tx_fifo.push(spec_tx_payload(buf@, k))
                    } else {
                        c0.tx_fifo
                    },
                    ..c0
                })
                &&& final(delay).elapsed_us() == old(delay).elapsed_us() + 10
            }),
            r matches Err(e) ==> (e is MaxRetries ==> ({
                let c0 = old(self).chip();
                &&& c0.flags & 0b0001_0000 != 0
                &&& final(self).inv()
                &&& final(self).spec_payload_size() == old(self).spec_payload_size()
                &&& !final(self).ce_level()
                &&& final(self).chip() == (ChipState { flags: 0, tx_fifo: Seq::empty(), ..c0 })
                &&& final(delay).elapsed_us() == old(delay).elapsed_us() + 10
            })),
    {
        let send_count: usize = match self.payload_size {
            PayloadSize::Static(n) => n as usize,
            PayloadSize::Dynamic => if buf.len() < MAX_PAYLOAD_SIZE as usize {
                buf.len()
            } else {
                MAX_PAYLOAD_SIZE as usize
            },
        };
        // Frame exactly send_count bytes: the buffer's own, zeros past its
        // end.
        let mut payload: Vec<u8> = Vec::new();
        let mut i: usize = 0;
        while i < send_count
            invariant
                i <= send_count,
                payload@.len() == i,
                forall|j: int|
                    0 <= j < i ==> payload@[j] == (if j < buf@.len() {
                        buf@[j]
                    } else {
                        0u8
                    }),
            decreases send_count - i,
        {
            let byte: u8 = if i < buf.len() {
                buf[i]
            } else {
                0
            };
            payload.push(byte);
            i += 1;
        }
        proof {
            assert(payload@ =~= spec_tx_payload(
                buf@,
                spec_transfer_len(old(self).spec_payload_size(), buf@.len()),
            ));
            lemma_status_byte_fields(old(self).chip());
            lemma_fixed_opcodes_distinct();
        }
        let status = self.send_command_bytes(Instruction::WTX, payload.as_slice())?;
        // Pulse the chip-enable line to start the transmission.
        self.set_ce_high()?;
        delay.delay_us(10);
        self.set_ce_low()?;
        // Clear the interrupt flags.
        self.clear_status_flags()?;
        // The status captured at payload-write time decides the outcome.
        if status.reached_max_retries() {
            self.flush_tx()?;
            return Err(TransceiverError::MaxRetries);
        }
        Ok(())
    }

    /// Read the chip's configuration back into an [`NrfConfig`] record.
    pub fn read_config(&mut self) -> (r: Result<
        NrfConfig,
        TransceiverError<SPI::Error, CE::Error>,
    >)
        requires
            old(self).inv(),
        ensures
            chip_wf(final(self).chip()),
            final(self).ce_level() == old(self).ce_level(),
            r is Ok ==> final(self).inv()
                && final(self).chip() == old(self).chip()
                && final(self).spec_payload_size() == old(self).spec_payload_size(),
            r matches Ok(cfg) ==> ({
                let c0 = old(self).chip();
                &&& cfg.payload_size == old(self).spec_payload_size()
                &&& cfg.channel == c0.rf_ch
                &&& cfg.addr_width == AddressWidth::spec_from_register(c0.setup_aw)
                &&& cfg.data_rate == DataRate::spec_from_bits(c0.rf_setup)
                &&& cfg.pa_level == PALevel::spec_from_bits(c0.rf_setup)
                &&& cfg.crc_encoding_scheme == EncodingScheme::spec_from_bits(c0.config)
                &&& cfg.auto_retry.spec_raw_delay() == c0.setup_retr >> 4
                &&& cfg.auto_retry.spec_count() == c0.setup_retr & 0b0000_1111
                &&& !cfg.ack_payloads_enabled
            }),
            r matches Err(e) ==> e is Spi,
    {
        let aw_reg = self.read_register(Register::SETUP_AW)?;
        proof {
            assert(1u8 & 0b11 != 0 && 2u8 & 0b11 != 0 && 3u8 & 0b11 != 0) by (bit_vector);
        }
        let addr_width = AddressWidth::from_register(aw_reg);
        let ps = self.payload_size;
        let ch = self.channel()?;
        let dr = self.data_rate()?;
        let pa = self.power_amp_level()?;
        let crc = self.crc_encoding_scheme()?;
        let ar = self.retries()?;
        Ok(
            NrfConfig {
                payload_size: ps,
                channel: ch,
                addr_width,
                data_rate: dr,
                pa_level: pa,
                crc_encoding_scheme: crc,
                ack_payloads_enabled: false,
                auto_retry: ar,
            },
        )
    }

    /// Give the two hardware handles back, consuming the driver.
    pub fn release(self) -> (r: (SPI, CE))
        ensures
            r.0.chip() == self.chip(),
            r.1.level() == self.ce_level(),
    {
        (self.spi, self.ce)
    }

    /// Resume a driver over an already-configured chip, from the two
    /// hardware handles and the two cached values a driver for it would
    /// hold.  The preconditions state that the chip really is in the
    /// configuration the caches describe.
    pub fn from_parts(spi: SPI, ce: CE, config_reg: u8, payload_size: PayloadSize) -> (r: Self)
        requires
            chip_wf(spi.chip()),
            config_reg == spi.chip().config,
            payload_size.wf(),
            payload_regs_match(spi.chip(), payload_size),
            spi.chip().setup_aw == 1 || spi.chip().setup_aw == 2 || spi.chip().setup_aw == 3,
        ensures
            r.inv(),
            r.chip() == spi.chip(),
            r.ce_level() == ce.level(),
            r.spec_config_cache() == config_reg,
            r.spec_payload_size() == payload_size,
    {
        Nrf24l01 { spi, ce, config_reg, payload_size }
    }
}

} // verus!
