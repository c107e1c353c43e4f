//! Configuration value types for the transceiver.
//!
//! [`NrfConfig`] is an explicit configuration record: every field is clamped
//! to its valid range when it is set, so the record handed to the driver's
//! initialization routine is always valid.
//!
//! Default values:
//!
//! * `payload_size`:           static payload size of 32 bytes.
//! * `channel`:                channel 76.
//! * `addr_width`:             address width of 5 bytes.
//! * `data_rate`:              1 Mbps.
//! * `pa_level`:               minimum amplification level.
//! * `crc_encoding_scheme`:    encoding scheme with 2 bytes.
//! * `ack_payloads_enabled`:   false.
//! * `auto_retry`:             delay code 5 (1586 µs), 15 retries.

use vstd::prelude::*;

verus! {

use crate::registers::Register;
use crate::MAX_PAYLOAD_SIZE;

/// Highest radio-frequency channel the chip accepts.
pub const MAX_CHANNEL: u8 = 125;

/// Configuration record for the chip, built once through chaining setters and
/// passed by value into the driver's initialization routine.
#[derive(Copy, Clone, PartialEq, Eq, Structural, Debug)]
pub struct NrfConfig {
    /// Payload sizing mode: dynamic, or static with a fixed size.
    pub payload_size: PayloadSize,
    /// Radio-frequency channel, 0 to 125.
    pub channel: u8,
    /// Width in bytes of the pipe addresses.
    pub addr_width: AddressWidth,
    /// Air data rate.
    pub data_rate: DataRate,
    /// Output power level of the amplifier.
    pub pa_level: PALevel,
    /// Cyclic-redundancy-check scheme appended to every packet.
    pub crc_encoding_scheme: EncodingScheme,
    /// Whether acknowledgement payloads are enabled.
    pub ack_payloads_enabled: bool,
    /// Automatic retransmission delay and count.
    pub auto_retry: AutoRetransmission,
}

impl NrfConfig {
    /// Set the payload size mode.
    pub fn payload_size(self, payload_size: PayloadSize) -> (r: Self)
        ensures
            r == (NrfConfig { payload_size, ..self }),
    {
        NrfConfig { payload_size, ..self }
    }

    /// Set the radio-frequency channel; values above 125 are clipped to 125.
    pub fn channel(self, channel: u8) -> (r: Self)
        ensures
            r == (NrfConfig {
                channel: if channel < MAX_CHANNEL { channel } else { MAX_CHANNEL },
                ..self
            }),
            r.channel <= MAX_CHANNEL,
    {
        let clipped: u8 = if channel < MAX_CHANNEL {
            channel
        } else {
            MAX_CHANNEL
        };
        NrfConfig { channel: clipped, ..self }
    }

    /// Set the address width.
    pub fn addr_width(self, addr_width: AddressWidth) -> (r: Self)
        ensures
            r == (NrfConfig { addr_width, ..self }),
    {
        NrfConfig { addr_width, ..self }
    }

    /// Set the data rate.
    pub fn data_rate(self, data_rate: DataRate) -> (r: Self)
        ensures
            r == (NrfConfig { data_rate, ..self }),
    {
        NrfConfig { data_rate, ..self }
    }

    /// Set the power amplification level.
    pub fn pa_level(self, pa_level: PALevel) -> (r: Self)
        ensures
            r == (NrfConfig { pa_level, ..self }),
    {
        NrfConfig { pa_level, ..self }
    }

    /// Set the cyclic-redundancy-check encoding scheme.
    pub fn crc_encoding_scheme(self, crc_encoding_scheme: EncodingScheme) -> (r: Self)
        ensures
            r == (NrfConfig { crc_encoding_scheme, ..self }),
    {
        NrfConfig { crc_encoding_scheme, ..self }
    }

    /// Configure whether acknowledgement payloads are enabled.
    pub fn ack_payloads_enabled(self, ack_payloads_enabled: bool) -> (r: Self)
        ensures
            r == (NrfConfig { ack_payloads_enabled, ..self }),
    {
        NrfConfig { ack_payloads_enabled, ..self }
    }

    /// Set the automatic retransmission configuration.
    pub fn auto_retry(self, auto_retry: AutoRetransmission) -> (r: Self)
        ensures
            r == (NrfConfig { auto_retry, ..self }),
    {
        NrfConfig { auto_retry, ..self }
    }
}

impl Default for NrfConfig {
    /// The default configuration described in the module documentation.
    fn default() -> (r: Self)
        ensures
            r.payload_size == PayloadSize::Static(MAX_PAYLOAD_SIZE),
            r.channel == 76,
            r.addr_width == AddressWidth::R5Bytes,
            r.data_rate == DataRate::R1Mbps,
            r.pa_level == PALevel::Min,
            r.crc_encoding_scheme == EncodingScheme::R2Bytes,
            !r.ack_payloads_enabled,
            r.auto_retry.spec_raw_delay() == 5 && r.auto_retry.spec_count() == 15,
    {
        NrfConfig {
            channel: 76,
            payload_size: PayloadSize::Static(MAX_PAYLOAD_SIZE),
            addr_width: AddressWidth::R5Bytes,
            crc_encoding_scheme: EncodingScheme::R2Bytes,
            pa_level: PALevel::Min,
            data_rate: DataRate::R1Mbps,
            ack_payloads_enabled: false,
            auto_retry: AutoRetransmission::new(5, 15),
        }
    }
}

/// Radio-frequency power levels.  A higher level gives more range and draws
/// more current.
#[derive(Copy, Clone, PartialEq, Eq, Structural, Debug)]
pub enum PALevel {
    /// -18 dBm, 7 mA current consumption.
    Min,
    /// -12 dBm, 7.5 mA current consumption.
    Low,
    /// -6 dBm, 9.0 mA current consumption.
    High,
    /// 0 dBm, 11.3 mA current consumption.
    Max,
}

impl PALevel {
    /// Bits of the RF_SETUP register that hold the power level.
    pub open spec fn spec_bitmask() -> u8 {
        0b0000_0110
    }

    /// The level's bit pattern inside [`PALevel::spec_bitmask`].
    pub open spec fn spec_level(self) -> u8 {
        match self {
            PALevel::Min => 0b0000_0000,
            PALevel::Low => 0b0000_0010,
            PALevel::High => 0b0000_0100,
            PALevel::Max => 0b0000_0110,
        }
    }

    /// Decode a power level from the bits of an RF_SETUP register value.
    pub open spec fn spec_from_bits(t: u8) -> PALevel {
        if t & 0b0000_0110 == 0b0000_0000 {
            PALevel::Min
        } else if t & 0b0000_0110 == 0b0000_0010 {
            PALevel::Low
        } else if t & 0b0000_0110 == 0b0000_0100 {
            PALevel::High
        } else {
            PALevel::Max
        }
    }

    /// Bits of the RF_SETUP register that hold the power level.
    pub fn bitmask() -> (r: u8)
        ensures
            r == Self::spec_bitmask(),
    {
        0b0000_0110
    }

    /// The level's bit pattern inside the RF_SETUP register.
    pub fn level(&self) -> (r: u8)
        ensures
            r == self.spec_level(),
    {
        match self {
            PALevel::Min => 0b0000_0000,
            PALevel::Low => 0b0000_0010,
            PALevel::High => 0b0000_0100,
            PALevel::Max => 0b0000_0110,
        }
    }

    /// Decode a power level from an RF_SETUP register value; bits outside the
    /// level mask are ignored.
    pub fn from_bits(t: u8) -> (r: Self)
        ensures
            r == Self::spec_from_bits(t),
    {
        let masked: u8 = t & 0b0000_0110;
        if masked == 0b0000_0000 {
            PALevel::Min
        } else if masked == 0b0000_0010 {
            PALevel::Low
        } else if masked == 0b0000_0100 {
            PALevel::High
        } else {
            PALevel::Max
        }
    }
}

impl Default for PALevel {
    fn default() -> (r: Self)
        ensures
            r == PALevel::Min,
    {
        PALevel::Min
    }
}

/// Law: encoding a power level into its RF_SETUP bits and decoding those bits
/// gives back the same level, even in the presence of unrelated bits.
pub proof fn lemma_pa_level_roundtrip(l: PALevel, rest: u8)
    requires
        rest & 0b0000_0110 == 0,
    ensures
        PALevel::spec_from_bits(l.spec_level() | rest) == l,
{
    let b = l.spec_level();
    assert((b | rest) & 0b0000_0110 == b) by (bit_vector)
        requires
            rest & 0b0000_0110 == 0,
            b == 0b0000_0000 || b == 0b0000_0010 || b == 0b0000_0100 || b == 0b0000_0110,
    ;
}

/// The payload sizing mode.
#[derive(Copy, Clone, PartialEq, Eq, Structural, Debug)]
pub enum PayloadSize {
    /// The packet length is carried in each transmission.
    Dynamic,
    /// Every packet has this fixed size, 1 to 32 bytes.
    Static(u8),
}

impl PayloadSize {
    /// Interpret a requested size in bytes: zero asks for dynamic mode, any
    /// value in 1..=32 for static mode of exactly that size, and larger
    /// values clamp to the maximum payload size.
    pub open spec fn spec_from_size(size: u8) -> PayloadSize {
        if size == 0 {
            PayloadSize::Dynamic
        } else if size <= MAX_PAYLOAD_SIZE {
            PayloadSize::Static(size)
        } else {
            PayloadSize::Static(MAX_PAYLOAD_SIZE)
        }
    }

    /// Normalize a payload size: a static size of zero is a request for
    /// dynamic mode, and static sizes above the maximum clamp to it.
    pub open spec fn spec_truncate(self) -> PayloadSize {
        match self {
            PayloadSize::Dynamic => PayloadSize::Dynamic,
            PayloadSize::Static(n) => Self::spec_from_size(n),
        }
    }

    /// Whether the mode is a valid target configuration: dynamic, or static
    /// with a size in 1..=32.
    pub open spec fn wf(self) -> bool {
        match self {
            PayloadSize::Dynamic => true,
            PayloadSize::Static(n) => 1 <= n <= MAX_PAYLOAD_SIZE,
        }
    }

    /// Interpret a requested size in bytes; see [`PayloadSize::spec_from_size`].
    pub fn from_size(size: u8) -> (r: Self)
        ensures
            r == Self::spec_from_size(size),
            r.wf(),
    {
        if size == 0 {
            PayloadSize::Dynamic
        } else if size <= MAX_PAYLOAD_SIZE {
            PayloadSize::Static(size)
        } else {
            PayloadSize::Static(MAX_PAYLOAD_SIZE)
        }
    }

    /// Normalize the mode; see [`PayloadSize::spec_truncate`].
    pub(crate) fn truncate(self) -> (r: Self)
        ensures
            r == self.spec_truncate(),
            r.wf(),
    {
        match self {
            PayloadSize::Dynamic => PayloadSize::Dynamic,
            PayloadSize::Static(n) => Self::from_size(n),
        }
    }
}

impl Default for PayloadSize {
    fn default() -> (r: Self)
        ensures
            r == PayloadSize::Static(MAX_PAYLOAD_SIZE),
    {
        PayloadSize::Static(MAX_PAYLOAD_SIZE)
    }
}

/// Air data rate.
#[derive(Copy, Clone, PartialEq, Eq, Structural, Debug)]
pub enum DataRate {
    /// 1 Mbps.
    R1Mbps,
    /// 2 Mbps.
    R2Mbps,
}

impl DataRate {
    /// Bit of the RF_SETUP register that holds the data rate.
    pub open spec fn spec_bitmask() -> u8 {
        0b0000_1000
    }

    /// The rate's bit pattern inside [`DataRate::spec_bitmask`].
    pub open spec fn spec_rate(self) -> u8 {
        match self {
            DataRate::R1Mbps => 0b0000_0000,
            DataRate::R2Mbps => 0b0000_1000,
        }
    }

    /// Decode a data rate from the bits of an RF_SETUP register value.
    pub open spec fn spec_from_bits(t: u8) -> DataRate {
        if t & 0b0000_1000 == 0 {
            DataRate::R1Mbps
        } else {
            DataRate::R2Mbps
        }
    }

    /// Bit of the RF_SETUP register that holds the data rate.
    pub fn bitmask() -> (r: u8)
        ensures
            r == Self::spec_bitmask(),
    {
        0b0000_1000
    }

    /// The rate's bit pattern inside the RF_SETUP register.
    pub fn rate(&self) -> (r: u8)
        ensures
            r == self.spec_rate(),
    {
        match self {
            DataRate::R1Mbps => 0b0000_0000,
            DataRate::R2Mbps => 0b0000_1000,
        }
    }

    /// Decode a data rate from an RF_SETUP register value; bits outside the
    /// rate mask are ignored.
    pub fn from_bits(t: u8) -> (r: Self)
        ensures
            r == Self::spec_from_bits(t),
    {
        if t & 0b0000_1000 == 0 {
            DataRate::R1Mbps
        } else {
            DataRate::R2Mbps
        }
    }
}

impl Default for DataRate {
    fn default() -> (r: Self)
        ensures
            r == DataRate::R1Mbps,
    {
        DataRate::R1Mbps
    }
}

/// Law: encoding a data rate into its RF_SETUP bit and decoding it gives back
/// the same rate, even in the presence of unrelated bits.
pub proof fn lemma_data_rate_roundtrip(d: DataRate, rest: u8)
    requires
        rest & 0b0000_1000 == 0,
    ensures
        DataRate::spec_from_bits(d.spec_rate() | rest) == d,
{
    let b = d.spec_rate();
    assert((b | rest) & 0b0000_1000 == b) by (bit_vector)
        requires
            rest & 0b0000_1000 == 0,
            b == 0b0000_0000 || b == 0b0000_1000,
    ;
}

/// Cyclic-redundancy-check encoding scheme.
#[derive(Copy, Clone, PartialEq, Eq, Structural, Debug)]
pub enum EncodingScheme {
    /// No redundancy check.
    NoRedundancyCheck,
    /// 1 check byte per packet.
    R1Byte,
    /// 2 check bytes per packet.
    R2Bytes,
}

impl EncodingScheme {
    /// Bits of the CONFIG register that hold the scheme: the check-enable bit
    /// and the check-length bit.
    pub open spec fn spec_bitmask() -> u8 {
        0b0000_1100
    }

    /// The scheme's bit pattern inside [`EncodingScheme::spec_bitmask`].
    pub open spec fn spec_scheme(self) -> u8 {
        match self {
            EncodingScheme::NoRedundancyCheck => 0b0000_0000,
            EncodingScheme::R1Byte => 0b0000_1000,
            EncodingScheme::R2Bytes => 0b0000_1100,
        }
    }

    /// Decode a scheme from the bits of a CONFIG register value.
    pub open spec fn spec_from_bits(t: u8) -> EncodingScheme {
        if t & 0b0000_1100 == 0b0000_0000 {
            EncodingScheme::NoRedundancyCheck
        } else if t & 0b0000_1100 == 0b0000_1000 {
            EncodingScheme::R1Byte
        } else {
            EncodingScheme::R2Bytes
        }
    }

    /// Bits of the CONFIG register that hold the scheme.
    pub fn bitmask() -> (r: u8)
        ensures
            r == Self::spec_bitmask(),
    {
        0b0000_1100
    }

    /// The scheme's bit pattern inside the CONFIG register.
    pub fn scheme(&self) -> (r: u8)
        ensures
            r == self.spec_scheme(),
    {
        match self {
            EncodingScheme::NoRedundancyCheck => 0b0000_0000,
            EncodingScheme::R1Byte => 0b0000_1000,
            EncodingScheme::R2Bytes => 0b0000_1100,
        }
    }

    /// Decode a scheme from a CONFIG register value; bits outside the scheme
    /// mask are ignored.  The pattern with the length bit set but the enable
    /// bit clear does not name a scheme and reads as 2 check bytes.
    pub fn from_bits(t: u8) -> (r: Self)
        ensures
            r == Self::spec_from_bits(t),
    {
        let masked: u8 = t & 0b0000_1100;
        if masked == 0b0000_0000 {
            EncodingScheme::NoRedundancyCheck
        } else if masked == 0b0000_1000 {
            EncodingScheme::R1Byte
        } else {
            EncodingScheme::R2Bytes
        }
    }
}

impl Default for EncodingScheme {
    fn default() -> (r: Self)
        ensures
            r == EncodingScheme::R2Bytes,
    {
        EncodingScheme::R2Bytes
    }
}

/// Law: encoding a scheme into its CONFIG bits and decoding those bits gives
/// back the same scheme, even in the presence of unrelated bits.
pub proof fn lemma_encoding_scheme_roundtrip(s: EncodingScheme, rest: u8)
    requires
        rest & 0b0000_1100 == 0,
    ensures
        EncodingScheme::spec_from_bits(s.spec_scheme() | rest) == s,
{
    let b = s.spec_scheme();
    assert((b | rest) & 0b0000_1100 == b) by (bit_vector)
        requires
            rest & 0b0000_1100 == 0,
            b == 0b0000_0000 || b == 0b0000_1000 || b == 0b0000_1100,
    ;
}

/// Address width for the reading and writing pipes.
#[derive(Copy, Clone, PartialEq, Eq, Structural, Debug)]
pub enum AddressWidth {
    /// 3 bytes.
    R3Bytes,
    /// 4 bytes.
    R4Bytes,
    /// 5 bytes.
    R5Bytes,
}

impl AddressWidth {
    /// The width's encoding in the SETUP_AW register: 0b01, 0b10 or 0b11.
    pub open spec fn spec_value(self) -> u8 {
        match self {
            AddressWidth::R3Bytes => 1,
            AddressWidth::R4Bytes => 2,
            AddressWidth::R5Bytes => 3,
        }
    }

    /// The width in bytes: 3, 4 or 5.
    pub open spec fn spec_bytes(self) -> u8 {
        match self {
            AddressWidth::R3Bytes => 3,
            AddressWidth::R4Bytes => 4,
            AddressWidth::R5Bytes => 5,
        }
    }

    /// Clamp a width given in bytes: values up to 3 give 3 bytes, 4 gives 4
    /// bytes, and anything larger gives 5 bytes.
    pub open spec fn spec_from_bytes(t: u8) -> AddressWidth {
        if t <= 3 {
            AddressWidth::R3Bytes
        } else if t == 4 {
            AddressWidth::R4Bytes
        } else {
            AddressWidth::R5Bytes
        }
    }

    /// Decode a width from a SETUP_AW register value.  The register encoding
    /// 0b00 is illegal on the chip, so only the other three patterns decode.
    pub open spec fn spec_from_register(t: u8) -> AddressWidth {
        if t & 0b11 == 0b01 {
            AddressWidth::R3Bytes
        } else if t & 0b11 == 0b10 {
            AddressWidth::R4Bytes
        } else {
            AddressWidth::R5Bytes
        }
    }

    /// The width's encoding in the SETUP_AW register.
    pub fn value(&self) -> (r: u8)
        ensures
            r == self.spec_value(),
    {
        match self {
            AddressWidth::R3Bytes => 1,
            AddressWidth::R4Bytes => 2,
            AddressWidth::R5Bytes => 3,
        }
    }

    /// Decode a width from a SETUP_AW register value.  The register encoding
    /// 0b00 is illegal on the chip and is excluded by the precondition.
    pub fn from_register(t: u8) -> (r: Self)
        requires
            t & 0b11 != 0,
        ensures
            r == Self::spec_from_register(t),
    {
        let masked: u8 = t & 0b11;
        if masked == 0b01 {
            AddressWidth::R3Bytes
        } else if masked == 0b10 {
            AddressWidth::R4Bytes
        } else {
            AddressWidth::R5Bytes
        }
    }

    /// Clamp a width given in bytes; see [`AddressWidth::spec_from_bytes`].
    pub fn from_bytes(t: u8) -> (r: Self)
        ensures
            r == Self::spec_from_bytes(t),
    {
        if t <= 3 {
            AddressWidth::R3Bytes
        } else if t == 4 {
            AddressWidth::R4Bytes
        } else {
            AddressWidth::R5Bytes
        }
    }
}

impl Default for AddressWidth {
    fn default() -> (r: Self)
        ensures
            r == AddressWidth::R5Bytes,
    {
        AddressWidth::R5Bytes
    }
}

/// Law: every width round-trips through its SETUP_AW register encoding, and
/// the clamped byte widths map back onto themselves.
pub proof fn lemma_address_width_roundtrip(w: AddressWidth)
    ensures
        AddressWidth::spec_from_register(w.spec_value()) == w,
        AddressWidth::spec_from_bytes(w.spec_bytes()) == w,
{
    assert(1u8 & 0b11 == 0b01 && 2u8 & 0b11 == 0b10 && 3u8 & 0b11 == 0b11) by (bit_vector);
}

/// Configuration of automatic retransmission: a delay code and a
/// retransmission count, each a nibble.
///
/// The delay before a retransmit is initiated is
/// `((delay + 1) * 250) + 86` µs.
#[derive(Copy, Clone, PartialEq, Eq, Structural, Debug)]
pub struct AutoRetransmission {
    delay: u8,
    count: u8,
}

impl AutoRetransmission {
    /// The raw delay code, always a value in 0..=15.
    pub closed spec fn spec_raw_delay(&self) -> u8 {
        self.delay
    }

    /// The retransmission count, always a value in 0..=15.
    pub closed spec fn spec_count(&self) -> u8 {
        self.count
    }

    /// Both nibbles are in range.  Every constructor establishes this.
    pub open spec fn wf(&self) -> bool {
        self.spec_raw_delay() <= 15 && self.spec_count() <= 15
    }

    /// The value of the SETUP_RETR register that encodes this configuration:
    /// delay code in the high nibble, count in the low nibble.
    pub open spec fn spec_register(&self) -> u8 {
        (self.spec_raw_delay() << 4) | self.spec_count()
    }

    /// Build a configuration from a delay code and a count; values above 15
    /// are clipped to 15.
    pub fn new(delay: u8, count: u8) -> (r: Self)
        ensures
            r.spec_raw_delay() == if delay < 15 { delay } else { 15u8 },
            r.spec_count() == if count < 15 { count } else { 15u8 },
            r.wf(),
    {
        AutoRetransmission {
            delay: if delay < 15 { delay } else { 15 },
            count: if count < 15 { count } else { 15 },
        }
    }

    /// Decode a configuration from a SETUP_RETR register value.
    pub fn from_register(reg: u8) -> (r: Self)
        ensures
            r.spec_raw_delay() == reg >> 4,
            r.spec_count() == reg & 0b0000_1111,
            r.wf(),
    {
        proof {
            lemma_nibbles_in_range(reg);
        }
        AutoRetransmission { delay: reg >> 4, count: reg & 0b0000_1111 }
    }

    /// The raw delay code, a value between 0 and 15.
    pub fn raw_delay(&self) -> (r: u8)
        ensures
            r == self.spec_raw_delay(),
    {
        self.delay
    }

    /// The delay between automatic retransmissions in µs:
    /// `((delay + 1) * 250) + 86`.
    pub fn delay(&self) -> (r: u32)
        ensures
            r == (self.spec_raw_delay() + 1) * 250 + 86,
    {
        (self.delay as u32 + 1) * 250 + 86
    }

    /// The number of times a failed transmission is retried, between 0 and 15.
    pub fn count(&self) -> (r: u8)
        ensures
            r == self.spec_count(),
    {
        self.count
    }
}

impl Default for AutoRetransmission {
    /// Delay code 5 (1586 µs between attempts), 15 retries.
    fn default() -> (r: Self)
        ensures
            r.spec_raw_delay() == 5,
            r.spec_count() == 15,
            r.wf(),
    {
        AutoRetransmission { delay: 5, count: 15 }
    }
}

/// Both nibbles of a byte are values in 0..=15.
proof fn lemma_nibbles_in_range(reg: u8)
    ensures
        reg >> 4 <= 15,
        reg & 0b0000_1111 <= 15,
{
    assert(reg >> 4 <= 15 && reg & 0b0000_1111 <= 15) by (bit_vector);
}

/// Law: for any delay and count in 0..=15, the encoded SETUP_RETR byte is
/// `(delay << 4) | count`, and decoding that byte gives back the same pair.
pub proof fn lemma_auto_retransmission_roundtrip(ar: AutoRetransmission)
    requires
        ar.wf(),
    ensures
        ar.spec_register() >> 4 == ar.spec_raw_delay(),
        ar.spec_register() & 0b0000_1111 == ar.spec_count(),
{
    let d = ar.spec_raw_delay();
    let c = ar.spec_count();
    assert(((d << 4) | c) >> 4 == d && ((d << 4) | c) & 0b0000_1111 == c) by (bit_vector)
        requires
            d <= 15,
            c <= 15,
    ;
}

/// Representation of the different data pipes through which data can be
/// received.
///
/// A chip in the primary-receiver role listens on up to six pipes that share
/// one frequency channel.  Pipes 0 and 1 each hold a full configurable
/// address; pipes 2 to 5 share the upper bytes of pipe 1's address and differ
/// only in their least-significant byte.
///
/// Pipe 0 is distinguished: in the transmitting role its receive address must
/// mirror the transmit address, because acknowledgements arrive on it.
#[derive(Copy, Clone, PartialEq, Eq, Structural, Debug)]
pub enum DataPipe {
    /// Data pipe 0, used for acknowledgements in the transmitting role.
    DP0,
    /// Data pipe 1.
    DP1,
    /// Data pipe 2.
    DP2,
    /// Data pipe 3.
    DP3,
    /// Data pipe 4.
    DP4,
    /// Data pipe 5.
    DP5,
}

impl DataPipe {
    /// The pipe's ordinal, 0 to 5.
    pub open spec fn spec_pipe(self) -> u8 {
        match self {
            DataPipe::DP0 => 0,
            DataPipe::DP1 => 1,
            DataPipe::DP2 => 2,
            DataPipe::DP3 => 3,
            DataPipe::DP4 => 4,
            DataPipe::DP5 => 5,
        }
    }

    /// The pipe named by an ordinal; numbers above 5 name pipe 0.
    pub open spec fn spec_from_number(t: u8) -> DataPipe {
        if t == 1 {
            DataPipe::DP1
        } else if t == 2 {
            DataPipe::DP2
        } else if t == 3 {
            DataPipe::DP3
        } else if t == 4 {
            DataPipe::DP4
        } else if t == 5 {
            DataPipe::DP5
        } else {
            DataPipe::DP0
        }
    }

    /// The receive-address register belonging to this pipe.
    pub open spec fn spec_rx_address_register(self) -> Register {
        match self {
            DataPipe::DP0 => Register::RX_ADDR_P0,
            DataPipe::DP1 => Register::RX_ADDR_P1,
            DataPipe::DP2 => Register::RX_ADDR_P2,
            DataPipe::DP3 => Register::RX_ADDR_P3,
            DataPipe::DP4 => Register::RX_ADDR_P4,
            DataPipe::DP5 => Register::RX_ADDR_P5,
        }
    }

    /// The pipe's ordinal, 0 to 5.
    pub fn pipe(&self) -> (r: u8)
        ensures
            r == self.spec_pipe(),
            r <= 5,
    {
        match self {
            DataPipe::DP0 => 0,
            DataPipe::DP1 => 1,
            DataPipe::DP2 => 2,
            DataPipe::DP3 => 3,
            DataPipe::DP4 => 4,
            DataPipe::DP5 => 5,
        }
    }

    /// The pipe named by an ordinal; numbers above 5 name pipe 0.
    pub fn from_number(t: u8) -> (r: Self)
        ensures
            r == Self::spec_from_number(t),
    {
        if t == 1 {
            DataPipe::DP1
        } else if t == 2 {
            DataPipe::DP2
        } else if t == 3 {
            DataPipe::DP3
        } else if t == 4 {
            DataPipe::DP4
        } else if t == 5 {
            DataPipe::DP5
        } else {
            DataPipe::DP0
        }
    }

    /// The receive-address register belonging to this pipe.
    pub fn rx_address_register(&self) -> (r: Register)
        ensures
            r == self.spec_rx_address_register(),
    {
        match self {
            DataPipe::DP0 => Register::RX_ADDR_P0,
            DataPipe::DP1 => Register::RX_ADDR_P1,
            DataPipe::DP2 => Register::RX_ADDR_P2,
            DataPipe::DP3 => Register::RX_ADDR_P3,
            DataPipe::DP4 => Register::RX_ADDR_P4,
            DataPipe::DP5 => Register::RX_ADDR_P5,
        }
    }
}

impl Default for DataPipe {
    fn default() -> (r: Self)
        ensures
            r == DataPipe::DP0,
    {
        DataPipe::DP0
    }
}

/// Law: every pipe's ordinal maps back onto the pipe itself.
pub proof fn lemma_data_pipe_roundtrip(p: DataPipe)
    ensures
        DataPipe::spec_from_number(p.spec_pipe()) == p,
{
}

} // verus!
