//! Tests for the pure configuration value types.

use nrf24_rs::config::AddressWidth;
use nrf24_rs::config::AutoRetransmission;
use nrf24_rs::config::DataPipe;
use nrf24_rs::config::DataRate;
use nrf24_rs::config::EncodingScheme;
use nrf24_rs::config::NrfConfig;
use nrf24_rs::config::PALevel;
use nrf24_rs::config::PayloadSize;
use nrf24_rs::MAX_PAYLOAD_SIZE;

#[test]
fn auto_retransmission_encodes_and_decodes() {
    for (d, c) in [(0u8, 0u8), (5, 15), (15, 15), (7, 3), (12, 1)] {
        let ar = AutoRetransmission::new(d, c);
        assert_eq!(ar.raw_delay(), d);
        assert_eq!(ar.count(), c);
        let reg = (d << 4) | c;
        let decoded = AutoRetransmission::from_register(reg);
        assert_eq!(decoded.raw_delay(), d);
        assert_eq!(decoded.count(), c);
    }
}

#[test]
fn auto_retransmission_clips_out_of_range_values() {
    let ar = AutoRetransmission::new(100, 200);
    assert_eq!(ar.raw_delay(), 15);
    assert_eq!(ar.count(), 15);
}

#[test]
fn delay_follows_the_formula() {
    assert_eq!(AutoRetransmission::new(5, 15).delay(), 1586);
    assert_eq!(AutoRetransmission::new(0, 15).delay(), 336);
    assert_eq!(AutoRetransmission::new(15, 0).delay(), 4086);
}

#[test]
fn payload_size_zero_selects_dynamic_mode() {
    assert_eq!(PayloadSize::from_size(0), PayloadSize::Dynamic);
}

#[test]
fn payload_size_in_range_is_static_and_exact() {
    assert_eq!(PayloadSize::from_size(1), PayloadSize::Static(1));
    assert_eq!(PayloadSize::from_size(4), PayloadSize::Static(4));
    assert_eq!(PayloadSize::from_size(32), PayloadSize::Static(32));
}

#[test]
fn payload_size_above_maximum_clamps() {
    assert_eq!(PayloadSize::from_size(33), PayloadSize::Static(MAX_PAYLOAD_SIZE));
    assert_eq!(PayloadSize::from_size(255), PayloadSize::Static(MAX_PAYLOAD_SIZE));
}

#[test]
fn address_width_clamps_byte_counts() {
    assert_eq!(AddressWidth::from_bytes(0), AddressWidth::R3Bytes);
    assert_eq!(AddressWidth::from_bytes(1), AddressWidth::R3Bytes);
    assert_eq!(AddressWidth::from_bytes(3), AddressWidth::R3Bytes);
    assert_eq!(AddressWidth::from_bytes(4), AddressWidth::R4Bytes);
    assert_eq!(AddressWidth::from_bytes(5), AddressWidth::R5Bytes);
    assert_eq!(AddressWidth::from_bytes(200), AddressWidth::R5Bytes);
}

#[test]
fn address_width_roundtrips_through_register_encoding() {
    for w in [AddressWidth::R3Bytes, AddressWidth::R4Bytes, AddressWidth::R5Bytes] {
        assert_eq!(AddressWidth::from_register(w.value()), w);
    }
    assert_eq!(AddressWidth::R3Bytes.value(), 0b01);
    assert_eq!(AddressWidth::R4Bytes.value(), 0b10);
    assert_eq!(AddressWidth::R5Bytes.value(), 0b11);
}

#[test]
fn pa_level_roundtrips_through_its_bits() {
    for l in [PALevel::Min, PALevel::Low, PALevel::High, PALevel::Max] {
        assert_eq!(PALevel::from_bits(l.level()), l);
        // Bits outside the level mask are ignored.
        assert_eq!(PALevel::from_bits(l.level() | 0b1111_1001), l);
    }
}

#[test]
fn data_rate_roundtrips_through_its_bit() {
    for r in [DataRate::R1Mbps, DataRate::R2Mbps] {
        assert_eq!(DataRate::from_bits(r.rate()), r);
        assert_eq!(DataRate::from_bits(r.rate() | 0b1111_0111), r);
    }
}

#[test]
fn encoding_scheme_roundtrips_through_its_bits() {
    for s in [
        EncodingScheme::NoRedundancyCheck,
        EncodingScheme::R1Byte,
        EncodingScheme::R2Bytes,
    ] {
        assert_eq!(EncodingScheme::from_bits(s.scheme()), s);
        assert_eq!(EncodingScheme::from_bits(s.scheme() | 0b1111_0011), s);
    }
}

#[test]
fn data_pipe_ordinals_roundtrip() {
    for (n, p) in [
        (0u8, DataPipe::DP0),
        (1, DataPipe::DP1),
        (2, DataPipe::DP2),
        (3, DataPipe::DP3),
        (4, DataPipe::DP4),
        (5, DataPipe::DP5),
    ] {
        assert_eq!(p.pipe(), n);
        assert_eq!(DataPipe::from_number(n), p);
    }
    // Ordinals above 5 name pipe 0.
    assert_eq!(DataPipe::from_number(6), DataPipe::DP0);
    assert_eq!(DataPipe::from_number(250), DataPipe::DP0);
}

#[test]
fn config_defaults_match_the_documentation() {
    let cfg = NrfConfig::default();
    assert_eq!(cfg.channel, 76);
    assert_eq!(cfg.payload_size, PayloadSize::Static(MAX_PAYLOAD_SIZE));
    assert_eq!(cfg.addr_width, AddressWidth::R5Bytes);
    assert_eq!(cfg.data_rate, DataRate::R1Mbps);
    assert_eq!(cfg.pa_level, PALevel::Min);
    assert_eq!(cfg.crc_encoding_scheme, EncodingScheme::R2Bytes);
    assert!(!cfg.ack_payloads_enabled);
    assert_eq!(cfg.auto_retry.raw_delay(), 5);
    assert_eq!(cfg.auto_retry.count(), 15);
}

#[test]
fn config_builder_clips_the_channel() {
    assert_eq!(NrfConfig::default().channel(8).channel, 8);
    assert_eq!(NrfConfig::default().channel(125).channel, 125);
    assert_eq!(NrfConfig::default().channel(200).channel, 125);
}

#[test]
fn config_builder_sets_every_field() {
    let cfg = NrfConfig::default()
        .payload_size(PayloadSize::Dynamic)
        .channel(7)
        .addr_width(AddressWidth::R3Bytes)
        .data_rate(DataRate::R2Mbps)
        .pa_level(PALevel::Max)
        .crc_encoding_scheme(EncodingScheme::NoRedundancyCheck)
        .ack_payloads_enabled(true)
        .auto_retry(AutoRetransmission::new(2, 4));
    assert_eq!(cfg.payload_size, PayloadSize::Dynamic);
    assert_eq!(cfg.channel, 7);
    assert_eq!(cfg.addr_width, AddressWidth::R3Bytes);
    assert_eq!(cfg.data_rate, DataRate::R2Mbps);
    assert_eq!(cfg.pa_level, PALevel::Max);
    assert_eq!(cfg.crc_encoding_scheme, EncodingScheme::NoRedundancyCheck);
    assert!(cfg.ack_payloads_enabled);
    assert_eq!(cfg.auto_retry.raw_delay(), 2);
    assert_eq!(cfg.auto_retry.count(), 4);
}
