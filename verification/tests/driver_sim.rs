//! Tests for the driver, run against the simulated hardware ports.

use nrf24_rs::config::AutoRetransmission;
use nrf24_rs::config::DataPipe;
use nrf24_rs::config::DataRate;
use nrf24_rs::config::EncodingScheme;
use nrf24_rs::config::NrfConfig;
use nrf24_rs::config::PALevel;
use nrf24_rs::config::PayloadSize;
use nrf24_rs::error::TransceiverError;
use nrf24_rs::sim::SimBus;
use nrf24_rs::sim::SimDelay;
use nrf24_rs::sim::SimPin;
use nrf24_rs::status::InterruptKind;
use nrf24_rs::status::Interrupts;
use nrf24_rs::Nrf24l01;

/// The CONFIG register value initialization composes for the default
/// configuration: power bit plus the 2-byte check scheme.
const DEFAULT_CONFIG_VAL: u8 = 0b0000_1110;

fn init(config: NrfConfig) -> Nrf24l01<SimBus, SimPin> {
    let spi = SimBus::new();
    let pin = SimPin::new();
    let mut delay = SimDelay::new();
    Nrf24l01::new(spi, pin, &mut delay, config).unwrap()
}

#[test]
fn init_configures_every_register() {
    let driver = init(NrfConfig::default());
    let (sim, pin) = driver.release();
    assert_eq!(sim.register(0x04), 0b0101_1111); // delay 5, count 15
    assert_eq!(sim.register(0x06), 0b0000_0000); // 1 Mbps, minimum level
    assert_eq!(sim.register(0x03), 0b11); // 5-byte addresses
    assert_eq!(sim.register(0x05), 76); // default channel
    assert_eq!(sim.register(0x00), DEFAULT_CONFIG_VAL);
    for reg in 0x11u8..=0x16 {
        assert_eq!(sim.register(reg), 32); // static payload size everywhere
    }
    assert_eq!(sim.tx_fifo_len(), 0);
    assert_eq!(sim.rx_fifo_len(), 0);
    assert_eq!(sim.register(0x07), 0b0000_1110); // no flags, no pipe, not full
    assert!(!pin.is_high());
}

#[test]
fn init_waits_the_settle_times() {
    let spi = SimBus::new();
    let pin = SimPin::new();
    let mut delay = SimDelay::new();
    let _ = Nrf24l01::new(spi, pin, &mut delay, NrfConfig::default()).unwrap();
    // The ghost clock is not observable here, but initialization must
    // complete without panicking with a zero-time delay provider, and the
    // contract pins the requested waits to 10 ms in total.
}

#[test]
fn chip_is_connected_after_init() {
    let mut driver = init(NrfConfig::default());
    assert!(driver.is_connected().unwrap());
}

#[test]
fn channel_write_reads_back() {
    let mut driver = init(NrfConfig::default());
    driver.set_channel(40).unwrap();
    assert_eq!(driver.channel().unwrap(), 40);
    let (sim, _) = driver.release();
    assert_eq!(sim.register(0x05), 40);
}

#[test]
fn set_channel_clips_to_the_valid_range() {
    let mut driver = init(NrfConfig::default());
    driver.set_channel(125).unwrap();
    assert_eq!(driver.channel().unwrap(), 125);
    driver.set_channel(126).unwrap();
    assert_eq!(driver.channel().unwrap(), 125);
    driver.set_channel(200).unwrap();
    assert_eq!(driver.channel().unwrap(), 125);
}

#[test]
fn init_clips_an_out_of_range_channel() {
    let mut config = NrfConfig::default();
    config.channel = 200;
    let driver = init(config);
    let (sim, _) = driver.release();
    assert_eq!(sim.register(0x05), 125);
}

#[test]
fn retries_write_reads_back() {
    let mut driver = init(NrfConfig::default());
    driver.set_retries(AutoRetransmission::new(3, 9)).unwrap();
    let ar = driver.retries().unwrap();
    assert_eq!(ar.raw_delay(), 3);
    assert_eq!(ar.count(), 9);
    assert_eq!(ar.delay(), 1086);
}

#[test]
fn opening_reading_pipe_three_writes_one_byte_and_keeps_other_pipes() {
    let mut driver = init(NrfConfig::default());
    driver.open_reading_pipe(DataPipe::DP3, b"abcde").unwrap();
    let (sim, _) = driver.release();
    // Only the address's least-significant byte (the first on the wire)
    // reaches pipe 3's register.
    assert_eq!(sim.register(0x0d), b'a');
    // Bit 3 is now set; the reset default bits for pipes 0 and 1 survive.
    assert_eq!(sim.register(0x02), 0b0000_1011);
}

#[test]
fn opening_reading_pipe_one_takes_the_full_address() {
    let mut driver = init(NrfConfig::default());
    driver.open_reading_pipe(DataPipe::DP1, b"Node1").unwrap();
    let (sim, _) = driver.release();
    assert_eq!(sim.register(0x0b), b'N');
    assert_eq!(sim.register(0x02), 0b0000_0011);
}

#[test]
fn opening_writing_pipe_aliases_pipe_zero() {
    let mut driver = init(NrfConfig::default());
    driver.open_writing_pipe(b"Node1").unwrap();
    let (sim, _) = driver.release();
    assert_eq!(sim.register(0x10), b'N');
    assert_eq!(sim.register(0x0a), b'N');
}

#[test]
fn listening_raises_and_releases_the_enable_line() {
    let mut driver = init(NrfConfig::default());
    driver.open_reading_pipe(DataPipe::DP0, b"Node1").unwrap();
    driver.start_listening().unwrap();
    let (sim, pin) = driver.release();
    assert!(pin.is_high());
    assert_eq!(sim.register(0x00), DEFAULT_CONFIG_VAL | 1);

    let mut driver = Nrf24l01::from_parts(
        sim,
        pin,
        DEFAULT_CONFIG_VAL | 1,
        PayloadSize::Static(32),
    );
    driver.stop_listening().unwrap();
    let (sim, pin) = driver.release();
    assert!(!pin.is_high());
    assert_eq!(sim.register(0x00), DEFAULT_CONFIG_VAL);
}

#[test]
fn read_returns_the_front_payload() {
    let config = NrfConfig::default().payload_size(PayloadSize::Static(4));
    let driver = init(config);
    let (mut sim, pin) = driver.release();
    sim.push_rx_packet(1, &[9, 8, 7, 6]);
    let mut driver = Nrf24l01::from_parts(sim, pin, DEFAULT_CONFIG_VAL, PayloadSize::Static(4));

    assert!(driver.data_available().unwrap());
    assert_eq!(driver.data_available_on_pipe().unwrap(), Some(DataPipe::DP1));

    let mut buf = vec![0u8; 6];
    let n = driver.read(&mut buf).unwrap();
    assert_eq!(n, 4);
    assert_eq!(buf, vec![9, 8, 7, 6, 0, 0]);
    assert!(!driver.data_available().unwrap());
}

#[test]
fn read_rejects_an_undersized_buffer() {
    let config = NrfConfig::default().payload_size(PayloadSize::Static(4));
    let mut driver = init(config);
    let mut buf = vec![0u8; 2];
    let r = driver.read(&mut buf);
    assert!(matches!(r, Err(TransceiverError::BufferTooSmall { required: 4, actual: 2 })));
}

#[test]
fn dynamic_read_clips_to_the_buffer() {
    let config = NrfConfig::default().payload_size(PayloadSize::Dynamic);
    let driver = init(config);
    let (mut sim, pin) = driver.release();
    sim.push_rx_packet(0, &[1, 2, 3]);
    let mut driver = Nrf24l01::from_parts(sim, pin, DEFAULT_CONFIG_VAL, PayloadSize::Dynamic);
    let mut buf = vec![0u8; 2];
    assert_eq!(driver.read(&mut buf).unwrap(), 2);
    assert_eq!(buf, vec![1, 2]);
}

#[test]
fn read_handles_the_largest_payload() {
    let driver = init(NrfConfig::default());
    let (mut sim, pin) = driver.release();
    let payload: Vec<u8> = (0u8..32).collect();
    sim.push_rx_packet(2, &payload);
    let mut driver = Nrf24l01::from_parts(sim, pin, DEFAULT_CONFIG_VAL, PayloadSize::Static(32));
    let mut buf = vec![0u8; 32];
    assert_eq!(driver.read(&mut buf).unwrap(), 32);
    assert_eq!(buf, payload);
}

#[test]
fn dynamic_write_clips_to_the_maximum_payload() {
    let config = NrfConfig::default().payload_size(PayloadSize::Dynamic);
    let mut driver = init(config);
    let mut delay = SimDelay::new();
    let long = vec![7u8; 40];
    driver.write(&mut delay, &long).unwrap();
    let (sim, _) = driver.release();
    assert_eq!(sim.tx_payload(0), vec![7u8; 32]);
}

#[test]
fn write_transmits_exactly_the_static_payload() {
    let config = NrfConfig::default().payload_size(PayloadSize::Static(4));
    let mut driver = init(config);
    driver.open_writing_pipe(b"Node1").unwrap();
    let mut delay = SimDelay::new();
    driver.write(&mut delay, &[1, 2, 3, 4]).unwrap();
    let (sim, pin) = driver.release();
    assert_eq!(sim.tx_fifo_len(), 1);
    assert_eq!(sim.tx_payload(0), vec![1, 2, 3, 4]);
    assert!(!pin.is_high());
}

#[test]
fn write_truncates_a_long_buffer_to_the_static_size() {
    let config = NrfConfig::default().payload_size(PayloadSize::Static(2));
    let mut driver = init(config);
    let mut delay = SimDelay::new();
    driver.write(&mut delay, &[1, 2, 3, 4]).unwrap();
    let (sim, _) = driver.release();
    assert_eq!(sim.tx_payload(0), vec![1, 2]);
}

#[test]
fn write_pads_a_short_buffer_with_zeros() {
    let config = NrfConfig::default().payload_size(PayloadSize::Static(4));
    let mut driver = init(config);
    let mut delay = SimDelay::new();
    driver.write(&mut delay, &[1, 2]).unwrap();
    let (sim, _) = driver.release();
    // The FIFO entry has the deterministic configured length.
    assert_eq!(sim.tx_fifo_len(), 1);
    assert_eq!(sim.tx_payload(0), vec![1, 2, 0, 0]);
}

#[test]
fn write_reports_max_retries_and_flushes() {
    let config = NrfConfig::default().payload_size(PayloadSize::Static(4));
    let driver = init(config);
    let (mut sim, pin) = driver.release();
    sim.trigger_max_retries();
    let mut driver = Nrf24l01::from_parts(sim, pin, DEFAULT_CONFIG_VAL, PayloadSize::Static(4));

    let mut delay = SimDelay::new();
    let r = driver.write(&mut delay, &[1, 2, 3, 4]);
    assert!(matches!(r, Err(TransceiverError::MaxRetries)));
    let (sim, pin) = driver.release();
    // The transmit FIFO was flushed, and a second flush is a no-op.
    assert_eq!(sim.tx_fifo_len(), 0);
    let mut driver = Nrf24l01::from_parts(sim, pin, DEFAULT_CONFIG_VAL, PayloadSize::Static(4));
    driver.flush_tx().unwrap();
    let (sim, _) = driver.release();
    assert_eq!(sim.tx_fifo_len(), 0);
}

#[test]
fn payload_size_changes_are_normalized_and_applied() {
    let mut driver = init(NrfConfig::default());
    assert_eq!(driver.payload_size(), PayloadSize::Static(32));

    driver.set_payload_size(PayloadSize::Dynamic).unwrap();
    assert_eq!(driver.payload_size(), PayloadSize::Dynamic);

    driver.set_payload_size(PayloadSize::Static(49)).unwrap();
    assert_eq!(driver.payload_size(), PayloadSize::Static(32));

    driver.set_payload_size(PayloadSize::Static(0)).unwrap();
    assert_eq!(driver.payload_size(), PayloadSize::Dynamic);

    let (sim, _) = driver.release();
    assert_eq!(sim.register(0x1d) & 0b0000_0100, 0b0000_0100);
    assert_eq!(sim.register(0x1c), 0b0001_1111);
}

#[test]
fn static_payload_size_reaches_all_six_pipes() {
    let mut driver = init(NrfConfig::default());
    driver.set_payload_size(PayloadSize::Static(12)).unwrap();
    let (sim, _) = driver.release();
    for reg in 0x11u8..=0x16 {
        assert_eq!(sim.register(reg), 12);
    }
}

#[test]
fn power_down_and_up_toggle_the_power_bit() {
    let mut driver = init(NrfConfig::default());
    driver.power_down().unwrap();
    let (sim, pin) = driver.release();
    assert_eq!(sim.register(0x00), DEFAULT_CONFIG_VAL & !0b10);
    assert!(!pin.is_high());

    let mut driver = Nrf24l01::from_parts(
        sim,
        pin,
        DEFAULT_CONFIG_VAL & !0b10,
        PayloadSize::Static(32),
    );
    let mut delay = SimDelay::new();
    driver.power_up(&mut delay).unwrap();
    let (sim, _) = driver.release();
    assert_eq!(sim.register(0x00), DEFAULT_CONFIG_VAL);
}

#[test]
fn masking_interrupts_sets_the_config_mask_bits() {
    let mut driver = init(NrfConfig::default());
    driver.mask_interrupts(Interrupts::new().max_retries()).unwrap();
    let (sim, _) = driver.release();
    assert_eq!(sim.register(0x00), DEFAULT_CONFIG_VAL | 0b0001_0000);
}

#[test]
fn interrupt_sources_are_reported_and_cleared() {
    let driver = init(NrfConfig::default());
    let (mut sim, pin) = driver.release();
    sim.trigger_max_retries();
    sim.trigger_data_sent();
    let mut driver = Nrf24l01::from_parts(sim, pin, DEFAULT_CONFIG_VAL, PayloadSize::Static(32));

    let irq = driver.interrupt_src().unwrap();
    assert!(irq.contains(InterruptKind::MaxRetries));
    assert!(irq.contains(InterruptKind::TxDataSent));
    assert!(!irq.contains(InterruptKind::RxDataReady));

    // The flags were cleared by the query.
    let st = driver.status().unwrap();
    assert!(!st.reached_max_retries());
    assert!(!st.data_sent());
}

#[test]
fn status_reflects_a_waiting_packet() {
    let driver = init(NrfConfig::default());
    let (mut sim, pin) = driver.release();
    sim.push_rx_packet(3, &[5; 32]);
    let mut driver = Nrf24l01::from_parts(sim, pin, DEFAULT_CONFIG_VAL, PayloadSize::Static(32));
    let st = driver.status().unwrap();
    assert!(st.data_ready());
    assert_eq!(st.data_pipe_available(), Ok(Some(DataPipe::DP3)));
}

#[test]
fn configured_rates_and_levels_read_back() {
    let config = NrfConfig::default().data_rate(DataRate::R2Mbps).pa_level(PALevel::High);
    let mut driver = init(config);
    assert_eq!(driver.data_rate().unwrap(), DataRate::R2Mbps);
    assert_eq!(driver.power_amp_level().unwrap(), PALevel::High);
}

#[test]
fn crc_scheme_changes_read_back() {
    let mut driver = init(NrfConfig::default());
    assert_eq!(driver.crc_encoding_scheme().unwrap(), EncodingScheme::R2Bytes);
    driver.enable_crc(EncodingScheme::R1Byte).unwrap();
    assert_eq!(driver.crc_encoding_scheme().unwrap(), EncodingScheme::R1Byte);
}

#[test]
fn read_config_reflects_the_chip() {
    let mut driver = init(NrfConfig::default().channel(100).data_rate(DataRate::R2Mbps));
    let cfg = driver.read_config().unwrap();
    assert_eq!(cfg.channel, 100);
    assert_eq!(cfg.data_rate, DataRate::R2Mbps);
    assert_eq!(cfg.pa_level, PALevel::Min);
    assert_eq!(cfg.crc_encoding_scheme, EncodingScheme::R2Bytes);
    assert_eq!(cfg.payload_size, PayloadSize::Static(32));
    assert_eq!(cfg.auto_retry.raw_delay(), 5);
    assert_eq!(cfg.auto_retry.count(), 15);
    assert_eq!(cfg.auto_retry.delay(), 1586);
}

#[test]
fn a_faulted_bus_reports_transfer_errors() {
    let driver = init(NrfConfig::default());
    let (mut sim, pin) = driver.release();
    sim.set_fault(true);
    let mut driver = Nrf24l01::from_parts(sim, pin, DEFAULT_CONFIG_VAL, PayloadSize::Static(32));
    assert!(matches!(driver.set_channel(10), Err(TransceiverError::Spi(_))));
    assert!(matches!(driver.channel(), Err(TransceiverError::Spi(_))));
}

#[test]
fn a_faulted_enable_line_reports_control_errors() {
    let driver = init(NrfConfig::default());
    let (sim, mut pin) = driver.release();
    pin.set_fault(true);
    let mut driver = Nrf24l01::from_parts(sim, pin, DEFAULT_CONFIG_VAL, PayloadSize::Static(32));
    assert!(matches!(driver.power_down(), Err(TransceiverError::Ce(_))));
}

/// A bus whose chip does not behave like the register-level model: writes
/// are lost, and every read returns a fixed byte.
struct LyingBus;

impl nrf24_rs::device::BusDevice for LyingBus {
    type Error = ();

    fn transfer_write(&mut self, _op: u8, _data: &[u8]) -> Result<u8, ()> {
        Ok(0)
    }

    fn transfer_read(&mut self, _op: u8, n: usize) -> Result<(u8, Vec<u8>), ()> {
        Ok((0, vec![0xaa; n]))
    }
}

#[test]
fn init_rejects_a_chip_whose_readback_mismatches() {
    let pin = SimPin::new();
    let mut delay = SimDelay::new();
    let r = Nrf24l01::new(LyingBus, pin, &mut delay, NrfConfig::default());
    assert!(matches!(r, Err(TransceiverError::Comm(0xaa))));
}

#[test]
fn init_fails_on_a_faulted_bus() {
    let mut spi = SimBus::new();
    spi.set_fault(true);
    let pin = SimPin::new();
    let mut delay = SimDelay::new();
    let r = Nrf24l01::new(spi, pin, &mut delay, NrfConfig::default());
    assert!(matches!(r, Err(TransceiverError::Spi(_))));
}
