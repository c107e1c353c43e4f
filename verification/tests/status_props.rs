//! Tests for the status, FIFO-status and interrupt decoders.

use nrf24_rs::config::DataPipe;
use nrf24_rs::status::FIFOStatus;
use nrf24_rs::status::InterruptKind;
use nrf24_rs::status::Interrupts;
use nrf24_rs::status::Status;
use nrf24_rs::status::UnknownPipe;

#[test]
fn status_byte_decodes_field_by_field() {
    let st = Status::from_raw(0b0100_0001);
    assert!(st.is_valid());
    assert!(st.data_ready());
    assert!(!st.data_sent());
    assert!(!st.reached_max_retries());
    assert_eq!(st.data_pipe_available(), Ok(Some(DataPipe::DP0)));
    assert!(st.tx_full());
}

#[test]
fn status_with_top_bit_set_is_invalid() {
    assert!(!Status::from_raw(0b1000_0000).is_valid());
    assert!(Status::from_raw(0b0111_1111).is_valid());
}

#[test]
fn status_pipe_numbers_decode() {
    for n in 0u8..=5 {
        let st = Status::from_raw(n << 1);
        assert_eq!(st.data_pipe_available(), Ok(Some(DataPipe::from_number(n))));
    }
}

#[test]
fn status_pipe_seven_means_no_data() {
    assert_eq!(Status::from_raw(0b0000_1110).data_pipe_available(), Ok(None));
    assert_eq!(Status::from_raw(0b0101_1111).data_pipe_available(), Ok(None));
}

#[test]
fn status_pipe_six_is_an_explicit_error() {
    assert_eq!(Status::from_raw(0b0000_1100).data_pipe_available(), Err(UnknownPipe));
    assert_eq!(Status::from_raw(0b0111_1101).data_pipe_available(), Err(UnknownPipe));
}

#[test]
fn status_raw_is_kept() {
    assert_eq!(Status::from_raw(0xab).raw(), 0xab);
}

#[test]
fn fifo_status_decodes_field_by_field() {
    let fs = FIFOStatus::from_raw(0b0010_0010);
    assert!(fs.tx_full());
    assert!(!fs.tx_empty());
    assert!(fs.rx_full());
    assert!(!fs.rx_empty());

    let fs = FIFOStatus::from_raw(0b0001_0001);
    assert!(!fs.tx_full());
    assert!(fs.tx_empty());
    assert!(!fs.rx_full());
    assert!(fs.rx_empty());
}

#[test]
fn interrupts_build_and_query() {
    let none = Interrupts::new();
    assert!(!none.contains(InterruptKind::MaxRetries));
    assert!(!none.contains(InterruptKind::TxDataSent));
    assert!(!none.contains(InterruptKind::RxDataReady));

    let some = Interrupts::new().max_retries().rx_data_ready();
    assert!(some.contains(InterruptKind::MaxRetries));
    assert!(!some.contains(InterruptKind::TxDataSent));
    assert!(some.contains(InterruptKind::RxDataReady));

    let all = Interrupts::all();
    assert!(all.contains(InterruptKind::MaxRetries));
    assert!(all.contains(InterruptKind::TxDataSent));
    assert!(all.contains(InterruptKind::RxDataReady));
    assert_eq!(all.raw(), 0b0111_0000);
}

#[test]
fn interrupts_from_raw_keeps_only_interrupt_bits() {
    let irq = Interrupts::from_raw(0b1111_1111);
    assert_eq!(irq.raw(), 0b0111_0000);
    assert_eq!(Interrupts::from_raw(0b0000_1111).raw(), 0);
}
