use rp2040_bringup::error::PeriphError;
use rp2040_bringup::i2c::{
    address_byte, data_ready_step, tmp117_data_ready, tmp117_raw_temperature, write_read_frame,
    write_then_read, TMP117_DEVICE_ID_REG, TMP117_I2C_ADDRESS,
};
use rp2040_bringup::poll::{BoundedPoll, PollOutcome};

#[test]
fn address_bytes() {
    assert_eq!(address_byte(TMP117_I2C_ADDRESS, false), Ok(0x90));
    assert_eq!(address_byte(TMP117_I2C_ADDRESS, true), Ok(0x91));
    assert_eq!(address_byte(0x7F, true), Ok(0xFF));
    assert_eq!(address_byte(0x80, false), Err(PeriphError::ConfigurationError));
}

#[test]
fn frame_keeps_the_bus_between_phases() {
    let frame = write_read_frame(TMP117_I2C_ADDRESS, &vec![TMP117_DEVICE_ID_REG]).unwrap();
    assert_eq!(frame, vec![0x90, 0x0F, 0x91]);
    assert_eq!(write_read_frame(0x10, &vec![]).unwrap(), vec![0x20, 0x21]);
    assert_eq!(write_read_frame(0xFF, &vec![1]), Err(PeriphError::ConfigurationError));
}

#[test]
fn acknowledged_read_returns_the_reply() {
    let r = write_then_read(TMP117_I2C_ADDRESS, &vec![TMP117_DEVICE_ID_REG], &vec![true, true, true], &vec![0x01, 0x17], 2);
    assert_eq!(r, Ok(vec![0x01, 0x17]));
}

#[test]
fn nack_of_the_address_is_a_bus_error() {
    // A device that answers nothing: every acknowledge bit reads high.
    let r = write_then_read(TMP117_I2C_ADDRESS, &vec![TMP117_DEVICE_ID_REG], &vec![false, false, false], &vec![0, 0], 2);
    assert_eq!(r, Err(PeriphError::BusError));
    let r = write_then_read(TMP117_I2C_ADDRESS, &vec![TMP117_DEVICE_ID_REG], &vec![], &vec![], 2);
    assert_eq!(r, Err(PeriphError::BusError));
}

#[test]
fn nack_of_a_command_byte_is_a_bus_error() {
    let r = write_then_read(0x48, &vec![0x01, 0x02], &vec![true, true, false, true], &vec![7, 7], 2);
    assert_eq!(r, Err(PeriphError::BusError));
    let r = write_then_read(0x48, &vec![0x01], &vec![true, true, false], &vec![7, 7], 2);
    assert_eq!(r, Err(PeriphError::BusError));
}

#[test]
fn bad_address_is_refused() {
    let r = write_then_read(0x90, &vec![0x01], &vec![true, true, true], &vec![7, 7], 2);
    assert_eq!(r, Err(PeriphError::ConfigurationError));
}

#[test]
fn undriven_reply_bytes_read_high() {
    let r = write_then_read(0x48, &vec![0x00], &vec![true, true, true], &vec![0x12], 3);
    assert_eq!(r, Ok(vec![0x12, 0xFF, 0xFF]));
    let r = write_then_read(0x48, &vec![0x00], &vec![true, true, true], &vec![0x12], 0);
    assert_eq!(r, Ok(vec![]));
}

#[test]
fn data_ready_flag_and_result() {
    assert!(tmp117_data_ready(&[0x22, 0x20]));
    assert!(!tmp117_data_ready(&[0x02, 0x20]));
    assert!(!tmp117_data_ready(&[0xDF, 0xFF]));
    assert_eq!(tmp117_raw_temperature(&[0x0C, 0x80]), 3200);
    assert_eq!(tmp117_raw_temperature(&[0xFF, 0xFF]), 0xFFFF);
}

#[test]
fn readiness_wait_is_bounded_and_passes_errors_on() {
    let mut poll = BoundedPoll::new(3);
    assert_eq!(data_ready_step(&mut poll, Ok([0x00, 0x00])), Ok(PollOutcome::Pending));
    assert_eq!(data_ready_step(&mut poll, Err(PeriphError::BusError)), Err(PeriphError::BusError));
    assert_eq!(poll.attempts, 1);
    assert_eq!(data_ready_step(&mut poll, Ok([0x20, 0x00])), Ok(PollOutcome::Ready));
    let mut poll = BoundedPoll::new(2);
    assert_eq!(data_ready_step(&mut poll, Ok([0x00, 0x00])), Ok(PollOutcome::Pending));
    assert_eq!(data_ready_step(&mut poll, Ok([0x00, 0x00])), Ok(PollOutcome::TimedOut));
    assert_eq!(data_ready_step(&mut poll, Ok([0x20, 0x00])), Ok(PollOutcome::TimedOut));
}
