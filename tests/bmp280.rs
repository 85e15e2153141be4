use rp2040_bringup::bmp280::{
    chip_present, compensate_temperature, decode_calibration, decode_raw_temperature, read_command,
    temperature_from_bursts, write_command, TempCalibration, BMP280_CHIP_ID, BMP280_CTRL_MEAS_REG,
    BMP280_ID_REG,
};

#[test]
fn compensation_uses_wrapping_32_bit_steps() {
    // Datasheet coefficients; the negative third coefficient wraps.
    assert_eq!(compensate_temperature(519888, 27504, 26435, -1000), 7628);
}

#[test]
fn compensation_with_non_negative_coefficients() {
    assert_eq!(compensate_temperature(519888, 27504, 26435, 0), 2515);
    assert_eq!(compensate_temperature(519888, 27504, 26435, 1000), 2523);
}

#[test]
fn compensation_of_zero_inputs() {
    assert_eq!(compensate_temperature(0, 0, 0, 0), 0);
    assert_eq!(compensate_temperature(100000, 30000, -5, 7), 3);
}

#[test]
fn calibration_is_little_endian_after_the_command_byte() {
    let burst: [u8; 7] = [0xAA, 0x70, 0x6B, 0x43, 0x67, 0x18, 0xFC];
    let c = decode_calibration(&burst);
    assert_eq!(c, TempCalibration { dig_t1: 27504, dig_t2: 26435, dig_t3: -1000 });
}

#[test]
fn calibration_extremes() {
    let burst: [u8; 7] = [0x00, 0xFF, 0xFF, 0x00, 0x80, 0xFF, 0x7F];
    let c = decode_calibration(&burst);
    assert_eq!(c.dig_t1, 0xFFFF);
    assert_eq!(c.dig_t2, i16::MIN);
    assert_eq!(c.dig_t3, i16::MAX);
}

#[test]
fn raw_temperature_is_big_endian_shifted_by_four() {
    assert_eq!(decode_raw_temperature(&[0x00, 0x7E, 0xED, 0x00]), 519888);
    assert_eq!(decode_raw_temperature(&[0x12, 0x34, 0x56, 0x78]), 0x1234_5678 >> 4);
}

#[test]
fn command_bytes_carry_the_read_bit() {
    assert_eq!(read_command(BMP280_ID_REG), 0xD0);
    assert_eq!(read_command(0x10), 0x90);
    assert_eq!(write_command(BMP280_CTRL_MEAS_REG), 0x74);
    assert_eq!(write_command(0x74), 0x74);
}

#[test]
fn chip_identifier_is_the_second_byte() {
    assert!(chip_present(&[0x00, BMP280_CHIP_ID]));
    assert!(!chip_present(&[BMP280_CHIP_ID, 0x00]));
}

#[test]
fn temperature_from_both_bursts() {
    let calibration: [u8; 7] = [0x00, 0x70, 0x6B, 0x43, 0x67, 0x00, 0x00];
    let measurement: [u8; 4] = [0x00, 0x7E, 0xED, 0x00];
    assert_eq!(temperature_from_bursts(&calibration, &measurement), 2515);
}
