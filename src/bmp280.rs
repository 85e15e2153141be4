//! Frames and arithmetic of the pressure sensor's temperature path: command
//! bytes, the calibration block, the raw measurement, and the fixed-point
//! compensation formula as the firmware computes it in 32-bit wrapping
//! arithmetic.
use vstd::prelude::*;

verus! {

/// Register that holds the chip identifier.
pub const BMP280_ID_REG: u8 = 0xD0;

/// Value the identifier register reads once power-on reset is over.
pub const BMP280_CHIP_ID: u8 = 0x58;

/// First register of the temperature calibration block.
pub const BMP280_CALIB_DATA_ADDR: u8 = 0x88;

/// Measurement control register.
pub const BMP280_CTRL_MEAS_REG: u8 = 0xF4;

/// First register of the raw temperature burst.
pub const BMP280_TEMP_REG: u8 = 0xFA;

/// Value of the measurement control register for one forced temperature
/// measurement: temperature oversampling x1, pressure off, forced mode.
pub const BMP280_FORCED_TEMP_ONLY: u8 = 0x21;

/// Reduction of a value modulo 2^32, as 32-bit registers hold it.
pub open spec fn wrap32(x: int) -> int {
    x % 0x1_0000_0000
}

/// Temperature in hundredths of a degree, as the datasheet's 32-bit formula
/// gives it when every step is evaluated in wrapping unsigned 32-bit
/// arithmetic and the signed coefficients are sign-extended.
pub open spec fn compensated(adc_t: u32, dig_t1: u16, dig_t2: i16, dig_t3: i16) -> int {
    let t1 = dig_t1 as int;
    let var1 = wrap32(wrap32(adc_t / 8 - 2 * t1) * wrap32(dig_t2 as int)) / 2048;
    let d = wrap32(adc_t / 16 - t1);
    let var2 = wrap32((wrap32(d * d) / 4096) * wrap32(dig_t3 as int)) / 16384;
    let t_fine = wrap32(var1 + var2);
    wrap32(t_fine * 5 + 128) / 256
}

/// A signed 16-bit coefficient as a 32-bit register holds it after sign
/// extension.
fn sign_extend(v: i16) -> (r: u32)
    ensures
        r as int == wrap32(v as int),
{
    if v >= 0 {
        v as u32
    } else {
        let magnitude_less_one: u32 = (-(v as i32) - 1) as u32;
        0xFFFF_FFFFu32 - magnitude_less_one
    }
}

/// Subtraction in a 32-bit register.
fn sub32(x: u32, y: u32) -> (r: u32)
    ensures
        r as int == wrap32(x - y),
{
    x.wrapping_sub(y)
}

/// Multiplication in a 32-bit register.
fn mul32(x: u32, y: u32) -> (r: u32)
    ensures
        r as int == wrap32(x * y),
{
    let r = x.wrapping_mul(y);
    proof {
        assert(x as nat * y as nat >= 0) by (nonlinear_arith);
    }
    r
}

/// Addition in a 32-bit register.
fn add32(x: u32, y: u32) -> (r: u32)
    ensures
        r as int == wrap32(x + y),
{
    x.wrapping_add(y)
}

/// Temperature compensation of the sensor's raw reading, in hundredths of a
/// degree Celsius.
pub fn compensate_temperature(adc_t: u32, dig_t1: u16, dig_t2: i16, dig_t3: i16) -> (r: u32)
    ensures
        r as int == compensated(adc_t, dig_t1, dig_t2, dig_t3),
{
    let t1: u32 = dig_t1 as u32;
    let t2: u32 = sign_extend(dig_t2);
    let t3: u32 = sign_extend(dig_t3);
    assert(adc_t >> 3 == adc_t / 8) by (bit_vector);
    assert(adc_t >> 4 == adc_t / 16) by (bit_vector);
    assert(t1 << 1 == t1 * 2) by (bit_vector)
        requires
            t1 < 0x10000,
    ;
    let prod1: u32 = mul32(sub32(adc_t >> 3, t1 << 1), t2);
    assert(prod1 >> 11 == prod1 / 2048) by (bit_vector);
    let var1: u32 = prod1 >> 11;

    let d: u32 = sub32(adc_t >> 4, t1);
    let dd: u32 = mul32(d, d);
    assert(dd >> 12 == dd / 4096) by (bit_vector);
    let prod2: u32 = mul32(dd >> 12, t3);
    assert(prod2 >> 14 == prod2 / 16384) by (bit_vector);
    let var2: u32 = prod2 >> 14;

    let t_fine: u32 = add32(var1, var2);
    let scaled: u32 = add32(mul32(t_fine, 5), 128);
    assert(scaled >> 8 == scaled / 256) by (bit_vector);
    scaled >> 8
}

/// Unsigned value of two bytes, least significant first.
pub open spec fn le_u16(lo: u8, hi: u8) -> int {
    lo + 256 * hi
}

/// Two's complement value of two bytes, least significant first.
pub open spec fn le_i16(lo: u8, hi: u8) -> int {
    if hi < 0x80 {
        le_u16(lo, hi)
    } else {
        le_u16(lo, hi) - 0x1_0000
    }
}

/// Unsigned value of four bytes, most significant first.
pub open spec fn be_u32(b: Seq<u8>) -> int {
    b[0] * 0x100_0000 + b[1] * 0x1_0000 + b[2] * 0x100 + b[3]
}

/// The three temperature coefficients of the calibration block.
#[derive(Clone, Copy, Debug, PartialEq, Eq, Structural)]
pub struct TempCalibration {
    pub dig_t1: u16,
    pub dig_t2: i16,
    pub dig_t3: i16,
}

fn u16_le(lo: u8, hi: u8) -> (r: u16)
    ensures
        r as int == le_u16(lo, hi),
{
    lo as u16 + (hi as u16) * 256
}

fn i16_le(lo: u8, hi: u8) -> (r: i16)
    ensures
        r as int == le_i16(lo, hi),
{
    let v: u16 = u16_le(lo, hi);
    if v < 0x8000 {
        v as i16
    } else {
        (v as i32 - 0x1_0000) as i16
    }
}

/// Decodes the calibration burst. The first byte was clocked in while the
/// register address went out and carries nothing; the coefficients follow,
/// least significant byte first.
pub fn decode_calibration(burst: &[u8; 7]) -> (r: TempCalibration)
    ensures
        r.dig_t1 as int == le_u16(burst@[1], burst@[2]),
        r.dig_t2 as int == le_i16(burst@[3], burst@[4]),
        r.dig_t3 as int == le_i16(burst@[5], burst@[6]),
{
    TempCalibration {
        dig_t1: u16_le(burst[1], burst[2]),
        dig_t2: i16_le(burst[3], burst[4]),
        dig_t3: i16_le(burst[5], burst[6]),
    }
}

/// The raw 20-bit temperature reading of a four-byte burst read: the burst
/// taken as one big-endian word, shifted right by four.
pub fn decode_raw_temperature(burst: &[u8; 4]) -> (r: u32)
    ensures
        r as int == be_u32(burst@) / 16,
{
    let word: u32 = (burst[0] as u32) * 0x100_0000 + (burst[1] as u32) * 0x1_0000
        + (burst[2] as u32) * 0x100 + burst[3] as u32;
    word / 16
}

/// The byte that opens a read of register `reg`: the address with the top
/// bit set.
pub fn read_command(reg: u8) -> (r: u8)
    ensures
        r as int == reg % 128 + 128,
{
    reg % 128 + 128
}

/// The byte that opens a write to register `reg`: the address with the top
/// bit cleared.
pub fn write_command(reg: u8) -> (r: u8)
    ensures
        r as int == reg % 128,
{
    reg % 128
}

/// Whether the identifier read (command byte first, then the identifier)
/// shows that the sensor has left power-on reset.
pub fn chip_present(reply: &[u8; 2]) -> (r: bool)
    ensures
        r == (reply@[1] == BMP280_CHIP_ID),
{
    reply[1] == BMP280_CHIP_ID
}

/// Reads the calibration block and the raw reading and returns the
/// compensated temperature in hundredths of a degree.
pub fn temperature_from_bursts(calibration: &[u8; 7], measurement: &[u8; 4]) -> (r: u32)
    ensures
        ({
            let c = decode_calibration_spec(calibration@);
            r as int == compensated((be_u32(measurement@) / 16) as u32, c.dig_t1, c.dig_t2, c.dig_t3)
        }),
{
    let c = decode_calibration(calibration);
    compensate_temperature(decode_raw_temperature(measurement), c.dig_t1, c.dig_t2, c.dig_t3)
}

/// The coefficients that a calibration burst encodes.
pub open spec fn decode_calibration_spec(burst: Seq<u8>) -> TempCalibration {
    TempCalibration {
        dig_t1: le_u16(burst[1], burst[2]) as u16,
        dig_t2: le_i16(burst[3], burst[4]) as i16,
        dig_t3: le_i16(burst[5], burst[6]) as i16,
    }
}

} // verus!
