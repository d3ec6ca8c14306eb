//! Decoding of a raw MPU6050 burst read into signed sensor counts.

use vstd::prelude::*;

verus! {

/// Number of bytes in one burst read of the accelerometer, temperature and
/// gyroscope output registers.
pub const RAW_SAMPLE_LEN: usize = 14;

/// Accelerometer sensitivity at the +/- 2 g range, in counts per g.
pub const ACCEL_COUNTS_PER_G: u16 = 16384;

/// Gyroscope sensitivity at the +/- 250 deg/s range, in counts per deg/s.
pub const GYRO_COUNTS_PER_DPS: u16 = 131;

/// Temperature sensor sensitivity, in counts per degree Celsius.
pub const TEMP_COUNTS_PER_C: u16 = 340;

/// The two's-complement value of the big-endian 16-bit word `hi:lo`.
pub open spec fn be_word_value(hi: u8, lo: u8) -> int {
    let u = hi as int * 256 + lo as int;
    if u >= 32768 {
        u - 65536
    } else {
        u
    }
}

/// Reads the big-endian signed 16-bit word made of the bytes `hi` and `lo`.
pub fn be_i16(hi: u8, lo: u8) -> (v: i16)
    ensures
        v as int == be_word_value(hi, lo),
{
    let word: u16 = ((hi as u16) << 8u16) | (lo as u16);
    assert((((hi as u16) << 8u16) | (lo as u16)) as i16 as int == (if hi as int * 256 + lo as int
        >= 32768 {
        hi as int * 256 + lo as int - 65536
    } else {
        hi as int * 256 + lo as int
    })) by (bit_vector);
    word as i16
}

/// One sample of the MPU6050 in raw sensor counts, in register order.
#[derive(Debug, Clone, Copy, PartialEq, Eq, Structural)]
pub struct ImuRaw {
    pub accel_x: i16,
    pub accel_y: i16,
    pub accel_z: i16,
    pub temp: i16,
    pub gyro_x: i16,
    pub gyro_y: i16,
    pub gyro_z: i16,
}

impl ImuRaw {
    /// The sample that a 14-byte burst read starting at ACCEL_XOUT_H holds:
    /// seven big-endian words, accelerometer x, y, z, temperature, then
    /// gyroscope x, y, z.
    pub open spec fn decoded(raw: Seq<u8>) -> ImuRaw
        recommends
            raw.len() == RAW_SAMPLE_LEN,
    {
        ImuRaw {
            accel_x: be_word_value(raw[0], raw[1]) as i16,
            accel_y: be_word_value(raw[2], raw[3]) as i16,
            accel_z: be_word_value(raw[4], raw[5]) as i16,
            temp: be_word_value(raw[6], raw[7]) as i16,
            gyro_x: be_word_value(raw[8], raw[9]) as i16,
            gyro_y: be_word_value(raw[10], raw[11]) as i16,
            gyro_z: be_word_value(raw[12], raw[13]) as i16,
        }
    }

    /// Decodes a burst read of the sensor registers into signed counts.
    pub fn from_bytes(raw: &[u8; 14]) -> (s: ImuRaw)
        ensures
            s == ImuRaw::decoded(raw@),
            s.accel_x as int == be_word_value(raw[0], raw[1]),
            s.accel_y as int == be_word_value(raw[2], raw[3]),
            s.accel_z as int == be_word_value(raw[4], raw[5]),
            s.temp as int == be_word_value(raw[6], raw[7]),
            s.gyro_x as int == be_word_value(raw[8], raw[9]),
            s.gyro_y as int == be_word_value(raw[10], raw[11]),
            s.gyro_z as int == be_word_value(raw[12], raw[13]),
    {
        ImuRaw {
            accel_x: be_i16(raw[0], raw[1]),
            accel_y: be_i16(raw[2], raw[3]),
            accel_z: be_i16(raw[4], raw[5]),
            temp: be_i16(raw[6], raw[7]),
            gyro_x: be_i16(raw[8], raw[9]),
            gyro_y: be_i16(raw[10], raw[11]),
            gyro_z: be_i16(raw[12], raw[13]),
        }
    }
}

} // verus!
