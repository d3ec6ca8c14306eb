//! The MPU6050 register protocol used over I2C.

use vstd::prelude::*;

verus! {

/// The MPU6050's 7-bit I2C address (AD0 low).
pub const MPU6050_ADDR: u16 = 0x68;

/// Power management register: writing 0 wakes the sensor from sleep.
pub const REG_PWR_MGMT_1: u8 = 0x6B;

/// First of the 14 output registers: accelerometer, temperature, gyroscope.
pub const REG_ACCEL_XOUT_H: u8 = 0x3B;

/// The bytes to write to wake the MPU6050: register PWR_MGMT_1, value 0.
pub fn wake_command() -> (cmd: [u8; 2])
    ensures
        cmd@ == seq![REG_PWR_MGMT_1, 0u8],
{
    [REG_PWR_MGMT_1, 0x00]
}

/// The register pointer to write before a 14-byte burst read of one sample.
pub fn sample_read_command() -> (cmd: [u8; 1])
    ensures
        cmd@ == seq![REG_ACCEL_XOUT_H],
{
    [REG_ACCEL_XOUT_H]
}

} // verus!
