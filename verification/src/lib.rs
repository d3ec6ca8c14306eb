//! Flight-controller logic for a quadcopter on a Raspberry Pi Pico W: decoding
//! of MPU6050 samples, clamping of mixed motor commands to ESC pulse widths,
//! and the PWM settings that drive four brushless ESCs.

pub mod data;
pub mod mixer;
pub mod pwm;
pub mod mpu6050;
