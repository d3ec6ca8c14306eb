use muninn_firmware::mpu6050::{
    sample_read_command, wake_command, MPU6050_ADDR, REG_ACCEL_XOUT_H, REG_PWR_MGMT_1,
};

#[test]
fn wake_writes_zero_to_power_management() {
    assert_eq!(MPU6050_ADDR, 0x68);
    assert_eq!(REG_PWR_MGMT_1, 0x6B);
    assert_eq!(wake_command(), [0x6B, 0x00]);
}

#[test]
fn sample_read_starts_at_accel_xout_h() {
    assert_eq!(REG_ACCEL_XOUT_H, 0x3B);
    assert_eq!(sample_read_command(), [0x3B]);
}
