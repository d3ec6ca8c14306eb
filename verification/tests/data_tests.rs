use muninn_firmware::data::{
    be_i16, ImuRaw, ACCEL_COUNTS_PER_G, GYRO_COUNTS_PER_DPS, RAW_SAMPLE_LEN, TEMP_COUNTS_PER_C,
};

#[test]
fn test_imu_conversion() {
    let raw = [
        0x40, 0x00, // ax = 16384 -> 1.0g
        0x00, 0x00, // ay = 0
        0xC0, 0x00, // az = -16384 -> -1.0g
        0x00, 0x00, // temp -> will result in 36.53
        0x00, 0x83, // gx = 131 -> 1.0 deg/s
        0x00, 0x00, // gy = 0
        0xFF, 0x7D, // gz = -131 -> -1.0 deg/s
    ];

    let s = ImuRaw::from_bytes(&raw);
    assert_eq!(s.accel_x, 16384);
    assert_eq!(s.accel_y, 0);
    assert_eq!(s.accel_z, -16384);
    assert_eq!(s.temp, 0);
    assert_eq!(s.gyro_x, 131);
    assert_eq!(s.gyro_y, 0);
    assert_eq!(s.gyro_z, -131);

    // The physical units that the firmware derives from these counts.
    let accel = ACCEL_COUNTS_PER_G as f32;
    let gyro = GYRO_COUNTS_PER_DPS as f32;
    let temp = TEMP_COUNTS_PER_C as f32;
    assert_eq!(s.accel_x as f32 / accel, 1.0);
    assert_eq!(s.accel_y as f32 / accel, 0.0);
    assert_eq!(s.accel_z as f32 / accel, -1.0);
    assert_eq!(s.gyro_x as f32 / gyro, 1.0);
    assert_eq!(s.gyro_y as f32 / gyro, 0.0);
    assert_eq!(s.gyro_z as f32 / gyro, -1.0);
    assert_eq!(s.temp as f32 / temp + 36.53, 36.53);
}

#[test]
fn be_i16_reads_big_endian_words() {
    assert_eq!(be_i16(0x00, 0x00), 0);
    assert_eq!(be_i16(0x00, 0x01), 1);
    assert_eq!(be_i16(0x01, 0x00), 256);
    assert_eq!(be_i16(0x12, 0x34), 0x1234);
    assert_eq!(be_i16(0x7F, 0xFF), i16::MAX);
    assert_eq!(be_i16(0x80, 0x00), i16::MIN);
    assert_eq!(be_i16(0xFF, 0xFF), -1);
    assert_eq!(be_i16(0xFF, 0x7D), -131);
}

#[test]
fn be_i16_agrees_with_std_on_every_word() {
    for hi in 0..=255u8 {
        for lo in 0..=255u8 {
            assert_eq!(be_i16(hi, lo), i16::from_be_bytes([hi, lo]));
        }
    }
}

#[test]
fn from_bytes_keeps_register_order() {
    let mut raw = [0u8; RAW_SAMPLE_LEN];
    for i in 0..RAW_SAMPLE_LEN {
        raw[i] = i as u8 + 1;
    }
    let s = ImuRaw::from_bytes(&raw);
    assert_eq!(
        s,
        ImuRaw {
            accel_x: 0x0102,
            accel_y: 0x0304,
            accel_z: 0x0506,
            temp: 0x0708,
            gyro_x: 0x090A,
            gyro_y: 0x0B0C,
            gyro_z: 0x0D0E,
        }
    );
}

#[test]
fn from_bytes_decodes_extremes() {
    let raw = [
        0x80, 0x00, 0x7F, 0xFF, 0xFF, 0xFF, 0xF3, 0x3C, 0x00, 0x00, 0x80, 0x01, 0xFE, 0xFF,
    ];
    let s = ImuRaw::from_bytes(&raw);
    assert_eq!(s.accel_x, -32768);
    assert_eq!(s.accel_y, 32767);
    assert_eq!(s.accel_z, -1);
    assert_eq!(s.temp, -3268);
    assert_eq!(s.gyro_x, 0);
    assert_eq!(s.gyro_y, -32767);
    assert_eq!(s.gyro_z, -257);
}
