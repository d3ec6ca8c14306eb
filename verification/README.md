# muninn_firmware

Verified core of the Muninn quadcopter flight controller (Raspberry Pi Pico W,
MPU6050 IMU, four brushless ESCs).

- `src/` is the library, checked by Verus:
  - `data`: decoding of a 14-byte MPU6050 burst read into signed counts;
  - `mixer`: clamping of mixed motor commands to ESC pulse widths;
  - `pwm`: the PWM slice settings for the ESCs (1 MHz counter, 20 ms frame)
    and the per-motor throttle settings;
  - `mpu6050`: the I2C register protocol of the sensor.
- `app/` is the firmware binary: the embassy main loop, the I2C and PWM
  drivers, and the floating-point parts (unit scaling, complementary filter,
  PID and LQR controllers, mixing matrix).
- `tests/` exercises the library.
