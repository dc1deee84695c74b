use voiturerc::imu::{gyro_weight_exec, IMU};

fn resting_imu(angles: [i64; 3]) -> IMU {
    IMU {
        gyro_cal: [0, 0, 0],
        accel_cal: [0, 0, 0],
        gyro_scale: 131_000,
        accel_scale: 16_384,
        angles,
        temp: 0,
        speed: 0,
        last_measurment: None,
    }
}

#[test]
fn gyro_weight_is_speed_adaptive() {
    // 0.98 at rest, falling linearly toward 0.80 below 10 km/h, 1.0 from
    // 10 km/h up
    assert_eq!(gyro_weight_exec(0), 980_000);
    assert_eq!(gyro_weight_exec(5_000_000), 890_000);
    assert_eq!(gyro_weight_exec(9_999_999), 800_000);
    assert_eq!(gyro_weight_exec(10_000_000), 1_000_000);
    assert_eq!(gyro_weight_exec(u64::MAX), 1_000_000);
}

#[test]
fn one_filter_step_at_rest() {
    // zero rates, zero speed: the new angle is 0.98 old + 0.02 accel
    let mut imu = resting_imu([10_000_000, -5_000_000, 1_234_567]);
    imu.fuse(0, 0, [0, 0, 0], 10_000);
    assert_eq!(imu.angles[0], 9_800_000);
    assert_eq!(imu.angles[1], -4_900_000);
    // yaw is pure gyro integration: unchanged at zero rate
    assert_eq!(imu.angles[2], 1_234_567);
}

#[test]
fn filter_converges_on_the_accelerometer_estimate() {
    let mut imu = resting_imu([10_000_000, -5_000_000, 0]);
    for _ in 0..2000 {
        imu.fuse(0, 0, [0, 0, 0], 10_000);
    }
    assert_eq!(imu.angles[0], 0);
    assert_eq!(imu.angles[1], 0);
}

#[test]
fn filter_converges_on_a_nonzero_accelerometer_estimate() {
    let mut imu = resting_imu([0, 0, 0]);
    for _ in 0..2000 {
        imu.fuse(3_000_000, -2_000_000, [0, 0, 0], 10_000);
    }
    // the 2% accelerometer share moves the angle in 1/50 steps, so the
    // truncated blend can stall up to 50 micro-degrees short of the estimate
    assert!((imu.angles[0] - 3_000_000).abs() <= 50);
    assert!((imu.angles[1] + 2_000_000).abs() <= 50);
}

#[test]
fn gyro_integration_advances_the_angles() {
    let mut imu = resting_imu([0, 0, 0]);
    // above 10 km/h the filter trusts the gyro alone
    imu.speed = 20_000_000;
    // 90 deg/s for 100 ms: +9 degrees pitch, -9 degrees roll (mirrored axis),
    // +9 degrees yaw
    imu.fuse(0, 0, [90_000_000, 90_000_000, 90_000_000], 100_000);
    assert_eq!(imu.angles[0], 9_000_000);
    assert_eq!(imu.angles[1], -9_000_000);
    assert_eq!(imu.angles[2], 9_000_000);
}

#[test]
fn exposed_angles_are_negated() {
    let imu = resting_imu([1_000, -2_000, 3_000]);
    let d = imu.read_values();
    assert_eq!(d.ax, -1_000);
    assert_eq!(d.ay, 2_000);
    assert_eq!(d.az, -3_000);
    assert_eq!(d.status, 0);
}

#[test]
fn calibration_averages_the_samples() {
    let mut imu = resting_imu([0, 0, 0]);
    let gyro_samples = vec![[10i16, -10, 0], [20, -20, 1]];
    let accel_samples = vec![[100i16, 0, 0], [300, 0, 2]];
    imu.calibration_imu(&gyro_samples, &accel_samples);
    assert_eq!(imu.gyro_cal, [15_000_000, -15_000_000, 500_000]);
    assert_eq!(imu.accel_cal, [200_000_000, 0, 1_000_000]);
}

#[test]
fn scaling_subtracts_the_bias_and_divides_by_the_sensitivity() {
    let mut imu = resting_imu([0, 0, 0]);
    imu.gyro_cal = [500_000, 0, 0];
    // gyro: (131.5 - 0.5) LSB at 131 LSB/(deg/s) is exactly 1 deg/s
    assert_eq!(imu.scale_gyro(131, imu.gyro_cal[0]), 996_183);
    assert_eq!(imu.scale_gyro(131, 0), 1_000_000);
    // accel: 16384 LSB at 16384 LSB/g is exactly 1 g
    assert_eq!(imu.scale_accel(16_384, 0), 1_000_000);
    assert_eq!(imu.scale_accel(-8_192, 0), -500_000);
}

#[test]
fn empty_reading_is_marked_absent() {
    let d = IMU::empty();
    assert_eq!(d.status, 0xFF);
    assert_eq!(d.ax, 0);
    assert_eq!(d.temp, 0);
}
