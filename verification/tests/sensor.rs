use sensehat::sensor::{
    calibration_t0, calibration_t1, check_measurement_ready, check_temperature_ready,
    humidity_init_sequence, pressure_init_sequence, raw_pressure, raw_sample,
};
use sensehat::SenseHatError;

#[test]
fn init_sequences() {
    assert_eq!(pressure_init_sequence(), [(0x20, 0xc4), (0x10, 0x05), (0x2e, 0xc0), (0x21, 0x40)]);
    assert_eq!(humidity_init_sequence(), [(0x20, 0x87), (0x10, 0x1b)]);
}

#[test]
fn temperature_is_ready_on_bit_0() {
    assert_eq!(check_temperature_ready(0), Err(SenseHatError::NotReady));
    assert_eq!(check_temperature_ready(1), Ok(()));
    assert_eq!(check_temperature_ready(2), Err(SenseHatError::NotReady));
    assert_eq!(check_temperature_ready(3), Ok(()));
    assert_eq!(check_temperature_ready(0xff), Ok(()));
    assert_eq!(check_temperature_ready(0xfe), Err(SenseHatError::NotReady));
}

#[test]
fn measurement_is_ready_on_bit_1() {
    assert_eq!(check_measurement_ready(0), Err(SenseHatError::NotReady));
    assert_eq!(check_measurement_ready(1), Err(SenseHatError::NotReady));
    assert_eq!(check_measurement_ready(2), Ok(()));
    assert_eq!(check_measurement_ready(3), Ok(()));
    assert_eq!(check_measurement_ready(0xfd), Err(SenseHatError::NotReady));
    assert_eq!(check_measurement_ready(0xff), Ok(()));
}

#[test]
fn raw_sample_is_little_endian_and_signed() {
    assert_eq!(raw_sample(0x34, 0x12), 0x1234);
    assert_eq!(raw_sample(0, 0), 0);
    assert_eq!(raw_sample(0xff, 0xff), -1);
    assert_eq!(raw_sample(0x00, 0x80), i16::MIN);
    assert_eq!(raw_sample(0xff, 0x7f), i16::MAX);
    assert_eq!(raw_sample(0x18, 0xfc), -1000);
}

#[test]
fn raw_pressure_is_twenty_four_bits() {
    assert_eq!(raw_pressure(0, 0, 0), 0);
    assert_eq!(raw_pressure(0x56, 0x34, 0x12), 0x123456);
    assert_eq!(raw_pressure(0xff, 0xff, 0xff), 0x00ff_ffff);
    // 1000 hPa is 4096000 counts.
    assert_eq!(raw_pressure(0x00, 0x80, 0x3e), 4_096_000);
}

#[test]
fn calibration_temperatures_take_two_bits_each() {
    assert_eq!(calibration_t0(0xa0, 0x00), 0xa0);
    assert_eq!(calibration_t0(0xa0, 0x03), 0x3a0);
    assert_eq!(calibration_t0(0xa0, 0xfc), 0xa0);
    assert_eq!(calibration_t0(0xa0, 0xfe), 0x2a0);
    assert_eq!(calibration_t1(0x10, 0x00), 0x10);
    assert_eq!(calibration_t1(0x10, 0x0c), 0x310);
    assert_eq!(calibration_t1(0x10, 0xf3), 0x10);
    assert_eq!(calibration_t1(0x10, 0xf7), 0x110);
}
