use sensehat::settings::{
    AccelFullScaleRange, AccelLowPassFilter, AccelSampleRate, CompassFullScaleRange,
    CompassSampleRate, GyroBandwidth, GyroFullScaleRange, GyroHighPassFilter, GyroSampleRate,
    Settings,
};

#[test]
fn each_setting_has_its_default() {
    assert_eq!(GyroSampleRate::default(), GyroSampleRate::Hz_119);
    assert_eq!(GyroBandwidth::default(), GyroBandwidth::Bw1);
    assert_eq!(GyroFullScaleRange::default(), GyroFullScaleRange::Dps500);
    assert_eq!(GyroHighPassFilter::default(), GyroHighPassFilter::Hpf4);
    assert_eq!(AccelSampleRate::default(), AccelSampleRate::Hz_119);
    assert_eq!(AccelFullScaleRange::default(), AccelFullScaleRange::G8);
    assert_eq!(AccelLowPassFilter::default(), AccelLowPassFilter::Hz_50);
    assert_eq!(CompassSampleRate::default(), CompassSampleRate::Hz_20);
    assert_eq!(CompassFullScaleRange::default(), CompassFullScaleRange::uT_4);
}

#[test]
fn default_settings_hold_the_defaults() {
    let s = Settings::default();
    assert_eq!(s.gyro_sample_rate, GyroSampleRate::Hz_119);
    assert_eq!(s.gyro_bandwidth, GyroBandwidth::Bw1);
    assert_eq!(s.gyro_fsr, GyroFullScaleRange::Dps500);
    assert_eq!(s.gyro_hpf, GyroHighPassFilter::Hpf4);
    assert_eq!(s.accel_sample_rate, AccelSampleRate::Hz_119);
    assert_eq!(s.accel_fsr, AccelFullScaleRange::G8);
    assert_eq!(s.accel_lpf, AccelLowPassFilter::Hz_50);
    assert_eq!(s.compass_sample_rate, CompassSampleRate::Hz_20);
    assert_eq!(s.compass_fsr, CompassFullScaleRange::uT_4);
}
