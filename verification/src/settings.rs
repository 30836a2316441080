//! Settings of the LSM9DS1 inertial sensor, and the value each has when
//! nothing else is chosen.

use vstd::prelude::*;

verus! {

/// The settings of the LSM9DS1 sensor.
#[derive(Debug, Clone, Copy, PartialEq, Eq, Structural)]
pub struct Settings {
    pub gyro_sample_rate: GyroSampleRate,
    pub gyro_bandwidth: GyroBandwidth,
    pub gyro_fsr: GyroFullScaleRange,
    pub gyro_hpf: GyroHighPassFilter,
    pub accel_sample_rate: AccelSampleRate,
    pub accel_fsr: AccelFullScaleRange,
    pub accel_lpf: AccelLowPassFilter,
    pub compass_sample_rate: CompassSampleRate,
    pub compass_fsr: CompassFullScaleRange,
}

/// Sample rate of the gyroscope, in Hz.
#[allow(non_camel_case_types)]
#[derive(Debug, Clone, Copy, PartialEq, Eq, Structural)]
pub enum GyroSampleRate {
    Hz_14_9,
    Hz_59_5,
    Hz_119,
    Hz_238,
    Hz_476,
    Hz_952,
}

/// Bandwidth of the gyroscope: one of the four settings of the LSM9DS1.
#[allow(non_camel_case_types)]
#[derive(Debug, Clone, Copy, PartialEq, Eq, Structural)]
pub enum GyroBandwidth {
    Bw0,
    Bw1,
    Bw2,
    Bw3,
}

/// Full-scale range of the gyroscope, in degrees per second.
#[allow(non_camel_case_types)]
#[derive(Debug, Clone, Copy, PartialEq, Eq, Structural)]
pub enum GyroFullScaleRange {
    Dps250,
    Dps500,
    Dps2000,
}

/// High-pass filter of the gyroscope: one of the ten settings of the LSM9DS1.
#[allow(non_camel_case_types)]
#[derive(Debug, Clone, Copy, PartialEq, Eq, Structural)]
pub enum GyroHighPassFilter {
    Hpf0,
    Hpf1,
    Hpf2,
    Hpf3,
    Hpf4,
    Hpf5,
    Hpf6,
    Hpf7,
    Hpf8,
    Hpf9,
}

/// Sample rate of the accelerometer, in Hz.
#[allow(non_camel_case_types)]
#[derive(Debug, Clone, Copy, PartialEq, Eq, Structural)]
pub enum AccelSampleRate {
    Hz_14_9,
    Hz_59_5,
    Hz_119,
    Hz_238,
    Hz_476,
    Hz_952,
}

/// Full-scale range of the accelerometer, in g.
#[allow(non_camel_case_types)]
#[derive(Debug, Clone, Copy, PartialEq, Eq, Structural)]
pub enum AccelFullScaleRange {
    G4,
    G8,
    G12,
    G16,
}

/// Low-pass filter of the accelerometer, in Hz.
#[allow(non_camel_case_types)]
#[derive(Debug, Clone, Copy, PartialEq, Eq, Structural)]
pub enum AccelLowPassFilter {
    Hz_408,
    Hz_211,
    Hz_105,
    Hz_50,
}

/// Sample rate of the compass, in Hz.
#[allow(non_camel_case_types)]
#[derive(Debug, Clone, Copy, PartialEq, Eq, Structural)]
pub enum CompassSampleRate {
    Hz_0_625,
    Hz_1_25,
    Hz_2_5,
    Hz_5,
    Hz_10,
    Hz_20,
    Hz_40,
    Hz_80,
}

/// Full-scale range of the compass, in hundreds of microtesla.
#[allow(non_camel_case_types)]
#[derive(Debug, Clone, Copy, PartialEq, Eq, Structural)]
pub enum CompassFullScaleRange {
    uT_4,
    uT_8,
    uT_12,
    uT_16,
}

impl Default for GyroSampleRate {
    fn default() -> (d: Self)
        ensures
            d == GyroSampleRate::Hz_119,
    {
        GyroSampleRate::Hz_119
    }
}

impl Default for GyroBandwidth {
    fn default() -> (d: Self)
        ensures
            d == GyroBandwidth::Bw1,
    {
        GyroBandwidth::Bw1
    }
}

impl Default for GyroFullScaleRange {
    fn default() -> (d: Self)
        ensures
            d == GyroFullScaleRange::Dps500,
    {
        GyroFullScaleRange::Dps500
    }
}

impl Default for GyroHighPassFilter {
    fn default() -> (d: Self)
        ensures
            d == GyroHighPassFilter::Hpf4,
    {
        GyroHighPassFilter::Hpf4
    }
}

impl Default for AccelSampleRate {
    fn default() -> (d: Self)
        ensures
            d == AccelSampleRate::Hz_119,
    {
        AccelSampleRate::Hz_119
    }
}

impl Default for AccelFullScaleRange {
    fn default() -> (d: Self)
        ensures
            d == AccelFullScaleRange::G8,
    {
        AccelFullScaleRange::G8
    }
}

impl Default for AccelLowPassFilter {
    fn default() -> (d: Self)
        ensures
            d == AccelLowPassFilter::Hz_50,
    {
        AccelLowPassFilter::Hz_50
    }
}

impl Default for CompassSampleRate {
    fn default() -> (d: Self)
        ensures
            d == CompassSampleRate::Hz_20,
    {
        CompassSampleRate::Hz_20
    }
}

impl Default for CompassFullScaleRange {
    fn default() -> (d: Self)
        ensures
            d == CompassFullScaleRange::uT_4,
    {
        CompassFullScaleRange::uT_4
    }
}

impl Default for Settings {
    /// Every setting at its default.
    fn default() -> (s: Self)
        ensures
            s.gyro_sample_rate == GyroSampleRate::Hz_119,
            s.gyro_bandwidth == GyroBandwidth::Bw1,
            s.gyro_fsr == GyroFullScaleRange::Dps500,
            s.gyro_hpf == GyroHighPassFilter::Hpf4,
            s.accel_sample_rate == AccelSampleRate::Hz_119,
            s.accel_fsr == AccelFullScaleRange::G8,
            s.accel_lpf == AccelLowPassFilter::Hz_50,
            s.compass_sample_rate == CompassSampleRate::Hz_20,
            s.compass_fsr == CompassFullScaleRange::uT_4,
    {
        Settings {
            gyro_sample_rate: GyroSampleRate::default(),
            gyro_bandwidth: GyroBandwidth::default(),
            gyro_fsr: GyroFullScaleRange::default(),
            gyro_hpf: GyroHighPassFilter::default(),
            accel_sample_rate: AccelSampleRate::default(),
            accel_fsr: AccelFullScaleRange::default(),
            accel_lpf: AccelLowPassFilter::default(),
            compass_sample_rate: CompassSampleRate::default(),
            compass_fsr: CompassFullScaleRange::default(),
        }
    }
}

} // verus!
