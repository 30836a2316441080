//! The registers of the two environmental sensors, the LPS25H barometer and
//! the HTS221 hygrometer, and the framing of what is read from them.
//!
//! The library turns register bytes into raw integer readings; scaling a
//! raw reading into a physical unit is left to the caller.

use crate::error::{SenseHatError, SenseHatResult};
use crate::wire::{read_i16_le, read_u32_le, signed, word_of};
use vstd::prelude::*;

verus! {

/// Hygrometer: the number of internal samples averaged.
pub const HTS221_AV_CONF: u8 = 0x10;

/// Hygrometer: power, update mode and output rate.
pub const HTS221_CTRL1: u8 = 0x20;

/// Hygrometer: which samples are fresh.
pub const HTS221_STATUS: u8 = 0x27;

/// Hygrometer: humidity sample, low byte.
pub const HTS221_HUMIDITY_OUT_L: u8 = 0x28;

/// Hygrometer: humidity sample, high byte.
pub const HTS221_HUMIDITY_OUT_H: u8 = 0x29;

/// Hygrometer: temperature sample, low byte.
pub const HTS221_TEMP_OUT_L: u8 = 0x2a;

/// Hygrometer: temperature sample, high byte.
pub const HTS221_TEMP_OUT_H: u8 = 0x2b;

/// Hygrometer: lower calibration humidity, in halves of a percent.
pub const HTS221_H0_H_2: u8 = 0x30;

/// Hygrometer: upper calibration humidity, in halves of a percent.
pub const HTS221_H1_H_2: u8 = 0x31;

/// Hygrometer: lower calibration temperature, low eight bits.
pub const HTS221_T0_C_8: u8 = 0x32;

/// Hygrometer: upper calibration temperature, low eight bits.
pub const HTS221_T1_C_8: u8 = 0x33;

/// Hygrometer: the high two bits of both calibration temperatures.
pub const HTS221_T1_T0: u8 = 0x35;

/// Hygrometer: the sample at the lower calibration humidity, low byte.
pub const HTS221_H0_T0_OUT: u8 = 0x36;

/// Hygrometer: the sample at the upper calibration humidity, low byte.
pub const HTS221_H1_T0_OUT: u8 = 0x3a;

/// Hygrometer: the sample at the lower calibration temperature, low byte.
pub const HTS221_T0_OUT: u8 = 0x3c;

/// Hygrometer: the sample at the upper calibration temperature, low byte.
pub const HTS221_T1_OUT: u8 = 0x3e;

/// Barometer: the number of internal samples averaged.
pub const LPS25H_RES_CONF: u8 = 0x10;

/// Barometer: power, update mode and output rate.
pub const LPS25H_CTRL_REG_1: u8 = 0x20;

/// Barometer: FIFO and reset control.
pub const LPS25H_CTRL_REG_2: u8 = 0x21;

/// Barometer: which samples are fresh.
pub const LPS25H_STATUS_REG: u8 = 0x27;

/// Barometer: pressure sample, lowest byte.
pub const LPS25H_PRESS_OUT_XL: u8 = 0x28;

/// Barometer: pressure sample, middle byte.
pub const LPS25H_PRESS_OUT_L: u8 = 0x29;

/// Barometer: pressure sample, highest byte.
pub const LPS25H_PRESS_OUT_H: u8 = 0x2a;

/// Barometer: temperature sample, low byte.
pub const LPS25H_TEMP_OUT_L: u8 = 0x2b;

/// Barometer: temperature sample, high byte.
pub const LPS25H_TEMP_OUT_H: u8 = 0x2c;

/// Barometer: FIFO mode.
pub const LPS25H_FIFO_CTRL: u8 = 0x2e;

/// The register writes that start the barometer, in order, each as
/// (register, value).
pub fn pressure_init_sequence() -> (writes: [(u8, u8); 4])
    ensures
        writes@ == seq![
            (LPS25H_CTRL_REG_1, 0xc4u8),
            (LPS25H_RES_CONF, 0x05u8),
            (LPS25H_FIFO_CTRL, 0xc0u8),
            (LPS25H_CTRL_REG_2, 0x40u8),
        ],
{
    let writes = [
        (LPS25H_CTRL_REG_1, 0xc4u8),
        (LPS25H_RES_CONF, 0x05u8),
        (LPS25H_FIFO_CTRL, 0xc0u8),
        (LPS25H_CTRL_REG_2, 0x40u8),
    ];
    assert(writes@ =~= seq![
        (LPS25H_CTRL_REG_1, 0xc4u8),
        (LPS25H_RES_CONF, 0x05u8),
        (LPS25H_FIFO_CTRL, 0xc0u8),
        (LPS25H_CTRL_REG_2, 0x40u8),
    ]);
    writes
}

/// The register writes that start the hygrometer, in order, each as
/// (register, value).
pub fn humidity_init_sequence() -> (writes: [(u8, u8); 2])
    ensures
        writes@ == seq![(HTS221_CTRL1, 0x87u8), (HTS221_AV_CONF, 0x1bu8)],
{
    let writes = [(HTS221_CTRL1, 0x87u8), (HTS221_AV_CONF, 0x1bu8)];
    assert(writes@ =~= seq![(HTS221_CTRL1, 0x87u8), (HTS221_AV_CONF, 0x1bu8)]);
    writes
}

/// Whether a status byte, of either sensor, reports a fresh temperature
/// sample: bit 0.
pub open spec fn has_temperature(status: u8) -> bool {
    status & 1 != 0
}

/// Whether a status byte reports a fresh sample of the sensor's own
/// quantity, pressure for the barometer and humidity for the hygrometer:
/// bit 1.
pub open spec fn has_measurement(status: u8) -> bool {
    status & 2 != 0
}

/// Accepts a status byte that reports a fresh temperature sample, and
/// refuses any other: the output registers are then not to be read.
pub fn check_temperature_ready(status: u8) -> (out: SenseHatResult<()>)
    ensures
        has_temperature(status) ==> out == Ok::<(), SenseHatError>(()),
        !has_temperature(status) ==> out == Err::<(), SenseHatError>(SenseHatError::NotReady),
{
    if (status & 1) != 0 {
        Ok(())
    } else {
        Err(SenseHatError::NotReady)
    }
}

/// Accepts a status byte that reports a fresh pressure or humidity sample,
/// and refuses any other: the output registers are then not to be read.
pub fn check_measurement_ready(status: u8) -> (out: SenseHatResult<()>)
    ensures
        has_measurement(status) ==> out == Ok::<(), SenseHatError>(()),
        !has_measurement(status) ==> out == Err::<(), SenseHatError>(SenseHatError::NotReady),
{
    if (status & 2) != 0 {
        Ok(())
    } else {
        Err(SenseHatError::NotReady)
    }
}

/// The signed 16-bit reading held in a pair of output registers, low
/// register first.
pub fn raw_sample(low: u8, high: u8) -> (raw: i16)
    ensures
        raw == signed(word_of(low, high)),
{
    read_i16_le(low, high)
}

/// The 24-bit pressure reading held in the three output registers of the
/// barometer, in units of 1/4096 hPa.
pub fn raw_pressure(xl: u8, l: u8, h: u8) -> (raw: u32)
    ensures
        raw == xl + 0x100 * l + 0x1_0000 * h,
{
    read_u32_le(xl, l, h, 0)
}

/// The lower calibration temperature of the hygrometer, in eighths of a
/// degree Celsius: ten bits, the low eight from `T0_C_8`, the high two from
/// bits 0 and 1 of `T1_T0`.
pub fn calibration_t0(t0_c_8: u8, t1_t0: u8) -> (eighths: i16)
    ensures
        eighths == t0_c_8 + 0x100 * (t1_t0 & 0x03),
{
    let high: u8 = t1_t0 & 0x03;
    proof {
        assert(t1_t0 & 0x03 <= 3) by (bit_vector);
        lemma_ten_bits(t0_c_8, high);
    }
    read_i16_le(t0_c_8, high)
}

/// The upper calibration temperature of the hygrometer, in eighths of a
/// degree Celsius: ten bits, the low eight from `T1_C_8`, the high two from
/// bits 2 and 3 of `T1_T0`.
pub fn calibration_t1(t1_c_8: u8, t1_t0: u8) -> (eighths: i16)
    ensures
        eighths == t1_c_8 + 0x100 * ((t1_t0 & 0x0C) >> 2),
{
    let high: u8 = (t1_t0 & 0x0C) >> 2;
    proof {
        assert((t1_t0 & 0x0C) >> 2 <= 3) by (bit_vector);
        lemma_ten_bits(t1_c_8, high);
    }
    read_i16_le(t1_c_8, high)
}

/// A word whose high byte is below 128 is its own signed reading: the low
/// byte plus 256 times the high byte.
proof fn lemma_ten_bits(low: u8, high: u8)
    requires
        high < 0x80,
    ensures
        signed(word_of(low, high)) == low + 0x100 * high,
{
    let w = word_of(low, high);
    assert(w == low + 0x100 * high && w < 0x8000) by (bit_vector)
        requires
            w == (low as u16) | ((high as u16) << 8),
            high < 0x80,
    ;
}

} // verus!
