//! The brightness (gamma) protocol of the LED matrix: a table of 32 levels,
//! each from 0 to 31, read, written or reset through control calls on the
//! frame buffer device.
//!
//! The library decides which control call to make; the caller makes it.

use crate::error::{SenseHatError, SenseHatResult};
use vstd::prelude::*;

verus! {

/// The request code of the control call that reads the gamma table.
pub const SENSE_HAT_FBIOGET_GAMMA: u64 = 61696;

/// The request code of the control call that writes the gamma table.
pub const SENSE_HAT_FBIOSET_GAMMA: u64 = 61697;

/// The request code of the control call that installs a preset table.
pub const SENSE_HAT_FBIORESET_GAMMA: u64 = 61698;

/// The argument that selects the hardware's default table.
pub const SENSE_HAT_GAMMA_DEFAULT: u64 = 0;

/// The argument that selects the low-light table.
pub const SENSE_HAT_GAMMA_LOW: u64 = 1;

/// A table that the device holds ready.
#[derive(Debug, Clone, Copy, PartialEq, Eq, Structural)]
pub enum GammaPreset {
    /// The hardware's default curve.
    Default,
    /// The dim curve for dark surroundings.
    Low,
}

/// A control call on the device.
#[derive(Debug, Clone, Copy, PartialEq, Eq)]
pub enum GammaRequest {
    /// Read the table: the device fills a buffer of 32 bytes.
    Read,
    /// Write the table given.
    Write([u8; 32]),
    /// Install a preset.
    Reset(GammaPreset),
}

/// The low-light table.
pub open spec fn low_light_curve() -> Seq<u8> {
    seq![
        0u8, 1u8, 1u8, 1u8, 1u8, 1u8, 1u8, 1u8,
        1u8, 1u8, 1u8, 1u8, 1u8, 2u8, 2u8, 2u8,
        3u8, 3u8, 3u8, 4u8, 4u8, 5u8, 5u8, 6u8,
        6u8, 7u8, 7u8, 8u8, 8u8, 9u8, 10u8, 10u8,
    ]
}

/// Whether every entry of a table is a level the device takes: at most 31.
pub open spec fn valid_gamma(table: Seq<u8>) -> bool {
    forall|i: int| 0 <= i < table.len() ==> #[trigger] table[i] <= 31
}

/// What writing a table comes to: the write request for a valid table, a
/// refusal for any other.
pub open spec fn set_gamma_outcome(table: [u8; 32]) -> SenseHatResult<GammaRequest> {
    if valid_gamma(table@) {
        Ok(GammaRequest::Write(table))
    } else {
        Err(SenseHatError::InvalidGamma)
    }
}

/// The request that switches low-light mode on or off.
pub open spec fn low_light_request(set_low: bool) -> GammaRequest {
    GammaRequest::Reset(
        if set_low {
            GammaPreset::Low
        } else {
            GammaPreset::Default
        },
    )
}

/// The table a device holds after a request, where it held `before` and its
/// hardware default is `factory`.
pub open spec fn curve_after(before: Seq<u8>, factory: Seq<u8>, request: GammaRequest) -> Seq<u8> {
    match request {
        GammaRequest::Read => before,
        GammaRequest::Write(table) => table@,
        GammaRequest::Reset(GammaPreset::Default) => factory,
        GammaRequest::Reset(GammaPreset::Low) => low_light_curve(),
    }
}

/// The table a device holds after the outcome of an operation was carried
/// out: a request is sent, a refusal sends nothing.
pub open spec fn curve_after_outcome(
    before: Seq<u8>,
    factory: Seq<u8>,
    outcome: SenseHatResult<GammaRequest>,
) -> Seq<u8> {
    match outcome {
        Ok(request) => curve_after(before, factory, request),
        Err(_) => before,
    }
}

impl GammaPreset {
    /// The argument of the reset call that selects this preset.
    pub fn selector(self) -> (arg: u64)
        ensures
            arg == match self {
                GammaPreset::Default => SENSE_HAT_GAMMA_DEFAULT,
                GammaPreset::Low => SENSE_HAT_GAMMA_LOW,
            },
    {
        match self {
            GammaPreset::Default => SENSE_HAT_GAMMA_DEFAULT,
            GammaPreset::Low => SENSE_HAT_GAMMA_LOW,
        }
    }
}

impl GammaRequest {
    /// The request code of the control call.
    pub fn code(&self) -> (code: u64)
        ensures
            code == match *self {
                GammaRequest::Read => SENSE_HAT_FBIOGET_GAMMA,
                GammaRequest::Write(_) => SENSE_HAT_FBIOSET_GAMMA,
                GammaRequest::Reset(_) => SENSE_HAT_FBIORESET_GAMMA,
            },
    {
        match self {
            GammaRequest::Read => SENSE_HAT_FBIOGET_GAMMA,
            GammaRequest::Write(_) => SENSE_HAT_FBIOSET_GAMMA,
            GammaRequest::Reset(_) => SENSE_HAT_FBIORESET_GAMMA,
        }
    }
}

/// The low-light table.
pub fn low_light_table() -> (table: [u8; 32])
    ensures
        table@ == low_light_curve(),
{
    let table: [u8; 32] = [
        0, 1, 1, 1, 1, 1, 1, 1,
        1, 1, 1, 1, 1, 2, 2, 2,
        3, 3, 3, 4, 4, 5, 5, 6,
        6, 7, 7, 8, 8, 9, 10, 10,
    ];
    assert(table@ =~= low_light_curve());
    table
}

/// A table with an entry above 31 is refused, and the device keeps the
/// table it held before.
pub proof fn lemma_refused_gamma_keeps_curve(before: Seq<u8>, factory: Seq<u8>, table: [u8; 32])
    requires
        exists|i: int| 0 <= i < 32 && table@[i] > 31,
    ensures
        set_gamma_outcome(table) == Err::<GammaRequest, SenseHatError>(SenseHatError::InvalidGamma),
        curve_after_outcome(before, factory, set_gamma_outcome(table)) == before,
{
}

/// Right after low-light mode was switched on the device holds the
/// low-light table; right after it was switched off it holds the hardware
/// default, which is taken to differ from the low-light table.
pub proof fn lemma_low_light_shows(before: Seq<u8>, factory: Seq<u8>, set_low: bool)
    requires
        factory != low_light_curve(),
    ensures
        (curve_after(before, factory, low_light_request(set_low)) == low_light_curve()) == set_low,
{
}

} // verus!
