//! Telling the frame buffer of the LED matrix from the others by the
//! identification that each device reports.

use crate::error::{SenseHatError, SenseHatResult};
use vstd::prelude::*;

verus! {

/// The identification of the LED matrix: the ASCII text "RPi-Sense FB".
pub open spec fn sense_hat_id() -> Seq<u8> {
    seq![
        0x52u8, 0x50u8, 0x69u8, 0x2du8, 0x53u8, 0x65u8,
        0x6eu8, 0x73u8, 0x65u8, 0x20u8, 0x46u8, 0x42u8,
    ]
}

/// Whether an identification begins with that of the LED matrix.
pub open spec fn names_sense_hat(id: Seq<u8>) -> bool {
    id.len() >= 12 && id.subrange(0, 12) == sense_hat_id()
}

/// Whether a device's identification is that of the LED matrix.
pub fn is_sense_hat_id(id: &[u8; 16]) -> (found: bool)
    ensures
        found == names_sense_hat(id@),
{
    let name: [u8; 12] = [0x52, 0x50, 0x69, 0x2d, 0x53, 0x65, 0x6e, 0x73, 0x65, 0x20, 0x46, 0x42];
    assert(name@ =~= sense_hat_id());
    let mut i: usize = 0;
    while i < 12
        invariant
            i <= 12,
            name@ == sense_hat_id(),
            forall|j: int| 0 <= j < i ==> id@[j] == #[trigger] name@[j],
        decreases 12 - i,
    {
        if id[i] != name[i] {
            assert(id@.subrange(0, 12)[i as int] != sense_hat_id()[i as int]);
            return false;
        }
        i += 1;
    }
    assert(id@.subrange(0, 12) =~= sense_hat_id());
    true
}

/// The position of the first device, among the identifications of those
/// that could be opened, that is the LED matrix.
pub fn find_sense_hat(ids: &Vec<[u8; 16]>) -> (found: SenseHatResult<usize>)
    ensures
        match found {
            Ok(i) => i < ids@.len() && names_sense_hat(ids@[i as int]@) && forall|j: int|
                0 <= j < i ==> !names_sense_hat(#[trigger] ids@[j]@),
            Err(e) => e == SenseHatError::MissingFramebuffer && forall|j: int|
                0 <= j < ids@.len() ==> !names_sense_hat(#[trigger] ids@[j]@),
        },
{
    let mut i: usize = 0;
    while i < ids.len()
        invariant
            i <= ids@.len(),
            forall|j: int| 0 <= j < i ==> !names_sense_hat(#[trigger] ids@[j]@),
        decreases ids@.len() - i,
    {
        if is_sense_hat_id(&ids[i]) {
            return Ok(i);
        }
        i += 1;
    }
    Err(SenseHatError::MissingFramebuffer)
}

} // verus!
