//! Distance classification: how far the current location is from home.
//! Only the tag (near / mid / far) drives enemy-selection weights; the
//! carried magnitude is informational.

use vstd::prelude::*;

verus! {

/// How far from home the player stands. The payload is the measured
/// distance itself; the selection weights look only at the variant.
#[derive(Clone, Copy, Debug, PartialEq, Eq, Structural)]
pub enum Distance {
    Near(u32),
    Mid(u32),
    Far(u32),
}

} // verus!
