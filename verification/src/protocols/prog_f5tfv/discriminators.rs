//! The discriminator of program F5tfv.

use vstd::prelude::*;

verus! {

/// The first byte of the buy instruction.
pub const PROGF5TFV_PUMPFUN_BUY_IX: [u8; 1] = [0];

} // verus!
