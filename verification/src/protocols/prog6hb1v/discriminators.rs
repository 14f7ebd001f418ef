//! The discriminator of program 6HB1V.

use vstd::prelude::*;

verus! {

/// The first byte of the buy instruction.
pub const PROG6HB1V_PUMPSWAP_BUY_IX: [u8; 1] = [0];

} // verus!
