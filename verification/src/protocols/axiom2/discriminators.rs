//! The discriminator of the second Axiom trading program.

use vstd::prelude::*;

verus! {

/// The first byte of the buy instruction.
pub const AXIOM_2_PUMPSWAP_BUY_IX: [u8; 1] = [0];

} // verus!
