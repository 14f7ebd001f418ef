//! The discriminator of the first Axiom trading program.

use vstd::prelude::*;

verus! {

/// The first byte of the buy instruction.
pub const AXIOM_PUMPFUN_BUY_IX: [u8; 1] = [0];

} // verus!
