//! The discriminators of the dynamic market maker program.

use vstd::prelude::*;

verus! {

/// The hexadecimal prefix of the log record of a swap.
pub const TRADE_EVENT: &'static str = "0xe445a52e51cb9a1d1b3c15d58aaabb93";

/// The first bytes of the swap instruction.
pub const SWAP: [u8; 8] = [248, 198, 158, 145, 225, 117, 135, 200];

} // verus!
