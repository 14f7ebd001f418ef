//! The discriminators of the bonding curve program.

use vstd::prelude::*;

verus! {

/// The hexadecimal prefix of the log record of a creation.
pub const CREATE_TOKEN_EVENT: &'static str = "0xe445a52e51cb9a1d1b72c94ddeeb6376";

/// The hexadecimal prefix of the log record of a trade.
pub const TRADE_EVENT: &'static str = "0xe445a52e51cb9a1dbddb7fd34ee661ee";

/// The first bytes of the create instruction.
pub const CREATE_TOKEN_IX: [u8; 8] = [24, 30, 200, 40, 5, 28, 7, 119];

/// The first bytes of the buy instruction.
pub const BUY_IX: [u8; 8] = [102, 6, 61, 18, 1, 218, 235, 234];

/// The first bytes of the sell instruction.
pub const SELL_IX: [u8; 8] = [51, 230, 133, 164, 1, 127, 131, 173];

} // verus!
