//! The discriminators of the Photon router.

use vstd::prelude::*;

verus! {

/// The first bytes of a buy on the bonding curve.
pub const PHOTON_PUMPFUN_BUY_IX: [u8; 8] = [82, 225, 119, 231, 78, 29, 45, 70];

/// The first bytes of a sell on the bonding curve.
pub const PHOTON_PUMPFUN_SELL_IX: [u8; 8] = [93, 88, 60, 34, 91, 18, 86, 197];

/// The first bytes of a trade on a pool.
pub const PHOTON_PUMPSWAP_TRADE_IX: [u8; 8] = [44, 119, 175, 218, 199, 77, 196, 235];

} // verus!
