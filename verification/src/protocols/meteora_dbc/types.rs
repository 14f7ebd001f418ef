//! The plain types of the dynamic bonding curve program.

use vstd::prelude::*;
use crate::wire::read_u8;

verus! {

/// Which way a swap goes, seen from the base token.
#[derive(Copy, Clone, Debug, PartialEq, Eq, Structural, Hash)]
pub enum TradeDirection {
    Sell,
    Buy,
}

impl TradeDirection {
    /// The direction that a variant byte stands for: 0 is a sell, 1 a buy.
    pub open spec fn of_byte(b: u8) -> TradeDirection {
        if b == 1 {
            TradeDirection::Buy
        } else {
            TradeDirection::Sell
        }
    }
}

impl Default for TradeDirection {
    fn default() -> (d: TradeDirection)
        ensures
            d == TradeDirection::Sell,
    {
        TradeDirection::Sell
    }
}

/// Reads one byte as a direction; a byte above 1 is refused.
pub fn read_direction(data: &[u8], at: usize) -> (r: Option<TradeDirection>)
    ensures
        r.is_some() == (0 <= at < data@.len() && data@[at as int] <= 1),
        r matches Some(d) ==> d == TradeDirection::of_byte(data@[at as int]),
{
    match read_u8(data, at) {
        Some(b) => {
            if b == 0 {
                Some(TradeDirection::Sell)
            } else if b == 1 {
                Some(TradeDirection::Buy)
            } else {
                None
            }
        },
        None => None,
    }
}

/// How the two amounts of a swap are to be read.
#[derive(Copy, Clone, Debug, PartialEq, Eq, Structural, Hash)]
pub enum SwapMode {
    ExactIn,
    PartialFill,
    ExactOut,
}

impl Default for SwapMode {
    fn default() -> (m: SwapMode)
        ensures
            m == SwapMode::ExactIn,
    {
        SwapMode::ExactIn
    }
}

/// The arguments of the second form of the swap instruction.
#[derive(Copy, Clone, Debug, PartialEq, Eq, Structural)]
pub struct SwapParameters2 {
    pub amount_0: u64,
    pub amount_1: u64,
    pub swap_mode: SwapMode,
}

} // verus!
