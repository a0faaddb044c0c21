use vstd::prelude::*;

verus! {

/// Which way a trade went.
#[derive(Clone, Copy, Debug, PartialEq, Eq, Structural)]
pub enum TradeDirection {
    /// Base in, tokens out.
    Buy,
    /// Tokens in, base out.
    Sell,
}

/// What a trade moved and the reserves it left.
///
/// `gross` is what the trader offered, `fee` the part of it that goes to the treasury, `net`
/// the rest, which enters the curve, and `amount_out` what the trader receives: tokens for a
/// buy, base for a sell.
#[derive(Clone, Copy, Debug, PartialEq, Eq, Structural)]
pub struct TradeEvent {
    pub direction: TradeDirection,
    pub gross: u64,
    pub fee: u64,
    pub net: u64,
    pub amount_out: u64,
    pub virtual_sol_reserves: u64,
    pub virtual_token_reserves: u64,
    pub real_sol_reserves: u64,
    pub real_token_reserves: u64,
}

} // verus!
