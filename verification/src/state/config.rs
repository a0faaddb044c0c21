use vstd::prelude::*;
use crate::address::Address;

verus! {

/// Virtual base reserve of a new curve: 1000 SOL, in lamports.
pub const INITIAL_VIRTUAL_SOL_RESERVES: u64 = 1_000_000_000_000;

/// Virtual token reserve of a new curve: one billion tokens of six decimals.
pub const INITIAL_VIRTUAL_TOKEN_RESERVES: u64 = 1_000_000_000_000_000;

/// Real token reserve of a new curve: eight hundred million tokens of six decimals. This is
/// what the curve has for sale; the virtual reserve that prices it is seeded above it.
pub const REAL_TOKEN_RESERVES: u64 = 800_000_000_000_000;

/// Tokens minted into a new curve's custody: what its ledger counts as its real token reserve.
pub const TOKEN_TOTAL_SUPPLY: u64 = 800_000_000_000_000;

pub const TOKEN_DECIMALS: u8 = 6;

pub const DEFAULT_BUY_FEE_BPS: u16 = 100;

pub const DEFAULT_SELL_FEE_BPS: u16 = 100;

pub const DEFAULT_CREATION_FEE: u64 = 20_000_000;

pub const DEFAULT_GRADUATION_THRESHOLD: u64 = 85_000_000_000;

/// The highest buy fee that a configuration may set: ten percent.
pub const MAX_BUY_FEE_BPS: u16 = 1000;

/// The highest sell fee that a configuration may set: ten percent.
pub const MAX_SELL_FEE_BPS: u16 = 1000;

/// The highest creation fee that a configuration may set, in lamports.
pub const MAX_CREATION_FEE: u64 = 100_000_000;

/// The launchpad's one configuration record: the fee schedule, the treasury, the graduation
/// threshold, and the running totals.
#[derive(Clone, Copy, Debug, PartialEq, Eq)]
pub struct GlobalConfig {
    pub authority: Address,
    pub treasury: Address,
    pub buy_fee_bps: u16,
    pub sell_fee_bps: u16,
    pub creation_fee: u64,
    pub graduation_threshold: u64,
    pub total_tokens_created: u64,
    /// Base moved through the curves: what each buy paid in after its fee, and what each sell
    /// paid out.
    pub total_volume_sol: u128,
    pub paused: bool,
    pub bump: u8,
}

impl GlobalConfig {
    /// The fee settings lie within their maxima and the treasury is a real address.
    pub open spec fn wf(self) -> bool {
        &&& !crate::address::all_zero(self.treasury@)
        &&& self.buy_fee_bps <= MAX_BUY_FEE_BPS
        &&& self.sell_fee_bps <= MAX_SELL_FEE_BPS
        &&& self.creation_fee <= MAX_CREATION_FEE
    }
}

/// The three fee settings of a configuration.
#[derive(Clone, Copy, Debug, PartialEq, Eq, Structural)]
pub struct FeeSchedule {
    pub buy_fee_bps: u16,
    pub sell_fee_bps: u16,
    pub creation_fee: u64,
}

impl FeeSchedule {
    /// Every setting lies within its maximum.
    pub open spec fn within_bounds(self) -> bool {
        &&& self.buy_fee_bps <= MAX_BUY_FEE_BPS
        &&& self.sell_fee_bps <= MAX_SELL_FEE_BPS
        &&& self.creation_fee <= MAX_CREATION_FEE
    }

    /// The schedule of a launchpad that sets none: one percent each way and the default
    /// creation fee.
    pub open spec fn standard() -> FeeSchedule {
        FeeSchedule {
            buy_fee_bps: DEFAULT_BUY_FEE_BPS,
            sell_fee_bps: DEFAULT_SELL_FEE_BPS,
            creation_fee: DEFAULT_CREATION_FEE,
        }
    }
}

impl Default for FeeSchedule {
    fn default() -> (fees: FeeSchedule)
        ensures
            fees == FeeSchedule::standard(),
            fees.within_bounds(),
    {
        FeeSchedule {
            buy_fee_bps: DEFAULT_BUY_FEE_BPS,
            sell_fee_bps: DEFAULT_SELL_FEE_BPS,
            creation_fee: DEFAULT_CREATION_FEE,
        }
    }
}

} // verus!
