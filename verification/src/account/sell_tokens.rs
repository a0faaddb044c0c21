use vstd::prelude::*;
use crate::state::bonding_curve::BondingCurve;
use crate::state::config::GlobalConfig;

verus! {

/// The accounts of a sell.
#[derive(Clone, Copy, Debug, PartialEq, Eq)]
pub struct SellTokens {
    pub bonding_curve: BondingCurve,
    pub global_config: GlobalConfig,
    /// The native balance of the curve's account.
    pub bonding_curve_lamports: u64,
    /// The native balance that the curve's account must keep to stay rent exempt.
    pub rent_exempt_minimum: u64,
}

} // verus!
