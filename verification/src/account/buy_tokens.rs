use vstd::prelude::*;
use crate::account::holding::HoldingAccount;
use crate::address::Address;
use crate::state::bonding_curve::BondingCurve;
use crate::state::config::GlobalConfig;

verus! {

/// The accounts of a buy. A buy that takes the curve to its graduation threshold sweeps the
/// reserves in the same step, so the relayer's two holding accounts are here as well.
#[derive(Clone, Copy, Debug, PartialEq, Eq)]
pub struct BuyTokens {
    /// Who is to form the pool, and owns the two holding accounts.
    pub relayer: Address,
    pub global_config: GlobalConfig,
    pub bonding_curve: BondingCurve,
    /// The address of the curve's own account.
    pub bonding_curve_key: Address,
    /// The native balance of the curve's account.
    pub bonding_curve_lamports: u64,
    /// The native balance that the curve's account must keep to stay rent exempt.
    pub rent_exempt_minimum: u64,
    /// The asset that stands for wrapped base.
    pub wsol_mint: Address,
    pub relayer_wsol_account: HoldingAccount,
    pub relayer_token_account: HoldingAccount,
    /// The time of the clock, in seconds.
    pub unix_timestamp: i64,
}

} // verus!
