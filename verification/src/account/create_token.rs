use vstd::prelude::*;
use crate::address::Address;
use crate::state::bonding_curve::BondingCurve;
use crate::state::config::GlobalConfig;

verus! {

/// The accounts of a token launch.
#[derive(Clone, Copy, Debug, PartialEq, Eq)]
pub struct CreateToken {
    pub creator: Address,
    pub global_config: GlobalConfig,
    /// The account that is to receive the creation fee.
    pub treasury: Address,
    pub token_mint: Address,
    /// The record of the new curve; what it holds before the launch is overwritten.
    pub bonding_curve: BondingCurve,
    /// The bump seed of the curve's address.
    pub bonding_curve_bump: u8,
    /// The account that is to hold the token's metadata.
    pub metadata_account: Address,
}

} // verus!
