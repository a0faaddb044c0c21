use vstd::prelude::*;
use crate::address::Address;
use crate::state::bonding_curve::BondingCurve;
use crate::state::pool_request::MigrationRequest;

verus! {

/// The accounts of the step that confirms a graduation.
#[derive(Clone, Copy, Debug, PartialEq, Eq)]
pub struct Graduate {
    pub bonding_curve: BondingCurve,
    /// The address of the curve's own account.
    pub bonding_curve_key: Address,
    /// The request that the pool answers.
    pub request: MigrationRequest,
    /// The liquidity receipts of the pool that the curve holds.
    pub liquidity_receipts: u64,
    /// The time of the clock, in seconds.
    pub unix_timestamp: i64,
}

} // verus!
