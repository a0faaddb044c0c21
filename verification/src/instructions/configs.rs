use vstd::prelude::*;
use crate::account::global_config::InitializeGlobalConfig;
use crate::address::{all_zero, Address};
use crate::error::PumpError;
use crate::state::config::{
    FeeSchedule, GlobalConfig, MAX_BUY_FEE_BPS, MAX_CREATION_FEE, MAX_SELL_FEE_BPS,
};

verus! {

/// Why a configuration is refused, if it is. The conditions are tested in this order, and the
/// first that holds names the error.
pub open spec fn config_error(treasury: Address, fees: FeeSchedule) -> Option<PumpError> {
    if all_zero(treasury@) {
        Some(PumpError::InvalidTreasury)
    } else if !fees.within_bounds() {
        Some(PumpError::IncorrectValue)
    } else {
        None
    }
}

/// The configuration that a set-up writes: the given settings, no tokens created, no volume,
/// not paused.
pub open spec fn initial_config(
    ctx: InitializeGlobalConfig,
    treasury: Address,
    graduation_threshold: u64,
    fees: FeeSchedule,
) -> GlobalConfig {
    GlobalConfig {
        authority: ctx.admin,
        treasury,
        buy_fee_bps: fees.buy_fee_bps,
        sell_fee_bps: fees.sell_fee_bps,
        creation_fee: fees.creation_fee,
        graduation_threshold,
        total_tokens_created: 0,
        total_volume_sol: 0,
        paused: false,
        bump: ctx.global_config_bump,
    }
}

/// Sets up the configuration record of `ctx`.
///
/// The settings are validated before anything is written. A treasury at the all-zero address
/// fails with `InvalidTreasury`; a fee above its maximum fails with `IncorrectValue`; either
/// way the record stays as it was. Otherwise the record becomes `initial_config`, under the
/// authority of the admin, and is well formed.
pub fn handler(
    ctx: &mut InitializeGlobalConfig,
    treasury: Address,
    graduation_threshold: u64,
    fees: FeeSchedule,
) -> (result: Result<(), PumpError>)
    ensures
        match result {
            Ok(_) => {
                &&& config_error(treasury, fees) is None
                &&& final(ctx).global_config == initial_config(
                    *old(ctx),
                    treasury,
                    graduation_threshold,
                    fees,
                )
                &&& final(ctx).global_config.wf()
            },
            Err(error) => {
                &&& config_error(treasury, fees) == Some(error)
                &&& final(ctx).global_config == old(ctx).global_config
            },
        },
        final(ctx).admin == old(ctx).admin,
        final(ctx).global_config_bump == old(ctx).global_config_bump,
        fees.buy_fee_bps > MAX_BUY_FEE_BPS ==> result is Err && *final(ctx) == *old(ctx),
{
    if treasury.is_default() {
        return Err(PumpError::InvalidTreasury);
    }
    if fees.buy_fee_bps > MAX_BUY_FEE_BPS || fees.sell_fee_bps > MAX_SELL_FEE_BPS
        || fees.creation_fee > MAX_CREATION_FEE {
        return Err(PumpError::IncorrectValue);
    }
    ctx.global_config = GlobalConfig {
        authority: ctx.admin,
        treasury,
        buy_fee_bps: fees.buy_fee_bps,
        sell_fee_bps: fees.sell_fee_bps,
        creation_fee: fees.creation_fee,
        graduation_threshold,
        total_tokens_created: 0,
        total_volume_sol: 0,
        paused: false,
        bump: ctx.global_config_bump,
    };
    Ok(())
}

} // verus!
