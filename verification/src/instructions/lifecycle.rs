//! The life of a curve: active, then pending, then graduated, and never back.

use vstd::prelude::*;
use crate::account::buy_tokens::BuyTokens;
use crate::account::graduate::Graduate;
use crate::address::Address;
use crate::error::PumpError;
use crate::helpers::graduate::{accounts_after_graduation, graduation_error};
use crate::instructions::buy_tokens::{buy_error, buy_tokens_error, curve_after_buy};
use crate::instructions::graduate::{accounts_after_confirm, confirm_error, LiquidityPolicy};
use crate::instructions::sell_tokens::{curve_after_sell, sell_error};
use crate::state::bonding_curve::{BondingCurve, GraduationState};
use crate::state::config::GlobalConfig;

verus! {

/// A curve that is not active takes no trade: every buy and every sell is refused with
/// `InvalidCurveState`, whatever the amount and whatever else holds.
pub proof fn lemma_no_trade_unless_active(
    ctx: BuyTokens,
    curve: BondingCurve,
    config: GlobalConfig,
    amount: u64,
    lamports: u64,
    rent_exempt_minimum: u64,
)
    requires
        curve.graduated != GraduationState::Active,
        ctx.bonding_curve.graduated != GraduationState::Active,
    ensures
        buy_error(curve, config, amount) == Some(PumpError::InvalidCurveState),
        sell_error(curve, config, amount, lamports, rent_exempt_minimum) == Some(
            PumpError::InvalidCurveState,
        ),
        buy_tokens_error(ctx, amount) == Some(PumpError::InvalidCurveState),
{
}

/// A curve that has graduated takes no step at all: no trade, no sweep and no confirmation.
pub proof fn lemma_graduated_is_final(
    ctx: BuyTokens,
    step: Graduate,
    amount: u64,
    expected_token: Option<Seq<u8>>,
    expected_wsol: Option<Seq<u8>>,
)
    requires
        ctx.bonding_curve.graduated == GraduationState::Graduated,
        step.bonding_curve.graduated == GraduationState::Graduated,
    ensures
        buy_tokens_error(ctx, amount) == Some(PumpError::InvalidCurveState),
        graduation_error(ctx, expected_token, expected_wsol) == Some(PumpError::InvalidCurveState),
        confirm_error(step) == Some(PumpError::InvalidCurveState),
{
}

/// The steps that a curve can take, and where each leaves it: a trade leaves an active curve
/// active, a sweep leaves a curve pending, and a confirmation, which only a pending curve
/// takes, leaves it graduated.
pub proof fn lemma_steps_of_a_curve(
    ctx: BuyTokens,
    step: Graduate,
    amount: u64,
    lamports: u64,
    rent_exempt_minimum: u64,
    pool: Address,
    policy: LiquidityPolicy,
)
    ensures
        curve_after_buy(ctx.bonding_curve, ctx.global_config, amount).graduated
            == ctx.bonding_curve.graduated,
        curve_after_sell(ctx.bonding_curve, ctx.global_config, amount).graduated
            == ctx.bonding_curve.graduated,
        buy_error(ctx.bonding_curve, ctx.global_config, amount) is None
            ==> ctx.bonding_curve.graduated == GraduationState::Active,
        sell_error(ctx.bonding_curve, ctx.global_config, amount, lamports, rent_exempt_minimum)
            is None ==> ctx.bonding_curve.graduated == GraduationState::Active,
        accounts_after_graduation(ctx).bonding_curve.graduated == GraduationState::Pending,
        confirm_error(step) is None ==> step.bonding_curve.graduated == GraduationState::Pending,
        accounts_after_confirm(step, pool, policy).bonding_curve.graduated
            == GraduationState::Graduated,
        accounts_after_confirm(step, pool, policy).bonding_curve.pool == Some(pool),
{
}

} // verus!
