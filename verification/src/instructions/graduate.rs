use vstd::prelude::*;
use crate::account::graduate::Graduate;
use crate::address::Address;
use crate::error::PumpError;
use crate::state::bonding_curve::{BondingCurve, GraduationState};
use crate::state::graduate::GraduatedEvent;
use crate::state::pool_request::MigrationRequest;

verus! {

/// What becomes of the liquidity receipts that a graduated curve holds.
#[derive(Clone, Copy, Debug, PartialEq, Eq, Structural)]
pub enum LiquidityPolicy {
    /// They are burned, which locks the liquidity for good.
    Burn,
    /// They stay with the curve.
    Retain,
}

/// What confirming a graduation did: the event it reports and the liquidity receipts to burn.
#[derive(Clone, Copy, Debug, PartialEq, Eq)]
pub struct Confirmation {
    pub event: GraduatedEvent,
    pub burned: u64,
}

/// Why a confirmation is refused, if it is. The conditions are tested in this order, and the
/// first that holds names the error.
pub open spec fn confirm_error(ctx: Graduate) -> Option<PumpError> {
    if ctx.bonding_curve.graduated != GraduationState::Pending {
        Some(PumpError::InvalidCurveState)
    } else if ctx.request.bonding_curve != ctx.bonding_curve_key {
        Some(PumpError::ExternalAccountMismatch)
    } else {
        None
    }
}

/// The liquidity receipts that a confirmation under `policy` burns.
pub open spec fn burned_receipts(ctx: Graduate, policy: LiquidityPolicy) -> u64 {
    match policy {
        LiquidityPolicy::Burn => ctx.liquidity_receipts,
        LiquidityPolicy::Retain => 0,
    }
}

/// The accounts after a confirmation that is not refused: the curve has graduated into
/// `pool`, the request is fulfilled by it, and the receipts burned are gone.
pub open spec fn accounts_after_confirm(
    ctx: Graduate,
    pool: Address,
    policy: LiquidityPolicy,
) -> Graduate {
    Graduate {
        bonding_curve: BondingCurve {
            graduated: GraduationState::Graduated,
            pool: Some(pool),
            ..ctx.bonding_curve
        },
        request: MigrationRequest { fulfilled: true, pool: Some(pool), ..ctx.request },
        liquidity_receipts: (ctx.liquidity_receipts - burned_receipts(ctx, policy)) as u64,
        ..ctx
    }
}

/// What a confirmation that is not refused returns.
pub open spec fn confirmation_of(ctx: Graduate, pool: Address, policy: LiquidityPolicy) -> Confirmation {
    Confirmation {
        event: GraduatedEvent {
            mint: ctx.bonding_curve.token_mint,
            pool,
            authority: ctx.bonding_curve_key,
            timestamp: ctx.unix_timestamp,
        },
        burned: burned_receipts(ctx, policy),
    }
}

/// Confirms that `pool` was formed from the reserves swept out of the curve of `ctx`.
///
/// The curve must be pending, else the step fails with `InvalidCurveState`; the request must
/// be one of this curve, else it fails with `ExternalAccountMismatch`. On success the curve
/// has graduated and names the pool, the request is fulfilled, and under
/// `LiquidityPolicy::Burn` all liquidity receipts that the curve holds are to be burned. A
/// refused confirmation changes nothing.
pub fn handler(ctx: &mut Graduate, pool: Address, policy: LiquidityPolicy) -> (result: Result<
    Confirmation,
    PumpError,
>)
    ensures
        match result {
            Ok(confirmation) => {
                &&& confirm_error(*old(ctx)) is None
                &&& confirmation == confirmation_of(*old(ctx), pool, policy)
                &&& *final(ctx) == accounts_after_confirm(*old(ctx), pool, policy)
                &&& final(ctx).bonding_curve.graduated == GraduationState::Graduated
                &&& final(ctx).bonding_curve.pool == Some(pool)
            },
            Err(error) => {
                &&& confirm_error(*old(ctx)) == Some(error)
                &&& *final(ctx) == *old(ctx)
            },
        },
        old(ctx).bonding_curve.wf() ==> final(ctx).bonding_curve.wf(),
{
    match ctx.bonding_curve.graduated {
        GraduationState::Pending => {},
        _ => {
            return Err(PumpError::InvalidCurveState);
        },
    }
    if !ctx.request.bonding_curve.same(&ctx.bonding_curve_key) {
        return Err(PumpError::ExternalAccountMismatch);
    }
    let burned: u64 = match policy {
        LiquidityPolicy::Burn => ctx.liquidity_receipts,
        LiquidityPolicy::Retain => 0,
    };
    ctx.bonding_curve.graduated = GraduationState::Graduated;
    ctx.bonding_curve.pool = Some(pool);
    ctx.request.fulfilled = true;
    ctx.request.pool = Some(pool);
    ctx.liquidity_receipts = ctx.liquidity_receipts - burned;
    Ok(
        Confirmation {
            event: GraduatedEvent {
                mint: ctx.bonding_curve.token_mint,
                pool,
                authority: ctx.bonding_curve_key,
                timestamp: ctx.unix_timestamp,
            },
            burned,
        },
    )
}

} // verus!
