use vstd::prelude::*;
use crate::account::buy_tokens::BuyTokens;
use crate::error::PumpError;
use crate::helpers::graduate::{
    accounts_after_graduation, expected_token_account, expected_wsol_account, graduate_internal,
    graduation_error, migration_of,
};
use crate::math::{
    apply_fee, calculate_tokens_out, fee_of, lemma_buy_bounds, lemma_fee_bounds, tokens_out,
};
use crate::state::bonding_curve::{backed, BondingCurve, GraduationState};
use crate::state::config::GlobalConfig;
use crate::state::pool_request::Migration;
use crate::state::trade::{TradeDirection, TradeEvent};

verus! {

/// What of a deposit enters the curve: the deposit less the buy fee.
pub open spec fn buy_net(config: GlobalConfig, sol_amount: u64) -> int {
    sol_amount - fee_of(sol_amount as int, config.buy_fee_bps as int)
}

/// The tokens that a deposit buys: the price of what is left of it after the fee, at the
/// curve's virtual reserves.
pub open spec fn buy_tokens_out(curve: BondingCurve, config: GlobalConfig, sol_amount: u64) -> int {
    tokens_out(
        buy_net(config, sol_amount),
        curve.virtual_sol_reserves as int,
        curve.virtual_token_reserves as int,
    )
}

/// Why a buy is refused, if it is. The conditions are tested in this order, and the first
/// that holds names the error.
pub open spec fn buy_error(curve: BondingCurve, config: GlobalConfig, sol_amount: u64) -> Option<
    PumpError,
> {
    let net = buy_net(config, sol_amount);
    if curve.graduated != GraduationState::Active {
        Some(PumpError::InvalidCurveState)
    } else if net < 0 {
        Some(PumpError::ArithmeticOverflow)
    } else if curve.virtual_sol_reserves == 0 || curve.virtual_token_reserves == 0 {
        Some(PumpError::InvalidCurveState)
    } else if buy_tokens_out(curve, config, sol_amount) > curve.real_token_reserves {
        Some(PumpError::InsufficientTokens)
    } else if curve.virtual_sol_reserves + net > u64::MAX || curve.real_sol_reserves + net
        > u64::MAX || config.total_volume_sol + net > u128::MAX {
        Some(PumpError::ArithmeticOverflow)
    } else {
        None
    }
}

/// The curve after a buy that is not refused: the net deposit is added to both base reserves
/// and the tokens bought are taken from both token reserves.
pub open spec fn curve_after_buy(
    curve: BondingCurve,
    config: GlobalConfig,
    sol_amount: u64,
) -> BondingCurve {
    let net = buy_net(config, sol_amount);
    let bought = buy_tokens_out(curve, config, sol_amount);
    BondingCurve {
        virtual_sol_reserves: (curve.virtual_sol_reserves + net) as u64,
        virtual_token_reserves: (curve.virtual_token_reserves - bought) as u64,
        real_sol_reserves: (curve.real_sol_reserves + net) as u64,
        real_token_reserves: (curve.real_token_reserves - bought) as u64,
        ..curve
    }
}

/// The configuration after a buy that is not refused: the net deposit is added to the volume.
pub open spec fn config_after_buy(config: GlobalConfig, sol_amount: u64) -> GlobalConfig {
    GlobalConfig {
        total_volume_sol: (config.total_volume_sol + buy_net(config, sol_amount)) as u128,
        ..config
    }
}

/// What a buy that is not refused reports.
pub open spec fn buy_event(curve: BondingCurve, config: GlobalConfig, sol_amount: u64) -> TradeEvent {
    let after = curve_after_buy(curve, config, sol_amount);
    TradeEvent {
        direction: TradeDirection::Buy,
        gross: sol_amount,
        fee: fee_of(sol_amount as int, config.buy_fee_bps as int) as u64,
        net: buy_net(config, sol_amount) as u64,
        amount_out: buy_tokens_out(curve, config, sol_amount) as u64,
        virtual_sol_reserves: after.virtual_sol_reserves,
        virtual_token_reserves: after.virtual_token_reserves,
        real_sol_reserves: after.real_sol_reserves,
        real_token_reserves: after.real_token_reserves,
    }
}

/// Buys tokens from an active curve for `sol_amount`.
///
/// The buy fee is taken from the deposit first; what is left is priced at the virtual reserves
/// and enters the curve. On success the ledger and the volume are those of `curve_after_buy`
/// and `config_after_buy`, and the event says what to move: `net` into the curve, `fee` to the
/// treasury, `amount_out` tokens to the buyer. The buy is refused exactly as `buy_error` says,
/// and a refused buy changes nothing.
pub fn execute_buy(curve: &mut BondingCurve, config: &mut GlobalConfig, sol_amount: u64) -> (result:
    Result<TradeEvent, PumpError>)
    ensures
        match result {
            Ok(trade) => {
                &&& buy_error(*old(curve), *old(config), sol_amount) is None
                &&& trade == buy_event(*old(curve), *old(config), sol_amount)
                &&& trade.fee == fee_of(sol_amount as int, old(config).buy_fee_bps as int)
                &&& trade.net == buy_net(*old(config), sol_amount)
                &&& trade.amount_out == buy_tokens_out(*old(curve), *old(config), sol_amount)
                &&& *final(curve) == curve_after_buy(*old(curve), *old(config), sol_amount)
                &&& *final(config) == config_after_buy(*old(config), sol_amount)
            },
            Err(error) => {
                &&& buy_error(*old(curve), *old(config), sol_amount) == Some(error)
                &&& *final(curve) == *old(curve)
                &&& *final(config) == *old(config)
            },
        },
        old(curve).wf() ==> final(curve).wf(),
{
    match curve.graduated {
        GraduationState::Active => {},
        _ => {
            return Err(PumpError::InvalidCurveState);
        },
    }
    let (net, fee): (u64, u64) = match apply_fee(sol_amount, config.buy_fee_bps) {
        Ok(parts) => parts,
        Err(error) => {
            return Err(error);
        },
    };
    let bought: u64 = match calculate_tokens_out(
        net,
        curve.virtual_sol_reserves,
        curve.virtual_token_reserves,
    ) {
        Ok(amount) => amount,
        Err(error) => {
            return Err(error);
        },
    };
    if bought > curve.real_token_reserves {
        return Err(PumpError::InsufficientTokens);
    }
    let virtual_sol: u64 = match curve.virtual_sol_reserves.checked_add(net) {
        Some(sum) => sum,
        None => {
            return Err(PumpError::ArithmeticOverflow);
        },
    };
    let real_sol: u64 = match curve.real_sol_reserves.checked_add(net) {
        Some(sum) => sum,
        None => {
            return Err(PumpError::ArithmeticOverflow);
        },
    };
    let volume: u128 = match config.total_volume_sol.checked_add(net as u128) {
        Some(sum) => sum,
        None => {
            return Err(PumpError::ArithmeticOverflow);
        },
    };
    curve.virtual_sol_reserves = virtual_sol;
    curve.virtual_token_reserves = curve.virtual_token_reserves - bought;
    curve.real_sol_reserves = real_sol;
    curve.real_token_reserves = curve.real_token_reserves - bought;
    config.total_volume_sol = volume;
    Ok(
        TradeEvent {
            direction: TradeDirection::Buy,
            gross: sol_amount,
            fee,
            net,
            amount_out: bought,
            virtual_sol_reserves: curve.virtual_sol_reserves,
            virtual_token_reserves: curve.virtual_token_reserves,
            real_sol_reserves: curve.real_sol_reserves,
            real_token_reserves: curve.real_token_reserves,
        },
    )
}

/// A buy that is not refused moves the product of the virtual reserves down by less than the
/// new virtual base reserve, and never up; and it takes no more tokens than either token
/// reserve holds.
pub proof fn lemma_buy_moves_product(curve: BondingCurve, config: GlobalConfig, sol_amount: u64)
    requires
        buy_error(curve, config, sol_amount) is None,
    ensures
        ({
            let after = curve_after_buy(curve, config, sol_amount);
            let before = curve.virtual_sol_reserves * curve.virtual_token_reserves;
            &&& after.virtual_sol_reserves * after.virtual_token_reserves <= before
            &&& before < after.virtual_sol_reserves * after.virtual_token_reserves
                + after.virtual_sol_reserves
            &&& after.virtual_sol_reserves == curve.virtual_sol_reserves + buy_net(
                config,
                sol_amount,
            )
            &&& after.real_sol_reserves == curve.real_sol_reserves + buy_net(config, sol_amount)
            &&& after.virtual_token_reserves == curve.virtual_token_reserves - buy_tokens_out(
                curve,
                config,
                sol_amount,
            )
            &&& after.real_token_reserves == curve.real_token_reserves - buy_tokens_out(
                curve,
                config,
                sol_amount,
            )
            &&& 0 <= buy_tokens_out(curve, config, sol_amount) <= curve.virtual_token_reserves
            &&& 0 <= buy_net(config, sol_amount) <= sol_amount
        }),
{
    lemma_fee_bounds(sol_amount as int, config.buy_fee_bps as int);
    let net = buy_net(config, sol_amount) as u64;
    lemma_buy_bounds(net, curve.virtual_sol_reserves, curve.virtual_token_reserves);
}

/// What a buy did: the trade, and the sweep that it set off if it took the curve to its
/// graduation threshold.
#[derive(Clone, Copy, Debug, PartialEq, Eq)]
pub struct BuyOutcome {
    pub trade: TradeEvent,
    pub migration: Option<Migration>,
}

/// The accounts after the trade of a buy, before any sweep: the new ledger and volume, and a
/// native balance that is up by the net deposit.
pub open spec fn accounts_after_trade(ctx: BuyTokens, sol_amount: u64) -> BuyTokens {
    BuyTokens {
        bonding_curve: curve_after_buy(ctx.bonding_curve, ctx.global_config, sol_amount),
        global_config: config_after_buy(ctx.global_config, sol_amount),
        bonding_curve_lamports: (ctx.bonding_curve_lamports + buy_net(
            ctx.global_config,
            sol_amount,
        )) as u64,
        ..ctx
    }
}

/// The curve's real base reserve has reached the graduation threshold.
pub open spec fn at_threshold(ctx: BuyTokens) -> bool {
    ctx.bonding_curve.real_sol_reserves >= ctx.global_config.graduation_threshold
}

/// Why a buy, with the sweep that it may set off, is refused, if it is. The conditions are
/// tested in this order, and the first that holds names the error.
pub open spec fn buy_tokens_error(ctx: BuyTokens, sol_amount: u64) -> Option<PumpError> {
    let traded = accounts_after_trade(ctx, sol_amount);
    if buy_error(ctx.bonding_curve, ctx.global_config, sol_amount) is Some {
        buy_error(ctx.bonding_curve, ctx.global_config, sol_amount)
    } else if ctx.bonding_curve_lamports + buy_net(ctx.global_config, sol_amount) > u64::MAX {
        Some(PumpError::ArithmeticOverflow)
    } else if at_threshold(traded) {
        graduation_error(traded, expected_token_account(traded), expected_wsol_account(traded))
    } else {
        None
    }
}

/// The accounts after a buy that is not refused: those after the trade, swept if the trade
/// took the curve to its threshold.
pub open spec fn accounts_after_buy(ctx: BuyTokens, sol_amount: u64) -> BuyTokens {
    let traded = accounts_after_trade(ctx, sol_amount);
    if at_threshold(traded) {
        accounts_after_graduation(traded)
    } else {
        traded
    }
}

/// What a buy under `nonce` that is not refused returns.
pub open spec fn buy_outcome(ctx: BuyTokens, sol_amount: u64, nonce: u64) -> BuyOutcome {
    let traded = accounts_after_trade(ctx, sol_amount);
    BuyOutcome {
        trade: buy_event(ctx.bonding_curve, ctx.global_config, sol_amount),
        migration: if at_threshold(traded) {
            Some(migration_of(traded, nonce))
        } else {
            None
        },
    }
}

/// Buys tokens from the curve of `ctx` for `sol_amount` and, if that takes the curve's real
/// base reserve to the graduation threshold, sweeps the reserves in the same step, under
/// `nonce`.
///
/// The trade is that of `execute_buy`, and the native balance of the curve's account is up by
/// the net deposit. The sweep is that of `graduate_internal` on the accounts after the trade;
/// it leaves the curve pending, so that the next buy is refused. The whole is refused exactly
/// as `buy_tokens_error` says; a buy whose sweep is refused is refused with it, and a refused
/// buy leaves `ctx` as it was. A curve whose base reserve was backed by its account's balance
/// stays so.
pub fn handler(ctx: &mut BuyTokens, sol_amount: u64, nonce: u64) -> (result: Result<
    BuyOutcome,
    PumpError,
>)
    ensures
        match result {
            Ok(outcome) => {
                &&& buy_tokens_error(*old(ctx), sol_amount) is None
                &&& outcome == buy_outcome(*old(ctx), sol_amount, nonce)
                &&& outcome.trade.fee == fee_of(
                    sol_amount as int,
                    old(ctx).global_config.buy_fee_bps as int,
                )
                &&& outcome.trade.net == buy_net(old(ctx).global_config, sol_amount)
                &&& outcome.trade.amount_out == buy_tokens_out(
                    old(ctx).bonding_curve,
                    old(ctx).global_config,
                    sol_amount,
                )
                &&& *final(ctx) == accounts_after_buy(*old(ctx), sol_amount)
            },
            Err(error) => {
                &&& buy_tokens_error(*old(ctx), sol_amount) == Some(error)
                &&& *final(ctx) == *old(ctx)
            },
        },
        old(ctx).bonding_curve.graduated != GraduationState::Active ==> result == Err::<
            BuyOutcome,
            PumpError,
        >(PumpError::InvalidCurveState),
        result is Ok && at_threshold(accounts_after_trade(*old(ctx), sol_amount))
            ==> final(ctx).bonding_curve.graduated == GraduationState::Pending,
        old(ctx).bonding_curve.wf() ==> final(ctx).bonding_curve.wf(),
        backed(
            old(ctx).bonding_curve,
            old(ctx).bonding_curve_lamports,
            old(ctx).rent_exempt_minimum,
        ) ==> backed(
            final(ctx).bonding_curve,
            final(ctx).bonding_curve_lamports,
            final(ctx).rent_exempt_minimum,
        ),
{
    let before: BuyTokens = *ctx;
    let mut curve: BondingCurve = ctx.bonding_curve;
    let mut config: GlobalConfig = ctx.global_config;
    let trade: TradeEvent = match execute_buy(&mut curve, &mut config, sol_amount) {
        Ok(trade) => trade,
        Err(error) => {
            return Err(error);
        },
    };
    let lamports: u64 = match ctx.bonding_curve_lamports.checked_add(trade.net) {
        Some(sum) => sum,
        None => {
            return Err(PumpError::ArithmeticOverflow);
        },
    };
    ctx.bonding_curve = curve;
    ctx.global_config = config;
    ctx.bonding_curve_lamports = lamports;
    if ctx.bonding_curve.real_sol_reserves >= ctx.global_config.graduation_threshold {
        match graduate_internal(ctx, nonce) {
            Ok(migration) => Ok(BuyOutcome { trade, migration: Some(migration) }),
            Err(error) => {
                *ctx = before;
                Err(error)
            },
        }
    } else {
        Ok(BuyOutcome { trade, migration: None })
    }
}

} // verus!
