use vstd::prelude::*;
use crate::account::sell_tokens::SellTokens;
use crate::error::PumpError;
use crate::math::{
    apply_fee, calculate_sol_out, fee_of, lemma_fee_bounds, lemma_sell_bounds, sol_out,
};
use crate::state::bonding_curve::{backed, spendable, spendable_lamports, BondingCurve, GraduationState};
use crate::state::config::GlobalConfig;
use crate::state::trade::{TradeDirection, TradeEvent};

verus! {

/// What of the tokens offered enters the curve: the offer less the sell fee.
pub open spec fn sell_net(config: GlobalConfig, tokens_in: u64) -> int {
    tokens_in - fee_of(tokens_in as int, config.sell_fee_bps as int)
}

/// The base that an offer of tokens earns: the price of what is left of it after the fee, at
/// the curve's virtual reserves.
pub open spec fn sell_sol_out(curve: BondingCurve, config: GlobalConfig, tokens_in: u64) -> int {
    sol_out(
        sell_net(config, tokens_in),
        curve.virtual_sol_reserves as int,
        curve.virtual_token_reserves as int,
    )
}

/// Why a sell is refused, if it is. The conditions are tested in this order, and the first
/// that holds names the error.
pub open spec fn sell_error(
    curve: BondingCurve,
    config: GlobalConfig,
    tokens_in: u64,
    lamports: u64,
    rent_exempt_minimum: u64,
) -> Option<PumpError> {
    let net = sell_net(config, tokens_in);
    let earned = sell_sol_out(curve, config, tokens_in);
    if curve.graduated != GraduationState::Active {
        Some(PumpError::InvalidCurveState)
    } else if tokens_in == 0 {
        Some(PumpError::InvalidAmount)
    } else if net < 0 {
        Some(PumpError::ArithmeticOverflow)
    } else if curve.virtual_sol_reserves == 0 || curve.virtual_token_reserves == 0 {
        Some(PumpError::InvalidCurveState)
    } else if earned > curve.real_sol_reserves || earned > spendable(lamports, rent_exempt_minimum) {
        Some(PumpError::InsufficientSol)
    } else if curve.virtual_token_reserves + net > u64::MAX || curve.real_token_reserves + net
        > u64::MAX || config.total_volume_sol + earned > u128::MAX {
        Some(PumpError::ArithmeticOverflow)
    } else {
        None
    }
}

/// The curve after a sell that is not refused: the net tokens are added to both token reserves
/// and the base earned is taken from both base reserves.
pub open spec fn curve_after_sell(
    curve: BondingCurve,
    config: GlobalConfig,
    tokens_in: u64,
) -> BondingCurve {
    let net = sell_net(config, tokens_in);
    let earned = sell_sol_out(curve, config, tokens_in);
    BondingCurve {
        virtual_sol_reserves: (curve.virtual_sol_reserves - earned) as u64,
        virtual_token_reserves: (curve.virtual_token_reserves + net) as u64,
        real_sol_reserves: (curve.real_sol_reserves - earned) as u64,
        real_token_reserves: (curve.real_token_reserves + net) as u64,
        ..curve
    }
}

/// The configuration after a sell that is not refused: the base earned is added to the volume.
pub open spec fn config_after_sell(
    curve: BondingCurve,
    config: GlobalConfig,
    tokens_in: u64,
) -> GlobalConfig {
    GlobalConfig {
        total_volume_sol: (config.total_volume_sol + sell_sol_out(curve, config, tokens_in)) as u128,
        ..config
    }
}

/// What a sell that is not refused reports.
pub open spec fn sell_event(curve: BondingCurve, config: GlobalConfig, tokens_in: u64) -> TradeEvent {
    let after = curve_after_sell(curve, config, tokens_in);
    TradeEvent {
        direction: TradeDirection::Sell,
        gross: tokens_in,
        fee: fee_of(tokens_in as int, config.sell_fee_bps as int) as u64,
        net: sell_net(config, tokens_in) as u64,
        amount_out: sell_sol_out(curve, config, tokens_in) as u64,
        virtual_sol_reserves: after.virtual_sol_reserves,
        virtual_token_reserves: after.virtual_token_reserves,
        real_sol_reserves: after.real_sol_reserves,
        real_token_reserves: after.real_token_reserves,
    }
}

/// Sells `tokens_in` tokens to an active curve whose account holds `lamports`.
///
/// The sell fee is taken from the tokens first; what is left is priced at the virtual reserves
/// and enters the curve. The base earned must be covered both by the ledger's real base
/// reserve and by what the account holds above `rent_exempt_minimum`: nothing is paid in part.
/// On success the ledger and the volume are those of `curve_after_sell` and
/// `config_after_sell`, and the event says what to move: `net` tokens into the curve, `fee`
/// tokens to the treasury, `amount_out` base to the seller. The sell is refused exactly as
/// `sell_error` says, and a refused sell changes nothing.
pub fn execute_sell(
    curve: &mut BondingCurve,
    config: &mut GlobalConfig,
    tokens_in: u64,
    lamports: u64,
    rent_exempt_minimum: u64,
) -> (result: Result<TradeEvent, PumpError>)
    ensures
        match result {
            Ok(trade) => {
                &&& sell_error(*old(curve), *old(config), tokens_in, lamports, rent_exempt_minimum)
                    is None
                &&& trade == sell_event(*old(curve), *old(config), tokens_in)
                &&& trade.fee == fee_of(tokens_in as int, old(config).sell_fee_bps as int)
                &&& trade.net == sell_net(*old(config), tokens_in)
                &&& trade.amount_out == sell_sol_out(*old(curve), *old(config), tokens_in)
                &&& *final(curve) == curve_after_sell(*old(curve), *old(config), tokens_in)
                &&& *final(config) == config_after_sell(*old(curve), *old(config), tokens_in)
            },
            Err(error) => {
                &&& sell_error(*old(curve), *old(config), tokens_in, lamports, rent_exempt_minimum)
                    == Some(error)
                &&& *final(curve) == *old(curve)
                &&& *final(config) == *old(config)
            },
        },
        old(curve).wf() ==> final(curve).wf(),
{
    match curve.graduated {
        GraduationState::Active => {},
        _ => {
            return Err(PumpError::InvalidCurveState);
        },
    }
    if tokens_in == 0 {
        return Err(PumpError::InvalidAmount);
    }
    let (net, fee): (u64, u64) = match apply_fee(tokens_in, config.sell_fee_bps) {
        Ok(parts) => parts,
        Err(error) => {
            return Err(error);
        },
    };
    let earned: u64 = match calculate_sol_out(
        net,
        curve.virtual_sol_reserves,
        curve.virtual_token_reserves,
    ) {
        Ok(amount) => amount,
        Err(error) => {
            return Err(error);
        },
    };
    if earned > curve.real_sol_reserves || earned > spendable_lamports(
        lamports,
        rent_exempt_minimum,
    ) {
        return Err(PumpError::InsufficientSol);
    }
    let virtual_token: u64 = match curve.virtual_token_reserves.checked_add(net) {
        Some(sum) => sum,
        None => {
            return Err(PumpError::ArithmeticOverflow);
        },
    };
    let real_token: u64 = match curve.real_token_reserves.checked_add(net) {
        Some(sum) => sum,
        None => {
            return Err(PumpError::ArithmeticOverflow);
        },
    };
    let volume: u128 = match config.total_volume_sol.checked_add(earned as u128) {
        Some(sum) => sum,
        None => {
            return Err(PumpError::ArithmeticOverflow);
        },
    };
    curve.virtual_sol_reserves = curve.virtual_sol_reserves - earned;
    curve.virtual_token_reserves = virtual_token;
    curve.real_sol_reserves = curve.real_sol_reserves - earned;
    curve.real_token_reserves = real_token;
    config.total_volume_sol = volume;
    Ok(
        TradeEvent {
            direction: TradeDirection::Sell,
            gross: tokens_in,
            fee,
            net,
            amount_out: earned,
            virtual_sol_reserves: curve.virtual_sol_reserves,
            virtual_token_reserves: curve.virtual_token_reserves,
            real_sol_reserves: curve.real_sol_reserves,
            real_token_reserves: curve.real_token_reserves,
        },
    )
}

/// A sell that is not refused moves the product of the virtual reserves down by less than the
/// new virtual token reserve, and never up; and it pays no more base than either base reserve
/// holds.
pub proof fn lemma_sell_moves_product(
    curve: BondingCurve,
    config: GlobalConfig,
    tokens_in: u64,
    lamports: u64,
    rent_exempt_minimum: u64,
)
    requires
        sell_error(curve, config, tokens_in, lamports, rent_exempt_minimum) is None,
    ensures
        ({
            let after = curve_after_sell(curve, config, tokens_in);
            let before = curve.virtual_sol_reserves * curve.virtual_token_reserves;
            &&& after.virtual_sol_reserves * after.virtual_token_reserves <= before
            &&& before < after.virtual_sol_reserves * after.virtual_token_reserves
                + after.virtual_token_reserves
            &&& after.virtual_token_reserves == curve.virtual_token_reserves + sell_net(
                config,
                tokens_in,
            )
            &&& after.real_token_reserves == curve.real_token_reserves + sell_net(
                config,
                tokens_in,
            )
            &&& after.virtual_sol_reserves == curve.virtual_sol_reserves - sell_sol_out(
                curve,
                config,
                tokens_in,
            )
            &&& after.real_sol_reserves == curve.real_sol_reserves - sell_sol_out(
                curve,
                config,
                tokens_in,
            )
            &&& 0 <= sell_sol_out(curve, config, tokens_in) <= curve.real_sol_reserves
            &&& sell_sol_out(curve, config, tokens_in) <= curve.virtual_sol_reserves
            &&& 0 <= sell_net(config, tokens_in) <= tokens_in
        }),
{
    lemma_fee_bounds(tokens_in as int, config.sell_fee_bps as int);
    let net = sell_net(config, tokens_in) as u64;
    lemma_sell_bounds(net, curve.virtual_sol_reserves, curve.virtual_token_reserves);
}

/// What the accounts of a sell hold after a sell that is not refused: the new ledger and
/// volume, and a native balance that is down by the base paid out.
pub open spec fn accounts_after_sell(ctx: SellTokens, tokens_in: u64) -> SellTokens {
    SellTokens {
        bonding_curve: curve_after_sell(ctx.bonding_curve, ctx.global_config, tokens_in),
        global_config: config_after_sell(ctx.bonding_curve, ctx.global_config, tokens_in),
        bonding_curve_lamports: (ctx.bonding_curve_lamports - sell_sol_out(
            ctx.bonding_curve,
            ctx.global_config,
            tokens_in,
        )) as u64,
        ..ctx
    }
}

/// Sells `tokens_in` tokens to the curve of `ctx`.
///
/// This is `execute_sell` on the curve, the configuration and the native balance of `ctx`; on
/// success the balance is down by the base paid out. The sell is refused exactly as
/// `sell_error` says, and a refused sell leaves `ctx` as it was. A curve whose base reserve
/// was backed by its account's balance stays so.
pub fn handler(ctx: &mut SellTokens, tokens_in: u64) -> (result: Result<TradeEvent, PumpError>)
    ensures
        match result {
            Ok(trade) => {
                &&& sell_error(
                    old(ctx).bonding_curve,
                    old(ctx).global_config,
                    tokens_in,
                    old(ctx).bonding_curve_lamports,
                    old(ctx).rent_exempt_minimum,
                ) is None
                &&& trade == sell_event(old(ctx).bonding_curve, old(ctx).global_config, tokens_in)
                &&& trade.fee == fee_of(
                    tokens_in as int,
                    old(ctx).global_config.sell_fee_bps as int,
                )
                &&& trade.net == sell_net(old(ctx).global_config, tokens_in)
                &&& trade.amount_out == sell_sol_out(
                    old(ctx).bonding_curve,
                    old(ctx).global_config,
                    tokens_in,
                )
                &&& *final(ctx) == accounts_after_sell(*old(ctx), tokens_in)
            },
            Err(error) => {
                &&& sell_error(
                    old(ctx).bonding_curve,
                    old(ctx).global_config,
                    tokens_in,
                    old(ctx).bonding_curve_lamports,
                    old(ctx).rent_exempt_minimum,
                ) == Some(error)
                &&& *final(ctx) == *old(ctx)
            },
        },
        old(ctx).bonding_curve.wf() ==> final(ctx).bonding_curve.wf(),
        backed(
            old(ctx).bonding_curve,
            old(ctx).bonding_curve_lamports,
            old(ctx).rent_exempt_minimum,
        ) ==> backed(
            final(ctx).bonding_curve,
            final(ctx).bonding_curve_lamports,
            final(ctx).rent_exempt_minimum,
        ),
{
    let mut curve: BondingCurve = ctx.bonding_curve;
    let mut config: GlobalConfig = ctx.global_config;
    let trade: TradeEvent = match execute_sell(
        &mut curve,
        &mut config,
        tokens_in,
        ctx.bonding_curve_lamports,
        ctx.rent_exempt_minimum,
    ) {
        Ok(trade) => trade,
        Err(error) => {
            return Err(error);
        },
    };
    ctx.bonding_curve = curve;
    ctx.global_config = config;
    ctx.bonding_curve_lamports = ctx.bonding_curve_lamports - trade.amount_out;
    Ok(trade)
}

} // verus!
