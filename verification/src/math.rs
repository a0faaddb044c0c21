//! Pricing and fee arithmetic. All of it is computed in 128 bits and rounds by truncation.

use vstd::prelude::*;
use crate::error::PumpError;

verus! {

/// One hundred percent, in basis points.
pub const BPS_DENOMINATOR: u64 = 10_000;

/// Tokens released for `sol_amount` paid into reserves `(sol_reserves, token_reserves)`: the
/// token reserve less the constant product divided, rounding down, by the grown base reserve.
pub open spec fn tokens_out(sol_amount: int, sol_reserves: int, token_reserves: int) -> int {
    token_reserves - (sol_reserves * token_reserves) / (sol_reserves + sol_amount)
}

/// Base released for `tokens_in` returned into reserves `(sol_reserves, token_reserves)`: the
/// base reserve less the constant product divided, rounding down, by the grown token reserve.
pub open spec fn sol_out(tokens_in: int, sol_reserves: int, token_reserves: int) -> int {
    sol_reserves - (sol_reserves * token_reserves) / (token_reserves + tokens_in)
}

/// The fee on `gross` at `fee_bps` basis points, rounded down.
pub open spec fn fee_of(gross: int, fee_bps: int) -> int {
    (gross * fee_bps) / (BPS_DENOMINATOR as int)
}

/// The product of two 64-bit values fits 128 bits.
proof fn lemma_product_fits(a: u64, b: u64)
    ensures
        0 <= a * b <= u128::MAX,
{
    assert(0 <= a * b <= 0xffff_ffff_ffff_ffff * 0xffff_ffff_ffff_ffff) by (nonlinear_arith)
        requires
            0 <= a <= 0xffff_ffff_ffff_ffff,
            0 <= b <= 0xffff_ffff_ffff_ffff,
    ;
}

/// Dividing `x * y` by a divisor that is at least `x` gives at most `y`, and what the division
/// drops is less than the divisor.
proof fn lemma_quotient_bounds(x: int, y: int, divisor: int)
    requires
        0 < x <= divisor,
        0 <= y,
    ensures
        0 <= (x * y) / divisor <= y,
        divisor * ((x * y) / divisor) <= x * y < divisor * ((x * y) / divisor) + divisor,
{
    let k = x * y;
    let q = k / divisor;
    assert(k == divisor * q + k % divisor && 0 <= k % divisor < divisor) by {
        vstd::arithmetic::div_mod::lemma_fundamental_div_mod(k, divisor);
        vstd::arithmetic::div_mod::lemma_mod_bound(k, divisor);
    }
    assert(0 <= q <= y) by (nonlinear_arith)
        requires
            k == divisor * q + k % divisor,
            0 <= k % divisor < divisor,
            k == x * y,
            0 < x <= divisor,
            0 <= y,
    ;
}

/// Prices a buy: the tokens that `sol_amount` takes out of the reserves.
///
/// Fails with `InvalidCurveState` exactly when a reserve is zero. With both reserves positive
/// it succeeds with `tokens_out`, which never exceeds the token reserve: no step of the
/// 128-bit computation can overflow, and the quotient cannot exceed the token reserve, so
/// neither `ArithmeticOverflow` nor `InvariantViolation` is ever returned.
pub fn calculate_tokens_out(
    sol_amount: u64,
    initial_sol_reserves: u64,
    initial_token_reserves: u64,
) -> (result: Result<u64, PumpError>)
    ensures
        initial_sol_reserves == 0 || initial_token_reserves == 0 ==> result == Err::<
            u64,
            PumpError,
        >(PumpError::InvalidCurveState),
        initial_sol_reserves > 0 && initial_token_reserves > 0 ==> {
            &&& result is Ok
            &&& result->Ok_0 == tokens_out(
                sol_amount as int,
                initial_sol_reserves as int,
                initial_token_reserves as int,
            )
            &&& result->Ok_0 <= initial_token_reserves
        },
{
    let sol_amount_u128: u128 = sol_amount as u128;
    let initial_sol_u128: u128 = initial_sol_reserves as u128;
    let initial_token_u128: u128 = initial_token_reserves as u128;

    if initial_sol_u128 == 0 || initial_token_u128 == 0 {
        return Err(PumpError::InvalidCurveState);
    }
    proof {
        lemma_product_fits(initial_sol_reserves, initial_token_reserves);
        lemma_quotient_bounds(
            initial_sol_reserves as int,
            initial_token_reserves as int,
            initial_sol_reserves + sol_amount,
        );
    }
    let k: u128 = match initial_sol_u128.checked_mul(initial_token_u128) {
        Some(product) => product,
        None => {
            return Err(PumpError::ArithmeticOverflow);
        },
    };
    let new_sol_reserves: u128 = match initial_sol_u128.checked_add(sol_amount_u128) {
        Some(sum) => sum,
        None => {
            return Err(PumpError::ArithmeticOverflow);
        },
    };
    let new_token_reserves: u128 = match k.checked_div(new_sol_reserves) {
        Some(quotient) => quotient,
        None => {
            return Err(PumpError::InvalidCurveState);
        },
    };
    if new_token_reserves > initial_token_u128 {
        return Err(PumpError::InvariantViolation);
    }
    let tokens_out_u128: u128 = initial_token_u128 - new_token_reserves;
    if tokens_out_u128 > u64::MAX as u128 {
        return Err(PumpError::ArithmeticOverflow);
    }
    Ok(tokens_out_u128 as u64)
}

/// Prices a sell: the base that `tokens_in` takes out of the reserves.
///
/// Fails with `InvalidCurveState` exactly when a reserve is zero. With both reserves positive
/// it succeeds with `sol_out`, which never exceeds the base reserve: no step of the 128-bit
/// computation can overflow, and the quotient cannot exceed the base reserve, so neither
/// `ArithmeticOverflow` nor `InvariantViolation` is ever returned.
pub fn calculate_sol_out(
    tokens_in: u64,
    initial_sol_reserves: u64,
    initial_token_reserves: u64,
) -> (result: Result<u64, PumpError>)
    ensures
        initial_sol_reserves == 0 || initial_token_reserves == 0 ==> result == Err::<
            u64,
            PumpError,
        >(PumpError::InvalidCurveState),
        initial_sol_reserves > 0 && initial_token_reserves > 0 ==> {
            &&& result is Ok
            &&& result->Ok_0 == sol_out(
                tokens_in as int,
                initial_sol_reserves as int,
                initial_token_reserves as int,
            )
            &&& result->Ok_0 <= initial_sol_reserves
        },
{
    let tokens_in_u128: u128 = tokens_in as u128;
    let initial_sol_u128: u128 = initial_sol_reserves as u128;
    let initial_token_u128: u128 = initial_token_reserves as u128;

    if initial_sol_u128 == 0 || initial_token_u128 == 0 {
        return Err(PumpError::InvalidCurveState);
    }
    proof {
        lemma_product_fits(initial_sol_reserves, initial_token_reserves);
        lemma_quotient_bounds(
            initial_token_reserves as int,
            initial_sol_reserves as int,
            initial_token_reserves + tokens_in,
        );
        assert(initial_token_reserves * initial_sol_reserves == initial_sol_reserves
            * initial_token_reserves) by (nonlinear_arith);
    }
    let k: u128 = match initial_sol_u128.checked_mul(initial_token_u128) {
        Some(product) => product,
        None => {
            return Err(PumpError::ArithmeticOverflow);
        },
    };
    let new_token_reserves: u128 = match initial_token_u128.checked_add(tokens_in_u128) {
        Some(sum) => sum,
        None => {
            return Err(PumpError::ArithmeticOverflow);
        },
    };
    let new_sol_reserves: u128 = match k.checked_div(new_token_reserves) {
        Some(quotient) => quotient,
        None => {
            return Err(PumpError::InvalidCurveState);
        },
    };
    let sol_out_u128: u128 = match initial_sol_u128.checked_sub(new_sol_reserves) {
        Some(difference) => difference,
        None => {
            return Err(PumpError::InvariantViolation);
        },
    };
    if sol_out_u128 > u64::MAX as u128 {
        return Err(PumpError::ArithmeticOverflow);
    }
    Ok(sol_out_u128 as u64)
}

/// Splits `gross_amount` into what is left after the fee and the fee, at `fee_bps` basis
/// points.
///
/// The fee is `fee_of`, rounded down; the two parts add up to `gross_amount`. Fails with
/// `ArithmeticOverflow` exactly when the fee would exceed the gross amount, which takes a rate
/// above one hundred percent.
pub fn apply_fee(gross_amount: u64, fee_bps: u16) -> (result: Result<(u64, u64), PumpError>)
    ensures
        fee_of(gross_amount as int, fee_bps as int) <= gross_amount ==> result == Ok::<
            (u64, u64),
            PumpError,
        >(
            (
                (gross_amount - fee_of(gross_amount as int, fee_bps as int)) as u64,
                fee_of(gross_amount as int, fee_bps as int) as u64,
            ),
        ),
        fee_of(gross_amount as int, fee_bps as int) > gross_amount ==> result == Err::<
            (u64, u64),
            PumpError,
        >(PumpError::ArithmeticOverflow),
        fee_bps <= BPS_DENOMINATOR ==> result is Ok,
{
    let gross_u128: u128 = gross_amount as u128;
    let fee_bps_u128: u128 = fee_bps as u128;
    proof {
        lemma_product_fits(gross_amount, fee_bps as u64);
        lemma_fee_bounds(gross_amount as int, fee_bps as int);
    }
    let scaled: u128 = match gross_u128.checked_mul(fee_bps_u128) {
        Some(product) => product,
        None => {
            return Err(PumpError::ArithmeticOverflow);
        },
    };
    let fee_u128: u128 = scaled / (BPS_DENOMINATOR as u128);
    let net_u128: u128 = match gross_u128.checked_sub(fee_u128) {
        Some(difference) => difference,
        None => {
            return Err(PumpError::ArithmeticOverflow);
        },
    };
    Ok((net_u128 as u64, fee_u128 as u64))
}

/// A fee is never negative, and at a rate of at most one hundred percent it is at most the
/// gross amount.
pub proof fn lemma_fee_bounds(gross: int, fee_bps: int)
    requires
        0 <= gross,
        0 <= fee_bps,
    ensures
        0 <= fee_of(gross, fee_bps),
        fee_bps <= BPS_DENOMINATOR ==> fee_of(gross, fee_bps) <= gross,
{
    if fee_bps <= 10_000 {
        assert(gross * fee_bps <= gross * 10_000) by (nonlinear_arith)
            requires
                0 <= gross,
                0 <= fee_bps <= 10_000,
        ;
    }
}

/// What a buy does to the reserves, for every deposit into positive reserves.
///
/// It draws at most the token reserve, and less than all of it exactly when the product of the
/// reserves is at least the grown base reserve. The product of the reserves after the buy is
/// at most the product before and falls short of it by less than the grown base reserve.
pub proof fn lemma_buy_bounds(sol_amount: u64, sol_reserves: u64, token_reserves: u64)
    requires
        sol_reserves > 0,
        token_reserves > 0,
    ensures
        0 <= tokens_out(sol_amount as int, sol_reserves as int, token_reserves as int)
            <= token_reserves,
        tokens_out(sol_amount as int, sol_reserves as int, token_reserves as int)
            < token_reserves <==> sol_reserves * token_reserves >= sol_reserves + sol_amount,
        (sol_reserves + sol_amount) * (token_reserves - tokens_out(
            sol_amount as int,
            sol_reserves as int,
            token_reserves as int,
        )) <= sol_reserves * token_reserves,
        sol_reserves * token_reserves < (sol_reserves + sol_amount) * (token_reserves
            - tokens_out(sol_amount as int, sol_reserves as int, token_reserves as int)) + (
        sol_reserves + sol_amount),
{
    let s = sol_reserves as int;
    let t = token_reserves as int;
    let grown = s + sol_amount;
    let k = s * t;
    let q = k / grown;
    lemma_quotient_bounds(s, t, grown);
    assert(q >= 1 <==> k >= grown) by (nonlinear_arith)
        requires
            grown * q <= k < grown * q + grown,
            0 <= q,
            grown > 0,
    ;
}

/// What a sell does to the reserves, for every amount of tokens returned into positive
/// reserves.
///
/// It draws at most the base reserve. The product of the reserves after the sell is at most
/// the product before and falls short of it by less than the grown token reserve.
pub proof fn lemma_sell_bounds(tokens_in: u64, sol_reserves: u64, token_reserves: u64)
    requires
        sol_reserves > 0,
        token_reserves > 0,
    ensures
        0 <= sol_out(tokens_in as int, sol_reserves as int, token_reserves as int)
            <= sol_reserves,
        (sol_reserves - sol_out(tokens_in as int, sol_reserves as int, token_reserves as int)) * (
        token_reserves + tokens_in) <= sol_reserves * token_reserves,
        sol_reserves * token_reserves < (sol_reserves - sol_out(
            tokens_in as int,
            sol_reserves as int,
            token_reserves as int,
        )) * (token_reserves + tokens_in) + (token_reserves + tokens_in),
{
    let s = sol_reserves as int;
    let t = token_reserves as int;
    let grown = t + tokens_in;
    let k = s * t;
    let q = k / grown;
    lemma_quotient_bounds(t, s, grown);
    assert(q * grown == grown * q) by (nonlinear_arith);
}

/// Where the grown base reserve divides the product of the reserves, a buy with a positive
/// deposit leaves tokens in the reserve and does not shrink the product of the reserves.
pub proof fn lemma_buy_keeps_product(sol_amount: u64, sol_reserves: u64, token_reserves: u64)
    requires
        sol_reserves > 0,
        token_reserves > 0,
        sol_amount > 0,
        (sol_reserves * token_reserves) % (sol_reserves + sol_amount) == 0,
    ensures
        tokens_out(sol_amount as int, sol_reserves as int, token_reserves as int)
            < token_reserves,
        sol_reserves * token_reserves <= (sol_reserves + sol_amount) * (token_reserves
            - tokens_out(sol_amount as int, sol_reserves as int, token_reserves as int)),
{
    let s = sol_reserves as int;
    let t = token_reserves as int;
    let grown = s + sol_amount;
    let k = s * t;
    let q = k / grown;
    lemma_buy_bounds(sol_amount, sol_reserves, token_reserves);
    vstd::arithmetic::div_mod::lemma_fundamental_div_mod(k, grown);
    assert(k >= grown) by (nonlinear_arith)
        requires
            k == grown * q,
            k == s * t,
            s > 0,
            t > 0,
            grown > 0,
    ;
}

/// Buying and at once selling back what was bought, for every deposit into positive reserves.
///
/// The sale returns at least the deposit, and exactly the deposit when the grown base reserve
/// divides the product of the reserves; otherwise it returns more.
pub proof fn lemma_round_trip_bounds(sol_amount: u64, sol_reserves: u64, token_reserves: u64)
    requires
        sol_reserves > 0,
        token_reserves > 0,
    ensures
        ({
            let bought = tokens_out(
                sol_amount as int,
                sol_reserves as int,
                token_reserves as int,
            );
            let returned = sol_out(bought, sol_reserves + sol_amount, token_reserves - bought);
            &&& returned >= sol_amount
            &&& returned <= sol_amount <==> (sol_reserves * token_reserves) % (sol_reserves
                + sol_amount) == 0
        }),
{
    let s = sol_reserves as int;
    let t = token_reserves as int;
    let grown = s + sol_amount;
    let k = s * t;
    let q = k / grown;
    let r = k % grown;
    lemma_quotient_bounds(s, t, grown);
    vstd::arithmetic::div_mod::lemma_fundamental_div_mod(k, grown);
    let kept = grown * q;
    if r == 0 {
        assert(kept / t == s) by (nonlinear_arith)
            requires
                kept == s * t,
                t > 0,
        ;
    } else {
        assert(kept / t < s) by (nonlinear_arith)
            requires
                kept < s * t,
                t > 0,
        ;
    }
}

/// Where the grown base reserve divides the product of the reserves, buying with a positive
/// deposit and at once selling back what was bought returns no more than the deposit.
pub proof fn lemma_round_trip(sol_amount: u64, sol_reserves: u64, token_reserves: u64)
    requires
        sol_reserves > 0,
        token_reserves > 0,
        sol_amount > 0,
        (sol_reserves * token_reserves) % (sol_reserves + sol_amount) == 0,
    ensures
        ({
            let bought = tokens_out(
                sol_amount as int,
                sol_reserves as int,
                token_reserves as int,
            );
            sol_out(bought, sol_reserves + sol_amount, token_reserves - bought) <= sol_amount
        }),
{
    lemma_round_trip_bounds(sol_amount, sol_reserves, token_reserves);
}

} // verus!
