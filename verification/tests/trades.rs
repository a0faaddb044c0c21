use token_launchpad::account::sell_tokens::SellTokens;
use token_launchpad::address::Address;
use token_launchpad::error::PumpError;
use token_launchpad::instructions::buy_tokens::execute_buy;
use token_launchpad::instructions::sell_tokens::{execute_sell, handler};
use token_launchpad::state::bonding_curve::{spendable_lamports, BondingCurve, GraduationState};
use token_launchpad::state::config::GlobalConfig;
use token_launchpad::state::trade::{TradeDirection, TradeEvent};

fn key(tag: u8) -> Address {
    Address::new([tag; 32])
}

fn curve(virtual_sol: u64, virtual_token: u64, real_sol: u64, real_token: u64) -> BondingCurve {
    BondingCurve {
        creator: key(1),
        token_mint: key(2),
        pool: None,
        virtual_sol_reserves: virtual_sol,
        virtual_token_reserves: virtual_token,
        real_sol_reserves: real_sol,
        real_token_reserves: real_token,
        graduated: GraduationState::Active,
        bump: 254,
    }
}

fn config(buy_fee_bps: u16, sell_fee_bps: u16) -> GlobalConfig {
    GlobalConfig {
        authority: key(3),
        treasury: key(4),
        buy_fee_bps,
        sell_fee_bps,
        creation_fee: 20_000_000,
        graduation_threshold: 85_000_000_000,
        total_tokens_created: 1,
        total_volume_sol: 0,
        paused: false,
        bump: 255,
    }
}

#[test]
fn buy_takes_the_fee_first_and_moves_all_four_reserves() {
    let mut c = curve(30_000_000_000, 1_073_000_000_000_000, 0, 793_100_000_000_000);
    let mut g = config(100, 100);
    let trade = execute_buy(&mut c, &mut g, 1_000_000_000).unwrap();
    // fee 1% of 1e9 = 1e7; net 990_000_000
    // tokens = T - floor(S*T / (S + net))
    let k: u128 = 30_000_000_000u128 * 1_073_000_000_000_000u128;
    let left = (k / 30_990_000_000u128) as u64;
    let bought = 1_073_000_000_000_000 - left;
    assert_eq!(bought, 34_277_831_558_568);
    assert_eq!(
        trade,
        TradeEvent {
            direction: TradeDirection::Buy,
            gross: 1_000_000_000,
            fee: 10_000_000,
            net: 990_000_000,
            amount_out: bought,
            virtual_sol_reserves: 30_990_000_000,
            virtual_token_reserves: left,
            real_sol_reserves: 990_000_000,
            real_token_reserves: 793_100_000_000_000 - bought,
        }
    );
    assert_eq!(c, curve(30_990_000_000, left, 990_000_000, 793_100_000_000_000 - bought));
    assert_eq!(g.total_volume_sol, 990_000_000);
    assert_eq!(GlobalConfig { total_volume_sol: 0, ..g }, config(100, 100));
}

#[test]
fn buy_of_nothing_moves_nothing() {
    let mut c = curve(3, 10, 5, 7);
    let mut g = config(100, 100);
    let trade = execute_buy(&mut c, &mut g, 0).unwrap();
    assert_eq!(trade.amount_out, 0);
    assert_eq!(trade.fee, 0);
    assert_eq!(trade.net, 0);
    assert_eq!(c, curve(3, 10, 5, 7));
    assert_eq!(g, config(100, 100));
}

#[test]
fn buy_is_refused_outside_the_active_state() {
    for state in [GraduationState::Pending, GraduationState::Graduated] {
        let mut c = BondingCurve { graduated: state, ..curve(3, 10, 5, 7) };
        let before = c;
        let mut g = config(0, 0);
        assert_eq!(execute_buy(&mut c, &mut g, 1), Err(PumpError::InvalidCurveState));
        assert_eq!(c, before);
        assert_eq!(g, config(0, 0));
    }
}

#[test]
fn buy_is_refused_when_the_fee_exceeds_the_deposit() {
    let mut c = curve(3, 10, 5, 7);
    let mut g = config(20_000, 0);
    assert_eq!(execute_buy(&mut c, &mut g, 100), Err(PumpError::ArithmeticOverflow));
    assert_eq!(c, curve(3, 10, 5, 7));
}

#[test]
fn buy_is_refused_on_an_empty_virtual_reserve() {
    let mut g = config(0, 0);
    let mut c = curve(0, 10, 5, 7);
    assert_eq!(execute_buy(&mut c, &mut g, 1), Err(PumpError::InvalidCurveState));
    let mut c = curve(3, 0, 5, 7);
    assert_eq!(execute_buy(&mut c, &mut g, 1), Err(PumpError::InvalidCurveState));
    assert_eq!(g, config(0, 0));
}

#[test]
fn buy_is_refused_when_the_curve_lacks_the_tokens() {
    // 1 into (3, 10) buys 3 tokens
    let mut c = curve(3, 10, 0, 2);
    let mut g = config(0, 0);
    assert_eq!(execute_buy(&mut c, &mut g, 1), Err(PumpError::InsufficientTokens));
    assert_eq!(c, curve(3, 10, 0, 2));
    assert_eq!(g, config(0, 0));
    let mut c = curve(3, 10, 0, 3);
    assert_eq!(execute_buy(&mut c, &mut g, 1).map(|t| t.amount_out), Ok(3));
    assert_eq!(c, curve(4, 7, 1, 0));
}

#[test]
fn buy_is_refused_when_a_reserve_or_the_volume_would_overflow() {
    let mut g = config(0, 0);
    let mut c = curve(u64::MAX, 10, 0, 10);
    assert_eq!(execute_buy(&mut c, &mut g, 1), Err(PumpError::ArithmeticOverflow));
    let mut c = curve(3, 10, u64::MAX, 10);
    assert_eq!(execute_buy(&mut c, &mut g, 1), Err(PumpError::ArithmeticOverflow));
    assert_eq!(c, curve(3, 10, u64::MAX, 10));
    let mut c = curve(3, 10, 0, 10);
    let mut full = GlobalConfig { total_volume_sol: u128::MAX, ..config(0, 0) };
    assert_eq!(execute_buy(&mut c, &mut full, 1), Err(PumpError::ArithmeticOverflow));
    assert_eq!(c, curve(3, 10, 0, 10));
    assert_eq!(full.total_volume_sol, u128::MAX);
}

#[test]
fn sell_takes_the_fee_in_tokens_and_pays_base() {
    let mut c = curve(4, 7, 3, 0);
    let mut g = config(0, 0);
    let trade = execute_sell(&mut c, &mut g, 3, 13, 10).unwrap();
    assert_eq!(
        trade,
        TradeEvent {
            direction: TradeDirection::Sell,
            gross: 3,
            fee: 0,
            net: 3,
            amount_out: 2,
            virtual_sol_reserves: 2,
            virtual_token_reserves: 10,
            real_sol_reserves: 1,
            real_token_reserves: 3,
        }
    );
    assert_eq!(c, curve(2, 10, 1, 3));
    assert_eq!(g.total_volume_sol, 2);

    let mut c = curve(1_000_000, 1_000_000, 1_000_000, 0);
    let mut g = config(0, 500);
    let trade = execute_sell(&mut c, &mut g, 1_000, 2_000_000, 0).unwrap();
    // fee 5% of 1000 tokens = 50; 950 tokens are priced
    assert_eq!(trade.fee, 50);
    assert_eq!(trade.net, 950);
    assert_eq!(trade.amount_out, 1_000_000 - (1_000_000u64 * 1_000_000 / 1_000_950));
    assert_eq!(trade.amount_out, 950);
    assert_eq!(c, curve(999_050, 1_000_950, 999_050, 950));
    assert_eq!(g.total_volume_sol, 950);
}

#[test]
fn sell_of_nothing_is_refused() {
    let mut c = curve(4, 7, 3, 0);
    let mut g = config(0, 0);
    assert_eq!(execute_sell(&mut c, &mut g, 0, 100, 10), Err(PumpError::InvalidAmount));
    assert_eq!(c, curve(4, 7, 3, 0));
}

#[test]
fn sell_is_refused_outside_the_active_state() {
    for state in [GraduationState::Pending, GraduationState::Graduated] {
        let mut c = BondingCurve { graduated: state, ..curve(4, 7, 3, 0) };
        let mut g = config(0, 0);
        // the state is tested before the amount
        assert_eq!(execute_sell(&mut c, &mut g, 0, 100, 10), Err(PumpError::InvalidCurveState));
        assert_eq!(execute_sell(&mut c, &mut g, 3, 100, 10), Err(PumpError::InvalidCurveState));
    }
}

#[test]
fn sell_is_refused_when_the_base_is_not_there() {
    let mut g = config(0, 0);
    // earns 2: the ledger counts only 1
    let mut c = curve(4, 7, 1, 0);
    assert_eq!(execute_sell(&mut c, &mut g, 3, 100, 10), Err(PumpError::InsufficientSol));
    assert_eq!(c, curve(4, 7, 1, 0));
    // the account holds only 1 above its minimum
    let mut c = curve(4, 7, 3, 0);
    assert_eq!(execute_sell(&mut c, &mut g, 3, 11, 10), Err(PumpError::InsufficientSol));
    // the account is below its minimum
    assert_eq!(execute_sell(&mut c, &mut g, 3, 9, 10), Err(PumpError::InsufficientSol));
    assert_eq!(c, curve(4, 7, 3, 0));
    assert_eq!(g, config(0, 0));
    assert!(execute_sell(&mut c, &mut g, 3, 12, 10).is_ok());
}

#[test]
fn sell_is_refused_on_overflow_and_on_an_empty_virtual_reserve() {
    let mut g = config(0, 0);
    let mut c = curve(4, u64::MAX, 3, 0);
    assert_eq!(execute_sell(&mut c, &mut g, 1, 100, 0), Err(PumpError::ArithmeticOverflow));
    let mut c = curve(4, 7, 3, u64::MAX);
    assert_eq!(execute_sell(&mut c, &mut g, 3, 100, 0), Err(PumpError::ArithmeticOverflow));
    let mut c = curve(0, 7, 3, 0);
    assert_eq!(execute_sell(&mut c, &mut g, 3, 100, 0), Err(PumpError::InvalidCurveState));
    let mut c = curve(4, 7, 3, 0);
    let mut high = config(0, 10_001);
    assert_eq!(execute_sell(&mut c, &mut high, 20_000, 100, 0), Err(PumpError::ArithmeticOverflow));
}

#[test]
fn sell_handler_lowers_the_native_balance_by_what_it_pays() {
    let mut ctx = SellTokens {
        bonding_curve: curve(4, 7, 3, 0),
        global_config: config(0, 0),
        bonding_curve_lamports: 13,
        rent_exempt_minimum: 10,
    };
    let trade = handler(&mut ctx, 3).unwrap();
    assert_eq!(trade.amount_out, 2);
    assert_eq!(
        ctx,
        SellTokens {
            bonding_curve: curve(2, 10, 1, 3),
            global_config: GlobalConfig { total_volume_sol: 2, ..config(0, 0) },
            bonding_curve_lamports: 11,
            rent_exempt_minimum: 10,
        }
    );
    // backed before, backed after
    assert!(ctx.bonding_curve.real_sol_reserves + ctx.rent_exempt_minimum <= ctx.bonding_curve_lamports);
    let before = ctx;
    assert_eq!(handler(&mut ctx, 0), Err(PumpError::InvalidAmount));
    assert_eq!(ctx, before);
}

#[test]
fn spendable_is_what_lies_above_the_rent_exempt_minimum() {
    assert_eq!(spendable_lamports(13, 10), 3);
    assert_eq!(spendable_lamports(10, 10), 0);
    assert_eq!(spendable_lamports(9, 10), 0);
    assert_eq!(spendable_lamports(u64::MAX, 0), u64::MAX);
    assert_eq!(spendable_lamports(0, u64::MAX), 0);
}
