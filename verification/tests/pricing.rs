use token_launchpad::error::PumpError;
use token_launchpad::math::{apply_fee, calculate_sol_out, calculate_tokens_out};

#[test]
fn fee_of_one_percent_is_exact() {
    assert_eq!(apply_fee(1_000_000, 100), Ok((990_000, 10_000)));
}

#[test]
fn fee_rounds_down() {
    assert_eq!(apply_fee(199, 100), Ok((198, 1)));
    assert_eq!(apply_fee(99, 100), Ok((99, 0)));
    assert_eq!(apply_fee(0, 100), Ok((0, 0)));
    assert_eq!(apply_fee(u64::MAX, 10_000), Ok((0, u64::MAX)));
    assert_eq!(apply_fee(u64::MAX, 0), Ok((u64::MAX, 0)));
}

#[test]
fn fee_above_the_gross_amount_overflows() {
    assert_eq!(apply_fee(10_000, 10_001), Err(PumpError::ArithmeticOverflow));
    assert_eq!(apply_fee(u64::MAX, u16::MAX), Err(PumpError::ArithmeticOverflow));
    // below one whole unit of excess the fee still fits
    assert_eq!(apply_fee(9_999, 10_001), Ok((0, 9_999)));
}

#[test]
fn tokens_out_follows_the_floor_formula() {
    assert_eq!(calculate_tokens_out(1, 3, 10), Ok(3));
    assert_eq!(calculate_tokens_out(0, 3, 10), Ok(0));
    assert_eq!(
        calculate_tokens_out(1_000_000_000, 30_000_000_000, 1_073_000_000_000_000),
        Ok(34_612_903_225_807)
    );
    assert_eq!(calculate_tokens_out(u64::MAX, u64::MAX, u64::MAX), Ok(9_223_372_036_854_775_808));
}

#[test]
fn tokens_out_can_empty_the_reserve() {
    assert_eq!(calculate_tokens_out(1, 1, 1), Ok(1));
    assert_eq!(calculate_tokens_out(u64::MAX, 1, 5), Ok(5));
}

#[test]
fn pricing_rejects_an_empty_reserve() {
    assert_eq!(calculate_tokens_out(5, 0, 10), Err(PumpError::InvalidCurveState));
    assert_eq!(calculate_tokens_out(5, 10, 0), Err(PumpError::InvalidCurveState));
    assert_eq!(calculate_sol_out(5, 0, 10), Err(PumpError::InvalidCurveState));
    assert_eq!(calculate_sol_out(5, 10, 0), Err(PumpError::InvalidCurveState));
}

#[test]
fn sol_out_follows_the_floor_formula() {
    assert_eq!(calculate_sol_out(3, 4, 7), Ok(2));
    assert_eq!(calculate_sol_out(0, 4, 7), Ok(0));
    assert_eq!(
        calculate_sol_out(34_612_903_225_807, 31_000_000_000, 1_038_387_096_774_193),
        Ok(1_000_000_001)
    );
}

#[test]
fn round_trip_returns_the_deposit_when_the_division_is_exact() {
    // 30 * 40 = 1200 is a multiple of 30 + 10
    let bought = calculate_tokens_out(10, 30, 40).unwrap();
    assert_eq!(bought, 10);
    assert_eq!(calculate_sol_out(bought, 40, 30), Ok(10));
}

#[test]
fn round_trip_returns_at_least_the_deposit() {
    let deposit: u64 = 1_000_000_000;
    let sol: u64 = 30_000_000_000;
    let token: u64 = 1_073_000_000_000_000;
    let bought = calculate_tokens_out(deposit, sol, token).unwrap();
    let returned = calculate_sol_out(bought, sol + deposit, token - bought).unwrap();
    assert_eq!(returned, deposit + 1);
}

#[test]
fn product_of_reserves_after_a_buy_stays_within_one_divisor() {
    let cases: [(u64, u64, u64); 4] = [
        (1, 3, 10),
        (1_000_000_000, 30_000_000_000, 1_073_000_000_000_000),
        (7, 1_000_000_000_000, 1_000_000_000_000_000),
        (u64::MAX, u64::MAX, u64::MAX),
    ];
    for (deposit, sol, token) in cases {
        let bought = calculate_tokens_out(deposit, sol, token).unwrap();
        let before = (sol as u128) * (token as u128);
        let grown = sol as u128 + deposit as u128;
        let after = grown * ((token - bought) as u128);
        assert!(after <= before);
        assert!(before - after < grown);
    }
}

#[test]
fn product_of_reserves_is_kept_when_the_division_is_exact() {
    // 30 * 40 = 1200 is a multiple of 30 + 10, and 6 * 35 = 210 of 6 + 1
    for (deposit, sol, token) in [(10u64, 30u64, 40u64), (1, 6, 35), (0, 9, 4)] {
        let bought = calculate_tokens_out(deposit, sol, token).unwrap();
        assert!(bought < token || deposit == 0 && bought == 0);
        assert_eq!((sol + deposit) * (token - bought), sol * token);
    }
    // and shrinks where it is not: 3 * 10 = 30 over 3 + 1
    let bought = calculate_tokens_out(1, 3, 10).unwrap();
    assert_eq!((3 + 1) * (10 - bought), 28);
}

#[test]
fn product_of_reserves_after_a_sell_stays_within_one_divisor() {
    let cases: [(u64, u64, u64); 3] = [
        (3, 4, 7),
        (34_612_903_225_807, 31_000_000_000, 1_038_387_096_774_193),
        (u64::MAX, u64::MAX, u64::MAX),
    ];
    for (tokens, sol, token) in cases {
        let earned = calculate_sol_out(tokens, sol, token).unwrap();
        let before = (sol as u128) * (token as u128);
        let grown = token as u128 + tokens as u128;
        let after = grown * ((sol - earned) as u128);
        assert!(after <= before);
        assert!(before - after < grown);
    }
}
