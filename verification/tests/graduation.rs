use anchor_lang::prelude::Pubkey;
use token_launchpad::account::buy_tokens::BuyTokens;
use token_launchpad::account::graduate::Graduate;
use token_launchpad::account::holding::{HoldingAccount, HoldingAccountStatus};
use token_launchpad::address::Address;
use token_launchpad::error::PumpError;
use token_launchpad::helpers::graduate::{begin_graduation, graduate_internal};
use token_launchpad::instructions::buy_tokens::{handler as buy, BuyOutcome};
use token_launchpad::instructions::graduate::{handler as confirm, Confirmation, LiquidityPolicy};
use token_launchpad::instructions::sell_tokens::execute_sell;
use token_launchpad::state::bonding_curve::{BondingCurve, GraduationState};
use token_launchpad::state::config::GlobalConfig;
use token_launchpad::state::graduate::GraduatedEvent;
use token_launchpad::state::pool_request::{CreatePoolRequestEvent, Migration, MigrationRequest};

fn tagged(tag: u8) -> Address {
    Address::new([tag; 32])
}

fn relayer() -> Address {
    tagged(9)
}

fn token_mint() -> Address {
    tagged(2)
}

fn wsol_mint() -> Address {
    Address::new(anchor_spl::token::spl_token::native_mint::ID.to_bytes())
}

fn derived(wallet: Address, mint: Address) -> Address {
    Address::new(
        anchor_spl::associated_token::get_associated_token_address(
            &Pubkey::new_from_array(wallet.bytes),
            &Pubkey::new_from_array(mint.bytes),
        )
        .to_bytes(),
    )
}

fn missing(address: Address) -> HoldingAccount {
    HoldingAccount { address, initialized: false, owner: tagged(0), mint: tagged(0) }
}

fn existing(address: Address, owner: Address, mint: Address) -> HoldingAccount {
    HoldingAccount { address, initialized: true, owner, mint }
}

fn accounts(real_sol: u64, real_token: u64, lamports: u64, rent: u64) -> BuyTokens {
    BuyTokens {
        relayer: relayer(),
        global_config: GlobalConfig {
            authority: tagged(3),
            treasury: tagged(4),
            buy_fee_bps: 100,
            sell_fee_bps: 100,
            creation_fee: 20_000_000,
            graduation_threshold: 85_000_000_000,
            total_tokens_created: 1,
            total_volume_sol: 0,
            paused: false,
            bump: 255,
        },
        bonding_curve: BondingCurve {
            creator: tagged(1),
            token_mint: token_mint(),
            pool: None,
            virtual_sol_reserves: 1_000_000_000_000,
            virtual_token_reserves: 1_000_000_000_000_000,
            real_sol_reserves: real_sol,
            real_token_reserves: real_token,
            graduated: GraduationState::Active,
            bump: 254,
        },
        bonding_curve_key: tagged(5),
        bonding_curve_lamports: lamports,
        rent_exempt_minimum: rent,
        wsol_mint: wsol_mint(),
        relayer_wsol_account: missing(derived(relayer(), wsol_mint())),
        relayer_token_account: missing(derived(relayer(), token_mint())),
        unix_timestamp: 1_700_000_000,
    }
}

fn swept(before: BuyTokens, sol: u64) -> BuyTokens {
    BuyTokens {
        bonding_curve: BondingCurve {
            real_token_reserves: 0,
            real_sol_reserves: before.bonding_curve.real_sol_reserves - sol,
            graduated: GraduationState::Pending,
            ..before.bonding_curve
        },
        bonding_curve_lamports: before.bonding_curve_lamports - sol,
        relayer_token_account: existing(
            before.relayer_token_account.address,
            before.relayer,
            before.bonding_curve.token_mint,
        ),
        relayer_wsol_account: existing(
            before.relayer_wsol_account.address,
            before.relayer,
            before.wsol_mint,
        ),
        ..before
    }
}

#[test]
fn sweep_moves_both_reserves_and_records_the_request() {
    let mut ctx = accounts(50, 70, 1_000, 100);
    let before = ctx;
    let migration = graduate_internal(&mut ctx, 7).unwrap();
    assert_eq!(
        migration,
        Migration {
            request: MigrationRequest {
                bonding_curve: tagged(5),
                nonce: 7,
                token_amount: 70,
                wsol_amount: 50,
                fulfilled: false,
                pool: None,
            },
            event: CreatePoolRequestEvent {
                bonding_curve: tagged(5),
                token_mint: token_mint(),
                wsol_mint: wsol_mint(),
                wsol_ata: derived(relayer(), wsol_mint()),
                token_ata: derived(relayer(), token_mint()),
                token_amount: 70,
                wsol_amount: 50,
                creator: tagged(1),
                nonce: 7,
                timestamp: 1_700_000_000,
            },
            token_account: HoldingAccountStatus::Created,
            wsol_account: HoldingAccountStatus::Created,
        }
    );
    assert_eq!(ctx, swept(before, 50));
    assert_eq!(ctx.bonding_curve.real_sol_reserves, 0);
    assert_eq!(ctx.bonding_curve_lamports, 950);
}

#[test]
fn sweep_leaves_the_rent_exempt_minimum_in_place() {
    // the ledger counts 50, the account holds only 30 above its minimum
    let mut ctx = accounts(50, 70, 40, 10);
    let before = ctx;
    let migration = graduate_internal(&mut ctx, 1).unwrap();
    assert_eq!(migration.request.wsol_amount, 30);
    assert_eq!(migration.request.token_amount, 70);
    assert_eq!(ctx, swept(before, 30));
    assert_eq!(ctx.bonding_curve.real_sol_reserves, 20);
    assert_eq!(ctx.bonding_curve_lamports, 10);

    // an account below its minimum gives nothing
    let mut ctx = accounts(50, 70, 5, 10);
    let migration = graduate_internal(&mut ctx, 1).unwrap();
    assert_eq!(migration.request.wsol_amount, 0);
    assert_eq!(ctx.bonding_curve.real_sol_reserves, 50);
    assert_eq!(ctx.bonding_curve_lamports, 5);
}

#[test]
fn second_sweep_moves_nothing() {
    let mut ctx = accounts(50, 70, 1_000, 100);
    let first = graduate_internal(&mut ctx, 1).unwrap();
    assert_eq!((first.request.token_amount, first.request.wsol_amount), (70, 50));
    let after_first = ctx;
    let second = graduate_internal(&mut ctx, 2).unwrap();
    assert_eq!(second.request.nonce, 2);
    assert_eq!((second.request.token_amount, second.request.wsol_amount), (0, 0));
    assert_eq!((second.event.token_amount, second.event.wsol_amount), (0, 0));
    assert_eq!(second.token_account, HoldingAccountStatus::Existed);
    assert_eq!(second.wsol_account, HoldingAccountStatus::Existed);
    assert_eq!(second.custody_actions(), vec![]);
    assert_eq!(first.custody_actions().len(), 4);
    assert_eq!(ctx, after_first);

    // also where the minimum held part of the reserve back
    let mut ctx = accounts(50, 70, 40, 10);
    graduate_internal(&mut ctx, 1).unwrap();
    let second = graduate_internal(&mut ctx, 2).unwrap();
    assert_eq!((second.request.token_amount, second.request.wsol_amount), (0, 0));
}

#[test]
fn retry_sweeps_what_has_come_in_since() {
    let mut ctx = accounts(50, 70, 40, 10);
    graduate_internal(&mut ctx, 1).unwrap();
    // the account is topped up: the base held back can now leave
    ctx.bonding_curve_lamports += 15;
    let second = graduate_internal(&mut ctx, 2).unwrap();
    assert_eq!((second.request.token_amount, second.request.wsol_amount), (0, 15));
    assert_eq!(ctx.bonding_curve.real_sol_reserves, 5);
    assert_eq!(ctx.bonding_curve_lamports, 10);
}

#[test]
fn sweeps_in_a_row_never_take_more_than_the_reserve() {
    let mut ctx = accounts(50, 70, 40, 10);
    let mut total: u64 = 0;
    // the account is topped up between the sweeps, by more than the reserve in all
    for (nonce, top_up) in [(1u64, 0u64), (2, 5), (3, 0), (4, 100), (5, 100)] {
        ctx.bonding_curve_lamports += top_up;
        total += graduate_internal(&mut ctx, nonce).unwrap().request.wsol_amount;
        assert!(total <= 50);
        assert_eq!(ctx.bonding_curve.real_sol_reserves, 50 - total);
    }
    assert_eq!(total, 50);
    assert_eq!(ctx.bonding_curve_lamports, 40 + 205 - 50);
}

#[test]
fn sweep_is_refused_once_graduated() {
    let mut ctx = accounts(50, 70, 1_000, 100);
    ctx.bonding_curve.graduated = GraduationState::Graduated;
    ctx.bonding_curve.pool = Some(tagged(8));
    let before = ctx;
    assert_eq!(graduate_internal(&mut ctx, 1), Err(PumpError::InvalidCurveState));
    assert_eq!(ctx, before);
}

#[test]
fn sweep_is_refused_for_a_holding_account_at_another_address() {
    let mut ctx = accounts(50, 70, 1_000, 100);
    ctx.relayer_token_account = missing(tagged(77));
    let before = ctx;
    assert_eq!(graduate_internal(&mut ctx, 1), Err(PumpError::ExternalAccountMismatch));
    assert_eq!(ctx, before);

    let mut ctx = accounts(50, 70, 1_000, 100);
    // the two accounts swapped
    ctx.relayer_wsol_account = missing(derived(relayer(), token_mint()));
    ctx.relayer_token_account = missing(derived(relayer(), wsol_mint()));
    assert_eq!(graduate_internal(&mut ctx, 1), Err(PumpError::ExternalAccountMismatch));

    let mut ctx = accounts(50, 70, 1_000, 100);
    ctx.relayer_wsol_account = missing(derived(tagged(10), wsol_mint()));
    let before = ctx;
    assert_eq!(graduate_internal(&mut ctx, 1), Err(PumpError::ExternalAccountMismatch));
    assert_eq!(ctx, before);
}

#[test]
fn sweep_validates_a_holding_account_that_exists() {
    let token_ata = derived(relayer(), token_mint());
    let wsol_ata = derived(relayer(), wsol_mint());

    let mut ctx = accounts(50, 70, 1_000, 100);
    ctx.relayer_token_account = existing(token_ata, relayer(), token_mint());
    let migration = graduate_internal(&mut ctx, 1).unwrap();
    assert_eq!(migration.token_account, HoldingAccountStatus::Existed);
    assert_eq!(migration.wsol_account, HoldingAccountStatus::Created);

    let mut ctx = accounts(50, 70, 1_000, 100);
    ctx.relayer_token_account = existing(token_ata, tagged(66), token_mint());
    let before = ctx;
    assert_eq!(graduate_internal(&mut ctx, 1), Err(PumpError::ExternalAccountMismatch));
    assert_eq!(ctx, before);

    let mut ctx = accounts(50, 70, 1_000, 100);
    ctx.relayer_wsol_account = existing(wsol_ata, relayer(), token_mint());
    let before = ctx;
    assert_eq!(graduate_internal(&mut ctx, 1), Err(PumpError::ExternalAccountMismatch));
    assert_eq!(ctx, before);
}

#[test]
fn sweep_with_given_addresses_checks_against_them() {
    let mut ctx = accounts(50, 70, 1_000, 100);
    ctx.relayer_token_account = missing(tagged(20));
    ctx.relayer_wsol_account = missing(tagged(21));
    let before = ctx;
    assert_eq!(
        begin_graduation(&mut ctx, 1, None, Some(tagged(21))),
        Err(PumpError::ExternalAccountMismatch)
    );
    assert_eq!(
        begin_graduation(&mut ctx, 1, Some(tagged(20)), None),
        Err(PumpError::ExternalAccountMismatch)
    );
    assert_eq!(
        begin_graduation(&mut ctx, 1, Some(tagged(21)), Some(tagged(20))),
        Err(PumpError::ExternalAccountMismatch)
    );
    assert_eq!(ctx, before);
    let migration = begin_graduation(&mut ctx, 1, Some(tagged(20)), Some(tagged(21))).unwrap();
    assert_eq!(migration.event.token_ata, tagged(20));
    assert_eq!(migration.event.wsol_ata, tagged(21));
    assert_eq!(ctx, swept(before, 50));
}

#[test]
fn holding_account_is_created_once_and_validated_after() {
    let mut account = missing(tagged(20));
    assert_eq!(
        account.ensure(&Some(tagged(20)), &tagged(1), &tagged(2)),
        Ok(HoldingAccountStatus::Created)
    );
    assert_eq!(account, existing(tagged(20), tagged(1), tagged(2)));
    assert_eq!(
        account.ensure(&Some(tagged(20)), &tagged(1), &tagged(2)),
        Ok(HoldingAccountStatus::Existed)
    );
    assert_eq!(account, existing(tagged(20), tagged(1), tagged(2)));
    assert_eq!(
        account.ensure(&Some(tagged(20)), &tagged(1), &tagged(3)),
        Err(PumpError::ExternalAccountMismatch)
    );
    assert_eq!(
        account.ensure(&Some(tagged(20)), &tagged(3), &tagged(2)),
        Err(PumpError::ExternalAccountMismatch)
    );
    assert_eq!(
        account.ensure(&Some(tagged(22)), &tagged(1), &tagged(2)),
        Err(PumpError::ExternalAccountMismatch)
    );
    assert_eq!(account.ensure(&None, &tagged(1), &tagged(2)), Err(PumpError::ExternalAccountMismatch));
    assert_eq!(account, existing(tagged(20), tagged(1), tagged(2)));
}

#[test]
fn buy_below_the_threshold_only_trades() {
    let mut ctx = accounts(0, 800_000_000_000_000, 2_000_000, 2_000_000);
    let before = ctx;
    let outcome = buy(&mut ctx, 1_000_000_000, 1).unwrap();
    assert_eq!(outcome.migration, None);
    assert_eq!(outcome.trade.fee, 10_000_000);
    assert_eq!(outcome.trade.net, 990_000_000);
    let left = (1_000_000_000_000u128 * 1_000_000_000_000_000u128 / 1_000_990_000_000u128) as u64;
    assert_eq!(outcome.trade.amount_out, 1_000_000_000_000_000 - left);
    assert_eq!(ctx.bonding_curve.graduated, GraduationState::Active);
    assert_eq!(ctx.bonding_curve.real_sol_reserves, 990_000_000);
    assert_eq!(ctx.bonding_curve.virtual_sol_reserves, 1_000_990_000_000);
    assert_eq!(ctx.bonding_curve.virtual_token_reserves, left);
    assert_eq!(ctx.bonding_curve_lamports, 992_000_000);
    assert_eq!(ctx.global_config.total_volume_sol, 990_000_000);
    assert_eq!(ctx.relayer_token_account, before.relayer_token_account);
    assert_eq!(ctx.relayer_wsol_account, before.relayer_wsol_account);
    // the account still backs what the ledger counts
    assert!(
        ctx.bonding_curve.real_sol_reserves + ctx.rent_exempt_minimum <= ctx.bonding_curve_lamports
    );
    assert_eq!(
        outcome.custody_actions().len(),
        3,
        "net to the curve, fee to the treasury, tokens to the buyer"
    );
}

#[test]
fn buy_whose_sweep_is_refused_changes_nothing() {
    let mut ctx = accounts(84_000_000_000, 800_000_000_000_000, 84_002_000_000, 2_000_000);
    ctx.relayer_wsol_account = missing(tagged(77));
    let before = ctx;
    assert_eq!(buy(&mut ctx, 2_000_000_000, 1), Err(PumpError::ExternalAccountMismatch));
    assert_eq!(ctx, before);
    // a smaller buy stays below the threshold and goes through
    assert!(buy(&mut ctx, 1_000_000_000, 1).is_ok());
    assert_eq!(ctx.bonding_curve.graduated, GraduationState::Active);
}

#[test]
fn buy_is_refused_when_the_native_balance_would_overflow() {
    let mut ctx = accounts(0, 800_000_000_000_000, u64::MAX, 2_000_000);
    let before = ctx;
    assert_eq!(buy(&mut ctx, 1_000_000_000, 1), Err(PumpError::ArithmeticOverflow));
    assert_eq!(ctx, before);
}

#[test]
fn curve_graduates_through_buys_and_then_refuses_trades() {
    let mut ctx = accounts(0, 800_000_000_000_000, 2_000_000, 2_000_000);
    let mut buys: u32 = 0;
    let mut bought: u64 = 0;
    let mut last: Option<BuyOutcome> = None;
    while ctx.bonding_curve.graduated == GraduationState::Active {
        let before = ctx;
        let outcome = buy(&mut ctx, 10_000_000_000, 41).unwrap();
        buys += 1;
        bought += outcome.trade.amount_out;
        assert_eq!(outcome.trade.net, 9_900_000_000);
        let reached = before.bonding_curve.real_sol_reserves + 9_900_000_000 >= 85_000_000_000;
        assert_eq!(outcome.migration.is_some(), reached);
        assert_eq!(ctx.bonding_curve.graduated == GraduationState::Pending, reached);
        last = Some(outcome);
        assert!(buys < 20);
    }
    // nine buys of 9.9 SOL net take the reserve to 89.1 SOL
    assert_eq!(buys, 9);
    let migration = last.unwrap().migration.unwrap();
    assert_eq!(migration.request.nonce, 41);
    assert_eq!(migration.request.wsol_amount, 89_100_000_000);
    assert_eq!(migration.request.token_amount, 800_000_000_000_000 - bought);
    assert_eq!(migration.event.token_amount, migration.request.token_amount);
    assert_eq!(ctx.bonding_curve.virtual_token_reserves, 1_000_000_000_000_000 - bought);
    assert_eq!(ctx.bonding_curve.graduated, GraduationState::Pending);
    assert_eq!(ctx.bonding_curve.real_sol_reserves, 0);
    assert_eq!(ctx.bonding_curve.real_token_reserves, 0);
    assert_eq!(ctx.bonding_curve_lamports, 2_000_000);
    assert_eq!(ctx.global_config.total_volume_sol, 89_100_000_000);

    // pending: no trade
    let pending = ctx;
    assert_eq!(buy(&mut ctx, 1_000_000_000, 42), Err(PumpError::InvalidCurveState));
    assert_eq!(ctx, pending);
    let mut curve = ctx.bonding_curve;
    let mut config = ctx.global_config;
    assert_eq!(
        execute_sell(&mut curve, &mut config, 1_000, ctx.bonding_curve_lamports, ctx.rent_exempt_minimum),
        Err(PumpError::InvalidCurveState)
    );

    // the pool answers
    let mut step = Graduate {
        bonding_curve: ctx.bonding_curve,
        bonding_curve_key: ctx.bonding_curve_key,
        request: migration.request,
        liquidity_receipts: 0,
        unix_timestamp: 1_700_000_100,
    };
    let confirmation = confirm(&mut step, tagged(88), LiquidityPolicy::Retain).unwrap();
    assert_eq!(confirmation.event.pool, tagged(88));
    assert_eq!(step.bonding_curve.graduated, GraduationState::Graduated);
    assert_eq!(step.bonding_curve.pool, Some(tagged(88)));
    assert!(step.request.fulfilled);

    // graduated: no trade, no sweep, no second confirmation
    ctx.bonding_curve = step.bonding_curve;
    let graduated = ctx;
    assert_eq!(buy(&mut ctx, 1_000_000_000, 43), Err(PumpError::InvalidCurveState));
    assert_eq!(buy(&mut ctx, 0, 43), Err(PumpError::InvalidCurveState));
    let mut curve = ctx.bonding_curve;
    assert_eq!(
        execute_sell(&mut curve, &mut config, 1_000, ctx.bonding_curve_lamports, ctx.rent_exempt_minimum),
        Err(PumpError::InvalidCurveState)
    );
    assert_eq!(graduate_internal(&mut ctx, 44), Err(PumpError::InvalidCurveState));
    assert_eq!(ctx, graduated);
    assert_eq!(confirm(&mut step, tagged(89), LiquidityPolicy::Retain), Err(PumpError::InvalidCurveState));
    assert_eq!(step.bonding_curve.pool, Some(tagged(88)));
}

#[test]
fn confirmation_needs_a_pending_curve() {
    let ctx = accounts(0, 0, 2_000_000, 2_000_000);
    let request = MigrationRequest {
        bonding_curve: ctx.bonding_curve_key,
        nonce: 1,
        token_amount: 5,
        wsol_amount: 6,
        fulfilled: false,
        pool: None,
    };
    let mut step = Graduate {
        bonding_curve: ctx.bonding_curve,
        bonding_curve_key: ctx.bonding_curve_key,
        request,
        liquidity_receipts: 12,
        unix_timestamp: 5,
    };
    let before = step;
    assert_eq!(confirm(&mut step, tagged(88), LiquidityPolicy::Burn), Err(PumpError::InvalidCurveState));
    assert_eq!(step, before);
}

#[test]
fn confirmation_needs_a_request_of_the_same_curve() {
    let mut ctx = accounts(0, 0, 2_000_000, 2_000_000);
    ctx.bonding_curve.graduated = GraduationState::Pending;
    let request = MigrationRequest {
        bonding_curve: tagged(6),
        nonce: 1,
        token_amount: 5,
        wsol_amount: 6,
        fulfilled: false,
        pool: None,
    };
    let mut step = Graduate {
        bonding_curve: ctx.bonding_curve,
        bonding_curve_key: ctx.bonding_curve_key,
        request,
        liquidity_receipts: 12,
        unix_timestamp: 5,
    };
    let before = step;
    assert_eq!(
        confirm(&mut step, tagged(88), LiquidityPolicy::Burn),
        Err(PumpError::ExternalAccountMismatch)
    );
    assert_eq!(step, before);
}

#[test]
fn confirmation_burns_or_retains_the_liquidity_receipts() {
    let mut ctx = accounts(0, 0, 2_000_000, 2_000_000);
    ctx.bonding_curve.graduated = GraduationState::Pending;
    let request = MigrationRequest {
        bonding_curve: ctx.bonding_curve_key,
        nonce: 3,
        token_amount: 5,
        wsol_amount: 6,
        fulfilled: false,
        pool: None,
    };
    let start = Graduate {
        bonding_curve: ctx.bonding_curve,
        bonding_curve_key: ctx.bonding_curve_key,
        request,
        liquidity_receipts: 12,
        unix_timestamp: 5,
    };
    let event = GraduatedEvent {
        mint: token_mint(),
        pool: tagged(88),
        authority: ctx.bonding_curve_key,
        timestamp: 5,
    };
    let done = |receipts: u64| Graduate {
        bonding_curve: BondingCurve {
            graduated: GraduationState::Graduated,
            pool: Some(tagged(88)),
            ..start.bonding_curve
        },
        request: MigrationRequest { fulfilled: true, pool: Some(tagged(88)), ..request },
        liquidity_receipts: receipts,
        ..start
    };

    let mut step = start;
    assert_eq!(
        confirm(&mut step, tagged(88), LiquidityPolicy::Burn),
        Ok(Confirmation { event, burned: 12 })
    );
    assert_eq!(step, done(0));

    let mut step = start;
    assert_eq!(
        confirm(&mut step, tagged(88), LiquidityPolicy::Retain),
        Ok(Confirmation { event, burned: 0 })
    );
    assert_eq!(step, done(12));
}
