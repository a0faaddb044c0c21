use vstd::prelude::*;
use crate::account::buy_tokens::BuyTokens;
use crate::account::holding::{ensured, holding_account_matches, HoldingAccount, HoldingAccountStatus};
use crate::address::{associated_token_address, get_associated_token_address, view_of, Address};
use crate::custody::{migration_actions, CustodyAction};
use crate::error::PumpError;
use crate::state::bonding_curve::{backed, spendable, spendable_lamports, BondingCurve, GraduationState};
use crate::state::pool_request::{CreatePoolRequestEvent, Migration, MigrationRequest};

verus! {

/// The address derived for the account that holds the swept tokens: the relayer's token
/// account for the curve's mint.
pub open spec fn expected_token_account(ctx: BuyTokens) -> Option<Seq<u8>> {
    associated_token_address(ctx.relayer@, ctx.bonding_curve.token_mint@)
}

/// The address derived for the account that holds the swept base: the relayer's token account
/// for wrapped base.
pub open spec fn expected_wsol_account(ctx: BuyTokens) -> Option<Seq<u8>> {
    associated_token_address(ctx.relayer@, ctx.wsol_mint@)
}

/// Why a sweep is refused, if it is, where `expected_token` and `expected_wsol` are the
/// addresses derived for the two holding accounts. The conditions are tested in this order,
/// and the first that holds names the error.
pub open spec fn graduation_error(
    ctx: BuyTokens,
    expected_token: Option<Seq<u8>>,
    expected_wsol: Option<Seq<u8>>,
) -> Option<PumpError> {
    if ctx.bonding_curve.graduated == GraduationState::Graduated {
        Some(PumpError::InvalidCurveState)
    } else if !holding_account_matches(
        ctx.relayer_token_account,
        expected_token,
        ctx.relayer,
        ctx.bonding_curve.token_mint,
    ) {
        Some(PumpError::ExternalAccountMismatch)
    } else if !holding_account_matches(
        ctx.relayer_wsol_account,
        expected_wsol,
        ctx.relayer,
        ctx.wsol_mint,
    ) {
        Some(PumpError::ExternalAccountMismatch)
    } else {
        None
    }
}

/// The tokens that a sweep moves: the whole real token reserve, as the ledger has it now.
pub open spec fn swept_tokens(ctx: BuyTokens) -> int {
    ctx.bonding_curve.real_token_reserves as int
}

/// The base that a sweep takes from a base reserve of `real_sol`, where the curve's account
/// holds `lamports`: the reserve, but no more than the account holds above its rent-exempt
/// minimum.
pub open spec fn sweep_amount(real_sol: u64, lamports: u64, rent_exempt_minimum: u64) -> int {
    let free = spendable(lamports, rent_exempt_minimum);
    if real_sol <= free {
        real_sol as int
    } else {
        free
    }
}

/// The base that a sweep moves: `sweep_amount` of the real base reserve, as the ledger has it
/// now.
pub open spec fn swept_sol(ctx: BuyTokens) -> int {
    sweep_amount(
        ctx.bonding_curve.real_sol_reserves,
        ctx.bonding_curve_lamports,
        ctx.rent_exempt_minimum,
    )
}

/// The base that sweeps in a row take in all from a base reserve of `real_sol`, where the
/// curve's account holds `balances[i]` when sweep `i` begins, whatever was paid into it or
/// out of it in between.
pub open spec fn swept_in_all(real_sol: u64, rent_exempt_minimum: u64, balances: Seq<u64>) -> int
    decreases balances.len(),
{
    if balances.len() == 0 {
        0
    } else {
        let first = sweep_amount(real_sol, balances[0], rent_exempt_minimum);
        first + swept_in_all(
            (real_sol - first) as u64,
            rent_exempt_minimum,
            balances.drop_first(),
        )
    }
}

/// The accounts after a sweep that is not refused. The curve is pending, its token reserve is
/// empty, and its base reserve and native balance are down by the base swept: what the
/// rent-exempt minimum kept back stays in the reserve. Both holding accounts exist.
pub open spec fn accounts_after_graduation(ctx: BuyTokens) -> BuyTokens {
    BuyTokens {
        bonding_curve: BondingCurve {
            real_token_reserves: 0,
            real_sol_reserves: (ctx.bonding_curve.real_sol_reserves - swept_sol(ctx)) as u64,
            graduated: GraduationState::Pending,
            ..ctx.bonding_curve
        },
        bonding_curve_lamports: (ctx.bonding_curve_lamports - swept_sol(ctx)) as u64,
        relayer_token_account: ensured(
            ctx.relayer_token_account,
            ctx.relayer,
            ctx.bonding_curve.token_mint,
        ),
        relayer_wsol_account: ensured(ctx.relayer_wsol_account, ctx.relayer, ctx.wsol_mint),
        ..ctx
    }
}

/// What a sweep under `nonce` that is not refused records and reports.
pub open spec fn migration_of(ctx: BuyTokens, nonce: u64) -> Migration {
    Migration {
        request: MigrationRequest {
            bonding_curve: ctx.bonding_curve_key,
            nonce,
            token_amount: swept_tokens(ctx) as u64,
            wsol_amount: swept_sol(ctx) as u64,
            fulfilled: false,
            pool: None,
        },
        event: CreatePoolRequestEvent {
            bonding_curve: ctx.bonding_curve_key,
            token_mint: ctx.bonding_curve.token_mint,
            wsol_mint: ctx.wsol_mint,
            wsol_ata: ctx.relayer_wsol_account.address,
            token_ata: ctx.relayer_token_account.address,
            token_amount: swept_tokens(ctx) as u64,
            wsol_amount: swept_sol(ctx) as u64,
            creator: ctx.bonding_curve.creator,
            nonce,
            timestamp: ctx.unix_timestamp,
        },
        token_account: ctx.relayer_token_account.status(),
        wsol_account: ctx.relayer_wsol_account.status(),
    }
}

/// Sweeps the reserves of the curve of `ctx` into the relayer's two holding accounts, whose
/// addresses were derived as `expected_token_account` and `expected_wsol_account`, and records
/// the attempt under `nonce`.
///
/// The curve must not have graduated; a pending curve may be swept again. Each holding account
/// must be the one expected, and one that exists is validated rather than created. The amounts
/// are taken from the ledger as it stands: all of the token reserve, and as much of the base
/// reserve as the curve's account holds above its rent-exempt minimum. On success the accounts
/// are those of `accounts_after_graduation` and the result is `migration_of`. The sweep is
/// refused exactly as `graduation_error` says, and a refused sweep changes nothing.
pub fn begin_graduation(
    ctx: &mut BuyTokens,
    nonce: u64,
    expected_token_account: Option<Address>,
    expected_wsol_account: Option<Address>,
) -> (result: Result<Migration, PumpError>)
    ensures
        match result {
            Ok(migration) => {
                &&& graduation_error(
                    *old(ctx),
                    view_of(expected_token_account),
                    view_of(expected_wsol_account),
                ) is None
                &&& migration == migration_of(*old(ctx), nonce)
                &&& migration.request.token_amount == swept_tokens(*old(ctx))
                &&& migration.request.wsol_amount == swept_sol(*old(ctx))
                &&& *final(ctx) == accounts_after_graduation(*old(ctx))
            },
            Err(error) => {
                &&& graduation_error(
                    *old(ctx),
                    view_of(expected_token_account),
                    view_of(expected_wsol_account),
                ) == Some(error)
                &&& *final(ctx) == *old(ctx)
            },
        },
        0 <= swept_sol(*old(ctx)) <= old(ctx).bonding_curve.real_sol_reserves,
        swept_sol(*old(ctx)) <= spendable(
            old(ctx).bonding_curve_lamports,
            old(ctx).rent_exempt_minimum,
        ),
        old(ctx).bonding_curve.wf() ==> final(ctx).bonding_curve.wf(),
        backed(
            old(ctx).bonding_curve,
            old(ctx).bonding_curve_lamports,
            old(ctx).rent_exempt_minimum,
        ) ==> backed(
            final(ctx).bonding_curve,
            final(ctx).bonding_curve_lamports,
            final(ctx).rent_exempt_minimum,
        ),
{
    match ctx.bonding_curve.graduated {
        GraduationState::Graduated => {
            return Err(PumpError::InvalidCurveState);
        },
        _ => {},
    }
    let mut token_account: HoldingAccount = ctx.relayer_token_account;
    let token_status: HoldingAccountStatus = match token_account.ensure(
        &expected_token_account,
        &ctx.relayer,
        &ctx.bonding_curve.token_mint,
    ) {
        Ok(status) => status,
        Err(error) => {
            return Err(error);
        },
    };
    let mut wsol_account: HoldingAccount = ctx.relayer_wsol_account;
    let wsol_status: HoldingAccountStatus = match wsol_account.ensure(
        &expected_wsol_account,
        &ctx.relayer,
        &ctx.wsol_mint,
    ) {
        Ok(status) => status,
        Err(error) => {
            return Err(error);
        },
    };
    let token_amount: u64 = ctx.bonding_curve.real_token_reserves;
    let free: u64 = spendable_lamports(ctx.bonding_curve_lamports, ctx.rent_exempt_minimum);
    let wsol_amount: u64 = if ctx.bonding_curve.real_sol_reserves <= free {
        ctx.bonding_curve.real_sol_reserves
    } else {
        free
    };
    let migration = Migration {
        request: MigrationRequest {
            bonding_curve: ctx.bonding_curve_key,
            nonce,
            token_amount,
            wsol_amount,
            fulfilled: false,
            pool: None,
        },
        event: CreatePoolRequestEvent {
            bonding_curve: ctx.bonding_curve_key,
            token_mint: ctx.bonding_curve.token_mint,
            wsol_mint: ctx.wsol_mint,
            wsol_ata: ctx.relayer_wsol_account.address,
            token_ata: ctx.relayer_token_account.address,
            token_amount,
            wsol_amount,
            creator: ctx.bonding_curve.creator,
            nonce,
            timestamp: ctx.unix_timestamp,
        },
        token_account: token_status,
        wsol_account: wsol_status,
    };
    ctx.relayer_token_account = token_account;
    ctx.relayer_wsol_account = wsol_account;
    ctx.bonding_curve.real_token_reserves = 0;
    ctx.bonding_curve.real_sol_reserves = ctx.bonding_curve.real_sol_reserves - wsol_amount;
    ctx.bonding_curve.graduated = GraduationState::Pending;
    ctx.bonding_curve_lamports = ctx.bonding_curve_lamports - wsol_amount;
    Ok(migration)
}

/// Sweeps the reserves of the curve of `ctx` into the relayer's two holding accounts and
/// records the attempt under `nonce`.
///
/// This derives the addresses of the relayer's token accounts for the curve's mint and for
/// wrapped base, and then does what `begin_graduation` does with them.
pub fn graduate_internal(ctx: &mut BuyTokens, nonce: u64) -> (result: Result<Migration, PumpError>)
    ensures
        match result {
            Ok(migration) => {
                &&& graduation_error(
                    *old(ctx),
                    expected_token_account(*old(ctx)),
                    expected_wsol_account(*old(ctx)),
                ) is None
                &&& migration == migration_of(*old(ctx), nonce)
                &&& migration.request.token_amount == swept_tokens(*old(ctx))
                &&& migration.request.wsol_amount == swept_sol(*old(ctx))
                &&& *final(ctx) == accounts_after_graduation(*old(ctx))
            },
            Err(error) => {
                &&& graduation_error(
                    *old(ctx),
                    expected_token_account(*old(ctx)),
                    expected_wsol_account(*old(ctx)),
                ) == Some(error)
                &&& *final(ctx) == *old(ctx)
            },
        },
        old(ctx).bonding_curve.wf() ==> final(ctx).bonding_curve.wf(),
        backed(
            old(ctx).bonding_curve,
            old(ctx).bonding_curve_lamports,
            old(ctx).rent_exempt_minimum,
        ) ==> backed(
            final(ctx).bonding_curve,
            final(ctx).bonding_curve_lamports,
            final(ctx).rent_exempt_minimum,
        ),
{
    let expected_token: Option<Address> = get_associated_token_address(
        &ctx.relayer,
        &ctx.bonding_curve.token_mint,
    );
    let expected_wsol: Option<Address> = get_associated_token_address(&ctx.relayer, &ctx.wsol_mint);
    begin_graduation(ctx, nonce, expected_token, expected_wsol)
}

/// A sweep takes from each reserve no more than the ledger counts, and of the base no more than
/// the curve's account holds above its rent-exempt minimum. What it does not take stays in the
/// reserve: the base reserve before is the base swept and the base reserve after.
pub proof fn lemma_sweep_is_capped(ctx: BuyTokens)
    ensures
        0 <= swept_tokens(ctx) <= ctx.bonding_curve.real_token_reserves,
        0 <= swept_sol(ctx) <= ctx.bonding_curve.real_sol_reserves,
        swept_sol(ctx) <= spendable(ctx.bonding_curve_lamports, ctx.rent_exempt_minimum),
        swept_sol(ctx) <= ctx.bonding_curve_lamports,
        accounts_after_graduation(ctx).bonding_curve.real_sol_reserves + swept_sol(ctx)
            == ctx.bonding_curve.real_sol_reserves,
        accounts_after_graduation(ctx).bonding_curve_lamports + swept_sol(ctx)
            == ctx.bonding_curve_lamports,
        ctx.bonding_curve_lamports >= ctx.rent_exempt_minimum ==> accounts_after_graduation(
            ctx,
        ).bonding_curve_lamports >= ctx.rent_exempt_minimum,
        backed(ctx.bonding_curve, ctx.bonding_curve_lamports, ctx.rent_exempt_minimum)
            ==> swept_sol(ctx) == ctx.bonding_curve.real_sol_reserves,
{
}

/// However many sweeps follow one another, and whatever the curve's account holds at each,
/// they take in all no more than the base reserve held before the first: no base is swept
/// twice.
pub proof fn lemma_sweeps_never_exceed_the_reserve(
    real_sol: u64,
    rent_exempt_minimum: u64,
    balances: Seq<u64>,
)
    ensures
        0 <= swept_in_all(real_sol, rent_exempt_minimum, balances) <= real_sol,
    decreases balances.len(),
{
    if balances.len() > 0 {
        let first = sweep_amount(real_sol, balances[0], rent_exempt_minimum);
        lemma_sweeps_never_exceed_the_reserve(
            (real_sol - first) as u64,
            rent_exempt_minimum,
            balances.drop_first(),
        );
    }
}

/// A sweep that follows a sweep, with no trade and no payment into the curve's account between
/// them, is not refused, sweeps nothing, asks custody for no action at all, and leaves the
/// accounts as the first sweep left them.
pub proof fn lemma_second_sweep_is_empty(
    ctx: BuyTokens,
    nonce: u64,
    expected_token: Option<Seq<u8>>,
    expected_wsol: Option<Seq<u8>>,
)
    requires
        graduation_error(ctx, expected_token, expected_wsol) is None,
    ensures
        ({
            let swept = accounts_after_graduation(ctx);
            &&& graduation_error(swept, expected_token, expected_wsol) is None
            &&& migration_of(swept, nonce).request.token_amount == 0
            &&& migration_of(swept, nonce).request.wsol_amount == 0
            &&& migration_of(swept, nonce).event.token_amount == 0
            &&& migration_of(swept, nonce).event.wsol_amount == 0
            &&& migration_actions(migration_of(swept, nonce)) == Seq::<CustodyAction>::empty()
            &&& accounts_after_graduation(swept) == swept
        }),
{
}

} // verus!
