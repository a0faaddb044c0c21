use vstd::prelude::*;
use crate::account::create_token::CreateToken;
use crate::address::{find_metadata_address, metadata_address, view_of, Address};
use crate::error::PumpError;
use crate::state::bonding_curve::{BondingCurve, CurveCreated, GraduationState};
use crate::state::config::{
    GlobalConfig, INITIAL_VIRTUAL_SOL_RESERVES, INITIAL_VIRTUAL_TOKEN_RESERVES,
    REAL_TOKEN_RESERVES, TOKEN_TOTAL_SUPPLY,
};

verus! {

/// Why a launch is refused, if it is, where `expected_metadata` is the address derived for the
/// token's metadata account. The conditions are tested in this order, and the first that holds
/// names the error.
pub open spec fn create_error(ctx: CreateToken, expected_metadata: Option<Seq<u8>>) -> Option<
    PumpError,
> {
    if ctx.treasury != ctx.global_config.treasury {
        Some(PumpError::IncorrectFeeRecipient)
    } else if expected_metadata != Some(ctx.metadata_account@) {
        Some(PumpError::ExternalAccountMismatch)
    } else if ctx.global_config.total_tokens_created == u64::MAX {
        Some(PumpError::ArithmeticOverflow)
    } else {
        None
    }
}

/// The accounts after a launch that is not refused: the curve is the one of a token at its
/// launch, and the configuration counts one token more.
pub open spec fn accounts_after_create(ctx: CreateToken) -> CreateToken {
    CreateToken {
        bonding_curve: BondingCurve::launched(ctx.creator, ctx.token_mint, ctx.bonding_curve_bump),
        global_config: GlobalConfig {
            total_tokens_created: (ctx.global_config.total_tokens_created + 1) as u64,
            ..ctx.global_config
        },
        ..ctx
    }
}

/// What a launch that is not refused reports.
pub open spec fn created_event(ctx: CreateToken) -> CurveCreated {
    CurveCreated {
        creator: ctx.creator,
        token_mint: ctx.token_mint,
        minted: TOKEN_TOTAL_SUPPLY,
        creation_fee: ctx.global_config.creation_fee,
        treasury: ctx.global_config.treasury,
    }
}

/// Launches the token of `ctx`, whose metadata account was derived as
/// `expected_metadata_account`.
///
/// The account that is to receive the creation fee must be the treasury of the configuration,
/// and the metadata account must be the one derived. On success the curve is written as
/// `BondingCurve::launched`, the configuration counts one token more, and the event says what
/// to mint and what fee to move. The new curve is active and well formed: its virtual reserves
/// are positive and at or above its real ones, and what is minted covers its real token
/// reserve. The launch is refused exactly as `create_error` says, and a
/// refused launch changes nothing.
pub fn create_curve(ctx: &mut CreateToken, expected_metadata_account: Option<Address>) -> (result:
    Result<CurveCreated, PumpError>)
    ensures
        match result {
            Ok(event) => {
                &&& create_error(*old(ctx), view_of(expected_metadata_account)) is None
                &&& event == created_event(*old(ctx))
                &&& *final(ctx) == accounts_after_create(*old(ctx))
                &&& final(ctx).bonding_curve.wf()
                &&& final(ctx).bonding_curve.graduated == GraduationState::Active
                &&& 0 < final(ctx).bonding_curve.virtual_sol_reserves
                &&& 0 < final(ctx).bonding_curve.virtual_token_reserves
                &&& final(ctx).bonding_curve.real_sol_reserves
                    <= final(ctx).bonding_curve.virtual_sol_reserves
                &&& final(ctx).bonding_curve.real_token_reserves
                    <= final(ctx).bonding_curve.virtual_token_reserves
                &&& final(ctx).bonding_curve.real_token_reserves <= event.minted
            },
            Err(error) => {
                &&& create_error(*old(ctx), view_of(expected_metadata_account)) == Some(error)
                &&& *final(ctx) == *old(ctx)
            },
        },
{
    if !ctx.treasury.same(&ctx.global_config.treasury) {
        return Err(PumpError::IncorrectFeeRecipient);
    }
    let at_expected: bool = match expected_metadata_account {
        Some(address) => ctx.metadata_account.same(&address),
        None => false,
    };
    if !at_expected {
        return Err(PumpError::ExternalAccountMismatch);
    }
    let created: u64 = match ctx.global_config.total_tokens_created.checked_add(1) {
        Some(sum) => sum,
        None => {
            return Err(PumpError::ArithmeticOverflow);
        },
    };
    ctx.bonding_curve = BondingCurve {
        creator: ctx.creator,
        token_mint: ctx.token_mint,
        pool: None,
        virtual_sol_reserves: INITIAL_VIRTUAL_SOL_RESERVES,
        virtual_token_reserves: INITIAL_VIRTUAL_TOKEN_RESERVES,
        real_sol_reserves: 0,
        real_token_reserves: REAL_TOKEN_RESERVES,
        graduated: GraduationState::Active,
        bump: ctx.bonding_curve_bump,
    };
    ctx.global_config.total_tokens_created = created;
    Ok(
        CurveCreated {
            creator: ctx.creator,
            token_mint: ctx.token_mint,
            minted: TOKEN_TOTAL_SUPPLY,
            creation_fee: ctx.global_config.creation_fee,
            treasury: ctx.global_config.treasury,
        },
    )
}

/// Launches the token of `ctx`.
///
/// This derives the address of the metadata account of the token's mint, and then does what
/// `create_curve` does with it.
pub fn handler(ctx: &mut CreateToken) -> (result: Result<CurveCreated, PumpError>)
    ensures
        match result {
            Ok(event) => {
                &&& create_error(*old(ctx), metadata_address(old(ctx).token_mint@)) is None
                &&& event == created_event(*old(ctx))
                &&& *final(ctx) == accounts_after_create(*old(ctx))
                &&& final(ctx).bonding_curve.wf()
                &&& final(ctx).bonding_curve.graduated == GraduationState::Active
                &&& 0 < final(ctx).bonding_curve.virtual_sol_reserves
                &&& 0 < final(ctx).bonding_curve.virtual_token_reserves
                &&& final(ctx).bonding_curve.real_sol_reserves
                    <= final(ctx).bonding_curve.virtual_sol_reserves
                &&& final(ctx).bonding_curve.real_token_reserves
                    <= final(ctx).bonding_curve.virtual_token_reserves
                &&& final(ctx).bonding_curve.real_token_reserves <= event.minted
            },
            Err(error) => {
                &&& create_error(*old(ctx), metadata_address(old(ctx).token_mint@)) == Some(error)
                &&& *final(ctx) == *old(ctx)
            },
        },
{
    let expected: Option<Address> = find_metadata_address(&ctx.token_mint);
    create_curve(ctx, expected)
}

} // verus!
