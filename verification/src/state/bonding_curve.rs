use vstd::prelude::*;
use crate::address::Address;
use crate::state::config::{
    INITIAL_VIRTUAL_SOL_RESERVES, INITIAL_VIRTUAL_TOKEN_RESERVES, REAL_TOKEN_RESERVES,
    TOKEN_TOTAL_SUPPLY,
};

verus! {

/// Where a curve stands on its way to a liquidity pool.
#[derive(Clone, Copy, Debug, PartialEq, Eq, Structural)]
pub enum GraduationState {
    /// Trading is open.
    Active,
    /// The reserves are being swept; trading is closed.
    Pending,
    /// The pool stands; trading is closed for good.
    Graduated,
}

/// The ledger of one token's curve.
///
/// The virtual reserves price trades and nothing else. The real reserves count what the curve
/// holds in custody for its traders: native balance above the rent-exempt minimum, and tokens.
#[derive(Clone, Copy, Debug, PartialEq, Eq)]
pub struct BondingCurve {
    pub creator: Address,
    pub token_mint: Address,
    pub pool: Option<Address>,
    pub virtual_sol_reserves: u64,
    pub virtual_token_reserves: u64,
    pub real_sol_reserves: u64,
    pub real_token_reserves: u64,
    pub graduated: GraduationState,
    pub bump: u8,
}

impl BondingCurve {
    /// The curve of a token at its launch: active, with the initial virtual reserves, no base
    /// and the initial real token reserve.
    pub open spec fn launched(creator: Address, token_mint: Address, bump: u8) -> BondingCurve {
        BondingCurve {
            creator,
            token_mint,
            pool: None,
            virtual_sol_reserves: INITIAL_VIRTUAL_SOL_RESERVES,
            virtual_token_reserves: INITIAL_VIRTUAL_TOKEN_RESERVES,
            real_sol_reserves: 0,
            real_token_reserves: REAL_TOKEN_RESERVES,
            graduated: GraduationState::Active,
            bump,
        }
    }

    /// A curve names its pool exactly when it has graduated, and neither real reserve exceeds
    /// the virtual reserve that prices it.
    pub open spec fn wf(self) -> bool {
        &&& self.graduated == GraduationState::Graduated <==> self.pool is Some
        &&& self.real_sol_reserves <= self.virtual_sol_reserves
        &&& self.real_token_reserves <= self.virtual_token_reserves
    }
}

/// A curve at its launch is well formed: both virtual reserves are positive and seeded at or
/// above the real ones, the token reserve strictly so, and the tokens minted into its custody
/// cover its real token reserve.
pub proof fn lemma_launched_is_well_formed(creator: Address, token_mint: Address, bump: u8)
    ensures
        BondingCurve::launched(creator, token_mint, bump).wf(),
        BondingCurve::launched(creator, token_mint, bump).graduated == GraduationState::Active,
        BondingCurve::launched(creator, token_mint, bump).virtual_sol_reserves > 0,
        BondingCurve::launched(creator, token_mint, bump).virtual_token_reserves > 0,
        BondingCurve::launched(creator, token_mint, bump).real_sol_reserves
            <= BondingCurve::launched(creator, token_mint, bump).virtual_sol_reserves,
        BondingCurve::launched(creator, token_mint, bump).real_token_reserves
            < BondingCurve::launched(creator, token_mint, bump).virtual_token_reserves,
        BondingCurve::launched(creator, token_mint, bump).real_token_reserves
            <= TOKEN_TOTAL_SUPPLY,
{
}

/// The native balance of an account that may be moved without taking the account below its
/// rent-exempt minimum.
pub open spec fn spendable(lamports: u64, rent_exempt_minimum: u64) -> int {
    if lamports >= rent_exempt_minimum {
        lamports - rent_exempt_minimum
    } else {
        0
    }
}

/// The curve's account holds its rent-exempt minimum and, above it, at least the base that the
/// ledger counts.
pub open spec fn backed(curve: BondingCurve, lamports: u64, rent_exempt_minimum: u64) -> bool {
    curve.real_sol_reserves + rent_exempt_minimum <= lamports
}

/// Computes `spendable`.
pub fn spendable_lamports(lamports: u64, rent_exempt_minimum: u64) -> (amount: u64)
    ensures
        amount == spendable(lamports, rent_exempt_minimum),
{
    if lamports >= rent_exempt_minimum {
        lamports - rent_exempt_minimum
    } else {
        0
    }
}

/// Reported when a token has been launched: what to mint into the curve's custody and what the
/// creator owes the treasury.
#[derive(Clone, Copy, Debug, PartialEq, Eq)]
pub struct CurveCreated {
    pub creator: Address,
    pub token_mint: Address,
    pub minted: u64,
    pub creation_fee: u64,
    pub treasury: Address,
}

} // verus!
