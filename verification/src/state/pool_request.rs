use vstd::prelude::*;
use crate::account::holding::HoldingAccountStatus;
use crate::address::Address;

verus! {

/// One attempt to graduate a curve: what was swept out of it, under which nonce, and whether a
/// pool has answered it.
#[derive(Clone, Copy, Debug, PartialEq, Eq)]
pub struct MigrationRequest {
    pub bonding_curve: Address,
    pub nonce: u64,
    pub token_amount: u64,
    pub wsol_amount: u64,
    pub fulfilled: bool,
    pub pool: Option<Address>,
}

/// Reported when reserves have been swept and a pool is asked for.
#[derive(Clone, Copy, Debug, PartialEq, Eq)]
pub struct CreatePoolRequestEvent {
    pub bonding_curve: Address,
    pub token_mint: Address,
    pub wsol_mint: Address,
    pub wsol_ata: Address,
    pub token_ata: Address,
    pub token_amount: u64,
    pub wsol_amount: u64,
    pub creator: Address,
    pub nonce: u64,
    pub timestamp: i64,
}

/// What one sweep of a curve's reserves did: the request it recorded, the event it reports,
/// and how each of the two holding accounts came to be there.
#[derive(Clone, Copy, Debug, PartialEq, Eq)]
pub struct Migration {
    pub request: MigrationRequest,
    pub event: CreatePoolRequestEvent,
    pub token_account: HoldingAccountStatus,
    pub wsol_account: HoldingAccountStatus,
}

} // verus!
