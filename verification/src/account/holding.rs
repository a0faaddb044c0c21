use vstd::prelude::*;
use crate::address::{view_of, Address};
use crate::error::PumpError;

verus! {

/// A token account that is to hold swept reserves: its address and, once it exists, who may
/// spend from it and which asset it holds.
#[derive(Clone, Copy, Debug, PartialEq, Eq)]
pub struct HoldingAccount {
    pub address: Address,
    /// Whether the account exists. Where it does not, `owner` and `mint` say nothing.
    pub initialized: bool,
    pub owner: Address,
    pub mint: Address,
}

/// How a holding account came to be there.
#[derive(Clone, Copy, Debug, PartialEq, Eq, Structural)]
pub enum HoldingAccountStatus {
    /// It was there already.
    Existed,
    /// It was missing and is to be created.
    Created,
}

/// The account is the one expected: it sits at the expected address and, where it exists, is
/// held by `owner` for `mint`.
pub open spec fn holding_account_matches(
    account: HoldingAccount,
    expected: Option<Seq<u8>>,
    owner: Address,
    mint: Address,
) -> bool {
    &&& expected == Some(account.address@)
    &&& account.initialized ==> account.owner == owner && account.mint == mint
}

/// The account once it is sure to exist: held by `owner` for `mint`, at its address.
pub open spec fn ensured(account: HoldingAccount, owner: Address, mint: Address) -> HoldingAccount {
    HoldingAccount { address: account.address, initialized: true, owner, mint }
}

impl HoldingAccount {
    /// Whether the account was there already or is to be created.
    pub open spec fn status(self) -> HoldingAccountStatus {
        if self.initialized {
            HoldingAccountStatus::Existed
        } else {
            HoldingAccountStatus::Created
        }
    }

    /// Makes sure of the account that is to hold `mint` for `owner`, whose address was derived
    /// as `expected`.
    ///
    /// An account that matches is left as `ensured` and its former status is returned: one
    /// that exists is validated, never created anew. Any other account fails with
    /// `ExternalAccountMismatch` and is left as it was; so is every account where no address
    /// could be derived.
    pub fn ensure(&mut self, expected: &Option<Address>, owner: &Address, mint: &Address) -> (result:
        Result<HoldingAccountStatus, PumpError>)
        ensures
            holding_account_matches(*old(self), view_of(*expected), *owner, *mint) ==> {
                &&& result == Ok::<HoldingAccountStatus, PumpError>(old(self).status())
                &&& *final(self) == ensured(*old(self), *owner, *mint)
            },
            !holding_account_matches(*old(self), view_of(*expected), *owner, *mint) ==> {
                &&& result == Err::<HoldingAccountStatus, PumpError>(
                    PumpError::ExternalAccountMismatch,
                )
                &&& *final(self) == *old(self)
            },
    {
        let at_expected: bool = match expected {
            Some(address) => self.address.same(address),
            None => false,
        };
        if !at_expected {
            return Err(PumpError::ExternalAccountMismatch);
        }
        if self.initialized {
            if !self.owner.same(owner) || !self.mint.same(mint) {
                return Err(PumpError::ExternalAccountMismatch);
            }
            return Ok(HoldingAccountStatus::Existed);
        }
        self.initialized = true;
        self.owner = *owner;
        self.mint = *mint;
        Ok(HoldingAccountStatus::Created)
    }
}

} // verus!
