//! Company vesting accounts: who may create schedules, which token is under
//! management, and the treasury that every claim is paid from.

use vstd::prelude::*;
use crate::address::Address;

verus! {

/// The capability that moves funds out of one company's treasury. It is made
/// of the company's name and the bump seed of the treasury, and of nothing
/// else: whoever lacks the company record cannot form it.
#[derive(Clone, Debug, PartialEq, Eq)]
pub struct TreasuryAuthority {
    pub company_name: String,
    pub bump: u8,
}

/// One company's vesting account. It is written once and read thereafter.
#[derive(Clone, Debug, PartialEq, Eq)]
pub struct VestingAccount {
    /// The identity that may create employee schedules.
    pub owner: Address,
    /// The token under management.
    pub mint: Address,
    /// The balance that holds the undistributed tokens.
    pub treasury_token_account: Address,
    /// The company's name, by which the account is found.
    pub company_name: String,
    /// Bump seed of the treasury's address, part of the treasury authority.
    pub treasury_bump: u8,
    /// Bump seed of the record's address, carried for the host.
    pub vesting_bump: u8,
}

impl VestingAccount {
    /// The authority over this company's treasury.
    pub open spec fn authority(&self) -> TreasuryAuthority {
        TreasuryAuthority { company_name: self.company_name, bump: self.treasury_bump }
    }

    /// Forms the authority over this company's treasury.
    pub fn treasury_authority(&self) -> (authority: TreasuryAuthority)
        ensures
            authority == self.authority(),
    {
        TreasuryAuthority { company_name: self.company_name.clone(), bump: self.treasury_bump }
    }

    /// Whether `caller` is the owner of the company.
    pub fn is_owner(&self, caller: &Address) -> (owns: bool)
        ensures
            owns == (caller@ == self.owner@),
    {
        self.owner.same_as(caller)
    }
}

} // verus!
