use vstd::prelude::*;
use crate::address::Address;

verus! {

/// The longest company name, in bytes, that a schedule can hold.
pub const MAX_COMPANY_NAME_LEN: usize = 50;

/// A company's vesting schedule: who may add grants, which asset is vested,
/// and the treasury that holds the supply.
#[derive(Clone, Debug, PartialEq, Eq)]
pub struct VestingAccount {
    pub owner: Address,
    pub mint: Address,
    pub treasury_token_account: Address,
    pub company_name: String,
    pub treasury_bump: u8,
    pub bump: u8,
}

/// One beneficiary's grant under a schedule.
#[derive(Clone, Copy, Debug, PartialEq, Eq)]
pub struct EmployeeAccount {
    pub benificiary: Address,
    pub start_time: i64,
    pub end_time: i64,
    pub cliff_time: i64,
    pub vesting_account: Address,
    pub total_amount: u64,
    pub total_withdrawn: u64,
    pub bump: u8,
}

impl EmployeeAccount {
    /// The same grant with `amount` more withdrawn.
    pub open spec fn withdrawn(self, amount: u64) -> EmployeeAccount {
        EmployeeAccount { total_withdrawn: (self.total_withdrawn + amount) as u64, ..self }
    }
}

} // verus!
