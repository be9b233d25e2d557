use vstd::prelude::*;
use crate::accounts::{EmployeeAccount, VestingAccount, MAX_COMPANY_NAME_LEN};
use crate::address::Address;
use crate::error::ErrorCode;
use crate::vesting::{claim_outcome, claimable_amount};

verus! {

/// The accounts that creating a schedule touches. `vesting_account` is the
/// record slot at the schedule's derived address: `None` while it is free.
#[derive(Clone, Debug)]
pub struct CreateVestingAccount {
    pub signer: Address,
    pub vesting_account: Option<VestingAccount>,
    pub mint: Address,
    pub treasury_token_account: Address,
    pub treasury_initialized: bool,
    pub vesting_account_bump: u8,
    pub treasury_bump: u8,
}

/// The accounts that creating a grant touches. `employee_account` is the
/// record slot at the grant's derived address: `None` while it is free.
#[derive(Clone, Debug)]
pub struct CreateEmployeeAccount {
    pub owner: Address,
    pub benificiary: Address,
    pub vesting_account: VestingAccount,
    pub vesting_account_address: Address,
    pub employee_account: Option<EmployeeAccount>,
    pub employee_bump: u8,
}

/// The accounts that a claim reads, and the grant that it advances.
#[derive(Clone, Debug)]
pub struct ClaimTokens {
    pub benificiary: Address,
    pub employee_account: EmployeeAccount,
    pub vesting_account: VestingAccount,
    pub vesting_account_address: Address,
    pub mint: Address,
    pub treasury_token_account: Address,
}

/// Length of a name in bytes, as the machine counts it.
pub open spec fn name_len(name: &String) -> usize {
    vstd::utf8::encode_utf8(name@).len() as usize
}

/// The schedule record that a successful creation writes.
pub open spec fn new_schedule(c: CreateVestingAccount, company_name: String) -> VestingAccount {
    VestingAccount {
        owner: c.signer,
        mint: c.mint,
        treasury_token_account: c.treasury_token_account,
        company_name,
        treasury_bump: c.treasury_bump,
        bump: c.vesting_account_bump,
    }
}

/// The grant record that a successful creation writes.
pub open spec fn new_grant(
    c: CreateEmployeeAccount,
    start_time: i64,
    end_time: i64,
    total_amount: u64,
    cliff_time: i64,
) -> EmployeeAccount {
    EmployeeAccount {
        benificiary: c.benificiary,
        start_time,
        end_time,
        cliff_time,
        vesting_account: c.vesting_account_address,
        total_amount,
        total_withdrawn: 0,
        bump: c.employee_bump,
    }
}

/// Which check, if any, refuses a claim before any amount is computed:
/// the signer must be the beneficiary, the grant must belong to the named
/// schedule, and treasury and asset must be the schedule's own.
pub open spec fn claim_refusal(c: ClaimTokens, company_name: Seq<char>) -> Option<ErrorCode> {
    if c.benificiary@ != c.employee_account.benificiary@ {
        Some(ErrorCode::Unauthorized)
    } else if c.employee_account.vesting_account@ != c.vesting_account_address@
        || c.vesting_account.company_name@ != company_name {
        Some(ErrorCode::AccountMismatch)
    } else if c.treasury_token_account@ != c.vesting_account.treasury_token_account@
        || c.mint@ != c.vesting_account.mint@ {
        Some(ErrorCode::AccountMismatch)
    } else {
        None
    }
}

/// Creates a schedule for `company_name` owned by the signer, and marks its
/// treasury as created.
pub fn create_vesting_account(context: &mut CreateVestingAccount, company_name: String) -> (r:
    Result<(), ErrorCode>)
    ensures
        name_len(&company_name) > MAX_COMPANY_NAME_LEN ==> r == Err::<(), ErrorCode>(
            ErrorCode::CompanyNameTooLong,
        ),
        name_len(&company_name) <= MAX_COMPANY_NAME_LEN && (old(context).vesting_account.is_some()
            || old(context).treasury_initialized) ==> r == Err::<(), ErrorCode>(
            ErrorCode::DuplicateSchedule,
        ),
        r.is_ok() <==> (name_len(&company_name) <= MAX_COMPANY_NAME_LEN
            && old(context).vesting_account.is_none() && !old(context).treasury_initialized),
        r.is_ok() ==> *final(context) == (CreateVestingAccount {
            vesting_account: Some(new_schedule(*old(context), company_name)),
            treasury_initialized: true,
            ..*old(context)
        }),
        r.is_err() ==> *final(context) == *old(context),
{
    let name_bytes: usize = company_name.as_str().len();
    assert(name_bytes == name_len(&company_name));
    if name_bytes > MAX_COMPANY_NAME_LEN {
        return Err(ErrorCode::CompanyNameTooLong);
    }
    if context.vesting_account.is_some() || context.treasury_initialized {
        return Err(ErrorCode::DuplicateSchedule);
    }
    let schedule = VestingAccount {
        owner: context.signer,
        mint: context.mint,
        treasury_token_account: context.treasury_token_account,
        company_name,
        treasury_bump: context.treasury_bump,
        bump: context.vesting_account_bump,
    };
    context.vesting_account = Some(schedule);
    context.treasury_initialized = true;
    Ok(())
}

/// Creates the grant of `benificiary` under the schedule. Only the
/// schedule's owner may do so, once per beneficiary and schedule.
pub fn create_empoyee_account(
    context: &mut CreateEmployeeAccount,
    start_time: i64,
    end_time: i64,
    total_amount: u64,
    cliff_time: i64,
) -> (r: Result<(), ErrorCode>)
    ensures
        old(context).owner@ != old(context).vesting_account.owner@ ==> r == Err::<(), ErrorCode>(
            ErrorCode::Unauthorized,
        ),
        old(context).owner@ == old(context).vesting_account.owner@
            && old(context).employee_account.is_some() ==> r == Err::<(), ErrorCode>(
            ErrorCode::DuplicateGrant,
        ),
        r.is_ok() <==> (old(context).owner@ == old(context).vesting_account.owner@
            && old(context).employee_account.is_none()),
        r.is_ok() ==> *final(context) == (CreateEmployeeAccount {
            employee_account: Some(
                new_grant(*old(context), start_time, end_time, total_amount, cliff_time),
            ),
            ..*old(context)
        }),
        r.is_err() ==> *final(context) == *old(context),
{
    if !context.owner.same(&context.vesting_account.owner) {
        return Err(ErrorCode::Unauthorized);
    }
    if context.employee_account.is_some() {
        return Err(ErrorCode::DuplicateGrant);
    }
    context.employee_account = Some(
        EmployeeAccount {
            benificiary: context.benificiary,
            start_time,
            end_time,
            cliff_time,
            vesting_account: context.vesting_account_address,
            total_amount,
            total_withdrawn: 0,
            bump: context.employee_bump,
        },
    );
    Ok(())
}

/// Releases to the beneficiary what has vested at `now` and not yet been
/// withdrawn, and records the withdrawal. The returned amount is what the
/// treasury must transfer; on any error nothing changes.
pub fn claim_tokens(context: &mut ClaimTokens, company_name: &String, now: i64) -> (r: Result<
    u64,
    ErrorCode,
>)
    ensures
        claim_refusal(*old(context), company_name@) is Some ==> r == Err::<u64, ErrorCode>(
            claim_refusal(*old(context), company_name@)->Some_0,
        ),
        claim_refusal(*old(context), company_name@) is None ==> r == claim_outcome(
            old(context).employee_account,
            now,
        ),
        r is Ok ==> *final(context) == (ClaimTokens {
            employee_account: old(context).employee_account.withdrawn(r->Ok_0),
            ..*old(context)
        }),
        r is Err ==> *final(context) == *old(context),
{
    if !context.benificiary.same(&context.employee_account.benificiary) {
        return Err(ErrorCode::Unauthorized);
    }
    if !context.employee_account.vesting_account.same(&context.vesting_account_address)
        || context.vesting_account.company_name != *company_name {
        return Err(ErrorCode::AccountMismatch);
    }
    if !context.treasury_token_account.same(&context.vesting_account.treasury_token_account)
        || !context.mint.same(&context.vesting_account.mint) {
        return Err(ErrorCode::AccountMismatch);
    }
    let amount = claimable_amount(&context.employee_account, now)?;
    context.employee_account.total_withdrawn = context.employee_account.total_withdrawn + amount;
    Ok(amount)
}

} // verus!
