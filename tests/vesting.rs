use token_vesting::accounts::{EmployeeAccount, VestingAccount};
use token_vesting::address::Address;
use token_vesting::error::ErrorCode;
use token_vesting::program::{
    claim_tokens, create_empoyee_account, create_vesting_account, ClaimTokens,
    CreateEmployeeAccount, CreateVestingAccount,
};
use token_vesting::vesting::{claimable_amount, vested_amount};

fn addr(b: u8) -> Address {
    Address::new([b; 32])
}

fn grant(total: u64, start: i64, end: i64, cliff: i64) -> EmployeeAccount {
    EmployeeAccount {
        benificiary: addr(1),
        start_time: start,
        end_time: end,
        cliff_time: cliff,
        vesting_account: addr(2),
        total_amount: total,
        total_withdrawn: 0,
        bump: 255,
    }
}

fn schedule() -> VestingAccount {
    VestingAccount {
        owner: addr(9),
        mint: addr(3),
        treasury_token_account: addr(4),
        company_name: String::from("acme"),
        treasury_bump: 254,
        bump: 253,
    }
}

fn claim_context(g: EmployeeAccount) -> ClaimTokens {
    ClaimTokens {
        benificiary: addr(1),
        employee_account: g,
        vesting_account: schedule(),
        vesting_account_address: addr(2),
        mint: addr(3),
        treasury_token_account: addr(4),
    }
}

#[test]
fn claim_half_then_nothing_then_rest() {
    let mut ctx = claim_context(grant(1000, 0, 1000, 2000));
    let name = String::from("acme");
    assert_eq!(claim_tokens(&mut ctx, &name, 500), Ok(500));
    assert_eq!(ctx.employee_account.total_withdrawn, 500);
    assert_eq!(claim_tokens(&mut ctx, &name, 500), Err(ErrorCode::NoTokensToClaim));
    assert_eq!(ctx.employee_account.total_withdrawn, 500);
    assert_eq!(claim_tokens(&mut ctx, &name, 1000), Ok(500));
    assert_eq!(ctx.employee_account.total_withdrawn, 1000);
}

#[test]
fn second_grant_for_same_pair_is_duplicate() {
    let mut ctx = CreateEmployeeAccount {
        owner: addr(9),
        benificiary: addr(1),
        vesting_account: schedule(),
        vesting_account_address: addr(2),
        employee_account: None,
        employee_bump: 255,
    };
    assert_eq!(create_empoyee_account(&mut ctx, 0, 1000, 1000, 2000), Ok(()));
    assert_eq!(ctx.employee_account, Some(grant(1000, 0, 1000, 2000)));
    assert_eq!(
        create_empoyee_account(&mut ctx, 5, 50, 7, 60),
        Err(ErrorCode::DuplicateGrant)
    );
    assert_eq!(ctx.employee_account, Some(grant(1000, 0, 1000, 2000)));
}

#[test]
fn grant_by_non_owner_is_unauthorized() {
    let mut ctx = CreateEmployeeAccount {
        owner: addr(8),
        benificiary: addr(1),
        vesting_account: schedule(),
        vesting_account_address: addr(2),
        employee_account: None,
        employee_bump: 255,
    };
    assert_eq!(
        create_empoyee_account(&mut ctx, 0, 1000, 1000, 2000),
        Err(ErrorCode::Unauthorized)
    );
    assert_eq!(ctx.employee_account, None);
}

#[test]
fn claim_by_stranger_is_unauthorized() {
    let mut ctx = claim_context(grant(1000, 0, 1000, 2000));
    ctx.benificiary = addr(7);
    let name = String::from("acme");
    assert_eq!(claim_tokens(&mut ctx, &name, 500), Err(ErrorCode::Unauthorized));
    assert_eq!(ctx.employee_account.total_withdrawn, 0);
}

#[test]
fn claim_against_other_schedule_is_mismatch() {
    let name = String::from("acme");
    let mut ctx = claim_context(grant(1000, 0, 1000, 2000));
    ctx.vesting_account_address = addr(5);
    assert_eq!(claim_tokens(&mut ctx, &name, 500), Err(ErrorCode::AccountMismatch));
    let mut ctx = claim_context(grant(1000, 0, 1000, 2000));
    assert_eq!(
        claim_tokens(&mut ctx, &String::from("other"), 500),
        Err(ErrorCode::AccountMismatch)
    );
    let mut ctx = claim_context(grant(1000, 0, 1000, 2000));
    ctx.treasury_token_account = addr(6);
    assert_eq!(claim_tokens(&mut ctx, &name, 500), Err(ErrorCode::AccountMismatch));
    let mut ctx = claim_context(grant(1000, 0, 1000, 2000));
    ctx.mint = addr(6);
    assert_eq!(claim_tokens(&mut ctx, &name, 500), Err(ErrorCode::AccountMismatch));
    assert_eq!(ctx.employee_account.total_withdrawn, 0);
}

#[test]
fn claim_after_cliff_is_refused() {
    let g = grant(1000, 0, 1000, 400);
    assert_eq!(claimable_amount(&g, 401), Err(ErrorCode::ClaimNotAvailableYet));
    assert_eq!(claimable_amount(&g, 400), Ok(400));
}

#[test]
fn empty_window_is_invalid() {
    let g = grant(1000, 100, 100, 2000);
    assert_eq!(vested_amount(&g, 50), Err(ErrorCode::InvalidTotalVestingTime));
}

#[test]
fn vested_boundaries() {
    let g = grant(1000, 100, 1100, 5000);
    assert_eq!(vested_amount(&g, 100), Ok(0));
    assert_eq!(vested_amount(&g, -50), Ok(0));
    assert_eq!(vested_amount(&g, 1100), Ok(1000));
    assert_eq!(vested_amount(&g, 4000), Ok(1000));
    assert_eq!(claimable_amount(&g, 100), Err(ErrorCode::NoTokensToClaim));
}

#[test]
fn vested_is_monotonic_on_samples() {
    let g = grant(777, 10, 1010, 5000);
    let mut last: u64 = 0;
    let mut now: i64 = 0;
    while now <= 1010 {
        let v = vested_amount(&g, now).unwrap();
        assert!(v >= last);
        last = v;
        now += 7;
    }
    assert_eq!(vested_amount(&g, 1010), Ok(777));
}

#[test]
fn vested_rounds_down() {
    let g = grant(10, 0, 3, 100);
    assert_eq!(vested_amount(&g, 1), Ok(3));
    assert_eq!(vested_amount(&g, 2), Ok(6));
}

#[test]
fn largest_total_overflows() {
    let g = grant(u64::MAX, 0, 1000, 2000);
    assert_eq!(vested_amount(&g, 500), Err(ErrorCode::CalculationOverflow));
    assert_eq!(vested_amount(&g, 1), Ok(u64::MAX / 1000));
    assert_eq!(vested_amount(&g, 1000), Ok(u64::MAX));
}

#[test]
fn widest_window_does_not_overflow() {
    let g = grant(1, i64::MIN, i64::MAX, i64::MAX);
    assert_eq!(vested_amount(&g, 0), Ok(0));
    assert_eq!(vested_amount(&g, i64::MAX), Ok(1));
}

#[test]
fn reversed_window_vests_nothing_before_end() {
    let g = grant(1000, 500, 100, 2000);
    assert_eq!(vested_amount(&g, 50), Ok(0));
    assert_eq!(vested_amount(&g, 100), Ok(1000));
}

#[test]
fn withdrawn_tracks_sum_of_claims() {
    let mut ctx = claim_context(grant(1000, 0, 1000, 2000));
    let name = String::from("acme");
    let mut sum: u64 = 0;
    for now in [100i64, 250, 250, 600, 999, 1000, 1500] {
        if let Ok(a) = claim_tokens(&mut ctx, &name, now) {
            sum += a;
        }
        assert_eq!(ctx.employee_account.total_withdrawn, sum);
        assert!(sum <= 1000);
    }
    assert_eq!(sum, 1000);
}

#[test]
fn schedule_creation_and_duplicate() {
    let mut ctx = CreateVestingAccount {
        signer: addr(9),
        vesting_account: None,
        mint: addr(3),
        treasury_token_account: addr(4),
        treasury_initialized: false,
        vesting_account_bump: 253,
        treasury_bump: 254,
    };
    assert_eq!(create_vesting_account(&mut ctx, String::from("acme")), Ok(()));
    assert_eq!(ctx.vesting_account, Some(schedule()));
    assert!(ctx.treasury_initialized);
    assert_eq!(
        create_vesting_account(&mut ctx, String::from("acme")),
        Err(ErrorCode::DuplicateSchedule)
    );
    assert_eq!(ctx.vesting_account, Some(schedule()));
}

#[test]
fn schedule_name_length_limit() {
    let mut ctx = CreateVestingAccount {
        signer: addr(9),
        vesting_account: None,
        mint: addr(3),
        treasury_token_account: addr(4),
        treasury_initialized: false,
        vesting_account_bump: 253,
        treasury_bump: 254,
    };
    let long = "x".repeat(51);
    assert_eq!(
        create_vesting_account(&mut ctx, long),
        Err(ErrorCode::CompanyNameTooLong)
    );
    assert_eq!(ctx.vesting_account, None);
    let accented = "é".repeat(26);
    assert_eq!(
        create_vesting_account(&mut ctx, accented),
        Err(ErrorCode::CompanyNameTooLong)
    );
    assert_eq!(create_vesting_account(&mut ctx, "x".repeat(50)), Ok(()));
}

#[test]
fn addresses_compare_by_bytes() {
    let mut b = [1u8; 32];
    assert!(addr(1) == Address::new(b));
    b[31] = 2;
    assert!(addr(1) != Address::new(b));
    assert_eq!(ErrorCode::NoTokensToClaim.message(), "No tokens to claim!");
}
