use vstd::prelude::*;
use crate::accounts::EmployeeAccount;
use crate::error::ErrorCode;
use vstd::arithmetic::div_mod::{lemma_div_by_multiple, lemma_div_is_ordered};

verus! {

/// Time elapsed since the start, never negative.
pub open spec fn elapsed(g: EmployeeAccount, now: i64) -> int {
    if now <= g.start_time {
        0
    } else {
        now - g.start_time
    }
}

/// The amount vested at `now` on the linear curve from `start_time` to
/// `end_time`, before any withdrawal is taken off.
pub open spec fn vested(g: EmployeeAccount, now: i64) -> int {
    if now >= g.end_time {
        g.total_amount as int
    } else if now <= g.start_time {
        0
    } else {
        (g.total_amount * elapsed(g, now)) / (g.end_time - g.start_time)
    }
}

/// The outcome of computing the vested amount: the cliff check, the window
/// check and the overflow check, in that order.
pub open spec fn vested_outcome(g: EmployeeAccount, now: i64) -> Result<u64, ErrorCode> {
    if now > g.cliff_time {
        Err(ErrorCode::ClaimNotAvailableYet)
    } else if g.end_time == g.start_time {
        Err(ErrorCode::InvalidTotalVestingTime)
    } else if now < g.end_time && g.total_amount * elapsed(g, now) > u64::MAX {
        Err(ErrorCode::CalculationOverflow)
    } else {
        Ok(vested(g, now) as u64)
    }
}

/// The outcome of a claim at `now`: what has vested less what was already
/// withdrawn, or the error that stops it.
pub open spec fn claim_outcome(g: EmployeeAccount, now: i64) -> Result<u64, ErrorCode> {
    match vested_outcome(g, now) {
        Err(e) => Err(e),
        Ok(v) => if v <= g.total_withdrawn {
            Err(ErrorCode::NoTokensToClaim)
        } else {
            Ok((v - g.total_withdrawn) as u64)
        },
    }
}

/// The vested amount never exceeds the grant's total.
pub proof fn lemma_vested_bounded(g: EmployeeAccount, now: i64)
    ensures
        0 <= vested(g, now) <= g.total_amount,
{
    if now < g.end_time && now > g.start_time {
        let t = g.total_amount as int;
        let e = now - g.start_time;
        let d = g.end_time - g.start_time;
        assert(0 < e < d);
        assert(0 <= t * e <= t * d) by (nonlinear_arith)
            requires
                0 < e < d,
                0 <= t,
        ;
        lemma_div_is_ordered(t * e, t * d, d);
        lemma_div_is_ordered(0, t * e, d);
        lemma_div_by_multiple(t, d);
    }
}

/// Computes the amount of the grant vested at `now`.
pub fn vested_amount(g: &EmployeeAccount, now: i64) -> (r: Result<u64, ErrorCode>)
    ensures
        r == vested_outcome(*g, now),
{
    if now > g.cliff_time {
        return Err(ErrorCode::ClaimNotAvailableYet);
    }
    if g.end_time == g.start_time {
        return Err(ErrorCode::InvalidTotalVestingTime);
    }
    if now >= g.end_time {
        return Ok(g.total_amount);
    }
    if now <= g.start_time {
        assert(elapsed(*g, now) == 0);
        assert(g.total_amount * elapsed(*g, now) == 0);
        return Ok(0);
    }
    let elapsed_time: u64 = ((now as i128) - (g.start_time as i128)) as u64;
    let total_vesting_time: u64 = ((g.end_time as i128) - (g.start_time as i128)) as u64;
    assert(elapsed_time == elapsed(*g, now));
    match g.total_amount.checked_mul(elapsed_time) {
        Some(product) => {
            proof {
                lemma_vested_bounded(*g, now);
            }
            Ok(product / total_vesting_time)
        },
        None => Err(ErrorCode::CalculationOverflow),
    }
}

/// Computes what a claim at `now` would release.
pub fn claimable_amount(g: &EmployeeAccount, now: i64) -> (r: Result<u64, ErrorCode>)
    ensures
        r == claim_outcome(*g, now),
{
    let vested_now = vested_amount(g, now)?;
    let claimable = vested_now.saturating_sub(g.total_withdrawn);
    if claimable == 0 {
        return Err(ErrorCode::NoTokensToClaim);
    }
    Ok(claimable)
}

} // verus!
