use vstd::prelude::*;
use crate::accounts::EmployeeAccount;
use crate::error::ErrorCode;
use crate::vesting::{claim_outcome, elapsed, lemma_vested_bounded, vested, vested_outcome};
use vstd::arithmetic::div_mod::lemma_div_is_ordered;
use vstd::arithmetic::mul::lemma_mul_inequality;

verus! {

/// The grant after claims at each of `nows` in turn, paired with the sum of
/// the amounts those claims returned; `None` as soon as one of them fails.
pub open spec fn run_claims(g: EmployeeAccount, nows: Seq<i64>) -> Option<(EmployeeAccount, int)>
    decreases nows.len(),
{
    if nows.len() == 0 {
        Some((g, 0))
    } else {
        match run_claims(g, nows.drop_last()) {
            None => None,
            Some(p) => match claim_outcome(p.0, nows.last()) {
                Ok(a) => Some((p.0.withdrawn(a), p.1 + a)),
                Err(_) => None,
            },
        }
    }
}

/// After any sequence of successful claims, the withdrawn counter has grown
/// by exactly the sum of the amounts released, and once at least one claim
/// has been made it does not exceed the grant's total.
pub proof fn lemma_withdrawn_is_sum_of_claims(g: EmployeeAccount, nows: Seq<i64>)
    requires
        run_claims(g, nows) is Some,
    ensures
        run_claims(g, nows)->Some_0.0.total_withdrawn == g.total_withdrawn + run_claims(
            g,
            nows,
        )->Some_0.1,
        run_claims(g, nows)->Some_0.0.total_amount == g.total_amount,
        nows.len() > 0 ==> run_claims(g, nows)->Some_0.0.total_withdrawn
            <= g.total_amount,
    decreases nows.len(),
{
    if nows.len() > 0 {
        lemma_withdrawn_is_sum_of_claims(g, nows.drop_last());
        let p = run_claims(g, nows.drop_last())->Some_0;
        lemma_vested_bounded(p.0, nows.last());
    }
}

/// A successful claim releases a positive amount, and a second claim at the
/// same time releases nothing and reports so.
pub proof fn lemma_repeat_claim_is_noop(g: EmployeeAccount, now: i64)
    requires
        claim_outcome(g, now) is Ok,
    ensures
        claim_outcome(g, now)->Ok_0 > 0,
        claim_outcome(g.withdrawn(claim_outcome(g, now)->Ok_0), now) == Err::<u64, ErrorCode>(
            ErrorCode::NoTokensToClaim,
        ),
{
    lemma_vested_bounded(g, now);
}

/// The vested amount never decreases as time moves towards the end time.
pub proof fn lemma_vested_monotonic(g: EmployeeAccount, now1: i64, now2: i64)
    requires
        now1 < now2 <= g.end_time,
    ensures
        vested(g, now1) <= vested(g, now2),
{
    lemma_vested_bounded(g, now1);
    lemma_vested_bounded(g, now2);
    if now2 < g.end_time && now1 > g.start_time {
        let t = g.total_amount as int;
        let d = g.end_time - g.start_time;
        lemma_mul_inequality(elapsed(g, now1), elapsed(g, now2), t);
        assert(t * elapsed(g, now1) <= t * elapsed(g, now2)) by (nonlinear_arith)
            requires
                elapsed(g, now1) * t <= elapsed(g, now2) * t,
        ;
        lemma_div_is_ordered(t * elapsed(g, now1), t * elapsed(g, now2), d);
    }
}

/// Nothing has vested at the start time of a well-formed window, and the
/// whole grant has vested from the end time on.
pub proof fn lemma_vested_boundaries(g: EmployeeAccount, now: i64)
    ensures
        g.start_time < g.end_time ==> vested(g, g.start_time) == 0,
        vested(g, g.end_time) == g.total_amount,
        now >= g.end_time ==> vested(g, now) == g.total_amount,
{
}

/// With the largest possible total, a claim more than one time unit into
/// the window reports an overflow rather than a wrapped amount.
pub proof fn lemma_overflow_reported(g: EmployeeAccount, now: i64)
    requires
        g.total_amount == u64::MAX,
        g.start_time + 2 <= now < g.end_time,
        now <= g.cliff_time,
    ensures
        vested_outcome(g, now) == Err::<u64, ErrorCode>(ErrorCode::CalculationOverflow),
        claim_outcome(g, now) == Err::<u64, ErrorCode>(ErrorCode::CalculationOverflow),
{
    assert(g.total_amount * elapsed(g, now) > u64::MAX) by (nonlinear_arith)
        requires
            g.total_amount == u64::MAX,
            elapsed(g, now) >= 2,
    ;
}

} // verus!
