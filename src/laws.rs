use vstd::prelude::*;
use crate::error::ErrorCode;
use crate::grant::{after_claim, claim_spec, lemma_vested_within_total, vested_spec, EmployeeAccount};

verus! {

/// The grant after claims at each of `times`, in order.
pub open spec fn after_claims(g: EmployeeAccount, times: Seq<i64>) -> EmployeeAccount
    decreases times.len(),
{
    if times.len() == 0 {
        g
    } else {
        after_claim(after_claims(g, times.drop_last()), times.last())
    }
}

/// True when `times` never goes backwards.
pub open spec fn non_decreasing(times: Seq<i64>) -> bool {
    forall|i: int, j: int| 0 <= i <= j < times.len() ==> times[i] <= times[j]
}

/// A claim never lowers `total_claimed`, and it leaves the rest of the
/// schedule as it was.
pub proof fn lemma_claim_keeps_schedule(g: EmployeeAccount, current_time: i64)
    ensures
        after_claim(g, current_time).total_claimed >= g.total_claimed,
        after_claim(g, current_time).total_amount == g.total_amount,
        after_claim(g, current_time).start_time == g.start_time,
        after_claim(g, current_time).end_time == g.end_time,
        after_claim(g, current_time).cliff_time == g.cliff_time,
        after_claim(g, current_time).beneficiary == g.beneficiary,
        after_claim(g, current_time).vesting_account == g.vesting_account,
        g.total_claimed <= g.total_amount ==> after_claim(g, current_time).total_claimed
            <= g.total_amount,
{
    lemma_vested_within_total(g, current_time);
}

/// Over successive claims at non-decreasing times, `total_claimed` never
/// goes down: after more of the claims it is at least what it was after
/// fewer.
pub proof fn lemma_claimed_is_monotonic(g: EmployeeAccount, times: Seq<i64>, i: int, j: int)
    requires
        non_decreasing(times),
        0 <= i <= j <= times.len(),
    ensures
        after_claims(g, times.take(i)).total_claimed <= after_claims(
            g,
            times.take(j),
        ).total_claimed,
    decreases j - i,
{
    if i < j {
        lemma_claimed_is_monotonic(g, times, i, j - 1);
        assert(times.take(j).drop_last() =~= times.take(j - 1));
        lemma_claim_keeps_schedule(after_claims(g, times.take(j - 1)), times[j - 1]);
    }
}

/// Starting from a grant that has not over-claimed (a new grant has claimed
/// nothing), no sequence of claims brings `total_claimed` above
/// `total_amount`.
pub proof fn lemma_claimed_within_total(g: EmployeeAccount, times: Seq<i64>)
    requires
        g.total_claimed <= g.total_amount,
    ensures
        after_claims(g, times).total_claimed <= after_claims(g, times).total_amount,
        after_claims(g, times).total_amount == g.total_amount,
    decreases times.len(),
{
    if times.len() > 0 {
        lemma_claimed_within_total(g, times.drop_last());
        lemma_claim_keeps_schedule(after_claims(g, times.drop_last()), times.last());
    }
}

/// A claim before the cliff fails with `ClaimNotAvailable` and leaves the
/// grant as it was.
pub proof fn lemma_no_claim_before_cliff(g: EmployeeAccount, current_time: i64)
    requires
        current_time < g.cliff_time,
    ensures
        claim_spec(g, current_time) == Err::<u64, ErrorCode>(ErrorCode::ClaimNotAvailable),
        after_claim(g, current_time) == g,
{
}

/// From `end_time` on, once past the cliff and with a non-empty schedule,
/// the whole grant has vested, with nothing lost to rounding.
pub proof fn lemma_fully_vested_at_end(g: EmployeeAccount, current_time: i64)
    requires
        current_time >= g.end_time,
        current_time >= g.cliff_time,
        g.end_time != g.start_time,
    ensures
        vested_spec(g, current_time) == Ok::<u64, ErrorCode>(g.total_amount),
{
}

/// A schedule that ends where it starts makes every claim past the cliff
/// fail with `InvalidVestingPeriod`, and changes nothing.
pub proof fn lemma_empty_period_rejected(g: EmployeeAccount, current_time: i64)
    requires
        g.end_time == g.start_time,
        current_time >= g.cliff_time,
    ensures
        claim_spec(g, current_time) == Err::<u64, ErrorCode>(ErrorCode::InvalidVestingPeriod),
        after_claim(g, current_time) == g,
{
}

/// Claims on two distinct grants do not see each other: a claim on grant `i`
/// leaves grant `j` as it was, so the second claim reads the same record and
/// has the same outcome, and the two claims give the same grants in either
/// order.
pub proof fn lemma_claims_on_distinct_grants_independent(
    grants: Seq<EmployeeAccount>,
    i: int,
    j: int,
    time_i: i64,
    time_j: i64,
)
    requires
        0 <= i < grants.len(),
        0 <= j < grants.len(),
        i != j,
    ensures
        grants.update(i, after_claim(grants[i], time_i))[j] == grants[j],
        claim_spec(grants.update(i, after_claim(grants[i], time_i))[j], time_j) == claim_spec(
            grants[j],
            time_j,
        ),
        grants.update(i, after_claim(grants[i], time_i)).update(
            j,
            after_claim(grants[j], time_j),
        ) == grants.update(j, after_claim(grants[j], time_j)).update(
            i,
            after_claim(grants[i], time_i),
        ),
{
    assert(grants.update(i, after_claim(grants[i], time_i)).update(
        j,
        after_claim(grants[j], time_j),
    ) =~= grants.update(j, after_claim(grants[j], time_j)).update(
        i,
        after_claim(grants[i], time_i),
    ));
}

/// A second claim at the same instant pays nothing: after a successful claim
/// it fails with `NoTokensToClaim`, and after a failed one it fails alike.
pub proof fn lemma_repeat_claim_pays_nothing(g: EmployeeAccount, current_time: i64)
    ensures
        claim_spec(g, current_time) is Ok ==> claim_spec(after_claim(g, current_time), current_time)
            == Err::<u64, ErrorCode>(ErrorCode::NoTokensToClaim),
        claim_spec(g, current_time) is Err ==> claim_spec(
            after_claim(g, current_time),
            current_time,
        ) == claim_spec(g, current_time),
{
    assert(vested_spec(after_claim(g, current_time), current_time) == vested_spec(g, current_time));
}

} // verus!
