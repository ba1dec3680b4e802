use vstd::prelude::*;
use crate::address::Address;
use crate::error::ErrorCode;

verus! {

/// A beneficiary's grant: a linear vesting schedule against one pool.
#[derive(Clone, Copy, Debug)]
pub struct EmployeeAccount {
    pub beneficiary: Address,
    pub start_time: i64,
    pub end_time: i64,
    /// Earliest instant at which any claim is allowed.
    pub cliff_time: i64,
    /// Address of the pool this grant draws on.
    pub vesting_account: Address,
    pub total_amount: u64,
    pub total_claimed: u64,
    pub bump: u8,
}

/// Seconds elapsed since the start of the schedule, never negative.
pub open spec fn elapsed(start_time: i64, current_time: i64) -> int {
    if current_time > start_time {
        current_time - start_time
    } else {
        0
    }
}

/// The amount vested at `current_time`, or why no claim can be made then.
pub open spec fn vested_spec(g: EmployeeAccount, current_time: i64) -> Result<u64, ErrorCode> {
    if current_time < g.cliff_time {
        Err(ErrorCode::ClaimNotAvailable)
    } else if g.end_time == g.start_time {
        Err(ErrorCode::InvalidVestingPeriod)
    } else if current_time >= g.end_time {
        Ok(g.total_amount)
    } else if g.total_amount * elapsed(g.start_time, current_time) > u64::MAX {
        Err(ErrorCode::OverflowError)
    } else {
        Ok((g.total_amount * elapsed(g.start_time, current_time) / (g.end_time
            - g.start_time)) as u64)
    }
}

/// The amount that a claim at `current_time` pays out, or why it is refused.
pub open spec fn claim_spec(g: EmployeeAccount, current_time: i64) -> Result<u64, ErrorCode> {
    match vested_spec(g, current_time) {
        Err(e) => Err(e),
        Ok(v) => if v <= g.total_claimed {
            Err(ErrorCode::NoTokensToClaim)
        } else {
            Ok((v - g.total_claimed) as u64)
        },
    }
}

/// The grant as it stands after a claim at `current_time`.
pub open spec fn after_claim(g: EmployeeAccount, current_time: i64) -> EmployeeAccount {
    match claim_spec(g, current_time) {
        Ok(a) => EmployeeAccount { total_claimed: (g.total_claimed + a) as u64, ..g },
        Err(_) => g,
    }
}

/// The vested amount never exceeds the grant's total.
pub proof fn lemma_vested_within_total(g: EmployeeAccount, current_time: i64)
    ensures
        vested_spec(g, current_time) is Ok ==> vested_spec(g, current_time)->Ok_0
            <= g.total_amount,
{
    let t = g.total_amount as int;
    let e = elapsed(g.start_time, current_time);
    let p = g.end_time - g.start_time;
    if current_time >= g.cliff_time && p != 0 && current_time < g.end_time && t * e <= u64::MAX {
        if e == 0 {
            assert(t * e == 0) by (nonlinear_arith)
                requires
                    e == 0,
            ;
            assert(0int / p == 0) by (nonlinear_arith)
                requires
                    p != 0,
            ;
        } else {
            assert(0 < e < p);
            assert((t * e) / p <= t) by (nonlinear_arith)
                requires
                    0 <= t,
                    0 < e < p,
            ;
        }
    }
}

impl EmployeeAccount {
    /// A fresh grant with nothing claimed yet.
    pub fn new(
        beneficiary: Address,
        vesting_account: Address,
        start_time: i64,
        end_time: i64,
        total_amount: u64,
        cliff_time: i64,
        bump: u8,
    ) -> (r: EmployeeAccount)
        ensures
            r.beneficiary == beneficiary,
            r.vesting_account == vesting_account,
            r.start_time == start_time,
            r.end_time == end_time,
            r.total_amount == total_amount,
            r.cliff_time == cliff_time,
            r.total_claimed == 0,
            r.bump == bump,
    {
        EmployeeAccount {
            beneficiary,
            start_time,
            end_time,
            cliff_time,
            vesting_account,
            total_amount,
            total_claimed: 0,
            bump,
        }
    }

    /// Amount vested at `current_time`: nothing before the cliff, the whole
    /// grant from `end_time` on, and in between the linear share
    /// `total_amount * elapsed / (end_time - start_time)`, rounded down.
    pub fn vested_amount(&self, current_time: i64) -> (r: Result<u64, ErrorCode>)
        ensures
            r == vested_spec(*self, current_time),
            current_time < self.cliff_time ==> r == Err::<u64, ErrorCode>(
                ErrorCode::ClaimNotAvailable,
            ),
            current_time >= self.cliff_time && self.end_time == self.start_time ==> r == Err::<
                u64,
                ErrorCode,
            >(ErrorCode::InvalidVestingPeriod),
            current_time >= self.cliff_time && self.end_time != self.start_time && current_time
                >= self.end_time ==> r == Ok::<u64, ErrorCode>(self.total_amount),
            r is Ok ==> r->Ok_0 <= self.total_amount,
    {
        if current_time < self.cliff_time {
            return Err(ErrorCode::ClaimNotAvailable);
        }
        if self.end_time == self.start_time {
            return Err(ErrorCode::InvalidVestingPeriod);
        }
        if current_time >= self.end_time {
            return Ok(self.total_amount);
        }
        if current_time <= self.start_time {
            proof {
                assert(self.total_amount * elapsed(self.start_time, current_time) == 0);
                let p = self.end_time - self.start_time;
                assert(0int / p == 0) by (nonlinear_arith)
                    requires
                        p != 0,
                ;
            }
            return Ok(0);
        }
        // here start_time < current_time < end_time
        let since_start = ((current_time as i128) - (self.start_time as i128)) as u64;
        let period = ((self.end_time as i128) - (self.start_time as i128)) as u64;
        match self.total_amount.checked_mul(since_start) {
            Some(product) => {
                proof {
                    lemma_vested_within_total(*self, current_time);
                }
                Ok(product / period)
            },
            None => Err(ErrorCode::OverflowError),
        }
    }

    /// Amount that a claim at `current_time` would pay out: what has vested
    /// beyond `total_claimed`. Fails with the reason when that is nothing.
    pub fn claimable_amount(&self, current_time: i64) -> (r: Result<u64, ErrorCode>)
        ensures
            r == claim_spec(*self, current_time),
            r is Ok ==> r->Ok_0 > 0 && self.total_claimed + r->Ok_0 <= self.total_amount,
    {
        match self.vested_amount(current_time) {
            Err(e) => Err(e),
            Ok(vested) => {
                let amount = vested.saturating_sub(self.total_claimed);
                if amount == 0 {
                    Err(ErrorCode::NoTokensToClaim)
                } else {
                    Ok(amount)
                }
            },
        }
    }

    /// Records a claim at `current_time`: on success `total_claimed` grows by
    /// the amount returned, which is then owed to the beneficiary. On failure
    /// the grant is left as it was.
    pub fn claim(&mut self, current_time: i64) -> (r: Result<u64, ErrorCode>)
        ensures
            r == claim_spec(*old(self), current_time),
            *final(self) == after_claim(*old(self), current_time),
            match r {
                Ok(a) => final(self).total_claimed == old(self).total_claimed + a,
                Err(_) => *final(self) == *old(self),
            },
            final(self).total_claimed >= old(self).total_claimed,
            old(self).total_claimed <= old(self).total_amount ==> final(self).total_claimed
                <= final(self).total_amount,
            current_time < old(self).cliff_time ==> r == Err::<u64, ErrorCode>(
                ErrorCode::ClaimNotAvailable,
            ),
    {
        let amount = self.claimable_amount(current_time);
        if let Ok(a) = amount {
            self.total_claimed = self.total_claimed + a;
        }
        amount
    }
}


} // verus!
