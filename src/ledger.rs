use vstd::prelude::*;
use vstd::utf8::encode_utf8;
use crate::address::Address;
use crate::error::ErrorCode;
use crate::grant::{after_claim, claim_spec, EmployeeAccount};
use crate::pool::{
    ClaimTokens, CreateEmployeeAccount, CreateVestingAccount, TransferOrder, VestingAccount,
    MAX_COMPANY_NAME_LEN,
};

verus! {

/// The registry of pools, keyed by pool address, and of grants, keyed by
/// beneficiary and pool address.
pub struct Ledger {
    pub pools: Vec<(Address, VestingAccount)>,
    pub grants: Vec<EmployeeAccount>,
}

/// True when grant `g` belongs to `beneficiary` on the pool at `pool`.
pub open spec fn grant_keyed(g: EmployeeAccount, beneficiary: Seq<u8>, pool: Seq<u8>) -> bool {
    g.beneficiary@ == beneficiary && g.vesting_account@ == pool
}

/// Length in bytes of the UTF-8 text `s`, as `str::len` reports it.
pub open spec fn byte_len(s: Seq<char>) -> usize {
    encode_utf8(s).len() as usize
}

/// The pool record, under its address, that `ctx` creates for `company_name`.
pub open spec fn pool_entry(ctx: CreateVestingAccount, company_name: String) -> (
    Address,
    VestingAccount,
) {
    (
        ctx.vesting_account,
        VestingAccount {
            owner: ctx.signer,
            mint: ctx.mint,
            treasury_account: ctx.treasury_token_account,
            company_name,
            treasury_bump: ctx.treasury_bump,
            bump: ctx.vesting_bump,
        },
    )
}

/// The grant that `ctx` creates with the given schedule.
pub open spec fn new_grant(
    ctx: CreateEmployeeAccount,
    start_time: i64,
    end_time: i64,
    total_amount: u64,
    cliff_time: i64,
) -> EmployeeAccount {
    EmployeeAccount {
        beneficiary: ctx.beneficiary,
        start_time,
        end_time,
        cliff_time,
        vesting_account: ctx.vesting_account,
        total_amount,
        total_claimed: 0,
        bump: ctx.employee_bump,
    }
}

/// What a claim at `current_time` on grant `i` did: `after` is `before` with
/// that grant alone advanced by the claim, and `r` reports the claim's
/// outcome, with the payment going from the treasury to the beneficiary.
pub open spec fn claimed_on(
    before: Seq<EmployeeAccount>,
    after: Seq<EmployeeAccount>,
    i: int,
    ctx: ClaimTokens,
    current_time: i64,
    r: Result<TransferOrder, ErrorCode>,
) -> bool {
    &&& after == before.update(i, after_claim(before[i], current_time))
    &&& match r {
        Ok(o) => {
            &&& claim_spec(before[i], current_time) == Ok::<u64, ErrorCode>(o.amount)
            &&& o.recipient == ctx.beneficiary
            &&& o.from@ == ctx.treasury_account@
            &&& o.mint@ == ctx.mint@
        },
        Err(e) => claim_spec(before[i], current_time) == Err::<u64, ErrorCode>(e),
    }
}

impl Ledger {
    /// Keys and company names are unique, every company name fits a pool
    /// record, and no grant has claimed more than it holds.
    pub open spec fn wf(&self) -> bool {
        &&& forall|i: int, j: int|
            0 <= i < j < self.pools@.len() ==> self.pools@[i].0@ != self.pools@[j].0@
        &&& forall|i: int, j: int|
            0 <= i < j < self.pools@.len() ==> self.pools@[i].1.company_name@
                != self.pools@[j].1.company_name@
        &&& forall|i: int|
            0 <= i < self.pools@.len() ==> byte_len(#[trigger] self.pools@[i].1.company_name@)
                <= MAX_COMPANY_NAME_LEN
        &&& forall|i: int, j: int|
            #![trigger self.grants@[i], self.grants@[j]]
            0 <= i < j < self.grants@.len() ==> !grant_keyed(
                self.grants@[i],
                self.grants@[j].beneficiary@,
                self.grants@[j].vesting_account@,
            )
        &&& forall|i: int|
            0 <= i < self.grants@.len() ==> #[trigger] self.grants@[i].total_claimed
                <= self.grants@[i].total_amount
    }

    pub open spec fn has_pool(&self, pool: Seq<u8>) -> bool {
        exists|i: int| 0 <= i < self.pools@.len() && #[trigger] self.pools@[i].0@ == pool
    }

    pub open spec fn has_company(&self, company_name: Seq<char>) -> bool {
        exists|i: int|
            0 <= i < self.pools@.len() && #[trigger] self.pools@[i].1.company_name@ == company_name
    }

    pub open spec fn has_grant(&self, beneficiary: Seq<u8>, pool: Seq<u8>) -> bool {
        exists|i: int|
            0 <= i < self.grants@.len() && grant_keyed(#[trigger] self.grants@[i], beneficiary, pool)
    }

    /// True when the pool at `pool` exists and is owned by `owner`.
    pub open spec fn pool_owned_by(&self, pool: Seq<u8>, owner: Seq<u8>) -> bool {
        exists|i: int|
            0 <= i < self.pools@.len() && #[trigger] self.pools@[i].0@ == pool
                && self.pools@[i].1.owner@ == owner
    }

    /// True when the pool named in `ctx` exists, is registered under
    /// `company_name`, and holds `ctx.mint` in `ctx.treasury_account`.
    pub open spec fn pool_matches(&self, ctx: ClaimTokens, company_name: Seq<char>) -> bool {
        exists|i: int|
            0 <= i < self.pools@.len() && #[trigger] self.pools@[i].0@ == ctx.vesting_account@
                && self.pools@[i].1.company_name@ == company_name && self.pools@[i].1.mint@
                == ctx.mint@ && self.pools@[i].1.treasury_account@ == ctx.treasury_account@
    }

    /// An empty ledger.
    pub fn new() -> (r: Ledger)
        ensures
            r.wf(),
            r.pools@.len() == 0,
            r.grants@.len() == 0,
    {
        Ledger { pools: Vec::new(), grants: Vec::new() }
    }

    /// Position of the pool at `pool`, if there is one.
    pub fn find_pool(&self, pool: &Address) -> (r: Option<usize>)
        ensures
            match r {
                Some(i) => i < self.pools@.len() && self.pools@[i as int].0@ == pool@,
                None => !self.has_pool(pool@),
            },
    {
        let mut i: usize = 0;
        while i < self.pools.len()
            invariant
                i <= self.pools@.len(),
                forall|j: int| 0 <= j < i ==> self.pools@[j].0@ != pool@,
            decreases self.pools@.len() - i,
        {
            if self.pools[i].0.same(pool) {
                return Some(i);
            }
            i = i + 1;
        }
        None
    }

    /// Position of the pool registered under `company_name`, if there is one.
    pub fn find_company(&self, company_name: &String) -> (r: Option<usize>)
        ensures
            match r {
                Some(i) => i < self.pools@.len() && self.pools@[i as int].1.company_name@
                    == company_name@,
                None => !self.has_company(company_name@),
            },
    {
        let mut i: usize = 0;
        while i < self.pools.len()
            invariant
                i <= self.pools@.len(),
                forall|j: int| 0 <= j < i ==> self.pools@[j].1.company_name@ != company_name@,
            decreases self.pools@.len() - i,
        {
            if self.pools[i].1.company_name == *company_name {
                return Some(i);
            }
            i = i + 1;
        }
        None
    }

    /// Position of the grant of `beneficiary` on the pool at `pool`, if any.
    pub fn find_grant(&self, beneficiary: &Address, pool: &Address) -> (r: Option<usize>)
        ensures
            match r {
                Some(i) => i < self.grants@.len() && grant_keyed(
                    self.grants@[i as int],
                    beneficiary@,
                    pool@,
                ),
                None => !self.has_grant(beneficiary@, pool@),
            },
    {
        let mut i: usize = 0;
        while i < self.grants.len()
            invariant
                i <= self.grants@.len(),
                forall|j: int|
                    0 <= j < i ==> !grant_keyed(#[trigger] self.grants@[j], beneficiary@, pool@),
            decreases self.grants@.len() - i,
        {
            let g = &self.grants[i];
            if g.beneficiary.same(beneficiary) && g.vesting_account.same(pool) {
                return Some(i);
            }
            i = i + 1;
        }
        None
    }
}

/// Creates the pool of `company_name` at `ctx.vesting_account`, owned by
/// `ctx.signer`, holding tokens of `ctx.mint` in `ctx.treasury_token_account`.
/// One pool per address and one per company name.
/// Funding the treasury is a separate transfer: `_amount` moves nothing.
pub fn create_vesting_account(
    ledger: &mut Ledger,
    ctx: &CreateVestingAccount,
    company_name: String,
    _amount: u64,
) -> (r: Result<(), ErrorCode>)
    requires
        old(ledger).wf(),
    ensures
        final(ledger).wf(),
        byte_len(company_name@) > MAX_COMPANY_NAME_LEN ==> r == Err::<(), ErrorCode>(
            ErrorCode::CompanyNameTooLong,
        ),
        byte_len(company_name@) <= MAX_COMPANY_NAME_LEN && (old(ledger).has_pool(
            ctx.vesting_account@,
        ) || old(ledger).has_company(company_name@)) ==> r == Err::<(), ErrorCode>(
            ErrorCode::DuplicatePool,
        ),
        old(ledger).has_company(company_name@) ==> r == Err::<(), ErrorCode>(
            ErrorCode::DuplicatePool,
        ),
        r is Ok <==> byte_len(company_name@) <= MAX_COMPANY_NAME_LEN && !old(ledger).has_pool(
            ctx.vesting_account@,
        ) && !old(ledger).has_company(company_name@),
        r is Ok ==> final(ledger).pools@ == old(ledger).pools@.push(
            pool_entry(*ctx, company_name),
        ),
        r is Err ==> final(ledger).pools@ == old(ledger).pools@,
        final(ledger).grants@ == old(ledger).grants@,
{
    if company_name.as_str().len() > MAX_COMPANY_NAME_LEN {
        return Err(ErrorCode::CompanyNameTooLong);
    }
    if ledger.find_pool(&ctx.vesting_account).is_some() || ledger.find_company(
        &company_name,
    ).is_some() {
        return Err(ErrorCode::DuplicatePool);
    }
    let record = VestingAccount {
        owner: ctx.signer,
        mint: ctx.mint,
        treasury_account: ctx.treasury_token_account,
        company_name,
        treasury_bump: ctx.treasury_bump,
        bump: ctx.vesting_bump,
    };
    ledger.pools.push((ctx.vesting_account, record));
    proof {
        assert(forall|i: int|
            0 <= i < old(ledger).pools@.len() ==> #[trigger] final(ledger).pools@[i] == old(
                ledger,
            ).pools@[i]);
    }
    Ok(())
}
 

/// Grants `ctx.beneficiary` a linear schedule of `total_amount` tokens on the
/// pool at `ctx.vesting_account`. Only the pool's owner may do so, and only
/// once per beneficiary and pool; an existing grant is reported as a
/// duplicate before the caller is checked. The schedule's times are taken as
/// given.
pub fn create_employee_account(
    ledger: &mut Ledger,
    ctx: &CreateEmployeeAccount,
    start_time: i64,
    end_time: i64,
    total_amount: u64,
    cliff_time: i64,
) -> (r: Result<(), ErrorCode>)
    requires
        old(ledger).wf(),
    ensures
        final(ledger).wf(),
        !old(ledger).has_pool(ctx.vesting_account@) ==> r == Err::<(), ErrorCode>(
            ErrorCode::UnknownPool,
        ),
        old(ledger).has_pool(ctx.vesting_account@) && old(ledger).has_grant(
            ctx.beneficiary@,
            ctx.vesting_account@,
        ) ==> r == Err::<(), ErrorCode>(ErrorCode::DuplicateGrant),
        old(ledger).has_pool(ctx.vesting_account@) && !old(ledger).has_grant(
            ctx.beneficiary@,
            ctx.vesting_account@,
        ) && !old(ledger).pool_owned_by(ctx.vesting_account@, ctx.owner@) ==> r == Err::<
            (),
            ErrorCode,
        >(ErrorCode::NotPoolOwner),
        r is Ok <==> old(ledger).pool_owned_by(ctx.vesting_account@, ctx.owner@) && !old(
            ledger,
        ).has_grant(ctx.beneficiary@, ctx.vesting_account@),
        r is Ok ==> final(ledger).grants@ == old(ledger).grants@.push(
            new_grant(*ctx, start_time, end_time, total_amount, cliff_time),
        ),
        r is Err ==> final(ledger).grants@ == old(ledger).grants@,
        final(ledger).pools@ == old(ledger).pools@,
{
    let pi = match ledger.find_pool(&ctx.vesting_account) {
        Some(i) => i,
        None => {
            return Err(ErrorCode::UnknownPool);
        },
    };
    if ledger.find_grant(&ctx.beneficiary, &ctx.vesting_account).is_some() {
        return Err(ErrorCode::DuplicateGrant);
    }
    if !ledger.pools[pi].1.owner.same(&ctx.owner) {
        return Err(ErrorCode::NotPoolOwner);
    }
    let grant = EmployeeAccount::new(
        ctx.beneficiary,
        ctx.vesting_account,
        start_time,
        end_time,
        total_amount,
        cliff_time,
        ctx.employee_bump,
    );
    ledger.grants.push(grant);
    proof {
        assert(forall|i: int|
            0 <= i < old(ledger).grants@.len() ==> #[trigger] final(ledger).grants@[i] == old(
                ledger,
            ).grants@[i]);
    }
    Ok(())
}

/// A claim by `ctx.beneficiary` at `current_time` on its grant from the pool
/// at `ctx.vesting_account`, registered under `company_name`. On success the
/// grant's `total_claimed` grows by the claimable amount and the returned
/// order moves exactly that amount from the pool's treasury to the
/// beneficiary; on failure nothing changes. Only that grant is touched.
pub fn claim_tokens(
    ledger: &mut Ledger,
    ctx: &ClaimTokens,
    company_name: String,
    current_time: i64,
) -> (r: Result<TransferOrder, ErrorCode>)
    requires
        old(ledger).wf(),
    ensures
        final(ledger).wf(),
        final(ledger).pools@ == old(ledger).pools@,
        r is Err ==> final(ledger).grants@ == old(ledger).grants@,
        !old(ledger).has_grant(ctx.beneficiary@, ctx.vesting_account@) ==> r == Err::<
            TransferOrder,
            ErrorCode,
        >(ErrorCode::UnknownGrant),
        old(ledger).has_grant(ctx.beneficiary@, ctx.vesting_account@) && !old(ledger).has_pool(
            ctx.vesting_account@,
        ) ==> r == Err::<TransferOrder, ErrorCode>(ErrorCode::UnknownPool),
        old(ledger).has_grant(ctx.beneficiary@, ctx.vesting_account@) && old(ledger).has_pool(
            ctx.vesting_account@,
        ) && !old(ledger).pool_matches(*ctx, company_name@) ==> r == Err::<
            TransferOrder,
            ErrorCode,
        >(ErrorCode::AccountMismatch),
        forall|i: int|
            0 <= i < old(ledger).grants@.len() && grant_keyed(
                #[trigger] old(ledger).grants@[i],
                ctx.beneficiary@,
                ctx.vesting_account@,
            ) && old(ledger).pool_matches(*ctx, company_name@) ==> claimed_on(
                old(ledger).grants@,
                final(ledger).grants@,
                i,
                *ctx,
                current_time,
                r,
            ),
{
    let gi = match ledger.find_grant(&ctx.beneficiary, &ctx.vesting_account) {
        Some(i) => i,
        None => {
            return Err(ErrorCode::UnknownGrant);
        },
    };
    let pi = match ledger.find_pool(&ctx.vesting_account) {
        Some(i) => i,
        None => {
            return Err(ErrorCode::UnknownPool);
        },
    };
    let pool = &ledger.pools[pi].1;
    if !(pool.company_name == company_name) || !pool.mint.same(&ctx.mint)
        || !pool.treasury_account.same(&ctx.treasury_account) {
        return Err(ErrorCode::AccountMismatch);
    }
    let from = pool.treasury_account;
    let mint = pool.mint;
    let mut grant = ledger.grants[gi];
    let amount = match grant.claim(current_time) {
        Ok(a) => a,
        Err(e) => {
            proof {
                assert(ledger.grants@ =~= old(ledger).grants@.update(
                    gi as int,
                    after_claim(old(ledger).grants@[gi as int], current_time),
                ));
            }
            return Err(e);
        },
    };
    ledger.grants.set(gi, grant);
    Ok(TransferOrder { from, recipient: ctx.beneficiary, mint, amount })
}

} // verus!
