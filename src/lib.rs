//! Token-vesting ledger: vesting pools per company, grants per beneficiary,
//! and the claim engine that pays out a linearly vested share after a cliff.
mod address;
mod error;
mod grant;
mod laws;
mod ledger;
mod pool;

pub use address::Address;
pub use error::ErrorCode;
pub use grant::{
    after_claim, claim_spec, elapsed, lemma_vested_within_total, vested_spec, EmployeeAccount,
};
pub use laws::{
    after_claims, lemma_claim_keeps_schedule, lemma_claimed_is_monotonic,
    lemma_claimed_within_total, lemma_claims_on_distinct_grants_independent,
    lemma_empty_period_rejected, lemma_fully_vested_at_end, lemma_no_claim_before_cliff,
    lemma_repeat_claim_pays_nothing, non_decreasing,
};
pub use ledger::{
    byte_len, claim_tokens, claimed_on, create_employee_account, create_vesting_account,
    grant_keyed, new_grant, pool_entry, Ledger,
};
pub use pool::{
    ClaimTokens, CreateEmployeeAccount, CreateVestingAccount, TransferOrder, VestingAccount,
    MAX_COMPANY_NAME_LEN,
};
