use vstd::prelude::*;

verus! {

/// Why an operation on the vesting ledger was refused.
#[derive(Clone, Copy, Debug, PartialEq, Eq, Structural)]
pub enum ErrorCode {
    /// The claim came before the grant's cliff.
    ClaimNotAvailable,
    /// The vesting period is over. Never raised: a claim after the end of
    /// the schedule pays out whatever is left.
    VestingPeriodEnded,
    /// The schedule starts and ends at the same instant.
    InvalidVestingPeriod,
    /// The prorated amount does not fit in 64 bits.
    OverflowError,
    /// Nothing has vested beyond what was already claimed.
    NoTokensToClaim,
    /// A pool already stands at that address.
    DuplicatePool,
    /// The beneficiary already holds a grant on that pool.
    DuplicateGrant,
    /// The caller is not the owner of the pool.
    NotPoolOwner,
    /// No pool stands at that address.
    UnknownPool,
    /// No grant exists for that beneficiary and pool.
    UnknownGrant,
    /// An account handed in does not match the one on record.
    AccountMismatch,
    /// The company name is longer than a pool record holds.
    CompanyNameTooLong,
}

impl ErrorCode {
    /// A short human-readable message for the error.
    pub fn message(&self) -> (r: &'static str)
        ensures
            *self == ErrorCode::ClaimNotAvailable ==> r@ == "Claim not available"@,
            *self == ErrorCode::VestingPeriodEnded ==> r@ == "Vesting period ended"@,
            *self == ErrorCode::InvalidVestingPeriod ==> r@ == "Invalid vesting period"@,
            *self == ErrorCode::OverflowError ==> r@ == "Overflow error"@,
            *self == ErrorCode::NoTokensToClaim ==> r@ == "No tokens to claim"@,
            *self == ErrorCode::DuplicatePool ==> r@ == "Vesting account already exists"@,
            *self == ErrorCode::DuplicateGrant ==> r@ == "Employee account already exists"@,
            *self == ErrorCode::NotPoolOwner ==> r@ == "Signer does not own the vesting account"@,
            *self == ErrorCode::UnknownPool ==> r@ == "Vesting account not found"@,
            *self == ErrorCode::UnknownGrant ==> r@ == "Employee account not found"@,
            *self == ErrorCode::AccountMismatch ==> r@ == "Account does not match the record"@,
            *self == ErrorCode::CompanyNameTooLong ==> r@ == "Company name too long"@,
    {
        match self {
            ErrorCode::ClaimNotAvailable => "Claim not available",
            ErrorCode::VestingPeriodEnded => "Vesting period ended",
            ErrorCode::InvalidVestingPeriod => "Invalid vesting period",
            ErrorCode::OverflowError => "Overflow error",
            ErrorCode::NoTokensToClaim => "No tokens to claim",
            ErrorCode::DuplicatePool => "Vesting account already exists",
            ErrorCode::DuplicateGrant => "Employee account already exists",
            ErrorCode::NotPoolOwner => "Signer does not own the vesting account",
            ErrorCode::UnknownPool => "Vesting account not found",
            ErrorCode::UnknownGrant => "Employee account not found",
            ErrorCode::AccountMismatch => "Account does not match the record",
            ErrorCode::CompanyNameTooLong => "Company name too long",
        }
    }
}

} // verus!
