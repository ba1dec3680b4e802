use vstd::prelude::*;
use crate::address::Address;

verus! {

/// Longest company name, in bytes, that a pool record holds.
pub const MAX_COMPANY_NAME_LEN: usize = 32;

/// A company's vesting pool: who administers it, which token it holds and
/// the treasury account that holds the locked tokens.
#[derive(Clone, Debug)]
pub struct VestingAccount {
    pub owner: Address,
    pub mint: Address,
    pub treasury_account: Address,
    pub company_name: String,
    pub treasury_bump: u8,
    pub bump: u8,
}

/// The accounts that the creation of a pool works on.
#[derive(Clone, Copy, Debug)]
pub struct CreateVestingAccount {
    /// The administrator, who becomes the pool's owner.
    pub signer: Address,
    /// Address of the new pool record.
    pub vesting_account: Address,
    pub mint: Address,
    /// The custody account created for the pool.
    pub treasury_token_account: Address,
    pub vesting_bump: u8,
    pub treasury_bump: u8,
}

/// The accounts that the creation of a grant works on.
#[derive(Clone, Copy, Debug)]
pub struct CreateEmployeeAccount {
    /// The caller, who must own the pool.
    pub owner: Address,
    pub beneficiary: Address,
    pub vesting_account: Address,
    pub employee_bump: u8,
}

/// The accounts that a claim works on.
#[derive(Clone, Copy, Debug)]
pub struct ClaimTokens {
    /// The caller, who must be the grant's beneficiary.
    pub beneficiary: Address,
    pub vesting_account: Address,
    pub mint: Address,
    pub treasury_account: Address,
}

/// A payment that a successful claim authorises: `amount` units of `mint`
/// from the pool's treasury, signed for by the treasury's own authority, to
/// the token account of `recipient`.
#[derive(Clone, Copy, Debug)]
pub struct TransferOrder {
    pub from: Address,
    pub recipient: Address,
    pub mint: Address,
    pub amount: u64,
}

} // verus!
