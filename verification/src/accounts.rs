//! The accounts that a request names, as the environment found them.
//!
//! Before a request reaches the library, the environment has looked up each
//! account that it names and has checked the signatures. The types here hold
//! what it found, as plain values: the library decides on them and on
//! nothing else.

use crate::address::Address;
use crate::schedule::VestingSchedule;
use vstd::prelude::*;

verus! {

/// An identity, and whether the environment found its signature on the request.
#[derive(Clone, Copy, Debug, PartialEq, Eq)]
pub struct AuthorityProof {
    pub key: Address,
    pub is_signer: bool,
}

/// A token account, as the token ledger reports it.
#[derive(Clone, Copy, Debug, PartialEq, Eq)]
pub struct TokenAccount {
    /// The address of the account.
    pub key: Address,
    /// Who may move what the account holds.
    pub owner: Address,
    /// The asset that the account holds.
    pub mint: Address,
}

impl TokenAccount {
    /// The account is owned by `owner` and holds the asset `mint`.
    pub open spec fn held_by(&self, owner: Address, mint: Address) -> bool {
        self.owner == owner && self.mint == mint
    }

    /// Tells whether the account is owned by `owner` and holds the asset `mint`.
    pub fn verify(&self, owner: &Address, mint: &Address) -> (ok: bool)
        ensures
            ok == self.held_by(*owner, *mint),
    {
        self.owner == *owner && self.mint == *mint
    }
}

/// The account at which a record is kept: its address, and the record that
/// it holds, if one was created there.
#[derive(Clone, Copy, Debug, PartialEq, Eq)]
pub struct RecordAccount {
    pub key: Address,
    pub record: Option<VestingSchedule>,
}

/// The accounts of a request to create a vesting schedule.
#[derive(Clone, Copy, Debug, PartialEq, Eq)]
pub struct CreateVestingSchedule {
    /// The account that is to hold the record.
    pub vesting_schedule: RecordAccount,
    /// Who creates the schedule, and will start its claims.
    pub authority: AuthorityProof,
    /// Who will receive what unlocks.
    pub beneficiary: Address,
    /// The asset that vests.
    pub token_mint: Address,
    /// The account that will fund the claims.
    pub token_account: TokenAccount,
}

/// The accounts of a request to claim what has unlocked.
#[derive(Clone, Copy, Debug, PartialEq, Eq)]
pub struct ClaimTokens {
    /// The account that holds the record.
    pub vesting_schedule: RecordAccount,
    /// Who starts the claim.
    pub authority: AuthorityProof,
    /// Who receives what has unlocked.
    pub beneficiary: Address,
    /// The asset that vests.
    pub token_mint: Address,
    /// The account that funds the claim.
    pub token_account: TokenAccount,
    /// The account of the beneficiary that receives the claim.
    pub beneficiary_token_account: TokenAccount,
}

/// A transfer that the token ledger is asked to carry out.
#[derive(Clone, Copy, Debug, PartialEq, Eq)]
pub struct TransferOrder {
    /// The account that pays.
    pub from: Address,
    /// The account that receives.
    pub to: Address,
    /// The asset that moves.
    pub token_mint: Address,
    /// Who authorizes the transfer.
    pub authority: Address,
    /// The quantity that moves.
    pub amount: u64,
}

/// What the token ledger answered to a transfer order.
#[derive(Clone, Copy, Debug, PartialEq, Eq, Structural)]
pub enum TransferOutcome {
    /// The whole quantity was moved.
    Completed,
    /// Nothing was moved.
    Failed,
}

} // verus!
