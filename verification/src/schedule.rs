//! The vesting record, and the amounts that it unlocks over time.
//!
//! A schedule unlocks `total_amount` linearly from `start_time` to
//! `end_time`. Nothing is unlocked before the start, everything from the end
//! on, and in between the share of the elapsed time, rounded down.

use crate::address::Address;
use vstd::arithmetic::div_mod::{lemma_div_by_multiple, lemma_div_is_ordered, lemma_div_pos_is_pos};
use vstd::arithmetic::mul::{lemma_mul_inequality, lemma_mul_is_commutative, lemma_mul_nonnegative};
use vstd::prelude::*;

verus! {

/// Why a request was turned down.
#[derive(Clone, Copy, Debug, PartialEq, Eq, Structural)]
pub enum VestingError {
    /// A claim came before the start of the schedule.
    VestingNotStarted,
    /// Nothing has unlocked that was not claimed already.
    NoTokensToClaim,
    /// The authority did not sign, or an identity of the request is not the
    /// one that the record, or its address, was made for.
    Unauthorized,
    /// The funding account is not owned by the authority or holds another asset.
    InvalidSourceAccount,
    /// A record exists already for the authority, the beneficiary and the asset.
    DuplicateSchedule,
    /// The schedule would not end after it starts.
    InvalidTimeRange,
    /// The token ledger did not carry out the transfer.
    TransferFailed,
    /// The receiving account is not owned by the beneficiary or holds another asset.
    ReceivingAccountMismatch,
}

impl VestingError {
    /// The words that say why a request was turned down.
    pub open spec fn message_text(self) -> Seq<char> {
        match self {
            VestingError::VestingNotStarted => "Vesting has not started yet"@,
            VestingError::NoTokensToClaim => "No tokens available to claim"@,
            VestingError::Unauthorized => "Authority proof is missing or does not match the record"@,
            VestingError::InvalidSourceAccount => "Source token account does not match its owner or asset"@,
            VestingError::DuplicateSchedule => "Vesting schedule already exists"@,
            VestingError::InvalidTimeRange => "Vesting must end after it starts"@,
            VestingError::TransferFailed => "Token transfer failed"@,
            VestingError::ReceivingAccountMismatch => "Receiving token account does not match its owner or asset"@,
        }
    }

    /// Returns the words that say why a request was turned down.
    pub fn message(&self) -> (text: &'static str)
        ensures
            text@ == self.message_text(),
    {
        match self {
            VestingError::VestingNotStarted => "Vesting has not started yet",
            VestingError::NoTokensToClaim => "No tokens available to claim",
            VestingError::Unauthorized => "Authority proof is missing or does not match the record",
            VestingError::InvalidSourceAccount => "Source token account does not match its owner or asset",
            VestingError::DuplicateSchedule => "Vesting schedule already exists",
            VestingError::InvalidTimeRange => "Vesting must end after it starts",
            VestingError::TransferFailed => "Token transfer failed",
            VestingError::ReceivingAccountMismatch => "Receiving token account does not match its owner or asset",
        }
    }
}

/// The record of one vesting schedule.
#[derive(Clone, Copy, Debug, PartialEq, Eq)]
pub struct VestingSchedule {
    /// Who may start claims.
    pub authority: Address,
    /// Who receives what has unlocked.
    pub beneficiary: Address,
    /// The asset that vests.
    pub token_mint: Address,
    /// The account that funds the claims.
    pub token_account: Address,
    /// When unlocking starts, in seconds.
    pub start_time: i64,
    /// When everything has unlocked, in seconds.
    pub end_time: i64,
    /// The quantity that vests in all.
    pub total_amount: u64,
    /// The quantity that has been claimed so far.
    pub claimed_amount: u64,
    /// The bump seed that closes the seeds of the record's address.
    pub bump: u8,
}

/// The quantity of `total` that has unlocked at `now` under a schedule from
/// `start` to `end`.
pub open spec fn unlocked_amount(total: nat, start: int, end: int, now: int) -> nat {
    if now < start {
        0
    } else if now >= end {
        total
    } else {
        ((total * (now - start)) / (end - start)) as nat
    }
}

/// Between start and end the unlocked quantity is a share of the total, and
/// it grows with the elapsed time.
proof fn lemma_share(total: nat, elapsed1: int, elapsed2: int, duration: int)
    requires
        0 <= elapsed1 <= elapsed2 <= duration,
        0 < duration,
    ensures
        0 <= (total * elapsed1) / duration <= (total * elapsed2) / duration <= total,
{
    lemma_mul_nonnegative(total as int, elapsed1);
    lemma_div_pos_is_pos(total * elapsed1, duration);
    lemma_mul_is_commutative(total as int, elapsed1);
    lemma_mul_is_commutative(total as int, elapsed2);
    lemma_mul_is_commutative(total as int, duration);
    lemma_mul_inequality(elapsed1, elapsed2, total as int);
    lemma_mul_inequality(elapsed2, duration, total as int);
    lemma_div_is_ordered(total * elapsed1, total * elapsed2, duration);
    lemma_div_is_ordered(total * elapsed2, total * duration, duration);
    lemma_div_by_multiple(total as int, duration);
}

impl VestingSchedule {
    /// The schedule ends after it starts, and no more was claimed than vests.
    pub open spec fn wf(&self) -> bool {
        &&& self.start_time < self.end_time
        &&& self.claimed_amount <= self.total_amount
    }

    /// The quantity that has unlocked at `now`, claimed or not.
    pub open spec fn unlocked(&self, now: int) -> nat {
        unlocked_amount(
            self.total_amount as nat,
            self.start_time as int,
            self.end_time as int,
            now,
        )
    }

    /// The quantity that can be claimed at `now`: what has unlocked and was
    /// not claimed yet. Where more was claimed than has unlocked, it is 0.
    pub open spec fn claimable(&self, now: int) -> nat {
        if self.unlocked(now) > self.claimed_amount {
            (self.unlocked(now) - self.claimed_amount) as nat
        } else {
            0
        }
    }

    /// The record after `amount` more was claimed.
    pub open spec fn credited(self, amount: nat) -> VestingSchedule {
        VestingSchedule { claimed_amount: (self.claimed_amount + amount) as u64, ..self }
    }

    /// Never more unlocks than vests in all.
    pub proof fn lemma_unlocked_bounded(self, now: int)
        ensures
            self.unlocked(now) <= self.total_amount,
            self.claimed_amount + self.claimable(now) <= u64::MAX,
            self.wf() ==> self.claimed_amount + self.claimable(now) <= self.total_amount,
    {
        if self.start_time <= now < self.end_time {
            lemma_share(
                self.total_amount as nat,
                now - self.start_time,
                now - self.start_time,
                self.end_time - self.start_time,
            );
        }
    }

    /// The unlocked quantity and the claimable quantity never fall as time
    /// goes on.
    pub proof fn lemma_monotonic_in_time(self, earlier: int, later: int)
        requires
            earlier <= later,
        ensures
            self.unlocked(earlier) <= self.unlocked(later),
            self.claimable(earlier) <= self.claimable(later),
    {
        self.lemma_unlocked_bounded(earlier);
        self.lemma_unlocked_bounded(later);
        if self.start_time <= earlier && later < self.end_time {
            lemma_share(
                self.total_amount as nat,
                earlier - self.start_time,
                later - self.start_time,
                self.end_time - self.start_time,
            );
        }
    }

    /// At the end of a schedule that does not end before it starts,
    /// everything has unlocked, so what can be claimed then is the total less
    /// what was claimed: the whole total of a record from which nothing was
    /// claimed yet. Up to and at the start of a schedule that ends after it
    /// starts, nothing has unlocked and nothing can be claimed.
    pub proof fn lemma_bounds_of_schedule(self, now: int)
        ensures
            self.start_time <= self.end_time ==> self.unlocked(self.end_time as int)
                == self.total_amount,
            self.start_time <= self.end_time && self.claimed_amount <= self.total_amount
                ==> self.claimable(self.end_time as int) == self.total_amount
                - self.claimed_amount,
            self.start_time <= self.end_time && self.claimed_amount == 0 ==> self.claimable(
                self.end_time as int,
            ) == self.total_amount,
            now <= self.start_time && self.start_time < self.end_time ==> self.unlocked(now) == 0
                && self.claimable(now) == 0,
            now < self.start_time ==> self.unlocked(now) == 0 && self.claimable(now) == 0,
    {
        if now == self.start_time && self.start_time < self.end_time {
            assert(self.total_amount * (now - self.start_time) == 0) by (nonlinear_arith)
                requires
                    now - self.start_time == 0,
            ;
        }
    }

    /// Computes the quantity that has unlocked at `current_time`, claimed or
    /// not. The product of the total and the elapsed time is taken in 128
    /// bits, where it cannot overflow.
    pub fn unlocked_at(&self, current_time: i64) -> (amount: u64)
        ensures
            amount == self.unlocked(current_time as int),
            amount <= self.total_amount,
    {
        if current_time < self.start_time {
            0
        } else if current_time >= self.end_time {
            self.total_amount
        } else {
            let elapsed: u128 = (current_time as i128 - self.start_time as i128) as u128;
            let duration: u128 = (self.end_time as i128 - self.start_time as i128) as u128;
            proof {
                lemma_share(self.total_amount as nat, elapsed as int, elapsed as int, duration as int);
                assert(self.total_amount * elapsed <= u128::MAX) by (nonlinear_arith)
                    requires
                        self.total_amount <= 0xffff_ffff_ffff_ffff,
                        elapsed <= 0xffff_ffff_ffff_ffff,
                ;
            }
            let product: u128 = (self.total_amount as u128) * elapsed;
            (product / duration) as u64
        }
    }

    /// Computes the quantity that can be claimed at `current_time`: what has
    /// unlocked less what was claimed, and 0 where more was claimed than has
    /// unlocked.
    pub fn compute_claimable(&self, current_time: i64) -> (amount: u64)
        ensures
            amount == self.claimable(current_time as int),
            self.claimed_amount + amount <= u64::MAX,
    {
        let unlocked = self.unlocked_at(current_time);
        if unlocked > self.claimed_amount {
            unlocked - self.claimed_amount
        } else {
            0
        }
    }
}

} // verus!
