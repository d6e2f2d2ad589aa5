//! Claiming what has unlocked.
//!
//! A claim moves tokens, and only the token ledger can do that. So a claim
//! is made in two steps around the ledger. `claim_order` decides whether the
//! request may claim and how much, and returns the transfer to ask of the
//! ledger. `claim_tokens` takes the ledger's answer: it makes the same
//! decision again, trusting nothing that it is handed, and credits the
//! record where the transfer was carried out. A transfer that failed leaves
//! the record as it was.
//!
//! The checks are made in this order, and the first that fails decides the
//! error: the authority signed, the account holds a record, the authority,
//! the beneficiary and the asset of the request are those of the record, and
//! the account is at the address derived from them and the record's bump
//! (`Unauthorized`); the funding account is the one of the record, is owned
//! by the authority and holds the asset (`InvalidSourceAccount`); the
//! receiving account is owned by the beneficiary and holds the asset
//! (`ReceivingAccountMismatch`); the schedule has started
//! (`VestingNotStarted`); something can be claimed (`NoTokensToClaim`).

use crate::accounts::{
    ClaimTokens, CreateVestingSchedule, RecordAccount, TransferOrder, TransferOutcome,
};
use crate::address::{address_view, schedule_address, schedule_address_with_bump, Address};
use crate::create::rederived_address;
use crate::schedule::{VestingError, VestingSchedule};
use vstd::prelude::*;

verus! {

/// The request comes from the authority of the record that the account
/// holds, names its beneficiary and its asset, and the account is at the
/// address `derived` for them.
pub open spec fn claim_authorized(ctx: ClaimTokens, derived: Option<Seq<u8>>) -> bool {
    &&& ctx.authority.is_signer
    &&& ctx.vesting_schedule.record matches Some(record)
    &&& record.authority == ctx.authority.key
    &&& record.beneficiary == ctx.beneficiary
    &&& record.token_mint == ctx.token_mint
    &&& derived == Some(ctx.vesting_schedule.key@)
}

/// The funding account of the request is the one of the record, is owned by
/// the authority and holds the asset.
pub open spec fn source_account_valid(ctx: ClaimTokens, record: VestingSchedule) -> bool {
    &&& ctx.token_account.key == record.token_account
    &&& ctx.token_account.held_by(ctx.authority.key, ctx.token_mint)
}

/// The receiving account of the request is owned by the beneficiary and
/// holds the asset.
pub open spec fn receiving_account_valid(ctx: ClaimTokens) -> bool {
    ctx.beneficiary_token_account.held_by(ctx.beneficiary, ctx.token_mint)
}

/// The transfer that pays `amount` of a claim.
pub open spec fn transfer_for(ctx: ClaimTokens, amount: u64) -> TransferOrder {
    TransferOrder {
        from: ctx.token_account.key,
        to: ctx.beneficiary_token_account.key,
        token_mint: ctx.token_mint,
        authority: ctx.authority.key,
        amount,
    }
}

/// What a claim at `now` comes to once the accounts have passed their
/// checks: it depends on the time and on the record alone.
pub open spec fn claim_of_record(ctx: ClaimTokens, record: VestingSchedule, now: i64) -> Result<
    TransferOrder,
    VestingError,
> {
    if now < record.start_time {
        Err(VestingError::VestingNotStarted)
    } else if record.claimable(now as int) == 0 {
        Err(VestingError::NoTokensToClaim)
    } else {
        Ok(transfer_for(ctx, record.claimable(now as int) as u64))
    }
}

/// What a claim at `now` comes to, given the address `derived` for the
/// request: the transfer to ask of the token ledger, which moves all that
/// can be claimed at `now`, or the error of the first check that fails.
pub open spec fn claim_decision(ctx: ClaimTokens, derived: Option<Seq<u8>>, now: i64) -> Result<
    TransferOrder,
    VestingError,
> {
    if !claim_authorized(ctx, derived) {
        Err(VestingError::Unauthorized)
    } else {
        let record = ctx.vesting_schedule.record.unwrap();
        if !source_account_valid(ctx, record) {
            Err(VestingError::InvalidSourceAccount)
        } else if !receiving_account_valid(ctx) {
            Err(VestingError::ReceivingAccountMismatch)
        } else {
            claim_of_record(ctx, record, now)
        }
    }
}

/// The accounts after `amount` was paid out of the record: the record is
/// credited with it, and nothing else has changed.
pub open spec fn accounts_after_payment(ctx: ClaimTokens, amount: u64) -> ClaimTokens {
    match ctx.vesting_schedule.record {
        Some(record) => ClaimTokens {
            vesting_schedule: RecordAccount {
                key: ctx.vesting_schedule.key,
                record: Some(record.credited(amount as nat)),
            },
            ..ctx
        },
        None => ctx,
    }
}

/// What a claim at `now` returns once the token ledger has answered: the
/// quantity transferred; `TransferFailed` where the ledger did not carry out
/// the transfer; or the error for which no transfer was to be asked.
pub open spec fn claim_result(
    ctx: ClaimTokens,
    derived: Option<Seq<u8>>,
    now: i64,
    outcome: TransferOutcome,
) -> Result<u64, VestingError> {
    match claim_decision(ctx, derived, now) {
        Ok(order) => match outcome {
            TransferOutcome::Completed => Ok(order.amount),
            TransferOutcome::Failed => Err(VestingError::TransferFailed),
        },
        Err(e) => Err(e),
    }
}

/// The accounts after a claim at `now`: the record is credited with what
/// was transferred, and nothing has changed where the claim failed.
pub open spec fn accounts_after_claim(
    ctx: ClaimTokens,
    derived: Option<Seq<u8>>,
    now: i64,
    outcome: TransferOutcome,
) -> ClaimTokens {
    match claim_result(ctx, derived, now, outcome) {
        Ok(amount) => accounts_after_payment(ctx, amount),
        Err(_) => ctx,
    }
}

/// Decides a claim at `current_time`, given the address that was derived
/// for the request from the bump of the record: returns the transfer to ask
/// of the token ledger, or the error.
pub fn claim_order_at(ctx: &ClaimTokens, derived: Option<Address>, current_time: i64) -> (result:
    Result<TransferOrder, VestingError>)
    ensures
        result == claim_decision(*ctx, address_view(derived), current_time),
{
    if !ctx.authority.is_signer {
        return Err(VestingError::Unauthorized);
    }
    let record = match ctx.vesting_schedule.record {
        Some(record) => record,
        None => {
            return Err(VestingError::Unauthorized);
        },
    };
    if record.authority != ctx.authority.key || record.beneficiary != ctx.beneficiary
        || record.token_mint != ctx.token_mint {
        return Err(VestingError::Unauthorized);
    }
    match derived {
        Some(address) => {
            proof {
                Address::lemma_view_injective(address, ctx.vesting_schedule.key);
            }
            if address != ctx.vesting_schedule.key {
                return Err(VestingError::Unauthorized);
            }
        },
        None => {
            return Err(VestingError::Unauthorized);
        },
    }
    if ctx.token_account.key != record.token_account || !ctx.token_account.verify(
        &ctx.authority.key,
        &ctx.token_mint,
    ) {
        return Err(VestingError::InvalidSourceAccount);
    }
    if !ctx.beneficiary_token_account.verify(&ctx.beneficiary, &ctx.token_mint) {
        return Err(VestingError::ReceivingAccountMismatch);
    }
    if current_time < record.start_time {
        return Err(VestingError::VestingNotStarted);
    }
    let amount = record.compute_claimable(current_time);
    if amount == 0 {
        return Err(VestingError::NoTokensToClaim);
    }
    Ok(
        TransferOrder {
            from: ctx.token_account.key,
            to: ctx.beneficiary_token_account.key,
            token_mint: ctx.token_mint,
            authority: ctx.authority.key,
            amount,
        },
    )
}

/// Settles a claim at `current_time` with the answer of the token ledger,
/// given the address that was derived for the request from the bump of the
/// record.
///
/// Where the claim is in order and the transfer was carried out, the record
/// is credited with the quantity transferred, which is returned. In every
/// other case the accounts are as they were.
pub fn claim_tokens_at(
    ctx: &mut ClaimTokens,
    derived: Option<Address>,
    current_time: i64,
    outcome: TransferOutcome,
) -> (result: Result<u64, VestingError>)
    ensures
        result == claim_result(*old(ctx), address_view(derived), current_time, outcome),
        *final(ctx) == accounts_after_claim(
            *old(ctx),
            address_view(derived),
            current_time,
            outcome,
        ),
{
    let order = match claim_order_at(ctx, derived, current_time) {
        Ok(order) => order,
        Err(e) => {
            return Err(e);
        },
    };
    match outcome {
        TransferOutcome::Failed => {
            return Err(VestingError::TransferFailed);
        },
        TransferOutcome::Completed => {},
    }
    match ctx.vesting_schedule.record {
        Some(record) => {
            proof {
                record.lemma_unlocked_bounded(current_time as int);
            }
            ctx.vesting_schedule.record = Some(
                VestingSchedule { claimed_amount: record.claimed_amount + order.amount, ..record },
            );
        },
        None => {},
    }
    Ok(order.amount)
}

/// The address derived under `program_id` for the authority, the beneficiary
/// and the asset of the request, from the bump of the record that the
/// account holds; `None` where it holds no record.
pub open spec fn claim_address(ctx: ClaimTokens, program_id: Address) -> Option<Seq<u8>> {
    match ctx.vesting_schedule.record {
        Some(record) => schedule_address_with_bump(
            program_id@,
            ctx.authority.key@,
            ctx.beneficiary@,
            ctx.token_mint@,
            record.bump,
        ),
        None => None,
    }
}

/// Derives the address of the request from the bump of the record.
fn derive_claim_address(ctx: &ClaimTokens, program_id: &Address) -> (derived: Option<Address>)
    ensures
        address_view(derived) == claim_address(*ctx, *program_id),
{
    match ctx.vesting_schedule.record {
        Some(record) => schedule_address(
            program_id,
            &ctx.authority.key,
            &ctx.beneficiary,
            &ctx.token_mint,
            record.bump,
        ),
        None => None,
    }
}

/// Decides a claim at `current_time`: returns the transfer to ask of the
/// token ledger, which moves all that can be claimed at that time from the
/// funding account to the receiving account, or the error for which the
/// request is turned down.
///
/// The address of the record is derived again under `program_id` from the
/// authority, the beneficiary and the asset of the request.
pub fn claim_order(ctx: &ClaimTokens, program_id: &Address, current_time: i64) -> (result: Result<
    TransferOrder,
    VestingError,
>)
    ensures
        result == claim_decision(*ctx, claim_address(*ctx, *program_id), current_time),
{
    let derived = derive_claim_address(ctx, program_id);
    claim_order_at(ctx, derived, current_time)
}

/// Settles a claim at `current_time` with the answer of the token ledger to
/// the transfer that `claim_order` returned for it.
///
/// Where the claim is in order and the transfer was carried out, the record
/// is credited with the quantity transferred, which is returned. Where the
/// transfer failed the result is `TransferFailed`; where the claim is not in
/// order it is the error of `claim_order`. In both cases the accounts are as
/// they were.
pub fn claim_tokens(
    ctx: &mut ClaimTokens,
    program_id: &Address,
    current_time: i64,
    outcome: TransferOutcome,
) -> (result: Result<u64, VestingError>)
    ensures
        result == claim_result(
            *old(ctx),
            claim_address(*old(ctx), *program_id),
            current_time,
            outcome,
        ),
        *final(ctx) == accounts_after_claim(
            *old(ctx),
            claim_address(*old(ctx), *program_id),
            current_time,
            outcome,
        ),
{
    let derived = derive_claim_address(ctx, program_id);
    claim_tokens_at(ctx, derived, current_time, outcome)
}

/// A record can be claimed as its creation left it. Take the accounts of a
/// request that created a schedule, with the record in its account, whose
/// bump derives the address of the account again. A claim that the same
/// authority signs for the same beneficiary and asset, with the same funding
/// account and a receiving account of the beneficiary, passes every check on
/// the accounts: before the start it is turned down with
/// `VestingNotStarted`, and from then on it is paid what has unlocked, or
/// turned down with `NoTokensToClaim` while that is nothing.
pub proof fn lemma_created_record_can_be_claimed(
    created: CreateVestingSchedule,
    claim: ClaimTokens,
    program_id: Address,
    now: i64,
)
    requires
        created.vesting_schedule.record is Some,
        created.vesting_schedule.record.unwrap().authority == created.authority.key,
        created.vesting_schedule.record.unwrap().beneficiary == created.beneficiary,
        created.vesting_schedule.record.unwrap().token_mint == created.token_mint,
        created.vesting_schedule.record.unwrap().token_account == created.token_account.key,
        created.token_account.held_by(created.authority.key, created.token_mint),
        rederived_address(created, program_id) == Some(created.vesting_schedule.key@),
        claim.vesting_schedule == created.vesting_schedule,
        claim.authority.key == created.authority.key,
        claim.authority.is_signer,
        claim.beneficiary == created.beneficiary,
        claim.token_mint == created.token_mint,
        claim.token_account == created.token_account,
        receiving_account_valid(claim),
    ensures
        claim_decision(claim, claim_address(claim, program_id), now) == claim_of_record(
            claim,
            created.vesting_schedule.record.unwrap(),
            now,
        ),
{
}

/// A claim that was paid leaves nothing to claim at the same time: it
/// transferred more than nothing, and every further claim at that time is
/// turned down with `NoTokensToClaim`, whatever the token ledger would have
/// answered, and changes nothing.
pub proof fn lemma_claim_is_paid_once(
    ctx: ClaimTokens,
    program_id: Address,
    now: i64,
    outcome: TransferOutcome,
)
    requires
        claim_result(
            ctx,
            claim_address(ctx, program_id),
            now,
            TransferOutcome::Completed,
        ) is Ok,
    ensures
        claim_result(
            ctx,
            claim_address(ctx, program_id),
            now,
            TransferOutcome::Completed,
        )->Ok_0 > 0,
        claim_decision(
            paid(ctx, program_id, now),
            claim_address(paid(ctx, program_id, now), program_id),
            now,
        ) == Err::<TransferOrder, VestingError>(VestingError::NoTokensToClaim),
        claim_result(
            paid(ctx, program_id, now),
            claim_address(paid(ctx, program_id, now), program_id),
            now,
            outcome,
        ) == Err::<u64, VestingError>(VestingError::NoTokensToClaim),
        accounts_after_claim(
            paid(ctx, program_id, now),
            claim_address(paid(ctx, program_id, now), program_id),
            now,
            outcome,
        ) == paid(ctx, program_id, now),
{
    let record = ctx.vesting_schedule.record.unwrap();
    record.lemma_unlocked_bounded(now as int);
}

/// The accounts after a claim at `now` whose transfer was carried out.
pub open spec fn paid(ctx: ClaimTokens, program_id: Address, now: i64) -> ClaimTokens {
    accounts_after_claim(ctx, claim_address(ctx, program_id), now, TransferOutcome::Completed)
}

/// The accounts after a run of claims, each made at its time and settled
/// with its answer of the token ledger.
pub open spec fn accounts_after_claims(
    ctx: ClaimTokens,
    program_id: Address,
    claims: Seq<(i64, TransferOutcome)>,
) -> ClaimTokens
    decreases claims.len(),
{
    if claims.len() == 0 {
        ctx
    } else {
        let before = accounts_after_claims(ctx, program_id, claims.drop_last());
        accounts_after_claim(
            before,
            claim_address(before, program_id),
            claims.last().0,
            claims.last().1,
        )
    }
}

/// The sum of the quantities that a run of claims transferred: a claim that
/// failed adds nothing.
pub open spec fn transferred_by_claims(
    ctx: ClaimTokens,
    program_id: Address,
    claims: Seq<(i64, TransferOutcome)>,
) -> nat
    decreases claims.len(),
{
    if claims.len() == 0 {
        0
    } else {
        let before = accounts_after_claims(ctx, program_id, claims.drop_last());
        let last = claim_result(
            before,
            claim_address(before, program_id),
            claims.last().0,
            claims.last().1,
        );
        transferred_by_claims(ctx, program_id, claims.drop_last()) + match last {
            Ok(amount) => amount as nat,
            Err(_) => 0nat,
        }
    }
}

/// The quantity claimed of the record that the account holds; 0 where it
/// holds none.
pub open spec fn claimed_of(ctx: ClaimTokens) -> nat {
    match ctx.vesting_schedule.record {
        Some(record) => record.claimed_amount as nat,
        None => 0,
    }
}

/// The quantity that vests in all under the record that the account holds;
/// 0 where it holds none.
pub open spec fn total_of(ctx: ClaimTokens) -> nat {
    match ctx.vesting_schedule.record {
        Some(record) => record.total_amount as nat,
        None => 0,
    }
}

/// The record that the account holds, if any, is well formed.
pub open spec fn record_well_formed(ctx: ClaimTokens) -> bool {
    match ctx.vesting_schedule.record {
        Some(record) => record.wf(),
        None => true,
    }
}

/// The accounts of `after` are those of `before` but for the quantity
/// claimed of the record.
pub open spec fn differs_in_claimed_only(before: ClaimTokens, after: ClaimTokens) -> bool {
    match before.vesting_schedule.record {
        Some(record) => after == ClaimTokens {
            vesting_schedule: RecordAccount {
                key: before.vesting_schedule.key,
                record: Some(
                    VestingSchedule { claimed_amount: claimed_of(after) as u64, ..record },
                ),
            },
            ..before
        },
        None => after == before,
    }
}

/// After any run of claims, what is claimed of the record is what was
/// claimed before plus the sum of the quantities that the run transferred,
/// and nothing else in the accounts has changed. Where no more was claimed
/// before than vests in all, this still holds after, and a record that was
/// well formed still is.
pub proof fn lemma_claimed_is_sum_of_transfers(
    ctx: ClaimTokens,
    program_id: Address,
    claims: Seq<(i64, TransferOutcome)>,
)
    ensures
        claimed_of(accounts_after_claims(ctx, program_id, claims)) == claimed_of(ctx)
            + transferred_by_claims(ctx, program_id, claims),
        differs_in_claimed_only(ctx, accounts_after_claims(ctx, program_id, claims)),
        claimed_of(ctx) <= total_of(ctx) ==> claimed_of(
            accounts_after_claims(ctx, program_id, claims),
        ) <= total_of(ctx),
        record_well_formed(ctx) ==> record_well_formed(
            accounts_after_claims(ctx, program_id, claims),
        ),
    decreases claims.len(),
{
    if claims.len() > 0 {
        lemma_claimed_is_sum_of_transfers(ctx, program_id, claims.drop_last());
        let before = accounts_after_claims(ctx, program_id, claims.drop_last());
        if before.vesting_schedule.record is Some {
            before.vesting_schedule.record.unwrap().lemma_unlocked_bounded(claims.last().0 as int);
        }
    }
}

} // verus!
