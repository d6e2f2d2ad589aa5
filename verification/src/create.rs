//! Creating a vesting schedule.
//!
//! A schedule is created once for each authority, beneficiary and asset. Its
//! record is written to the account at the address derived from the three;
//! a second request for the same three finds the record there and is turned
//! down.
//!
//! The checks are made in this order, and the first that fails decides the
//! error: the authority signed; the record account is at the derived
//! address; it holds no record yet; the funding account is owned by the
//! authority and holds the asset; the schedule ends after it starts. The
//! last is a choice of this library: a schedule that does not end after it
//! starts is turned down with `InvalidTimeRange` rather than stored.

use crate::accounts::{CreateVestingSchedule, RecordAccount};
use crate::address::{
    derived_schedule_address, find_schedule_address, found_view, schedule_address_with_bump, Address,
};
use crate::schedule::{VestingError, VestingSchedule};
use vstd::prelude::*;

verus! {

/// The record account of the request is at the derived address.
pub open spec fn at_derived_address(ctx: CreateVestingSchedule, derived: Option<(Seq<u8>, u8)>) -> bool {
    derived matches Some((address, _)) && address == ctx.vesting_schedule.key@
}

/// The record that a request creates where it passes every check.
pub open spec fn new_record(
    ctx: CreateVestingSchedule,
    bump: u8,
    start_time: i64,
    end_time: i64,
    total_amount: u64,
) -> VestingSchedule {
    VestingSchedule {
        authority: ctx.authority.key,
        beneficiary: ctx.beneficiary,
        token_mint: ctx.token_mint,
        token_account: ctx.token_account.key,
        start_time,
        end_time,
        total_amount,
        claimed_amount: 0,
        bump,
    }
}

/// What a request to create a schedule comes to, given the address and bump
/// derived for its authority, beneficiary and asset: the record to store, or
/// the error of the first check that fails.
pub open spec fn create_decision(
    ctx: CreateVestingSchedule,
    derived: Option<(Seq<u8>, u8)>,
    start_time: i64,
    end_time: i64,
    total_amount: u64,
) -> Result<VestingSchedule, VestingError> {
    if !ctx.authority.is_signer {
        Err(VestingError::Unauthorized)
    } else if !at_derived_address(ctx, derived) {
        Err(VestingError::Unauthorized)
    } else if ctx.vesting_schedule.record is Some {
        Err(VestingError::DuplicateSchedule)
    } else if !ctx.token_account.held_by(ctx.authority.key, ctx.token_mint) {
        Err(VestingError::InvalidSourceAccount)
    } else if end_time <= start_time {
        Err(VestingError::InvalidTimeRange)
    } else {
        Ok(new_record(ctx, derived.unwrap().1, start_time, end_time, total_amount))
    }
}

/// The accounts after a request to create a schedule: the record account
/// holds the new record where the request passed, and nothing has changed
/// where it did not.
pub open spec fn accounts_after_create(
    ctx: CreateVestingSchedule,
    derived: Option<(Seq<u8>, u8)>,
    start_time: i64,
    end_time: i64,
    total_amount: u64,
) -> CreateVestingSchedule {
    match create_decision(ctx, derived, start_time, end_time, total_amount) {
        Ok(record) => CreateVestingSchedule {
            vesting_schedule: RecordAccount { key: ctx.vesting_schedule.key, record: Some(record) },
            ..ctx
        },
        Err(_) => ctx,
    }
}

/// What a request to create a schedule returns: the address of the record,
/// or the error.
pub open spec fn create_result(
    ctx: CreateVestingSchedule,
    derived: Option<(Seq<u8>, u8)>,
    start_time: i64,
    end_time: i64,
    total_amount: u64,
) -> Result<Address, VestingError> {
    match create_decision(ctx, derived, start_time, end_time, total_amount) {
        Ok(_) => Ok(ctx.vesting_schedule.key),
        Err(e) => Err(e),
    }
}

/// Creates a vesting schedule, given the address and bump that were derived
/// for the authority, the beneficiary and the asset of the request.
///
/// On success the record account holds the new record, of which nothing is
/// claimed yet, and its address is returned. On an error the accounts are
/// as they were.
pub fn create_at(
    ctx: &mut CreateVestingSchedule,
    derived: Option<(Address, u8)>,
    start_time: i64,
    end_time: i64,
    total_amount: u64,
) -> (result: Result<Address, VestingError>)
    ensures
        result == create_result(*old(ctx), found_view(derived), start_time, end_time, total_amount),
        *final(ctx) == accounts_after_create(
            *old(ctx),
            found_view(derived),
            start_time,
            end_time,
            total_amount,
        ),
{
    if !ctx.authority.is_signer {
        return Err(VestingError::Unauthorized);
    }
    let bump = match derived {
        Some((address, bump)) => {
            proof {
                Address::lemma_view_injective(address, ctx.vesting_schedule.key);
            }
            if address != ctx.vesting_schedule.key {
                return Err(VestingError::Unauthorized);
            }
            bump
        },
        None => {
            return Err(VestingError::Unauthorized);
        },
    };
    if ctx.vesting_schedule.record.is_some() {
        return Err(VestingError::DuplicateSchedule);
    }
    if !ctx.token_account.verify(&ctx.authority.key, &ctx.token_mint) {
        return Err(VestingError::InvalidSourceAccount);
    }
    if end_time <= start_time {
        return Err(VestingError::InvalidTimeRange);
    }
    ctx.vesting_schedule.record = Some(
        VestingSchedule {
            authority: ctx.authority.key,
            beneficiary: ctx.beneficiary,
            token_mint: ctx.token_mint,
            token_account: ctx.token_account.key,
            start_time,
            end_time,
            total_amount,
            claimed_amount: 0,
            bump,
        },
    );
    Ok(ctx.vesting_schedule.key)
}

/// The address and bump derived for the authority, the beneficiary and the
/// asset of a request under `program_id`.
pub open spec fn create_address(ctx: CreateVestingSchedule, program_id: Address) -> Option<
    (Seq<u8>, u8),
> {
    derived_schedule_address(program_id@, ctx.authority.key@, ctx.beneficiary@, ctx.token_mint@)
}

/// The address derived under `program_id` for the authority, the beneficiary
/// and the asset of the request from the bump of the record that the account
/// holds; `None` where it holds no record.
pub open spec fn rederived_address(ctx: CreateVestingSchedule, program_id: Address) -> Option<
    Seq<u8>,
> {
    match ctx.vesting_schedule.record {
        Some(record) => schedule_address_with_bump(
            program_id@,
            ctx.authority.key@,
            ctx.beneficiary@,
            ctx.token_mint@,
            record.bump,
        ),
        None => None,
    }
}

/// Creates a vesting schedule of `total_amount` that unlocks from
/// `start_time` to `end_time`.
///
/// The address of the record is derived under `program_id` from the
/// authority, the beneficiary and the asset of the request. On success the
/// record account holds the new record, of which nothing is claimed yet, and
/// its address is returned; the bump of the record then derives that address
/// again, which is what a claim will test. On an error the accounts are as
/// they were.
pub fn create_vesting_schedule(
    ctx: &mut CreateVestingSchedule,
    program_id: &Address,
    start_time: i64,
    end_time: i64,
    total_amount: u64,
) -> (result: Result<Address, VestingError>)
    ensures
        result == create_result(
            *old(ctx),
            create_address(*old(ctx), *program_id),
            start_time,
            end_time,
            total_amount,
        ),
        *final(ctx) == accounts_after_create(
            *old(ctx),
            create_address(*old(ctx), *program_id),
            start_time,
            end_time,
            total_amount,
        ),
        result is Ok ==> rederived_address(*final(ctx), *program_id) == Some(
            final(ctx).vesting_schedule.key@,
        ),
{
    let derived = find_schedule_address(
        program_id,
        &ctx.authority.key,
        &ctx.beneficiary,
        &ctx.token_mint,
    );
    create_at(ctx, derived, start_time, end_time, total_amount)
}

/// Once a schedule was created, no second one can be: whatever the terms of
/// the second request and whichever funding account it names, a request for
/// the same authority, beneficiary and asset that finds the record account
/// as the first request left it is turned down and changes nothing. Where
/// its authority signed, the error is `DuplicateSchedule`.
pub proof fn lemma_second_schedule_is_refused(
    first: CreateVestingSchedule,
    second: CreateVestingSchedule,
    program_id: Address,
    first_start: i64,
    first_end: i64,
    first_total: u64,
    second_start: i64,
    second_end: i64,
    second_total: u64,
)
    requires
        create_result(
            first,
            create_address(first, program_id),
            first_start,
            first_end,
            first_total,
        ) is Ok,
        second.authority.key == first.authority.key,
        second.beneficiary == first.beneficiary,
        second.token_mint == first.token_mint,
        second.vesting_schedule == accounts_after_create(
            first,
            create_address(first, program_id),
            first_start,
            first_end,
            first_total,
        ).vesting_schedule,
    ensures
        create_result(
            second,
            create_address(second, program_id),
            second_start,
            second_end,
            second_total,
        ) is Err,
        second.authority.is_signer ==> create_result(
            second,
            create_address(second, program_id),
            second_start,
            second_end,
            second_total,
        ) == Err::<Address, VestingError>(VestingError::DuplicateSchedule),
        accounts_after_create(
            second,
            create_address(second, program_id),
            second_start,
            second_end,
            second_total,
        ) == second,
{
}

/// A record that was created is well formed: it ends after it starts and
/// nothing of it is claimed.
pub proof fn lemma_created_record_is_well_formed(
    ctx: CreateVestingSchedule,
    derived: Option<(Seq<u8>, u8)>,
    start_time: i64,
    end_time: i64,
    total_amount: u64,
)
    requires
        create_decision(ctx, derived, start_time, end_time, total_amount) is Ok,
    ensures
        create_decision(ctx, derived, start_time, end_time, total_amount)->Ok_0.wf(),
        create_decision(ctx, derived, start_time, end_time, total_amount)->Ok_0.claimed_amount == 0,
{
}

} // verus!
