use vesting::address::find_schedule_address;
use vesting::{
    claim_order, claim_order_at, claim_tokens, claim_tokens_at, create_vesting_schedule, Address,
    AuthorityProof, ClaimTokens, CreateVestingSchedule, RecordAccount, TokenAccount, TransferOrder,
    TransferOutcome, VestingError, VestingSchedule,
};

fn key(n: u8) -> Address {
    Address { bytes: [n; 32] }
}

const PROGRAM: u8 = 9;

fn created(start_time: i64, end_time: i64, total_amount: u64) -> RecordAccount {
    let (address, _) = find_schedule_address(&key(PROGRAM), &key(1), &key(2), &key(3)).unwrap();
    let mut ctx = CreateVestingSchedule {
        vesting_schedule: RecordAccount { key: address, record: None },
        authority: AuthorityProof { key: key(1), is_signer: true },
        beneficiary: key(2),
        token_mint: key(3),
        token_account: TokenAccount { key: key(4), owner: key(1), mint: key(3) },
    };
    assert_eq!(
        create_vesting_schedule(&mut ctx, &key(PROGRAM), start_time, end_time, total_amount),
        Ok(address)
    );
    ctx.vesting_schedule
}

fn request(start_time: i64, end_time: i64, total_amount: u64) -> ClaimTokens {
    ClaimTokens {
        vesting_schedule: created(start_time, end_time, total_amount),
        authority: AuthorityProof { key: key(1), is_signer: true },
        beneficiary: key(2),
        token_mint: key(3),
        token_account: TokenAccount { key: key(4), owner: key(1), mint: key(3) },
        beneficiary_token_account: TokenAccount { key: key(5), owner: key(2), mint: key(3) },
    }
}

fn claimed(ctx: &ClaimTokens) -> u64 {
    ctx.vesting_schedule.record.unwrap().claimed_amount
}

fn order(amount: u64) -> TransferOrder {
    TransferOrder { from: key(4), to: key(5), token_mint: key(3), authority: key(1), amount }
}

#[test]
fn half_is_claimed_at_half_time_and_the_rest_at_the_end() {
    let mut ctx = request(0, 100, 1000);
    let program = key(PROGRAM);

    assert_eq!(claim_order(&ctx, &program, 50), Ok(order(500)));
    assert_eq!(claim_tokens(&mut ctx, &program, 50, TransferOutcome::Completed), Ok(500));
    assert_eq!(claimed(&ctx), 500);

    assert_eq!(claim_order(&ctx, &program, 100), Ok(order(500)));
    assert_eq!(claim_tokens(&mut ctx, &program, 100, TransferOutcome::Completed), Ok(500));
    assert_eq!(claimed(&ctx), 1000);

    assert_eq!(claim_order(&ctx, &program, 100), Err(VestingError::NoTokensToClaim));
    assert_eq!(
        claim_tokens(&mut ctx, &program, 100, TransferOutcome::Completed),
        Err(VestingError::NoTokensToClaim)
    );
    assert_eq!(
        claim_tokens(&mut ctx, &program, 5000, TransferOutcome::Completed),
        Err(VestingError::NoTokensToClaim)
    );
    assert_eq!(claimed(&ctx), 1000);
}

#[test]
fn claim_before_the_start_has_not_started() {
    let mut ctx = request(1000, 2000, 500);
    let before = ctx;
    assert_eq!(claim_order(&ctx, &key(PROGRAM), 999), Err(VestingError::VestingNotStarted));
    assert_eq!(
        claim_tokens(&mut ctx, &key(PROGRAM), 999, TransferOutcome::Completed),
        Err(VestingError::VestingNotStarted)
    );
    assert_eq!(ctx, before);
}

#[test]
fn claim_at_the_start_finds_nothing() {
    let ctx = request(1000, 2000, 500);
    assert_eq!(claim_order(&ctx, &key(PROGRAM), 1000), Err(VestingError::NoTokensToClaim));
    assert_eq!(claim_order(&ctx, &key(PROGRAM), 1001), Err(VestingError::NoTokensToClaim));
    assert_eq!(claim_order(&ctx, &key(PROGRAM), 1002), Ok(order(1)));
}

#[test]
fn second_claim_at_the_same_time_finds_nothing() {
    let mut ctx = request(0, 100, 1000);
    let program = key(PROGRAM);
    assert_eq!(claim_tokens(&mut ctx, &program, 37, TransferOutcome::Completed), Ok(370));
    let after_first = ctx;
    assert_eq!(
        claim_tokens(&mut ctx, &program, 37, TransferOutcome::Completed),
        Err(VestingError::NoTokensToClaim)
    );
    assert_eq!(
        claim_tokens(&mut ctx, &program, 37, TransferOutcome::Failed),
        Err(VestingError::NoTokensToClaim)
    );
    assert_eq!(ctx, after_first);
}

#[test]
fn failed_transfer_leaves_the_record_as_it_was() {
    let mut ctx = request(0, 100, 1000);
    let program = key(PROGRAM);
    let before = ctx;
    assert_eq!(
        claim_tokens(&mut ctx, &program, 50, TransferOutcome::Failed),
        Err(VestingError::TransferFailed)
    );
    assert_eq!(ctx, before);
    assert_eq!(claim_tokens(&mut ctx, &program, 50, TransferOutcome::Completed), Ok(500));
    assert_eq!(claimed(&ctx), 500);
}

#[test]
fn claimed_is_the_sum_of_what_was_transferred() {
    let mut ctx = request(0, 1000, 12345);
    let program = key(PROGRAM);
    let mut transferred: u64 = 0;
    let times = [-5i64, 0, 1, 1, 250, 100, 999, 999, 1000, 1000, 5000];
    for (i, t) in times.iter().enumerate() {
        let outcome = if i % 3 == 2 { TransferOutcome::Failed } else { TransferOutcome::Completed };
        if let Ok(amount) = claim_tokens(&mut ctx, &program, *t, outcome) {
            assert!(amount > 0);
            transferred += amount;
        }
        assert_eq!(claimed(&ctx), transferred);
        assert!(claimed(&ctx) <= 12345);
    }
    assert_eq!(transferred, 12345);
    let record = ctx.vesting_schedule.record.unwrap();
    assert_eq!(record.total_amount, 12345);
    assert_eq!((record.start_time, record.end_time), (0, 1000));
}

#[test]
fn order_moves_from_the_funding_account_to_the_receiving_account() {
    let ctx = request(0, 100, 1000);
    let result = claim_order(&ctx, &key(PROGRAM), 10).unwrap();
    assert_eq!(result.from, key(4));
    assert_eq!(result.to, key(5));
    assert_eq!(result.token_mint, key(3));
    assert_eq!(result.authority, key(1));
    assert_eq!(result.amount, 100);
}

#[test]
fn unsigned_claim_is_unauthorized() {
    let mut ctx = request(0, 100, 1000);
    ctx.authority.is_signer = false;
    let before = ctx;
    assert_eq!(claim_order(&ctx, &key(PROGRAM), 50), Err(VestingError::Unauthorized));
    assert_eq!(
        claim_tokens(&mut ctx, &key(PROGRAM), 50, TransferOutcome::Completed),
        Err(VestingError::Unauthorized)
    );
    assert_eq!(ctx, before);
}

#[test]
fn claim_by_another_authority_is_unauthorized() {
    let mut ctx = request(0, 100, 1000);
    ctx.authority.key = key(11);
    ctx.token_account.owner = key(11);
    assert_eq!(claim_order(&ctx, &key(PROGRAM), 50), Err(VestingError::Unauthorized));
    ctx.vesting_schedule.key =
        find_schedule_address(&key(PROGRAM), &key(11), &key(2), &key(3)).unwrap().0;
    assert_eq!(claim_order(&ctx, &key(PROGRAM), 50), Err(VestingError::Unauthorized));
}

#[test]
fn claim_for_another_beneficiary_is_unauthorized() {
    let mut ctx = request(0, 100, 1000);
    ctx.beneficiary = key(12);
    ctx.beneficiary_token_account.owner = key(12);
    assert_eq!(claim_order(&ctx, &key(PROGRAM), 50), Err(VestingError::Unauthorized));
}

#[test]
fn claim_of_another_asset_is_unauthorized() {
    let mut ctx = request(0, 100, 1000);
    ctx.token_mint = key(13);
    ctx.token_account.mint = key(13);
    ctx.beneficiary_token_account.mint = key(13);
    assert_eq!(claim_order(&ctx, &key(PROGRAM), 50), Err(VestingError::Unauthorized));
}

#[test]
fn record_at_a_forged_address_is_unauthorized() {
    let mut ctx = request(0, 100, 1000);
    ctx.vesting_schedule.key = key(70);
    assert_eq!(claim_order(&ctx, &key(PROGRAM), 50), Err(VestingError::Unauthorized));

    let under_other_program = request(0, 100, 1000);
    assert_eq!(claim_order(&under_other_program, &key(8), 50), Err(VestingError::Unauthorized));

    let mut other_bump = request(0, 100, 1000);
    let mut record = other_bump.vesting_schedule.record.unwrap();
    record.bump -= 1;
    other_bump.vesting_schedule.record = Some(record);
    assert_eq!(claim_order(&other_bump, &key(PROGRAM), 50), Err(VestingError::Unauthorized));
}

#[test]
fn claim_without_a_record_is_unauthorized() {
    let mut ctx = request(0, 100, 1000);
    ctx.vesting_schedule.record = None;
    let before = ctx;
    assert_eq!(claim_order(&ctx, &key(PROGRAM), 50), Err(VestingError::Unauthorized));
    assert_eq!(
        claim_tokens(&mut ctx, &key(PROGRAM), 50, TransferOutcome::Completed),
        Err(VestingError::Unauthorized)
    );
    assert_eq!(ctx, before);
}

#[test]
fn funding_account_must_be_the_one_of_the_record() {
    let mut ctx = request(0, 100, 1000);
    ctx.token_account.key = key(44);
    assert_eq!(claim_order(&ctx, &key(PROGRAM), 50), Err(VestingError::InvalidSourceAccount));
    let mut other_owner = request(0, 100, 1000);
    other_owner.token_account.owner = key(2);
    assert_eq!(
        claim_order(&other_owner, &key(PROGRAM), 50),
        Err(VestingError::InvalidSourceAccount)
    );
    let mut other_asset = request(0, 100, 1000);
    other_asset.token_account.mint = key(33);
    assert_eq!(
        claim_tokens(&mut other_asset, &key(PROGRAM), 50, TransferOutcome::Completed),
        Err(VestingError::InvalidSourceAccount)
    );
    assert_eq!(claimed(&other_asset), 0);
}

#[test]
fn receiving_account_must_belong_to_the_beneficiary() {
    let mut ctx = request(0, 100, 1000);
    ctx.beneficiary_token_account.owner = key(1);
    assert_eq!(claim_order(&ctx, &key(PROGRAM), 50), Err(VestingError::ReceivingAccountMismatch));
    let mut other_asset = request(0, 100, 1000);
    other_asset.beneficiary_token_account.mint = key(33);
    assert_eq!(
        claim_tokens(&mut other_asset, &key(PROGRAM), 50, TransferOutcome::Completed),
        Err(VestingError::ReceivingAccountMismatch)
    );
    assert_eq!(claimed(&other_asset), 0);
}

#[test]
fn accounts_are_checked_before_the_time() {
    let mut ctx = request(1000, 2000, 500);
    ctx.beneficiary_token_account.owner = key(1);
    assert_eq!(claim_order(&ctx, &key(PROGRAM), 0), Err(VestingError::ReceivingAccountMismatch));
    ctx.token_account.owner = key(2);
    assert_eq!(claim_order(&ctx, &key(PROGRAM), 0), Err(VestingError::InvalidSourceAccount));
    ctx.authority.is_signer = false;
    assert_eq!(claim_order(&ctx, &key(PROGRAM), 0), Err(VestingError::Unauthorized));
}

#[test]
fn claim_where_more_was_claimed_than_unlocked_finds_nothing() {
    let mut ctx = request(0, 100, 1000);
    let mut record = ctx.vesting_schedule.record.unwrap();
    record.claimed_amount = 600;
    ctx.vesting_schedule.record = Some(record);
    assert_eq!(claim_order(&ctx, &key(PROGRAM), 50), Err(VestingError::NoTokensToClaim));
    assert_eq!(claim_order(&ctx, &key(PROGRAM), 61), Ok(order(10)));
}

#[test]
fn widest_schedule_is_claimed_in_full() {
    let mut ctx = request(i64::MIN, i64::MAX, u64::MAX);
    let program = key(PROGRAM);
    assert_eq!(
        claim_tokens(&mut ctx, &program, 0, TransferOutcome::Completed),
        Ok(9223372036854775808)
    );
    assert_eq!(
        claim_tokens(&mut ctx, &program, i64::MAX, TransferOutcome::Completed),
        Ok(9223372036854775807)
    );
    assert_eq!(claimed(&ctx), u64::MAX);
}

#[test]
fn claim_at_decides_on_the_address_it_is_given() {
    let record = VestingSchedule {
        authority: key(1),
        beneficiary: key(2),
        token_mint: key(3),
        token_account: key(4),
        start_time: 0,
        end_time: 100,
        total_amount: 1000,
        claimed_amount: 0,
        bump: 200,
    };
    let mut ctx = request(0, 100, 1000);
    ctx.vesting_schedule = RecordAccount { key: key(80), record: Some(record) };
    assert_eq!(claim_order_at(&ctx, None, 50), Err(VestingError::Unauthorized));
    assert_eq!(claim_order_at(&ctx, Some(key(81)), 50), Err(VestingError::Unauthorized));
    assert_eq!(claim_order_at(&ctx, Some(key(80)), 50), Ok(order(500)));
    assert_eq!(
        claim_tokens_at(&mut ctx, Some(key(81)), 50, TransferOutcome::Completed),
        Err(VestingError::Unauthorized)
    );
    assert_eq!(claimed(&ctx), 0);
    assert_eq!(claim_tokens_at(&mut ctx, Some(key(80)), 50, TransferOutcome::Completed), Ok(500));
    assert_eq!(claimed(&ctx), 500);
    assert_eq!(
        claim_tokens_at(&mut ctx, Some(key(80)), 75, TransferOutcome::Failed),
        Err(VestingError::TransferFailed)
    );
    assert_eq!(claimed(&ctx), 500);
}
