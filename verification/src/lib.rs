//! A ledger of linear token vesting.
//!
//! A vesting schedule unlocks a fixed quantity of an asset between a start
//! and an end time, and pays what has unlocked to a beneficiary when the
//! authority of the schedule claims it.
//!
//! - `address`: account addresses, and the derivation of a record's address.
//! - `schedule`: the record, and the quantities that it unlocks over time.
//! - `accounts`: the accounts that a request names.
//! - `create`: creating a schedule.
//! - `claim`: claiming what has unlocked.

pub mod accounts;
pub mod address;
pub mod claim;
pub mod create;
pub mod schedule;

pub use accounts::{
    AuthorityProof, ClaimTokens, CreateVestingSchedule, RecordAccount, TokenAccount, TransferOrder,
    TransferOutcome,
};
pub use address::Address;
pub use claim::{claim_order, claim_order_at, claim_tokens, claim_tokens_at};
pub use create::{create_at, create_vesting_schedule};
pub use schedule::{VestingError, VestingSchedule};
