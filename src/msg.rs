//! Message vocabulary shared with the governance, staking and liquid-staking
//! collaborators.

use vstd::prelude::*;

verus! {

/// A vote on a governance poll.
#[allow(non_camel_case_types)]
#[derive(Clone, Copy, Debug, PartialEq, Eq, Structural)]
pub enum VoteOption {
    yes,
    no,
}

impl VoteOption {
    /// The option's name as written in attributes and messages.
    pub fn to_text(&self) -> (r: String)
        ensures
            *self == VoteOption::yes ==> r@ == "yes"@,
            *self == VoteOption::no ==> r@ == "no"@,
    {
        match self {
            VoteOption::yes => "yes".to_owned(),
            VoteOption::no => "no".to_owned(),
        }
    }
}

/// A message that a passed poll executes.
#[allow(non_camel_case_types)]
#[derive(Clone, Debug, PartialEq, Eq)]
pub enum PollExecuteMsg {
    execute { contract: String, msg: String },
}

/// The life cycle of a governance poll.
#[allow(non_camel_case_types)]
#[derive(Clone, Copy, Debug, PartialEq, Eq, Structural)]
pub enum PollStatus {
    in_progress,
    passed,
    rejected,
    executed,
    expired,
}

impl PollStatus {
    /// The status's name as written in attributes and messages.
    pub fn to_text(&self) -> (r: String)
        ensures
            *self == PollStatus::in_progress ==> r@ == "in_progress"@,
            *self == PollStatus::passed ==> r@ == "passed"@,
            *self == PollStatus::rejected ==> r@ == "rejected"@,
            *self == PollStatus::executed ==> r@ == "executed"@,
            *self == PollStatus::expired ==> r@ == "expired"@,
    {
        match self {
            PollStatus::in_progress => "in_progress".to_owned(),
            PollStatus::passed => "passed".to_owned(),
            PollStatus::rejected => "rejected".to_owned(),
            PollStatus::executed => "executed".to_owned(),
            PollStatus::expired => "expired".to_owned(),
        }
    }
}

/// The kind of an AMM pair.
#[derive(Clone, Debug, PartialEq, Eq)]
pub enum PairType {
    /// Constant-product pair.
    Xyk {},
    /// Stable-swap pair.
    Stable {},
    /// Any other pair kind, by name.
    Custom(String),
}

/// Hook message to the liquid-staking contract, sent with tokens.
#[derive(Clone, Copy, Debug, PartialEq, Eq, Structural)]
pub enum StaderCw20HookMsg {
    QueueUndelegate {},
}

/// Execute message to the liquid-staking contract.
#[derive(Clone, Copy, Debug, PartialEq, Eq, Structural)]
pub enum StaderExecuteMsg {
    WithdrawFundsToWallet { batch_id: u64 },
}

/// Query message to the liquid-staking contract.
#[derive(Clone, Debug, PartialEq, Eq)]
pub enum StaderQueryMsg {
    State {},
    BatchUndelegation { batch_id: u64 },
    GetUserUndelegationRecords { user_addr: String, start_after: Option<u64>, limit: Option<u64> },
    GetUserUndelegationInfo { user_addr: String, batch_id: u64 },
}

/// Number of pools registered in the LP generator.
#[derive(Clone, Copy, Debug, PartialEq, Eq, Structural)]
pub struct PoolLengthResponse {
    pub length: usize,
}

} // verus!
