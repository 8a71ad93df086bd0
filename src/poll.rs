//! Governance poll rules: what a poll's title, description and link may be, how
//! a vote is counted, when voting ends and with what result, how much of the
//! creator's deposit comes back, and when a passed poll may run or expire.

use crate::math::{checked_multiply_ratio, ratio, ratio_atomics, ratio_fits, scale, Decimal, DECIMAL_FRACTIONAL};
use crate::msg::{PollStatus, VoteOption};
use vstd::prelude::*;

verus! {

pub const MIN_TITLE_LENGTH: usize = 4;

pub const MAX_TITLE_LENGTH: usize = 64;

pub const MIN_DESC_LENGTH: usize = 4;

pub const MAX_DESC_LENGTH: usize = 256;

pub const MIN_LINK_LENGTH: usize = 12;

pub const MAX_LINK_LENGTH: usize = 128;

#[derive(Clone, Copy, Debug, PartialEq, Eq, Structural)]
pub enum PollError {
    TitleTooShort,
    TitleTooLong,
    DescriptionTooShort,
    DescriptionTooLong,
    LinkTooShort,
    LinkTooLong,
    /// No poll has this id.
    PollNotFound,
    /// The poll is not open for votes or for ending.
    NotInProgress,
    AlreadyVoted,
    /// The vote is larger than the voter's staked balance.
    InsufficientStake,
    /// Neither the end height nor a decisive majority has been reached.
    VotingNotExpired,
    /// The poll has not passed.
    NotPassed,
    EffectiveDelayNotExpired,
    /// The poll carries no message to execute.
    NoExecuteData,
    /// A text-only poll cannot expire.
    TextProposal,
    ExpirationNotReached,
    /// An overflow or a division by zero.
    Arithmetic,
}

/// Checks a byte length against inclusive bounds.
pub open spec fn length_check(len: nat, min: nat, max: nat, short: PollError, long: PollError) -> Result<
    (),
    PollError,
> {
    if len < min {
        Err(short)
    } else if len > max {
        Err(long)
    } else {
        Ok(())
    }
}

pub fn validate_title(title: &str) -> (r: Result<(), PollError>)
    ensures
        r == length_check(
            title.len() as nat,
            MIN_TITLE_LENGTH as nat,
            MAX_TITLE_LENGTH as nat,
            PollError::TitleTooShort,
            PollError::TitleTooLong,
        ),
{
    if title.len() < MIN_TITLE_LENGTH {
        Err(PollError::TitleTooShort)
    } else if title.len() > MAX_TITLE_LENGTH {
        Err(PollError::TitleTooLong)
    } else {
        Ok(())
    }
}

pub fn validate_description(description: &str) -> (r: Result<(), PollError>)
    ensures
        r == length_check(
            description.len() as nat,
            MIN_DESC_LENGTH as nat,
            MAX_DESC_LENGTH as nat,
            PollError::DescriptionTooShort,
            PollError::DescriptionTooLong,
        ),
{
    if description.len() < MIN_DESC_LENGTH {
        Err(PollError::DescriptionTooShort)
    } else if description.len() > MAX_DESC_LENGTH {
        Err(PollError::DescriptionTooLong)
    } else {
        Ok(())
    }
}

/// A link is optional; when present its length in bytes is bounded too.
pub fn validate_link(link: Option<&str>) -> (r: Result<(), PollError>)
    ensures
        match link {
            Some(l) => r == length_check(
                l.len() as nat,
                MIN_LINK_LENGTH as nat,
                MAX_LINK_LENGTH as nat,
                PollError::LinkTooShort,
                PollError::LinkTooLong,
            ),
            None => r == Ok::<(), PollError>(()),
        },
{
    match link {
        Some(l) => {
            let n = l.len();
            if n < MIN_LINK_LENGTH {
                Err(PollError::LinkTooShort)
            } else if n > MAX_LINK_LENGTH {
                Err(PollError::LinkTooLong)
            } else {
                Ok(())
            }
        },
        None => Ok(()),
    }
}

/// The parts of a poll that its rules read.
#[derive(Clone, Copy, Debug, PartialEq, Eq, Structural)]
pub struct PollState {
    pub status: PollStatus,
    pub yes_votes: u128,
    pub no_votes: u128,
    /// Last height at which votes are taken.
    pub end_height: u64,
    pub deposit_amount: u128,
    /// Whether the poll carries messages to execute (otherwise it is a text poll).
    pub has_execute_msgs: bool,
}

/// Casting `amount` on poll `poll_id` (one of `poll_count` polls) by a voter
/// with `balance` staked: the poll's new tally.
pub open spec fn vote_spec(
    poll: PollState,
    poll_id: u64,
    poll_count: u64,
    height: u64,
    already_voted: bool,
    balance: u128,
    vote: VoteOption,
    amount: u128,
) -> Result<PollState, PollError> {
    if poll_id == 0 || poll_count < poll_id {
        Err(PollError::PollNotFound)
    } else if poll.status != PollStatus::in_progress || height > poll.end_height {
        Err(PollError::NotInProgress)
    } else if already_voted {
        Err(PollError::AlreadyVoted)
    } else if balance < amount {
        Err(PollError::InsufficientStake)
    } else if vote == VoteOption::yes {
        if poll.yes_votes + amount <= u128::MAX {
            Ok(PollState { yes_votes: (poll.yes_votes + amount) as u128, ..poll })
        } else {
            Err(PollError::Arithmetic)
        }
    } else {
        if poll.no_votes + amount <= u128::MAX {
            Ok(PollState { no_votes: (poll.no_votes + amount) as u128, ..poll })
        } else {
            Err(PollError::Arithmetic)
        }
    }
}

pub fn cast_vote(
    poll: &PollState,
    poll_id: u64,
    poll_count: u64,
    height: u64,
    already_voted: bool,
    balance: u128,
    vote: VoteOption,
    amount: u128,
) -> (r: Result<PollState, PollError>)
    ensures
        r == vote_spec(*poll, poll_id, poll_count, height, already_voted, balance, vote, amount),
{
    if poll_id == 0 || poll_count < poll_id {
        return Err(PollError::PollNotFound);
    }
    if poll.status != PollStatus::in_progress || height > poll.end_height {
        return Err(PollError::NotInProgress);
    }
    if already_voted {
        return Err(PollError::AlreadyVoted);
    }
    if balance < amount {
        return Err(PollError::InsufficientStake);
    }
    match vote {
        VoteOption::yes => {
            if poll.yes_votes > u128::MAX - amount {
                return Err(PollError::Arithmetic);
            }
            Ok(PollState { yes_votes: poll.yes_votes + amount, ..*poll })
        },
        VoteOption::no => {
            if poll.no_votes > u128::MAX - amount {
                return Err(PollError::Arithmetic);
            }
            Ok(PollState { no_votes: poll.no_votes + amount, ..*poll })
        },
    }
}

/// How a poll ended.
#[derive(Clone, Copy, Debug, PartialEq, Eq, Structural)]
pub enum PollResult {
    Passed,
    /// Too few of the staked tokens took part in the vote.
    QuorumNotReached,
    /// Too few of the votes were in favour.
    ThresholdNotReached,
}

/// The end of a poll: its result, the part of the deposit returned to its
/// creator, and its final status and end height.
#[derive(Clone, Copy, Debug, PartialEq, Eq, Structural)]
pub struct PollEnd {
    pub result: PollResult,
    pub return_amount: u128,
    pub status: PollStatus,
    pub end_height: u64,
}

/// `num / den` as decimal atomics, where it fits.
pub open spec fn share_atomics(num: int, den: int) -> Option<int> {
    if ratio_fits(num, DECIMAL_FRACTIONAL as int, den) {
        Some(ratio_atomics(num, den))
    } else {
        None
    }
}

/// Ending a poll at `height`, with `staked` tokens staked in governance. Before
/// the end height it can end only once the yes or the no votes alone reach the
/// threshold share of the staked tokens. It passes with a participation of at
/// least `quorum` of the staked tokens and a yes share of at least `threshold` of
/// the votes. The deposit comes back whole when the poll passed or is a text
/// poll; otherwise in proportion to the yes votes, measured against the quorum
/// when participation fell short of it, and nothing without participation.
pub open spec fn end_spec(
    poll: PollState,
    staked: u128,
    quorum: Decimal,
    threshold: Decimal,
    height: u64,
) -> Result<PollEnd, PollError> {
    let yes = poll.yes_votes as int;
    let no = poll.no_votes as int;
    let all = yes + no;
    if poll.status != PollStatus::in_progress {
        Err(PollError::NotInProgress)
    } else if all > u128::MAX {
        Err(PollError::Arithmetic)
    } else {
        let participation = if staked == 0 {
            Some(0int)
        } else {
            share_atomics(all, staked as int)
        };
        match participation {
            None => Err(PollError::Arithmetic),
            Some(q) => {
                let early = poll.end_height > height && staked != 0;
                let yes_share = share_atomics(yes, staked as int);
                let no_share = share_atomics(no, staked as int);
                if early && yes_share is None {
                    Err(PollError::Arithmetic)
                } else if early && yes_share.unwrap() < threshold.atomics && no_share is None {
                    Err(PollError::Arithmetic)
                } else if early && yes_share.unwrap() < threshold.atomics && no_share.unwrap()
                    < threshold.atomics {
                    Err(PollError::VotingNotExpired)
                } else {
                    let result = if q == 0 || q < quorum.atomics {
                        PollResult::QuorumNotReached
                    } else if ratio_atomics(yes, all) < threshold.atomics {
                        PollResult::ThresholdNotReached
                    } else {
                        PollResult::Passed
                    };
                    let passed = result == PollResult::Passed;
                    let quorum_staked = scale(staked as int, quorum);
                    let refund = if poll.deposit_amount == 0 || passed || !poll.has_execute_msgs {
                        Some(poll.deposit_amount)
                    } else if q == 0 {
                        Some(0u128)
                    } else if q < quorum.atomics {
                        if quorum_staked <= u128::MAX && ratio_fits(
                            poll.deposit_amount as int,
                            yes,
                            quorum_staked,
                        ) {
                            Some(ratio(poll.deposit_amount as int, yes, quorum_staked) as u128)
                        } else {
                            None
                        }
                    } else {
                        if ratio_fits(poll.deposit_amount as int, yes, all) {
                            Some(ratio(poll.deposit_amount as int, yes, all) as u128)
                        } else {
                            None
                        }
                    };
                    match refund {
                        Some(a) => Ok(
                            PollEnd {
                                result,
                                return_amount: a,
                                status: if passed {
                                    PollStatus::passed
                                } else {
                                    PollStatus::rejected
                                },
                                end_height: if height < poll.end_height {
                                    height
                                } else {
                                    poll.end_height
                                },
                            },
                        ),
                        None => Err(PollError::Arithmetic),
                    }
                }
            },
        }
    }
}

fn share_of(num: u128, den: u128) -> (r: Option<u128>)
    ensures
        r.is_some() == share_atomics(num as int, den as int).is_some(),
        r.is_some() ==> r.unwrap() == share_atomics(num as int, den as int).unwrap(),
{
    checked_multiply_ratio(num, DECIMAL_FRACTIONAL, den)
}

/// Ends a poll; `staked` is the governance contract's token balance net of poll
/// deposits and vault balances.
pub fn end_poll(poll: &PollState, staked: u128, quorum: Decimal, threshold: Decimal, height: u64) -> (r:
    Result<PollEnd, PollError>)
    ensures
        r == end_spec(*poll, staked, quorum, threshold, height),
{
    if poll.status != PollStatus::in_progress {
        return Err(PollError::NotInProgress);
    }
    let yes = poll.yes_votes;
    let no = poll.no_votes;
    if yes > u128::MAX - no {
        return Err(PollError::Arithmetic);
    }
    let all = yes + no;
    let q = if staked == 0 {
        0
    } else {
        match share_of(all, staked) {
            Some(v) => v,
            None => return Err(PollError::Arithmetic),
        }
    };
    if poll.end_height > height && staked != 0 {
        let yes_share = match share_of(yes, staked) {
            Some(v) => v,
            None => return Err(PollError::Arithmetic),
        };
        if yes_share < threshold.atomics {
            let no_share = match share_of(no, staked) {
                Some(v) => v,
                None => return Err(PollError::Arithmetic),
            };
            if no_share < threshold.atomics {
                return Err(PollError::VotingNotExpired);
            }
        }
    }
    let result = if q == 0 || q < quorum.atomics {
        PollResult::QuorumNotReached
    } else {
        let yes_of_all = share_of(yes, all);
        proof {
            assert(yes * DECIMAL_FRACTIONAL / (all as int) <= DECIMAL_FRACTIONAL) by (
            nonlinear_arith)
                requires
                    yes <= all,
                    all > 0,
            ;
        }
        if yes_of_all.unwrap() < threshold.atomics {
            PollResult::ThresholdNotReached
        } else {
            PollResult::Passed
        }
    };
    let passed = match result {
        PollResult::Passed => true,
        _ => false,
    };
    let return_amount = if poll.deposit_amount == 0 || passed || !poll.has_execute_msgs {
        poll.deposit_amount
    } else if q == 0 {
        0
    } else if q < quorum.atomics {
        let quorum_staked = match quorum.checked_mul_amount(staked) {
            Some(v) => v,
            None => return Err(PollError::Arithmetic),
        };
        match checked_multiply_ratio(poll.deposit_amount, yes, quorum_staked) {
            Some(v) => v,
            None => return Err(PollError::Arithmetic),
        }
    } else {
        match checked_multiply_ratio(poll.deposit_amount, yes, all) {
            Some(v) => v,
            None => return Err(PollError::Arithmetic),
        }
    };
    Ok(
        PollEnd {
            result,
            return_amount,
            status: if passed {
                PollStatus::passed
            } else {
                PollStatus::rejected
            },
            end_height: if height < poll.end_height {
                height
            } else {
                poll.end_height
            },
        },
    )
}

/// A passed poll with messages runs once `effective_delay` blocks have passed
/// since its end.
pub open spec fn execute_spec(poll: PollState, effective_delay: u64, height: u64) -> Result<
    (),
    PollError,
> {
    if poll.status != PollStatus::passed {
        Err(PollError::NotPassed)
    } else if poll.end_height + effective_delay > u64::MAX {
        Err(PollError::Arithmetic)
    } else if poll.end_height + effective_delay > height {
        Err(PollError::EffectiveDelayNotExpired)
    } else if !poll.has_execute_msgs {
        Err(PollError::NoExecuteData)
    } else {
        Ok(())
    }
}

pub fn check_execute(poll: &PollState, effective_delay: u64, height: u64) -> (r: Result<
    (),
    PollError,
>)
    ensures
        r == execute_spec(*poll, effective_delay, height),
{
    if poll.status != PollStatus::passed {
        return Err(PollError::NotPassed);
    }
    if poll.end_height > u64::MAX - effective_delay {
        return Err(PollError::Arithmetic);
    }
    if poll.end_height + effective_delay > height {
        return Err(PollError::EffectiveDelayNotExpired);
    }
    if !poll.has_execute_msgs {
        return Err(PollError::NoExecuteData);
    }
    Ok(())
}

/// A passed poll with messages expires once `expiration_period` blocks have
/// passed since its end.
pub open spec fn expire_spec(poll: PollState, expiration_period: u64, height: u64) -> Result<
    (),
    PollError,
> {
    if poll.status != PollStatus::passed {
        Err(PollError::NotPassed)
    } else if !poll.has_execute_msgs {
        Err(PollError::TextProposal)
    } else if poll.end_height + expiration_period > u64::MAX {
        Err(PollError::Arithmetic)
    } else if poll.end_height + expiration_period > height {
        Err(PollError::ExpirationNotReached)
    } else {
        Ok(())
    }
}

pub fn check_expire(poll: &PollState, expiration_period: u64, height: u64) -> (r: Result<
    (),
    PollError,
>)
    ensures
        r == expire_spec(*poll, expiration_period, height),
{
    if poll.status != PollStatus::passed {
        return Err(PollError::NotPassed);
    }
    if !poll.has_execute_msgs {
        return Err(PollError::TextProposal);
    }
    if poll.end_height > u64::MAX - expiration_period {
        return Err(PollError::Arithmetic);
    }
    if poll.end_height + expiration_period > height {
        return Err(PollError::ExpirationNotReached);
    }
    Ok(())
}

} // verus!
