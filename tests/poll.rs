use spectrum_core::math::Decimal;
use spectrum_core::msg::{PollStatus, VoteOption};
use spectrum_core::poll::{
    cast_vote, check_execute, check_expire, end_poll, validate_description, validate_link,
    validate_title, PollError, PollResult, PollState,
};

fn poll(yes: u128, no: u128) -> PollState {
    PollState {
        status: PollStatus::in_progress,
        yes_votes: yes,
        no_votes: no,
        end_height: 100,
        deposit_amount: 1000,
        has_execute_msgs: true,
    }
}

fn end(p: &PollState, staked: u128, height: u64) -> Result<spectrum_core::poll::PollEnd, PollError> {
    end_poll(p, staked, Decimal::percent(10), Decimal::percent(50), height)
}

#[test]
fn poll_passes_after_its_end_height() {
    let e = end(&poll(600, 100), 1000, 101).unwrap();
    assert_eq!(e.result, PollResult::Passed);
    assert_eq!(e.status, PollStatus::passed);
    assert_eq!(e.return_amount, 1000);
    assert_eq!(e.end_height, 100);
}

#[test]
fn decisive_majority_ends_a_poll_early() {
    let e = end(&poll(600, 0), 1000, 50).unwrap();
    assert_eq!(e.result, PollResult::Passed);
    assert_eq!(e.end_height, 50);
}

#[test]
fn undecided_poll_cannot_end_early() {
    assert_eq!(end(&poll(300, 100), 1000, 50), Err(PollError::VotingNotExpired));
}

#[test]
fn low_participation_rejects_and_refunds_against_quorum() {
    let e = end(&poll(50, 0), 1000, 101).unwrap();
    assert_eq!(e.result, PollResult::QuorumNotReached);
    assert_eq!(e.status, PollStatus::rejected);
    assert_eq!(e.return_amount, 500);
}

#[test]
fn minority_yes_rejects_and_refunds_by_yes_share() {
    let e = end(&poll(200, 300), 1000, 101).unwrap();
    assert_eq!(e.result, PollResult::ThresholdNotReached);
    assert_eq!(e.return_amount, 400);
}

#[test]
fn rejected_text_poll_refunds_whole_deposit() {
    let mut p = poll(200, 300);
    p.has_execute_msgs = false;
    assert_eq!(end(&p, 1000, 101).unwrap().return_amount, 1000);
}

#[test]
fn poll_without_votes_refunds_nothing() {
    let e = end(&poll(0, 0), 1000, 101).unwrap();
    assert_eq!(e.result, PollResult::QuorumNotReached);
    assert_eq!(e.return_amount, 0);
}

#[test]
fn only_open_polls_end() {
    let mut p = poll(600, 100);
    p.status = PollStatus::passed;
    assert_eq!(end(&p, 1000, 101), Err(PollError::NotInProgress));
}

#[test]
fn votes_are_counted_by_option() {
    let p = poll(0, 0);
    let p = cast_vote(&p, 1, 1, 50, false, 20, VoteOption::yes, 10).unwrap();
    let p = cast_vote(&p, 1, 1, 50, false, 20, VoteOption::no, 7).unwrap();
    assert_eq!((p.yes_votes, p.no_votes), (10, 7));
}

#[test]
fn votes_are_refused_when_not_allowed() {
    let p = poll(0, 0);
    assert_eq!(cast_vote(&p, 0, 1, 50, false, 20, VoteOption::yes, 10), Err(PollError::PollNotFound));
    assert_eq!(cast_vote(&p, 2, 1, 50, false, 20, VoteOption::yes, 10), Err(PollError::PollNotFound));
    assert_eq!(cast_vote(&p, 1, 1, 101, false, 20, VoteOption::yes, 10), Err(PollError::NotInProgress));
    assert_eq!(cast_vote(&p, 1, 1, 50, true, 20, VoteOption::yes, 10), Err(PollError::AlreadyVoted));
    assert_eq!(
        cast_vote(&p, 1, 1, 50, false, 5, VoteOption::yes, 10),
        Err(PollError::InsufficientStake)
    );
}

#[test]
fn passed_poll_runs_after_the_delay() {
    let mut p = poll(600, 100);
    p.status = PollStatus::passed;
    assert_eq!(check_execute(&p, 10, 109), Err(PollError::EffectiveDelayNotExpired));
    assert_eq!(check_execute(&p, 10, 110), Ok(()));
    p.has_execute_msgs = false;
    assert_eq!(check_execute(&p, 10, 110), Err(PollError::NoExecuteData));
    p.status = PollStatus::rejected;
    assert_eq!(check_execute(&p, 10, 110), Err(PollError::NotPassed));
}

#[test]
fn passed_poll_expires_after_the_period() {
    let mut p = poll(600, 100);
    p.status = PollStatus::passed;
    assert_eq!(check_expire(&p, 50, 149), Err(PollError::ExpirationNotReached));
    assert_eq!(check_expire(&p, 50, 150), Ok(()));
    p.has_execute_msgs = false;
    assert_eq!(check_expire(&p, 50, 150), Err(PollError::TextProposal));
}

#[test]
fn poll_texts_are_bounded() {
    assert_eq!(validate_title("abc"), Err(PollError::TitleTooShort));
    assert_eq!(validate_title("abcd"), Ok(()));
    assert_eq!(validate_title(&"x".repeat(65)), Err(PollError::TitleTooLong));
    assert_eq!(validate_description("abc"), Err(PollError::DescriptionTooShort));
    assert_eq!(validate_description(&"x".repeat(257)), Err(PollError::DescriptionTooLong));
    assert_eq!(validate_link(None), Ok(()));
    assert_eq!(validate_link(Some("short")), Err(PollError::LinkTooShort));
    assert_eq!(validate_link(Some("https://spec.finance")), Ok(()));
    assert_eq!(validate_link(Some(&"x".repeat(129))), Err(PollError::LinkTooLong));
}
