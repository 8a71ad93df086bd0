use spectrum_core::keys::{calc_range_start_addr, decode_reward_key, encode_length};
use spectrum_core::msg::{PollStatus, VoteOption};

#[test]
fn length_prefix_is_big_endian() {
    assert_eq!(encode_length(&[1, 2, 3]), [0, 3]);
    assert_eq!(encode_length(&[0u8; 300]), [1, 44]);
    assert_eq!(encode_length(&[]), [0, 0]);
}

#[test]
fn range_start_follows_the_owner() {
    assert_eq!(calc_range_start_addr(Some(vec![7, 8])), Some(vec![0, 2, 7, 8, 255, 255, 255, 255]));
    assert_eq!(calc_range_start_addr(None), None);
}

#[test]
fn reward_key_splits_into_owner_and_pool() {
    assert_eq!(decode_reward_key(&[0, 2, 7, 8, 9]), Some((vec![7, 8], vec![9])));
    assert_eq!(decode_reward_key(&[0, 2, 7, 8]), Some((vec![7, 8], vec![])));
    assert_eq!(decode_reward_key(&[0, 3, 7, 8]), None);
    assert_eq!(decode_reward_key(&[0]), None);
}

#[test]
fn message_names() {
    assert_eq!(VoteOption::yes.to_text(), "yes");
    assert_eq!(VoteOption::no.to_text(), "no");
    assert_eq!(PollStatus::in_progress.to_text(), "in_progress");
    assert_eq!(PollStatus::expired.to_text(), "expired");
}
