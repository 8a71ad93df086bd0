use spectrum_core::proxy::{proxy_stake, proxy_unstake, ProxyError, ProxyState, Unstake};

#[test]
fn first_deposit_gets_shares_one_to_one() {
    let mut s = ProxyState { total_share: 0 };
    assert_eq!(proxy_stake(&mut s, 0, 0, 100), Ok(100));
    assert_eq!(s.total_share, 100);
}

#[test]
fn later_deposit_gets_shares_at_the_current_rate() {
    let mut s = ProxyState { total_share: 100 };
    assert_eq!(proxy_stake(&mut s, 0, 150, 30), Ok(20));
    assert_eq!(s.total_share, 120);
}

#[test]
fn empty_deposit_is_refused() {
    let mut s = ProxyState { total_share: 100 };
    assert_eq!(proxy_stake(&mut s, 0, 150, 0), Err(ProxyError::ZeroAmount));
    assert_eq!(s.total_share, 100);
}

#[test]
fn withdrawal_rounds_shares_up() {
    let mut s = ProxyState { total_share: 120 };
    let (account, u) = proxy_unstake(&mut s, 20, 180, Some(10), 4, 50, 100).unwrap();
    assert_eq!(u, Unstake { amount: 10, withdraw_share: 7, redeem_share: 3 });
    assert_eq!(account, 13);
    assert_eq!(s.total_share, 113);
}

#[test]
fn withdrawal_of_everything_takes_all_shares() {
    let mut s = ProxyState { total_share: 120 };
    let (account, u) = proxy_unstake(&mut s, 20, 180, None, 100, 50, 100).unwrap();
    assert_eq!(u.amount, 30);
    assert_eq!(u.withdraw_share, 20);
    assert_eq!(u.redeem_share, 0);
    assert_eq!(account, 0);
}

#[test]
fn withdrawal_above_balance_is_refused() {
    let mut s = ProxyState { total_share: 120 };
    assert_eq!(proxy_unstake(&mut s, 20, 180, Some(31), 0, 50, 100), Err(ProxyError::ExceedsBalance));
    assert_eq!(s.total_share, 120);
}
