//! Share ledger of a governance staking proxy: depositors hold shares of the
//! tokens the proxy keeps staked in a governance contract. Deposits round shares
//! down and withdrawals round them up, so rounding always favours the proxy.

use crate::ledger::{fit, ratio_opt};
use crate::math::{checked_multiply_ratio, ratio, ratio_fits};
use vstd::prelude::*;

verus! {

#[derive(Clone, Copy, Debug, PartialEq, Eq, Structural)]
pub struct ProxyState {
    /// Shares issued to all depositors.
    pub total_share: u128,
}

#[derive(Clone, Copy, Debug, PartialEq, Eq, Structural)]
pub enum ProxyError {
    /// A deposit of nothing.
    ZeroAmount,
    /// A withdrawal above the depositor's balance.
    ExceedsBalance,
    /// An overflow, underflow or division by zero.
    Arithmetic,
}

/// Shares worth `amount` tokens when the proxy holds `total_balance`; one to one
/// while either side is empty.
pub open spec fn proxy_share_of(total_share: int, total_balance: int, amount: int) -> Option<u128> {
    if total_share == 0 || total_balance == 0 {
        fit(amount)
    } else {
        ratio_opt(amount, total_share, total_balance)
    }
}

/// Tokens that `share` shares are worth, rounded down.
pub open spec fn proxy_balance_of(total_share: int, total_balance: int, share: int) -> Option<u128> {
    if total_share == 0 {
        Some(0u128)
    } else {
        ratio_opt(share, total_balance, total_share)
    }
}

impl ProxyState {
    pub fn calc_share(&self, total_balance: u128, amount: u128) -> (r: Option<u128>)
        ensures
            r == proxy_share_of(self.total_share as int, total_balance as int, amount as int),
    {
        if self.total_share == 0 || total_balance == 0 {
            Some(amount)
        } else {
            checked_multiply_ratio(amount, self.total_share, total_balance)
        }
    }

    pub fn calc_balance(&self, total_balance: u128, share: u128) -> (r: Option<u128>)
        ensures
            r == proxy_balance_of(self.total_share as int, total_balance as int, share as int),
    {
        if self.total_share == 0 {
            Some(0)
        } else {
            checked_multiply_ratio(share, total_balance, self.total_share)
        }
    }
}

/// A deposit of `amount` tokens: the depositor's and the proxy's share counts
/// grow by the shares it is worth.
pub open spec fn proxy_stake_spec(
    state: ProxyState,
    account_share: int,
    total_balance: int,
    amount: int,
) -> Result<(ProxyState, u128), ProxyError> {
    if amount == 0 {
        Err(ProxyError::ZeroAmount)
    } else {
        match proxy_share_of(state.total_share as int, total_balance, amount) {
            Some(share) => if account_share + share <= u128::MAX && state.total_share + share
                <= u128::MAX {
                Ok(
                    (
                        ProxyState { total_share: (state.total_share + share) as u128 },
                        (account_share + share) as u128,
                    ),
                )
            } else {
                Err(ProxyError::Arithmetic)
            },
            None => Err(ProxyError::Arithmetic),
        }
    }
}

/// Deposits `amount` tokens for a depositor holding `account_share` shares, the
/// proxy holding `total_balance` staked tokens; returns the depositor's new share
/// count. On failure nothing changes.
pub fn proxy_stake(state: &mut ProxyState, account_share: u128, total_balance: u128, amount: u128) -> (res:
    Result<u128, ProxyError>)
    ensures
        match proxy_stake_spec(*old(state), account_share as int, total_balance as int, amount as int) {
            Ok((s, a)) => res == Ok::<u128, ProxyError>(a) && *final(state) == s,
            Err(e) => res == Err::<u128, ProxyError>(e) && *final(state) == *old(state),
        },
{
    if amount == 0 {
        return Err(ProxyError::ZeroAmount);
    }
    let share = match state.calc_share(total_balance, amount) {
        Some(v) => v,
        None => return Err(ProxyError::Arithmetic),
    };
    if account_share > u128::MAX - share || state.total_share > u128::MAX - share {
        return Err(ProxyError::Arithmetic);
    }
    state.total_share = state.total_share + share;
    Ok(account_share + share)
}

/// `floor(a · num / den)`, plus one where that product rounded back falls short
/// of `a`: the smallest count whose worth covers `a`, up to rounding.
pub open spec fn round_up_ratio(a: int, num: int, den: int) -> Option<u128> {
    if ratio_fits(a, num, den) && ratio_fits(ratio(a, num, den), den, num) {
        let q = ratio(a, num, den);
        let back = ratio(q, den, num);
        if back < a {
            fit(q + 1)
        } else {
            Some(q as u128)
        }
    } else {
        None
    }
}

/// What a withdrawal takes and needs: the tokens paid, the shares given up, and
/// the staked governance shares to redeem for the tokens the proxy does not hold.
#[derive(Clone, Copy, Debug, PartialEq, Eq, Structural)]
pub struct Unstake {
    pub amount: u128,
    pub withdraw_share: u128,
    pub redeem_share: u128,
}

/// A withdrawal of `amount` tokens (the whole balance when `None`): refused above
/// the depositor's balance; the shares given up are rounded up; so are the
/// governance shares to redeem for what the proxy's `held` tokens do not cover,
/// at the governance contract's `gov_total_balance / gov_total_share`.
pub open spec fn proxy_unstake_spec(
    state: ProxyState,
    account_share: int,
    total_balance: int,
    amount: Option<u128>,
    held: int,
    gov_total_share: int,
    gov_total_balance: int,
) -> Result<(ProxyState, u128, Unstake), ProxyError> {
    match proxy_balance_of(state.total_share as int, total_balance, account_share) {
        None => Err(ProxyError::Arithmetic),
        Some(user_balance) => {
            let amount = match amount {
                Some(a) => a,
                None => user_balance,
            };
            let needed = if amount > held {
                amount - held
            } else {
                0
            };
            if amount > user_balance {
                Err(ProxyError::ExceedsBalance)
            } else {
                let withdraw = if state.total_share == 0 || total_balance == 0 {
                    fit(amount as int)
                } else {
                    round_up_ratio(amount as int, state.total_share as int, total_balance)
                };
                match (withdraw, round_up_ratio(needed, gov_total_share, gov_total_balance)) {
                    (Some(w), Some(redeem)) => if w <= account_share && w <= state.total_share {
                        Ok(
                            (
                                ProxyState { total_share: (state.total_share - w) as u128 },
                                (account_share - w) as u128,
                                Unstake { amount, withdraw_share: w, redeem_share: redeem },
                            ),
                        )
                    } else {
                        Err(ProxyError::Arithmetic)
                    },
                    _ => Err(ProxyError::Arithmetic),
                }
            }
        },
    }
}

fn round_up(a: u128, num: u128, den: u128) -> (r: Option<u128>)
    ensures
        r == round_up_ratio(a as int, num as int, den as int),
{
    let q = match checked_multiply_ratio(a, num, den) {
        Some(v) => v,
        None => return None,
    };
    let back = match checked_multiply_ratio(q, den, num) {
        Some(v) => v,
        None => return None,
    };
    if back < a {
        if q == u128::MAX {
            None
        } else {
            Some(q + 1)
        }
    } else {
        Some(q)
    }
}

/// Withdraws for a depositor holding `account_share` shares; returns the
/// depositor's new share count and what the withdrawal takes and needs. On
/// failure nothing changes.
pub fn proxy_unstake(
    state: &mut ProxyState,
    account_share: u128,
    total_balance: u128,
    amount: Option<u128>,
    held: u128,
    gov_total_share: u128,
    gov_total_balance: u128,
) -> (res: Result<(u128, Unstake), ProxyError>)
    ensures
        match proxy_unstake_spec(
            *old(state),
            account_share as int,
            total_balance as int,
            amount,
            held as int,
            gov_total_share as int,
            gov_total_balance as int,
        ) {
            Ok((s, a, u)) => res == Ok::<(u128, Unstake), ProxyError>((a, u)) && *final(state) == s,
            Err(e) => res == Err::<(u128, Unstake), ProxyError>(e) && *final(state) == *old(state),
        },
{
    let user_balance = match state.calc_balance(total_balance, account_share) {
        Some(v) => v,
        None => return Err(ProxyError::Arithmetic),
    };
    let amount = match amount {
        Some(a) => a,
        None => user_balance,
    };
    if amount > user_balance {
        return Err(ProxyError::ExceedsBalance);
    }
    let withdraw = if state.total_share == 0 || total_balance == 0 {
        Some(amount)
    } else {
        round_up(amount, state.total_share, total_balance)
    };
    let needed = if amount > held {
        amount - held
    } else {
        0
    };
    match (withdraw, round_up(needed, gov_total_share, gov_total_balance)) {
        (Some(w), Some(redeem)) => {
            if w > account_share || w > state.total_share {
                return Err(ProxyError::Arithmetic);
            }
            state.total_share = state.total_share - w;
            Ok((account_share - w, Unstake { amount, withdraw_share: w, redeem_share: redeem }))
        },
        _ => Err(ProxyError::Arithmetic),
    }
}

/// Rounding up covers the amount: the shares (or governance shares) taken are
/// worth at least what they pay for.
pub proof fn lemma_round_up_covers(a: int, num: int, den: int)
    requires
        a >= 0,
        num > 0,
        den > 0,
        round_up_ratio(a, num, den) is Some,
    ensures
        ratio(round_up_ratio(a, num, den).unwrap() as int, den, num) >= a,
{
    let q = ratio(a, num, den);
    let r = round_up_ratio(a, num, den).unwrap() as int;
    if ratio(q, den, num) < a {
        assert(r == q + 1);
        vstd::arithmetic::div_mod::lemma_fundamental_div_mod(a * num, den);
        assert((q + 1) * den > a * num) by (nonlinear_arith)
            requires
                q == (a * num) / den,
                a * num == den * ((a * num) / den) + (a * num) % den,
                0 <= (a * num) % den < den,
                den > 0,
        ;
        vstd::arithmetic::div_mod::lemma_fundamental_div_mod((q + 1) * den, num);
        assert(((q + 1) * den) / num >= a) by (nonlinear_arith)
            requires
                (q + 1) * den > a * num,
                (q + 1) * den == num * (((q + 1) * den) / num) + ((q + 1) * den) % num,
                0 <= ((q + 1) * den) % num < num,
                num > 0,
        ;
    }
}

} // verus!
