//! The two rules of time: when an NFT may leave custody, and how much reward
//! a stake has earned.

use vstd::prelude::*;
use crate::error::ErrorCode;

verus! {

/// The first second at which an NFT staked at `staked_at` may be unstaked.
pub open spec fn unlock_time(staked_at: i64, unstaking_period: i64) -> int {
    staked_at + unstaking_period
}

/// The reward earned from `staked_at` to `now`: the seconds elapsed times the
/// rate. It counts from the stake, whatever was claimed before.
pub open spec fn reward(staked_at: i64, reward_rate: i64, now: i64) -> int {
    (now - staked_at) * reward_rate
}

/// Whether the cooldown has elapsed at `now`.
pub fn unstaking_period_reached(staked_at: i64, unstaking_period: i64, now: i64) -> (r: bool)
    ensures
        r == (now >= unlock_time(staked_at, unstaking_period)),
{
    let unlock: i128 = staked_at as i128 + unstaking_period as i128;
    now as i128 >= unlock
}

/// The product of two integers is bounded by the product of their bounds.
proof fn lemma_product_bound(a: int, b: int, m: int, n: int)
    requires
        -m <= a <= m,
        -n <= b <= n,
    ensures
        -(m * n) <= a * b <= m * n,
{
    assert(-(m * n) <= a * b <= m * n) by (nonlinear_arith)
        requires
            -m <= a <= m,
            -n <= b <= n,
    ;
}

/// The amount to mint for a claim at `now`: the reward, where it is a mint
/// amount; a rejection where it is below zero or too large.
pub fn reward_amount(staked_at: i64, reward_rate: i64, now: i64) -> (r: Result<u64, ErrorCode>)
    ensures
        r == reward_outcome(staked_at, reward_rate, now),
{
    let elapsed: i128 = now as i128 - staked_at as i128;
    proof {
        lemma_product_bound(
            elapsed as int,
            reward_rate as int,
            0xFFFF_FFFF_FFFF_FFFF,
            0x8000_0000_0000_0000,
        );
        assert(0xFFFF_FFFF_FFFF_FFFFint * 0x8000_0000_0000_0000int
            == 0x7FFF_FFFF_FFFF_FFFF_8000_0000_0000_0000int) by (nonlinear_arith);
    }
    let amount: i128 = elapsed * (reward_rate as i128);
    if amount < 0 {
        Err(ErrorCode::NegativeReward)
    } else if amount > u64::MAX as i128 {
        Err(ErrorCode::RewardOverflow)
    } else {
        Ok(amount as u64)
    }
}

/// What a claim at `now` is answered with, as far as the amount goes.
pub open spec fn reward_outcome(staked_at: i64, reward_rate: i64, now: i64) -> Result<
    u64,
    ErrorCode,
> {
    let amount = reward(staked_at, reward_rate, now);
    if amount < 0 {
        Err(ErrorCode::NegativeReward)
    } else if amount > u64::MAX {
        Err(ErrorCode::RewardOverflow)
    } else {
        Ok(amount as u64)
    }
}

} // verus!
