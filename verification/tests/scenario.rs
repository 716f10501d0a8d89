use basic_staking::derive::id;
use basic_staking::token::pool_seeds;
use basic_staking::{
    claim_rewards, initialize, stake_nft, unstake_nft, Address, Authorization, ClaimRewards,
    ErrorCode, Initialize, StakeNFT, StakedNFT, StakingData, UnstakeNFT,
};

fn key(tag: u8) -> Address {
    Address::new([tag; 32])
}

fn pool_of(authority: Address, reward_rate: i64, unstaking_period: i64) -> StakingData {
    let mut ctx = Initialize { staking_data: None, reward_mint_address: key(8), authority };
    initialize(&mut ctx, reward_rate, unstaking_period).unwrap();
    ctx.staking_data.unwrap()
}

#[test]
fn cooldown_boundary_of_one_day() {
    let mut stake = StakeNFT {
        staker: key(1),
        nft_mint_address: key(2),
        nft_token_account: key(3),
        staked_nft: None,
        staked_nft_token_account: key(4),
    };
    stake_nft(&mut stake, key(2), 0).unwrap();
    let pool = pool_of(key(9), 10, 86400);
    let mut ctx = UnstakeNFT {
        staker: key(1),
        nft_mint_address: key(2),
        nft_token_account: key(3),
        staked_nft: stake.staked_nft,
        staking_data: pool,
        staked_nft_token_account: key(4),
    };
    assert_eq!(unstake_nft(&mut ctx, key(2), 86399), Err(ErrorCode::UnstakingPeriodNotReached));
    assert_eq!(ctx.staked_nft, stake.staked_nft);
    let release = unstake_nft(&mut ctx, key(2), 86400).unwrap();
    assert_eq!(release.amount, 1);
    assert_eq!(release.from, key(4));
    assert_eq!(release.to, key(3));
    assert_eq!(ctx.staked_nft, None);
}

#[test]
fn claim_at_one_hundred_seconds_mints_one_thousand() {
    let pool = pool_of(key(9), 10, 86400);
    let ctx = ClaimRewards {
        staker: key(1),
        nft_mint_address: key(2),
        staked_nft: Some(StakedNFT { nft_mint_address: key(2), staker: key(1), staked_at: 0 }),
        staking_data: pool,
        reward_token_account: key(5),
        reward_mint_address: key(8),
    };
    let mint = claim_rewards(&ctx, 100).unwrap();
    assert_eq!(mint.amount, 1000);
    assert_eq!(mint.mint, key(8));
    assert_eq!(mint.to, key(5));
    assert_eq!(mint.authorization, Authorization::Pool { authority: key(9), bump: pool.bump });
    let mut seeds = pool_seeds(&key(9));
    seeds.push(vec![pool.bump]);
    assert_eq!(mint.authorization.seeds(), seeds);
    assert_ne!(mint.authority, id());
}

#[test]
fn unstake_long_after_the_boundary_succeeds() {
    let pool = pool_of(key(9), 10, 86400);
    let mut ctx = UnstakeNFT {
        staker: key(1),
        nft_mint_address: key(2),
        nft_token_account: key(3),
        staked_nft: Some(StakedNFT { nft_mint_address: key(2), staker: key(1), staked_at: 0 }),
        staking_data: pool,
        staked_nft_token_account: key(4),
    };
    assert!(unstake_nft(&mut ctx, key(2), i64::MAX).is_ok());
}
