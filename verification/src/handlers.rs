//! The four operations of the program. Each takes its accounts and the
//! current time, decides, and answers with a rejection or with what is to be
//! done: the slots as they are to be written back and, where tokens move, the
//! instruction for the token ledger. A rejection leaves every slot as it was.

use vstd::prelude::*;
use crate::accounts::{ClaimRewards, Initialize, StakeNFT, UnstakeNFT};
use crate::address::Address;
use crate::derive::{derive_authority, derived, id, program_id};
use crate::error::ErrorCode;
use crate::records::{StakedNFT, StakingData};
use crate::rules::{reward_amount, reward_outcome, unlock_time, unstaking_period_reached};
use crate::token::{
    pool_seed_bytes, pool_seeds, receipt_seed_bytes, receipt_seeds, Authorization, MintTo,
    Transfer,
};

verus! {

// ---------------------------------------------------------------------------
// Pool initialization
// ---------------------------------------------------------------------------

/// The signing identity of the pool of `authority`, as derived under this
/// program.
pub open spec fn pool_identity(authority: Address) -> Option<(Address, u8)> {
    derived(pool_seed_bytes(authority), program_id())
}

/// The custody identity of the receipt for this NFT and staker, as derived
/// under this program.
pub open spec fn receipt_identity(nft_mint_address: Address, staker: Address) -> Option<
    (Address, u8),
> {
    derived(receipt_seed_bytes(nft_mint_address, staker), program_id())
}

/// What initialization answers: a pool that exists is not written again, and
/// a pool needs a signing identity.
pub open spec fn initialize_outcome(ctx: Initialize, identity: Option<(Address, u8)>) -> Result<
    (),
    ErrorCode,
> {
    if ctx.staking_data is Some {
        Err(ErrorCode::AlreadyInitialized)
    } else if identity is None {
        Err(ErrorCode::ConstraintSeeds)
    } else {
        Ok(())
    }
}

/// The accounts after initialization: the slot holds the new pool where the
/// operation succeeds.
pub open spec fn initialized(
    ctx: Initialize,
    reward_rate: i64,
    unstaking_period: i64,
    identity: Option<(Address, u8)>,
) -> Initialize {
    if initialize_outcome(ctx, identity) is Ok {
        Initialize {
            staking_data: Some(
                StakingData {
                    authority: ctx.authority,
                    reward_mint_address: ctx.reward_mint_address,
                    reward_rate,
                    unstaking_period,
                    bump: (identity->0).1,
                },
            ),
            ..ctx
        }
    } else {
        ctx
    }
}

/// Initialization, given the signing identity that was derived for the
/// authority's pool.
pub fn initialize_with(
    ctx: &mut Initialize,
    reward_rate: i64,
    unstaking_period: i64,
    identity: Option<(Address, u8)>,
) -> (r: Result<(), ErrorCode>)
    ensures
        r == initialize_outcome(*old(ctx), identity),
        *final(ctx) == initialized(*old(ctx), reward_rate, unstaking_period, identity),
{
    if ctx.staking_data.is_some() {
        return Err(ErrorCode::AlreadyInitialized);
    }
    match identity {
        None => Err(ErrorCode::ConstraintSeeds),
        Some((_, bump)) => {
            ctx.staking_data = Some(
                StakingData {
                    authority: ctx.authority,
                    reward_mint_address: ctx.reward_mint_address,
                    reward_rate,
                    unstaking_period,
                    bump,
                },
            );
            Ok(())
        },
    }
}

/// Creates the pool of the calling authority. The rate and the period are
/// stored as given, whatever their sign.
pub fn initialize(ctx: &mut Initialize, reward_rate: i64, unstaking_period: i64) -> (r: Result<
    (),
    ErrorCode,
>)
    ensures
        r == initialize_outcome(*old(ctx), pool_identity(old(ctx).authority)),
        *final(ctx) == initialized(
            *old(ctx),
            reward_rate,
            unstaking_period,
            pool_identity(old(ctx).authority),
        ),
{
    let seeds = pool_seeds(&ctx.authority);
    let program = id();
    let identity = derive_authority(&seeds, &program);
    initialize_with(ctx, reward_rate, unstaking_period, identity)
}

// ---------------------------------------------------------------------------
// Stake
// ---------------------------------------------------------------------------

/// The receipt that a stake at `now` writes.
pub open spec fn receipt_of(ctx: StakeNFT, now: i64) -> StakedNFT {
    StakedNFT { nft_mint_address: ctx.nft_mint_address, staker: ctx.staker, staked_at: now }
}

/// The move of one NFT into custody, which the staker authorizes directly.
pub open spec fn custody_deposit(ctx: StakeNFT) -> Transfer {
    Transfer {
        from: ctx.nft_token_account,
        to: ctx.staked_nft_token_account,
        authority: ctx.staker,
        amount: 1,
        authorization: Authorization::Signer,
    }
}

/// What a stake answers: a second receipt for the same NFT and staker is
/// refused; else the NFT is to move into custody.
pub open spec fn stake_outcome(ctx: StakeNFT) -> Result<Transfer, ErrorCode> {
    if ctx.staked_nft is Some {
        Err(ErrorCode::ReceiptAlreadyExists)
    } else {
        Ok(custody_deposit(ctx))
    }
}

/// The accounts after a stake at `now`.
pub open spec fn staked(ctx: StakeNFT, now: i64) -> StakeNFT {
    if stake_outcome(ctx) is Ok {
        StakeNFT { staked_nft: Some(receipt_of(ctx, now)), ..ctx }
    } else {
        ctx
    }
}

/// Stakes an NFT at `now`: writes the receipt and answers with the transfer
/// that moves the NFT into custody. The mint that counts is the one among the
/// accounts; the argument is not read.
pub fn stake_nft(ctx: &mut StakeNFT, _nft_mint_address: Address, now: i64) -> (r: Result<
    Transfer,
    ErrorCode,
>)
    ensures
        r == stake_outcome(*old(ctx)),
        *final(ctx) == staked(*old(ctx), now),
{
    if ctx.staked_nft.is_some() {
        return Err(ErrorCode::ReceiptAlreadyExists);
    }
    ctx.staked_nft = Some(
        StakedNFT { nft_mint_address: ctx.nft_mint_address, staker: ctx.staker, staked_at: now },
    );
    Ok(
        Transfer {
            from: ctx.nft_token_account,
            to: ctx.staked_nft_token_account,
            authority: ctx.staker,
            amount: 1,
            authorization: Authorization::Signer,
        },
    )
}

// ---------------------------------------------------------------------------
// Unstake
// ---------------------------------------------------------------------------

/// Whether a receipt is the one of this NFT and this staker.
pub open spec fn receipt_matches(receipt: StakedNFT, nft_mint_address: Address, staker: Address) -> bool {
    receipt.nft_mint_address == nft_mint_address && receipt.staker == staker
}

/// The move of one NFT out of custody, which the program authorizes for the
/// receipt's custody identity with the pool's stored bump.
pub open spec fn custody_release(ctx: UnstakeNFT, custodian: Address) -> Transfer {
    Transfer {
        from: ctx.staked_nft_token_account,
        to: ctx.nft_token_account,
        authority: custodian,
        amount: 1,
        authorization: Authorization::Receipt {
            nft_mint_address: ctx.nft_mint_address,
            staker: ctx.staker,
            bump: ctx.staking_data.bump,
        },
    }
}

/// What an unstake at `now` answers, given the custody identity that was
/// derived for the receipt.
pub open spec fn unstake_outcome(ctx: UnstakeNFT, now: i64, identity: Option<(Address, u8)>) -> Result<
    Transfer,
    ErrorCode,
> {
    match ctx.staked_nft {
        None => Err(ErrorCode::AccountNotInitialized),
        Some(receipt) => {
            if !receipt_matches(receipt, ctx.nft_mint_address, ctx.staker) {
                Err(ErrorCode::ConstraintHasOne)
            } else if identity is None {
                Err(ErrorCode::ConstraintSeeds)
            } else if now < unlock_time(receipt.staked_at, ctx.staking_data.unstaking_period) {
                Err(ErrorCode::UnstakingPeriodNotReached)
            } else {
                Ok(custody_release(ctx, (identity->0).0))
            }
        },
    }
}

/// The accounts after an unstake at `now`: the receipt is closed where the
/// operation succeeds.
pub open spec fn unstaked(ctx: UnstakeNFT, now: i64, identity: Option<(Address, u8)>) -> UnstakeNFT {
    if unstake_outcome(ctx, now, identity) is Ok {
        UnstakeNFT { staked_nft: None, ..ctx }
    } else {
        ctx
    }
}

/// Whether a receipt is the one of this NFT and this staker.
fn check_receipt(receipt: &StakedNFT, nft_mint_address: &Address, staker: &Address) -> (r: bool)
    ensures
        r == receipt_matches(*receipt, *nft_mint_address, *staker),
{
    receipt.nft_mint_address.same(nft_mint_address) && receipt.staker.same(staker)
}

/// An unstake at `now`, given the custody identity that was derived for the
/// receipt.
pub fn unstake_nft_with(ctx: &mut UnstakeNFT, now: i64, identity: Option<(Address, u8)>) -> (r:
    Result<Transfer, ErrorCode>)
    ensures
        r == unstake_outcome(*old(ctx), now, identity),
        *final(ctx) == unstaked(*old(ctx), now, identity),
{
    let receipt = match ctx.staked_nft {
        None => {
            return Err(ErrorCode::AccountNotInitialized);
        },
        Some(receipt) => receipt,
    };
    if !check_receipt(&receipt, &ctx.nft_mint_address, &ctx.staker) {
        return Err(ErrorCode::ConstraintHasOne);
    }
    let custodian = match identity {
        None => {
            return Err(ErrorCode::ConstraintSeeds);
        },
        Some((address, _)) => address,
    };
    if !unstaking_period_reached(receipt.staked_at, ctx.staking_data.unstaking_period, now) {
        return Err(ErrorCode::UnstakingPeriodNotReached);
    }
    let release = Transfer {
        from: ctx.staked_nft_token_account,
        to: ctx.nft_token_account,
        authority: custodian,
        amount: 1,
        authorization: Authorization::Receipt {
            nft_mint_address: ctx.nft_mint_address,
            staker: ctx.staker,
            bump: ctx.staking_data.bump,
        },
    };
    ctx.staked_nft = None;
    Ok(release)
}

/// Unstakes an NFT at `now`: once the cooldown has elapsed, closes the
/// receipt and answers with the transfer that returns the NFT. The mint that
/// counts is the one among the accounts; the argument is not read.
pub fn unstake_nft(ctx: &mut UnstakeNFT, _nft_mint_address: Address, now: i64) -> (r: Result<
    Transfer,
    ErrorCode,
>)
    ensures
        r == unstake_outcome(
            *old(ctx),
            now,
            receipt_identity(old(ctx).nft_mint_address, old(ctx).staker),
        ),
        *final(ctx) == unstaked(
            *old(ctx),
            now,
            receipt_identity(old(ctx).nft_mint_address, old(ctx).staker),
        ),
{
    let seeds = receipt_seeds(&ctx.nft_mint_address, &ctx.staker);
    let program = id();
    let identity = derive_authority(&seeds, &program);
    unstake_nft_with(ctx, now, identity)
}

// ---------------------------------------------------------------------------
// Claim
// ---------------------------------------------------------------------------

/// The mint of a reward, which the program authorizes for the pool's identity
/// with the pool's stored bump.
pub open spec fn reward_mint(ctx: ClaimRewards, minter: Address, amount: u64) -> MintTo {
    MintTo {
        mint: ctx.reward_mint_address,
        to: ctx.reward_token_account,
        authority: minter,
        amount,
        authorization: Authorization::Pool {
            authority: ctx.staking_data.authority,
            bump: ctx.staking_data.bump,
        },
    }
}

/// What a claim at `now` answers, given the signing identity that was derived
/// for the pool.
pub open spec fn claim_outcome(ctx: ClaimRewards, now: i64, identity: Option<(Address, u8)>) -> Result<
    MintTo,
    ErrorCode,
> {
    match ctx.staked_nft {
        None => Err(ErrorCode::AccountNotInitialized),
        Some(receipt) => {
            if !receipt_matches(receipt, ctx.nft_mint_address, ctx.staker) {
                Err(ErrorCode::ConstraintHasOne)
            } else if identity is None || (identity->0).1 != ctx.staking_data.bump {
                Err(ErrorCode::ConstraintSeeds)
            } else {
                match reward_outcome(receipt.staked_at, ctx.staking_data.reward_rate, now) {
                    Err(e) => Err(e),
                    Ok(amount) => Ok(reward_mint(ctx, (identity->0).0, amount)),
                }
            }
        },
    }
}

/// A claim at `now`, given the signing identity that was derived for the
/// pool.
pub fn claim_rewards_with(ctx: &ClaimRewards, now: i64, identity: Option<(Address, u8)>) -> (r:
    Result<MintTo, ErrorCode>)
    ensures
        r == claim_outcome(*ctx, now, identity),
{
    let receipt = match ctx.staked_nft {
        None => {
            return Err(ErrorCode::AccountNotInitialized);
        },
        Some(receipt) => receipt,
    };
    if !check_receipt(&receipt, &ctx.nft_mint_address, &ctx.staker) {
        return Err(ErrorCode::ConstraintHasOne);
    }
    let minter = match identity {
        None => {
            return Err(ErrorCode::ConstraintSeeds);
        },
        Some((address, bump)) => {
            if bump != ctx.staking_data.bump {
                return Err(ErrorCode::ConstraintSeeds);
            }
            address
        },
    };
    match reward_amount(receipt.staked_at, ctx.staking_data.reward_rate, now) {
        Err(e) => Err(e),
        Ok(amount) => Ok(
            MintTo {
                mint: ctx.reward_mint_address,
                to: ctx.reward_token_account,
                authority: minter,
                amount,
                authorization: Authorization::Pool {
                    authority: ctx.staking_data.authority,
                    bump: ctx.staking_data.bump,
                },
            },
        ),
    }
}

/// Claims the reward at `now`: answers with the mint of everything earned
/// since the stake. The receipt stays as it is, so a later claim counts from
/// the stake again.
pub fn claim_rewards(ctx: &ClaimRewards, now: i64) -> (r: Result<MintTo, ErrorCode>)
    ensures
        r == claim_outcome(*ctx, now, pool_identity(ctx.staking_data.authority)),
{
    let seeds = pool_seeds(&ctx.staking_data.authority);
    let program = id();
    let identity = derive_authority(&seeds, &program);
    claim_rewards_with(ctx, now, identity)
}

} // verus!
