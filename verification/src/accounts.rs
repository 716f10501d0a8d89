//! What each operation is given: the identities that take part, and the
//! records, loaded from the slots that the operation may read or write.

use vstd::prelude::*;
use crate::address::Address;
use crate::records::{StakedNFT, StakingData};

verus! {

/// The accounts of pool initialization.
#[derive(Clone, Copy, Debug, PartialEq, Eq)]
pub struct Initialize {
    /// The slot of the authority's pool: empty before, filled after.
    pub staking_data: Option<StakingData>,
    /// The mint of the reward token.
    pub reward_mint_address: Address,
    /// The signer who creates the pool.
    pub authority: Address,
}

/// The accounts of a stake.
#[derive(Clone, Copy, Debug, PartialEq, Eq)]
pub struct StakeNFT {
    /// The signer who stakes.
    pub staker: Address,
    /// The mint of the NFT.
    pub nft_mint_address: Address,
    /// The staker's token account that holds the NFT.
    pub nft_token_account: Address,
    /// The slot of the receipt for this NFT and staker: empty before, filled
    /// after.
    pub staked_nft: Option<StakedNFT>,
    /// The custody token account that takes the NFT.
    pub staked_nft_token_account: Address,
}

/// The accounts of an unstake.
#[derive(Clone, Copy, Debug, PartialEq, Eq)]
pub struct UnstakeNFT {
    /// The signer who unstakes.
    pub staker: Address,
    /// The mint of the NFT.
    pub nft_mint_address: Address,
    /// The staker's token account that takes the NFT back.
    pub nft_token_account: Address,
    /// The slot of the receipt: filled before, empty after.
    pub staked_nft: Option<StakedNFT>,
    /// The pool that governs the stake.
    pub staking_data: StakingData,
    /// The custody token account that holds the NFT.
    pub staked_nft_token_account: Address,
}

/// The accounts of a claim.
#[derive(Clone, Copy, Debug, PartialEq, Eq)]
pub struct ClaimRewards {
    /// The signer who claims.
    pub staker: Address,
    /// The mint of the NFT.
    pub nft_mint_address: Address,
    /// The slot of the receipt; a claim leaves it as it is.
    pub staked_nft: Option<StakedNFT>,
    /// The pool that governs the stake.
    pub staking_data: StakingData,
    /// The staker's token account that takes the reward.
    pub reward_token_account: Address,
    /// The mint of the reward token.
    pub reward_mint_address: Address,
}

} // verus!
