//! The two records that the program keeps: the pool configuration and the
//! staking receipt.

use vstd::prelude::*;
use crate::address::{address_of, lemma_address_by_bytes, zero_address, Address};
use crate::derive::{id, program_id};
use crate::error::ErrorCode;
use crate::layout::{
    i64_bytes, i64_of, lemma_i64_round_trip, read_address, read_i64, write_address, write_i64,
};

verus! {

/// The configuration of a staking pool. There is one per authority, and it
/// does not change once it is written.
#[derive(Clone, Copy, Debug, PartialEq, Eq)]
pub struct StakingData {
    /// Who created the pool; the root of the pool's signing identity.
    pub authority: Address,
    /// The mint of the reward token.
    pub reward_mint_address: Address,
    /// Reward units per second per staked NFT.
    pub reward_rate: i64,
    /// Seconds that must pass between stake and unstake.
    pub unstaking_period: i64,
    /// The bump that makes the pool's signing identity derivable.
    pub bump: u8,
}

/// The receipt of one staked NFT: who staked what, and when.
#[derive(Clone, Copy, Debug, PartialEq, Eq)]
pub struct StakedNFT {
    /// The mint of the staked NFT.
    pub nft_mint_address: Address,
    /// The owner who staked it.
    pub staker: Address,
    /// Seconds since the epoch at which it was staked.
    pub staked_at: i64,
}

/// Bytes of the discriminator that a stored record begins with.
pub const DISCRIMINATOR_LEN: usize = 8;

/// Bytes that the fields of a pool take when stored.
pub const STAKING_DATA_LEN: usize = 81;

/// Bytes that the fields of a receipt take when stored.
pub const STAKED_NFT_LEN: usize = 72;

/// Bytes reserved for a stored pool: the discriminator and the fields,
/// rounded up to a multiple of eight.
pub const STAKING_DATA_SPACE: usize = 8 + 88;

/// Bytes reserved for a stored receipt: the discriminator and the fields.
pub const STAKED_NFT_SPACE: usize = 8 + 72;

impl Default for StakingData {
    /// The pool of the zero authority, with rate, period and bump zero.
    fn default() -> (r: StakingData)
        ensures
            r.authority == zero_address(),
            r.reward_mint_address == zero_address(),
            r.reward_rate == 0,
            r.unstaking_period == 0,
            r.bump == 0,
    {
        StakingData {
            authority: Address::default(),
            reward_mint_address: Address::default(),
            reward_rate: 0,
            unstaking_period: 0,
            bump: 0,
        }
    }
}

impl Default for StakedNFT {
    /// The receipt of the zero NFT and staker, staked at time zero.
    fn default() -> (r: StakedNFT)
        ensures
            r.nft_mint_address == zero_address(),
            r.staker == zero_address(),
            r.staked_at == 0,
    {
        StakedNFT {
            nft_mint_address: Address::default(),
            staker: Address::default(),
            staked_at: 0,
        }
    }
}

impl StakingData {
    /// The stored fields: the authority, the reward mint, the rate, the
    /// period and the bump, in this order.
    pub open spec fn layout(self) -> Seq<u8> {
        self.authority@ + self.reward_mint_address@ + i64_bytes(self.reward_rate) + i64_bytes(
            self.unstaking_period,
        ) + seq![self.bump]
    }

    /// The pool that a stored record holds, if the record is long enough:
    /// eight bytes of discriminator, then the fields. The discriminator and
    /// the bytes beyond the fields are not read, and every value of a field
    /// is accepted.
    pub open spec fn parsed(bytes: Seq<u8>) -> Option<StakingData> {
        if bytes.len() >= 8 + 81 {
            Some(
                StakingData {
                    authority: address_of(bytes.subrange(8, 40)),
                    reward_mint_address: address_of(bytes.subrange(40, 72)),
                    reward_rate: i64_of(bytes.subrange(72, 80)),
                    unstaking_period: i64_of(bytes.subrange(80, 88)),
                    bump: bytes[88],
                },
            )
        } else {
            None
        }
    }

    /// What is parsed from a record made of any discriminator, the stored
    /// fields and anything behind them is what was stored.
    pub proof fn lemma_round_trip(self, discriminator: Seq<u8>, rest: Seq<u8>)
        requires
            discriminator.len() == 8,
        ensures
            self.layout().len() == 81,
            StakingData::parsed(discriminator + self.layout() + rest) == Some(self),
    {
        let bytes = discriminator + self.layout() + rest;
        lemma_i64_round_trip(self.reward_rate);
        lemma_i64_round_trip(self.unstaking_period);
        assert(bytes.subrange(8, 40) =~= self.authority@);
        assert(bytes.subrange(40, 72) =~= self.reward_mint_address@);
        assert(bytes.subrange(72, 80) =~= i64_bytes(self.reward_rate));
        assert(bytes.subrange(80, 88) =~= i64_bytes(self.unstaking_period));
        lemma_address_by_bytes(address_of(self.authority@), self.authority);
        lemma_address_by_bytes(address_of(self.reward_mint_address@), self.reward_mint_address);
    }

    /// The fields as they are stored.
    pub fn serialize(&self) -> (r: Vec<u8>)
        ensures
            r@ == self.layout(),
    {
        let mut r: Vec<u8> = Vec::new();
        write_address(&mut r, &self.authority);
        write_address(&mut r, &self.reward_mint_address);
        write_i64(&mut r, self.reward_rate);
        write_i64(&mut r, self.unstaking_period);
        r.push(self.bump);
        assert(r@ =~= self.layout());
        r
    }

    /// Reads a pool from a stored record without looking at its
    /// discriminator. It fails only where the record is too short.
    pub fn try_deserialize_unchecked(buf: &[u8]) -> (r: Result<StakingData, ErrorCode>)
        ensures
            r == (match StakingData::parsed(buf@) {
                Some(record) => Ok::<StakingData, ErrorCode>(record),
                None => Err(ErrorCode::InvalidAccountData),
            }),
    {
        if buf.len() < DISCRIMINATOR_LEN + STAKING_DATA_LEN {
            return Err(ErrorCode::InvalidAccountData);
        }
        Ok(
            StakingData {
                authority: read_address(buf, 8),
                reward_mint_address: read_address(buf, 40),
                reward_rate: read_i64(buf, 72),
                unstaking_period: read_i64(buf, 80),
                bump: buf[88],
            },
        )
    }

    /// A record of this type always counts as initialized.
    pub fn is_initialized(&self) -> (r: bool)
        ensures
            r,
    {
        true
    }

    /// The program that owns the records of this type.
    pub fn owner() -> (r: Address)
        ensures
            r == program_id(),
    {
        id()
    }
}

impl StakedNFT {
    /// The stored fields: the NFT, the staker and the time of the stake, in
    /// this order.
    pub open spec fn layout(self) -> Seq<u8> {
        self.nft_mint_address@ + self.staker@ + i64_bytes(self.staked_at)
    }

    /// The receipt that a stored record holds, if the record is long
    /// enough: eight bytes of discriminator, then the fields. The
    /// discriminator and the bytes beyond the fields are not read, and every
    /// value of a field is accepted.
    pub open spec fn parsed(bytes: Seq<u8>) -> Option<StakedNFT> {
        if bytes.len() >= 8 + 72 {
            Some(
                StakedNFT {
                    nft_mint_address: address_of(bytes.subrange(8, 40)),
                    staker: address_of(bytes.subrange(40, 72)),
                    staked_at: i64_of(bytes.subrange(72, 80)),
                },
            )
        } else {
            None
        }
    }

    /// What is parsed from a record made of any discriminator, the stored
    /// fields and anything behind them is what was stored.
    pub proof fn lemma_round_trip(self, discriminator: Seq<u8>, rest: Seq<u8>)
        requires
            discriminator.len() == 8,
        ensures
            self.layout().len() == 72,
            StakedNFT::parsed(discriminator + self.layout() + rest) == Some(self),
    {
        let bytes = discriminator + self.layout() + rest;
        lemma_i64_round_trip(self.staked_at);
        assert(bytes.subrange(8, 40) =~= self.nft_mint_address@);
        assert(bytes.subrange(40, 72) =~= self.staker@);
        assert(bytes.subrange(72, 80) =~= i64_bytes(self.staked_at));
        lemma_address_by_bytes(address_of(self.nft_mint_address@), self.nft_mint_address);
        lemma_address_by_bytes(address_of(self.staker@), self.staker);
    }

    /// The fields as they are stored.
    pub fn serialize(&self) -> (r: Vec<u8>)
        ensures
            r@ == self.layout(),
    {
        let mut r: Vec<u8> = Vec::new();
        write_address(&mut r, &self.nft_mint_address);
        write_address(&mut r, &self.staker);
        write_i64(&mut r, self.staked_at);
        assert(r@ =~= self.layout());
        r
    }

    /// Reads a receipt from a stored record without looking at its
    /// discriminator. It fails only where the record is too short.
    pub fn try_deserialize_unchecked(buf: &[u8]) -> (r: Result<StakedNFT, ErrorCode>)
        ensures
            r == (match StakedNFT::parsed(buf@) {
                Some(record) => Ok::<StakedNFT, ErrorCode>(record),
                None => Err(ErrorCode::InvalidAccountData),
            }),
    {
        if buf.len() < DISCRIMINATOR_LEN + STAKED_NFT_LEN {
            return Err(ErrorCode::InvalidAccountData);
        }
        Ok(
            StakedNFT {
                nft_mint_address: read_address(buf, 8),
                staker: read_address(buf, 40),
                staked_at: read_i64(buf, 72),
            },
        )
    }

    /// A record of this type always counts as initialized.
    pub fn is_initialized(&self) -> (r: bool)
        ensures
            r,
    {
        true
    }

    /// The program that owns the records of this type.
    pub fn owner() -> (r: Address)
        ensures
            r == program_id(),
    {
        id()
    }
}

} // verus!
