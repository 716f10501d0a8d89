use anchor_lang::prelude::Pubkey;
use basic_staking::derive::id;
use basic_staking::layout::{read_address, read_i64, write_address, write_i64};
use basic_staking::records::{
    DISCRIMINATOR_LEN, STAKED_NFT_LEN, STAKED_NFT_SPACE, STAKING_DATA_LEN, STAKING_DATA_SPACE,
};
use basic_staking::{Address, ErrorCode, StakedNFT, StakingData};
use std::str::FromStr;

fn key(tag: u8) -> Address {
    Address::new([tag; 32])
}

fn record_of(fields: &[u8]) -> Vec<u8> {
    let mut record = vec![0xAAu8; 8];
    record.extend_from_slice(fields);
    record
}

#[test]
fn program_id_is_the_declared_address() {
    let declared = Pubkey::from_str("HUjbRStzkMdzaYjJ22kfQfXJG6V4RqPLUfD9e4qe4j54").unwrap();
    assert_eq!(id().bytes, declared.to_bytes());
    assert_eq!(StakingData::owner(), id());
    assert_eq!(StakedNFT::owner(), id());
}

#[test]
fn records_count_as_initialized() {
    assert!(StakingData::default().is_initialized());
    assert!(StakedNFT::default().is_initialized());
}

#[test]
fn default_records_are_zero() {
    let pool = StakingData::default();
    assert_eq!(pool.authority, key(0));
    assert_eq!(pool.reward_mint_address, key(0));
    assert_eq!((pool.reward_rate, pool.unstaking_period, pool.bump), (0, 0, 0));
    let receipt = StakedNFT::default();
    assert_eq!((receipt.nft_mint_address, receipt.staker, receipt.staked_at), (key(0), key(0), 0));
    assert_eq!(Address::default(), key(0));
}

#[test]
fn reserved_space_holds_the_discriminator_and_the_fields() {
    assert_eq!(DISCRIMINATOR_LEN, 8);
    assert_eq!(STAKING_DATA_LEN, 81);
    assert_eq!(STAKED_NFT_LEN, 72);
    assert_eq!(STAKING_DATA_SPACE, 96);
    assert_eq!(STAKED_NFT_SPACE, 80);
    assert_eq!(StakingData::default().serialize().len(), STAKING_DATA_LEN);
    assert_eq!(StakedNFT::default().serialize().len(), STAKED_NFT_LEN);
}

#[test]
fn pool_fields_are_stored_in_order() {
    let pool = StakingData {
        authority: key(9),
        reward_mint_address: key(8),
        reward_rate: 10,
        unstaking_period: 86400,
        bump: 254,
    };
    let mut expected = vec![9u8; 32];
    expected.extend_from_slice(&[8u8; 32]);
    expected.extend_from_slice(&[10, 0, 0, 0, 0, 0, 0, 0]);
    expected.extend_from_slice(&[0x80, 0x51, 0x01, 0, 0, 0, 0, 0]);
    expected.push(254);
    assert_eq!(pool.serialize(), expected);
}

#[test]
fn receipt_fields_are_stored_in_order() {
    let receipt = StakedNFT { nft_mint_address: key(2), staker: key(1), staked_at: -2 };
    let mut expected = vec![2u8; 32];
    expected.extend_from_slice(&[1u8; 32]);
    expected.extend_from_slice(&[0xFE, 0xFF, 0xFF, 0xFF, 0xFF, 0xFF, 0xFF, 0xFF]);
    assert_eq!(receipt.serialize(), expected);
}

#[test]
fn pool_is_read_back_from_its_record() {
    let pool = StakingData {
        authority: key(9),
        reward_mint_address: key(8),
        reward_rate: -12345,
        unstaking_period: i64::MAX,
        bump: 7,
    };
    let record = record_of(&pool.serialize());
    assert_eq!(StakingData::try_deserialize_unchecked(&record), Ok(pool));
    let mut padded = record.clone();
    padded.resize(STAKING_DATA_SPACE, 0);
    assert_eq!(StakingData::try_deserialize_unchecked(&padded), Ok(pool));
}

#[test]
fn receipt_is_read_back_from_its_record() {
    let receipt = StakedNFT { nft_mint_address: key(2), staker: key(1), staked_at: i64::MIN };
    let record = record_of(&receipt.serialize());
    assert_eq!(record.len(), STAKED_NFT_SPACE);
    assert_eq!(StakedNFT::try_deserialize_unchecked(&record), Ok(receipt));
}

#[test]
fn zeroed_record_reads_as_the_default() {
    assert_eq!(
        StakingData::try_deserialize_unchecked(&[0u8; 96]),
        Ok(StakingData::default())
    );
    assert_eq!(StakedNFT::try_deserialize_unchecked(&[0u8; 80]), Ok(StakedNFT::default()));
}

#[test]
fn discriminator_is_not_read() {
    let receipt = StakedNFT { nft_mint_address: key(2), staker: key(1), staked_at: 5 };
    let mut one = vec![1u8; 8];
    one.extend_from_slice(&receipt.serialize());
    let mut two = vec![2u8; 8];
    two.extend_from_slice(&receipt.serialize());
    assert_eq!(
        StakedNFT::try_deserialize_unchecked(&one),
        StakedNFT::try_deserialize_unchecked(&two)
    );
}

#[test]
fn short_record_is_invalid_account_data() {
    assert_eq!(StakingData::try_deserialize_unchecked(&[]), Err(ErrorCode::InvalidAccountData));
    assert_eq!(
        StakingData::try_deserialize_unchecked(&[0u8; 88]),
        Err(ErrorCode::InvalidAccountData)
    );
    assert!(StakingData::try_deserialize_unchecked(&[0u8; 89]).is_ok());
    assert_eq!(
        StakedNFT::try_deserialize_unchecked(&[0u8; 79]),
        Err(ErrorCode::InvalidAccountData)
    );
    assert!(StakedNFT::try_deserialize_unchecked(&[0u8; 80]).is_ok());
}

#[test]
fn integers_are_stored_as_the_platform_stores_them() {
    for x in [0i64, 1, -1, 255, 256, -256, 86400, i64::MAX, i64::MIN, 0x0102030405060708] {
        let mut out = vec![0xEEu8];
        write_i64(&mut out, x);
        assert_eq!(out[0], 0xEE);
        assert_eq!(&out[1..], &x.to_le_bytes());
        assert_eq!(read_i64(&out, 1), x);
    }
}

#[test]
fn addresses_are_stored_byte_for_byte() {
    let mut bytes = [0u8; 32];
    for (i, b) in bytes.iter_mut().enumerate() {
        *b = i as u8;
    }
    let mut out = vec![0xEEu8, 0xEE];
    write_address(&mut out, &Address::new(bytes));
    assert_eq!(&out[2..], &bytes);
    assert_eq!(read_address(&out, 2), Address::new(bytes));
    assert!(Address::new(bytes).same(&read_address(&out, 2)));
    assert!(!Address::new(bytes).same(&key(0)));
}

#[test]
fn rejections_compare_by_variant() {
    assert!(ErrorCode::AlreadyInitialized.same(&ErrorCode::AlreadyInitialized));
    assert!(!ErrorCode::AlreadyInitialized.same(&ErrorCode::ReceiptAlreadyExists));
    assert!(ErrorCode::UnstakingPeriodNotReached.same(&ErrorCode::UnstakingPeriodNotReached));
    assert!(!ErrorCode::NegativeReward.same(&ErrorCode::RewardOverflow));
}

#[test]
fn rejections_have_their_words() {
    assert_eq!(
        ErrorCode::UnstakingPeriodNotReached.message(),
        "Unstaking period has not been reached"
    );
    assert_eq!(ErrorCode::NegativeReward.message(), "The reward is below zero");
    assert_ne!(ErrorCode::AlreadyInitialized.message(), ErrorCode::ReceiptAlreadyExists.message());
}
