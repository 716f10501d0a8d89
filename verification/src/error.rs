//! The rejections that a handler can answer with.

use vstd::prelude::*;

verus! {

/// Why an operation was rejected. A rejected operation changes nothing.
#[derive(Clone, Copy, Debug, PartialEq, Eq)]
pub enum ErrorCode {
    /// Unstake was asked for before the cooldown had elapsed.
    UnstakingPeriodNotReached,
    /// A pool already exists for this authority.
    AlreadyInitialized,
    /// A receipt already exists for this NFT and staker.
    ReceiptAlreadyExists,
    /// No receipt exists in the slot that the operation was given.
    AccountNotInitialized,
    /// The receipt names another NFT or another staker than the caller gave.
    ConstraintHasOne,
    /// No signing identity can be derived, or the stored bump is not the
    /// derived one.
    ConstraintSeeds,
    /// The reward computed for a claim is below zero.
    NegativeReward,
    /// The reward computed for a claim does not fit the mint amount.
    RewardOverflow,
    /// A stored record is too short to hold its fields.
    InvalidAccountData,
}

impl ErrorCode {
    /// The words of a rejection.
    pub open spec fn text(self) -> Seq<char> {
        match self {
            ErrorCode::UnstakingPeriodNotReached => "Unstaking period has not been reached"@,
            ErrorCode::AlreadyInitialized => "A pool already exists for this authority"@,
            ErrorCode::ReceiptAlreadyExists => "A receipt already exists for this NFT and staker"@,
            ErrorCode::AccountNotInitialized => "No receipt exists for this NFT and staker"@,
            ErrorCode::ConstraintHasOne => "The receipt names another NFT or another staker"@,
            ErrorCode::ConstraintSeeds => "The signing identity cannot be derived from the stored bump"@,
            ErrorCode::NegativeReward => "The reward is below zero"@,
            ErrorCode::RewardOverflow => "The reward does not fit the mint amount"@,
            ErrorCode::InvalidAccountData => "The stored record is too short"@,
        }
    }

    /// The words of a rejection.
    pub fn message(&self) -> (r: &'static str)
        ensures
            r@ == self.text(),
    {
        match *self {
            ErrorCode::UnstakingPeriodNotReached => "Unstaking period has not been reached",
            ErrorCode::AlreadyInitialized => "A pool already exists for this authority",
            ErrorCode::ReceiptAlreadyExists => "A receipt already exists for this NFT and staker",
            ErrorCode::AccountNotInitialized => "No receipt exists for this NFT and staker",
            ErrorCode::ConstraintHasOne => "The receipt names another NFT or another staker",
            ErrorCode::ConstraintSeeds => "The signing identity cannot be derived from the stored bump",
            ErrorCode::NegativeReward => "The reward is below zero",
            ErrorCode::RewardOverflow => "The reward does not fit the mint amount",
            ErrorCode::InvalidAccountData => "The stored record is too short",
        }
    }

    /// Whether two rejections are the same.
    pub fn same(&self, other: &ErrorCode) -> (r: bool)
        ensures
            r == (*self == *other),
    {
        match (*self, *other) {
            (ErrorCode::UnstakingPeriodNotReached, ErrorCode::UnstakingPeriodNotReached) => true,
            (ErrorCode::AlreadyInitialized, ErrorCode::AlreadyInitialized) => true,
            (ErrorCode::ReceiptAlreadyExists, ErrorCode::ReceiptAlreadyExists) => true,
            (ErrorCode::AccountNotInitialized, ErrorCode::AccountNotInitialized) => true,
            (ErrorCode::ConstraintHasOne, ErrorCode::ConstraintHasOne) => true,
            (ErrorCode::ConstraintSeeds, ErrorCode::ConstraintSeeds) => true,
            (ErrorCode::NegativeReward, ErrorCode::NegativeReward) => true,
            (ErrorCode::RewardOverflow, ErrorCode::RewardOverflow) => true,
            (ErrorCode::InvalidAccountData, ErrorCode::InvalidAccountData) => true,
            _ => false,
        }
    }
}

} // verus!
