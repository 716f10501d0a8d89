//! A verified core for an NFT staking program: pool configuration, staking
//! receipts, the cooldown rule, the reward formula and the token
//! instructions that each handler hands to the token ledger.
//!
//! The handlers in `handlers` decide; they neither read a clock nor move a
//! token. Whoever runs them loads the accounts, gives the time, carries the
//! answered instruction out on the token ledger, and writes the accounts back
//! only if the token ledger accepted it.

pub mod accounts;
pub mod address;
pub mod derive;
pub mod error;
pub mod handlers;
pub mod laws;
pub mod layout;
pub mod ledger;
pub mod records;
pub mod rules;
pub mod token;

pub use accounts::{ClaimRewards, Initialize, StakeNFT, UnstakeNFT};
pub use address::Address;
pub use error::ErrorCode;
pub use handlers::{claim_rewards, initialize, stake_nft, unstake_nft};
pub use ledger::Ledger;
pub use records::{StakedNFT, StakingData};
pub use token::{Authorization, MintTo, Transfer};
