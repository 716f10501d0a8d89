//! What holds of the operations taken together.

use vstd::prelude::*;
use crate::accounts::{ClaimRewards, Initialize, StakeNFT, UnstakeNFT};
use crate::address::Address;
use crate::error::ErrorCode;
use crate::handlers::{
    claim_outcome, initialize_outcome, initialized, pool_identity, receipt_matches,
    stake_outcome, staked, unstake_outcome, unstaked,
};
use crate::ledger::slot;
use crate::records::{StakedNFT, StakingData};
use crate::rules::{reward, unlock_time};

verus! {

/// One pool per authority. Once the pool that an initialization wrote stands
/// in the registry, every further initialization by the same authority is
/// refused as already initialized, whatever it asks for; the slot of any
/// other authority is as it was, so that authority is answered as before.
pub proof fn law_one_pool_per_authority(
    pools: Map<Address, StakingData>,
    first: Initialize,
    reward_rate: i64,
    unstaking_period: i64,
    identity: Option<(Address, u8)>,
    again: Initialize,
    again_identity: Option<(Address, u8)>,
    other: Initialize,
    other_identity: Option<(Address, u8)>,
)
    requires
        first.staking_data == slot(pools, first.authority),
        initialize_outcome(first, identity) is Ok,
        again.authority == first.authority,
        again.staking_data == slot(
            pools.insert(
                first.authority,
                initialized(first, reward_rate, unstaking_period, identity).staking_data->0,
            ),
            again.authority,
        ),
        other.authority != first.authority,
        other.staking_data == slot(
            pools.insert(
                first.authority,
                initialized(first, reward_rate, unstaking_period, identity).staking_data->0,
            ),
            other.authority,
        ),
    ensures
        initialize_outcome(again, again_identity) == Err::<(), ErrorCode>(
            ErrorCode::AlreadyInitialized,
        ),
        other.staking_data == slot(pools, other.authority),
        slot(pools, other.authority) is None ==> initialize_outcome(other, other_identity)
            != Err::<(), ErrorCode>(ErrorCode::AlreadyInitialized),
{
}

/// A pool that initialization wrote carries the authority, the mint, the rate
/// and the period that were given, unchecked, and the bump of its identity.
pub proof fn law_initialize_stores_what_was_given(
    ctx: Initialize,
    reward_rate: i64,
    unstaking_period: i64,
    identity: Option<(Address, u8)>,
)
    requires
        initialize_outcome(ctx, identity) is Ok,
    ensures
        initialized(ctx, reward_rate, unstaking_period, identity).staking_data == Some(
            StakingData {
                authority: ctx.authority,
                reward_mint_address: ctx.reward_mint_address,
                reward_rate,
                unstaking_period,
                bump: (identity->0).1,
            },
        ),
{
}

/// No double stake. While the receipt that a stake wrote stands in its slot,
/// a second stake of the same NFT by the same staker is refused as a
/// duplicate, at whatever time and with whatever token accounts.
pub proof fn law_no_double_stake(
    receipts: Map<(Address, Address), StakedNFT>,
    first: StakeNFT,
    now: i64,
    again: StakeNFT,
)
    requires
        first.staked_nft == slot(receipts, (first.nft_mint_address, first.staker)),
        stake_outcome(first) is Ok,
        again.nft_mint_address == first.nft_mint_address,
        again.staker == first.staker,
        again.staked_nft == slot(
            receipts.insert(
                (first.nft_mint_address, first.staker),
                staked(first, now).staked_nft->0,
            ),
            (again.nft_mint_address, again.staker),
        ),
    ensures
        stake_outcome(again) == Err::<crate::token::Transfer, ErrorCode>(
            ErrorCode::ReceiptAlreadyExists,
        ),
{
}

/// A stake asks for the NFT. The transfer that a stake hands out takes one
/// unit from the staker's own token account, under the staker's own
/// signature: where that account holds none, the transfer is not covered.
pub proof fn law_stake_asks_for_the_nft(ctx: StakeNFT, balances: Map<Address, int>)
    requires
        stake_outcome(ctx) is Ok,
    ensures
        stake_outcome(ctx)->Ok_0.from == ctx.nft_token_account,
        stake_outcome(ctx)->Ok_0.authority == ctx.staker,
        stake_outcome(ctx)->Ok_0.authorization == crate::token::Authorization::Signer,
        stake_outcome(ctx)->Ok_0.covered(balances) <==> balances.contains_key(
            ctx.nft_token_account,
        ) && balances[ctx.nft_token_account] >= 1,
{
}

/// The cooldown boundary. For an unstake whose receipt is the caller's and
/// whose custody identity can be derived, the answer is decided by the clock
/// alone: refused as too early before the unlock time, granted at that second
/// and at every later one.
pub proof fn law_unstake_boundary(ctx: UnstakeNFT, now: i64, identity: Option<(Address, u8)>)
    requires
        ctx.staked_nft is Some,
        receipt_matches(ctx.staked_nft->0, ctx.nft_mint_address, ctx.staker),
        identity is Some,
    ensures
        now < unlock_time(ctx.staked_nft->0.staked_at, ctx.staking_data.unstaking_period)
            <==> unstake_outcome(ctx, now, identity) == Err::<crate::token::Transfer, ErrorCode>(
            ErrorCode::UnstakingPeriodNotReached,
        ),
        now >= unlock_time(ctx.staked_nft->0.staked_at, ctx.staking_data.unstaking_period)
            <==> unstake_outcome(ctx, now, identity) is Ok,
{
}

/// Claims are cumulative. A granted claim mints the seconds since the stake
/// times the rate. A claim changes no record, so a later claim on the same
/// accounts mints the seconds since the stake again, not the seconds since
/// the earlier claim.
pub proof fn law_claims_count_from_the_stake(
    ctx: ClaimRewards,
    earlier: i64,
    later: i64,
    identity: Option<(Address, u8)>,
)
    requires
        earlier < later,
        claim_outcome(ctx, earlier, identity) is Ok,
        claim_outcome(ctx, later, identity) is Ok,
    ensures
        claim_outcome(ctx, earlier, identity)->Ok_0.amount == reward(
            ctx.staked_nft->0.staked_at,
            ctx.staking_data.reward_rate,
            earlier,
        ),
        claim_outcome(ctx, later, identity)->Ok_0.amount == reward(
            ctx.staked_nft->0.staked_at,
            ctx.staking_data.reward_rate,
            later,
        ),
        claim_outcome(ctx, later, identity)->Ok_0.amount - claim_outcome(
            ctx,
            earlier,
            identity,
        )->Ok_0.amount == (later - earlier) * ctx.staking_data.reward_rate,
{
    let staked_at = ctx.staked_nft->0.staked_at;
    let rate = ctx.staking_data.reward_rate;
    assert((later - staked_at) * rate - (earlier - staked_at) * rate == (later - earlier) * rate)
        by (nonlinear_arith);
}

/// When a claim is granted. For a claim whose receipt is the caller's and
/// whose pool carries the bump of its derived identity, the answer is
/// decided by the reward alone: granted exactly where the reward is a mint
/// amount.
pub proof fn law_claim_is_granted(ctx: ClaimRewards, now: i64, identity: Option<(Address, u8)>)
    requires
        ctx.staked_nft is Some,
        receipt_matches(ctx.staked_nft->0, ctx.nft_mint_address, ctx.staker),
        identity is Some,
        (identity->0).1 == ctx.staking_data.bump,
    ensures
        claim_outcome(ctx, now, identity) is Ok <==> 0 <= reward(
            ctx.staked_nft->0.staked_at,
            ctx.staking_data.reward_rate,
            now,
        ) <= u64::MAX,
{
}

/// The pool's identity is derived the same way when the pool is made and
/// when it signs: a claim against a pool that `initialize` wrote is never
/// refused for its seeds.
pub proof fn law_initialized_pool_can_sign(
    init: Initialize,
    reward_rate: i64,
    unstaking_period: i64,
    ctx: ClaimRewards,
    now: i64,
)
    requires
        initialize_outcome(init, pool_identity(init.authority)) is Ok,
        Some(ctx.staking_data) == initialized(
            init,
            reward_rate,
            unstaking_period,
            pool_identity(init.authority),
        ).staking_data,
    ensures
        claim_outcome(ctx, now, pool_identity(ctx.staking_data.authority)) != Err::<
            crate::token::MintTo,
            ErrorCode,
        >(ErrorCode::ConstraintSeeds),
{
}

/// The round trip. A stake followed by a granted unstake of the same NFT by
/// the same staker, with the same token accounts, moves one unit into custody
/// and the same unit back: once the token ledger has carried both transfers
/// out, every balance is what it was. The unstake closes the receipt, so a
/// second unstake finds none.
pub proof fn law_round_trip(
    stake: StakeNFT,
    staked_at: i64,
    unstake: UnstakeNFT,
    now: i64,
    identity: Option<(Address, u8)>,
    balances: Map<Address, int>,
    later: i64,
    later_identity: Option<(Address, u8)>,
)
    requires
        stake_outcome(stake) is Ok,
        unstake.staker == stake.staker,
        unstake.nft_mint_address == stake.nft_mint_address,
        unstake.nft_token_account == stake.nft_token_account,
        unstake.staked_nft_token_account == stake.staked_nft_token_account,
        unstake.staked_nft == staked(stake, staked_at).staked_nft,
        unstake_outcome(unstake, now, identity) is Ok,
        balances.contains_key(stake.nft_token_account),
        balances.contains_key(stake.staked_nft_token_account),
    ensures
        stake_outcome(stake)->Ok_0.amount == 1,
        unstake_outcome(unstake, now, identity)->Ok_0.amount == 1,
        unstake_outcome(unstake, now, identity)->Ok_0.from == stake_outcome(stake)->Ok_0.to,
        unstake_outcome(unstake, now, identity)->Ok_0.to == stake_outcome(stake)->Ok_0.from,
        unstake_outcome(unstake, now, identity)->Ok_0.settled(
            stake_outcome(stake)->Ok_0.settled(balances),
        ) == balances,
        unstaked(unstake, now, identity).staked_nft is None,
        unstake_outcome(unstaked(unstake, now, identity), later, later_identity) == Err::<
            crate::token::Transfer,
            ErrorCode,
        >(ErrorCode::AccountNotInitialized),
{
    let deposit = stake_outcome(stake)->Ok_0;
    let release = unstake_outcome(unstake, now, identity)->Ok_0;
    assert(release.settled(deposit.settled(balances)) =~= balances);
}

/// A rejection changes nothing: the accounts of a refused operation are
/// written back as they were loaded.
pub proof fn law_rejections_change_nothing(
    init: Initialize,
    reward_rate: i64,
    unstaking_period: i64,
    stake: StakeNFT,
    unstake: UnstakeNFT,
    now: i64,
    identity: Option<(Address, u8)>,
)
    ensures
        initialize_outcome(init, identity) is Err ==> initialized(
            init,
            reward_rate,
            unstaking_period,
            identity,
        ) == init,
        stake_outcome(stake) is Err ==> staked(stake, now) == stake,
        unstake_outcome(unstake, now, identity) is Err ==> unstaked(unstake, now, identity)
            == unstake,
{
}

} // verus!
