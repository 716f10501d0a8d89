//! The instructions that the handlers hand to the token ledger, and the way
//! each is authorized.

use vstd::prelude::*;
use crate::address::Address;
use crate::derive::seeds_view;

verus! {

/// The domain tag of a pool's signing identity: the text `staking_data`.
pub open spec fn pool_tag() -> Seq<u8> {
    seq![115u8, 116u8, 97u8, 107u8, 105u8, 110u8, 103u8, 95u8, 100u8, 97u8, 116u8, 97u8]
}

/// The domain tag of a receipt's signing identity: the text `staked_nft`.
pub open spec fn receipt_tag() -> Seq<u8> {
    seq![115u8, 116u8, 97u8, 107u8, 101u8, 100u8, 95u8, 110u8, 102u8, 116u8]
}

/// The seeds from which a pool's signing identity is derived: the tag, then
/// the authority.
pub open spec fn pool_seed_bytes(authority: Address) -> Seq<Seq<u8>> {
    seq![pool_tag(), authority@]
}

/// The seeds from which a receipt's custody identity is derived: the tag, then
/// the NFT, then the staker.
pub open spec fn receipt_seed_bytes(nft_mint_address: Address, staker: Address) -> Seq<Seq<u8>> {
    seq![receipt_tag(), nft_mint_address@, staker@]
}

/// How a token instruction is authorized.
#[derive(Clone, Copy, Debug, PartialEq, Eq)]
pub enum Authorization {
    /// The authority signed the transaction itself.
    Signer,
    /// The program signs for a receipt's custody identity.
    Receipt { nft_mint_address: Address, staker: Address, bump: u8 },
    /// The program signs for a pool's identity.
    Pool { authority: Address, bump: u8 },
}

impl Authorization {
    /// The seeds that the program signs with: none for a direct signer, else
    /// the identity's seeds followed by the one-byte bump.
    pub open spec fn signer_seeds(self) -> Seq<Seq<u8>> {
        match self {
            Authorization::Signer => Seq::empty(),
            Authorization::Receipt { nft_mint_address, staker, bump } => receipt_seed_bytes(
                nft_mint_address,
                staker,
            ).push(seq![bump]),
            Authorization::Pool { authority, bump } => pool_seed_bytes(authority).push(seq![bump]),
        }
    }

    /// The seeds that the program signs with, as bytes.
    pub fn seeds(&self) -> (r: Vec<Vec<u8>>)
        ensures
            seeds_view(r@) == self.signer_seeds(),
    {
        match *self {
            Authorization::Signer => {
                let r: Vec<Vec<u8>> = Vec::new();
                assert(seeds_view(r@) =~= self.signer_seeds());
                r
            },
            Authorization::Receipt { nft_mint_address, staker, bump } => {
                let mut r = receipt_seeds(&nft_mint_address, &staker);
                let ghost before = r@;
                let mut last: Vec<u8> = Vec::new();
                last.push(bump);
                r.push(last);
                assert(last@ =~= seq![bump]);
                assert(seeds_view(r@) =~= seeds_view(before).push(seq![bump]));
                r
            },
            Authorization::Pool { authority, bump } => {
                let mut r = pool_seeds(&authority);
                let ghost before = r@;
                let mut last: Vec<u8> = Vec::new();
                last.push(bump);
                r.push(last);
                assert(last@ =~= seq![bump]);
                assert(seeds_view(r@) =~= seeds_view(before).push(seq![bump]));
                r
            },
        }
    }
}

/// The bytes of an address, as a seed.
fn seed_of(address: &Address) -> (r: Vec<u8>)
    ensures
        r@ == address@,
{
    let mut r: Vec<u8> = Vec::new();
    let mut i: usize = 0;
    while i < 32
        invariant
            0 <= i <= 32,
            r@.len() == i,
            forall|j: int| 0 <= j < i ==> r@[j] == address.bytes[j],
        decreases 32 - i,
    {
        r.push(address.bytes[i]);
        i += 1;
    }
    assert(r@ =~= address@);
    r
}

/// The seeds of a pool's signing identity.
pub fn pool_seeds(authority: &Address) -> (r: Vec<Vec<u8>>)
    ensures
        seeds_view(r@) == pool_seed_bytes(*authority),
{
    let tag: Vec<u8> = vec![115u8, 116u8, 97u8, 107u8, 105u8, 110u8, 103u8, 95u8, 100u8, 97u8, 116u8, 97u8];
    assert(tag@ =~= pool_tag());
    let mut r: Vec<Vec<u8>> = Vec::new();
    r.push(tag);
    r.push(seed_of(authority));
    assert(seeds_view(r@) =~= pool_seed_bytes(*authority));
    r
}

/// The seeds of a receipt's custody identity.
pub fn receipt_seeds(nft_mint_address: &Address, staker: &Address) -> (r: Vec<Vec<u8>>)
    ensures
        seeds_view(r@) == receipt_seed_bytes(*nft_mint_address, *staker),
{
    let tag: Vec<u8> = vec![115u8, 116u8, 97u8, 107u8, 101u8, 100u8, 95u8, 110u8, 102u8, 116u8];
    assert(tag@ =~= receipt_tag());
    let mut r: Vec<Vec<u8>> = Vec::new();
    r.push(tag);
    r.push(seed_of(nft_mint_address));
    r.push(seed_of(staker));
    assert(seeds_view(r@) =~= receipt_seed_bytes(*nft_mint_address, *staker));
    r
}

/// Move `amount` units of a token from one token account to another.
#[derive(Clone, Copy, Debug, PartialEq, Eq)]
pub struct Transfer {
    pub from: Address,
    pub to: Address,
    /// The identity that must have authorized the move.
    pub authority: Address,
    pub amount: u64,
    pub authorization: Authorization,
}

impl Transfer {
    /// Whether the account that the transfer takes from holds the amount.
    pub open spec fn covered(self, balances: Map<Address, int>) -> bool {
        balances.contains_key(self.from) && balances[self.from] >= self.amount
    }

    /// The balances after the token ledger has carried this transfer out:
    /// the amount has left one account and reached the other.
    pub open spec fn settled(self, balances: Map<Address, int>) -> Map<Address, int> {
        let debited = balances.insert(self.from, balances[self.from] - self.amount);
        debited.insert(self.to, debited[self.to] + self.amount)
    }
}

/// Mint `amount` new units of a token into a token account.
#[derive(Clone, Copy, Debug, PartialEq, Eq)]
pub struct MintTo {
    pub mint: Address,
    pub to: Address,
    /// The identity that must have authorized the mint.
    pub authority: Address,
    pub amount: u64,
    pub authorization: Authorization,
}

} // verus!
