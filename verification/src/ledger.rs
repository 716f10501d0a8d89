//! The program's own account space: a registry of pools, one per authority,
//! and a registry of receipts, one per NFT and staker. Records enter only
//! where their slot is empty; a pool never changes once it is written.

use vstd::prelude::*;
use crate::address::Address;
use crate::error::ErrorCode;
use crate::records::{StakedNFT, StakingData};

verus! {

/// The registry of pools and receipts.
pub struct Ledger {
    pools: Vec<StakingData>,
    receipts: Vec<StakedNFT>,
}

/// Whether the pool at position `i` is the one of `authority`.
spec fn pool_at(pools: Seq<StakingData>, authority: Address, i: int) -> bool {
    0 <= i < pools.len() && pools[i].authority == authority
}

/// Whether the receipt at position `i` is the one of this NFT and staker.
spec fn receipt_at(receipts: Seq<StakedNFT>, key: (Address, Address), i: int) -> bool {
    0 <= i < receipts.len() && receipts[i].nft_mint_address == key.0 && receipts[i].staker
        == key.1
}

/// No two pools have the same authority.
spec fn distinct_pools(pools: Seq<StakingData>) -> bool {
    forall|i: int, j: int, a: Address|
        #![trigger pool_at(pools, a, i), pool_at(pools, a, j)]
        pool_at(pools, a, i) && pool_at(pools, a, j) ==> i == j
}

/// No two receipts have the same NFT and staker.
spec fn distinct_receipts(receipts: Seq<StakedNFT>) -> bool {
    forall|i: int, j: int, key: (Address, Address)|
        #![trigger receipt_at(receipts, key, i), receipt_at(receipts, key, j)]
        receipt_at(receipts, key, i) && receipt_at(receipts, key, j) ==> i == j
}

/// The pools of a list, by authority.
spec fn pool_map(pools: Seq<StakingData>) -> Map<Address, StakingData> {
    Map::new(
        |a: Address| exists|i: int| pool_at(pools, a, i),
        |a: Address| pools[choose|i: int| pool_at(pools, a, i)],
    )
}

/// The receipts of a list, by NFT and staker.
spec fn receipt_map(receipts: Seq<StakedNFT>) -> Map<(Address, Address), StakedNFT> {
    Map::new(
        |key: (Address, Address)| exists|i: int| receipt_at(receipts, key, i),
        |key: (Address, Address)| receipts[choose|i: int| receipt_at(receipts, key, i)],
    )
}

/// What a slot of a registry holds.
pub open spec fn slot<K, V>(registry: Map<K, V>, key: K) -> Option<V> {
    if registry.contains_key(key) {
        Some(registry[key])
    } else {
        None
    }
}

impl Ledger {
    /// Whether no slot is held twice. Every ledger that `new` made and the
    /// operations below changed is well formed.
    pub closed spec fn well_formed(self) -> bool {
        distinct_pools(self.pools@) && distinct_receipts(self.receipts@)
    }

    /// The pools, each under its authority.
    pub closed spec fn pools(self) -> Map<Address, StakingData> {
        pool_map(self.pools@)
    }

    /// The receipts, each under its NFT and its staker.
    pub closed spec fn receipts(self) -> Map<(Address, Address), StakedNFT> {
        receipt_map(self.receipts@)
    }

    /// A ledger without pools or receipts.
    pub fn new() -> (r: Ledger)
        ensures
            r.well_formed(),
            r.pools() == Map::<Address, StakingData>::empty(),
            r.receipts() == Map::<(Address, Address), StakedNFT>::empty(),
    {
        let r = Ledger { pools: Vec::new(), receipts: Vec::new() };
        assert(r.pools() =~= Map::<Address, StakingData>::empty());
        assert(r.receipts() =~= Map::<(Address, Address), StakedNFT>::empty());
        r
    }

    /// Every record is stored under its own identity.
    pub proof fn lemma_stored_under_own_key(self)
        ensures
            forall|a: Address| #[trigger]
                self.pools().contains_key(a) ==> self.pools()[a].authority == a,
            forall|key: (Address, Address)| #[trigger]
                self.receipts().contains_key(key) ==> self.receipts()[key].nft_mint_address
                    == key.0 && self.receipts()[key].staker == key.1,
    {
    }

    fn find_pool(&self, authority: &Address) -> (r: Option<usize>)
        ensures
            match r {
                Some(i) => pool_at(self.pools@, *authority, i as int),
                None => forall|i: int| !pool_at(self.pools@, *authority, i),
            },
    {
        let mut i: usize = 0;
        while i < self.pools.len()
            invariant
                0 <= i <= self.pools@.len(),
                forall|j: int| 0 <= j < i ==> !pool_at(self.pools@, *authority, j),
            decreases self.pools@.len() - i,
        {
            if self.pools[i].authority.same(authority) {
                return Some(i);
            }
            i += 1;
        }
        None
    }

    fn find_receipt(&self, nft_mint_address: &Address, staker: &Address) -> (r: Option<usize>)
        ensures
            match r {
                Some(i) => receipt_at(self.receipts@, (*nft_mint_address, *staker), i as int),
                None => forall|i: int|
                    !receipt_at(self.receipts@, (*nft_mint_address, *staker), i),
            },
    {
        let mut i: usize = 0;
        while i < self.receipts.len()
            invariant
                0 <= i <= self.receipts@.len(),
                forall|j: int|
                    0 <= j < i ==> !receipt_at(
                        self.receipts@,
                        (*nft_mint_address, *staker),
                        j,
                    ),
            decreases self.receipts@.len() - i,
        {
            if self.receipts[i].nft_mint_address.same(nft_mint_address)
                && self.receipts[i].staker.same(staker) {
                return Some(i);
            }
            i += 1;
        }
        None
    }

    /// The pool of an authority, if there is one.
    pub fn pool(&self, authority: &Address) -> (r: Option<StakingData>)
        requires
            self.well_formed(),
        ensures
            r == slot(self.pools(), *authority),
            r is Some ==> r->0.authority == *authority,
    {
        match self.find_pool(authority) {
            Some(i) => Some(self.pools[i]),
            None => None,
        }
    }

    /// The receipt of an NFT and a staker, if there is one.
    pub fn receipt(&self, nft_mint_address: &Address, staker: &Address) -> (r: Option<StakedNFT>)
        requires
            self.well_formed(),
        ensures
            r == slot(self.receipts(), (*nft_mint_address, *staker)),
            r is Some ==> r->0.nft_mint_address == *nft_mint_address && r->0.staker == *staker,
    {
        match self.find_receipt(nft_mint_address, staker) {
            Some(i) => {
                assert(receipt_at(self.receipts@, (*nft_mint_address, *staker), i as int));
                Some(self.receipts[i])
            },
            None => None,
        }
    }

    /// Writes a pool into the slot of its authority, if the slot is empty.
    pub fn create_pool(&mut self, record: StakingData) -> (r: Result<(), ErrorCode>)
        requires
            old(self).well_formed(),
        ensures
            final(self).well_formed(),
            r == (if old(self).pools().contains_key(record.authority) {
                Err(ErrorCode::AlreadyInitialized)
            } else {
                Ok(())
            }),
            r is Err ==> final(self).pools() == old(self).pools(),
            r is Ok ==> final(self).pools() == old(self).pools().insert(record.authority, record),
            forall|a: Address| #[trigger]
                old(self).pools().contains_key(a) ==> final(self).pools().contains_key(a)
                    && final(self).pools()[a] == old(self).pools()[a],
            final(self).receipts() == old(self).receipts(),
    {
        match self.find_pool(&record.authority) {
            Some(_) => Err(ErrorCode::AlreadyInitialized),
            None => {
                let ghost before = self.pools@;
                self.pools.push(record);
                proof {
                    let after = self.pools@;
                    assert(pool_at(after, record.authority, before.len() as int));
                    assert forall|a: Address, i: int| a != record.authority implies pool_at(
                        after,
                        a,
                        i,
                    ) == pool_at(before, a, i) by {}
                    assert forall|i: int, j: int, a: Address|
                        #![trigger pool_at(after, a, i), pool_at(after, a, j)]
                        pool_at(after, a, i) && pool_at(after, a, j) implies i == j by {
                        if a == record.authority {
                            assert(!pool_at(before, a, i));
                            assert(!pool_at(before, a, j));
                        } else {
                            assert(pool_at(before, a, i) && pool_at(before, a, j));
                        }
                    }
                    assert forall|a: Address| #[trigger]
                        pool_map(after).contains_key(a) == pool_map(before).insert(
                            record.authority,
                            record,
                        ).contains_key(a) by {
                        if a != record.authority {
                            if pool_map(before).contains_key(a) {
                                let i = choose|i: int| pool_at(before, a, i);
                                assert(pool_at(after, a, i));
                            }
                        }
                    }
                    assert forall|a: Address| #[trigger]
                        pool_map(after).contains_key(a) implies pool_map(after)[a] == pool_map(
                        before,
                    ).insert(record.authority, record)[a] by {
                        let i = choose|i: int| pool_at(after, a, i);
                        if a == record.authority {
                            assert(!pool_at(before, a, i));
                        } else {
                            let j = choose|j: int| pool_at(before, a, j);
                            assert(pool_at(before, a, i));
                            assert(pool_at(before, a, j));
                        }
                    }
                    assert(pool_map(after) =~= pool_map(before).insert(record.authority, record));
                }
                Ok(())
            },
        }
    }

    /// Writes a receipt into the slot of its NFT and staker, if the slot is
    /// empty.
    pub fn create_receipt(&mut self, record: StakedNFT) -> (r: Result<(), ErrorCode>)
        requires
            old(self).well_formed(),
        ensures
            final(self).well_formed(),
            r == (if old(self).receipts().contains_key((record.nft_mint_address, record.staker)) {
                Err(ErrorCode::ReceiptAlreadyExists)
            } else {
                Ok(())
            }),
            r is Err ==> final(self).receipts() == old(self).receipts(),
            r is Ok ==> final(self).receipts() == old(self).receipts().insert(
                (record.nft_mint_address, record.staker),
                record,
            ),
            final(self).pools() == old(self).pools(),
    {
        match self.find_receipt(&record.nft_mint_address, &record.staker) {
            Some(_) => Err(ErrorCode::ReceiptAlreadyExists),
            None => {
                let ghost before = self.receipts@;
                let ghost own = (record.nft_mint_address, record.staker);
                self.receipts.push(record);
                proof {
                    let after = self.receipts@;
                    assert(receipt_at(after, own, before.len() as int));
                    assert forall|key: (Address, Address), i: int| key != own implies receipt_at(
                        after,
                        key,
                        i,
                    ) == receipt_at(before, key, i) by {}
                    assert forall|i: int, j: int, key: (Address, Address)|
                        #![trigger receipt_at(after, key, i), receipt_at(after, key, j)]
                        receipt_at(after, key, i) && receipt_at(after, key, j) implies i == j by {
                        if key == own {
                            assert(!receipt_at(before, own, i));
                            assert(!receipt_at(before, own, j));
                        } else {
                            assert(receipt_at(before, key, i) && receipt_at(before, key, j));
                        }
                    }
                    assert forall|key: (Address, Address)| #[trigger]
                        receipt_map(after).contains_key(key) == receipt_map(before).insert(
                            own,
                            record,
                        ).contains_key(key) by {
                        if key != own {
                            if receipt_map(before).contains_key(key) {
                                let i = choose|i: int| receipt_at(before, key, i);
                                assert(receipt_at(after, key, i));
                            }
                        }
                    }
                    assert forall|key: (Address, Address)| #[trigger]
                        receipt_map(after).contains_key(key) implies receipt_map(after)[key]
                        == receipt_map(before).insert(own, record)[key] by {
                        let i = choose|i: int| receipt_at(after, key, i);
                        if key == own {
                            assert(!receipt_at(before, key, i));
                        } else {
                            let j = choose|j: int| receipt_at(before, key, j);
                            assert(receipt_at(before, key, i));
                            assert(receipt_at(before, key, j));
                        }
                    }
                    assert(receipt_map(after) =~= receipt_map(before).insert(own, record));
                }
                Ok(())
            },
        }
    }

    /// Closes the receipt of an NFT and a staker, so that the slot can be
    /// used again.
    pub fn close_receipt(&mut self, nft_mint_address: &Address, staker: &Address) -> (r: Result<
        (),
        ErrorCode,
    >)
        requires
            old(self).well_formed(),
        ensures
            final(self).well_formed(),
            r == (if old(self).receipts().contains_key((*nft_mint_address, *staker)) {
                Ok(())
            } else {
                Err(ErrorCode::AccountNotInitialized)
            }),
            final(self).receipts() == old(self).receipts().remove((*nft_mint_address, *staker)),
            final(self).pools() == old(self).pools(),
    {
        let ghost own = (*nft_mint_address, *staker);
        match self.find_receipt(nft_mint_address, staker) {
            None => {
                assert(self.receipts() =~= self.receipts().remove(own));
                Err(ErrorCode::AccountNotInitialized)
            },
            Some(at) => {
                let ghost before = self.receipts@;
                self.receipts.remove(at);
                proof {
                    let after = self.receipts@;
                    let k = at as int;
                    assert(after == before.remove(k));
                    assert forall|key: (Address, Address), i: int|
                        receipt_at(after, key, i) implies receipt_at(
                        before,
                        key,
                        if i < k {
                            i
                        } else {
                            i + 1
                        },
                    ) by {}
                    assert forall|i: int, j: int, key: (Address, Address)|
                        #![trigger receipt_at(after, key, i), receipt_at(after, key, j)]
                        receipt_at(after, key, i) && receipt_at(after, key, j) implies i == j by {
                        let i2 = if i < k { i } else { i + 1 };
                        let j2 = if j < k { j } else { j + 1 };
                        assert(receipt_at(before, key, i2) && receipt_at(before, key, j2));
                    }
                    assert forall|key: (Address, Address)| #[trigger]
                        receipt_map(after).contains_key(key) == receipt_map(before).remove(
                            own,
                        ).contains_key(key) by {
                        if receipt_map(after).contains_key(key) {
                            let i = choose|i: int| receipt_at(after, key, i);
                            let i2 = if i < k { i } else { i + 1 };
                            assert(receipt_at(before, key, i2));
                            if key == own {
                                assert(receipt_at(before, own, k));
                            }
                        }
                        if key != own && receipt_map(before).contains_key(key) {
                            let i = choose|i: int| receipt_at(before, key, i);
                            assert(i != k);
                            let i2 = if i < k { i } else { i - 1 };
                            assert(receipt_at(after, key, i2));
                        }
                    }
                    assert forall|key: (Address, Address)| #[trigger]
                        receipt_map(after).contains_key(key) implies receipt_map(after)[key]
                        == receipt_map(before).remove(own)[key] by {
                        let i = choose|i: int| receipt_at(after, key, i);
                        let i2 = if i < k { i } else { i + 1 };
                        let j = choose|j: int| receipt_at(before, key, j);
                        assert(receipt_at(before, key, i2));
                        assert(receipt_at(before, key, j));
                    }
                    assert(receipt_map(after) =~= receipt_map(before).remove(own));
                }
                Ok(())
            },
        }
    }
}

} // verus!
