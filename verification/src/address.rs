//! Identities: 32-byte account addresses.

use vstd::prelude::*;

verus! {

/// The identity of an account, a mint, a wallet or a program.
#[derive(Clone, Copy, Debug, PartialEq, Eq)]
pub struct Address {
    pub bytes: [u8; 32],
}

impl View for Address {
    type V = Seq<u8>;

    open spec fn view(&self) -> Seq<u8> {
        self.bytes@
    }
}

impl Address {
    /// An address from its 32 bytes.
    pub fn new(bytes: [u8; 32]) -> (r: Address)
        ensures
            r.bytes == bytes,
            r@ == bytes@,
    {
        Address { bytes }
    }

    /// Whether two addresses are the same identity.
    pub fn same(&self, other: &Address) -> (r: bool)
        ensures
            r == (*self == *other),
            r == (self@ == other@),
    {
        let mut i: usize = 0;
        while i < 32
            invariant
                0 <= i <= 32,
                forall|j: int| 0 <= j < i ==> self.bytes[j] == other.bytes[j],
            decreases 32 - i,
        {
            if self.bytes[i] != other.bytes[i] {
                return false;
            }
            i += 1;
        }
        proof {
            assert(self.bytes@ =~= other.bytes@);
            assert(self.bytes == other.bytes);
        }
        true
    }
}

/// The address that has these bytes.
pub open spec fn address_of(bytes: Seq<u8>) -> Address {
    choose|a: Address| a@ == bytes
}

/// The address of 32 zero bytes.
pub open spec fn zero_address() -> Address {
    address_of(Seq::new(32, |i: int| 0u8))
}

impl Default for Address {
    /// The address of 32 zero bytes.
    fn default() -> (r: Address)
        ensures
            r@ == Seq::new(32, |i: int| 0u8),
            r == zero_address(),
    {
        let r = Address { bytes: [0u8; 32] };
        proof {
            assert(r@ =~= Seq::new(32, |i: int| 0u8));
            lemma_address_by_bytes(zero_address(), r);
        }
        r
    }
}

/// Two addresses with the same bytes are the same address.
pub proof fn lemma_address_by_bytes(a: Address, b: Address)
    ensures
        (a@ == b@) == (a == b),
{
    if a@ == b@ {
        assert(a.bytes@ =~= b.bytes@);
        assert(a.bytes == b.bytes);
    }
}

} // verus!
