//! Derived signing identities: an address and a bump computed from seeds, so
//! that the program can sign for custody without holding a key.

use vstd::prelude::*;
use crate::address::{address_of, lemma_address_by_bytes, Address};
use anchor_lang::prelude::Pubkey;

verus! {

/// What `Pubkey::try_find_program_address` returns for these seeds under this
/// program: the derived address and its bump, or `None` where no bump gives a
/// valid address.
pub uninterp spec fn program_address(seeds: Seq<Seq<u8>>, program: Seq<u8>) -> Option<(Seq<u8>, u8)>;

/// The byte strings that a list of seeds holds.
pub open spec fn seeds_view(seeds: Seq<Vec<u8>>) -> Seq<Seq<u8>> {
    Seq::new(seeds.len(), |i: int| seeds[i]@)
}

/// Calls `Pubkey::try_find_program_address`. The contract claims only that the
/// outcome is a function of the seeds and the program's address, and gives
/// that function its name, `program_address`; what the address and the bump
/// are is the outside crate's business.
#[verifier::external_body]
pub(crate) fn try_find_program_address(seeds: &Vec<Vec<u8>>, program: &Address) -> (r: Option<(Address, u8)>)
    ensures
        match r {
            Some((address, bump)) => program_address(seeds_view(seeds@), program@) == Some(
                (address@, bump),
            ),
            None => program_address(seeds_view(seeds@), program@) is None,
        },
{
    let parts: Vec<&[u8]> = seeds.iter().map(|s| s.as_slice()).collect();
    let found = Pubkey::try_find_program_address(&parts, &Pubkey::new_from_array(program.bytes));
    found.map(|(key, bump)| (Address { bytes: key.to_bytes() }, bump))
}

/// The signing identity derived from these seeds under this program, with the
/// bump that makes it valid; `None` where there is none.
pub open spec fn derived(seeds: Seq<Seq<u8>>, program: Address) -> Option<(Address, u8)> {
    match program_address(seeds, program@) {
        Some((bytes, bump)) => Some((address_of(bytes), bump)),
        None => None,
    }
}

/// The address of this program.
pub open spec fn program_id() -> Address {
    Address {
        bytes: [
            244u8, 213u8, 213u8, 80u8, 155u8, 203u8, 183u8, 73u8,
            192u8, 167u8, 164u8, 45u8, 12u8, 232u8, 85u8, 199u8,
            179u8, 79u8, 6u8, 194u8, 34u8, 172u8, 51u8, 93u8,
            55u8, 58u8, 158u8, 137u8, 204u8, 72u8, 127u8, 219u8,
        ],
    }
}

/// The address of this program.
pub fn id() -> (r: Address)
    ensures
        r == program_id(),
{
    Address {
        bytes: [
            244u8, 213u8, 213u8, 80u8, 155u8, 203u8, 183u8, 73u8,
            192u8, 167u8, 164u8, 45u8, 12u8, 232u8, 85u8, 199u8,
            179u8, 79u8, 6u8, 194u8, 34u8, 172u8, 51u8, 93u8,
            55u8, 58u8, 158u8, 137u8, 204u8, 72u8, 127u8, 219u8,
        ],
    }
}

/// Derives a signing identity: the address and the bump for these seeds under
/// this program. The same seeds and program give the same answer whenever it
/// is asked, at creation and at use.
pub fn derive_authority(seeds: &Vec<Vec<u8>>, program: &Address) -> (r: Option<(Address, u8)>)
    ensures
        r == derived(seeds_view(seeds@), *program),
{
    let found = try_find_program_address(seeds, program);
    proof {
        if let Some((address, bump)) = found {
            lemma_address_by_bytes(address_of(address@), address);
        }
    }
    found
}

} // verus!
