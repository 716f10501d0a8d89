//! The bytes of stored fields: addresses as they are, integers in
//! little-endian two's complement.

use vstd::prelude::*;
use crate::address::{address_of, lemma_address_by_bytes, Address};

verus! {

/// The unsigned number that stands for `x` in 64-bit two's complement.
pub open spec fn unsigned_of(x: i64) -> int {
    if x >= 0 {
        x as int
    } else {
        x + 0x1_0000_0000_0000_0000
    }
}

/// The signed number that `u` stands for in 64-bit two's complement.
pub open spec fn signed_of(u: int) -> int {
    if u < 0x8000_0000_0000_0000 {
        u
    } else {
        u - 0x1_0000_0000_0000_0000
    }
}

/// The eight bytes of an unsigned number below 2^64, lowest first.
pub open spec fn le_bytes(u: int) -> Seq<u8> {
    seq![
        (u % 0x100) as u8,
        (u / 0x100 % 0x100) as u8,
        (u / 0x1_0000 % 0x100) as u8,
        (u / 0x100_0000 % 0x100) as u8,
        (u / 0x1_0000_0000 % 0x100) as u8,
        (u / 0x100_0000_0000 % 0x100) as u8,
        (u / 0x1_0000_0000_0000 % 0x100) as u8,
        (u / 0x100_0000_0000_0000 % 0x100) as u8,
    ]
}

/// The unsigned number whose bytes, lowest first, are the first eight of
/// `bytes`.
pub open spec fn le_value(bytes: Seq<u8>) -> int {
    bytes[0] + bytes[1] * 0x100 + bytes[2] * 0x1_0000 + bytes[3] * 0x100_0000 + bytes[4]
        * 0x1_0000_0000 + bytes[5] * 0x100_0000_0000 + bytes[6] * 0x1_0000_0000_0000 + bytes[7]
        * 0x100_0000_0000_0000
}

/// The eight bytes that store a signed 64-bit number.
pub open spec fn i64_bytes(x: i64) -> Seq<u8> {
    le_bytes(unsigned_of(x))
}

/// The signed 64-bit number that the first eight of `bytes` store.
pub open spec fn i64_of(bytes: Seq<u8>) -> i64 {
    signed_of(le_value(bytes)) as i64
}

/// Reading back what was written gives the number that was written.
pub proof fn lemma_i64_round_trip(x: i64)
    ensures
        i64_bytes(x).len() == 8,
        i64_of(i64_bytes(x)) == x,
{
    lemma_le_round_trip(unsigned_of(x));
}

/// The bytes of a number below 2^64 sum up to it again.
pub proof fn lemma_le_round_trip(u: int)
    requires
        0 <= u < 0x1_0000_0000_0000_0000,
    ensures
        le_bytes(u).len() == 8,
        le_value(le_bytes(u)) == u,
{
    let q1 = u / 0x100;
    let q2 = q1 / 0x100;
    let q3 = q2 / 0x100;
    let q4 = q3 / 0x100;
    let q5 = q4 / 0x100;
    let q6 = q5 / 0x100;
    let q7 = q6 / 0x100;
    assert(u / 0x1_0000 == q2);
    assert(u / 0x100_0000 == q3);
    assert(u / 0x1_0000_0000 == q4);
    assert(u / 0x100_0000_0000 == q5);
    assert(u / 0x1_0000_0000_0000 == q6);
    assert(u / 0x100_0000_0000_0000 == q7);
    assert(q7 < 0x100);
    let b = le_bytes(u);
    assert(b[0] == u % 0x100);
    assert(b[1] == q1 % 0x100);
    assert(b[2] == q2 % 0x100);
    assert(b[3] == q3 % 0x100);
    assert(b[4] == q4 % 0x100);
    assert(b[5] == q5 % 0x100);
    assert(b[6] == q6 % 0x100);
    assert(b[7] == q7);
    assert(q6 == b[6] + q7 * 0x100);
    assert(q5 == b[5] + q6 * 0x100);
    assert(q4 == b[4] + q5 * 0x100);
    assert(q3 == b[3] + q4 * 0x100);
    assert(q2 == b[2] + q3 * 0x100);
    assert(q1 == b[1] + q2 * 0x100);
    assert(u == b[0] + q1 * 0x100);
}

/// Appends the eight bytes of `x` to `out`.
pub fn write_i64(out: &mut Vec<u8>, x: i64)
    ensures
        final(out)@ == old(out)@ + i64_bytes(x),
{
    let u: u64 = if x >= 0 {
        x as u64
    } else {
        (x - i64::MIN) as u64 + 0x8000_0000_0000_0000
    };
    assert(u == unsigned_of(x));
    let ghost before = out@;
    out.push((u % 0x100) as u8);
    out.push((u / 0x100 % 0x100) as u8);
    out.push((u / 0x1_0000 % 0x100) as u8);
    out.push((u / 0x100_0000 % 0x100) as u8);
    out.push((u / 0x1_0000_0000 % 0x100) as u8);
    out.push((u / 0x100_0000_0000 % 0x100) as u8);
    out.push((u / 0x1_0000_0000_0000 % 0x100) as u8);
    out.push((u / 0x100_0000_0000_0000 % 0x100) as u8);
    assert(out@ =~= before + i64_bytes(x));
}

/// Reads the signed 64-bit number stored at `at`.
pub fn read_i64(buf: &[u8], at: usize) -> (r: i64)
    requires
        at + 8 <= buf@.len(),
    ensures
        r == i64_of(buf@.subrange(at as int, at + 8)),
{
    let ghost part = buf@.subrange(at as int, at + 8);
    let u: u64 = buf[at] as u64 + buf[at + 1] as u64 * 0x100 + buf[at + 2] as u64 * 0x1_0000
        + buf[at + 3] as u64 * 0x100_0000 + buf[at + 4] as u64 * 0x1_0000_0000 + buf[at + 5] as u64
        * 0x100_0000_0000 + buf[at + 6] as u64 * 0x1_0000_0000_0000 + buf[at + 7] as u64
        * 0x100_0000_0000_0000;
    assert(u == le_value(part));
    if u < 0x8000_0000_0000_0000 {
        u as i64
    } else {
        (u - 0x8000_0000_0000_0000) as i64 + i64::MIN
    }
}

/// Appends the 32 bytes of an address to `out`.
pub fn write_address(out: &mut Vec<u8>, address: &Address)
    ensures
        final(out)@ == old(out)@ + address@,
{
    let ghost before = out@;
    let mut i: usize = 0;
    while i < 32
        invariant
            0 <= i <= 32,
            out@.len() == before.len() + i,
            forall|j: int| 0 <= j < before.len() ==> out@[j] == before[j],
            forall|j: int| 0 <= j < i ==> out@[before.len() + j] == address.bytes[j],
        decreases 32 - i,
    {
        out.push(address.bytes[i]);
        i += 1;
    }
    assert(out@ =~= before + address@);
}

/// Reads the address stored at `at`.
pub fn read_address(buf: &[u8], at: usize) -> (r: Address)
    requires
        at + 32 <= buf@.len(),
    ensures
        r@ == buf@.subrange(at as int, at + 32),
        r == address_of(buf@.subrange(at as int, at + 32)),
{
    let mut bytes: [u8; 32] = [0u8; 32];
    let len: usize = buf.len();
    let mut i: usize = 0;
    while i < 32
        invariant
            0 <= i <= 32,
            at + 32 <= len == buf@.len(),
            forall|j: int| 0 <= j < i ==> bytes[j] == buf@[at + j],
        decreases 32 - i,
    {
        bytes[i] = buf[at + i];
        i += 1;
    }
    let r = Address { bytes };
    proof {
        assert(r@ =~= buf@.subrange(at as int, at + 32));
        lemma_address_by_bytes(address_of(r@), r);
    }
    r
}

} // verus!
