//! Little-endian byte strings and the integers they encode.

use crate::wide::U256;
use vstd::prelude::*;

verus! {

/// The number that a little-endian byte string encodes.
pub open spec fn le_nat(s: Seq<u8>) -> nat
    decreases s.len(),
{
    if s.len() == 0 {
        0
    } else {
        s[0] as nat + 256 * le_nat(s.drop_first())
    }
}

/// Relies on std's `u64::from_le_bytes`: the integer whose little-endian
/// bytes are `data[at..at + 8]`.
#[verifier::external_body]
pub(crate) fn read_u64(data: &[u8], at: usize) -> (r: u64)
    requires
        at + 8 <= data@.len(),
    ensures
        r as nat == le_nat(data@.subrange(at as int, at + 8)),
{
    u64::from_le_bytes(
        [
            data[at],
            data[at + 1],
            data[at + 2],
            data[at + 3],
            data[at + 4],
            data[at + 5],
            data[at + 6],
            data[at + 7],
        ],
    )
}

/// Relies on std's `u64::to_le_bytes`: the eight little-endian bytes of `v`.
#[verifier::external_body]
pub(crate) fn u64_bytes(v: u64) -> (r: Vec<u8>)
    ensures
        r@.len() == 8,
        le_nat(r@) == v as nat,
{
    v.to_le_bytes().to_vec()
}

/// Relies on uint's `U256::from_little_endian`: the value whose
/// little-endian bytes are `data[at..at + 32]`.
#[verifier::external_body]
pub(crate) fn read_u256(data: &[u8], at: usize) -> (r: U256)
    requires
        at + 32 <= data@.len(),
    ensures
        r@ == le_nat(data@.subrange(at as int, at + 32)),
{
    U256 { limbs: spl_math::uint::U256::from_little_endian(&data[at..at + 32]).0 }
}

/// Relies on uint's `U256::to_little_endian`: the 32 little-endian bytes of
/// `x`.
#[verifier::external_body]
pub(crate) fn u256_bytes(x: &U256) -> (r: Vec<u8>)
    ensures
        r@.len() == 32,
        le_nat(r@) == x@,
{
    let mut out = vec![0u8; 32];
    spl_math::uint::U256(x.limbs).to_little_endian(&mut out);
    out
}

/// Copies `data[at..at + 32]`.
pub fn read_bytes32(data: &[u8], at: usize) -> (r: [u8; 32])
    requires
        at + 32 <= data@.len(),
    ensures
        r@ == data@.subrange(at as int, at + 32),
{
    let n = data.len();
    let mut r = [0u8; 32];
    let mut i: usize = 0;
    while i < 32
        invariant
            0 <= i <= 32,
            n == data@.len(),
            at + 32 <= data@.len(),
            r@.len() == 32,
            forall|j: int| 0 <= j < i ==> r@[j] == data@[at + j],
        decreases 32 - i,
    {
        r[i] = data[at + i];
        i = i + 1;
    }
    assert(r@ =~= data@.subrange(at as int, at + 32));
    r
}

/// Appends `bytes` to `out`.
pub fn put(out: &mut Vec<u8>, bytes: &[u8])
    ensures
        final(out)@ == old(out)@ + bytes@,
{
    out.extend_from_slice(bytes);
}

} // verus!
