use vstd::prelude::*;
use crate::lane::{Lane, xor_bytes, xor_lane};
use crate::perm::{spec_areion256, spec_areion512, areion256, areion512};

verus! {

broadcast use vstd::array::group_array_axioms;

/// Davies–Meyer feed-forward over the 256-bit permutation: the whole input
/// is xored back into the permutation output.
pub open spec fn spec_areion256_dm(x0: Seq<u8>, x1: Seq<u8>) -> (Seq<u8>, Seq<u8>) {
    let (y0, y1) = spec_areion256(x0, x1);
    (xor_bytes(y0, x0), xor_bytes(y1, x1))
}

/// Davies–Meyer compression over the 512-bit permutation, from a 32-byte
/// message pair `(m0, m1)` and a 32-byte chaining pair `(h0, h1)` to the next
/// chaining pair: the permutation runs on `(m0, m1, h0, h1)` and the original
/// chaining lanes are xored back into the corresponding output lanes.
pub open spec fn spec_areion512_dm(m0: Seq<u8>, m1: Seq<u8>, h0: Seq<u8>, h1: Seq<u8>) -> (Seq<u8>, Seq<u8>) {
    let (y0, y1, y2, y3) = spec_areion512(m0, m1, h0, h1);
    (xor_bytes(y2, h0), xor_bytes(y3, h1))
}

/// Matyas–Meyer–Oseas compression over the 512-bit permutation: as the
/// Davies–Meyer form, but the feed-forward xors the message lanes back into
/// the corresponding output lanes instead of the chaining lanes.
pub open spec fn spec_areion512_mmo(m0: Seq<u8>, m1: Seq<u8>, h0: Seq<u8>, h1: Seq<u8>) -> (Seq<u8>, Seq<u8>) {
    let (y0, y1, y2, y3) = spec_areion512(m0, m1, h0, h1);
    (xor_bytes(y0, m0), xor_bytes(y1, m1))
}

/// A 64-bit value as eight big-endian bytes.
pub open spec fn spec_be64(x: u64) -> Seq<u8> {
    seq![
        (x >> 56) as u8,
        (x >> 48) as u8,
        (x >> 40) as u8,
        (x >> 32) as u8,
        (x >> 24) as u8,
        (x >> 16) as u8,
        (x >> 8) as u8,
        x as u8,
    ]
}

/// The lane a block counter is folded in as: eight zero bytes followed by
/// the counter in big-endian order.
pub open spec fn spec_ctr_lane(c: u64) -> Seq<u8> {
    Seq::new(8, |i: int| 0u8) + spec_be64(c)
}

/// HAIFA-style compression: Davies–Meyer over the 512-bit permutation with
/// the block counter xored into the second message lane before the
/// permutation runs.
pub open spec fn spec_haifa_compress(m0: Seq<u8>, m1: Seq<u8>, h0: Seq<u8>, h1: Seq<u8>, c: u64) -> (Seq<u8>, Seq<u8>) {
    spec_areion512_dm(m0, xor_bytes(m1, spec_ctr_lane(c)), h0, h1)
}

/// The compressions always yield two 16-byte lanes, whatever was fed in.
pub proof fn lemma_areion512_dm_len(m0: Seq<u8>, m1: Seq<u8>, h0: Seq<u8>, h1: Seq<u8>)
    ensures
        spec_areion512_dm(m0, m1, h0, h1).0.len() == 16,
        spec_areion512_dm(m0, m1, h0, h1).1.len() == 16,
{
    crate::perm::lemma_areion512_len(m0, m1, h0, h1);
}

/// The Matyas–Meyer–Oseas compression also always yields two 16-byte lanes.
pub proof fn lemma_areion512_mmo_len(m0: Seq<u8>, m1: Seq<u8>, h0: Seq<u8>, h1: Seq<u8>)
    ensures
        spec_areion512_mmo(m0, m1, h0, h1).0.len() == 16,
        spec_areion512_mmo(m0, m1, h0, h1).1.len() == 16,
{
    crate::perm::lemma_areion512_len(m0, m1, h0, h1);
}

/// The 256-bit single-block compression function.
pub fn areion256_dm(x0: Lane, x1: Lane) -> (r: (Lane, Lane))
    ensures
        (r.0@, r.1@) == spec_areion256_dm(x0@, x1@),
{
    let (y0, y1) = areion256(x0, x1);
    (xor_lane(&y0, &x0), xor_lane(&y1, &x1))
}

/// The 512-bit Davies–Meyer compression function.
pub fn areion512_dm(m0: Lane, m1: Lane, h0: Lane, h1: Lane) -> (r: (Lane, Lane))
    ensures
        (r.0@, r.1@) == spec_areion512_dm(m0@, m1@, h0@, h1@),
{
    let (_y0, _y1, y2, y3) = areion512(m0, m1, h0, h1);
    (xor_lane(&y2, &h0), xor_lane(&y3, &h1))
}

/// The 512-bit Matyas–Meyer–Oseas compression function.
pub fn areion512_mmo(m0: Lane, m1: Lane, h0: Lane, h1: Lane) -> (r: (Lane, Lane))
    ensures
        (r.0@, r.1@) == spec_areion512_mmo(m0@, m1@, h0@, h1@),
{
    let (y0, y1, _y2, _y3) = areion512(m0, m1, h0, h1);
    (xor_lane(&y0, &m0), xor_lane(&y1, &m1))
}

/// Serializes a 64-bit value as eight big-endian bytes.
pub fn be64_bytes(x: u64) -> (r: [u8; 8])
    ensures
        r@ == spec_be64(x),
{
    let r: [u8; 8] = [
        (x >> 56) as u8,
        (x >> 48) as u8,
        (x >> 40) as u8,
        (x >> 32) as u8,
        (x >> 24) as u8,
        (x >> 16) as u8,
        (x >> 8) as u8,
        x as u8,
    ];
    assert(r@ =~= spec_be64(x));
    r
}

/// Builds the counter lane for a block counter value.
pub fn ctr_lane(c: u64) -> (r: Lane)
    ensures
        r@ == spec_ctr_lane(c),
{
    let b = be64_bytes(c);
    let r: Lane = [
        0, 0, 0, 0, 0, 0, 0, 0,
        b[0], b[1], b[2], b[3], b[4], b[5], b[6], b[7],
    ];
    assert(r@ =~= spec_ctr_lane(c));
    r
}

/// The 512-bit HAIFA compression function for block counter value `c`.
pub fn haifa_compress(m0: Lane, m1: Lane, h0: Lane, h1: Lane, c: u64) -> (r: (Lane, Lane))
    ensures
        (r.0@, r.1@) == spec_haifa_compress(m0@, m1@, h0@, h1@, c),
{
    let cl = ctr_lane(c);
    let m1c = xor_lane(&m1, &cl);
    areion512_dm(m0, m1c, h0, h1)
}

} // verus!
