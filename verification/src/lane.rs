use vstd::prelude::*;
use crate::sbox::{sbox, sub_byte};

verus! {

broadcast use vstd::array::group_array_axioms;

/// A 128-bit lane of the permutation state, held as 16 bytes in serialized
/// order: byte `i` of the lane is byte `i` of its encoding.
pub type Lane = [u8; 16];

/// Bytewise exclusive or of two equal-length byte strings.
pub open spec fn xor_bytes(a: Seq<u8>, b: Seq<u8>) -> Seq<u8> {
    Seq::new(a.len(), |i: int| a[i] ^ b[i])
}

/// The AES ShiftRows step on a lane in column-major byte order: row `r` of
/// the 4x4 state is rotated left by `r` cells.
pub open spec fn spec_shift_rows(a: Seq<u8>) -> Seq<u8> {
    seq![
        a[0], a[5], a[10], a[15],
        a[4], a[9], a[14], a[3],
        a[8], a[13], a[2], a[7],
        a[12], a[1], a[6], a[11],
    ]
}

/// The AES SubBytes step: every byte through the S-box.
pub open spec fn spec_sub_bytes(a: Seq<u8>) -> Seq<u8> {
    Seq::new(a.len(), |i: int| sbox(a[i]))
}

/// Doubling in GF(2^8) modulo the AES polynomial.
pub open spec fn xtime(b: u8) -> u8 {
    (b << 1) ^ (if b >= 0x80 { 0x1b as u8 } else { 0 as u8 })
}

/// One output byte of the AES MixColumns step: row `r` of a column whose
/// bytes are `a0..a3`.
pub open spec fn spec_mix_col(a0: u8, a1: u8, a2: u8, a3: u8, r: int) -> u8 {
    if r == 0 {
        xtime(a0) ^ xtime(a1) ^ a1 ^ a2 ^ a3
    } else if r == 1 {
        a0 ^ xtime(a1) ^ xtime(a2) ^ a2 ^ a3
    } else if r == 2 {
        a0 ^ a1 ^ xtime(a2) ^ xtime(a3) ^ a3
    } else {
        xtime(a0) ^ a0 ^ a1 ^ a2 ^ xtime(a3)
    }
}

/// The AES MixColumns step on a lane in column-major byte order.
pub open spec fn spec_mix_columns(a: Seq<u8>) -> Seq<u8> {
    Seq::new(16, |i: int| spec_mix_col(a[4 * (i / 4)], a[4 * (i / 4) + 1], a[4 * (i / 4) + 2], a[4 * (i / 4) + 3], i % 4))
}

/// One full AES round with round key `k`: ShiftRows, SubBytes, MixColumns,
/// then the key addition.
#[verifier::opaque]
pub open spec fn spec_aes_enc(a: Seq<u8>, k: Seq<u8>) -> Seq<u8> {
    xor_bytes(spec_mix_columns(spec_sub_bytes(spec_shift_rows(a))), k)
}

/// The final-style AES round with round key `k`: as `spec_aes_enc` but
/// without MixColumns.
#[verifier::opaque]
pub open spec fn spec_aes_enc_last(a: Seq<u8>, k: Seq<u8>) -> Seq<u8> {
    xor_bytes(spec_sub_bytes(spec_shift_rows(a)), k)
}

/// The all-zero lane.
pub open spec fn zero_lane() -> Seq<u8> {
    Seq::new(16, |i: int| 0u8)
}

pub fn xor_lane(a: &Lane, b: &Lane) -> (r: Lane)
    ensures
        r@ == xor_bytes(a@, b@),
{
    let mut r: Lane = [0u8; 16];
    let mut i: usize = 0;
    while i < 16
        invariant
            i <= 16,
            forall|j: int| 0 <= j < i ==> r@[j] == (a@[j] ^ b@[j]),
        decreases 16 - i,
    {
        r[i] = a[i] ^ b[i];
        i += 1;
    }
    assert(r@ =~= xor_bytes(a@, b@));
    r
}

pub fn shift_rows(a: &Lane) -> (r: Lane)
    ensures
        r@ == spec_shift_rows(a@),
{
    let r: Lane = [
        a[0], a[5], a[10], a[15],
        a[4], a[9], a[14], a[3],
        a[8], a[13], a[2], a[7],
        a[12], a[1], a[6], a[11],
    ];
    assert(r@ =~= spec_shift_rows(a@));
    r
}

pub fn sub_bytes(a: &Lane) -> (r: Lane)
    ensures
        r@ == spec_sub_bytes(a@),
{
    let mut r: Lane = [0u8; 16];
    let mut i: usize = 0;
    while i < 16
        invariant
            i <= 16,
            forall|j: int| 0 <= j < i ==> r@[j] == sbox(a@[j]),
        decreases 16 - i,
    {
        r[i] = sub_byte(a[i]);
        i += 1;
    }
    assert(r@ =~= spec_sub_bytes(a@));
    r
}

/// Doubles one byte in GF(2^8).
pub fn xt(b: u8) -> (r: u8)
    ensures
        r == xtime(b),
{
    (b << 1u8) ^ (if b >= 0x80 { 0x1b } else { 0 })
}

pub fn mix_columns(a: &Lane) -> (r: Lane)
    ensures
        r@ == spec_mix_columns(a@),
{
    let mut r: Lane = [0u8; 16];
    let mut c: usize = 0;
    while c < 4
        invariant
            c <= 4,
            forall|j: int| 0 <= j < 4 * c ==> r@[j] == spec_mix_columns(a@)[j],
        decreases 4 - c,
    {
        let base = 4 * c;
        let a0 = a[base];
        let a1 = a[base + 1];
        let a2 = a[base + 2];
        let a3 = a[base + 3];
        r[base] = xt(a0) ^ xt(a1) ^ a1 ^ a2 ^ a3;
        r[base + 1] = a0 ^ xt(a1) ^ xt(a2) ^ a2 ^ a3;
        r[base + 2] = a0 ^ a1 ^ xt(a2) ^ xt(a3) ^ a3;
        r[base + 3] = xt(a0) ^ a0 ^ a1 ^ a2 ^ xt(a3);
        assert forall|j: int| 4 * c <= j < 4 * (c + 1) implies r@[j] == spec_mix_columns(a@)[j] by {
            assert(j / 4 == c);
        }
        c += 1;
    }
    assert(r@ =~= spec_mix_columns(a@));
    r
}

pub fn aes_enc(a: &Lane, k: &Lane) -> (r: Lane)
    ensures
        r@ == spec_aes_enc(a@, k@),
{
    proof {
        reveal(spec_aes_enc);
    }
    let t = shift_rows(a);
    let t = sub_bytes(&t);
    let t = mix_columns(&t);
    xor_lane(&t, k)
}

pub fn aes_enc_last(a: &Lane, k: &Lane) -> (r: Lane)
    ensures
        r@ == spec_aes_enc_last(a@, k@),
{
    proof {
        reveal(spec_aes_enc_last);
    }
    let t = shift_rows(a);
    let t = sub_bytes(&t);
    xor_lane(&t, k)
}

pub fn zeroed_lane() -> (r: Lane)
    ensures
        r@ == zero_lane(),
{
    let r: Lane = [0u8; 16];
    assert(r@ =~= zero_lane());
    r
}

/// A full AES round always yields 16 bytes.
pub proof fn lemma_aes_enc_len(a: Seq<u8>, k: Seq<u8>)
    ensures
        spec_aes_enc(a, k).len() == 16,
{
    reveal(spec_aes_enc);
}

/// A final-style AES round always yields 16 bytes.
pub proof fn lemma_aes_enc_last_len(a: Seq<u8>, k: Seq<u8>)
    ensures
        spec_aes_enc_last(a, k).len() == 16,
{
    reveal(spec_aes_enc_last);
}

} // verus!
