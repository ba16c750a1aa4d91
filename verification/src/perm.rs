use vstd::prelude::*;
use crate::lane::{Lane, zero_lane, spec_aes_enc, spec_aes_enc_last, aes_enc, aes_enc_last, zeroed_lane, lemma_aes_enc_len, lemma_aes_enc_last_len};

verus! {

broadcast use vstd::array::group_array_axioms;

/// The round constant of round `i`: the bytes of the `i`-th 16-byte group of
/// the fractional hexadecimal digits of pi, in reversed byte order, which is
/// the lane orientation the permutation consumes them in.
pub open spec fn rc(i: int) -> Seq<u8> {
    if i == 0 {
        seq![0x44, 0x73, 0x70, 0x03, 0x2e, 0x8a, 0x19, 0x13, 0xd3, 0x08, 0xa3, 0x85, 0x88, 0x6a, 0x3f, 0x24]
    } else if i == 1 {
        seq![0x89, 0x6c, 0x4e, 0xec, 0x98, 0xfa, 0x2e, 0x08, 0xd0, 0x31, 0x9f, 0x29, 0x22, 0x38, 0x09, 0xa4]
    } else if i == 2 {
        seq![0x6c, 0x0c, 0xe9, 0x34, 0xcf, 0x66, 0x54, 0xbe, 0x77, 0x13, 0xd0, 0x38, 0xe6, 0x21, 0x28, 0x45]
    } else if i == 3 {
        seq![0x17, 0x09, 0x47, 0xb5, 0xb5, 0xd5, 0x84, 0x3f, 0xdd, 0x50, 0x7c, 0xc9, 0xb7, 0x29, 0xac, 0xc0]
    } else if i == 4 {
        seq![0xac, 0xb5, 0xdf, 0x98, 0xa6, 0x0b, 0x31, 0xd1, 0x1b, 0xfb, 0x79, 0x89, 0xd9, 0xd5, 0x16, 0x92]
    } else if i == 5 {
        seq![0x96, 0x7e, 0x26, 0x6a, 0xed, 0xaf, 0xe1, 0xb8, 0xb7, 0xdf, 0x1a, 0xd0, 0xdb, 0x72, 0xfd, 0x2f]
    } else if i == 6 {
        seq![0xf7, 0x6c, 0x91, 0xb3, 0x47, 0x99, 0xa1, 0x24, 0x99, 0x7f, 0x2c, 0xf1, 0x45, 0x90, 0x7c, 0xba]
    } else if i == 7 {
        seq![0x69, 0x4e, 0x57, 0x71, 0xd8, 0x20, 0x69, 0x63, 0x16, 0xfc, 0x8e, 0x85, 0xe2, 0xf2, 0x01, 0x08]
    } else if i == 8 {
        seq![0x58, 0xb6, 0x8e, 0x72, 0x8f, 0x74, 0x95, 0x0d, 0x7e, 0x3d, 0x93, 0xf4, 0xa3, 0xfe, 0x58, 0xa4]
    } else if i == 9 {
        seq![0xb5, 0x59, 0x5a, 0xc2, 0x1d, 0xa4, 0x54, 0x7b, 0xee, 0x4a, 0x15, 0x82, 0x58, 0xcd, 0x8b, 0x71]
    } else if i == 10 {
        seq![0xf0, 0x85, 0x60, 0x28, 0x23, 0xb0, 0xd1, 0xc5, 0x13, 0x60, 0xf2, 0x2a, 0x39, 0xd5, 0x30, 0x9c]
    } else if i == 11 {
        seq![0x0e, 0x18, 0x3a, 0x60, 0xb0, 0xdc, 0x79, 0x8e, 0xef, 0x38, 0xdb, 0xb8, 0x18, 0x79, 0x41, 0xca]
    } else if i == 12 {
        seq![0x27, 0x4b, 0x31, 0xbd, 0xc1, 0x77, 0x15, 0xd7, 0x3e, 0x8a, 0x1e, 0xb0, 0x8b, 0x0e, 0x9e, 0x6c]
    } else if i == 13 {
        seq![0x94, 0xab, 0x55, 0xaa, 0xf3, 0x25, 0x55, 0xe6, 0x60, 0x5c, 0x60, 0x55, 0xda, 0x2f, 0xaf, 0x78]
    } else if i == 14 {
        seq![0xb6, 0x10, 0xab, 0x2a, 0x6a, 0x39, 0xca, 0x55, 0x40, 0x14, 0xe8, 0x63, 0x62, 0x98, 0x48, 0x57]
    } else {
        zero_lane()
    }
}

/// Builds the round constant of round `i` as a lane.
pub fn rc_lane(i: usize) -> (r: Lane)
    requires
        i < 15,
    ensures
        r@ == rc(i as int),
{
    let r: Lane = match i {
        0 => [0x44, 0x73, 0x70, 0x03, 0x2e, 0x8a, 0x19, 0x13, 0xd3, 0x08, 0xa3, 0x85, 0x88, 0x6a, 0x3f, 0x24],
        1 => [0x89, 0x6c, 0x4e, 0xec, 0x98, 0xfa, 0x2e, 0x08, 0xd0, 0x31, 0x9f, 0x29, 0x22, 0x38, 0x09, 0xa4],
        2 => [0x6c, 0x0c, 0xe9, 0x34, 0xcf, 0x66, 0x54, 0xbe, 0x77, 0x13, 0xd0, 0x38, 0xe6, 0x21, 0x28, 0x45],
        3 => [0x17, 0x09, 0x47, 0xb5, 0xb5, 0xd5, 0x84, 0x3f, 0xdd, 0x50, 0x7c, 0xc9, 0xb7, 0x29, 0xac, 0xc0],
        4 => [0xac, 0xb5, 0xdf, 0x98, 0xa6, 0x0b, 0x31, 0xd1, 0x1b, 0xfb, 0x79, 0x89, 0xd9, 0xd5, 0x16, 0x92],
        5 => [0x96, 0x7e, 0x26, 0x6a, 0xed, 0xaf, 0xe1, 0xb8, 0xb7, 0xdf, 0x1a, 0xd0, 0xdb, 0x72, 0xfd, 0x2f],
        6 => [0xf7, 0x6c, 0x91, 0xb3, 0x47, 0x99, 0xa1, 0x24, 0x99, 0x7f, 0x2c, 0xf1, 0x45, 0x90, 0x7c, 0xba],
        7 => [0x69, 0x4e, 0x57, 0x71, 0xd8, 0x20, 0x69, 0x63, 0x16, 0xfc, 0x8e, 0x85, 0xe2, 0xf2, 0x01, 0x08],
        8 => [0x58, 0xb6, 0x8e, 0x72, 0x8f, 0x74, 0x95, 0x0d, 0x7e, 0x3d, 0x93, 0xf4, 0xa3, 0xfe, 0x58, 0xa4],
        9 => [0xb5, 0x59, 0x5a, 0xc2, 0x1d, 0xa4, 0x54, 0x7b, 0xee, 0x4a, 0x15, 0x82, 0x58, 0xcd, 0x8b, 0x71],
        10 => [0xf0, 0x85, 0x60, 0x28, 0x23, 0xb0, 0xd1, 0xc5, 0x13, 0x60, 0xf2, 0x2a, 0x39, 0xd5, 0x30, 0x9c],
        11 => [0x0e, 0x18, 0x3a, 0x60, 0xb0, 0xdc, 0x79, 0x8e, 0xef, 0x38, 0xdb, 0xb8, 0x18, 0x79, 0x41, 0xca],
        12 => [0x27, 0x4b, 0x31, 0xbd, 0xc1, 0x77, 0x15, 0xd7, 0x3e, 0x8a, 0x1e, 0xb0, 0x8b, 0x0e, 0x9e, 0x6c],
        13 => [0x94, 0xab, 0x55, 0xaa, 0xf3, 0x25, 0x55, 0xe6, 0x60, 0x5c, 0x60, 0x55, 0xda, 0x2f, 0xaf, 0x78],
        14 => [0xb6, 0x10, 0xab, 0x2a, 0x6a, 0x39, 0xca, 0x55, 0x40, 0x14, 0xe8, 0x63, 0x62, 0x98, 0x48, 0x57],
        _ => [0u8; 16],
    };
    assert(r@ =~= rc(i as int));
    r
}

/// One round of the 256-bit permutation on branches `(x0, x1)`: the second
/// branch takes two chained AES rounds of the first (the first keyed with the
/// round constant, the second with the old second branch), while the first
/// branch passes through a final-style AES round with a zero key.
pub open spec fn spec_round256(x0: Seq<u8>, x1: Seq<u8>, i: int) -> (Seq<u8>, Seq<u8>) {
    (
        spec_aes_enc_last(x0, zero_lane()),
        spec_aes_enc(spec_aes_enc(x0, rc(i)), x1),
    )
}

/// The 256-bit permutation: ten rounds of `spec_round256`, the two branches
/// swapping roles every round.
#[verifier::opaque]
pub open spec fn spec_areion256(x0: Seq<u8>, x1: Seq<u8>) -> (Seq<u8>, Seq<u8>) {
    let (x0, x1) = spec_round256(x0, x1, 0);
    let (x1, x0) = spec_round256(x1, x0, 1);
    let (x0, x1) = spec_round256(x0, x1, 2);
    let (x1, x0) = spec_round256(x1, x0, 3);
    let (x0, x1) = spec_round256(x0, x1, 4);
    let (x1, x0) = spec_round256(x1, x0, 5);
    let (x0, x1) = spec_round256(x0, x1, 6);
    let (x1, x0) = spec_round256(x1, x0, 7);
    let (x0, x1) = spec_round256(x0, x1, 8);
    let (x1, x0) = spec_round256(x1, x0, 9);
    (x0, x1)
}

/// One round of the 512-bit permutation on lanes `(x0, x1, x2, x3)`: the even
/// lanes feed AES rounds into their odd neighbours, then pass through
/// final-style AES rounds themselves, the first keyed with the round constant
/// and the third with zero.
pub open spec fn spec_round512(x0: Seq<u8>, x1: Seq<u8>, x2: Seq<u8>, x3: Seq<u8>, i: int) -> (Seq<u8>, Seq<u8>, Seq<u8>, Seq<u8>) {
    (
        spec_aes_enc_last(x0, rc(i)),
        spec_aes_enc(x0, x1),
        spec_aes_enc_last(x2, zero_lane()),
        spec_aes_enc(x2, x3),
    )
}

/// The 512-bit permutation: fifteen rounds of `spec_round512`, the four lanes
/// rotating by one position every round.
#[verifier::opaque]
pub open spec fn spec_areion512(x0: Seq<u8>, x1: Seq<u8>, x2: Seq<u8>, x3: Seq<u8>) -> (Seq<u8>, Seq<u8>, Seq<u8>, Seq<u8>) {
    let (x0, x1, x2, x3) = spec_round512(x0, x1, x2, x3, 0);
    let (x1, x2, x3, x0) = spec_round512(x1, x2, x3, x0, 1);
    let (x2, x3, x0, x1) = spec_round512(x2, x3, x0, x1, 2);
    let (x3, x0, x1, x2) = spec_round512(x3, x0, x1, x2, 3);
    let (x0, x1, x2, x3) = spec_round512(x0, x1, x2, x3, 4);
    let (x1, x2, x3, x0) = spec_round512(x1, x2, x3, x0, 5);
    let (x2, x3, x0, x1) = spec_round512(x2, x3, x0, x1, 6);
    let (x3, x0, x1, x2) = spec_round512(x3, x0, x1, x2, 7);
    let (x0, x1, x2, x3) = spec_round512(x0, x1, x2, x3, 8);
    let (x1, x2, x3, x0) = spec_round512(x1, x2, x3, x0, 9);
    let (x2, x3, x0, x1) = spec_round512(x2, x3, x0, x1, 10);
    let (x3, x0, x1, x2) = spec_round512(x3, x0, x1, x2, 11);
    let (x0, x1, x2, x3) = spec_round512(x0, x1, x2, x3, 12);
    let (x1, x2, x3, x0) = spec_round512(x1, x2, x3, x0, 13);
    let (x2, x3, x0, x1) = spec_round512(x2, x3, x0, x1, 14);
    (x0, x1, x2, x3)
}

fn round256(x0: &Lane, x1: &Lane, i: usize) -> (r: (Lane, Lane))
    requires
        i < 15,
    ensures
        (r.0@, r.1@) == spec_round256(x0@, x1@, i as int),
{
    let c = rc_lane(i);
    let z = zeroed_lane();
    let y1 = aes_enc(&aes_enc(x0, &c), x1);
    let y0 = aes_enc_last(x0, &z);
    (y0, y1)
}

/// The 256-bit Areion permutation over two lanes.
pub fn areion256(x0: Lane, x1: Lane) -> (r: (Lane, Lane))
    ensures
        (r.0@, r.1@) == spec_areion256(x0@, x1@),
{
    proof {
        reveal(spec_areion256);
    }
    let (x0, x1) = round256(&x0, &x1, 0);
    let (x1, x0) = round256(&x1, &x0, 1);
    let (x0, x1) = round256(&x0, &x1, 2);
    let (x1, x0) = round256(&x1, &x0, 3);
    let (x0, x1) = round256(&x0, &x1, 4);
    let (x1, x0) = round256(&x1, &x0, 5);
    let (x0, x1) = round256(&x0, &x1, 6);
    let (x1, x0) = round256(&x1, &x0, 7);
    let (x0, x1) = round256(&x0, &x1, 8);
    let (x1, x0) = round256(&x1, &x0, 9);
    (x0, x1)
}

fn round512(x0: &Lane, x1: &Lane, x2: &Lane, x3: &Lane, i: usize) -> (r: (Lane, Lane, Lane, Lane))
    requires
        i < 15,
    ensures
        (r.0@, r.1@, r.2@, r.3@) == spec_round512(x0@, x1@, x2@, x3@, i as int),
{
    let c = rc_lane(i);
    let z = zeroed_lane();
    let y0 = aes_enc_last(x0, &c);
    let y1 = aes_enc(x0, x1);
    let y2 = aes_enc_last(x2, &z);
    let y3 = aes_enc(x2, x3);
    (y0, y1, y2, y3)
}

/// The 512-bit Areion permutation over four lanes.
pub fn areion512(x0: Lane, x1: Lane, x2: Lane, x3: Lane) -> (r: (Lane, Lane, Lane, Lane))
    ensures
        (r.0@, r.1@, r.2@, r.3@) == spec_areion512(x0@, x1@, x2@, x3@),
{
    proof {
        reveal(spec_areion512);
    }
    let (x0, x1, x2, x3) = round512(&x0, &x1, &x2, &x3, 0);
    let (x1, x2, x3, x0) = round512(&x1, &x2, &x3, &x0, 1);
    let (x2, x3, x0, x1) = round512(&x2, &x3, &x0, &x1, 2);
    let (x3, x0, x1, x2) = round512(&x3, &x0, &x1, &x2, 3);
    let (x0, x1, x2, x3) = round512(&x0, &x1, &x2, &x3, 4);
    let (x1, x2, x3, x0) = round512(&x1, &x2, &x3, &x0, 5);
    let (x2, x3, x0, x1) = round512(&x2, &x3, &x0, &x1, 6);
    let (x3, x0, x1, x2) = round512(&x3, &x0, &x1, &x2, 7);
    let (x0, x1, x2, x3) = round512(&x0, &x1, &x2, &x3, 8);
    let (x1, x2, x3, x0) = round512(&x1, &x2, &x3, &x0, 9);
    let (x2, x3, x0, x1) = round512(&x2, &x3, &x0, &x1, 10);
    let (x3, x0, x1, x2) = round512(&x3, &x0, &x1, &x2, 11);
    let (x0, x1, x2, x3) = round512(&x0, &x1, &x2, &x3, 12);
    let (x1, x2, x3, x0) = round512(&x1, &x2, &x3, &x0, 13);
    let (x2, x3, x0, x1) = round512(&x2, &x3, &x0, &x1, 14);
    (x0, x1, x2, x3)
}

/// Both permutations hand back 16-byte lanes, whatever was fed in.
#[verifier::rlimit(100)]
pub proof fn lemma_areion512_len(x0: Seq<u8>, x1: Seq<u8>, x2: Seq<u8>, x3: Seq<u8>)
    ensures
        spec_areion512(x0, x1, x2, x3).0.len() == 16,
        spec_areion512(x0, x1, x2, x3).1.len() == 16,
        spec_areion512(x0, x1, x2, x3).2.len() == 16,
        spec_areion512(x0, x1, x2, x3).3.len() == 16,
{
    reveal(spec_areion512);
    assert forall|a: Seq<u8>, k: Seq<u8>| (#[trigger] spec_aes_enc(a, k)).len() == 16 by {
        lemma_aes_enc_len(a, k);
    }
    assert forall|a: Seq<u8>, k: Seq<u8>| (#[trigger] spec_aes_enc_last(a, k)).len() == 16 by {
        lemma_aes_enc_last_len(a, k);
    }
}

} // verus!
