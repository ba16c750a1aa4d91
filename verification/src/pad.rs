use vstd::prelude::*;
use crate::buffer::MAX_MSG_LEN;
use crate::compress::{spec_be64, be64_bytes};

verus! {

/// The strengthening pad appended after a message of `len` bytes: a 0x80
/// marker byte, the least number of zero bytes that lands the total on a
/// 32-byte block boundary, and the bit length of the message as a 64-bit
/// big-endian field.
pub open spec fn spec_md_pad_tail(len: nat) -> Seq<u8> {
    seq![0x80u8] + Seq::new(((55 - len % 32) % 32) as nat, |i: int| 0u8)
        + spec_be64((8 * len) as u64)
}

/// A message followed by its strengthening pad: what the serial modes
/// actually compress.
pub open spec fn spec_md_pad(m: Seq<u8>) -> Seq<u8> {
    m + spec_md_pad_tail(m.len())
}

/// The pad closes every message on a block boundary, adding one tail block
/// when the marker and the length field still fit after the message's last
/// partial block and two when they do not.
pub proof fn lemma_md_pad_len(m: Seq<u8>)
    ensures
        spec_md_pad(m).len() == if m.len() % 32 <= 23 {
            m.len() + 32 - m.len() % 32
        } else {
            m.len() + 64 - m.len() % 32
        },
        spec_md_pad(m).len() % 32 == 0,
{
    let len = m.len() as int;
    let r = len % 32;
    let z = (55 - r) % 32;
    vstd::arithmetic::div_mod::lemma_mod_bound(len, 32);
    lemma_pad_gap(len);
    vstd::arithmetic::div_mod::lemma_fundamental_div_mod(len, 32);
    let q = len / 32;
    assert(spec_md_pad(m).len() == len + 1 + z + 8);
    if r <= 23 {
        assert(len + 1 + z + 8 == 32 * (q + 1));
        vstd::arithmetic::div_mod::lemma_mod_multiples_basic(q + 1, 32);
    } else {
        assert(len + 1 + z + 8 == 32 * (q + 2));
        vstd::arithmetic::div_mod::lemma_mod_multiples_basic(q + 2, 32);
    }
}

/// The zero-byte count of the pad, written without the inner modulus.
proof fn lemma_pad_gap(len: int)
    requires
        len >= 0,
    ensures
        (55 - len % 32) % 32 == if len % 32 <= 23 { 23 - len % 32 } else { 55 - len % 32 },
{
    let r = len % 32;
    vstd::arithmetic::div_mod::lemma_mod_bound(len, 32);
    if r <= 23 {
        vstd::arithmetic::div_mod::lemma_mod_multiples_vanish(1, 23 - r, 32);
        vstd::arithmetic::div_mod::lemma_small_mod((23 - r) as nat, 32);
    } else {
        vstd::arithmetic::div_mod::lemma_small_mod((55 - r) as nat, 32);
    }
}

/// Builds the tail the serial modes compress after the last streamed byte:
/// the still-buffered partial block followed by the strengthening pad for a
/// message of `total` bytes.
pub fn md_tail(buffered: &Vec<u8>, total: u64) -> (t: Vec<u8>)
    requires
        total <= MAX_MSG_LEN,
    ensures
        t@ == buffered@ + spec_md_pad_tail(total as nat),
{
    let mut t: Vec<u8> = Vec::new();
    let mut k: usize = 0;
    while k < buffered.len()
        invariant
            k <= buffered@.len(),
            t@ == buffered@.subrange(0, k as int),
        decreases buffered@.len() - k,
    {
        t.push(buffered[k]);
        proof {
            assert(buffered@.subrange(0, k + 1) =~= buffered@.subrange(0, k as int)
                + seq![buffered@[k as int]]);
        }
        k += 1;
    }
    assert(t@ =~= buffered@);
    t.push(0x80);
    let rem: u64 = total % 32;
    let z: u64 = if rem < 24 { 23 - rem } else { 55 - rem };
    proof {
        lemma_pad_gap(total as int);
    }
    assert(z as int == (55 - (total as nat) % 32) % 32);
    let mut c: u64 = 0;
    while c < z
        invariant
            c <= z,
            t@ == buffered@ + seq![0x80u8] + Seq::new(c as nat, |i: int| 0u8),
        decreases z - c,
    {
        t.push(0);
        proof {
            assert(Seq::new((c + 1) as nat, |i: int| 0u8) =~= Seq::new(c as nat, |i: int| 0u8)
                + seq![0u8]);
        }
        c += 1;
    }
    let b = be64_bytes(8 * total);
    t.push(b[0]);
    t.push(b[1]);
    t.push(b[2]);
    t.push(b[3]);
    t.push(b[4]);
    t.push(b[5]);
    t.push(b[6]);
    t.push(b[7]);
    proof {
        assert((8 * total) as u64 == (8 * (total as nat)) as u64);
        assert(t@ =~= buffered@ + spec_md_pad_tail(total as nat));
    }
    t
}

} // verus!
