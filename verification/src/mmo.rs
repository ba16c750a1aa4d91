use vstd::prelude::*;
use vstd::arithmetic::div_mod::{lemma_fundamental_div_mod, lemma_mod_multiples_basic};
use crate::lane::Lane;
use crate::compress::{spec_areion512_mmo, areion512_mmo, lemma_areion512_mmo_len};
use crate::buffer::{BlockBuffer, MAX_MSG_LEN, lane_at};
use crate::pad::{spec_md_pad, spec_md_pad_tail, lemma_md_pad_len, md_tail};

verus! {

broadcast use vstd::array::group_array_axioms;

/// First lane of the fixed initialization vector of the
/// Matyas–Meyer–Oseas mode, distinct from the serial mode's.
pub open spec fn spec_mmo_iv0() -> Seq<u8> {
    seq![
        0x51, 0x0e, 0x52, 0x7f, 0xad, 0xe6, 0x82, 0xd1,
        0x9b, 0x05, 0x68, 0x8c, 0x2b, 0x3e, 0x6c, 0x1f,
    ]
}

/// Second lane of the fixed initialization vector of the
/// Matyas–Meyer–Oseas mode.
pub open spec fn spec_mmo_iv1() -> Seq<u8> {
    seq![
        0x1f, 0x83, 0xd9, 0xab, 0xfb, 0x41, 0xbd, 0x6b,
        0x5b, 0xe0, 0xcd, 0x19, 0x13, 0x7e, 0x21, 0x79,
    ]
}

/// Builds the fixed initialization vector as a pair of lanes.
pub fn mmo_iv() -> (r: (Lane, Lane))
    ensures
        r.0@ == spec_mmo_iv0(),
        r.1@ == spec_mmo_iv1(),
{
    let h0: Lane = [
        0x51, 0x0e, 0x52, 0x7f, 0xad, 0xe6, 0x82, 0xd1,
        0x9b, 0x05, 0x68, 0x8c, 0x2b, 0x3e, 0x6c, 0x1f,
    ];
    let h1: Lane = [
        0x1f, 0x83, 0xd9, 0xab, 0xfb, 0x41, 0xbd, 0x6b,
        0x5b, 0xe0, 0xcd, 0x19, 0x13, 0x7e, 0x21, 0x79,
    ];
    assert(h0@ =~= spec_mmo_iv0());
    assert(h1@ =~= spec_mmo_iv1());
    (h0, h1)
}

/// Chains the Matyas–Meyer–Oseas compression over every full leading
/// 32-byte block of `m`, starting from the chaining pair `(h0, h1)`: each
/// block's result only serves as the next call's state argument, the
/// feed-forward inside the compression being of the message lanes.
pub open spec fn spec_mmo_absorb(h0: Seq<u8>, h1: Seq<u8>, m: Seq<u8>) -> (Seq<u8>, Seq<u8>)
    decreases m.len(),
{
    if m.len() < 32 {
        (h0, h1)
    } else {
        let (g0, g1) = spec_areion512_mmo(m.subrange(0, 16), m.subrange(16, 32), h0, h1);
        spec_mmo_absorb(g0, g1, m.skip(32))
    }
}

/// Absorbing a block-aligned prefix and then the rest equals absorbing the
/// whole stream at once: the block layer cannot tell how the bytes arrived.
pub proof fn lemma_mmo_absorb_append(h0: Seq<u8>, h1: Seq<u8>, a: Seq<u8>, b: Seq<u8>)
    requires
        a.len() % 32 == 0,
    ensures
        spec_mmo_absorb(h0, h1, a + b) == {
            let (g0, g1) = spec_mmo_absorb(h0, h1, a);
            spec_mmo_absorb(g0, g1, b)
        },
    decreases a.len(),
{
    if a.len() == 0 {
        assert(a + b =~= b);
    } else {
        if a.len() < 32 {
            vstd::arithmetic::div_mod::lemma_small_mod(a.len(), 32);
        }
        let (g0, g1) = spec_areion512_mmo(a.subrange(0, 16), a.subrange(16, 32), h0, h1);
        assert((a + b).subrange(0, 16) =~= a.subrange(0, 16));
        assert((a + b).subrange(16, 32) =~= a.subrange(16, 32));
        assert((a + b).skip(32) =~= a.skip(32) + b);
        assert(a.skip(32).len() % 32 == 0) by {
            vstd::arithmetic::div_mod::lemma_mod_multiples_vanish(1, a.len() - 32, 32);
        }
        lemma_mmo_absorb_append(g0, g1, a.skip(32), b);
    }
}

/// The chaining pair keeps its 16-byte lane shape through any absorption.
pub proof fn lemma_mmo_absorb_len(h0: Seq<u8>, h1: Seq<u8>, m: Seq<u8>)
    requires
        h0.len() == 16,
        h1.len() == 16,
    ensures
        spec_mmo_absorb(h0, h1, m).0.len() == 16,
        spec_mmo_absorb(h0, h1, m).1.len() == 16,
    decreases m.len(),
{
    if m.len() >= 32 {
        let (g0, g1) = spec_areion512_mmo(m.subrange(0, 16), m.subrange(16, 32), h0, h1);
        lemma_areion512_mmo_len(m.subrange(0, 16), m.subrange(16, 32), h0, h1);
        lemma_mmo_absorb_len(g0, g1, m.skip(32));
    }
}

/// The digest of the Matyas–Meyer–Oseas mode as a function of the whole
/// message: pad exactly as the serial mode does, absorb from the fixed
/// initialization vector, and serialize the two final chaining lanes.
pub open spec fn spec_mmo_digest(m: Seq<u8>) -> Seq<u8> {
    let (g0, g1) = spec_mmo_absorb(spec_mmo_iv0(), spec_mmo_iv1(), spec_md_pad(m));
    g0 + g1
}

/// The Matyas–Meyer–Oseas mode digests exactly 32 bytes, whatever the
/// message.
pub proof fn lemma_mmo_digest_len(m: Seq<u8>)
    ensures
        spec_mmo_digest(m).len() == 32,
{
    lemma_mmo_absorb_len(spec_mmo_iv0(), spec_mmo_iv1(), spec_md_pad(m));
}

/// Streaming hasher of the Matyas–Meyer–Oseas mode over the 512-bit
/// permutation: the same blocks, padding and digest size as the serial
/// mode, but the compression feeds the message forward instead of the
/// chaining value. Its abstract value is the sequence of bytes streamed so
/// far; the digest is a function of that sequence alone.
pub struct MmoCore {
    h0: Lane,
    h1: Lane,
    block_len: u64,
    buffer: BlockBuffer,
    msg: Ghost<Seq<u8>>,
}

impl View for MmoCore {
    type V = Seq<u8>;

    closed spec fn view(&self) -> Seq<u8> {
        self.msg@
    }
}

impl MmoCore {
    /// The hasher is well formed: the buffered remainder and the chaining
    /// lanes agree with the bytes streamed so far.
    pub closed spec fn wf(&self) -> bool {
        &&& self.msg@.len() <= MAX_MSG_LEN
        &&& self.block_len as int * 32 + self.buffer@.len() == self.msg@.len()
        &&& self.buffer@.len() < 32
        &&& self.buffer@ == self.msg@.skip(self.block_len as int * 32)
        &&& (self.h0@, self.h1@) == spec_mmo_absorb(
            spec_mmo_iv0(),
            spec_mmo_iv1(),
            self.msg@.take(self.block_len as int * 32),
        )
    }

    /// A fresh hasher over the empty stream.
    pub fn new() -> (r: MmoCore)
        ensures
            r.wf(),
            r@ == Seq::<u8>::empty(),
    {
        let (h0, h1) = mmo_iv();
        let r = MmoCore {
            h0,
            h1,
            block_len: 0,
            buffer: BlockBuffer::new(),
            msg: Ghost(Seq::empty()),
        };
        proof {
            assert(r.msg@.take(0) =~= Seq::<u8>::empty());
            assert(r.msg@.skip(0) =~= Seq::<u8>::empty());
        }
        r
    }

    /// Appends bytes to the stream. Chunking is immaterial: only the
    /// concatenation of everything streamed determines the digest.
    pub fn update(&mut self, data: &[u8])
        requires
            old(self).wf(),
            old(self)@.len() + data@.len() <= MAX_MSG_LEN,
        ensures
            final(self).wf(),
            final(self)@ == old(self)@ + data@,
    {
        let ghost pre = self.msg@;
        let dlen: usize = data.len();
        let mut i: usize = 0;
        while i < dlen
            invariant
                self.wf(),
                i <= data@.len(),
                dlen == data@.len(),
                self.msg@ == pre + data@.subrange(0, i as int),
                pre.len() + data@.len() <= MAX_MSG_LEN,
            decreases data@.len() - i,
        {
            let ghost msg0 = self.msg@;
            let ghost buf0 = self.buffer@;
            let ghost bl0 = self.block_len as int;
            let n = self.buffer.fill(data, i);
            let ghost chunk = data@.subrange(i as int, i + n);
            self.msg = Ghost(self.msg@ + chunk);
            proof {
                assert(pre + data@.subrange(0, i + n) =~= (pre + data@.subrange(0, i as int))
                    + chunk);
            }
            if self.buffer.len() == 32 {
                let (m0, m1) = self.buffer.drain_lanes();
                let (g0, g1) = areion512_mmo(m0, m1, self.h0, self.h1);
                self.h0 = g0;
                self.h1 = g1;
                proof {
                    assert(self.block_len as int * 32 < MAX_MSG_LEN);
                }
                self.block_len = self.block_len + 1;
                proof {
                    let blockb = buf0 + chunk;
                    let full0 = msg0.take(bl0 * 32);
                    assert(blockb.len() == 32);
                    assert(self.msg@.take((bl0 + 1) * 32) =~= full0 + blockb);
                    lemma_mod_multiples_basic(bl0, 32);
                    lemma_mmo_absorb_append(spec_mmo_iv0(), spec_mmo_iv1(), full0, blockb);
                    assert(m0@ =~= blockb.subrange(0, 16));
                    assert(m1@ =~= blockb.subrange(16, 32));
                    assert(spec_mmo_absorb(g0@, g1@, blockb.skip(32)) == (g0@, g1@));
                    assert((self.h0@, self.h1@) == spec_mmo_absorb(
                        spec_mmo_iv0(),
                        spec_mmo_iv1(),
                        self.msg@.take(self.block_len as int * 32),
                    ));
                    assert(self.msg@.skip(self.block_len as int * 32)
                        =~= Seq::<u8>::empty());
                }
            } else {
                proof {
                    assert(self.msg@.take(bl0 * 32) =~= msg0.take(bl0 * 32));
                    assert(self.msg@.skip(bl0 * 32) =~= buf0 + chunk);
                }
            }
            i += n;
        }
        proof {
            assert(pre + data@.subrange(0, data@.len() as int) =~= pre + data@);
        }
    }

    /// Computes the digest of the bytes streamed so far without disturbing
    /// the stream: pads, absorbs the tail blocks, and serializes the final
    /// chaining lanes.
    fn digest_core(&self) -> (d: Vec<u8>)
        requires
            self.wf(),
        ensures
            d@ == spec_mmo_digest(self@),
            d@.len() == 32,
    {
        let total: u64 = self.block_len * 32 + self.buffer.len() as u64;
        let buffered = self.buffer.copy_bytes();
        let tail = md_tail(&buffered, total);
        let ghost full = self.msg@.take(self.block_len as int * 32);
        let ghost padded = spec_md_pad(self.msg@);
        proof {
            lemma_md_pad_len(self.msg@);
            assert(padded =~= full + tail@);
            lemma_fundamental_div_mod(padded.len() as int, 32);
            assert(tail@.len() == 32 || tail@.len() == 64);
        }
        let mut h0 = self.h0;
        let mut h1 = self.h1;
        let mut off: usize = 0;
        while off < tail.len()
            invariant
                tail@.len() == 32 || tail@.len() == 64,
                off == 0 || off == 32 || off == 64,
                off <= tail@.len(),
                (h0@, h1@) == spec_mmo_absorb(
                    spec_mmo_iv0(),
                    spec_mmo_iv1(),
                    full + tail@.subrange(0, off as int),
                ),
                full.len() == self.block_len as int * 32,
                self.block_len as int * 32 <= MAX_MSG_LEN,
            decreases tail@.len() - off,
        {
            let m0 = lane_at(&tail, off);
            let m1 = lane_at(&tail, off + 16);
            let (g0, g1) = areion512_mmo(m0, m1, h0, h1);
            let ghost a = full + tail@.subrange(0, off as int);
            let ghost blockb = tail@.subrange(off as int, off + 32);
            proof {
                lemma_mod_multiples_basic(self.block_len as int, 32);
                lemma_mod_multiples_basic(self.block_len as int + 1, 32);
                lemma_mmo_absorb_append(spec_mmo_iv0(), spec_mmo_iv1(), a, blockb);
                assert(full + tail@.subrange(0, off + 32) =~= a + blockb);
                assert(m0@ =~= blockb.subrange(0, 16));
                assert(m1@ =~= blockb.subrange(16, 32));
                assert(spec_mmo_absorb(g0@, g1@, blockb.skip(32)) == (g0@, g1@));
            }
            h0 = g0;
            h1 = g1;
            off += 32;
        }
        proof {
            assert(tail@.subrange(0, tail@.len() as int) =~= tail@);
            assert((h0@, h1@) == spec_mmo_absorb(spec_mmo_iv0(), spec_mmo_iv1(), padded));
            lemma_mmo_absorb_len(spec_mmo_iv0(), spec_mmo_iv1(), padded);
        }
        let mut d: Vec<u8> = Vec::new();
        let mut k: usize = 0;
        assert(h0@.subrange(0, 0) =~= Seq::<u8>::empty());
        while k < 16
            invariant
                k <= 16,
                d@ == h0@.subrange(0, k as int),
            decreases 16 - k,
        {
            d.push(h0[k]);
            proof {
                assert(h0@.subrange(0, k + 1) =~= h0@.subrange(0, k as int)
                    + seq![h0@[k as int]]);
            }
            k += 1;
        }
        proof {
            assert(h0@.subrange(0, 16) =~= h0@);
            assert(h1@.subrange(0, 0) =~= Seq::<u8>::empty());
            assert(d@ =~= h0@ + h1@.subrange(0, 0));
        }
        let mut k2: usize = 0;
        while k2 < 16
            invariant
                k2 <= 16,
                d@ == h0@ + h1@.subrange(0, k2 as int),
            decreases 16 - k2,
        {
            d.push(h1[k2]);
            proof {
                assert(h1@.subrange(0, k2 + 1) =~= h1@.subrange(0, k2 as int)
                    + seq![h1@[k2 as int]]);
                assert(h0@ + h1@.subrange(0, k2 + 1) =~= (h0@ + h1@.subrange(0, k2 as int))
                    + seq![h1@[k2 as int]]);
            }
            k2 += 1;
        }
        proof {
            assert(h1@.subrange(0, 16) =~= h1@);
            assert(d@ == spec_mmo_digest(self@));
        }
        d
    }

    /// Finishes the stream and emits the digest. Taking the hasher by value
    /// makes use after finalization impossible.
    pub fn finalize(self) -> (d: Vec<u8>)
        requires
            self.wf(),
        ensures
            d@ == spec_mmo_digest(self@),
            d@.len() == 32,
    {
        self.digest_core()
    }

    /// Emits the digest and returns the hasher to its initial state, ready
    /// for a fresh message.
    pub fn finalize_reset(&mut self) -> (d: Vec<u8>)
        requires
            old(self).wf(),
        ensures
            d@ == spec_mmo_digest(old(self)@),
            d@.len() == 32,
            final(self).wf(),
            final(self)@ == Seq::<u8>::empty(),
    {
        let d = self.digest_core();
        self.reset();
        d
    }

    /// Returns the hasher to its initial state, as if newly constructed.
    pub fn reset(&mut self)
        ensures
            final(self).wf(),
            final(self)@ == Seq::<u8>::empty(),
    {
        *self = MmoCore::new();
    }

    /// The number of bytes streamed so far.
    pub fn message_len(&self) -> (n: u64)
        requires
            self.wf(),
        ensures
            n == self@.len(),
    {
        self.block_len * 32 + self.buffer.len() as u64
    }
}

} // verus!
