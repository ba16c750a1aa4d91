use vstd::prelude::*;
use vstd::arithmetic::div_mod::{lemma_fundamental_div_mod, lemma_mod_multiples_basic};
use crate::lane::Lane;
use crate::compress::{spec_haifa_compress, haifa_compress, lemma_areion512_dm_len};
use crate::buffer::{BlockBuffer, MAX_MSG_LEN, lane_at};
use crate::pad::{spec_md_pad, spec_md_pad_tail, lemma_md_pad_len, md_tail};

verus! {

broadcast use vstd::array::group_array_axioms;

/// First lane of the fixed initialization vector of the HAIFA-style mode,
/// distinct from those of the other serial modes.
pub open spec fn spec_haifa_iv0() -> Seq<u8> {
    seq![
        0x6a, 0x09, 0xe6, 0x67, 0xf3, 0xbc, 0xc9, 0x08,
        0xbb, 0x67, 0xae, 0x85, 0x84, 0xca, 0xa7, 0x3b,
    ]
}

/// Second lane of the fixed initialization vector of the HAIFA-style mode.
pub open spec fn spec_haifa_iv1() -> Seq<u8> {
    seq![
        0x3c, 0x6e, 0xf3, 0x72, 0xfe, 0x94, 0xf8, 0x2b,
        0xa5, 0x4f, 0xf5, 0x3a, 0x5f, 0x1d, 0x36, 0xf1,
    ]
}

/// Builds the fixed initialization vector as a pair of lanes.
pub fn haifa_iv() -> (r: (Lane, Lane))
    ensures
        r.0@ == spec_haifa_iv0(),
        r.1@ == spec_haifa_iv1(),
{
    let h0: Lane = [
        0x6a, 0x09, 0xe6, 0x67, 0xf3, 0xbc, 0xc9, 0x08,
        0xbb, 0x67, 0xae, 0x85, 0x84, 0xca, 0xa7, 0x3b,
    ];
    let h1: Lane = [
        0x3c, 0x6e, 0xf3, 0x72, 0xfe, 0x94, 0xf8, 0x2b,
        0xa5, 0x4f, 0xf5, 0x3a, 0x5f, 0x1d, 0x36, 0xf1,
    ];
    assert(h0@ =~= spec_haifa_iv0());
    assert(h1@ =~= spec_haifa_iv1());
    (h0, h1)
}

/// Chains the HAIFA compression over every full leading 32-byte block of
/// `m`, `done` bytes having been absorbed before `m`: the counter mixed
/// into each call is the number of message bits absorbed once that block
/// is included, so it advances by one block's worth per compression.
pub open spec fn spec_haifa_absorb(h0: Seq<u8>, h1: Seq<u8>, m: Seq<u8>, done: nat) -> (Seq<u8>, Seq<u8>)
    decreases m.len(),
{
    if m.len() < 32 {
        (h0, h1)
    } else {
        let (g0, g1) = spec_haifa_compress(
            m.subrange(0, 16),
            m.subrange(16, 32),
            h0,
            h1,
            (8 * (done + 32)) as u64,
        );
        spec_haifa_absorb(g0, g1, m.skip(32), done + 32)
    }
}

/// Chains the HAIFA compression over every full leading 32-byte block of
/// the finalization tail `t`, every call carrying the same counter `c`: the
/// true bit length of the message, which marks these blocks as final.
pub open spec fn spec_haifa_finish(h0: Seq<u8>, h1: Seq<u8>, t: Seq<u8>, c: u64) -> (Seq<u8>, Seq<u8>)
    decreases t.len(),
{
    if t.len() < 32 {
        (h0, h1)
    } else {
        let (g0, g1) = spec_haifa_compress(t.subrange(0, 16), t.subrange(16, 32), h0, h1, c);
        spec_haifa_finish(g0, g1, t.skip(32), c)
    }
}

/// Absorbing a block-aligned prefix and then the rest, with the byte count
/// carried across, equals absorbing the whole stream at once.
pub proof fn lemma_haifa_absorb_append(h0: Seq<u8>, h1: Seq<u8>, a: Seq<u8>, b: Seq<u8>, done: nat)
    requires
        a.len() % 32 == 0,
    ensures
        spec_haifa_absorb(h0, h1, a + b, done) == {
            let (g0, g1) = spec_haifa_absorb(h0, h1, a, done);
            spec_haifa_absorb(g0, g1, b, done + a.len())
        },
    decreases a.len(),
{
    if a.len() == 0 {
        assert(a + b =~= b);
    } else {
        if a.len() < 32 {
            vstd::arithmetic::div_mod::lemma_small_mod(a.len(), 32);
        }
        let (g0, g1) = spec_haifa_compress(
            a.subrange(0, 16),
            a.subrange(16, 32),
            h0,
            h1,
            (8 * (done + 32)) as u64,
        );
        assert((a + b).subrange(0, 16) =~= a.subrange(0, 16));
        assert((a + b).subrange(16, 32) =~= a.subrange(16, 32));
        assert((a + b).skip(32) =~= a.skip(32) + b);
        assert(a.skip(32).len() % 32 == 0) by {
            vstd::arithmetic::div_mod::lemma_mod_multiples_vanish(1, a.len() - 32, 32);
        }
        lemma_haifa_absorb_append(g0, g1, a.skip(32), b, done + 32);
    }
}

/// Finishing a block-aligned prefix of the tail and then the rest equals
/// finishing the whole tail at once.
pub proof fn lemma_haifa_finish_append(h0: Seq<u8>, h1: Seq<u8>, a: Seq<u8>, b: Seq<u8>, c: u64)
    requires
        a.len() % 32 == 0,
    ensures
        spec_haifa_finish(h0, h1, a + b, c) == {
            let (g0, g1) = spec_haifa_finish(h0, h1, a, c);
            spec_haifa_finish(g0, g1, b, c)
        },
    decreases a.len(),
{
    if a.len() == 0 {
        assert(a + b =~= b);
    } else {
        if a.len() < 32 {
            vstd::arithmetic::div_mod::lemma_small_mod(a.len(), 32);
        }
        let (g0, g1) = spec_haifa_compress(a.subrange(0, 16), a.subrange(16, 32), h0, h1, c);
        assert((a + b).subrange(0, 16) =~= a.subrange(0, 16));
        assert((a + b).subrange(16, 32) =~= a.subrange(16, 32));
        assert((a + b).skip(32) =~= a.skip(32) + b);
        assert(a.skip(32).len() % 32 == 0) by {
            vstd::arithmetic::div_mod::lemma_mod_multiples_vanish(1, a.len() - 32, 32);
        }
        lemma_haifa_finish_append(g0, g1, a.skip(32), b, c);
    }
}

/// The chaining pair keeps its 16-byte lane shape through any absorption.
pub proof fn lemma_haifa_absorb_len(h0: Seq<u8>, h1: Seq<u8>, m: Seq<u8>, done: nat)
    requires
        h0.len() == 16,
        h1.len() == 16,
    ensures
        spec_haifa_absorb(h0, h1, m, done).0.len() == 16,
        spec_haifa_absorb(h0, h1, m, done).1.len() == 16,
    decreases m.len(),
{
    if m.len() >= 32 {
        let c = (8 * (done + 32)) as u64;
        let (g0, g1) = spec_haifa_compress(m.subrange(0, 16), m.subrange(16, 32), h0, h1, c);
        lemma_areion512_dm_len(
            m.subrange(0, 16),
            crate::lane::xor_bytes(m.subrange(16, 32), crate::compress::spec_ctr_lane(c)),
            h0,
            h1,
        );
        lemma_haifa_absorb_len(g0, g1, m.skip(32), done + 32);
    }
}

/// The chaining pair keeps its 16-byte lane shape through finalization.
pub proof fn lemma_haifa_finish_len(h0: Seq<u8>, h1: Seq<u8>, t: Seq<u8>, c: u64)
    requires
        h0.len() == 16,
        h1.len() == 16,
    ensures
        spec_haifa_finish(h0, h1, t, c).0.len() == 16,
        spec_haifa_finish(h0, h1, t, c).1.len() == 16,
    decreases t.len(),
{
    if t.len() >= 32 {
        let (g0, g1) = spec_haifa_compress(t.subrange(0, 16), t.subrange(16, 32), h0, h1, c);
        lemma_areion512_dm_len(
            t.subrange(0, 16),
            crate::lane::xor_bytes(t.subrange(16, 32), crate::compress::spec_ctr_lane(c)),
            h0,
            h1,
        );
        lemma_haifa_finish_len(g0, g1, t.skip(32), c);
    }
}

/// The digest of the HAIFA-style mode as a function of the whole message:
/// the full message blocks are absorbed with running block counters from
/// the fixed initialization vector, the padded tail is compressed with the
/// true message bit length as counter, and the two final chaining lanes
/// are serialized in order.
pub open spec fn spec_haifa_digest(m: Seq<u8>) -> Seq<u8> {
    let aligned = m.len() - m.len() % 32;
    let (g0, g1) = spec_haifa_absorb(spec_haifa_iv0(), spec_haifa_iv1(), m.take(aligned as int), 0);
    let tail = m.skip(aligned as int) + spec_md_pad_tail(m.len());
    let (f0, f1) = spec_haifa_finish(g0, g1, tail, (8 * m.len()) as u64);
    f0 + f1
}

/// The HAIFA-style mode digests exactly 32 bytes, whatever the message.
pub proof fn lemma_haifa_digest_len(m: Seq<u8>)
    ensures
        spec_haifa_digest(m).len() == 32,
{
    let aligned = m.len() - m.len() % 32;
    vstd::arithmetic::div_mod::lemma_mod_bound(m.len() as int, 32);
    let (g0, g1) = spec_haifa_absorb(spec_haifa_iv0(), spec_haifa_iv1(), m.take(aligned as int), 0);
    lemma_haifa_absorb_len(spec_haifa_iv0(), spec_haifa_iv1(), m.take(aligned as int), 0);
    lemma_haifa_finish_len(g0, g1, m.skip(aligned as int) + spec_md_pad_tail(m.len()), (8 * m.len()) as u64);
}

/// Streaming hasher of the HAIFA-style mode over the 512-bit permutation:
/// as the serial Davies–Meyer mode, but every compression call also folds
/// in a monotonically advancing block counter, and the finalization blocks
/// carry the true message bit length instead, which defeats the
/// fixed-point, herding and length-extension weaknesses of the plain
/// serial mode. Its abstract value is the sequence of bytes streamed so
/// far.
pub struct HaifaCore {
    h0: Lane,
    h1: Lane,
    block_len: u64,
    buffer: BlockBuffer,
    msg: Ghost<Seq<u8>>,
}

impl View for HaifaCore {
    type V = Seq<u8>;

    closed spec fn view(&self) -> Seq<u8> {
        self.msg@
    }
}

impl HaifaCore {
    /// The hasher is well formed: the buffered remainder and the chaining
    /// lanes agree with the bytes streamed so far.
    pub closed spec fn wf(&self) -> bool {
        &&& self.msg@.len() <= MAX_MSG_LEN
        &&& self.block_len as int * 32 + self.buffer@.len() == self.msg@.len()
        &&& self.buffer@.len() < 32
        &&& self.buffer@ == self.msg@.skip(self.block_len as int * 32)
        &&& (self.h0@, self.h1@) == spec_haifa_absorb(
            spec_haifa_iv0(),
            spec_haifa_iv1(),
            self.msg@.take(self.block_len as int * 32),
            0,
        )
    }

    /// A fresh hasher over the empty stream, its block counter at the
    /// fixed starting value.
    pub fn new() -> (r: HaifaCore)
        ensures
            r.wf(),
            r@ == Seq::<u8>::empty(),
    {
        let (h0, h1) = haifa_iv();
        let r = HaifaCore {
            h0,
            h1,
            block_len: 0,
            buffer: BlockBuffer::new(),
            msg: Ghost(Seq::empty()),
        };
        proof {
            assert(r.msg@.take(0) =~= Seq::<u8>::empty());
            assert(r.msg@.skip(0) =~= Seq::<u8>::empty());
        }
        r
    }

    /// Appends bytes to the stream. Chunking is immaterial: only the
    /// concatenation of everything streamed determines the digest.
    pub fn update(&mut self, data: &[u8])
        requires
            old(self).wf(),
            old(self)@.len() + data@.len() <= MAX_MSG_LEN,
        ensures
            final(self).wf(),
            final(self)@ == old(self)@ + data@,
    {
        let ghost pre = self.msg@;
        let dlen: usize = data.len();
        let mut i: usize = 0;
        while i < dlen
            invariant
                self.wf(),
                i <= data@.len(),
                dlen == data@.len(),
                self.msg@ == pre + data@.subrange(0, i as int),
                pre.len() + data@.len() <= MAX_MSG_LEN,
            decreases data@.len() - i,
        {
            let ghost msg0 = self.msg@;
            let ghost buf0 = self.buffer@;
            let ghost bl0 = self.block_len as int;
            let n = self.buffer.fill(data, i);
            let ghost chunk = data@.subrange(i as int, i + n);
            self.msg = Ghost(self.msg@ + chunk);
            proof {
                assert(pre + data@.subrange(0, i + n) =~= (pre + data@.subrange(0, i as int))
                    + chunk);
            }
            if self.buffer.len() == 32 {
                proof {
                    assert(self.block_len as int * 32 + 32 <= MAX_MSG_LEN);
                }
                let c: u64 = 8 * ((self.block_len + 1) * 32);
                let (m0, m1) = self.buffer.drain_lanes();
                let (g0, g1) = haifa_compress(m0, m1, self.h0, self.h1, c);
                self.h0 = g0;
                self.h1 = g1;
                self.block_len = self.block_len + 1;
                proof {
                    let blockb = buf0 + chunk;
                    let full0 = msg0.take(bl0 * 32);
                    assert(blockb.len() == 32);
                    assert(self.msg@.take((bl0 + 1) * 32) =~= full0 + blockb);
                    lemma_mod_multiples_basic(bl0, 32);
                    lemma_haifa_absorb_append(spec_haifa_iv0(), spec_haifa_iv1(), full0, blockb, 0);
                    assert(m0@ =~= blockb.subrange(0, 16));
                    assert(m1@ =~= blockb.subrange(16, 32));
                    assert(c == (8 * ((bl0 * 32) as nat + 32)) as u64);
                    assert(spec_haifa_absorb(g0@, g1@, blockb.skip(32), (bl0 * 32 + 32) as nat)
                        == (g0@, g1@));
                    assert((self.h0@, self.h1@) == spec_haifa_absorb(
                        spec_haifa_iv0(),
                        spec_haifa_iv1(),
                        self.msg@.take(self.block_len as int * 32),
                        0,
                    ));
                    assert(self.msg@.skip(self.block_len as int * 32)
                        =~= Seq::<u8>::empty());
                }
            } else {
                proof {
                    assert(self.msg@.take(bl0 * 32) =~= msg0.take(bl0 * 32));
                    assert(self.msg@.skip(bl0 * 32) =~= buf0 + chunk);
                }
            }
            i += n;
        }
        proof {
            assert(pre + data@.subrange(0, data@.len() as int) =~= pre + data@);
        }
    }

    /// Computes the digest of the bytes streamed so far without disturbing
    /// the stream.
    fn digest_core(&self) -> (d: Vec<u8>)
        requires
            self.wf(),
        ensures
            d@ == spec_haifa_digest(self@),
            d@.len() == 32,
    {
        let total: u64 = self.block_len * 32 + self.buffer.len() as u64;
        let buffered = self.buffer.copy_bytes();
        let tail = md_tail(&buffered, total);
        let c: u64 = 8 * total;
        let ghost full = self.msg@.take(self.block_len as int * 32);
        let ghost spec_tail = self.msg@.skip(self.block_len as int * 32)
            + spec_md_pad_tail(self.msg@.len());
        proof {
            vstd::arithmetic::div_mod::lemma_mod_multiples_vanish(
                self.block_len as int,
                self.buffer@.len() as int,
                32,
            );
            vstd::arithmetic::div_mod::lemma_small_mod(self.buffer@.len(), 32);
            assert(self.msg@.len() % 32 == self.buffer@.len());
            assert(full.len() == self.msg@.len() - self.msg@.len() % 32);
            assert(tail@ =~= spec_tail);
            lemma_md_pad_len(self.msg@);
            assert(spec_md_pad(self.msg@) =~= full + tail@);
            lemma_fundamental_div_mod(spec_md_pad(self.msg@).len() as int, 32);
            assert(tail@.len() == 32 || tail@.len() == 64);
            assert(c == (8 * self.msg@.len()) as u64);
        }
        let ghost h_in0 = self.h0@;
        let ghost h_in1 = self.h1@;
        let mut h0 = self.h0;
        let mut h1 = self.h1;
        let mut off: usize = 0;
        proof {
            assert(tail@.subrange(0, 0) =~= Seq::<u8>::empty());
        }
        while off < tail.len()
            invariant
                tail@.len() == 32 || tail@.len() == 64,
                off == 0 || off == 32 || off == 64,
                off <= tail@.len(),
                (h0@, h1@) == spec_haifa_finish(h_in0, h_in1, tail@.subrange(0, off as int), c),
            decreases tail@.len() - off,
        {
            let m0 = lane_at(&tail, off);
            let m1 = lane_at(&tail, off + 16);
            let (g0, g1) = haifa_compress(m0, m1, h0, h1, c);
            let ghost a = tail@.subrange(0, off as int);
            let ghost blockb = tail@.subrange(off as int, off + 32);
            proof {
                lemma_mod_multiples_basic(0, 32);
                lemma_mod_multiples_basic(1, 32);
                lemma_haifa_finish_append(h_in0, h_in1, a, blockb, c);
                assert(tail@.subrange(0, off + 32) =~= a + blockb);
                assert(m0@ =~= blockb.subrange(0, 16));
                assert(m1@ =~= blockb.subrange(16, 32));
                assert(spec_haifa_finish(g0@, g1@, blockb.skip(32), c) == (g0@, g1@));
            }
            h0 = g0;
            h1 = g1;
            off += 32;
        }
        proof {
            assert(tail@.subrange(0, tail@.len() as int) =~= tail@);
            assert((h0@, h1@) == spec_haifa_finish(h_in0, h_in1, spec_tail, c));
            lemma_haifa_absorb_len(spec_haifa_iv0(), spec_haifa_iv1(), full, 0);
            lemma_haifa_finish_len(h_in0, h_in1, spec_tail, c);
        }
        let mut d: Vec<u8> = Vec::new();
        let mut k: usize = 0;
        assert(h0@.subrange(0, 0) =~= Seq::<u8>::empty());
        while k < 16
            invariant
                k <= 16,
                d@ == h0@.subrange(0, k as int),
            decreases 16 - k,
        {
            d.push(h0[k]);
            proof {
                assert(h0@.subrange(0, k + 1) =~= h0@.subrange(0, k as int)
                    + seq![h0@[k as int]]);
            }
            k += 1;
        }
        proof {
            assert(h0@.subrange(0, 16) =~= h0@);
            assert(h1@.subrange(0, 0) =~= Seq::<u8>::empty());
            assert(d@ =~= h0@ + h1@.subrange(0, 0));
        }
        let mut k2: usize = 0;
        while k2 < 16
            invariant
                k2 <= 16,
                d@ == h0@ + h1@.subrange(0, k2 as int),
            decreases 16 - k2,
        {
            d.push(h1[k2]);
            proof {
                assert(h1@.subrange(0, k2 + 1) =~= h1@.subrange(0, k2 as int)
                    + seq![h1@[k2 as int]]);
                assert(h0@ + h1@.subrange(0, k2 + 1) =~= (h0@ + h1@.subrange(0, k2 as int))
                    + seq![h1@[k2 as int]]);
            }
            k2 += 1;
        }
        proof {
            assert(h1@.subrange(0, 16) =~= h1@);
            assert(d@ == spec_haifa_digest(self@));
        }
        d
    }

    /// Finishes the stream and emits the digest. Taking the hasher by value
    /// makes use after finalization impossible.
    pub fn finalize(self) -> (d: Vec<u8>)
        requires
            self.wf(),
        ensures
            d@ == spec_haifa_digest(self@),
            d@.len() == 32,
    {
        self.digest_core()
    }

    /// Emits the digest and returns the hasher to its initial state, ready
    /// for a fresh message.
    pub fn finalize_reset(&mut self) -> (d: Vec<u8>)
        requires
            old(self).wf(),
        ensures
            d@ == spec_haifa_digest(old(self)@),
            d@.len() == 32,
            final(self).wf(),
            final(self)@ == Seq::<u8>::empty(),
    {
        let d = self.digest_core();
        self.reset();
        d
    }

    /// Returns the hasher to its initial state, as if newly constructed.
    pub fn reset(&mut self)
        ensures
            final(self).wf(),
            final(self)@ == Seq::<u8>::empty(),
    {
        *self = HaifaCore::new();
    }

    /// The number of bytes streamed so far.
    pub fn message_len(&self) -> (n: u64)
        requires
            self.wf(),
        ensures
            n == self@.len(),
    {
        self.block_len * 32 + self.buffer.len() as u64
    }
}

} // verus!
