use vstd::prelude::*;
use crate::lane::{Lane, xor_bytes, xor_lane, zero_lane, zeroed_lane};
use crate::perm::{spec_areion512, areion512, lemma_areion512_len};
use crate::buffer::{BlockBuffer, lane_at};

verus! {

broadcast use vstd::array::group_array_axioms;

/// The sponge pad appended after a message of `len` bytes: a 0x80 marker
/// byte, then zero bytes to the end of the 32-byte rate block. Its length
/// depends only on `len` modulo the rate, so distinct messages never pad to
/// the same absorbed stream.
pub open spec fn spec_sponge_pad_tail(len: nat) -> Seq<u8> {
    seq![0x80u8] + Seq::new((31 - len % 32) as nat, |i: int| 0u8)
}

/// A message followed by its sponge pad.
pub open spec fn spec_sponge_pad(m: Seq<u8>) -> Seq<u8> {
    m + spec_sponge_pad_tail(m.len())
}

/// Absorbs every full leading 32-byte block of `m` into the sponge state:
/// the block is xored into the rate lanes (the first two), then the full
/// 512-bit permutation runs. The capacity lanes (the last two) are never
/// touched directly.
pub open spec fn spec_sponge_absorb(
    s: (Seq<u8>, Seq<u8>, Seq<u8>, Seq<u8>),
    m: Seq<u8>,
) -> (Seq<u8>, Seq<u8>, Seq<u8>, Seq<u8>)
    decreases m.len(),
{
    if m.len() < 32 {
        s
    } else {
        let t = spec_areion512(
            xor_bytes(s.0, m.subrange(0, 16)),
            xor_bytes(s.1, m.subrange(16, 32)),
            s.2,
            s.3,
        );
        spec_sponge_absorb(t, m.skip(32))
    }
}

/// Squeezes `n` bytes out of the sponge state: the rate lanes are read out,
/// and the permutation runs again between successive rate-widths of output.
pub open spec fn spec_sponge_squeeze(s: (Seq<u8>, Seq<u8>, Seq<u8>, Seq<u8>), n: nat) -> Seq<u8>
    decreases n,
{
    if n <= 32 {
        (s.0 + s.1).take(n as int)
    } else {
        (s.0 + s.1) + spec_sponge_squeeze(spec_areion512(s.0, s.1, s.2, s.3), (n - 32) as nat)
    }
}

/// The all-zero initial sponge state.
pub open spec fn spec_sponge_init() -> (Seq<u8>, Seq<u8>, Seq<u8>, Seq<u8>) {
    (zero_lane(), zero_lane(), zero_lane(), zero_lane())
}

/// `n` bytes of sponge output as a function of the whole message: pad,
/// absorb into the all-zero state, squeeze.
pub open spec fn spec_sponge_output(m: Seq<u8>, n: nat) -> Seq<u8> {
    spec_sponge_squeeze(spec_sponge_absorb(spec_sponge_init(), spec_sponge_pad(m)), n)
}

/// The 32-byte sponge digest of a message.
pub open spec fn spec_sponge_digest(m: Seq<u8>) -> Seq<u8> {
    spec_sponge_output(m, 32)
}

/// Absorbing a block-aligned prefix and then the rest equals absorbing the
/// whole stream at once.
pub proof fn lemma_sponge_absorb_append(
    s: (Seq<u8>, Seq<u8>, Seq<u8>, Seq<u8>),
    a: Seq<u8>,
    b: Seq<u8>,
)
    requires
        a.len() % 32 == 0,
    ensures
        spec_sponge_absorb(s, a + b) == spec_sponge_absorb(spec_sponge_absorb(s, a), b),
    decreases a.len(),
{
    if a.len() == 0 {
        assert(a + b =~= b);
    } else {
        if a.len() < 32 {
            vstd::arithmetic::div_mod::lemma_small_mod(a.len(), 32);
        }
        let t = spec_areion512(
            xor_bytes(s.0, a.subrange(0, 16)),
            xor_bytes(s.1, a.subrange(16, 32)),
            s.2,
            s.3,
        );
        assert((a + b).subrange(0, 16) =~= a.subrange(0, 16));
        assert((a + b).subrange(16, 32) =~= a.subrange(16, 32));
        assert((a + b).skip(32) =~= a.skip(32) + b);
        assert(a.skip(32).len() % 32 == 0) by {
            vstd::arithmetic::div_mod::lemma_mod_multiples_vanish(1, a.len() - 32, 32);
        }
        lemma_sponge_absorb_append(t, a.skip(32), b);
    }
}

/// The state keeps its 16-byte lane shape through any absorption.
pub proof fn lemma_sponge_absorb_len(s: (Seq<u8>, Seq<u8>, Seq<u8>, Seq<u8>), m: Seq<u8>)
    requires
        s.0.len() == 16,
        s.1.len() == 16,
        s.2.len() == 16,
        s.3.len() == 16,
    ensures
        spec_sponge_absorb(s, m).0.len() == 16,
        spec_sponge_absorb(s, m).1.len() == 16,
        spec_sponge_absorb(s, m).2.len() == 16,
        spec_sponge_absorb(s, m).3.len() == 16,
    decreases m.len(),
{
    if m.len() >= 32 {
        let t = spec_areion512(
            xor_bytes(s.0, m.subrange(0, 16)),
            xor_bytes(s.1, m.subrange(16, 32)),
            s.2,
            s.3,
        );
        lemma_areion512_len(
            xor_bytes(s.0, m.subrange(0, 16)),
            xor_bytes(s.1, m.subrange(16, 32)),
            s.2,
            s.3,
        );
        lemma_sponge_absorb_len(t, m.skip(32));
    }
}

/// Squeezing always yields exactly the requested number of bytes.
pub proof fn lemma_sponge_squeeze_len(s: (Seq<u8>, Seq<u8>, Seq<u8>, Seq<u8>), n: nat)
    requires
        s.0.len() == 16,
        s.1.len() == 16,
        s.2.len() == 16,
        s.3.len() == 16,
    ensures
        spec_sponge_squeeze(s, n).len() == n,
    decreases n,
{
    if n > 32 {
        lemma_areion512_len(s.0, s.1, s.2, s.3);
        lemma_sponge_squeeze_len(spec_areion512(s.0, s.1, s.2, s.3), (n - 32) as nat);
    }
}

/// Streaming hasher of the sponge mode over the 512-bit permutation: a
/// 32-byte rate, a 256-bit capacity that is never exposed, marker-byte
/// padding, and any requested amount of output, 32 bytes being the digest
/// size. Its abstract value is the sequence of bytes streamed so far.
pub struct SpongeCore {
    s0: Lane,
    s1: Lane,
    s2: Lane,
    s3: Lane,
    buffer: BlockBuffer,
    msg: Ghost<Seq<u8>>,
}

impl View for SpongeCore {
    type V = Seq<u8>;

    closed spec fn view(&self) -> Seq<u8> {
        self.msg@
    }
}

impl SpongeCore {
    /// The hasher is well formed: the buffered remainder and the state
    /// agree with the bytes streamed so far.
    pub closed spec fn wf(&self) -> bool {
        &&& self.buffer@.len() < 32
        &&& self.buffer@.len() <= self.msg@.len()
        &&& (self.msg@.len() - self.buffer@.len()) % 32 == 0
        &&& self.buffer@ == self.msg@.skip(self.msg@.len() - self.buffer@.len())
        &&& (self.s0@, self.s1@, self.s2@, self.s3@) == spec_sponge_absorb(
            spec_sponge_init(),
            self.msg@.take(self.msg@.len() - self.buffer@.len()),
        )
    }

    /// A fresh hasher over the empty stream, its state all zero.
    pub fn new() -> (r: SpongeCore)
        ensures
            r.wf(),
            r@ == Seq::<u8>::empty(),
    {
        let z = zeroed_lane();
        let r = SpongeCore {
            s0: z,
            s1: z,
            s2: z,
            s3: z,
            buffer: BlockBuffer::new(),
            msg: Ghost(Seq::empty()),
        };
        proof {
            assert(r.msg@.take(0) =~= Seq::<u8>::empty());
            assert(r.msg@.skip(0) =~= Seq::<u8>::empty());
        }
        r
    }

    /// Absorbs one full block held as two lanes.
    fn absorb_block(&mut self, m0: Lane, m1: Lane)
        ensures
            (final(self).s0@, final(self).s1@, final(self).s2@, final(self).s3@)
                == spec_areion512(
                    xor_bytes(old(self).s0@, m0@),
                    xor_bytes(old(self).s1@, m1@),
                    old(self).s2@,
                    old(self).s3@,
                ),
            final(self).buffer == old(self).buffer,
            final(self).msg == old(self).msg,
    {
        let a0 = xor_lane(&self.s0, &m0);
        let a1 = xor_lane(&self.s1, &m1);
        let (t0, t1, t2, t3) = areion512(a0, a1, self.s2, self.s3);
        self.s0 = t0;
        self.s1 = t1;
        self.s2 = t2;
        self.s3 = t3;
    }

    /// Appends bytes to the stream. Chunking is immaterial: only the
    /// concatenation of everything streamed determines the output.
    pub fn update(&mut self, data: &[u8])
        requires
            old(self).wf(),
        ensures
            final(self).wf(),
            final(self)@ == old(self)@ + data@,
    {
        let ghost pre = self.msg@;
        let dlen: usize = data.len();
        let mut i: usize = 0;
        while i < dlen
            invariant
                self.wf(),
                i <= data@.len(),
                dlen == data@.len(),
                self.msg@ == pre + data@.subrange(0, i as int),
            decreases data@.len() - i,
        {
            let ghost msg0 = self.msg@;
            let ghost buf0 = self.buffer@;
            let ghost al0 = msg0.len() - buf0.len();
            let n = self.buffer.fill(data, i);
            let ghost chunk = data@.subrange(i as int, i + n);
            self.msg = Ghost(self.msg@ + chunk);
            proof {
                assert(pre + data@.subrange(0, i + n) =~= (pre + data@.subrange(0, i as int))
                    + chunk);
            }
            if self.buffer.len() == 32 {
                let ghost s_before = (self.s0@, self.s1@, self.s2@, self.s3@);
                let (m0, m1) = self.buffer.drain_lanes();
                self.absorb_block(m0, m1);
                proof {
                    let blockb = buf0 + chunk;
                    let full0 = msg0.take(al0 as int);
                    assert(blockb.len() == 32);
                    assert(self.msg@.len() - self.buffer@.len() == al0 + 32);
                    assert(self.msg@.take(al0 + 32) =~= full0 + blockb);
                    lemma_sponge_absorb_append(spec_sponge_init(), full0, blockb);
                    assert(m0@ =~= blockb.subrange(0, 16));
                    assert(m1@ =~= blockb.subrange(16, 32));
                    let s_after = (self.s0@, self.s1@, self.s2@, self.s3@);
                    assert(blockb.skip(32).len() == 0);
                    assert(spec_sponge_absorb(s_after, blockb.skip(32)) == s_after);
                    assert(spec_sponge_absorb(s_before, blockb) == s_after);
                    assert((al0 + 32) % 32 == 0) by {
                        vstd::arithmetic::div_mod::lemma_mod_multiples_vanish(1, al0 as int, 32);
                    }
                    assert(self.msg@.skip(al0 + 32) =~= Seq::<u8>::empty());
                }
            } else {
                proof {
                    assert(self.msg@.len() - self.buffer@.len() == al0);
                    assert(self.msg@.take(al0 as int) =~= msg0.take(al0 as int));
                    assert(self.msg@.skip(al0 as int) =~= buf0 + chunk);
                }
            }
            i += n;
        }
        proof {
            assert(pre + data@.subrange(0, data@.len() as int) =~= pre + data@);
        }
    }

    /// Finishes the stream and squeezes `n` bytes of output. Taking the
    /// hasher by value makes use after finalization impossible.
    pub fn finalize_xof(self, n: usize) -> (out: Vec<u8>)
        requires
            self.wf(),
        ensures
            out@ == spec_sponge_output(self@, n as nat),
            out@.len() == n,
    {
        let mut state = self;
        let buffered = state.buffer.copy_bytes();
        let mut tail: Vec<u8> = Vec::new();
        let mut k: usize = 0;
        while k < buffered.len()
            invariant
                k <= buffered@.len(),
                tail@ == buffered@.subrange(0, k as int),
            decreases buffered@.len() - k,
        {
            tail.push(buffered[k]);
            proof {
                assert(buffered@.subrange(0, k + 1) =~= buffered@.subrange(0, k as int)
                    + seq![buffered@[k as int]]);
            }
            k += 1;
        }
        assert(tail@ =~= buffered@);
        tail.push(0x80);
        while tail.len() < 32
            invariant
                buffered@.len() < 32,
                seq![0x80u8].len() <= tail@.len() - buffered@.len(),
                tail@.len() <= 32,
                tail@ == buffered@ + seq![0x80u8]
                    + Seq::new((tail@.len() - buffered@.len() - 1) as nat, |i: int| 0u8),
            decreases 32 - tail@.len(),
        {
            tail.push(0);
            proof {
                let zn = (tail@.len() - buffered@.len() - 1) as nat;
                assert(Seq::new(zn, |i: int| 0u8) =~= Seq::new((zn - 1) as nat, |i: int| 0u8)
                    + seq![0u8]);
            }
        }
        let ghost msg = state.msg@;
        let ghost full = msg.take(msg.len() - buffered@.len());
        proof {
            vstd::arithmetic::div_mod::lemma_fundamental_div_mod(msg.len() as int, 32);
            vstd::arithmetic::div_mod::lemma_mod_multiples_vanish(
                (msg.len() - buffered@.len()) / 32,
                buffered@.len() as int,
                32,
            );
            vstd::arithmetic::div_mod::lemma_small_mod(buffered@.len(), 32);
            assert(msg.len() % 32 == buffered@.len());
            assert(tail@ =~= buffered@ + spec_sponge_pad_tail(msg.len()));
            assert(spec_sponge_pad(msg) =~= full + tail@);
            lemma_sponge_absorb_append(spec_sponge_init(), full, tail@);
        }
        let m0 = lane_at(&tail, 0);
        let m1 = lane_at(&tail, 16);
        proof {
            assert(m0@ =~= tail@.subrange(0, 16));
            assert(m1@ =~= tail@.subrange(16, 32));
            assert(tail@.skip(32) =~= Seq::<u8>::empty());
        }
        let ghost s_before = (state.s0@, state.s1@, state.s2@, state.s3@);
        state.absorb_block(m0, m1);
        proof {
            let s_after = (state.s0@, state.s1@, state.s2@, state.s3@);
            assert(tail@.skip(32).len() == 0);
            assert(spec_sponge_absorb(s_after, tail@.skip(32)) == s_after);
            assert(spec_sponge_absorb(s_before, tail@) == s_after);
            assert((state.s0@, state.s1@, state.s2@, state.s3@) == spec_sponge_absorb(
                spec_sponge_init(),
                spec_sponge_pad(msg),
            ));
            lemma_sponge_absorb_len(spec_sponge_init(), spec_sponge_pad(msg));
        }
        let ghost squeezed_from = (state.s0@, state.s1@, state.s2@, state.s3@);
        let mut out: Vec<u8> = Vec::new();
        let mut produced: usize = 0;
        while produced < n
            invariant
                produced <= n,
                out@.len() == produced,
                state.s0@.len() == 16,
                state.s1@.len() == 16,
                state.s2@.len() == 16,
                state.s3@.len() == 16,
                spec_sponge_squeeze(squeezed_from, n as nat) == out@ + spec_sponge_squeeze(
                    (state.s0@, state.s1@, state.s2@, state.s3@),
                    (n - produced) as nat,
                ),
            decreases n - produced,
        {
            let ghost s_now = (state.s0@, state.s1@, state.s2@, state.s3@);
            let ghost left = (n - produced) as nat;
            let remaining: usize = n - produced;
            let chunk: usize = if remaining < 32 { remaining } else { 32 };
            let ghost out0 = out@;
            let mut k2: usize = 0;
            while k2 < chunk
                invariant
                    k2 <= chunk,
                    chunk <= 32,
                    state.s0@.len() == 16,
                    state.s1@.len() == 16,
                    out@ == out0 + (state.s0@ + state.s1@).take(k2 as int),
                decreases chunk - k2,
            {
                let b: u8 = if k2 < 16 {
                    state.s0[k2]
                } else {
                    state.s1[k2 - 16]
                };
                out.push(b);
                proof {
                    assert((state.s0@ + state.s1@).take(k2 + 1) =~= (state.s0@
                        + state.s1@).take(k2 as int) + seq![(state.s0@ + state.s1@)[k2 as int]]);
                    assert(out0 + (state.s0@ + state.s1@).take(k2 + 1) =~= (out0 + (state.s0@
                        + state.s1@).take(k2 as int)) + seq![(state.s0@ + state.s1@)[k2 as int]]);
                }
                k2 += 1;
            }
            produced = produced + chunk;
            if produced < n {
                let (t0, t1, t2, t3) = areion512(state.s0, state.s1, state.s2, state.s3);
                state.s0 = t0;
                state.s1 = t1;
                state.s2 = t2;
                state.s3 = t3;
                proof {
                    lemma_areion512_len(s_now.0, s_now.1, s_now.2, s_now.3);
                    assert(left > 32);
                    assert((s_now.0 + s_now.1).take(32) =~= s_now.0 + s_now.1);
                    assert(spec_sponge_squeeze(s_now, left) == (s_now.0 + s_now.1)
                        + spec_sponge_squeeze(
                        (state.s0@, state.s1@, state.s2@, state.s3@),
                        (left - 32) as nat,
                    ));
                    assert(out@ + spec_sponge_squeeze(
                        (state.s0@, state.s1@, state.s2@, state.s3@),
                        (left - 32) as nat,
                    ) =~= out0 + spec_sponge_squeeze(s_now, left));
                }
            } else {
                proof {
                    assert(left <= 32);
                    assert(spec_sponge_squeeze(s_now, left) == (s_now.0 + s_now.1).take(
                        left as int));
                    assert(out@ =~= out0 + spec_sponge_squeeze(s_now, left));
                    assert(spec_sponge_squeeze(
                        (state.s0@, state.s1@, state.s2@, state.s3@),
                        0,
                    ) =~= Seq::<u8>::empty());
                    assert(out@ + spec_sponge_squeeze(
                        (state.s0@, state.s1@, state.s2@, state.s3@),
                        0,
                    ) =~= out@);
                }
            }
        }
        proof {
            assert(spec_sponge_squeeze(
                (state.s0@, state.s1@, state.s2@, state.s3@),
                0,
            ) =~= Seq::<u8>::empty());
            assert(out@ =~= out@ + spec_sponge_squeeze(
                (state.s0@, state.s1@, state.s2@, state.s3@),
                0,
            ));
            lemma_sponge_squeeze_len(squeezed_from, n as nat);
        }
        out
    }

    /// Finishes the stream and emits the 32-byte digest.
    pub fn finalize(self) -> (d: Vec<u8>)
        requires
            self.wf(),
        ensures
            d@ == spec_sponge_digest(self@),
            d@.len() == 32,
    {
        self.finalize_xof(32)
    }

    /// Returns the hasher to its initial state, as if newly constructed.
    pub fn reset(&mut self)
        ensures
            final(self).wf(),
            final(self)@ == Seq::<u8>::empty(),
    {
        *self = SpongeCore::new();
    }
}

} // verus!
