use vstd::prelude::*;
use crate::lane::Lane;

verus! {

broadcast use vstd::array::group_array_axioms;

/// Bytes are hashed in blocks of this many bytes.
pub const BLOCK_LEN: usize = 32;

/// The largest number of message bytes any construction accepts; the
/// bit-length field of the strengthening pad is 64 bits wide.
pub const MAX_MSG_LEN: u64 = 0x1fffffffffffffff;

/// Every construction of this family emits digests of this many bytes.
pub const DIGEST_LEN: usize = 32;

/// Accumulates an arbitrary byte stream into 32-byte blocks. The buffer
/// holds strictly less than one block between streaming calls; a block is
/// handed out (and the buffer emptied) as soon as it fills, so memory use
/// stays bounded by the block size however long the stream runs.
pub struct BlockBuffer {
    data: Vec<u8>,
}

impl View for BlockBuffer {
    type V = Seq<u8>;

    closed spec fn view(&self) -> Seq<u8> {
        self.data@
    }
}

impl BlockBuffer {
    pub fn new() -> (r: BlockBuffer)
        ensures
            r@ == Seq::<u8>::empty(),
    {
        BlockBuffer { data: Vec::new() }
    }

    pub fn len(&self) -> (n: usize)
        ensures
            n == self@.len(),
    {
        self.data.len()
    }

    /// Copies bytes of `data` from position `i` on into the buffer, up to
    /// the earlier of the end of `data` and a full block.
    pub fn fill(&mut self, data: &[u8], i: usize) -> (n: usize)
        requires
            i <= data@.len(),
            old(self)@.len() < 32,
        ensures
            final(self)@ == old(self)@ + data@.subrange(i as int, i + n),
            n as int == if data@.len() - i <= 32 - old(self)@.len() {
                data@.len() - i
            } else {
                32 - old(self)@.len()
            },
    {
        let want: usize = 32 - self.data.len();
        let avail: usize = data.len() - i;
        let n: usize = if avail < want { avail } else { want };
        let mut j: usize = 0;
        while j < n
            invariant
                j <= n,
                i + n <= data@.len(),
                data@.len() <= usize::MAX,
                self@ == old(self)@ + data@.subrange(i as int, i + j),
            decreases n - j,
        {
            let b: u8 = data[i + j];
            self.data.push(b);
            proof {
                assert(data@.subrange(i as int, i + j + 1) =~= data@.subrange(i as int, i + j)
                    + seq![data@[i + j]]);
            }
            j += 1;
        }
        n
    }

    /// Hands out the full buffered block as two lanes and empties the
    /// buffer.
    pub fn drain_lanes(&mut self) -> (r: (Lane, Lane))
        requires
            old(self)@.len() == 32,
        ensures
            final(self)@ == Seq::<u8>::empty(),
            r.0@ == old(self)@.subrange(0, 16),
            r.1@ == old(self)@.subrange(16, 32),
    {
        let mut m0: Lane = [0u8; 16];
        let mut m1: Lane = [0u8; 16];
        let mut k: usize = 0;
        while k < 16
            invariant
                k <= 16,
                self@ == old(self)@,
                self@.len() == 32,
                forall|t: int| 0 <= t < k ==> m0@[t] == old(self)@[t],
                forall|t: int| 0 <= t < k ==> m1@[t] == old(self)@[16 + t],
            decreases 16 - k,
        {
            m0[k] = self.data[k];
            m1[k] = self.data[16 + k];
            k += 1;
        }
        self.data.truncate(0);
        proof {
            assert(self@ =~= Seq::<u8>::empty());
            assert(m0@ =~= old(self)@.subrange(0, 16));
            assert(m1@ =~= old(self)@.subrange(16, 32));
        }
        (m0, m1)
    }

    /// A copy of the buffered bytes.
    pub fn copy_bytes(&self) -> (v: Vec<u8>)
        ensures
            v@ == self@,
    {
        let mut v: Vec<u8> = Vec::new();
        let mut k: usize = 0;
        while k < self.data.len()
            invariant
                k <= self@.len(),
                v@ == self@.subrange(0, k as int),
            decreases self@.len() - k,
        {
            v.push(self.data[k]);
            proof {
                assert(self@.subrange(0, k + 1) =~= self@.subrange(0, k as int) + seq![self@[k as int]]);
            }
            k += 1;
        }
        assert(v@ =~= self@);
        v
    }
}

/// Reads the 16 bytes of `v` from position `off` on as a lane.
pub fn lane_at(v: &Vec<u8>, off: usize) -> (r: Lane)
    requires
        off + 16 <= v@.len(),
    ensures
        r@ == v@.subrange(off as int, off + 16),
{
    let mut r: Lane = [0u8; 16];
    let vl: usize = v.len();
    let mut k: usize = 0;
    while k < 16
        invariant
            k <= 16,
            vl == v@.len(),
            off + 16 <= v@.len(),
            forall|t: int| 0 <= t < k ==> r@[t] == v@[off + t],
        decreases 16 - k,
    {
        r[k] = v[off + k];
        k += 1;
    }
    assert(r@ =~= v@.subrange(off as int, off + 16));
    r
}

} // verus!
