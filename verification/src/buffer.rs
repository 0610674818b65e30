//! A cursor over a byte sequence: the caller-supplied source that the
//! cooperative write drains. Its view is the sequence of bytes still to be
//! written; draining advances the cursor without copying the backing store.

use vstd::prelude::*;

verus! {

/// A read cursor over owned bytes. The view is the remaining (unconsumed)
/// suffix of the backing bytes.
pub struct ByteBuf {
    data: Vec<u8>,
    pos: usize,
}

impl View for ByteBuf {
    type V = Seq<u8>;

    closed spec fn view(&self) -> Seq<u8> {
        self.data@.skip(self.pos as int)
    }
}

impl ByteBuf {
    /// The cursor never stands past the end of the backing bytes.
    pub closed spec fn wf(&self) -> bool {
        self.pos <= self.data@.len()
    }

    /// A cursor over `data`, with everything still to be consumed.
    pub fn new(data: Vec<u8>) -> (b: ByteBuf)
        ensures
            b.wf(),
            b@ == data@,
    {
        let b = ByteBuf { data, pos: 0 };
        proof {
            assert(b@ =~= b.data@);
        }
        b
    }

    /// How many bytes remain to be consumed.
    pub fn remaining(&self) -> (n: usize)
        requires
            self.wf(),
        ensures
            n == self@.len(),
    {
        self.data.len() - self.pos
    }

    /// The `i`-th byte among those remaining.
    pub fn get(&self, i: usize) -> (b: u8)
        requires
            self.wf(),
            i < self@.len(),
        ensures
            b == self@[i as int],
    {
        let n = self.data.len();
        proof {
            assert(self@.len() == n - self.pos);
        }
        self.data[self.pos + i]
    }

    /// Marks the first `k` remaining bytes as consumed.
    pub fn advance(&mut self, k: usize)
        requires
            old(self).wf(),
            k <= old(self)@.len(),
        ensures
            final(self).wf(),
            final(self)@ == old(self)@.skip(k as int),
    {
        let n = self.data.len();
        proof {
            assert(self@.len() == n - self.pos);
        }
        self.pos = self.pos + k;
        proof {
            assert(self@ =~= old(self)@.skip(k as int));
        }
    }
}

} // verus!
