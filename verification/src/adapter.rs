//! A ring of appended byte buffers: bytes go in at the back and are
//! inspected or drained from the front, without seeking.

use vstd::prelude::*;

verus! {

/// Buffers pushed-in bytes until the demuxer consumes them.
///
/// The view is the sequence of bytes that are still buffered: `push`
/// appends to it, `flush` and `take` drop a prefix of it.
pub struct Adapter {
    buf: Vec<u8>,
    pos: usize,
}

impl View for Adapter {
    type V = Seq<u8>;

    closed spec fn view(&self) -> Seq<u8> {
        self.buf@.skip(self.pos as int)
    }
}

impl Adapter {
    /// Internal consistency: the read position stays inside the backing store.
    pub closed spec fn wf(&self) -> bool {
        self.pos <= self.buf.len()
    }

    /// An adapter holding no bytes.
    pub fn new() -> (a: Adapter)
        ensures
            a.wf(),
            a@ == Seq::<u8>::empty(),
    {
        let a = Adapter { buf: Vec::new(), pos: 0 };
        proof {
            assert(a@ =~= Seq::<u8>::empty());
        }
        a
    }

    /// How many bytes are buffered.
    pub fn available(&self) -> (n: usize)
        requires
            self.wf(),
        ensures
            n == self@.len(),
    {
        self.buf.len() - self.pos
    }

    /// Appends `data` behind the bytes already buffered.
    pub fn push(&mut self, data: Vec<u8>)
        requires
            old(self).wf(),
            old(self)@.len() + data@.len() <= usize::MAX,
        ensures
            final(self).wf(),
            final(self)@ == old(self)@ + data@,
    {
        // Drop the already-consumed prefix so memory stays bounded by the
        // bytes that are still live.
        if self.pos > 0 {
            let n = self.buf.len();
            let mut nb: Vec<u8> = Vec::new();
            let mut i: usize = self.pos;
            while i < n
                invariant
                    old(self).pos <= i <= n,
                    n == self.buf.len(),
                    self.buf@ == old(self).buf@,
                    self.pos == old(self).pos,
                    nb@ == self.buf@.subrange(old(self).pos as int, i as int),
                decreases n - i,
            {
                let b = self.buf[i];
                nb.push(b);
                proof {
                    assert(nb@ =~= self.buf@.subrange(old(self).pos as int, i + 1 as int));
                }
                i += 1;
            }
            proof {
                assert(nb@ =~= self.buf@.skip(self.pos as int));
            }
            self.buf = nb;
            self.pos = 0;
        }
        let m = data.len();
        let mut j: usize = 0;
        while j < m
            invariant
                0 <= j <= m,
                m == data.len(),
                self.pos == 0,
                self.buf@ == old(self)@ + data@.take(j as int),
            decreases m - j,
        {
            let b = data[j];
            self.buf.push(b);
            proof {
                assert(old(self)@ + data@.take(j as int) + seq![data@[j as int]] =~= old(self)@
                    + data@.take(j + 1 as int));
            }
            j += 1;
        }
        proof {
            assert(data@.take(m as int) =~= data@);
            assert(self@ =~= self.buf@);
        }
    }

    /// Copies the first `n` buffered bytes without consuming them.
    pub fn peek(&self, n: usize) -> (out: Vec<u8>)
        requires
            self.wf(),
            n <= self@.len(),
        ensures
            out@ == self@.take(n as int),
    {
        let mut out: Vec<u8> = Vec::new();
        let mut i: usize = 0;
        while i < n
            invariant
                0 <= i <= n,
                self.wf(),
                n <= self@.len(),
                out@ == self@.take(i as int),
            decreases n - i,
        {
            let b = self.buf[self.pos + i];
            proof {
                assert(self@[i as int] == self.buf@[self.pos + i]);
            }
            out.push(b);
            proof {
                assert(out@ =~= self@.take(i + 1 as int));
            }
            i += 1;
        }
        out
    }

    /// Discards the first `n` buffered bytes.
    pub fn flush(&mut self, n: usize)
        requires
            old(self).wf(),
            n <= old(self)@.len(),
        ensures
            final(self).wf(),
            final(self)@ == old(self)@.skip(n as int),
    {
        self.pos = self.pos + n;
        proof {
            assert(self@ =~= old(self)@.skip(n as int));
        }
    }

    /// Removes the first `n` buffered bytes and hands them out.
    pub fn take(&mut self, n: usize) -> (out: Vec<u8>)
        requires
            old(self).wf(),
            n <= old(self)@.len(),
        ensures
            final(self).wf(),
            out@ == old(self)@.take(n as int),
            final(self)@ == old(self)@.skip(n as int),
    {
        let out = self.peek(n);
        self.flush(n);
        out
    }

    /// Discards everything that is buffered.
    pub fn clear(&mut self)
        requires
            old(self).wf(),
        ensures
            final(self).wf(),
            final(self)@ == Seq::<u8>::empty(),
    {
        self.buf = Vec::new();
        self.pos = 0;
        proof {
            assert(self@ =~= Seq::<u8>::empty());
        }
    }
}

} // verus!
