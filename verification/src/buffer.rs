//! The staging region shared by both directions of the adapter: a
//! heap-allocated byte area of fixed capacity with two cursors.  Bytes enter
//! at the write cursor and leave at the read cursor; whenever the two cursors
//! meet, both snap back to the start so the whole capacity becomes available
//! again.

use vstd::prelude::*;

verus! {

/// A fixed-capacity byte region with a read cursor and a write cursor.
/// The unread content is the byte range between the two cursors.
#[derive(Debug)]
pub struct Buffer {
    read: usize,
    write: usize,
    buf: Vec<u8>,
}

impl View for Buffer {
    type V = Seq<u8>;

    /// The unread content: the bytes between the read and write cursors.
    closed spec fn view(&self) -> Seq<u8> {
        self.buf@.subrange(self.read as int, self.write as int)
    }
}

impl Buffer {
    /// The fixed capacity of the region.
    pub closed spec fn spec_capacity(&self) -> int {
        self.buf@.len() as int
    }

    /// The read cursor.
    pub closed spec fn spec_read_pos(&self) -> int {
        self.read as int
    }

    /// The write cursor.
    pub closed spec fn spec_write_pos(&self) -> int {
        self.write as int
    }

    /// Well-formedness: the cursors are ordered and in bounds, and an empty
    /// buffer always has both cursors at the start, so that its whole
    /// capacity is available.
    pub closed spec fn wf(&self) -> bool {
        &&& self.read <= self.write
        &&& self.write <= self.buf@.len()
        &&& (self.read == self.write ==> self.read == 0)
    }

    /// A fresh buffer of the given capacity, empty.
    pub fn new(size: usize) -> (b: Buffer)
        ensures
            b.wf(),
            b@ == Seq::<u8>::empty(),
            b.spec_capacity() == size,
            b.spec_write_pos() == 0,
    {
        let b = Buffer { read: 0, write: 0, buf: vec![0u8; size] };
        proof {
            assert(b@ =~= Seq::<u8>::empty());
        }
        b
    }

    /// How many unread bytes the buffer holds.
    pub fn len(&self) -> (n: usize)
        requires
            self.wf(),
        ensures
            n == self@.len(),
    {
        self.write - self.read
    }

    /// Whether the buffer holds no unread bytes.
    pub fn is_empty(&self) -> (r: bool)
        requires
            self.wf(),
        ensures
            r == (self@.len() == 0),
    {
        self.len() == 0
    }

    /// How much room is left after the write cursor.
    pub fn available(&self) -> (n: usize)
        requires
            self.wf(),
        ensures
            n == self.spec_capacity() - self.spec_write_pos(),
    {
        self.buf.len() - self.write
    }

    /// Whether the write cursor has reached the end of the region.
    pub fn is_full(&self) -> (r: bool)
        requires
            self.wf(),
        ensures
            r == (self.spec_write_pos() == self.spec_capacity()),
    {
        self.available() == 0
    }

    /// Drop the first `n` unread bytes.  When everything has been consumed,
    /// both cursors snap back to the start of the region.
    pub fn advance(&mut self, n: usize)
        requires
            old(self).wf(),
            n <= old(self)@.len(),
        ensures
            final(self).wf(),
            final(self)@ == old(self)@.skip(n as int),
            final(self).spec_capacity() == old(self).spec_capacity(),
            n == old(self)@.len() ==> final(self).spec_write_pos() == 0,
            n < old(self)@.len() ==> final(self).spec_write_pos() == old(self).spec_write_pos(),
    {
        self.read = self.read + n;
        if self.read == self.write {
            self.read = 0;
            self.write = 0;
        }
        proof {
            assert(self@ =~= old(self)@.skip(n as int));
        }
    }

    /// Append the first `count` bytes of `src` at the write cursor.
    pub fn fill(&mut self, src: &[u8], count: usize)
        requires
            old(self).wf(),
            count <= src@.len(),
            count <= old(self).spec_capacity() - old(self).spec_write_pos(),
        ensures
            final(self).wf(),
            final(self)@ == old(self)@ + src@.take(count as int),
            final(self).spec_capacity() == old(self).spec_capacity(),
            final(self).spec_read_pos() == old(self).spec_read_pos(),
            final(self).spec_write_pos() == old(self).spec_write_pos() + count,
    {
        let cap = self.buf.len();
        let mut i: usize = 0;
        while i < count
            invariant
                i <= count,
                count <= src@.len(),
                self.read == old(self).read,
                self.write == old(self).write,
                self.buf@.len() == old(self).buf@.len(),
                old(self).wf(),
                cap == self.buf@.len(),
                count + self.write <= cap,
                forall|j: int| 0 <= j < self.write ==> self.buf@[j] == old(self).buf@[j],
                forall|j: int| 0 <= j < i ==> self.buf@[self.write + j] == src@[j],
            decreases count - i,
        {
            let pos = self.write + i;
            self.buf[pos] = src[i];
            i = i + 1;
        }
        self.write = self.write + count;
        proof {
            assert(self@ =~= old(self)@ + src@.take(count as int));
        }
    }

    /// Copy the unread content's prefix into the front of `dst` and return
    /// how many bytes were copied together with the (rented) destination.
    /// Copies as much as fits: the smaller of the content length and the
    /// destination length.  The buffer itself is not advanced.
    pub fn copy_prefix(&self, dst: Vec<u8>) -> (r: (usize, Vec<u8>))
        requires
            self.wf(),
        ensures
            r.0 == if self@.len() <= dst@.len() {
                self@.len() as int
            } else {
                dst@.len() as int
            },
            r.1@.len() == dst@.len(),
            r.1@ == self@.take(r.0 as int) + dst@.skip(r.0 as int),
    {
        let content_len = self.len();
        let n = if content_len <= dst.len() {
            content_len
        } else {
            dst.len()
        };
        let mut out = dst;
        let mut i: usize = 0;
        while i < n
            invariant
                i <= n,
                n <= self@.len(),
                n <= out@.len(),
                self.wf(),
                out@.len() == dst@.len(),
                forall|j: int| 0 <= j < i ==> out@[j] == self@[j],
                forall|j: int| n <= j < out@.len() ==> out@[j] == dst@[j],
            decreases n - i,
        {
            let pos = self.read + i;
            out[i] = self.buf[pos];
            i = i + 1;
        }
        proof {
            assert(out@ =~= self@.take(n as int) + dst@.skip(n as int));
        }
        (n, out)
    }

    /// A borrowed view of the unread content, for handing record bytes to
    /// the engine.
    pub fn content<'a>(&'a self) -> (s: &'a [u8])
        requires
            self.wf(),
        ensures
            s@ == self@,
    {
        vstd::slice::slice_subrange(self.buf.as_slice(), self.read, self.write)
    }
}

/// What a series of partial reads yields from content `c`: each read takes a
/// prefix of what is left (its requested size, clipped to what remains) and
/// leaves the rest; the result concatenates every piece read and the final
/// remainder, in order.
pub open spec fn read_pieces(c: Seq<u8>, sizes: Seq<int>) -> Seq<u8>
    decreases sizes.len(),
{
    if sizes.len() == 0 {
        c
    } else {
        let k = if 0 <= sizes[0] && sizes[0] <= c.len() {
            sizes[0]
        } else if sizes[0] > c.len() {
            c.len() as int
        } else {
            0
        };
        c.take(k) + read_pieces(c.skip(k), sizes.skip(1))
    }
}

/// Bytes cross the staging buffer unduplicated and undropped: however the
/// content is carved into successive partial reads, concatenating what the
/// reads yield (and whatever remains) gives back exactly the original
/// content.  Each read's contract yields `take(k)` of the content and leaves
/// `skip(k)`, so this covers every sequence of reads.
pub proof fn lemma_partial_reads_preserve_bytes(c: Seq<u8>, sizes: Seq<int>)
    ensures
        read_pieces(c, sizes) == c,
    decreases sizes.len(),
{
    if sizes.len() == 0 {
    } else {
        let k = if 0 <= sizes[0] && sizes[0] <= c.len() {
            sizes[0]
        } else if sizes[0] > c.len() {
            c.len() as int
        } else {
            0
        };
        lemma_partial_reads_preserve_bytes(c.skip(k), sizes.skip(1));
        assert(c.take(k) + c.skip(k) =~= c);
    }
}

/// What a synchronous write stages is exactly the accepted prefix of its
/// source, appended to what was already staged: filling and then draining an
/// empty staging buffer reproduces the written bytes.
pub proof fn lemma_write_then_drain_round_trip(src: Seq<u8>, n: int)
    requires
        0 <= n <= src.len(),
    ensures
        Seq::<u8>::empty() + src.take(n) == src.take(n),
        n == src.len() ==> Seq::<u8>::empty() + src.take(n) == src,
{
    assert(Seq::<u8>::empty() + src.take(n) =~= src.take(n));
    if n == src.len() {
        assert(src.take(n) =~= src);
    }
}

/// The staging-buffer invariant, stated over the public cursor views: the
/// cursors are ordered and bounded by the capacity, and an empty buffer has
/// both cursors at the start.
pub proof fn lemma_buffer_invariant(b: Buffer)
    requires
        b.wf(),
    ensures
        0 <= b.spec_read_pos() <= b.spec_write_pos() <= b.spec_capacity(),
        b.spec_read_pos() == b.spec_write_pos() ==> b.spec_read_pos() == 0,
        b@.len() == b.spec_write_pos() - b.spec_read_pos(),
{
}

} // verus!
