//! A sequential reader over fully decoded samples.
use std::marker::PhantomData;
use vstd::prelude::*;

verus! {

/// How many bytes a read into a buffer of `wanted` bytes hands out when
/// `available` bytes are left.
pub open spec fn read_len(available: nat, wanted: nat) -> nat {
    if wanted < available {
        wanted
    } else {
        available
    }
}

/// The bytes handed out, in order, when `contents` is read by chunks of the
/// given sizes and what is left is then read to the end.
pub open spec fn drained(contents: Seq<u8>, sizes: Seq<nat>) -> Seq<u8>
    decreases sizes.len(),
{
    if sizes.len() == 0 {
        contents
    } else {
        let n = read_len(contents.len(), sizes[0]);
        contents.take(n as int) + drained(contents.skip(n as int), sizes.drop_first())
    }
}

/// Reading by chunks and then to the end hands out the contents, in order.
pub proof fn lemma_drained(contents: Seq<u8>, sizes: Seq<nat>)
    ensures
        drained(contents, sizes) == contents,
    decreases sizes.len(),
{
    if sizes.len() > 0 {
        let n = read_len(contents.len(), sizes[0]);
        lemma_drained(contents.skip(n as int), sizes.drop_first());
        assert(contents.take(n as int) + contents.skip(n as int) =~= contents);
    }
}

/// Hands out decoded samples in order. A call of `read_to_end` on a reader
/// that nothing was read from, into an empty vector, moves the samples over
/// instead of copying them.
pub struct JpegReader<R> {
    data: Vec<u8>,
    pos: usize,
    source: PhantomData<R>,
}

impl<R> View for JpegReader<R> {
    type V = Seq<u8>;

    /// The bytes that are still to be read.
    closed spec fn view(&self) -> Seq<u8> {
        self.data@.skip(self.pos as int)
    }
}

impl<R> JpegReader<R> {
    #[verifier::type_invariant]
    spec fn inv(self) -> bool {
        self.pos <= self.data@.len()
    }

    /// A reader positioned at the start of `data`.
    pub fn new(data: Vec<u8>) -> (r: Self)
        ensures
            r@ == data@,
    {
        let r = JpegReader { data, pos: 0, source: PhantomData };
        assert(r.data@.skip(0) =~= data@);
        r
    }

    /// Copies as many of the remaining bytes as fit into `buf`, from its
    /// start, and returns how many were copied.
    pub fn read(&mut self, buf: &mut [u8]) -> (n: usize)
        ensures
            n == read_len(old(self)@.len(), old(buf)@.len()),
            final(buf)@ == old(self)@.take(n as int) + old(buf)@.skip(n as int),
            final(self)@ == old(self)@.skip(n as int),
    {
        proof {
            use_type_invariant(&*self);
        }
        let pos: usize = self.pos;
        let len: usize = self.data.len();
        let available: usize = len - pos;
        let n: usize = if buf.len() < available {
            buf.len()
        } else {
            available
        };
        let ghost start = buf@;
        let mut i: usize = 0;
        while i < n
            invariant
                i <= n,
                n <= available,
                available == len - pos,
                pos <= len,
                len == self.data@.len(),
                pos == self.pos,
                *self == *old(self),
                n <= buf@.len(),
                buf@.len() == start.len(),
                forall|j: int| 0 <= j < i ==> buf@[j] == self.data@[pos + j],
                forall|j: int| i <= j < buf@.len() ==> buf@[j] == start[j],
            decreases n - i,
        {
            buf[i] = self.data[pos + i];
            i = i + 1;
        }
        assert forall|j: int| 0 <= j < n implies old(self)@.take(n as int)[j] == buf@[j] by {
            assert(old(self)@[j] == self.data@[pos + j]);
        }
        let ghost out = old(self)@.take(n as int) + start.skip(n as int);
        assert(out.len() == buf@.len());
        assert forall|j: int| 0 <= j < buf@.len() implies out[j] == buf@[j] by {
            if j >= n {
                assert(out[j] == start.skip(n as int)[j - n]);
            }
        }
        assert(buf@ =~= out);
        self.pos = self.pos + n;
        assert(self@ =~= old(self)@.skip(n as int));
        n
    }

    /// Appends all remaining bytes to `buf` and returns how many there were.
    pub fn read_to_end(&mut self, buf: &mut Vec<u8>) -> (n: usize)
        ensures
            n == old(self)@.len(),
            final(buf)@ == old(buf)@ + old(self)@,
            final(self)@.len() == 0,
    {
        proof {
            use_type_invariant(&*self);
        }
        if self.pos == 0 && buf.len() == 0 {
            std::mem::swap(buf, &mut self.data);
            assert(old(self)@ =~= buf@);
            assert(old(buf)@ + old(self)@ =~= buf@);
            buf.len()
        } else {
            let end: usize = self.data.len();
            let mut i: usize = self.pos;
            while i < end
                invariant
                    self.pos <= i <= end,
                    end == self.data@.len(),
                    buf@ == old(buf)@ + self.data@.subrange(self.pos as int, i as int),
                decreases end - i,
            {
                buf.push(self.data[i]);
                assert(self.data@.subrange(self.pos as int, i + 1) =~= self.data@.subrange(
                    self.pos as int,
                    i as int,
                ).push(self.data@[i as int]));
                i = i + 1;
            }
            let n: usize = end - self.pos;
            assert(self.data@.subrange(self.pos as int, end as int) =~= old(self)@);
            self.pos = end;
            n
        }
    }
}

} // verus!
