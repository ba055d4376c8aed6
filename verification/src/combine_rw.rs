use vstd::prelude::*;

verus! {

/// A duplex channel: a pure capability union of one reader and one writer.
///
/// The combinator owns exactly the two halves and nothing else — no buffer,
/// no counter, no shared state — so it can add no latency, no copying and no
/// reordering. Every read-family operation of the combined object acts on the
/// held reader alone and every write-family operation (including flush and
/// close) on the held writer alone; neither operation can observe the
/// counterpart, because each is handed out by exactly one of the two
/// accessors below.
pub struct CombineRW<R, W> {
    read: R,
    write: W,
}

impl<R, W> CombineRW<R, W> {
    /// The held reader half.
    pub closed spec fn spec_reader(&self) -> R {
        self.read
    }

    /// The held writer half.
    pub closed spec fn spec_writer(&self) -> W {
        self.write
    }

    /// Fuse a reader and a writer into one duplex object. Both halves are
    /// taken over unchanged and exclusively.
    pub fn new(read: R, write: W) -> (r: Self)
        ensures
            r.spec_reader() == read,
            r.spec_writer() == write,
    {
        CombineRW { read, write }
    }

    /// Exclusive access to the reader half: the route of every read-family
    /// operation. The writer half is untouched.
    pub fn reader_mut(&mut self) -> (r: &mut R)
        ensures
            *r == old(self).spec_reader(),
            final(self).spec_reader() == *final(r),
            final(self).spec_writer() == old(self).spec_writer(),
    {
        &mut self.read
    }

    /// Exclusive access to the writer half: the route of every write-family
    /// operation, flush and close included. The reader half is untouched.
    pub fn writer_mut(&mut self) -> (r: &mut W)
        ensures
            *r == old(self).spec_writer(),
            final(self).spec_writer() == *final(r),
            final(self).spec_reader() == old(self).spec_reader(),
    {
        &mut self.write
    }

    /// Split the duplex back into its two halves, each returned unchanged.
    pub fn split(self) -> (r: (R, W))
        ensures
            r.0 == self.spec_reader(),
            r.1 == self.spec_writer(),
    {
        (self.read, self.write)
    }
}

} // verus!
