use vstd::prelude::*;

use crate::chunk::{chunk_bytes, chunk_is_valid, chunk_to_bytes, Chunk};
use crate::RustlsWasmError;

verus! {

/// Byte reader over an external chunked source, fallback mode.
///
/// The environment refused a caller-supplied-buffer reader, so the source is
/// consumed as a one-shot sequence of opaque chunks; each chunk is decoded to
/// bytes and queued, and reads slice across chunk boundaries transparently.
/// Consuming the source is destructive: re-wrapping the same source twice is a
/// caller error.
///
/// Once an error is observed (a source failure or an invalid chunk shape) the
/// reader is stuck in that error: every later read yields the same error.
pub struct FallbackReader {
    queue: Vec<u8>,
    cursor: usize,
    done: bool,
    error: Option<RustlsWasmError>,
    fed: Ghost<Seq<u8>>,
    yielded: Ghost<Seq<u8>>,
}

impl FallbackReader {
    /// All bytes decoded from accepted chunks, in arrival order.
    pub closed spec fn fed(&self) -> Seq<u8> {
        self.fed@
    }

    /// All bytes handed to the consumer so far, in order.
    pub closed spec fn yielded(&self) -> Seq<u8> {
        self.yielded@
    }

    /// Bytes decoded but not yet handed out.
    pub closed spec fn pending(&self) -> Seq<u8> {
        self.queue@.skip(self.cursor as int)
    }

    /// Whether the source has signalled end-of-stream.
    pub closed spec fn is_done(&self) -> bool {
        self.done
    }

    /// The sticky error, if one has been observed.
    pub closed spec fn error_state(&self) -> Option<RustlsWasmError> {
        self.error
    }

    /// The reader never drops, duplicates or reorders data: what was fed is
    /// exactly what was yielded followed by what is still pending.
    pub closed spec fn wf(&self) -> bool {
        &&& self.cursor <= self.queue@.len()
        &&& self.yielded@ + self.pending() == self.fed@
    }

    /// A fresh fallback reader: nothing fed, nothing yielded, open, no error.
    pub fn new() -> (r: Self)
        ensures
            r.wf(),
            r.fed() == Seq::<u8>::empty(),
            r.yielded() == Seq::<u8>::empty(),
            r.pending() == Seq::<u8>::empty(),
            !r.is_done(),
            r.error_state() is None,
    {
        FallbackReader {
            queue: Vec::new(),
            cursor: 0,
            done: false,
            error: None,
            fed: Ghost(Seq::empty()),
            yielded: Ghost(Seq::empty()),
        }
    }

    /// Accept one chunk from the external source.
    ///
    /// A text or binary chunk is decoded and queued; any other shape moves the
    /// reader into the sticky `InvalidPayload` error, to be surfaced on the
    /// next read rather than silently skipped.
    pub fn push_chunk(&mut self, c: Chunk) -> (r: Result<(), RustlsWasmError>)
        requires
            old(self).wf(),
            old(self).error_state() is None,
            !old(self).is_done(),
        ensures
            final(self).wf(),
            !final(self).is_done(),
            final(self).yielded() == old(self).yielded(),
            chunk_is_valid(c) ==> {
                &&& r is Ok
                &&& final(self).fed() == old(self).fed() + chunk_bytes(c)
                &&& final(self).pending() == old(self).pending() + chunk_bytes(c)
                &&& final(self).error_state() is None
            },
            !chunk_is_valid(c) ==> {
                &&& r == Err::<(), RustlsWasmError>(RustlsWasmError::InvalidPayload)
                &&& final(self).fed() == old(self).fed()
                &&& final(self).pending() == old(self).pending()
                &&& final(self).error_state() == Some(RustlsWasmError::InvalidPayload)
            },
    {
        match chunk_to_bytes(c) {
            Ok(mut bytes) => {
                self.queue.append(&mut bytes);
                proof {
                    self.fed@ = self.fed@ + chunk_bytes(c);
                    assert(self.pending() =~= old(self).pending() + chunk_bytes(c));
                    assert(self.yielded@ + self.pending() =~= self.fed@);
                }
                Ok(())
            },
            Err(e) => {
                self.error = Some(e.dup());
                Err(e)
            },
        }
    }

    /// Record a failure reported by the external source itself; it becomes the
    /// sticky error of this reader.
    pub fn push_failure(&mut self, msg: String)
        requires
            old(self).wf(),
            old(self).error_state() is None,
            !old(self).is_done(),
        ensures
            final(self).wf(),
            final(self).error_state() == Some(RustlsWasmError::Js(msg)),
            final(self).fed() == old(self).fed(),
            final(self).yielded() == old(self).yielded(),
            final(self).pending() == old(self).pending(),
            !final(self).is_done(),
    {
        self.error = Some(RustlsWasmError::Js(msg));
    }

    /// Record end-of-stream from the external source.
    pub fn end_of_stream(&mut self)
        requires
            old(self).wf(),
            old(self).error_state() is None,
            !old(self).is_done(),
        ensures
            final(self).wf(),
            final(self).is_done(),
            final(self).error_state() is None,
            final(self).fed() == old(self).fed(),
            final(self).yielded() == old(self).yielded(),
            final(self).pending() == old(self).pending(),
    {
        self.done = true;
    }

    /// Pull up to `n` bytes.
    ///
    /// `None` means the consumer must wait for the source (no bytes queued,
    /// stream still open). Otherwise: a sticky error is surfaced again and
    /// again; an empty buffer signals end-of-stream; and a non-empty result is
    /// exactly the next queued bytes, in order.
    pub fn read(&mut self, n: usize) -> (r: Option<Result<Vec<u8>, RustlsWasmError>>)
        requires
            old(self).wf(),
        ensures
            final(self).wf(),
            final(self).is_done() == old(self).is_done(),
            final(self).error_state() == old(self).error_state(),
            final(self).fed() == old(self).fed(),
            match old(self).error_state() {
                Some(e) => {
                    &&& r matches Some(Err(e2)) && e2 == e
                    &&& final(self).yielded() == old(self).yielded()
                    &&& final(self).pending() == old(self).pending()
                },
                None => {
                    if old(self).pending().len() == 0 {
                        &&& (if old(self).is_done() {
                            r matches Some(Ok(v)) && v@ == Seq::<u8>::empty()
                        } else {
                            r is None
                        })
                        &&& final(self).yielded() == old(self).yielded()
                        &&& final(self).pending() == old(self).pending()
                    } else {
                        let k = if n as int <= old(self).pending().len() {
                            n as int
                        } else {
                            old(self).pending().len() as int
                        };
                        &&& r matches Some(Ok(v)) && v@ == old(self).pending().take(k)
                        &&& final(self).pending() == old(self).pending().skip(k)
                        &&& final(self).yielded() == old(self).yielded() + old(self).pending().take(k)
                    }
                },
            },
    {
        if let Some(e) = &self.error {
            return Some(Err(e.dup()));
        }
        let avail = self.queue.len() - self.cursor;
        if avail == 0 {
            if self.done {
                return Some(Ok(Vec::new()));
            }
            return None;
        }
        let k = if n < avail {
            n
        } else {
            avail
        };
        let mut out: Vec<u8> = Vec::new();
        let end = self.cursor + k;
        let mut j: usize = self.cursor;
        while j < end
            invariant
                self.cursor <= j,
                j <= end,
                end <= self.queue@.len(),
                out@ == self.queue@.subrange(self.cursor as int, j as int),
            decreases end - j,
        {
            let b = self.queue[j];
            out.push(b);
            j += 1;
            assert(out@ =~= self.queue@.subrange(self.cursor as int, j as int));
        }
        self.cursor = end;
        proof {
            self.yielded@ = self.yielded@ + out@;
            assert(out@ =~= old(self).pending().take(k as int));
            assert(self.pending() =~= old(self).pending().skip(k as int));
            assert(self.yielded@ + self.pending() =~= self.fed@);
        }
        Some(Ok(out))
    }
}

/// Byte reader over an external source, zero-copy mode.
///
/// The environment granted a caller-supplied-buffer reader: each read hands
/// the consumer's own buffer to the source, so the bytes the consumer sees are
/// exactly the bytes the source produced, with no intermediate queue.
pub struct ZeroCopyReader {
    done: bool,
    error: Option<RustlsWasmError>,
    fed: Ghost<Seq<u8>>,
    yielded: Ghost<Seq<u8>>,
}

impl ZeroCopyReader {
    /// All bytes the source has written into caller buffers, in order.
    pub closed spec fn fed(&self) -> Seq<u8> {
        self.fed@
    }

    /// All bytes handed to the consumer so far, in order.
    pub closed spec fn yielded(&self) -> Seq<u8> {
        self.yielded@
    }

    /// Whether the source has signalled end-of-stream.
    pub closed spec fn is_done(&self) -> bool {
        self.done
    }

    /// The sticky error, if one has been observed.
    pub closed spec fn error_state(&self) -> Option<RustlsWasmError> {
        self.error
    }

    /// Zero-copy means no queue: everything fed has already been yielded.
    pub closed spec fn wf(&self) -> bool {
        self.yielded@ == self.fed@
    }

    /// A fresh zero-copy reader: nothing fed, nothing yielded, open, no error.
    pub fn new() -> (r: Self)
        ensures
            r.wf(),
            r.fed() == Seq::<u8>::empty(),
            r.yielded() == Seq::<u8>::empty(),
            !r.is_done(),
            r.error_state() is None,
    {
        ZeroCopyReader { done: false, error: None, fed: Ghost(Seq::empty()), yielded: Ghost(Seq::empty()) }
    }

    /// One read: the source filled the consumer's buffer with `bytes`; they
    /// pass through unchanged, without copying or reordering.
    pub fn deliver(&mut self, bytes: Vec<u8>) -> (r: Vec<u8>)
        requires
            old(self).wf(),
            old(self).error_state() is None,
            !old(self).is_done(),
        ensures
            final(self).wf(),
            r == bytes,
            final(self).fed() == old(self).fed() + bytes@,
            final(self).yielded() == old(self).yielded() + bytes@,
            !final(self).is_done(),
            final(self).error_state() is None,
    {
        proof {
            self.fed@ = self.fed@ + bytes@;
            self.yielded@ = self.yielded@ + bytes@;
        }
        bytes
    }

    /// Record end-of-stream: a zero-length fill from the source.
    pub fn end_of_stream(&mut self)
        requires
            old(self).wf(),
            old(self).error_state() is None,
            !old(self).is_done(),
        ensures
            final(self).wf(),
            final(self).is_done(),
            final(self).error_state() is None,
            final(self).fed() == old(self).fed(),
            final(self).yielded() == old(self).yielded(),
    {
        self.done = true;
    }

    /// Record a failure reported by the external source; it becomes the sticky
    /// error of this reader.
    pub fn push_failure(&mut self, msg: String)
        requires
            old(self).wf(),
            old(self).error_state() is None,
            !old(self).is_done(),
        ensures
            final(self).wf(),
            final(self).error_state() == Some(RustlsWasmError::Js(msg)),
            final(self).fed() == old(self).fed(),
            final(self).yielded() == old(self).yielded(),
            !final(self).is_done(),
    {
        self.error = Some(RustlsWasmError::Js(msg));
    }

    /// Surface the sticky error again: once errored, every read fails the same
    /// way.
    pub fn read_errored(&self) -> (r: Result<Vec<u8>, RustlsWasmError>)
        requires
            self.error_state() is Some,
        ensures
            r matches Err(e) && Some(e) == self.error_state(),
    {
        match &self.error {
            Some(e) => Err(e.dup()),
            None => Err(RustlsWasmError::Io),
        }
    }
}

/// The mode a byte reader runs in, chosen once at construction from the
/// environment's capability probe and never revisited per call.
#[derive(PartialEq, Eq, Structural, Debug, Clone, Copy)]
pub enum ReaderMode {
    ZeroCopy,
    Fallback,
}

/// A byte reader in whichever mode the environment allowed. The variant is
/// fixed at construction: a reader that fell back never switches back.
pub enum ByteReader {
    ZeroCopy(ZeroCopyReader),
    Fallback(FallbackReader),
}

impl ByteReader {
    /// The mode this reader was constructed in.
    pub closed spec fn spec_mode(&self) -> ReaderMode {
        match self {
            ByteReader::ZeroCopy(_) => ReaderMode::ZeroCopy,
            ByteReader::Fallback(_) => ReaderMode::Fallback,
        }
    }

    /// Build the reader once from the environment probe: a granted
    /// caller-supplied-buffer handle selects the zero-copy mode, a refusal
    /// selects the copying fallback.
    pub fn from_probe(zero_copy_granted: bool) -> (r: Self)
        ensures
            zero_copy_granted ==> r.spec_mode() == ReaderMode::ZeroCopy,
            !zero_copy_granted ==> r.spec_mode() == ReaderMode::Fallback,
            r.all_fresh(),
    {
        if zero_copy_granted {
            ByteReader::ZeroCopy(ZeroCopyReader::new())
        } else {
            ByteReader::Fallback(FallbackReader::new())
        }
    }

    /// Freshly constructed: nothing read, no error, stream open.
    pub open spec fn all_fresh(&self) -> bool {
        match self {
            ByteReader::ZeroCopy(z) => {
                &&& z.wf()
                &&& z.fed() == Seq::<u8>::empty()
                &&& !z.is_done()
                &&& z.error_state() is None
            },
            ByteReader::Fallback(f) => {
                &&& f.wf()
                &&& f.fed() == Seq::<u8>::empty()
                &&& f.pending() == Seq::<u8>::empty()
                &&& !f.is_done()
                &&& f.error_state() is None
            },
        }
    }

    /// The mode, as a runtime value.
    pub fn mode(&self) -> (m: ReaderMode)
        ensures
            m == self.spec_mode(),
    {
        match self {
            ByteReader::ZeroCopy(_) => ReaderMode::ZeroCopy,
            ByteReader::Fallback(_) => ReaderMode::Fallback,
        }
    }
}

/// Both reader modes preserve the source's bytes: whatever was fed comes out
/// as exactly the yielded prefix followed by the still-pending bytes. The
/// zero-copy mode simply always has an empty pending part.
pub proof fn lemma_reader_preserves_bytes(f: FallbackReader)
    requires
        f.wf(),
    ensures
        f.yielded() + f.pending() == f.fed(),
        f.yielded() == f.fed().take(f.yielded().len() as int),
{
    assert(f.yielded() =~= f.fed().take(f.yielded().len() as int));
}

/// The fallback path and the zero-copy path yield identical byte sequences
/// when fed the same bytes: once the fallback reader has drained its queue,
/// both have yielded exactly what was fed.
pub proof fn lemma_paths_yield_same_bytes(f: FallbackReader, z: ZeroCopyReader)
    requires
        f.wf(),
        z.wf(),
        f.pending().len() == 0,
        f.fed() == z.fed(),
    ensures
        f.yielded() == z.yielded(),
{
    assert(f.yielded() =~= f.yielded() + f.pending());
}

} // verus!
