use vstd::prelude::*;

use crate::chunk::Chunk;
use crate::RustlsWasmError;

verus! {

/// Byte writer over an external chunk-accepting sink.
///
/// Each write takes one owned byte buffer, turns it into the binary chunk
/// shape the sink expects, and forwards it whole: partial acceptance is not
/// modelled, the sink's own backpressure is what makes the caller wait.
/// Close forwards a single finish signal; a second close is a logic error
/// reported as an error, never silently ignored.
pub struct SinkWriter {
    closed: bool,
    forwarded: Ghost<Seq<Seq<u8>>>,
    close_signals: Ghost<int>,
}

impl SinkWriter {
    /// The byte buffers forwarded to the external sink, in order.
    pub closed spec fn forwarded(&self) -> Seq<Seq<u8>> {
        self.forwarded@
    }

    /// Whether the writer has been closed.
    pub closed spec fn is_closed(&self) -> bool {
        self.closed
    }

    /// How many finish signals have been sent to the external sink.
    pub closed spec fn close_count(&self) -> int {
        self.close_signals@
    }

    /// Exactly one finish signal is ever sent, and only by closing.
    pub closed spec fn wf(&self) -> bool {
        self.close_signals@ == if self.closed {
            1int
        } else {
            0int
        }
    }

    /// A fresh writer: nothing forwarded, open, no finish signal sent.
    pub fn new() -> (r: Self)
        ensures
            r.wf(),
            r.forwarded() == Seq::<Seq<u8>>::empty(),
            !r.is_closed(),
            r.close_count() == 0,
    {
        SinkWriter { closed: false, forwarded: Ghost(Seq::empty()), close_signals: Ghost(0) }
    }

    /// Write one buffer: convert it to the binary chunk forwarded to the sink
    /// and report the full buffer as accepted. Writing after close is an
    /// error and forwards nothing.
    pub fn write(&mut self, buf: Vec<u8>) -> (r: Result<(usize, Chunk), RustlsWasmError>)
        requires
            old(self).wf(),
        ensures
            final(self).wf(),
            final(self).is_closed() == old(self).is_closed(),
            final(self).close_count() == old(self).close_count(),
            !old(self).is_closed() ==> {
                &&& r matches Ok((accepted, c))
                    && accepted == buf@.len()
                    && c == Chunk::Binary(buf)
                &&& final(self).forwarded() == old(self).forwarded().push(buf@)
            },
            old(self).is_closed() ==> {
                &&& r == Err::<(usize, Chunk), RustlsWasmError>(RustlsWasmError::Io)
                &&& final(self).forwarded() == old(self).forwarded()
            },
    {
        if self.closed {
            return Err(RustlsWasmError::Io);
        }
        let accepted = buf.len();
        proof {
            self.forwarded@ = self.forwarded@.push(buf@);
        }
        Ok((accepted, Chunk::Binary(buf)))
    }

    /// Flush: the writer buffers nothing of its own, so there is nothing to
    /// push down and flushing trivially succeeds, changing no state and
    /// forwarding no chunk.
    pub fn flush(&self) -> (r: Result<(), RustlsWasmError>)
        ensures
            r == Ok::<(), RustlsWasmError>(()),
    {
        Ok(())
    }

    /// Close the writer: send the single finish signal to the external sink.
    /// A second close is rejected and sends nothing.
    pub fn close(&mut self) -> (r: Result<(), RustlsWasmError>)
        requires
            old(self).wf(),
        ensures
            final(self).wf(),
            final(self).forwarded() == old(self).forwarded(),
            final(self).is_closed(),
            !old(self).is_closed() ==> {
                &&& r is Ok
                &&& final(self).close_count() == 1
            },
            old(self).is_closed() ==> {
                &&& r == Err::<(), RustlsWasmError>(RustlsWasmError::Io)
                &&& final(self).close_count() == old(self).close_count()
            },
    {
        if self.closed {
            return Err(RustlsWasmError::Io);
        }
        self.closed = true;
        proof {
            self.close_signals@ = self.close_signals@ + 1;
        }
        Ok(())
    }
}

/// A well-formed writer has sent at most one finish signal, and exactly one
/// precisely when it has been closed.
pub proof fn lemma_at_most_one_close(w: SinkWriter)
    requires
        w.wf(),
    ensures
        0 <= w.close_count() <= 1,
        (w.close_count() == 1) <==> w.is_closed(),
{
}

} // verus!
