use vstd::prelude::*;
use vstd::slice::{slice_subrange, slice_to_vec};

use crate::err::CommsError;
use crate::transport::Transport;

verus! {

/// An in-process transport endpoint.  Bytes the peer has sent are queued
/// in `input` (already-consumed bytes stay before `pos`); bytes written
/// here accumulate in `output`.  Two of these make an in-memory duplex
/// pair by shuttling one side's output into the other side's input.
///
/// Unlike a socket, this transport decides nothing by itself: a read
/// fails exactly when fewer bytes than requested are available, and
/// writes never fail.
pub struct MemStream {
    input: Vec<u8>,
    pos: usize,
    output: Vec<u8>,
}

impl MemStream {
    /// A fresh endpoint with nothing to read and nothing written.
    pub fn new() -> (r: MemStream)
        ensures
            r.inbox() == Seq::<u8>::empty(),
            r.outbox() == Seq::<u8>::empty(),
    {
        MemStream { input: Vec::new(), pos: 0, output: Vec::new() }
    }

    /// Make bytes available for reading, as if the peer had written them.
    pub fn feed(&mut self, bytes: &[u8])
        ensures
            final(self).inbox() == old(self).inbox() + bytes@,
            final(self).outbox() == old(self).outbox(),
    {
        if self.pos > self.input.len() {
            // Unreachable for values built by this module; kept so the
            // contract holds of every state.
            self.pos = self.input.len();
        }
        let ghost orig = *self;
        let n = bytes.len();
        let mut i: usize = 0;
        while i < n
            invariant
                i <= n,
                n == bytes@.len(),
                self.pos == orig.pos,
                self.pos <= orig.input.len(),
                self.output@ == orig.output@,
                self.input@ == orig.input@ + bytes@.take(i as int),
            decreases n - i,
        {
            self.input.push(bytes[i]);
            i += 1;
            proof {
                assert(self.input@ =~= orig.input@ + bytes@.take(i as int));
            }
        }
        proof {
            assert(bytes@.take(n as int) =~= bytes@);
            assert(self.inbox() =~= orig.inbox() + bytes@);
        }
    }

    /// Drain and return everything written so far.
    pub fn take_output(&mut self) -> (r: Vec<u8>)
        ensures
            r@ == old(self).outbox(),
            final(self).outbox() == Seq::<u8>::empty(),
            final(self).inbox() == old(self).inbox(),
    {
        let mut out: Vec<u8> = Vec::new();
        core::mem::swap(&mut out, &mut self.output);
        out
    }
}

impl Transport for MemStream {
    closed spec fn inbox(&self) -> Seq<u8> {
        if self.pos <= self.input.len() {
            self.input@.skip(self.pos as int)
        } else {
            Seq::empty()
        }
    }

    closed spec fn outbox(&self) -> Seq<u8> {
        self.output@
    }

    fn read_exact(&mut self, n: usize) -> (r: Result<Vec<u8>, CommsError>)
        ensures
            r is Ok <==> n <= old(self).inbox().len(),
            r is Err ==> final(self).inbox() == old(self).inbox() && final(self).outbox() == old(
                self,
            ).outbox() && r matches Err(CommsError::UnexpectedEof),
    {
        if self.pos > self.input.len() {
            // Unreachable for values built by this module; kept so the
            // contract holds of every state.
            self.pos = self.input.len();
        }
        if n <= self.input.len() - self.pos {
            let s = slice_subrange(self.input.as_slice(), self.pos, self.pos + n);
            let out = slice_to_vec(s);
            self.pos = self.pos + n;
            proof {
                assert(old(self).inbox() =~= out@ + self.inbox());
            }
            Ok(out)
        } else {
            Err(CommsError::UnexpectedEof)
        }
    }

    fn write_all(&mut self, buf: &[u8]) -> (r: Result<(), CommsError>)
        ensures
            r is Ok,
    {
        let ghost orig = *self;
        let n = buf.len();
        let mut i: usize = 0;
        while i < n
            invariant
                i <= n,
                n == buf@.len(),
                self.pos == orig.pos,
                self.input@ == orig.input@,
                self.output@ == orig.output@ + buf@.take(i as int),
            decreases n - i,
        {
            self.output.push(buf[i]);
            i += 1;
            proof {
                assert(self.output@ =~= orig.output@ + buf@.take(i as int));
            }
        }
        proof {
            assert(buf@.take(n as int) =~= buf@);
        }
        Ok(())
    }

    fn flush(&mut self) -> (r: Result<(), CommsError>)
        ensures
            r is Ok,
    {
        Ok(())
    }
}

} // verus!
