use vstd::prelude::*;

use crate::err::CommsError;

verus! {

/// A duplex byte transport: the minimal capability from which the framing
/// protocol is derived.  An endpoint is modelled by two byte sequences:
/// `inbox`, the bytes still available to read, and `outbox`, the bytes
/// written so far.
///
/// Whether a read or write succeeds is the transport's own affair (a
/// socket may fail at any moment); the contracts therefore only pin down
/// what each operation did to the two sequences when it reports success,
/// and that a transport fails with an I/O-class error only.
pub trait Transport: Sized {
    /// The bytes that are still to be read from this endpoint.
    spec fn inbox(&self) -> Seq<u8>;

    /// The bytes this endpoint has written so far.
    spec fn outbox(&self) -> Seq<u8>;

    /// Read exactly `n` bytes, failing if the stream ends first.
    fn read_exact(&mut self, n: usize) -> (r: Result<Vec<u8>, CommsError>)
        ensures
            r matches Ok(bytes) ==> bytes@.len() == n
                && old(self).inbox() == bytes@ + final(self).inbox()
                && final(self).outbox() == old(self).outbox(),
            r matches Err(e) ==> e is Io || e is UnexpectedEof,
    ;

    /// Write the whole buffer.
    fn write_all(&mut self, buf: &[u8]) -> (r: Result<(), CommsError>)
        ensures
            r is Ok ==> final(self).outbox() == old(self).outbox() + buf@
                && final(self).inbox() == old(self).inbox(),
            r matches Err(e) ==> e is Io || e is UnexpectedEof,
    ;

    /// Push any buffered bytes to the wire.  The model keeps no buffer, so
    /// on success nothing changes; the framing layer still flushes after
    /// the header and after the payload so that a real transport has the
    /// header fully on the wire before the payload begins.
    fn flush(&mut self) -> (r: Result<(), CommsError>)
        ensures
            r is Ok ==> final(self).outbox() == old(self).outbox()
                && final(self).inbox() == old(self).inbox(),
            r matches Err(e) ==> e is Io || e is UnexpectedEof,
    ;
}

} // verus!
