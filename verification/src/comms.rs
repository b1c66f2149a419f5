use vstd::bytes::{
    lemma_auto_spec_u64_to_from_le_bytes, spec_u64_from_le_bytes, u64_from_le_bytes,
    u64_to_le_bytes,
};
use vstd::prelude::*;
use vstd::utf8::{decode_utf8, valid_utf8};

use crate::err::CommsError;
use crate::frame::{frame_payload, frame_rest, frame_seq, has_frame, keepalive_seq, keepalive_token};
use crate::transport::Transport;

verus! {

/// The character sequence that lossy UTF-8 decoding yields for the given
/// bytes.  For valid UTF-8 it is the exact decoding; invalid sequences
/// come back with replacement characters.
pub uninterp spec fn utf8_lossy_of(bytes: Seq<u8>) -> Seq<char>;

/// Relies on String::from_utf8_lossy: the result depends on the bytes
/// alone; bytes that are valid UTF-8 decode exactly, invalid sequences
/// are replaced and never make the call fail.
#[verifier::external_body]
fn lossy_string(bytes: &[u8]) -> (r: String)
    ensures
        r@ == utf8_lossy_of(bytes@),
        valid_utf8(bytes@) ==> r@ == decode_utf8(bytes@),
{
    String::from_utf8_lossy(bytes).into_owned()
}

/// Byte-for-byte equality of two slices.
fn bytes_eq(a: &[u8], b: &[u8]) -> (r: bool)
    ensures
        r == (a@ == b@),
{
    if a.len() != b.len() {
        return false;
    }
    let n = a.len();
    let mut i: usize = 0;
    while i < n
        invariant
            i <= n,
            n == a@.len(),
            n == b@.len(),
            forall|j: int| 0 <= j < i ==> a@[j] == b@[j],
        decreases n - i,
    {
        if a[i] != b[i] {
            return false;
        }
        i += 1;
    }
    proof {
        assert(a@ =~= b@);
    }
    true
}

/// The framing protocol and the keepalive/handshake exchange built on it.
///
/// Every frame is an 8-byte little-endian length header followed by
/// exactly that many payload bytes; see [`frame_seq`].  The operations
/// are available on anything offering byte read/write: a blanket
/// implementation equips every [`Transport`] with them, so sockets,
/// in-memory endpoints and wrappers all present the same call surface.
///
/// Whether the underlying transport succeeds is its own affair, so
/// success is never owed; the contracts pin down what every outcome
/// means for the byte streams.  After a failed operation the framing
/// state of the connection is undefined and it should be discarded.
pub trait SyncComms: Transport {
    /// Receive one frame: read the 8-byte header, then exactly as many
    /// payload bytes as it announces.  No maximum length is enforced, so
    /// a hostile header can demand an arbitrarily large allocation.
    fn receive(&mut self) -> (r: Result<Vec<u8>, CommsError>)
        ensures
            r matches Ok(msg) ==> has_frame(old(self).inbox())
                && msg@ == frame_payload(old(self).inbox())
                && final(self).inbox() == frame_rest(old(self).inbox())
                && final(self).outbox() == old(self).outbox(),
            r matches Err(e) ==> e is Io || e is UnexpectedEof,
    ;

    /// Send `buf` as one frame: write the length header, flush, write the
    /// payload, flush.  The two flush points guarantee that a receiver
    /// reading incrementally never sees a partial payload as a header.
    fn send(&mut self, buf: &[u8]) -> (r: Result<(), CommsError>)
        ensures
            r is Ok ==> final(self).outbox() == old(self).outbox() + frame_seq(buf@)
                && final(self).inbox() == old(self).inbox(),
            r matches Err(e) ==> e is Io || e is UnexpectedEof,
    ;

    /// Receive one frame and decode its payload as UTF-8, replacing
    /// invalid sequences; invalid UTF-8 never makes this fail.
    fn receive_to_string(&mut self) -> (r: Result<String, CommsError>)
        ensures
            r matches Ok(s) ==> has_frame(old(self).inbox())
                && s@ == utf8_lossy_of(frame_payload(old(self).inbox()))
                && (valid_utf8(frame_payload(old(self).inbox())) ==> s@ == decode_utf8(
                    frame_payload(old(self).inbox()),
                ))
                && final(self).inbox() == frame_rest(old(self).inbox())
                && final(self).outbox() == old(self).outbox(),
            r matches Err(e) ==> e is Io || e is UnexpectedEof,
    ;

    /// Receive one frame and check that its payload equals the keepalive
    /// token byte for byte; on any other payload, fail with a mismatch
    /// error carrying the received bytes.
    fn receive_keepalive(&mut self) -> (r: Result<(), CommsError>)
        ensures
            r is Ok ==> has_frame(old(self).inbox())
                && frame_payload(old(self).inbox()) == keepalive_seq()
                && final(self).inbox() == frame_rest(old(self).inbox())
                && final(self).outbox() == old(self).outbox(),
            r matches Err(CommsError::KeepaliveMismatch(p)) ==> has_frame(old(self).inbox())
                && p@ == frame_payload(old(self).inbox())
                && p@ != keepalive_seq()
                && final(self).inbox() == frame_rest(old(self).inbox())
                && final(self).outbox() == old(self).outbox(),
            r matches Err(e) ==> e is Io || e is UnexpectedEof || e is KeepaliveMismatch,
    ;

    /// Send the keepalive token as one frame.
    fn send_keepalive(&mut self) -> (r: Result<(), CommsError>)
        ensures
            r is Ok ==> final(self).outbox() == old(self).outbox() + frame_seq(keepalive_seq())
                && final(self).inbox() == old(self).inbox(),
            r matches Err(e) ==> e is Io || e is UnexpectedEof,
    ;

    /// The initiator's half of the handshake: send the keepalive token,
    /// then expect one back.  The peer must run [`Self::receive_handshake`]
    /// or both sides block forever; that pairing is the caller's duty.
    fn send_handshake(&mut self) -> (r: Result<(), CommsError>)
        ensures
            r is Ok ==> final(self).outbox() == old(self).outbox() + frame_seq(keepalive_seq())
                && has_frame(old(self).inbox())
                && frame_payload(old(self).inbox()) == keepalive_seq()
                && final(self).inbox() == frame_rest(old(self).inbox()),
            r matches Err(CommsError::KeepaliveMismatch(p)) ==> final(self).outbox() == old(
                self,
            ).outbox() + frame_seq(keepalive_seq())
                && has_frame(old(self).inbox())
                && p@ == frame_payload(old(self).inbox())
                && p@ != keepalive_seq()
                && final(self).inbox() == frame_rest(old(self).inbox()),
            r matches Err(e) ==> e is Io || e is UnexpectedEof || e is KeepaliveMismatch,
    ;

    /// The responder's half of the handshake: expect the keepalive token,
    /// then send one back.  On a mismatch nothing is sent in reply.
    fn receive_handshake(&mut self) -> (r: Result<(), CommsError>)
        ensures
            r is Ok ==> final(self).outbox() == old(self).outbox() + frame_seq(keepalive_seq())
                && has_frame(old(self).inbox())
                && frame_payload(old(self).inbox()) == keepalive_seq()
                && final(self).inbox() == frame_rest(old(self).inbox()),
            r matches Err(CommsError::KeepaliveMismatch(p)) ==> final(self).outbox() == old(
                self,
            ).outbox()
                && has_frame(old(self).inbox())
                && p@ == frame_payload(old(self).inbox())
                && p@ != keepalive_seq()
                && final(self).inbox() == frame_rest(old(self).inbox()),
            r matches Err(e) ==> e is Io || e is UnexpectedEof || e is KeepaliveMismatch,
    ;
}

impl<T: Transport> SyncComms for T {
    fn receive(&mut self) -> (r: Result<Vec<u8>, CommsError>) {
        let header = match self.read_exact(8) {
            Ok(h) => h,
            Err(e) => {
                return Err(e);
            },
        };
        let len64 = u64_from_le_bytes(header.as_slice());
        proof {
            lemma_auto_spec_u64_to_from_le_bytes();
            assert(old(self).inbox().take(8) =~= header@);
        }
        if len64 > usize::MAX as u64 {
            return Err(CommsError::Io("frame length exceeds the address space".to_owned()));
        }
        let len = len64 as usize;
        let ghost mid_inbox = self.inbox();
        let msg = match self.read_exact(len) {
            Ok(m) => m,
            Err(e) => {
                return Err(e);
            },
        };
        proof {
            assert(spec_u64_from_le_bytes(old(self).inbox().take(8)) == len64);
            assert(old(self).inbox() == header@ + mid_inbox);
            assert(has_frame(old(self).inbox()));
            assert(frame_payload(old(self).inbox()) =~= msg@);
            assert(frame_rest(old(self).inbox()) =~= self.inbox());
        }
        Ok(msg)
    }

    fn send(&mut self, buf: &[u8]) -> (r: Result<(), CommsError>) {
        let header = u64_to_le_bytes(buf.len() as u64);
        match self.write_all(header.as_slice()) {
            Ok(u) => u,
            Err(e) => {
                return Err(e);
            },
        };
        match self.flush() {
            Ok(u) => u,
            Err(e) => {
                return Err(e);
            },
        };
        match self.write_all(buf) {
            Ok(u) => u,
            Err(e) => {
                return Err(e);
            },
        };
        match self.flush() {
            Ok(u) => u,
            Err(e) => {
                return Err(e);
            },
        };
        proof {
            assert(self.outbox() =~= old(self).outbox() + frame_seq(buf@));
        }
        Ok(())
    }

    fn receive_to_string(&mut self) -> (r: Result<String, CommsError>) {
        let v = match self.receive() {
            Ok(v) => v,
            Err(e) => {
                return Err(e);
            },
        };
        Ok(lossy_string(v.as_slice()))
    }

    fn receive_keepalive(&mut self) -> (r: Result<(), CommsError>) {
        let p = match self.receive() {
            Ok(p) => p,
            Err(e) => {
                return Err(e);
            },
        };
        let token = keepalive_token();
        if bytes_eq(p.as_slice(), token.as_slice()) {
            Ok(())
        } else {
            Err(CommsError::KeepaliveMismatch(p))
        }
    }

    fn send_keepalive(&mut self) -> (r: Result<(), CommsError>) {
        let token = keepalive_token();
        self.send(token.as_slice())
    }

    fn send_handshake(&mut self) -> (r: Result<(), CommsError>) {
        match self.send_keepalive() {
            Ok(u) => u,
            Err(e) => {
                return Err(e);
            },
        };
        match self.receive_keepalive() {
            Ok(u) => u,
            Err(e) => {
                return Err(e);
            },
        };
        Ok(())
    }

    fn receive_handshake(&mut self) -> (r: Result<(), CommsError>) {
        match self.receive_keepalive() {
            Ok(u) => u,
            Err(e) => {
                return Err(e);
            },
        };
        match self.send_keepalive() {
            Ok(u) => u,
            Err(e) => {
                return Err(e);
            },
        };
        Ok(())
    }
}

} // verus!
