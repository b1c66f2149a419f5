use vstd::prelude::*;

use crate::comms::SyncComms;
use crate::err::CommsError;
use crate::frame::{frame_payload, frame_rest, frame_seq, has_frame};

verus! {

/// A value the object codec can carry: the injected serialization
/// interface.  An implementation fixes, at the level of the value's
/// mathematical view, which bytes a value serializes to (`spec_enc`),
/// what deserialization yields on arbitrary bytes (`spec_dec`), and
/// proves once that decoding inverts encoding.
///
/// One frame payload carries exactly one encoded value; partial or
/// streaming values are not supported.
pub trait Wire: View + Sized {
    /// The views whose encodings round-trip; at most a size bound forced
    /// by the 8-byte length header, and met by every actual value.
    spec fn spec_wf(v: Self::V) -> bool;

    /// The byte sequence a value with this view serializes to.
    spec fn spec_enc(v: Self::V) -> Seq<u8>;

    /// What deserialization yields on the given bytes: the decoded view,
    /// or nothing when the bytes are not a valid encoding.
    spec fn spec_dec(b: Seq<u8>) -> Option<Self::V>;

    /// The codec law: decoding inverts encoding.
    proof fn lemma_enc_dec(v: Self::V)
        requires
            Self::spec_wf(v),
        ensures
            Self::spec_dec(Self::spec_enc(v)) == Some(v),
    ;

    /// Serialize this value to its wire bytes.
    fn encode(&self) -> (r: Vec<u8>)
        ensures
            r@ == Self::spec_enc(self@),
            Self::spec_wf(self@),
    ;

    /// Deserialize a value from wire bytes; fail with a decoding error
    /// exactly when the bytes are not a valid encoding.
    fn decode(b: &[u8]) -> (r: Result<Self, CommsError>)
        ensures
            r matches Ok(v) ==> Self::spec_dec(b@) == Some(v@),
            r matches Err(e) ==> Self::spec_dec(b@) is None && e matches CommsError::Decode(_),
    ;
}

/// The object codec: typed values over framed messages.  A blanket
/// implementation equips everything offering the framing protocol with
/// these operations, whether a raw transport or a steer wrapper.
///
/// The wire format carries no type tag: the caller picks the expected
/// type at the call site, so both ends must agree out of band on the
/// type and order of the values exchanged.
pub trait SyncObjComms: SyncComms {
    /// Serialize a value and send it as one frame.
    fn tx<T: Wire>(&mut self, obj: &T) -> (r: Result<(), CommsError>)
        ensures
            r is Ok ==> final(self).outbox() == old(self).outbox() + frame_seq(
                T::spec_enc(obj@),
            ) && final(self).inbox() == old(self).inbox(),
            T::spec_wf(obj@),
            T::spec_enc(obj@).len() <= u64::MAX,
            r matches Err(e) ==> e is Io || e is UnexpectedEof,
    ;

    /// Receive one frame and deserialize its payload into the requested
    /// type; fail with a decoding error exactly when the payload is not
    /// a valid encoding.  The frame is consumed either way.
    fn rx<T: Wire>(&mut self) -> (r: Result<T, CommsError>)
        ensures
            r matches Ok(v) ==> has_frame(old(self).inbox())
                && T::spec_dec(frame_payload(old(self).inbox())) == Some(v@)
                && final(self).inbox() == frame_rest(old(self).inbox())
                && final(self).outbox() == old(self).outbox(),
            r matches Err(CommsError::Decode(_)) ==> has_frame(old(self).inbox())
                && T::spec_dec(frame_payload(old(self).inbox())) is None
                && final(self).inbox() == frame_rest(old(self).inbox())
                && final(self).outbox() == old(self).outbox(),
            r matches Err(e) ==> e is Io || e is UnexpectedEof || e is Decode,
    ;
}

impl<C: SyncComms> SyncObjComms for C {
    fn tx<T: Wire>(&mut self, obj: &T) -> (r: Result<(), CommsError>) {
        let buf = obj.encode();
        let n = buf.len();
        proof {
            assert(T::spec_enc(obj@).len() == n);
        }
        self.send(buf.as_slice())
    }

    fn rx<T: Wire>(&mut self) -> (r: Result<T, CommsError>) {
        let d = match self.receive() {
            Ok(d) => d,
            Err(e) => {
                return Err(e);
            },
        };
        T::decode(d.as_slice())
    }
}

} // verus!
