use core::marker::PhantomData;
use vstd::prelude::*;

use crate::comms::SyncComms;
use crate::encrypt::{Decrypt, Encrypt};
use crate::err::CommsError;
use crate::frame::{frame_payload, frame_rest, frame_seq, has_frame};
use crate::object::Wire;
use crate::transport::Transport;

verus! {

/// A channel that interposes an encryption transform between the object
/// codec and the framing layer.  It owns the wrapped transport
/// exclusively and borrows the key, which must outlive the channel; the
/// transform is a type tag fixed at construction.  Payload bytes are
/// transformed on both ways through; the length header always travels in
/// clear, so an eavesdropper can observe message sizes and boundaries.
pub struct SyncSteer<'a, S: Transport, E: Encrypt + Decrypt> {
    stream: S,
    key: &'a [u8],
    ty: PhantomData<E>,
}

impl<'a, S: Transport, E: Encrypt + Decrypt> SyncSteer<'a, S, E> {
    /// The bytes still to be read from the wrapped transport.
    pub closed spec fn inbox(&self) -> Seq<u8> {
        self.stream.inbox()
    }

    /// The bytes the wrapped transport has written so far.
    pub closed spec fn outbox(&self) -> Seq<u8> {
        self.stream.outbox()
    }

    /// The key currently in use.
    pub closed spec fn key_view(&self) -> Seq<u8> {
        self.key@
    }

    /// Wrap a transport, taking exclusive ownership of it, and borrow
    /// the key.
    pub fn new(stream: S, key: &'a [u8]) -> (r: Self)
        ensures
            r.inbox() == stream.inbox(),
            r.outbox() == stream.outbox(),
            r.key_view() == key@,
    {
        SyncSteer { stream, key, ty: PhantomData }
    }

    /// Serialize a value, pass the bytes through the transform under the
    /// current key, and send the result as one frame.
    pub fn tx<T: Wire>(&mut self, obj: &T) -> (r: Result<(), CommsError>)
        ensures
            r is Ok ==> final(self).outbox() == old(self).outbox() + frame_seq(
                E::spec_encrypt(T::spec_enc(obj@), old(self).key_view()),
            )
                && final(self).inbox() == old(self).inbox()
                && final(self).key_view() == old(self).key_view(),
            T::spec_wf(obj@),
            E::spec_encrypt(T::spec_enc(obj@), old(self).key_view()).len() <= u64::MAX,
            r matches Err(e) ==> e is Io || e is UnexpectedEof,
    {
        let buf = obj.encode();
        let buf = E::encrypt(buf, self.key);
        let n = buf.len();
        proof {
            assert(E::spec_encrypt(T::spec_enc(obj@), self.key@).len() == n);
        }
        self.stream.send(buf.as_slice())
    }

    /// Receive one frame, pass its payload through the transform under
    /// the current key, and deserialize the result.  A payload that the
    /// transform turns into garbage fails only here, as a decoding
    /// error; no tampering is detected earlier.
    pub fn rx<T: Wire>(&mut self) -> (r: Result<T, CommsError>)
        ensures
            r matches Ok(v) ==> has_frame(old(self).inbox())
                && T::spec_dec(
                E::spec_decrypt(frame_payload(old(self).inbox()), old(self).key_view()),
            ) == Some(v@)
                && final(self).inbox() == frame_rest(old(self).inbox())
                && final(self).outbox() == old(self).outbox()
                && final(self).key_view() == old(self).key_view(),
            r matches Err(CommsError::Decode(_)) ==> has_frame(old(self).inbox())
                && T::spec_dec(
                E::spec_decrypt(frame_payload(old(self).inbox()), old(self).key_view()),
            ) is None
                && final(self).inbox() == frame_rest(old(self).inbox())
                && final(self).outbox() == old(self).outbox()
                && final(self).key_view() == old(self).key_view(),
            r matches Err(e) ==> e is Io || e is UnexpectedEof || e is Decode,
    {
        let buf = match self.stream.receive() {
            Ok(b) => b,
            Err(e) => {
                return Err(e);
            },
        };
        let buf = E::decrypt(buf, self.key);
        T::decode(buf.as_slice())
    }

    /// Unwrap the channel, handing the transport back.
    pub fn into_inner(self) -> (r: S)
        ensures
            r.inbox() == self.inbox(),
            r.outbox() == self.outbox(),
    {
        let SyncSteer { stream, .. } = self;
        stream
    }

    /// Rebind the key; the new key must outlive the channel.  The
    /// transform itself cannot be swapped at runtime.
    pub fn set_key(&mut self, k: &'a [u8])
        ensures
            final(self).key_view() == k@,
            final(self).inbox() == old(self).inbox(),
            final(self).outbox() == old(self).outbox(),
    {
        self.key = k;
    }
}

} // verus!
