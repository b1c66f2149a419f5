use vstd::prelude::*;
use vstd::utf8::{decode_utf8, encode_utf8, valid_utf8};

use crate::encrypt::{Decrypt, Encrypt, Identity};
use crate::frame::{frame_payload, frame_rest, frame_seq, has_frame, law_frame_round_trip};
use crate::object::Wire;

verus! {

/// Text round trip: a string sent as its UTF-8 bytes arrives as a valid
/// UTF-8 payload that decodes to exactly the original characters, so
/// receiving it as a string restores the text.
pub proof fn law_text_round_trip(text: Seq<char>, rest: Seq<u8>)
    requires
        encode_utf8(text).len() <= u64::MAX,
    ensures
        has_frame(frame_seq(encode_utf8(text)) + rest),
        frame_payload(frame_seq(encode_utf8(text)) + rest) == encode_utf8(text),
        valid_utf8(frame_payload(frame_seq(encode_utf8(text)) + rest)),
        decode_utf8(frame_payload(frame_seq(encode_utf8(text)) + rest)) == text,
        frame_rest(frame_seq(encode_utf8(text)) + rest) == rest,
{
    broadcast use vstd::utf8::encode_utf8_valid_utf8, vstd::utf8::encode_utf8_decode_utf8;

    law_frame_round_trip(encode_utf8(text), rest);
}

/// Typed round trip: for every value of a codec type, receiving after
/// sending yields an equal value — the frame parses back to exactly the
/// encoded bytes, and decoding those bytes restores the value.
pub proof fn law_typed_round_trip<T: Wire>(v: T::V, rest: Seq<u8>)
    requires
        T::spec_wf(v),
        T::spec_enc(v).len() <= u64::MAX,
    ensures
        has_frame(frame_seq(T::spec_enc(v)) + rest),
        T::spec_dec(frame_payload(frame_seq(T::spec_enc(v)) + rest)) == Some(v),
        frame_rest(frame_seq(T::spec_enc(v)) + rest) == rest,
{
    law_frame_round_trip(T::spec_enc(v), rest);
    T::lemma_enc_dec(v);
}

/// Steer round trip: for any transform whose decryption inverts its
/// encryption under the key in use, a value sent through a steer is
/// recovered by the receiving steer — the frame parses back to the
/// transformed bytes, undoing the transform restores the encoding, and
/// decoding restores the value.
pub proof fn law_steer_round_trip<T: Wire, E: Encrypt + Decrypt>(
    v: T::V,
    key: Seq<u8>,
    rest: Seq<u8>,
)
    requires
        T::spec_wf(v),
        E::spec_decrypt(E::spec_encrypt(T::spec_enc(v), key), key) == T::spec_enc(v),
        E::spec_encrypt(T::spec_enc(v), key).len() <= u64::MAX,
    ensures
        ({
            let wire = frame_seq(E::spec_encrypt(T::spec_enc(v), key)) + rest;
            &&& has_frame(wire)
            &&& T::spec_dec(E::spec_decrypt(frame_payload(wire), key)) == Some(v)
            &&& frame_rest(wire) == rest
        }),
{
    law_frame_round_trip(E::spec_encrypt(T::spec_enc(v), key), rest);
    T::lemma_enc_dec(v);
}

/// A steer with the identity transform behaves exactly as the unwrapped
/// codec: what it frames is the plain encoding, and the receiving side
/// recovers the value just as a plain round trip would.
pub proof fn law_steer_identity<T: Wire>(v: T::V, key: Seq<u8>, rest: Seq<u8>)
    requires
        T::spec_wf(v),
        T::spec_enc(v).len() <= u64::MAX,
    ensures
        Identity::spec_encrypt(T::spec_enc(v), key) == T::spec_enc(v),
        ({
            let wire = frame_seq(T::spec_enc(v)) + rest;
            &&& has_frame(wire)
            &&& T::spec_dec(Identity::spec_decrypt(frame_payload(wire), key)) == Some(v)
            &&& frame_rest(wire) == rest
        }),
{
    law_steer_round_trip::<T, Identity>(v, key, rest);
}

} // verus!
