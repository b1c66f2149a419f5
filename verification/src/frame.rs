use vstd::bytes::*;
use vstd::prelude::*;

verus! {

/// The fixed keepalive token both endpoints agree on out of band.  It is
/// used only as a frame payload for liveness and handshake checks, never
/// for data integrity.
pub open spec fn keepalive_seq() -> Seq<u8> {
    seq![19u8, 233u8, 92u8, 175u8]
}

/// The keepalive token as a byte vector.
pub fn keepalive_token() -> (r: Vec<u8>)
    ensures
        r@ == keepalive_seq(),
{
    let mut v: Vec<u8> = Vec::new();
    v.push(19u8);
    v.push(233u8);
    v.push(92u8);
    v.push(175u8);
    proof {
        assert(v@ =~= keepalive_seq());
    }
    v
}

/// One frame as it appears on the wire: an 8-byte little-endian length
/// header followed by exactly that many payload bytes.  The header is
/// always sent in clear, so message sizes and boundaries are observable
/// even when the payload is transformed.
pub open spec fn frame_seq(payload: Seq<u8>) -> Seq<u8>
    recommends
        payload.len() <= u64::MAX,
{
    spec_u64_to_le_bytes(payload.len() as u64) + payload
}

/// True when `s` begins with one complete frame: a full header whose
/// length value is covered by the bytes that follow it.
pub open spec fn has_frame(s: Seq<u8>) -> bool {
    s.len() >= 8 && 8 + spec_u64_from_le_bytes(s.take(8)) as int <= s.len()
}

/// The payload of the first frame in `s`.
pub open spec fn frame_payload(s: Seq<u8>) -> Seq<u8>
    recommends
        has_frame(s),
{
    s.subrange(8, 8 + spec_u64_from_le_bytes(s.take(8)) as int)
}

/// What remains of `s` after its first frame.
pub open spec fn frame_rest(s: Seq<u8>) -> Seq<u8>
    recommends
        has_frame(s),
{
    s.skip(8 + spec_u64_from_le_bytes(s.take(8)) as int)
}

/// Framing round trip: for every payload, including the empty one, the
/// bytes that `send` emits parse back to exactly that payload, and the
/// bytes that follow the frame are untouched.
pub proof fn law_frame_round_trip(payload: Seq<u8>, rest: Seq<u8>)
    requires
        payload.len() <= u64::MAX,
    ensures
        has_frame(frame_seq(payload) + rest),
        frame_payload(frame_seq(payload) + rest) == payload,
        frame_rest(frame_seq(payload) + rest) == rest,
{
    lemma_auto_spec_u64_to_from_le_bytes();
    let s = frame_seq(payload) + rest;
    assert(s.take(8) =~= spec_u64_to_le_bytes(payload.len() as u64));
    assert(frame_payload(s) =~= payload);
    assert(frame_rest(s) =~= rest);
}

/// Frame boundary integrity under back-to-back sends: three payloads sent
/// in sequence on one connection are received as exactly those three
/// payloads, in order, with no truncation or merging.
pub proof fn law_frames_in_order(b1: Seq<u8>, b2: Seq<u8>, b3: Seq<u8>, rest: Seq<u8>)
    requires
        b1.len() <= u64::MAX,
        b2.len() <= u64::MAX,
        b3.len() <= u64::MAX,
    ensures
        ({
            let wire = frame_seq(b1) + frame_seq(b2) + frame_seq(b3) + rest;
            &&& has_frame(wire)
            &&& frame_payload(wire) == b1
            &&& has_frame(frame_rest(wire))
            &&& frame_payload(frame_rest(wire)) == b2
            &&& has_frame(frame_rest(frame_rest(wire)))
            &&& frame_payload(frame_rest(frame_rest(wire))) == b3
            &&& frame_rest(frame_rest(frame_rest(wire))) == rest
        }),
{
    let wire = frame_seq(b1) + frame_seq(b2) + frame_seq(b3) + rest;
    assert(wire =~= frame_seq(b1) + (frame_seq(b2) + (frame_seq(b3) + rest)));
    law_frame_round_trip(b1, frame_seq(b2) + (frame_seq(b3) + rest));
    law_frame_round_trip(b2, frame_seq(b3) + rest);
    law_frame_round_trip(b3, rest);
}

/// Handshake symmetry: the keepalive frame one side emits parses, on the
/// other side, to exactly the keepalive token, in both directions of the
/// exchange and whatever bytes follow it on either stream.
pub proof fn law_handshake_symmetry(rest_a: Seq<u8>, rest_b: Seq<u8>)
    ensures
        has_frame(frame_seq(keepalive_seq()) + rest_b),
        frame_payload(frame_seq(keepalive_seq()) + rest_b) == keepalive_seq(),
        frame_rest(frame_seq(keepalive_seq()) + rest_b) == rest_b,
        has_frame(frame_seq(keepalive_seq()) + rest_a),
        frame_payload(frame_seq(keepalive_seq()) + rest_a) == keepalive_seq(),
        frame_rest(frame_seq(keepalive_seq()) + rest_a) == rest_a,
{
    law_frame_round_trip(keepalive_seq(), rest_b);
    law_frame_round_trip(keepalive_seq(), rest_a);
}

/// Handshake mismatch: a frame carrying any token other than the
/// keepalive token arrives as exactly those differing bytes, so the
/// receiving side can report them in its protocol-mismatch error.
pub proof fn law_handshake_mismatch(token: Seq<u8>, rest: Seq<u8>)
    requires
        token != keepalive_seq(),
        token.len() <= u64::MAX,
    ensures
        has_frame(frame_seq(token) + rest),
        frame_payload(frame_seq(token) + rest) == token,
        frame_payload(frame_seq(token) + rest) != keepalive_seq(),
        frame_rest(frame_seq(token) + rest) == rest,
{
    law_frame_round_trip(token, rest);
}

} // verus!
