//! A transport-agnostic message framing layer.
//!
//! The crate turns any duplex byte stream into a boundary-preserving message
//! channel: every message travels as one frame, an 8-byte little-endian
//! length header followed by exactly that many payload bytes.  On top of the
//! framing sit a keepalive/handshake protocol, a typed object codec, and the
//! `SyncSteer` wrapper that passes payload bytes through an encryption
//! transform without the codec or the framing layer noticing.

mod comms;
mod encrypt;
mod err;
mod frame;
mod laws;
mod mem;
mod message;
mod object;
mod steer;
mod transport;

pub use comms::{utf8_lossy_of, SyncComms};
pub use encrypt::{lemma_xor_involution, xor_with_key, Decrypt, Encrypt, Identity, XorCipher};
pub use err::CommsError;
pub use frame::{
    frame_payload, frame_rest, frame_seq, has_frame, keepalive_seq, keepalive_token,
    law_frame_round_trip, law_frames_in_order, law_handshake_mismatch, law_handshake_symmetry,
};
pub use laws::{law_steer_identity, law_steer_round_trip, law_text_round_trip, law_typed_round_trip};
pub use mem::MemStream;
pub use message::{
    pair_decodable, pair_num_field, str_field, str_len, string_decodable, Message, MessageView,
};
pub use object::{SyncObjComms, Wire};
pub use steer::SyncSteer;
pub use transport::Transport;
