use vstd::prelude::*;

verus! {

/// The failure kinds of the framing, keepalive and codec layers.
///
/// Every operation of the crate reports its failures synchronously through
/// this type; nothing is retried or suppressed internally.
#[derive(Debug, PartialEq, Eq)]
pub enum CommsError {
    /// The underlying transport failed while reading, writing or flushing.
    /// Carries the transport's own message.  The connection should be
    /// considered unusable afterwards.
    Io(String),
    /// The stream ended before a full length header or payload arrived.
    UnexpectedEof,
    /// A received keepalive frame did not equal the expected token.
    /// Carries the bytes that actually arrived, for diagnosis.  The
    /// handshake state is out of sync; the connection should be discarded.
    KeepaliveMismatch(Vec<u8>),
    /// Received bytes could not be decoded into the requested type.
    /// Carries the codec's message.  The frame has already been consumed
    /// from the transport and cannot be re-read.
    Decode(String),
}

} // verus!
