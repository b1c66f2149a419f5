use vstd::bytes::{
    lemma_auto_spec_u32_to_from_le_bytes, lemma_auto_spec_u64_to_from_le_bytes,
    spec_u32_from_le_bytes, spec_u32_to_le_bytes, spec_u64_from_le_bytes, spec_u64_to_le_bytes,
    u64_from_le_bytes, u64_to_le_bytes,
};
use vstd::prelude::*;
use vstd::slice::{slice_subrange, slice_to_vec};
use vstd::utf8::{decode_utf8, encode_utf8, valid_utf8};

use crate::err::CommsError;
use crate::object::Wire;

verus! {

// Both codec values of this crate use bincode's fixed-width
// little-endian layout, in which a string travels as an 8-byte length
// followed by its UTF-8 bytes.  The helpers below name the parts of
// such an encoding.

/// The string length announced in the first 8 bytes of an encoding.
pub open spec fn str_len(b: Seq<u8>) -> int {
    spec_u64_from_le_bytes(b.take(8)) as int
}

/// The announced string bytes of an encoding.
pub open spec fn str_field(b: Seq<u8>) -> Seq<u8> {
    b.subrange(8, 8 + str_len(b))
}

/// True when the bytes begin with a decodable string: a full length
/// header and as many string bytes as it announces, in valid UTF-8.
/// Trailing bytes are tolerated.
pub open spec fn string_decodable(b: Seq<u8>) -> bool {
    b.len() >= 8 && 8 + str_len(b) <= b.len() && valid_utf8(str_field(b))
}

/// The 4 number bytes that follow the string in an encoded pair.
pub open spec fn pair_num_field(b: Seq<u8>) -> Seq<u8> {
    b.subrange(8 + str_len(b), 12 + str_len(b))
}

/// True when the bytes begin with a decodable string-and-number pair: a
/// decodable string and 4 number bytes after it.  Trailing bytes are
/// tolerated.
pub open spec fn pair_decodable(b: Seq<u8>) -> bool {
    b.len() >= 8 && 12 + str_len(b) <= b.len() && valid_utf8(str_field(b))
}

/// Relies on String::from_utf8: returns the decoded string exactly when
/// the bytes are valid UTF-8, and nothing otherwise.
#[verifier::external_body]
fn string_from_utf8(b: Vec<u8>) -> (r: Option<String>)
    ensures
        r matches Some(s) ==> valid_utf8(b@) && s@ == decode_utf8(b@),
        r is None ==> !valid_utf8(b@),
{
    String::from_utf8(b).ok()
}

/// The wire format of a string alone: its length, then its UTF-8 bytes.
/// This is also what bincode makes of a string.
impl Wire for String {
    open spec fn spec_wf(v: Seq<char>) -> bool {
        encode_utf8(v).len() <= u64::MAX
    }

    open spec fn spec_enc(v: Seq<char>) -> Seq<u8> {
        spec_u64_to_le_bytes(encode_utf8(v).len() as u64) + encode_utf8(v)
    }

    open spec fn spec_dec(b: Seq<u8>) -> Option<Seq<char>> {
        if string_decodable(b) {
            Some(decode_utf8(str_field(b)))
        } else {
            None
        }
    }

    proof fn lemma_enc_dec(v: Seq<char>) {
        broadcast use vstd::utf8::encode_utf8_valid_utf8, vstd::utf8::encode_utf8_decode_utf8;

        lemma_auto_spec_u64_to_from_le_bytes();
        let b = Self::spec_enc(v);
        assert(b.take(8) =~= spec_u64_to_le_bytes(encode_utf8(v).len() as u64));
        assert(str_field(b) =~= encode_utf8(v));
    }

    fn encode(&self) -> (r: Vec<u8>) {
        let bytes = self.as_str().as_bytes();
        let n = bytes.len();
        let mut r = u64_to_le_bytes(n as u64);
        let mut i: usize = 0;
        while i < n
            invariant
                i <= n,
                n == bytes@.len(),
                r@ == spec_u64_to_le_bytes(n as u64) + bytes@.take(i as int),
            decreases n - i,
        {
            r.push(bytes[i]);
            i += 1;
            proof {
                assert(r@ =~= spec_u64_to_le_bytes(n as u64) + bytes@.take(i as int));
            }
        }
        proof {
            assert(bytes@.take(n as int) =~= bytes@);
        }
        r
    }

    fn decode(b: &[u8]) -> (r: Result<String, CommsError>) {
        if b.len() < 8 {
            return Err(CommsError::Decode("string payload shorter than its header".to_owned()));
        }
        let header = slice_subrange(b, 0, 8);
        let len64 = u64_from_le_bytes(header);
        proof {
            assert(header@ =~= b@.take(8));
        }
        if len64 > (b.len() - 8) as u64 {
            return Err(CommsError::Decode("announced string length exceeds the input".to_owned()));
        }
        let n = len64 as usize;
        let sb = slice_to_vec(slice_subrange(b, 8, 8 + n));
        match string_from_utf8(sb) {
            Some(s) => Ok(s),
            None => Err(CommsError::Decode("string payload is not valid UTF-8".to_owned())),
        }
    }
}

/// The mathematical content of a [`Message`]: its text as a character
/// sequence and its number.
pub struct MessageView {
    pub hello: Seq<char>,
    pub val: u32,
}

/// A record with a string field and an unsigned-integer field: the
/// compound codec value this crate ships.  Its wire format is what
/// bincode makes of the pair: the string as above, then the number as 4
/// little-endian bytes.
#[derive(Debug, PartialEq, Eq)]
pub struct Message {
    pub hello: String,
    pub val: u32,
}

impl View for Message {
    type V = MessageView;

    open spec fn view(&self) -> MessageView {
        MessageView { hello: self.hello@, val: self.val }
    }
}

/// Relies on bincode::serialize, whose fixed-width little-endian layout
/// writes tuple fields one after the other: a string as an 8-byte length
/// followed by its UTF-8 bytes, a u32 as 4 bytes.  For a string and an
/// integer the call cannot fail.
#[verifier::external_body]
fn bincode_put_pair(hello: &String, val: u32) -> (r: Vec<u8>)
    ensures
        r@ == spec_u64_to_le_bytes(encode_utf8(hello@).len() as u64) + encode_utf8(hello@)
            + spec_u32_to_le_bytes(val),
{
    bincode::serialize(&(hello, val)).unwrap_or_default()
}

/// Relies on bincode::deserialize, which succeeds exactly when the input
/// begins with an 8-byte length, that many bytes of valid UTF-8 and 4
/// further bytes; trailing bytes are ignored.  On failure it reports the
/// reason in its error message.
#[verifier::external_body]
fn bincode_get_pair(b: &[u8]) -> (r: Result<(String, u32), CommsError>)
    ensures
        r matches Ok(p) ==> pair_decodable(b@) && p.0@ == decode_utf8(str_field(b@))
            && p.1 == spec_u32_from_le_bytes(pair_num_field(b@)),
        r matches Err(e) ==> !pair_decodable(b@) && e matches CommsError::Decode(_),
{
    match bincode::deserialize::<(String, u32)>(b) {
        Ok(p) => Ok(p),
        Err(e) => Err(CommsError::Decode(e.to_string())),
    }
}

impl Wire for Message {
    open spec fn spec_wf(v: MessageView) -> bool {
        encode_utf8(v.hello).len() <= u64::MAX
    }

    open spec fn spec_enc(v: MessageView) -> Seq<u8> {
        spec_u64_to_le_bytes(encode_utf8(v.hello).len() as u64) + encode_utf8(v.hello)
            + spec_u32_to_le_bytes(v.val)
    }

    open spec fn spec_dec(b: Seq<u8>) -> Option<MessageView> {
        if pair_decodable(b) {
            Some(
                MessageView {
                    hello: decode_utf8(str_field(b)),
                    val: spec_u32_from_le_bytes(pair_num_field(b)),
                },
            )
        } else {
            None
        }
    }

    proof fn lemma_enc_dec(v: MessageView) {
        broadcast use vstd::utf8::encode_utf8_valid_utf8, vstd::utf8::encode_utf8_decode_utf8;

        lemma_auto_spec_u64_to_from_le_bytes();
        lemma_auto_spec_u32_to_from_le_bytes();
        let b = Self::spec_enc(v);
        assert(b.take(8) =~= spec_u64_to_le_bytes(encode_utf8(v.hello).len() as u64));
        assert(str_field(b) =~= encode_utf8(v.hello));
        assert(pair_num_field(b) =~= spec_u32_to_le_bytes(v.val));
    }

    fn encode(&self) -> (r: Vec<u8>) {
        let r = bincode_put_pair(&self.hello, self.val);
        proof {
            lemma_auto_spec_u64_to_from_le_bytes();
            lemma_auto_spec_u32_to_from_le_bytes();
        }
        let n = r.len();
        proof {
            assert(encode_utf8(self.hello@).len() == n - 12);
        }
        r
    }

    fn decode(b: &[u8]) -> (r: Result<Message, CommsError>) {
        match bincode_get_pair(b) {
            Ok(p) => Ok(Message { hello: p.0, val: p.1 }),
            Err(e) => Err(e),
        }
    }
}

} // verus!
