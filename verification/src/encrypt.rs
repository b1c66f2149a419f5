use vstd::prelude::*;

verus! {

/// An encryption method a steer can interpose between the codec and the
/// framing layer.  The transform is a pure function of payload bytes and
/// key; which transform a channel uses is fixed at construction as a
/// type tag, only the key can change.
pub trait Encrypt {
    /// What `encrypt` returns for the given payload and key.
    spec fn spec_encrypt(data: Seq<u8>, key: Seq<u8>) -> Seq<u8>;

    /// Transform payload bytes on their way out, before framing.
    fn encrypt(data: Vec<u8>, key: &[u8]) -> (r: Vec<u8>)
        ensures
            r@ == Self::spec_encrypt(data@, key@),
    ;
}

/// The matching decryption method; see [`Encrypt`].
pub trait Decrypt {
    /// What `decrypt` returns for the given payload and key.
    spec fn spec_decrypt(data: Seq<u8>, key: Seq<u8>) -> Seq<u8>;

    /// Transform payload bytes on their way in, after receipt.
    fn decrypt(data: Vec<u8>, key: &[u8]) -> (r: Vec<u8>)
        ensures
            r@ == Self::spec_decrypt(data@, key@),
    ;
}

/// The default transform: bytes pass through unchanged in both
/// directions.  Explicitly non-confidential; real confidentiality
/// requires supplying another transform.
pub struct Identity;

impl Encrypt for Identity {
    open spec fn spec_encrypt(data: Seq<u8>, key: Seq<u8>) -> Seq<u8> {
        data
    }

    fn encrypt(data: Vec<u8>, key: &[u8]) -> (r: Vec<u8>) {
        data
    }
}

impl Decrypt for Identity {
    open spec fn spec_decrypt(data: Seq<u8>, key: Seq<u8>) -> Seq<u8> {
        data
    }

    fn decrypt(data: Vec<u8>, key: &[u8]) -> (r: Vec<u8>) {
        data
    }
}

/// What the xor transform does to a byte sequence: with an empty key the
/// bytes pass through; otherwise each byte is xor-ed with the key byte
/// at its position, the key repeating cyclically.
pub open spec fn xor_with_key(data: Seq<u8>, key: Seq<u8>) -> Seq<u8> {
    if key.len() == 0 {
        data
    } else {
        Seq::new(data.len(), |i: int| data[i] ^ key[i % (key.len() as int)])
    }
}

/// A non-identity transform: xor with a cyclically repeated key.  It is
/// its own inverse under the same key ([`lemma_xor_involution`]).  A
/// demonstration cipher, not serious confidentiality.
pub struct XorCipher;

fn xor_bytes(data: Vec<u8>, key: &[u8]) -> (r: Vec<u8>)
    ensures
        r@ == xor_with_key(data@, key@),
{
    if key.len() == 0 {
        return data;
    }
    let n = data.len();
    let mut out: Vec<u8> = Vec::new();
    let mut i: usize = 0;
    while i < n
        invariant
            i <= n,
            n == data@.len(),
            key@.len() > 0,
            out@ == xor_with_key(data@, key@).take(i as int),
        decreases n - i,
    {
        out.push(data[i] ^ key[i % key.len()]);
        i += 1;
        proof {
            assert(out@ =~= xor_with_key(data@, key@).take(i as int));
        }
    }
    proof {
        assert(out@ =~= xor_with_key(data@, key@));
    }
    out
}

impl Encrypt for XorCipher {
    open spec fn spec_encrypt(data: Seq<u8>, key: Seq<u8>) -> Seq<u8> {
        xor_with_key(data, key)
    }

    fn encrypt(data: Vec<u8>, key: &[u8]) -> (r: Vec<u8>) {
        xor_bytes(data, key)
    }
}

impl Decrypt for XorCipher {
    open spec fn spec_decrypt(data: Seq<u8>, key: Seq<u8>) -> Seq<u8> {
        xor_with_key(data, key)
    }

    fn decrypt(data: Vec<u8>, key: &[u8]) -> (r: Vec<u8>) {
        xor_bytes(data, key)
    }
}

/// The xor transform is a matched pair: decrypting an encryption under
/// the same key restores the original bytes.
pub proof fn lemma_xor_involution(data: Seq<u8>, key: Seq<u8>)
    ensures
        XorCipher::spec_decrypt(XorCipher::spec_encrypt(data, key), key) == data,
{
    if key.len() > 0 {
        let once = xor_with_key(data, key);
        let twice = xor_with_key(once, key);
        assert forall|i: int| 0 <= i < data.len() implies twice[i] == data[i] by {
            let a = data[i];
            let b = key[i % (key.len() as int)];
            assert((a ^ b) ^ b == a) by (bit_vector);
        }
        assert(twice =~= data);
    }
}

} // verus!
