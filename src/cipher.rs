use vstd::prelude::*;
use crate::error::{Error, str_eq};

verus! {

/// Name of the AES-128 counter-mode cipher in keystore documents.
pub const AES128_CTR_CIPHER_NAME: &'static str = "aes-128-ctr";

/// Length of a cipher key in bytes.
pub const CIPHER_KEY_BYTES: usize = 16;

/// Length of a cipher initialization vector in bytes.
pub const CIPHER_IV_BYTES: usize = 16;

/// The AES-128 keystream that counter mode produces from a key and an initial
/// counter block, cut to `len` bytes.
pub uninterp spec fn aes128_ctr_keystream(key: Seq<u8>, iv: Seq<u8>, len: nat) -> Seq<u8>;

/// Byte-wise exclusive or of `data` with a keystream at least as long.
pub open spec fn xor_with(data: Seq<u8>, stream: Seq<u8>) -> Seq<u8> {
    Seq::new(data.len(), |i: int| data[i] ^ stream[i])
}

/// Counter-mode transformation of `data`: the same for encryption and decryption.
pub open spec fn ctr_apply(key: Seq<u8>, iv: Seq<u8>, data: Seq<u8>) -> Seq<u8> {
    xor_with(data, aes128_ctr_keystream(key, iv, data.len()))
}

/// Applying counter mode twice with the same key and vector gives the data back.
pub proof fn lemma_ctr_involution(key: Seq<u8>, iv: Seq<u8>, data: Seq<u8>)
    ensures
        ctr_apply(key, iv, ctr_apply(key, iv, data)) == data,
{
    let once = ctr_apply(key, iv, data);
    let twice = ctr_apply(key, iv, once);
    let ks = aes128_ctr_keystream(key, iv, data.len());
    assert forall|i: int| 0 <= i < data.len() implies twice[i] == data[i] by {
        let a = data[i];
        let b = ks[i];
        assert((a ^ b) ^ b == a) by (bit_vector);
    }
    assert(twice =~= data);
}

/// Relies on rust-crypto's `aes::ctr` with a 128-bit key: the output is the
/// input XORed with the AES keystream of the key and the initial counter block.
#[verifier::external_body]
fn aes128_ctr(data: &[u8], key: &[u8], iv: &[u8]) -> (r: Vec<u8>)
    requires
        key@.len() == CIPHER_KEY_BYTES,
        iv@.len() == CIPHER_IV_BYTES,
    ensures
        r@ == xor_with(data@, aes128_ctr_keystream(key@, iv@, data@.len())),
{
    let mut out = vec![0u8; data.len()];
    let mut c = crypto::aes::ctr(crypto::aes::KeySize::KeySize128, key, iv);
    c.process(data, &mut out);
    out
}

/// Symmetric ciphers for the private key.
#[derive(Clone, Copy, Debug, PartialEq, Eq)]
pub enum Cipher {
    /// AES-128 in counter mode
    Aes128Ctr,
}

impl Default for Cipher {
    fn default() -> (r: Cipher)
        ensures
            r == Cipher::Aes128Ctr,
    {
        Cipher::Aes128Ctr
    }
}

impl Cipher {
    /// Encrypts (or, identically, decrypts) `data` under `key` and `iv`.
    pub fn encrypt(&self, data: &[u8], key: &[u8], iv: &[u8]) -> (r: Vec<u8>)
        requires
            key@.len() == CIPHER_KEY_BYTES,
            iv@.len() == CIPHER_IV_BYTES,
        ensures
            r@ == ctr_apply(key@, iv@, data@),
            r@.len() == data@.len(),
    {
        match self {
            Cipher::Aes128Ctr => aes128_ctr(data, key, iv),
        }
    }

    /// The cipher's name in keystore documents.
    pub fn name(&self) -> (r: &'static str)
        ensures
            r@ == AES128_CTR_CIPHER_NAME@,
    {
        match self {
            Cipher::Aes128Ctr => AES128_CTR_CIPHER_NAME,
        }
    }

    /// Parses a cipher name.
    pub fn from_str(s: &str) -> (r: Result<Cipher, Error>)
        ensures
            match r {
                Ok(c) => s@ == AES128_CTR_CIPHER_NAME@ && c == Cipher::Aes128Ctr,
                Err(e) => s@ != AES128_CTR_CIPHER_NAME@ && (e matches Error::UnsupportedCipher(n)
                    && n@ == s@),
            },
    {
        if str_eq(s, AES128_CTR_CIPHER_NAME) {
            Ok(Cipher::Aes128Ctr)
        } else {
            Err(Error::UnsupportedCipher(s.to_owned()))
        }
    }
}

} // verus!
