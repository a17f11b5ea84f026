use vstd::prelude::*;
use crate::error::{Error, str_eq};
use crypto::hmac::Hmac;
use crypto::mac::Mac;
use crypto::sha2::Sha256;

verus! {

/// Name of the HMAC-SHA-256 pseudo-random function in keystore documents.
pub const HMAC_SHA256_PRF_NAME: &'static str = "hmac-sha256";

/// Length of an HMAC-SHA-256 code in bytes.
pub const HMAC_SHA256_BYTES: usize = 32;

/// HMAC-SHA-256 code of `message` under `secret`.
pub uninterp spec fn hmac_sha256_of(secret: Seq<u8>, message: Seq<u8>) -> Seq<u8>;

/// Relies on rust-crypto's `Hmac::new(Sha256::new(), secret)` fed `message`:
/// a 32-byte code that depends on the two inputs alone.
#[verifier::external_body]
fn hmac_sha256(secret: &[u8], message: &[u8]) -> (r: Vec<u8>)
    ensures
        r@ == hmac_sha256_of(secret@, message@),
        r@.len() == HMAC_SHA256_BYTES,
{
    let mut h = Hmac::new(Sha256::new(), secret);
    h.input(message);
    h.result().code().to_vec()
}

/// Pseudo-random functions available to the password-based key derivation.
#[derive(Clone, Copy, Debug, PartialEq, Eq)]
pub enum Prf {
    /// HMAC with the SHA-256 digest
    HmacSha256,
}

impl Default for Prf {
    fn default() -> (r: Prf)
        ensures
            r == Prf::HmacSha256,
    {
        Prf::HmacSha256
    }
}

impl Prf {
    /// The function's code of `message` under the key `secret`.
    pub fn hmac(&self, secret: &[u8], message: &[u8]) -> (r: Vec<u8>)
        ensures
            r@ == hmac_sha256_of(secret@, message@),
            r@.len() == HMAC_SHA256_BYTES,
    {
        match self {
            Prf::HmacSha256 => hmac_sha256(secret, message),
        }
    }

    /// The function's name in keystore documents.
    pub fn name(&self) -> (r: &'static str)
        ensures
            r@ == HMAC_SHA256_PRF_NAME@,
    {
        match self {
            Prf::HmacSha256 => HMAC_SHA256_PRF_NAME,
        }
    }

    /// Parses a pseudo-random function name.
    pub fn from_str(s: &str) -> (r: Result<Prf, Error>)
        ensures
            match r {
                Ok(f) => s@ == HMAC_SHA256_PRF_NAME@ && f == Prf::HmacSha256,
                Err(e) => s@ != HMAC_SHA256_PRF_NAME@ && (e matches Error::UnsupportedPrf(n)
                    && n@ == s@),
            },
    {
        if str_eq(s, HMAC_SHA256_PRF_NAME) {
            Ok(Prf::HmacSha256)
        } else {
            Err(Error::UnsupportedPrf(s.to_owned()))
        }
    }
}

} // verus!
