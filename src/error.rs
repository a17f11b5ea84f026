use vstd::prelude::*;

verus! {

/// Failures of keystore operations.
#[derive(Clone, Debug, PartialEq, Eq)]
pub enum Error {
    /// The named key derivation function is not known.
    UnsupportedKdf(String),
    /// The named cipher is not known.
    UnsupportedCipher(String),
    /// The named pseudo-random function is not known.
    UnsupportedPrf(String),
    /// The recomputed MAC differs from the stored one: wrong passphrase or corrupted record.
    FailedMacValidation,
    /// The operation needs the other variant of the crypto section.
    InvalidCryptoVariant,
    /// A required field of a document is missing or malformed.
    MalformedDocument,
    /// The operating system's random source could not be used.
    RandomSourceUnavailable,
    /// The key derivation parameters are out of the range the algorithm accepts.
    InvalidKdfParams,
    /// The bytes are not a valid secp256k1 private key.
    InvalidPrivateKey,
}

/// Whether two strings hold the same characters.
pub fn str_eq(a: &str, b: &str) -> (r: bool)
    ensures
        r == (a@ == b@),
{
    a.to_owned() == b.to_owned()
}

} // verus!
