use vstd::prelude::*;
use crypto::digest::Digest;
use k256::elliptic_curve::sec1::ToEncodedPoint;

verus! {

/// Length of a private key in bytes.
pub const PRIVATE_KEY_BYTES: usize = 32;

/// Length of an account address in bytes.
pub const ADDRESS_BYTES: usize = 20;

/// Length of a Keccak-256 digest in bytes.
pub const KECCAK256_BYTES: usize = 32;

/// Keccak-256 digest of a byte sequence.
pub uninterp spec fn keccak256_of(data: Seq<u8>) -> Seq<u8>;

/// Uncompressed SEC1 encoding of the secp256k1 public key of a private key
/// (a tag byte, then 64 bytes of coordinates), or `None` where the bytes are
/// no valid private key.
pub uninterp spec fn public_key_of(secret: Seq<u8>) -> Option<Seq<u8>>;

/// Relies on rust-crypto's `Sha3::keccak256`: a 32-byte digest that depends on the input alone.
#[verifier::external_body]
pub fn keccak256(data: &[u8]) -> (r: Vec<u8>)
    ensures
        r@ == keccak256_of(data@),
        r@.len() == KECCAK256_BYTES,
{
    let mut hasher = crypto::sha3::Sha3::keccak256();
    hasher.input(data);
    let mut out = vec![0u8; 32];
    hasher.result(&mut out);
    out
}

/// Relies on k256's `SecretKey::from_slice` and `to_encoded_point(false)`: the
/// 65-byte uncompressed encoding of the point of a valid scalar, a function of
/// the secret alone.
#[verifier::external_body]
fn secp256k1_public_key(secret: &[u8]) -> (r: Option<Vec<u8>>)
    ensures
        match r {
            Some(v) => public_key_of(secret@) == Some(v@) && v@.len() == 65,
            None => public_key_of(secret@) is None,
        },
{
    match k256::SecretKey::from_slice(secret) {
        Ok(sk) => Some(sk.public_key().to_encoded_point(false).as_bytes().to_vec()),
        Err(_) => None,
    }
}

/// Account address of an encoded public key: the last 20 bytes of the
/// Keccak-256 digest of its coordinates (the encoding without its tag byte).
pub open spec fn address_of_public(public: Seq<u8>) -> Seq<u8> {
    keccak256_of(public.subrange(1, 65)).subrange(12, 32)
}

/// Account address of a private key, where it is a valid one.
pub open spec fn address_of(secret: Seq<u8>) -> Option<Seq<u8>> {
    match public_key_of(secret) {
        Some(public) => Some(address_of_public(public)),
        None => None,
    }
}

/// A raw secp256k1 private key.
#[derive(Clone, Copy, Debug, PartialEq, Eq)]
pub struct PrivateKey(pub [u8; 32]);

/// A 20-byte account address.
#[derive(Clone, Copy, Debug, PartialEq, Eq)]
pub struct Address(pub [u8; 20]);

impl Address {
    /// The all-zero address of a record that holds no key yet.
    pub fn zero() -> (r: Address)
        ensures
            r.0@ == Seq::new(ADDRESS_BYTES as nat, |i: int| 0u8),
    {
        let a = [0u8; 20];
        assert(a@ =~= Seq::new(ADDRESS_BYTES as nat, |i: int| 0u8));
        Address(a)
    }
}

impl PrivateKey {
    /// Address of the account this key controls.
    pub fn to_address(&self) -> (r: Option<Address>)
        ensures
            match r {
                Some(a) => address_of(self.0@) == Some(a.0@),
                None => address_of(self.0@) is None,
            },
    {
        let secret = vstd::slice::slice_to_vec(&self.0);
        match secp256k1_public_key(secret.as_slice()) {
            Some(public) => {
                let coordinates = crate::bytes::copy_range(public.as_slice(), 1, 65);
                let digest = keccak256(coordinates.as_slice());
                let mut addr = [0u8; 20];
                let mut i: usize = 0;
                while i < ADDRESS_BYTES
                    invariant
                        i <= ADDRESS_BYTES,
                        digest@.len() == KECCAK256_BYTES,
                        addr@.len() == ADDRESS_BYTES,
                        forall|j: int| 0 <= j < i ==> addr@[j] == digest@[j + 12],
                    decreases ADDRESS_BYTES - i,
                {
                    addr.set(i, digest[i + 12]);
                    i = i + 1;
                }
                assert(addr@ =~= digest@.subrange(12, 32));
                Some(Address(addr))
            },
            None => None,
        }
    }
}

} // verus!
