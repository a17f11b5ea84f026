use vstd::prelude::*;
use crate::account::Address;
use crate::bytes::to_array;
use crate::cipher::{AES128_CTR_CIPHER_NAME, Cipher};
use crate::error::{Error, str_eq};
use crate::hex::{hex_decode, hex_decoded, hex_encode, hex_of, lemma_hex_round_trip};
use crate::kdf::{Kdf, PBKDF2_KDF_NAME, SCRYPT_KDF_NAME};
use crate::keyfile::{CoreCrypto, CryptoType, HdwalletCrypto, KeyFile};
use crate::prf::{HMAC_SHA256_PRF_NAME, Prf};
use crate::uuid_text::{lemma_uuid_round_trip, uuid_decode, uuid_decoded, uuid_encode, uuid_text};

verus! {

/// Version of the keystore document format that is written.
pub const DOCUMENT_VERSION: u32 = 3;

/// The `kdfparams` object of a keystore document.
#[derive(Clone, Debug, PartialEq, Eq)]
pub struct KdfParamsDocument {
    /// scrypt cost
    pub n: Option<u32>,
    /// scrypt block size
    pub r: Option<u32>,
    /// scrypt parallelism
    pub p: Option<u32>,
    /// PBKDF2 iteration count
    pub c: Option<u32>,
    /// PBKDF2 pseudo-random function name
    pub prf: Option<String>,
    /// Derived key length
    pub dklen: Option<usize>,
    /// Salt, as hexadecimal text
    pub salt: Option<String>,
}

/// The `crypto` object of a keystore document; the `cipherparams.iv` field is `iv`.
#[derive(Clone, Debug, PartialEq, Eq)]
pub struct CryptoDocument {
    /// Cipher name (or the hardware wallet's cipher tag)
    pub cipher: Option<String>,
    /// Encrypted private key, as hexadecimal text
    pub ciphertext: Option<String>,
    /// Cipher initialization vector, as hexadecimal text
    pub iv: Option<String>,
    /// Key derivation function name
    pub kdf: Option<String>,
    /// Key derivation parameters
    pub kdfparams: Option<KdfParamsDocument>,
    /// MAC, as hexadecimal text
    pub mac: Option<String>,
    /// Hardware wallet model
    pub hardware: Option<String>,
    /// Derivation path on the hardware wallet
    pub hd_path: Option<String>,
}

/// A keystore document, field by field, as its JSON text holds it.
#[derive(Clone, Debug, PartialEq, Eq)]
pub struct KeyDocument {
    /// Format version
    pub version: Option<u32>,
    /// Record UUID, as hyphenated text
    pub id: Option<String>,
    /// Account address, as hexadecimal text
    pub address: Option<String>,
    /// User specified name
    pub name: Option<String>,
    /// User specified description
    pub description: Option<String>,
    /// Whether the record is shown
    pub visible: Option<bool>,
    /// The crypto section
    pub crypto: Option<CryptoDocument>,
}

/// The bytes of an optional hexadecimal field, where it is present, well formed
/// and `len` bytes long.
pub open spec fn hex_field(f: Option<String>, len: nat) -> Option<Seq<u8>> {
    match f {
        Some(s) => match hex_decoded(s@) {
            Some(b) => if b.len() == len {
                Some(b)
            } else {
                None
            },
            None => None,
        },
        None => None,
    }
}

/// The bytes of an optional hexadecimal field of any length.
pub open spec fn hex_field_any(f: Option<String>) -> Option<Seq<u8>> {
    match f {
        Some(s) => hex_decoded(s@),
        None => None,
    }
}

/// Whether an optional text field holds `name`.
pub open spec fn names(f: Option<String>, name: Seq<char>) -> bool {
    f matches Some(s) && s@ == name
}

/// The key derivation function that a `kdf` name and `kdfparams` object stand
/// for, where the name is known and its parameters are present.
pub open spec fn kdf_decoded(name: Seq<char>, p: KdfParamsDocument) -> Option<Kdf> {
    if name == SCRYPT_KDF_NAME@ {
        match (p.n, p.r, p.p) {
            (Some(n), Some(r), Some(pp)) => Some(Kdf::Scrypt { n, r, p: pp }),
            _ => None,
        }
    } else if name == PBKDF2_KDF_NAME@ && names(p.prf, HMAC_SHA256_PRF_NAME@) {
        match p.c {
            Some(c) => Some(Kdf::Pbkdf2 { prf: Prf::HmacSha256, c }),
            None => None,
        }
    } else {
        None
    }
}

/// Whether a known-name `crypto` object with key derivation has every field it needs.
pub open spec fn core_section_valid(c: CryptoDocument) -> bool {
    &&& c.kdf matches Some(k) && c.kdfparams matches Some(p) && kdf_decoded(k@, p) is Some
    &&& names(c.cipher, AES128_CTR_CIPHER_NAME@)
    &&& hex_field_any(c.ciphertext) is Some
    &&& hex_field(c.iv, 16) is Some
    &&& hex_field(c.mac, 32) is Some
    &&& c.kdfparams matches Some(p) && p.dklen is Some && hex_field(p.salt, 32) is Some
}

/// Whether a `crypto` object naming a known key derivation function has all
/// its fields present and well formed, its names aside.
pub open spec fn core_fields_present(c: CryptoDocument) -> bool {
    &&& hex_field(c.mac, 32) is Some
    &&& c.kdfparams matches Some(p) && p.dklen is Some && hex_field(p.salt, 32) is Some
    &&& hex_field_any(c.ciphertext) is Some
    &&& hex_field(c.iv, 16) is Some
    &&& c.cipher is Some
    &&& c.kdfparams matches Some(p) && (if names(c.kdf, SCRYPT_KDF_NAME@) {
        p.n is Some && p.r is Some && p.p is Some
    } else {
        p.c is Some && p.prf is Some
    })
}

/// Whether a `crypto` object of the hardware wallet shape has every field it needs.
pub open spec fn hd_section_valid(c: CryptoDocument) -> bool {
    c.kdf is None && c.cipher is Some && c.hardware is Some && c.hd_path is Some
}

/// Whether the version and the identifying fields of a document are present
/// and well formed.
pub open spec fn header_valid(doc: KeyDocument) -> bool {
    &&& doc.version is Some
    &&& doc.id matches Some(s) && uuid_decoded(s@) is Some
    &&& hex_field(doc.address, 20) is Some
    &&& doc.crypto is Some
}

/// Whether a document decodes.
pub open spec fn document_valid(doc: KeyDocument) -> bool {
    &&& header_valid(doc)
    &&& core_section_valid(doc.crypto.unwrap()) || hd_section_valid(doc.crypto.unwrap())
}

/// `kf` holds what `doc` says.
pub open spec fn decodes_to(doc: KeyDocument, kf: KeyFile) -> bool {
    &&& kf.name == doc.name
    &&& kf.description == doc.description
    &&& kf.visible == doc.visible
    &&& Some(kf.uuid@) == uuid_decoded(doc.id.unwrap()@)
    &&& Some(kf.address.0@) == hex_field(doc.address, 20)
    &&& match kf.crypto {
        CryptoType::Core(c) => {
            let cd = doc.crypto.unwrap();
            let p = cd.kdfparams.unwrap();
            &&& cd.kdf is Some
            &&& c.cipher == Cipher::Aes128Ctr
            &&& Some(c.cipher_text@) == hex_field_any(cd.ciphertext)
            &&& Some(c.iv@) == hex_field(cd.iv, 16)
            &&& Some(c.kdf) == kdf_decoded(cd.kdf.unwrap()@, p)
            &&& Some(c.kdfparams_dklen) == p.dklen
            &&& Some(c.kdfparams_salt@) == hex_field(p.salt, 32)
            &&& Some(c.mac@) == hex_field(cd.mac, 32)
        },
        CryptoType::HdWallet(h) => {
            let cd = doc.crypto.unwrap();
            &&& cd.kdf is None
            &&& cd.cipher == Some(h.cipher)
            &&& cd.hardware == Some(h.hardware)
            &&& cd.hd_path == Some(h.hd_path)
        },
    }
}

/// `doc` is the document of `kf`.
pub open spec fn encodes(kf: KeyFile, doc: KeyDocument) -> bool {
    &&& doc.version == Some(DOCUMENT_VERSION)
    &&& names(doc.id, uuid_text(kf.uuid@))
    &&& names(doc.address, hex_of(kf.address.0@))
    &&& doc.name == kf.name
    &&& doc.description == kf.description
    &&& doc.visible == kf.visible
    &&& doc.crypto matches Some(cd) && match kf.crypto {
        CryptoType::Core(c) => {
            &&& names(cd.cipher, AES128_CTR_CIPHER_NAME@)
            &&& names(cd.ciphertext, hex_of(c.cipher_text@))
            &&& names(cd.iv, hex_of(c.iv@))
            &&& names(cd.mac, hex_of(c.mac@))
            &&& cd.hardware is None
            &&& cd.hd_path is None
            &&& cd.kdfparams matches Some(p) && p.dklen == Some(c.kdfparams_dklen) && names(
                p.salt,
                hex_of(c.kdfparams_salt@),
            ) && match c.kdf {
                Kdf::Scrypt { n, r, p: pp } => names(cd.kdf, SCRYPT_KDF_NAME@) && p.n == Some(n)
                    && p.r == Some(r) && p.p == Some(pp) && p.c is None && p.prf is None,
                Kdf::Pbkdf2 { c: iters, .. } => names(cd.kdf, PBKDF2_KDF_NAME@) && p.c == Some(
                    iters,
                ) && names(p.prf, HMAC_SHA256_PRF_NAME@) && p.n is None && p.r is None && p.p is None,
            }
        },
        CryptoType::HdWallet(h) => {
            &&& cd.kdf is None
            &&& cd.kdfparams is None
            &&& cd.cipher == Some(h.cipher)
            &&& cd.hardware == Some(h.hardware)
            &&& cd.hd_path == Some(h.hd_path)
            &&& cd.ciphertext is None
            &&& cd.iv is None
            &&& cd.mac is None
        },
    }
}

/// Decoding the document of a record gives a record with the same fields.
pub proof fn lemma_document_round_trip(kf: KeyFile, doc: KeyDocument)
    requires
        encodes(kf, doc),
    ensures
        document_valid(doc),
        decodes_to(doc, kf),
{
    lemma_uuid_round_trip(kf.uuid@);
    lemma_hex_round_trip(kf.address.0@);
    match kf.crypto {
        CryptoType::Core(c) => {
            reveal_strlit("scrypt");
            reveal_strlit("pbkdf2");
            assert(SCRYPT_KDF_NAME@ != PBKDF2_KDF_NAME@) by {
                assert(SCRYPT_KDF_NAME@[0] != PBKDF2_KDF_NAME@[0]);
            }
            lemma_hex_round_trip(c.cipher_text@);
            lemma_hex_round_trip(c.iv@);
            lemma_hex_round_trip(c.mac@);
            lemma_hex_round_trip(c.kdfparams_salt@);
        },
        CryptoType::HdWallet(_) => {},
    }
}

fn clone_text(s: &Option<String>) -> (r: Option<String>)
    ensures
        r == *s,
{
    match s {
        Some(t) => Some(t.clone()),
        None => None,
    }
}

fn name_text(name: &'static str) -> (r: Option<String>)
    ensures
        names(r, name@),
{
    Some(name.to_owned())
}

/// The document of a record.
pub fn encode(kf: &KeyFile) -> (doc: KeyDocument)
    ensures
        encodes(*kf, doc),
{
    let crypto = match &kf.crypto {
        CryptoType::Core(c) => {
            let params = match c.kdf {
                Kdf::Scrypt { n, r, p } => KdfParamsDocument {
                    n: Some(n),
                    r: Some(r),
                    p: Some(p),
                    c: None,
                    prf: None,
                    dklen: Some(c.kdfparams_dklen),
                    salt: Some(hex_encode(&c.kdfparams_salt)),
                },
                Kdf::Pbkdf2 { prf, c: iters } => KdfParamsDocument {
                    n: None,
                    r: None,
                    p: None,
                    c: Some(iters),
                    prf: name_text(prf.name()),
                    dklen: Some(c.kdfparams_dklen),
                    salt: Some(hex_encode(&c.kdfparams_salt)),
                },
            };
            CryptoDocument {
                cipher: name_text(c.cipher.name()),
                ciphertext: Some(hex_encode(c.cipher_text.as_slice())),
                iv: Some(hex_encode(&c.iv)),
                kdf: name_text(c.kdf.name()),
                kdfparams: Some(params),
                mac: Some(hex_encode(&c.mac)),
                hardware: None,
                hd_path: None,
            }
        },
        CryptoType::HdWallet(h) => CryptoDocument {
            cipher: Some(h.cipher.clone()),
            ciphertext: None,
            iv: None,
            kdf: None,
            kdfparams: None,
            mac: None,
            hardware: Some(h.hardware.clone()),
            hd_path: Some(h.hd_path.clone()),
        },
    };
    KeyDocument {
        version: Some(DOCUMENT_VERSION),
        id: Some(uuid_encode(&kf.uuid)),
        address: Some(hex_encode(&kf.address.0)),
        name: clone_text(&kf.name),
        description: clone_text(&kf.description),
        visible: kf.visible,
        crypto: Some(crypto),
    }
}

fn decode_hex(f: &Option<String>, len: usize) -> (r: Result<Vec<u8>, Error>)
    ensures
        match r {
            Ok(b) => hex_field(*f, len as nat) == Some(b@) && b@.len() == len,
            Err(e) => hex_field(*f, len as nat) is None && e == Error::MalformedDocument,
        },
{
    match f {
        Some(s) => match hex_decode(s.as_str()) {
            Some(b) => if b.len() == len {
                Ok(b)
            } else {
                Err(Error::MalformedDocument)
            },
            None => Err(Error::MalformedDocument),
        },
        None => Err(Error::MalformedDocument),
    }
}

fn decode_hex_any(f: &Option<String>) -> (r: Result<Vec<u8>, Error>)
    ensures
        match r {
            Ok(b) => hex_field_any(*f) == Some(b@),
            Err(e) => hex_field_any(*f) is None && e == Error::MalformedDocument,
        },
{
    match f {
        Some(s) => match hex_decode(s.as_str()) {
            Some(b) => Ok(b),
            None => Err(Error::MalformedDocument),
        },
        None => Err(Error::MalformedDocument),
    }
}

/// Whether an error is one that decoding reports.
pub open spec fn is_decode_error(e: Error) -> bool {
    e is MalformedDocument || e is UnsupportedKdf || e is UnsupportedCipher || e is UnsupportedPrf
}

/// Decodes the crypto section of the key-derivation shape.
fn decode_core(cd: &CryptoDocument, kdf_name: &String) -> (r: Result<CoreCrypto, Error>)
    requires
        cd.kdf == Some(*kdf_name),
    ensures
        r is Ok <==> core_section_valid(*cd),
        match r {
            Ok(c) => {
                let p = cd.kdfparams.unwrap();
                &&& c.cipher == Cipher::Aes128Ctr
                &&& Some(c.cipher_text@) == hex_field_any(cd.ciphertext)
                &&& Some(c.iv@) == hex_field(cd.iv, 16)
                &&& Some(c.kdf) == kdf_decoded(kdf_name@, p)
                &&& Some(c.kdfparams_dklen) == p.dklen
                &&& Some(c.kdfparams_salt@) == hex_field(p.salt, 32)
                &&& Some(c.mac@) == hex_field(cd.mac, 32)
            },
            Err(e) => is_decode_error(e),
        },
        kdf_name@ != SCRYPT_KDF_NAME@ && kdf_name@ != PBKDF2_KDF_NAME@ ==> (r matches Err(
            Error::UnsupportedKdf(n),
        ) && n@ == kdf_name@),
        (kdf_name@ == SCRYPT_KDF_NAME@ || kdf_name@ == PBKDF2_KDF_NAME@) && !core_fields_present(
            *cd,
        ) ==> r == Err::<CoreCrypto, Error>(Error::MalformedDocument),
        kdf_name@ == PBKDF2_KDF_NAME@ && core_fields_present(*cd) && !names(
            cd.kdfparams.unwrap().prf,
            HMAC_SHA256_PRF_NAME@,
        ) ==> (r matches Err(Error::UnsupportedPrf(n)) && names(cd.kdfparams.unwrap().prf, n@)),
        (kdf_name@ == SCRYPT_KDF_NAME@ || (kdf_name@ == PBKDF2_KDF_NAME@ && names(
            cd.kdfparams.unwrap().prf,
            HMAC_SHA256_PRF_NAME@,
        ))) && core_fields_present(*cd) && !names(cd.cipher, AES128_CTR_CIPHER_NAME@) ==> (r matches Err(
            Error::UnsupportedCipher(n),
        ) && names(cd.cipher, n@)),
{
    let is_scrypt = str_eq(kdf_name.as_str(), SCRYPT_KDF_NAME);
    let is_pbkdf2 = str_eq(kdf_name.as_str(), PBKDF2_KDF_NAME);
    if !is_scrypt && !is_pbkdf2 {
        return Err(Error::UnsupportedKdf(kdf_name.clone()));
    }
    let mac = decode_hex(&cd.mac, 32)?;
    let params = match &cd.kdfparams {
        Some(p) => p,
        None => return Err(Error::MalformedDocument),
    };
    let dklen = match params.dklen {
        Some(d) => d,
        None => return Err(Error::MalformedDocument),
    };
    let salt = decode_hex(&params.salt, 32)?;
    let cipher_text = decode_hex_any(&cd.ciphertext)?;
    let iv = decode_hex(&cd.iv, 16)?;
    let cipher_name = match &cd.cipher {
        Some(n) => n,
        None => return Err(Error::MalformedDocument),
    };
    proof {
        reveal_strlit("scrypt");
        reveal_strlit("pbkdf2");
        assert(SCRYPT_KDF_NAME@ != PBKDF2_KDF_NAME@) by {
            assert(SCRYPT_KDF_NAME@[0] != PBKDF2_KDF_NAME@[0]);
        }
    }
    let kdf = if is_scrypt {
        match (params.n, params.r, params.p) {
            (Some(n), Some(r), Some(p)) => Kdf::Scrypt { n, r, p },
            _ => return Err(Error::MalformedDocument),
        }
    } else {
        let c = match params.c {
            Some(c) => c,
            None => return Err(Error::MalformedDocument),
        };
        let prf = match &params.prf {
            Some(name) => Prf::from_str(name.as_str())?,
            None => return Err(Error::MalformedDocument),
        };
        Kdf::Pbkdf2 { prf, c }
    };
    let cipher = Cipher::from_str(cipher_name.as_str())?;
    Ok(CoreCrypto {
        cipher,
        cipher_text,
        iv: to_array::<16>(&iv),
        kdf,
        kdfparams_dklen: dklen,
        kdfparams_salt: to_array::<32>(&salt),
        mac: to_array::<32>(&mac),
    })
}

/// The `crypto.kdf` name of a document, where it has one.
pub open spec fn kdf_name(doc: KeyDocument) -> Option<Seq<char>> {
    match doc.crypto {
        Some(c) => match c.kdf {
            Some(k) => Some(k@),
            None => None,
        },
        None => None,
    }
}

/// The document names a key derivation function that is not known.
pub open spec fn kdf_unknown(doc: KeyDocument) -> bool {
    kdf_name(doc) matches Some(k) && k != SCRYPT_KDF_NAME@ && k != PBKDF2_KDF_NAME@
}

/// The document names a known key derivation function.
pub open spec fn kdf_known(doc: KeyDocument) -> bool {
    kdf_name(doc) matches Some(k) && (k == SCRYPT_KDF_NAME@ || k == PBKDF2_KDF_NAME@)
}

/// `e` reports the document's key derivation function name as unsupported.
pub open spec fn reports_kdf_name(e: Error, doc: KeyDocument) -> bool {
    e matches Error::UnsupportedKdf(n) && kdf_name(doc) == Some(n@)
}

/// Decodes a keystore document into a record.
pub fn decode(doc: &KeyDocument) -> (r: Result<KeyFile, Error>)
    ensures
        r is Ok <==> document_valid(*doc),
        match r {
            Ok(kf) => decodes_to(*doc, kf),
            Err(e) => is_decode_error(e),
        },
        header_valid(*doc) && kdf_unknown(*doc) ==> (r matches Err(e) && reports_kdf_name(e, *doc)),
        !header_valid(*doc) ==> r == Err::<KeyFile, Error>(Error::MalformedDocument),
        header_valid(*doc) && kdf_known(*doc) && !core_fields_present(doc.crypto.unwrap()) ==> r
            == Err::<KeyFile, Error>(Error::MalformedDocument),
        header_valid(*doc) && kdf_name(*doc) == Some(PBKDF2_KDF_NAME@) && core_fields_present(
            doc.crypto.unwrap(),
        ) && !names(doc.crypto.unwrap().kdfparams.unwrap().prf, HMAC_SHA256_PRF_NAME@) ==> (r matches Err(
            Error::UnsupportedPrf(n),
        ) && names(doc.crypto.unwrap().kdfparams.unwrap().prf, n@)),
        header_valid(*doc) && (kdf_name(*doc) == Some(SCRYPT_KDF_NAME@) || (kdf_name(*doc) == Some(
            PBKDF2_KDF_NAME@,
        ) && names(doc.crypto.unwrap().kdfparams.unwrap().prf, HMAC_SHA256_PRF_NAME@)))
            && core_fields_present(doc.crypto.unwrap()) && !names(
            doc.crypto.unwrap().cipher,
            AES128_CTR_CIPHER_NAME@,
        ) ==> (r matches Err(Error::UnsupportedCipher(n)) && names(doc.crypto.unwrap().cipher, n@)),
        header_valid(*doc) && kdf_name(*doc) is None && !hd_section_valid(doc.crypto.unwrap()) ==> r
            == Err::<KeyFile, Error>(Error::MalformedDocument),
{
    if doc.version.is_none() {
        return Err(Error::MalformedDocument);
    }
    let uuid = match &doc.id {
        Some(s) => match uuid_decode(s.as_str()) {
            Some(u) => u,
            None => return Err(Error::MalformedDocument),
        },
        None => return Err(Error::MalformedDocument),
    };
    let address = decode_hex(&doc.address, 20)?;
    let cd = match &doc.crypto {
        Some(c) => c,
        None => return Err(Error::MalformedDocument),
    };
    let crypto = match &cd.kdf {
        Some(kdf_name) => CryptoType::Core(decode_core(cd, kdf_name)?),
        None => match (&cd.cipher, &cd.hardware, &cd.hd_path) {
            (Some(cipher), Some(hardware), Some(hd_path)) => CryptoType::HdWallet(
                HdwalletCrypto {
                    cipher: cipher.clone(),
                    hardware: hardware.clone(),
                    hd_path: hd_path.clone(),
                },
            ),
            _ => return Err(Error::MalformedDocument),
        },
    };
    Ok(KeyFile {
        visible: doc.visible,
        name: clone_text(&doc.name),
        description: clone_text(&doc.description),
        address: Address(to_array::<20>(&address)),
        uuid,
        crypto,
    })
}

/// The address of a document, read without touching its crypto section.
pub fn try_extract_address(doc: &KeyDocument) -> (r: Option<Address>)
    ensures
        match r {
            Some(a) => hex_field(doc.address, 20) == Some(a.0@),
            None => hex_field(doc.address, 20) is None,
        },
{
    match decode_hex(&doc.address, 20) {
        Ok(b) => Some(Address(to_array::<20>(&b))),
        Err(_) => None,
    }
}

} // verus!
