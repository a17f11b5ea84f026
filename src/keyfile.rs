use vstd::prelude::*;
use vstd::string::StringSliceAdditionalSpecFns;
use crate::account::{Address, PrivateKey, address_of, keccak256, keccak256_of};
use crate::bytes::{append_bytes, bytes_eq, copy_range, to_array};
use crate::cipher::{Cipher, ctr_apply, lemma_ctr_involution};
use crate::error::Error;
use crate::kdf::{Kdf, KdfDepthLevel, depth_params, derived_key, kdf_accepts, lemma_presets_accepted};
use rand::RngCore;

verus! {

/// Key derivation function salt length in bytes.
pub const KDF_SALT_BYTES: usize = 32;

/// Length of the derived key that the cipher key and the MAC key are cut from.
pub const DERIVED_KEY_BYTES: usize = 32;

/// How many private-key draws a new record makes before the random source is
/// taken to be broken (a uniform draw is invalid with probability below 2^-127).
pub const MAX_KEY_DRAWS: usize = 64;

/// Length of a stored private key in bytes.
pub const KEY_BYTES: usize = 32;

/// The encrypted private key and what is needed to recover it.
#[derive(Clone, Debug, PartialEq, Eq)]
pub struct CoreCrypto {
    /// Cipher applied to the private key
    pub cipher: Cipher,
    /// The encrypted private key
    pub cipher_text: Vec<u8>,
    /// Cipher initialization vector
    pub iv: [u8; 16],
    /// Key derivation function and its cost parameters
    pub kdf: Kdf,
    /// Length of the derived key
    pub kdfparams_dklen: usize,
    /// Key derivation salt
    pub kdfparams_salt: [u8; 32],
    /// Keccak-256 of the MAC half of the derived key followed by the cipher text
    pub mac: [u8; 32],
}

/// The crypto section of a record backed by a hardware wallet, kept as it was read.
#[derive(Clone, Debug, PartialEq, Eq)]
pub struct HdwalletCrypto {
    /// Cipher tag of the section
    pub cipher: String,
    /// Hardware wallet model
    pub hardware: String,
    /// Derivation path on the device
    pub hd_path: String,
}

/// Variants of the crypto section of a record.
#[derive(Clone, Debug, PartialEq, Eq)]
pub enum CryptoType {
    /// A key encrypted under a passphrase
    Core(CoreCrypto),
    /// A key held by a hardware wallet
    HdWallet(HdwalletCrypto),
}

/// A keystore record: one account's private key encrypted with a passphrase.
#[derive(Clone, Debug)]
pub struct KeyFile {
    /// Whether the record is shown to the user
    pub visible: Option<bool>,
    /// User specified name
    pub name: Option<String>,
    /// User specified description
    pub description: Option<String>,
    /// The account address
    pub address: Address,
    /// UUID (version 4) of the record
    pub uuid: [u8; 16],
    /// The crypto section
    pub crypto: CryptoType,
}

impl PartialEq for KeyFile {
    /// Two records are the same record when their UUIDs agree.
    fn eq(&self, other: &KeyFile) -> (r: bool)
        ensures
            r == (self.uuid@ == other.uuid@),
    {
        let mut i: usize = 0;
        while i < 16
            invariant
                i <= 16,
                forall|j: int| 0 <= j < i ==> self.uuid@[j] == other.uuid@[j],
            decreases 16 - i,
        {
            if self.uuid[i] != other.uuid[i] {
                return false;
            }
            i = i + 1;
        }
        assert(self.uuid@ =~= other.uuid@);
        true
    }
}

impl vstd::std_specs::cmp::PartialEqSpecImpl for KeyFile {
    open spec fn obeys_eq_spec() -> bool {
        true
    }

    open spec fn eq_spec(&self, other: &KeyFile) -> bool {
        self.uuid@ == other.uuid@
    }
}

/// Lexicographic order of two byte sequences.
pub open spec fn lex_order(a: Seq<u8>, b: Seq<u8>) -> core::cmp::Ordering
    decreases a.len(),
{
    if a.len() == 0 || b.len() == 0 {
        if a.len() == b.len() {
            core::cmp::Ordering::Equal
        } else if a.len() < b.len() {
            core::cmp::Ordering::Less
        } else {
            core::cmp::Ordering::Greater
        }
    } else if a[0] < b[0] {
        core::cmp::Ordering::Less
    } else if a[0] > b[0] {
        core::cmp::Ordering::Greater
    } else {
        lex_order(a.drop_first(), b.drop_first())
    }
}

impl PartialOrd for KeyFile {
    /// Records are ordered by their UUIDs, byte by byte.
    fn partial_cmp(&self, other: &KeyFile) -> (r: Option<core::cmp::Ordering>)
        ensures
            r == Some(lex_order(self.uuid@, other.uuid@)),
    {
        let mut i: usize = 0;
        assert(self.uuid@.subrange(0, 16) =~= self.uuid@);
        assert(other.uuid@.subrange(0, 16) =~= other.uuid@);
        while i < 16
            invariant
                i <= 16,
                self.uuid@.len() == 16,
                other.uuid@.len() == 16,
                lex_order(self.uuid@, other.uuid@) == lex_order(
                    self.uuid@.subrange(i as int, 16),
                    other.uuid@.subrange(i as int, 16),
                ),
            decreases 16 - i,
        {
            let x = self.uuid[i];
            let y = other.uuid[i];
            assert(self.uuid@.subrange(i as int, 16).drop_first() =~= self.uuid@.subrange(i + 1, 16));
            assert(other.uuid@.subrange(i as int, 16).drop_first() =~= other.uuid@.subrange(i + 1, 16));
            if x < y {
                return Some(core::cmp::Ordering::Less);
            } else if x > y {
                return Some(core::cmp::Ordering::Greater);
            }
            i = i + 1;
        }
        Some(core::cmp::Ordering::Equal)
    }
}

impl vstd::std_specs::cmp::PartialOrdSpecImpl for KeyFile {
    open spec fn obeys_partial_cmp_spec() -> bool {
        true
    }

    open spec fn partial_cmp_spec(&self, other: &KeyFile) -> Option<core::cmp::Ordering> {
        Some(lex_order(self.uuid@, other.uuid@))
    }
}

/// The MAC over the second half of a derived key and a cipher text.
pub open spec fn mac_of(derived: Seq<u8>, cipher_text: Seq<u8>) -> Seq<u8> {
    keccak256_of(derived.subrange(16, 32) + cipher_text)
}

/// The key derived for `core` from the passphrase bytes `pw`.
pub open spec fn core_derived(core: CoreCrypto, pw: Seq<u8>) -> Seq<u8> {
    derived_key(core.kdf, DERIVED_KEY_BYTES as nat, core.kdfparams_salt@, pw)
}

/// Whether the derivation parameters of `core` can be used.
pub open spec fn core_params_ok(core: CoreCrypto) -> bool {
    core.kdfparams_dklen == DERIVED_KEY_BYTES && kdf_accepts(core.kdf, DERIVED_KEY_BYTES as nat)
}

/// What decrypting `core` with the passphrase bytes `pw` gives.
pub open spec fn core_decryption(core: CoreCrypto, pw: Seq<u8>) -> Result<Seq<u8>, Error> {
    if !core_params_ok(core) {
        Err(Error::InvalidKdfParams)
    } else if core.cipher_text@.len() != KEY_BYTES {
        Err(Error::MalformedDocument)
    } else {
        let derived = core_derived(core, pw);
        if mac_of(derived, core.cipher_text@) != core.mac@ {
            Err(Error::FailedMacValidation)
        } else {
            Ok(ctr_apply(derived.subrange(0, 16), core.iv@, core.cipher_text@))
        }
    }
}

/// What decrypting a crypto section with the passphrase bytes `pw` gives.
pub open spec fn decryption(crypto: CryptoType, pw: Seq<u8>) -> Result<Seq<u8>, Error> {
    match crypto {
        CryptoType::Core(core) => core_decryption(core, pw),
        CryptoType::HdWallet(_) => Err(Error::InvalidCryptoVariant),
    }
}

/// `after` is `before` with `key` encrypted under `pw`, `salt` and `iv`.
pub open spec fn is_encryption(
    before: CoreCrypto,
    after: CoreCrypto,
    key: Seq<u8>,
    pw: Seq<u8>,
    salt: Seq<u8>,
    iv: Seq<u8>,
) -> bool {
    &&& after.cipher == before.cipher
    &&& after.kdf == before.kdf
    &&& after.kdfparams_dklen == before.kdfparams_dklen
    &&& sealed(after, key, pw, salt, iv)
}

/// `core` holds `key` encrypted under `pw`, `salt` and `iv`, with its MAC.
pub open spec fn sealed(core: CoreCrypto, key: Seq<u8>, pw: Seq<u8>, salt: Seq<u8>, iv: Seq<u8>) -> bool {
    let derived = core_derived(core, pw);
    &&& core.kdfparams_salt@ == salt
    &&& core.iv@ == iv
    &&& core.cipher_text@ == ctr_apply(derived.subrange(0, 16), iv, key)
    &&& core.mac@ == mac_of(derived, core.cipher_text@)
}

/// The fields of two records other than the address and the crypto section agree.
pub open spec fn same_metadata(a: KeyFile, b: KeyFile) -> bool {
    &&& a.visible == b.visible
    &&& a.name == b.name
    &&& a.description == b.description
    &&& a.uuid == b.uuid
}

/// The outcome of encrypting `key` into `before`: `Ok` with the new record,
/// whose address is the key's, or the error with `before` unchanged. A
/// hardware-wallet record cannot be re-encrypted: it stays as it is.
pub open spec fn encrypted_into(
    before: KeyFile,
    after: KeyFile,
    r: Result<(), Error>,
    key: Seq<u8>,
    pw: Seq<u8>,
    salt: Seq<u8>,
    iv: Seq<u8>,
) -> bool {
    match before.crypto {
        CryptoType::Core(old_core) => if !core_params_ok(old_core) {
            r == Err::<(), Error>(Error::InvalidKdfParams) && after == before
        } else if address_of(key) is None {
            r == Err::<(), Error>(Error::InvalidPrivateKey) && after == before
        } else {
            &&& r is Ok
            &&& same_metadata(before, after)
            &&& address_of(key) == Some(after.address.0@)
            &&& after.crypto matches CryptoType::Core(new_core)
            &&& is_encryption(old_core, new_core, key, pw, salt, iv)
        },
        CryptoType::HdWallet(_) => r == Ok::<(), Error>(()) && after == before,
    }
}

/// Decrypting what was encrypted with the same passphrase gives the key back.
pub proof fn lemma_decrypt_encrypted(
    before: CoreCrypto,
    after: CoreCrypto,
    key: Seq<u8>,
    pw: Seq<u8>,
    salt: Seq<u8>,
    iv: Seq<u8>,
)
    requires
        core_params_ok(before),
        key.len() == KEY_BYTES,
        iv.len() == 16,
        is_encryption(before, after, key, pw, salt, iv),
    ensures
        core_decryption(after, pw) == Ok::<Seq<u8>, Error>(key),
{
    let derived = core_derived(after, pw);
    lemma_ctr_involution(derived.subrange(0, 16), iv, key);
}

/// Encrypting a key into a record with a crypto section of its own and
/// decrypting it with the same passphrase gives the key back, and the record's
/// address is that key's address.
pub proof fn lemma_round_trip(
    before: KeyFile,
    after: KeyFile,
    key: PrivateKey,
    pw: &str,
    salt: [u8; 32],
    iv: [u8; 16],
)
    requires
        before.crypto is Core,
        encrypted_into(before, after, Ok(()), key.0@, pw.spec_bytes(), salt@, iv@),
    ensures
        decryption(after.crypto, pw.spec_bytes()) == Ok::<Seq<u8>, Error>(key.0@),
        address_of(key.0@) == Some(after.address.0@),
{
    if let CryptoType::Core(old_core) = before.crypto {
        if let CryptoType::Core(new_core) = after.crypto {
            lemma_decrypt_encrypted(old_core, new_core, key.0@, pw.spec_bytes(), salt@, iv@);
        }
    }
}

/// `kf` is a fresh record holding `key` under `pw` and `kdf`, with its
/// address derived from the key.
pub open spec fn created(
    kf: KeyFile,
    key: Seq<u8>,
    pw: Seq<u8>,
    kdf: Kdf,
    name: Option<String>,
    description: Option<String>,
) -> bool {
    &&& kf.visible == Some(true)
    &&& kf.name == name
    &&& kf.description == description
    &&& kf.crypto matches CryptoType::Core(c) && c.kdf == kdf && c.cipher == Cipher::Aes128Ctr
        && c.kdfparams_dklen == DERIVED_KEY_BYTES
    &&& decryption(kf.crypto, pw) == Ok::<Seq<u8>, Error>(key)
    &&& address_of(key) == Some(kf.address.0@)
}

/// The key derivation function a new record gets on a platform.
pub open spec fn platform_kdf(level: KdfDepthLevel, scrypt_available: bool) -> Kdf {
    if scrypt_available {
        Kdf::Scrypt { n: depth_params(level).0, r: depth_params(level).1, p: depth_params(level).2 }
    } else {
        Kdf::default_pbkdf2_spec()
    }
}

/// A version 4 UUID made from 16 random bytes: the version and variant bits set.
pub open spec fn uuid_v4_of(random: Seq<u8>) -> Seq<u8> {
    random.update(6, (random[6] & 0x0f) | 0x40).update(8, (random[8] & 0x3f) | 0x80)
}

/// Relies on uuid's `Builder::from_random_bytes`: the bytes with the version
/// (4) and RFC 4122 variant bits set.
#[verifier::external_body]
fn uuid_from_random(random: [u8; 16]) -> (r: [u8; 16])
    ensures
        r@ == uuid_v4_of(random@),
{
    uuid::Builder::from_random_bytes(random).into_uuid().into_bytes()
}

/// Relies on rand's `OsRng::try_fill_bytes`: bytes from the operating system's
/// generator, or `None` where it fails.
#[verifier::external_body]
pub fn os_random<const N: usize>() -> (r: Option<[u8; N]>) {
    let mut buf = [0u8; N];
    match rand::rngs::OsRng.try_fill_bytes(&mut buf) {
        Ok(()) => Some(buf),
        Err(_) => None,
    }
}

impl Default for CoreCrypto {
    fn default() -> (r: CoreCrypto)
        ensures
            is_default_core(r),
    {
        let iv = [0u8; 16];
        let salt = [0u8; 32];
        let mac = [0u8; 32];
        assert(iv@ =~= Seq::new(16, |i: int| 0u8));
        assert(salt@ =~= Seq::new(32, |i: int| 0u8));
        assert(mac@ =~= Seq::new(32, |i: int| 0u8));
        CoreCrypto {
            cipher: Cipher::Aes128Ctr,
            cipher_text: Vec::new(),
            iv,
            kdf: Kdf::from_depth_level(crate::kdf::KdfDepthLevel::Normal),
            kdfparams_dklen: DERIVED_KEY_BYTES,
            kdfparams_salt: salt,
            mac,
        }
    }
}

/// The derived key for `passphrase` under the given parameters, where they can be used.
fn derive_with(kdf: Kdf, dklen: usize, salt: &[u8; 32], passphrase: &str) -> (r: Result<Vec<u8>, Error>)
    ensures
        match r {
            Ok(d) => dklen == DERIVED_KEY_BYTES && kdf_accepts(kdf, DERIVED_KEY_BYTES as nat)
                && d@ == derived_key(kdf, DERIVED_KEY_BYTES as nat, salt@, passphrase.spec_bytes())
                && d@.len() == DERIVED_KEY_BYTES,
            Err(e) => !(dklen == DERIVED_KEY_BYTES && kdf_accepts(kdf, DERIVED_KEY_BYTES as nat))
                && e == Error::InvalidKdfParams,
        },
{
    if dklen != DERIVED_KEY_BYTES {
        return Err(Error::InvalidKdfParams);
    }
    let salt_vec = vstd::slice::slice_to_vec(salt);
    kdf.derive(DERIVED_KEY_BYTES, salt_vec.as_slice(), passphrase)
}

/// Keccak-256 of the MAC half of `derived` followed by `cipher_text`.
fn compute_mac(derived: &Vec<u8>, cipher_text: &Vec<u8>) -> (r: Vec<u8>)
    requires
        derived@.len() == DERIVED_KEY_BYTES,
    ensures
        r@ == mac_of(derived@, cipher_text@),
        r@.len() == 32,
{
    let mut v = copy_range(derived.as_slice(), 16, 32);
    append_bytes(&mut v, cipher_text.as_slice());
    keccak256(v.as_slice())
}

/// `c` is the placeholder crypto section of a record that holds no key yet.
pub open spec fn is_default_core(c: CoreCrypto) -> bool {
    &&& c.cipher == Cipher::Aes128Ctr
    &&& c.cipher_text@.len() == 0
    &&& c.iv@ == Seq::new(16, |i: int| 0u8)
    &&& c.kdf == Kdf::default_scrypt_spec()
    &&& c.kdfparams_dklen == DERIVED_KEY_BYTES
    &&& c.kdfparams_salt@ == Seq::new(32, |i: int| 0u8)
    &&& c.mac@ == Seq::new(32, |i: int| 0u8)
}

/// `r` holds the default of every field but the UUID.
pub open spec fn is_default_apart_from_uuid(r: KeyFile) -> bool {
    &&& r.visible == Some(true)
    &&& r.name is None
    &&& r.description is None
    &&& r.address.0@ == Seq::new(20, |i: int| 0u8)
    &&& r.crypto matches CryptoType::Core(c) && is_default_core(c)
}

impl Default for KeyFile {
    fn default() -> (r: KeyFile)
        ensures
            is_default_apart_from_uuid(r),
            r.uuid@ == Seq::new(16, |i: int| 0u8),
    {
        let uuid = [0u8; 16];
        assert(uuid@ =~= Seq::new(16, |i: int| 0u8));
        KeyFile::from(uuid)
    }
}

impl KeyFile {
    /// A record with the given UUID and the default of every other field.
    pub fn from(uuid: [u8; 16]) -> (r: KeyFile)
        ensures
            is_default_apart_from_uuid(r),
            r.uuid@ == uuid@,
    {
        KeyFile {
            visible: Some(true),
            name: None,
            description: None,
            address: Address::zero(),
            uuid,
            crypto: CryptoType::Core(CoreCrypto::default()),
        }
    }

    /// Decrypts the private key with `passphrase`. The key is released only
    /// when the recomputed MAC matches the stored one.
    pub fn decrypt_key(&self, passphrase: &str) -> (r: Result<PrivateKey, Error>)
        ensures
            match (r, decryption(self.crypto, passphrase.spec_bytes())) {
                (Ok(k), Ok(key)) => k.0@ == key,
                (Err(e), Err(f)) => e == f,
                _ => false,
            },
    {
        match &self.crypto {
            CryptoType::Core(core) => {
                let derived = derive_with(core.kdf, core.kdfparams_dklen, &core.kdfparams_salt, passphrase)?;
                if core.cipher_text.len() != KEY_BYTES {
                    return Err(Error::MalformedDocument);
                }
                let mac = compute_mac(&derived, &core.cipher_text);
                let stored = vstd::slice::slice_to_vec(&core.mac);
                if !bytes_eq(&mac, &stored) {
                    return Err(Error::FailedMacValidation);
                }
                let key = copy_range(derived.as_slice(), 0, 16);
                let iv = vstd::slice::slice_to_vec(&core.iv);
                let plain = core.cipher.encrypt(core.cipher_text.as_slice(), key.as_slice(), iv.as_slice());
                Ok(PrivateKey(to_array::<32>(&plain)))
            },
            CryptoType::HdWallet(_) => Err(Error::InvalidCryptoVariant),
        }
    }

    /// Decrypts the private key with `passphrase` and derives its address.
    pub fn decrypt_address(&self, passphrase: &str) -> (r: Result<Address, Error>)
        ensures
            match (r, decryption(self.crypto, passphrase.spec_bytes())) {
                (Ok(a), Ok(key)) => address_of(key) == Some(a.0@),
                (Err(e), Ok(key)) => address_of(key) is None && e == Error::InvalidPrivateKey,
                (Err(e), Err(f)) => e == f,
                _ => false,
            },
    {
        let pk = self.decrypt_key(passphrase)?;
        match pk.to_address() {
            Some(a) => Ok(a),
            None => Err(Error::InvalidPrivateKey),
        }
    }

    /// Encrypts `pk` under `passphrase` with the given salt and initialization
    /// vector, replacing the cipher text, salt, vector and MAC.
    pub fn encrypt_key_custom(
        &mut self,
        pk: PrivateKey,
        passphrase: &str,
        salt: [u8; 32],
        iv: [u8; 16],
    ) -> (r: Result<(), Error>)
        ensures
            encrypted_into(*old(self), *final(self), r, pk.0@, passphrase.spec_bytes(), salt@, iv@),
    {
        let mut address = self.address;
        let fresh = match &self.crypto {
            CryptoType::Core(core) => {
                let derived = derive_with(core.kdf, core.kdfparams_dklen, &salt, passphrase)?;
                let key = copy_range(derived.as_slice(), 0, 16);
                let iv_vec = vstd::slice::slice_to_vec(&iv);
                let plain = vstd::slice::slice_to_vec(&pk.0);
                let cipher_text = core.cipher.encrypt(plain.as_slice(), key.as_slice(), iv_vec.as_slice());
                let mac = compute_mac(&derived, &cipher_text);
                address = match pk.to_address() {
                    Some(a) => a,
                    None => return Err(Error::InvalidPrivateKey),
                };
                CoreCrypto {
                    cipher: core.cipher,
                    cipher_text,
                    iv,
                    kdf: core.kdf,
                    kdfparams_dklen: core.kdfparams_dklen,
                    kdfparams_salt: salt,
                    mac: to_array::<32>(&mac),
                }
            },
            CryptoType::HdWallet(_) => return Ok(()),
        };
        self.crypto = CryptoType::Core(fresh);
        self.address = address;
        Ok(())
    }

    /// Encrypts `pk` under `passphrase` with a salt and initialization vector
    /// drawn from the operating system's generator.
    pub fn encrypt_key(&mut self, pk: PrivateKey, passphrase: &str) -> (r: Result<(), Error>)
        ensures
            old(self).crypto is HdWallet ==> r is Ok && *final(self) == *old(self),
            old(self).crypto is Core ==> (r == Err::<(), Error>(Error::RandomSourceUnavailable)
                && *final(self) == *old(self)) || exists|salt: [u8; 32], iv: [u8; 16]|
                encrypted_into(*old(self), *final(self), r, pk.0@, passphrase.spec_bytes(), salt@, iv@),
    {
        if let CryptoType::HdWallet(_) = &self.crypto {
            return Ok(());
        }
        let salt = match os_random::<32>() {
            Some(b) => b,
            None => return Err(Error::RandomSourceUnavailable),
        };
        let iv = match os_random::<16>() {
            Some(b) => b,
            None => return Err(Error::RandomSourceUnavailable),
        };
        self.encrypt_key_custom(pk, passphrase, salt, iv)
    }

    /// Creates a record for a new private key drawn from the operating
    /// system's generator, encrypted under `passphrase`: with scrypt at
    /// `sec_level` where the platform has scrypt, with PBKDF2 otherwise.
    /// Draws that are no valid secp256k1 key are discarded; a generator that
    /// yields no valid key in `MAX_KEY_DRAWS` draws counts as unavailable.
    pub fn new(
        passphrase: &str,
        sec_level: &KdfDepthLevel,
        scrypt_available: bool,
        name: Option<String>,
        description: Option<String>,
    ) -> (r: Result<KeyFile, Error>)
        ensures
            match r {
                Ok(kf) => exists|key: Seq<u8>|
                    created(kf, key, passphrase.spec_bytes(), platform_kdf(*sec_level, scrypt_available), name, description),
                Err(e) => e == Error::RandomSourceUnavailable,
            },
    {
        let kdf = Kdf::for_platform(*sec_level, scrypt_available);
        proof {
            lemma_presets_accepted(*sec_level);
        }
        let mut found: Option<PrivateKey> = None;
        let mut attempt: usize = 0;
        while attempt < MAX_KEY_DRAWS && found.is_none()
            invariant
                attempt <= MAX_KEY_DRAWS,
                found matches Some(k) ==> address_of(k.0@) is Some,
            decreases MAX_KEY_DRAWS - attempt,
        {
            let candidate = match os_random::<32>() {
                Some(b) => PrivateKey(b),
                None => return Err(Error::RandomSourceUnavailable),
            };
            if candidate.to_address().is_some() {
                found = Some(candidate);
            }
            attempt = attempt + 1;
        }
        let pk = match found {
            Some(k) => k,
            None => return Err(Error::RandomSourceUnavailable),
        };
        let uuid_random = match os_random::<16>() {
            Some(b) => b,
            None => return Err(Error::RandomSourceUnavailable),
        };
        let salt = match os_random::<32>() {
            Some(b) => b,
            None => return Err(Error::RandomSourceUnavailable),
        };
        let iv = match os_random::<16>() {
            Some(b) => b,
            None => return Err(Error::RandomSourceUnavailable),
        };
        Self::new_custom(pk, passphrase, kdf, uuid_random, salt, iv, name, description)
    }

    /// Creates a record for `pk` encrypted under `passphrase` with `kdf`, from
    /// the given random bytes for the UUID, the salt and the initialization vector.
    pub fn new_custom(
        pk: PrivateKey,
        passphrase: &str,
        kdf: Kdf,
        uuid_random: [u8; 16],
        salt: [u8; 32],
        iv: [u8; 16],
        name: Option<String>,
        description: Option<String>,
    ) -> (r: Result<KeyFile, Error>)
        ensures
            match r {
                Ok(kf) => created(kf, pk.0@, passphrase.spec_bytes(), kdf, name, description)
                    && kf.uuid@ == uuid_v4_of(uuid_random@)
                    && (kf.crypto matches CryptoType::Core(c)
                    && sealed(c, pk.0@, passphrase.spec_bytes(), salt@, iv@)),
                Err(e) => if !kdf_accepts(kdf, DERIVED_KEY_BYTES as nat) {
                    e == Error::InvalidKdfParams
                } else {
                    address_of(pk.0@) is None && e == Error::InvalidPrivateKey
                },
            },
    {
        let mut kf = KeyFile::default();
        kf.uuid = uuid_from_random(uuid_random);
        kf.name = name;
        kf.description = description;
        let mut core = CoreCrypto::default();
        core.kdf = kdf;
        kf.crypto = CryptoType::Core(core);
        let ghost kf_before = kf;
        kf.encrypt_key_custom(pk, passphrase, salt, iv)?;
        proof {
            lemma_round_trip(kf_before, kf, pk, passphrase, salt, iv);
        }
        kf.address = kf.decrypt_address(passphrase)?;
        Ok(kf)
    }
}

} // verus!
