use vstd::prelude::*;
use crate::error::{Error, str_eq};
use crate::prf::Prf;
use vstd::string::StringSliceAdditionalSpecFns;
use vstd::arithmetic::power2::pow2;
use crypto::hmac::Hmac;
use crypto::pbkdf2::pbkdf2;
use crypto::scrypt::{ScryptParams, scrypt};
use crypto::sha2::Sha256;

verus! {

/// Name of the PBKDF2 key derivation function in keystore documents.
pub const PBKDF2_KDF_NAME: &'static str = "pbkdf2";

/// Name of the scrypt key derivation function in keystore documents.
pub const SCRYPT_KDF_NAME: &'static str = "scrypt";

/// PBKDF2 iteration count used where none is given.
pub const PBKDF2_DEFAULT_ITERATIONS: u32 = 262144;

/// Largest derived-key length that both algorithms accept (32 bytes per block,
/// at most 2^32 - 1 blocks).
pub const MAX_DERIVED_KEY_BYTES: u64 = 137438953440;

/// PBKDF2 with HMAC-SHA-256 of `password` and `salt`, `c` rounds, `len` bytes out.
pub uninterp spec fn pbkdf2_hmac_sha256_of(password: Seq<u8>, salt: Seq<u8>, c: nat, len: nat) -> Seq<u8>;

/// scrypt of `password` and `salt` with cost `2^log_n`, block size `r`,
/// parallelism `p`, `len` bytes out.
pub uninterp spec fn scrypt_of(
    password: Seq<u8>,
    salt: Seq<u8>,
    log_n: nat,
    r: nat,
    p: nat,
    len: nat,
) -> Seq<u8>;

/// Relies on rust-crypto's `pbkdf2` with `Hmac<Sha256>` keyed by the password:
/// `len` bytes that depend on the arguments alone. It panics on `c == 0` and
/// on more than 2^32 - 1 output blocks, which `requires` leaves out.
#[verifier::external_body]
fn pbkdf2_hmac_sha256(password: &[u8], salt: &[u8], c: u32, len: usize) -> (r: Vec<u8>)
    requires
        c > 0,
        len <= MAX_DERIVED_KEY_BYTES,
    ensures
        r@ == pbkdf2_hmac_sha256_of(password@, salt@, c as nat, len as nat),
        r@.len() == len,
{
    let mut out = vec![0u8; len];
    let mut mac = Hmac::new(Sha256::new(), password);
    pbkdf2(&mut mac, salt, c, &mut out);
    out
}

/// The conditions under which rust-crypto's `ScryptParams::new` and `scrypt`
/// accept their arguments (`n = 2^log_n`).
pub open spec fn scrypt_accepts(log_n: nat, r: nat, p: nat, len: nat) -> bool {
    &&& 0 < log_n < 32
    &&& r > 0
    &&& p > 0
    &&& r * 128 * pow2(log_n) <= usize::MAX
    &&& r * 128 * p <= usize::MAX
    &&& log_n < r * 16
    &&& r * p < 0x40000000
    &&& 0 < len <= MAX_DERIVED_KEY_BYTES
}

/// Relies on rust-crypto's `ScryptParams::new` and `scrypt`: `len` bytes that
/// depend on the arguments alone. Both panic outside `scrypt_accepts`.
#[verifier::external_body]
fn scrypt_derive(password: &[u8], salt: &[u8], log_n: u8, r: u32, p: u32, len: usize) -> (out: Vec<u8>)
    requires
        scrypt_accepts(log_n as nat, r as nat, p as nat, len as nat),
    ensures
        out@ == scrypt_of(password@, salt@, log_n as nat, r as nat, p as nat, len as nat),
        out@.len() == len,
{
    let mut out = vec![0u8; len];
    let params = ScryptParams::new(log_n, r, p);
    scrypt(password, salt, &params, &mut out);
    out
}

/// The exponent `k` with `2^k == n`, if there is one.
pub open spec fn exact_log2(n: nat) -> Option<nat>
    decreases n,
{
    if n == 1 {
        Some(0)
    } else if n >= 2 && n % 2 == 0 {
        match exact_log2(n / 2) {
            Some(k) => Some(k + 1),
            None => None,
        }
    } else {
        None
    }
}

/// Security presets that choose the scrypt cost parameters.
#[derive(Clone, Copy, Debug, PartialEq, Eq)]
pub enum KdfDepthLevel {
    /// Interactive use: N = 1024, r = 8, p = 1
    Normal,
    /// N = 8192, r = 8, p = 1
    High,
    /// The common strong preset: N = 262144, r = 8, p = 1
    Ultra,
}

impl Default for KdfDepthLevel {
    fn default() -> (r: KdfDepthLevel)
        ensures
            r == KdfDepthLevel::Normal,
    {
        KdfDepthLevel::Normal
    }
}

/// The scrypt triple `(N, r, p)` of a depth level.
pub open spec fn depth_params(level: KdfDepthLevel) -> (u32, u32, u32) {
    match level {
        KdfDepthLevel::Normal => (1024, 8, 1),
        KdfDepthLevel::High => (8192, 8, 1),
        KdfDepthLevel::Ultra => (262144, 8, 1),
    }
}

/// The cost product `N * r * p` of a depth level.
pub open spec fn depth_cost(level: KdfDepthLevel) -> int {
    let (n, r, p) = depth_params(level);
    n * r * p
}

/// Each depth level costs strictly more than the one below it.
pub proof fn lemma_depth_cost_increases()
    ensures
        depth_cost(KdfDepthLevel::Normal) < depth_cost(KdfDepthLevel::High),
        depth_cost(KdfDepthLevel::High) < depth_cost(KdfDepthLevel::Ultra),
{
    assert(1024int * 8 * 1 < 8192int * 8 * 1 < 262144int * 8 * 1) by (nonlinear_arith);
}

/// Every depth level, and the default PBKDF2, derive a 32-byte key.
pub proof fn lemma_presets_accepted(level: KdfDepthLevel)
    ensures
        kdf_accepts(
            Kdf::Scrypt {
                n: depth_params(level).0,
                r: depth_params(level).1,
                p: depth_params(level).2,
            },
            32,
        ),
        kdf_accepts(Kdf::default_pbkdf2_spec(), 32),
{
    reveal_with_fuel(exact_log2, 20);
    vstd::arithmetic::power2::lemma2_to64();
    assert(exact_log2(1024) == Some(10nat));
    assert(exact_log2(8192) == Some(13nat));
    assert(exact_log2(262144) == Some(18nat));
}

impl KdfDepthLevel {
    /// The level's name, as the command line takes it.
    pub fn name(&self) -> (r: &'static str)
        ensures
            r@ == match self {
                KdfDepthLevel::Normal => "normal"@,
                KdfDepthLevel::High => "high"@,
                KdfDepthLevel::Ultra => "ultra"@,
            },
    {
        match self {
            KdfDepthLevel::Normal => "normal",
            KdfDepthLevel::High => "high",
            KdfDepthLevel::Ultra => "ultra",
        }
    }

    /// Parses a level name.
    pub fn from_str(s: &str) -> (r: Result<KdfDepthLevel, Error>)
        ensures
            match r {
                Ok(level) => s@ == match level {
                    KdfDepthLevel::Normal => "normal"@,
                    KdfDepthLevel::High => "high"@,
                    KdfDepthLevel::Ultra => "ultra"@,
                },
                Err(e) => s@ != "normal"@ && s@ != "high"@ && s@ != "ultra"@
                    && (e matches Error::UnsupportedKdf(n) && n@ == s@),
            },
    {
        if str_eq(s, "normal") {
            Ok(KdfDepthLevel::Normal)
        } else if str_eq(s, "high") {
            Ok(KdfDepthLevel::High)
        } else if str_eq(s, "ultra") {
            Ok(KdfDepthLevel::Ultra)
        } else {
            Err(Error::UnsupportedKdf(s.to_owned()))
        }
    }
}

/// Key derivation functions with their parameters.
#[derive(Clone, Copy, Debug, PartialEq, Eq)]
pub enum Kdf {
    /// PBKDF2 with `c` rounds of `prf`
    Pbkdf2 { prf: Prf, c: u32 },
    /// scrypt with cost `n` (a power of two), block size `r` and parallelism `p`
    Scrypt { n: u32, r: u32, p: u32 },
}

/// Whether `kdf` can derive a key of `len` bytes.
pub open spec fn kdf_accepts(kdf: Kdf, len: nat) -> bool {
    match kdf {
        Kdf::Pbkdf2 { c, .. } => c > 0 && len <= MAX_DERIVED_KEY_BYTES,
        Kdf::Scrypt { n, r, p } => match exact_log2(n as nat) {
            Some(k) => scrypt_accepts(k, r as nat, p as nat, len),
            None => false,
        },
    }
}

/// The key that `kdf` derives from `password` and `salt`, `len` bytes long.
pub open spec fn derived_key(kdf: Kdf, len: nat, salt: Seq<u8>, password: Seq<u8>) -> Seq<u8> {
    match kdf {
        Kdf::Pbkdf2 { c, .. } => pbkdf2_hmac_sha256_of(password, salt, c as nat, len),
        Kdf::Scrypt { n, r, p } => scrypt_of(
            password,
            salt,
            exact_log2(n as nat).unwrap(),
            r as nat,
            p as nat,
            len,
        ),
    }
}

/// Computes the exponent of an exact power of two.
fn log2_exact(n: u32) -> (r: Option<u8>)
    ensures
        match r {
            Some(k) => exact_log2(n as nat) == Some(k as nat) && k < 32,
            None => exact_log2(n as nat) is None,
        },
{
    if n == 0 {
        return None;
    }
    proof {
        vstd::arithmetic::power2::lemma2_to64();
    }
    let mut m: u32 = n;
    let mut k: u8 = 0;
    while m > 1 && m % 2 == 0
        invariant
            m >= 1,
            k < 32,
            (m as nat) * pow2(k as nat) == n as nat,
            exact_log2(n as nat) == match exact_log2(m as nat) {
                Some(j) => Some((j + k) as nat),
                None => None::<nat>,
            },
        decreases m,
    {
        proof {
            vstd::arithmetic::power2::lemma_pow2_unfold((k + 1) as nat);
            assert((m / 2) as nat * pow2((k + 1) as nat) == n as nat) by (nonlinear_arith)
                requires
                    m % 2 == 0,
                    (m as nat) * pow2(k as nat) == n as nat,
                    pow2((k + 1) as nat) == 2 * pow2(k as nat),
            ;
            if k + 1 >= 32 {
                vstd::arithmetic::power2::lemma_pow2_strictly_increases(31, (k + 1) as nat);
                vstd::arithmetic::power2::lemma2_to64();
                assert((m / 2) as nat * pow2((k + 1) as nat) >= pow2((k + 1) as nat)) by (nonlinear_arith)
                    requires m / 2 >= 1;
            }
        }
        m = m / 2;
        k = k + 1;
    }
    if m == 1 {
        Some(k)
    } else {
        None
    }
}

impl Kdf {
    /// Derives a key of `len` bytes from `passphrase` and `salt`.
    pub fn derive(&self, len: usize, salt: &[u8], passphrase: &str) -> (r: Result<Vec<u8>, Error>)
        ensures
            match r {
                Ok(key) => kdf_accepts(*self, len as nat) && key@ == derived_key(
                    *self,
                    len as nat,
                    salt@,
                    passphrase.spec_bytes(),
                ) && key@.len() == len,
                Err(e) => !kdf_accepts(*self, len as nat) && e == Error::InvalidKdfParams,
            },
    {
        match *self {
            Kdf::Pbkdf2 { prf, c } => {
                if c == 0 || len as u64 > MAX_DERIVED_KEY_BYTES {
                    return Err(Error::InvalidKdfParams);
                }
                match prf {
                    Prf::HmacSha256 => Ok(pbkdf2_hmac_sha256(passphrase.as_bytes(), salt, c, len)),
                }
            },
            Kdf::Scrypt { n, r, p } => {
                let log_n = match log2_exact(n) {
                    Some(k) => k,
                    None => return Err(Error::InvalidKdfParams),
                };
                if !scrypt_params_fit(log_n, r, p, len) {
                    return Err(Error::InvalidKdfParams);
                }
                Ok(scrypt_derive(passphrase.as_bytes(), salt, log_n, r, p, len))
            },
        }
    }

    /// The algorithm's name in keystore documents.
    pub fn name(&self) -> (r: &'static str)
        ensures
            r@ == match self {
                Kdf::Pbkdf2 { .. } => PBKDF2_KDF_NAME@,
                Kdf::Scrypt { .. } => SCRYPT_KDF_NAME@,
            },
    {
        match self {
            Kdf::Pbkdf2 { .. } => PBKDF2_KDF_NAME,
            Kdf::Scrypt { .. } => SCRYPT_KDF_NAME,
        }
    }

    /// The scrypt parameters of a depth level.
    pub fn from_depth_level(level: KdfDepthLevel) -> (r: Kdf)
        ensures
            r == (Kdf::Scrypt {
                n: depth_params(level).0,
                r: depth_params(level).1,
                p: depth_params(level).2,
            }),
    {
        match level {
            KdfDepthLevel::Normal => Kdf::Scrypt { n: 1024, r: 8, p: 1 },
            KdfDepthLevel::High => Kdf::Scrypt { n: 8192, r: 8, p: 1 },
            KdfDepthLevel::Ultra => Kdf::Scrypt { n: 262144, r: 8, p: 1 },
        }
    }

    /// PBKDF2 with HMAC-SHA-256 and the default iteration count.
    pub fn default_pbkdf2() -> (r: Kdf)
        ensures
            r == (Kdf::Pbkdf2 { prf: Prf::HmacSha256, c: PBKDF2_DEFAULT_ITERATIONS }),
    {
        Kdf::Pbkdf2 { prf: Prf::HmacSha256, c: PBKDF2_DEFAULT_ITERATIONS }
    }

    /// The function a new record uses: scrypt at the requested depth where the
    /// platform has scrypt, PBKDF2 otherwise.
    pub fn for_platform(level: KdfDepthLevel, scrypt_available: bool) -> (r: Kdf)
        ensures
            scrypt_available ==> r == (Kdf::Scrypt {
                n: depth_params(level).0,
                r: depth_params(level).1,
                p: depth_params(level).2,
            }),
            !scrypt_available ==> r == (Kdf::Pbkdf2 {
                prf: Prf::HmacSha256,
                c: PBKDF2_DEFAULT_ITERATIONS,
            }),
    {
        if scrypt_available {
            Kdf::from_depth_level(level)
        } else {
            Kdf::default_pbkdf2()
        }
    }

    /// Parses an algorithm name into that algorithm with its default parameters.
    pub fn from_str(s: &str) -> (r: Result<Kdf, Error>)
        ensures
            match r {
                Ok(kdf) => (s@ == PBKDF2_KDF_NAME@ && kdf == Kdf::default_pbkdf2_spec()) || (
                s@ == SCRYPT_KDF_NAME@ && kdf == (Kdf::Scrypt { n: 1024, r: 8, p: 1 })),
                Err(e) => s@ != PBKDF2_KDF_NAME@ && s@ != SCRYPT_KDF_NAME@ && (
                e matches Error::UnsupportedKdf(n) && n@ == s@),
            },
    {
        if str_eq(s, PBKDF2_KDF_NAME) {
            Ok(Kdf::default_pbkdf2())
        } else if str_eq(s, SCRYPT_KDF_NAME) {
            Ok(Kdf::from_depth_level(KdfDepthLevel::Normal))
        } else {
            Err(Error::UnsupportedKdf(s.to_owned()))
        }
    }
}

impl Kdf {
    /// scrypt at the default depth level.
    pub open spec fn default_scrypt_spec() -> Kdf {
        Kdf::Scrypt { n: 1024, r: 8, p: 1 }
    }

    /// PBKDF2 with HMAC-SHA-256 and the default iteration count.
    pub open spec fn default_pbkdf2_spec() -> Kdf {
        Kdf::Pbkdf2 { prf: Prf::HmacSha256, c: PBKDF2_DEFAULT_ITERATIONS }
    }
}

/// Tests the bounds of `scrypt_accepts` without overflow.
fn scrypt_params_fit(log_n: u8, r: u32, p: u32, len: usize) -> (ok: bool)
    requires
        log_n < 32,
    ensures
        ok == scrypt_accepts(log_n as nat, r as nat, p as nat, len as nat),
{
    if log_n == 0 || r == 0 || p == 0 || len == 0 || len as u64 > MAX_DERIVED_KEY_BYTES {
        return false;
    }
    let r128: u64 = r as u64 * 128;
    proof {
        vstd::arithmetic::power2::lemma_pow2_strictly_increases(log_n as nat, 32);
        vstd::arithmetic::power2::lemma2_to64();
        vstd::bits::lemma_u64_shl_is_mul(1, log_n as u64);
    }
    let n: u64 = 1u64 << (log_n as u64);
    assert(r128 as u128 * n as u128 <= 0xffff_ffff_ffff_ffff_ffff_ffff) by (nonlinear_arith)
        requires
            r128 <= 0xffff_ffff * 128,
            n <= 0x1_0000_0000,
    ;
    assert(r128 as u128 * p as u128 <= 0xffff_ffff_ffff_ffff_ffff_ffff) by (nonlinear_arith)
        requires
            r128 <= 0xffff_ffff * 128,
            p <= 0xffff_ffff,
    ;
    let nr = r128 as u128 * n as u128;
    let pr = r128 as u128 * p as u128;
    let r16: u64 = r as u64 * 16;
    assert(r as u64 * p as u64 <= 0xffff_ffff_ffff_ffff) by (nonlinear_arith)
        requires
            r <= 0xffff_ffff,
            p <= 0xffff_ffff,
    ;
    let rp: u64 = r as u64 * p as u64;
    nr <= usize::MAX as u128 && pr <= usize::MAX as u128 && (log_n as u64) < r16 && rp < 0x40000000
}

impl From<(u32, u32, u32)> for Kdf {
    fn from(t: (u32, u32, u32)) -> (r: Kdf) {
        Kdf::Scrypt { n: t.0, r: t.1, p: t.2 }
    }
}

impl vstd::std_specs::convert::FromSpecImpl<(u32, u32, u32)> for Kdf {
    open spec fn obeys_from_spec() -> bool {
        true
    }

    open spec fn from_spec(t: (u32, u32, u32)) -> Kdf {
        Kdf::Scrypt { n: t.0, r: t.1, p: t.2 }
    }
}

impl From<KdfDepthLevel> for Kdf {
    fn from(level: KdfDepthLevel) -> (r: Kdf) {
        Kdf::from_depth_level(level)
    }
}

impl vstd::std_specs::convert::FromSpecImpl<KdfDepthLevel> for Kdf {
    open spec fn obeys_from_spec() -> bool {
        true
    }

    open spec fn from_spec(level: KdfDepthLevel) -> Kdf {
        Kdf::Scrypt {
            n: depth_params(level).0,
            r: depth_params(level).1,
            p: depth_params(level).2,
        }
    }
}

} // verus!
