//! Passphrase-protected private-key records in the Web3 Secret Storage format.

use vstd::prelude::*;

pub mod account;
pub mod bytes;
pub mod cipher;
pub mod document;
pub mod error;
pub mod hex;
pub mod kdf;
pub mod keyfile;
pub mod prf;
pub mod uuid_text;

pub use account::{Address, PrivateKey};
pub use cipher::Cipher;
pub use document::{CryptoDocument, KdfParamsDocument, KeyDocument, decode, encode, try_extract_address};
pub use error::Error;
pub use kdf::{Kdf, KdfDepthLevel, PBKDF2_KDF_NAME};
pub use keyfile::{CoreCrypto, CryptoType, HdwalletCrypto, KeyFile, os_random};
pub use prf::Prf;

verus! {

} // verus!
