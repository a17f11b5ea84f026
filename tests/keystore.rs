use emerald_keystore::account::keccak256;
use emerald_keystore::hex::{hex_decode, hex_encode};
use emerald_keystore::uuid_text::{uuid_decode, uuid_encode};
use emerald_keystore::{
    decode, encode, try_extract_address, Address, CryptoDocument, CryptoType, Error,
    HdwalletCrypto, Kdf, KdfDepthLevel, KdfParamsDocument, KeyDocument, KeyFile, PrivateKey, Prf,
};
use rand::RngCore;

fn random<const N: usize>() -> [u8; N] {
    let mut b = [0u8; N];
    rand::thread_rng().fill_bytes(&mut b);
    b
}

fn random_key() -> PrivateKey {
    PrivateKey(random::<32>())
}

fn hex32(s: &str) -> [u8; 32] {
    let v = hex_decode(s).unwrap();
    let mut a = [0u8; 32];
    a.copy_from_slice(&v);
    a
}

fn hex16(s: &str) -> [u8; 16] {
    let v = hex_decode(s).unwrap();
    let mut a = [0u8; 16];
    a.copy_from_slice(&v);
    a
}

fn light_keyfile(pk: PrivateKey, passphrase: &str) -> KeyFile {
    KeyFile::new_custom(
        pk,
        passphrase,
        Kdf::from((256, 8, 1)),
        random::<16>(),
        random::<32>(),
        random::<16>(),
        None,
        None,
    )
    .unwrap()
}

#[test]
fn should_create_keyfile() {
    let pk = random_key();
    let kdf = Kdf::from((8, 2, 1));
    let kf = KeyFile::new_custom(
        pk,
        "1234567890",
        kdf,
        random::<16>(),
        random::<32>(),
        random::<16>(),
        None,
        None,
    )
    .unwrap();

    if let CryptoType::Core(ref core) = kf.crypto {
        assert_eq!(core.kdf, kdf);
    } else {
        assert!(false);
    }

    assert_eq!(kf.decrypt_key("1234567890").unwrap(), pk);
}

#[test]
fn light_preset_round_trip_and_wrong_passphrase() {
    let pk = PrivateKey(hex32(
        "7a28b5ba57c53603b0b07b56bba752f7784bf506fa95edc395f5cf6c7514fe9d",
    ));
    let kf = light_keyfile(pk, "1234567890");
    assert_eq!(kf.decrypt_key("1234567890").unwrap(), pk);
    assert_eq!(kf.decrypt_key("wrong"), Err(Error::FailedMacValidation));
}

#[test]
fn address_matches_decrypted_key() {
    let pk = random_key();
    let kf = light_keyfile(pk, "pass");
    let key = kf.decrypt_key("pass").unwrap();
    assert_eq!(Some(kf.address), key.to_address());
    assert_eq!(kf.decrypt_address("pass").unwrap(), kf.address);
}

#[test]
fn reencryption_draws_fresh_salt_and_iv() {
    let pk = random_key();
    let mut kf = light_keyfile(pk, "pass");
    kf.encrypt_key(pk, "pass").unwrap();
    let first = match &kf.crypto {
        CryptoType::Core(c) => c.clone(),
        _ => panic!("expected a core section"),
    };
    kf.encrypt_key(pk, "pass").unwrap();
    let second = match &kf.crypto {
        CryptoType::Core(c) => c.clone(),
        _ => panic!("expected a core section"),
    };
    assert_ne!(first.kdfparams_salt, second.kdfparams_salt);
    assert_ne!(first.iv, second.iv);
    assert_eq!(kf.decrypt_key("pass").unwrap(), pk);
}

#[test]
fn encrypt_keeps_given_salt_and_iv() {
    let pk = random_key();
    let mut kf = light_keyfile(pk, "pass");
    let uuid = kf.uuid;
    let salt = [7u8; 32];
    let iv = [9u8; 16];
    kf.encrypt_key_custom(pk, "other", salt, iv).unwrap();
    match &kf.crypto {
        CryptoType::Core(c) => {
            assert_eq!(c.kdfparams_salt, salt);
            assert_eq!(c.iv, iv);
            assert_ne!(c.cipher_text, pk.0.to_vec());
        }
        _ => panic!("expected a core section"),
    }
    assert_eq!(kf.uuid, uuid);
    assert_eq!(kf.decrypt_key("other").unwrap(), pk);
    assert_eq!(kf.decrypt_key("pass"), Err(Error::FailedMacValidation));
}

#[test]
fn uuid_gets_version_and_variant_bits() {
    let kf = KeyFile::new_custom(
        random_key(),
        "pass",
        Kdf::from((256, 8, 1)),
        [0xff; 16],
        [1; 32],
        [2; 16],
        Some("n".to_string()),
        Some("d".to_string()),
    )
    .unwrap();
    assert_eq!(kf.uuid[6], 0x4f);
    assert_eq!(kf.uuid[8], 0xbf);
    assert_eq!(kf.uuid[0], 0xff);
    assert_eq!(kf.name, Some("n".to_string()));
    assert_eq!(kf.description, Some("d".to_string()));
    assert_eq!(kf.visible, Some(true));
}

#[test]
fn invalid_scrypt_cost_is_rejected() {
    let r = KeyFile::new_custom(
        random_key(),
        "pass",
        Kdf::from((1000, 8, 1)),
        [0; 16],
        [0; 32],
        [0; 16],
        None,
        None,
    );
    assert_eq!(r.err(), Some(Error::InvalidKdfParams));
    let r = KeyFile::new_custom(
        random_key(),
        "pass",
        Kdf::Pbkdf2 { prf: Prf::HmacSha256, c: 0 },
        [0; 16],
        [0; 32],
        [0; 16],
        None,
        None,
    );
    assert_eq!(r.err(), Some(Error::InvalidKdfParams));
}

#[test]
fn zero_private_key_is_rejected() {
    let r = KeyFile::new_custom(
        PrivateKey([0; 32]),
        "pass",
        Kdf::from((256, 8, 1)),
        [0; 16],
        [0; 32],
        [0; 16],
        None,
        None,
    );
    assert_eq!(r.err(), Some(Error::InvalidPrivateKey));
}

#[test]
fn hd_wallet_record_is_not_decrypted() {
    let mut kf = KeyFile::default();
    kf.crypto = CryptoType::HdWallet(HdwalletCrypto {
        cipher: "hardware".to_string(),
        hardware: "ledger-nano-s:v1".to_string(),
        hd_path: "44'/60'/160720'/0'".to_string(),
    });
    assert_eq!(kf.decrypt_key("pass"), Err(Error::InvalidCryptoVariant));
    let before = kf.crypto.clone();
    let address = kf.address;
    assert_eq!(kf.encrypt_key_custom(random_key(), "pass", [0; 32], [0; 16]), Ok(()));
    assert_eq!(kf.crypto, before);
    assert_eq!(kf.address, address);
    assert_eq!(kf.encrypt_key(random_key(), "pass"), Ok(()));
    assert_eq!(kf.crypto, before);
    assert_eq!(kf.address, address);
}

#[test]
fn depth_levels_grow_in_cost() {
    let cost = |level: KdfDepthLevel| match Kdf::from(level) {
        Kdf::Scrypt { n, r, p } => n as u64 * r as u64 * p as u64,
        _ => panic!("expected scrypt"),
    };
    assert!(cost(KdfDepthLevel::Normal) < cost(KdfDepthLevel::High));
    assert!(cost(KdfDepthLevel::High) < cost(KdfDepthLevel::Ultra));
    assert_eq!(Kdf::from(KdfDepthLevel::Ultra), Kdf::Scrypt { n: 262144, r: 8, p: 1 });
}

#[test]
fn platform_without_scrypt_uses_pbkdf2() {
    assert_eq!(
        Kdf::for_platform(KdfDepthLevel::High, false),
        Kdf::Pbkdf2 { prf: Prf::HmacSha256, c: 262144 }
    );
    assert_eq!(
        Kdf::for_platform(KdfDepthLevel::High, true),
        Kdf::Scrypt { n: 8192, r: 8, p: 1 }
    );
}

#[test]
fn names_parse() {
    assert_eq!(Kdf::from_str("pbkdf2"), Ok(Kdf::Pbkdf2 { prf: Prf::HmacSha256, c: 262144 }));
    assert_eq!(Kdf::from_str("scrypt"), Ok(Kdf::Scrypt { n: 1024, r: 8, p: 1 }));
    assert_eq!(Kdf::from_str("argon2"), Err(Error::UnsupportedKdf("argon2".to_string())));
    assert_eq!(Prf::from_str("hmac-sha256"), Ok(Prf::HmacSha256));
    assert_eq!(Prf::from_str("hmac-sha1"), Err(Error::UnsupportedPrf("hmac-sha1".to_string())));
    assert_eq!(
        emerald_keystore::Cipher::from_str("aes-128-cbc"),
        Err(Error::UnsupportedCipher("aes-128-cbc".to_string()))
    );
    assert_eq!(KdfDepthLevel::from_str("ultra"), Ok(KdfDepthLevel::Ultra));
    assert_eq!(KdfDepthLevel::from_str("max"), Err(Error::UnsupportedKdf("max".to_string())));
    assert_eq!(KdfDepthLevel::High.name(), "high");
}

#[test]
fn keccak256_of_empty_input() {
    assert_eq!(
        hex_encode(&keccak256(&[])),
        "c5d2460186f7233c927e7db2dcc703c0e500b653ca82273b7bfad8045d85a470"
    );
}

#[test]
fn address_of_known_key() {
    let mut k = [0u8; 32];
    k[31] = 1;
    let a = PrivateKey(k).to_address().unwrap();
    assert_eq!(hex_encode(&a.0), "7e5f4552091a69125d5dfcb7b8c2659029395bdf");
}

#[test]
fn hex_text() {
    assert_eq!(hex_encode(&[0x00, 0xab, 0x7f]), "00ab7f");
    assert_eq!(hex_decode("00AB7f"), Some(vec![0x00, 0xab, 0x7f]));
    assert_eq!(hex_decode("abc"), None);
    assert_eq!(hex_decode("zz"), None);
    assert_eq!(hex_decode(""), Some(vec![]));
}

#[test]
fn uuid_text_form() {
    let u = hex16("3198bc9c66725ab3d9954942343ae5b6");
    assert_eq!(uuid_encode(&u), "3198bc9c-6672-5ab3-d995-4942343ae5b6");
    assert_eq!(uuid_decode("3198bc9c-6672-5ab3-d995-4942343ae5b6"), Some(u));
    assert_eq!(uuid_decode("3198bc9c66725ab3d9954942343ae5b6"), None);
}

fn pbkdf2_vector() -> KeyDocument {
    KeyDocument {
        version: Some(3),
        id: Some("3198bc9c-6672-5ab3-d995-4942343ae5b6".to_string()),
        address: Some("008aeeda4d805471df9b2a5b0f38a0c3bcba786b".to_string()),
        name: None,
        description: None,
        visible: None,
        crypto: Some(CryptoDocument {
            cipher: Some("aes-128-ctr".to_string()),
            ciphertext: Some(
                "5318b4d5bcd28de64ee5559e671353e16f075ecae9f99c7a79a38af5f869aa46".to_string(),
            ),
            iv: Some("6087dab2f9fdbbfaddc31a909735c1e6".to_string()),
            kdf: Some("pbkdf2".to_string()),
            kdfparams: Some(KdfParamsDocument {
                n: None,
                r: None,
                p: None,
                c: Some(262144),
                prf: Some("hmac-sha256".to_string()),
                dklen: Some(32),
                salt: Some(
                    "ae3cd4e7013836a3df6bd7241b12db061dbe2c6785853cce422d148a624ce0bd".to_string(),
                ),
            }),
            mac: Some(
                "517ead924a9d0dc3124507e3393d175ce3ff7c1e96529c6c555ce9e51205e9b2".to_string(),
            ),
            hardware: None,
            hd_path: None,
        }),
    }
}

#[test]
fn decrypts_pbkdf2_test_vector() {
    let kf = decode(&pbkdf2_vector()).unwrap();
    let pk = kf.decrypt_key("testpassword").unwrap();
    assert_eq!(
        hex_encode(&pk.0),
        "7a28b5ba57c53603b0b07b56bba752f7784bf506fa95edc395f5cf6c7514fe9d"
    );
    assert_eq!(pk.to_address(), Some(kf.address));
}

#[test]
fn document_round_trip_core() {
    let mut kf = light_keyfile(random_key(), "pass");
    kf.name = Some("main".to_string());
    kf.description = Some("savings".to_string());
    kf.visible = Some(false);
    let back = decode(&encode(&kf)).unwrap();
    assert_eq!(back.name, kf.name);
    assert_eq!(back.description, kf.description);
    assert_eq!(back.visible, kf.visible);
    assert_eq!(back.address, kf.address);
    assert_eq!(back.uuid, kf.uuid);
    assert_eq!(back.crypto, kf.crypto);
}

#[test]
fn document_round_trip_pbkdf2_and_hd() {
    let kf = decode(&pbkdf2_vector()).unwrap();
    let back = decode(&encode(&kf)).unwrap();
    assert_eq!(back.crypto, kf.crypto);
    assert_eq!(encode(&kf), encode(&back));

    let mut hd = KeyFile::default();
    hd.crypto = CryptoType::HdWallet(HdwalletCrypto {
        cipher: "hardware".to_string(),
        hardware: "ledger-nano-s:v1".to_string(),
        hd_path: "44'/60'/160720'/0'".to_string(),
    });
    let back = decode(&encode(&hd)).unwrap();
    assert_eq!(back.crypto, hd.crypto);
    assert_eq!(back.uuid, hd.uuid);
}

#[test]
fn document_without_mac_is_malformed() {
    let mut doc = pbkdf2_vector();
    doc.crypto.as_mut().unwrap().mac = None;
    assert_eq!(decode(&doc).err(), Some(Error::MalformedDocument));
}

#[test]
fn document_with_unknown_kdf_is_unsupported() {
    let mut doc = pbkdf2_vector();
    doc.crypto.as_mut().unwrap().kdf = Some("unknown".to_string());
    assert_eq!(decode(&doc).err(), Some(Error::UnsupportedKdf("unknown".to_string())));
}

#[test]
fn document_with_bad_hex_or_names_fails() {
    let mut doc = pbkdf2_vector();
    doc.crypto.as_mut().unwrap().iv = Some("xyz".to_string());
    assert_eq!(decode(&doc).err(), Some(Error::MalformedDocument));
    let mut doc = pbkdf2_vector();
    doc.crypto.as_mut().unwrap().cipher = Some("aes-256-gcm".to_string());
    assert_eq!(decode(&doc).err(), Some(Error::UnsupportedCipher("aes-256-gcm".to_string())));
    let mut doc = pbkdf2_vector();
    doc.crypto.as_mut().unwrap().kdfparams.as_mut().unwrap().prf = Some("hmac-md5".to_string());
    assert_eq!(decode(&doc).err(), Some(Error::UnsupportedPrf("hmac-md5".to_string())));
    let mut doc = pbkdf2_vector();
    doc.id = None;
    assert_eq!(decode(&doc).err(), Some(Error::MalformedDocument));
}

#[test]
fn address_is_read_without_crypto() {
    let mut doc = pbkdf2_vector();
    doc.crypto = None;
    let a = try_extract_address(&doc).unwrap();
    assert_eq!(hex_encode(&a.0), "008aeeda4d805471df9b2a5b0f38a0c3bcba786b");
    doc.address = Some("1234".to_string());
    assert_eq!(try_extract_address(&doc), None);
}

#[test]
fn default_record_is_visible_and_unkeyed() {
    let kf = KeyFile::default();
    assert_eq!(kf.visible, Some(true));
    assert_eq!(kf.address, Address([0; 20]));
    assert_eq!(kf.uuid, [0; 16]);
}

#[test]
fn hmac_sha256_known_answer() {
    let code = Prf::HmacSha256.hmac(b"Jefe", b"what do ya want for nothing?");
    assert_eq!(
        hex_encode(&code),
        "5bdcc146bf60754e6a042426089575c75a003f089d2739839dec58b964ec3843"
    );
}

#[test]
fn records_are_equal_by_uuid() {
    let a = light_keyfile(random_key(), "a");
    let mut b = light_keyfile(random_key(), "b");
    assert!(a != b);
    b.uuid = a.uuid;
    assert!(a == b);
}

#[test]
fn round_trip_for_several_keys_and_passphrases() {
    for (i, pass) in ["", "x", "correct horse battery staple", "パスワード"].iter().enumerate() {
        let mut k = [0x11u8; 32];
        k[0] = i as u8 + 1;
        let pk = PrivateKey(k);
        let kf = light_keyfile(pk, pass);
        assert_eq!(kf.decrypt_key(pass).unwrap(), pk);
        assert_eq!(kf.decrypt_key("not it"), Err(Error::FailedMacValidation));
    }
}

#[test]
fn pbkdf2_record_round_trip() {
    let pk = random_key();
    let kf = KeyFile::new_custom(
        pk,
        "pass",
        Kdf::Pbkdf2 { prf: Prf::HmacSha256, c: 2 },
        random::<16>(),
        random::<32>(),
        random::<16>(),
        None,
        None,
    )
    .unwrap();
    assert_eq!(kf.decrypt_key("pass").unwrap(), pk);
    assert_eq!(kf.decrypt_key("Pass"), Err(Error::FailedMacValidation));
}

#[test]
fn records_are_ordered_by_uuid() {
    let mut a = KeyFile::default();
    let mut b = KeyFile::default();
    a.uuid[3] = 1;
    b.uuid[3] = 2;
    b.uuid[0] = 0;
    assert!(a < b);
    assert_eq!(a.partial_cmp(&a), Some(std::cmp::Ordering::Equal));
    a.uuid[0] = 9;
    assert!(a > b);
}

#[test]
fn reencrypting_another_key_updates_the_address() {
    let first = random_key();
    let second = random_key();
    let mut kf = light_keyfile(first, "pass");
    assert_eq!(Some(kf.address), first.to_address());
    kf.encrypt_key_custom(second, "pass", [3; 32], [4; 16]).unwrap();
    assert_eq!(Some(kf.address), second.to_address());
    assert_eq!(kf.decrypt_address("pass").unwrap(), kf.address);
    kf.encrypt_key(first, "pass").unwrap();
    assert_eq!(Some(kf.address), first.to_address());
}

#[test]
fn encrypting_an_invalid_key_leaves_the_record() {
    let pk = random_key();
    let mut kf = light_keyfile(pk, "pass");
    let before = kf.clone();
    assert_eq!(
        kf.encrypt_key_custom(PrivateKey([0; 32]), "pass", [3; 32], [4; 16]),
        Err(Error::InvalidPrivateKey)
    );
    assert_eq!(kf.crypto, before.crypto);
    assert_eq!(kf.address, before.address);
    assert_eq!(kf.decrypt_key("pass").unwrap(), pk);
}

#[test]
fn record_from_uuid_is_otherwise_default() {
    let kf = KeyFile::from([5; 16]);
    let d = KeyFile::default();
    assert_eq!(kf.uuid, [5; 16]);
    assert_eq!(kf.visible, d.visible);
    assert_eq!(kf.name, None);
    assert_eq!(kf.description, None);
    assert_eq!(kf.address, d.address);
    assert_eq!(kf.crypto, d.crypto);
    match &kf.crypto {
        CryptoType::Core(c) => {
            assert!(c.cipher_text.is_empty());
            assert_eq!(c.iv, [0; 16]);
            assert_eq!(c.kdfparams_salt, [0; 32]);
            assert_eq!(c.mac, [0; 32]);
            assert_eq!(c.kdfparams_dklen, 32);
        }
        _ => panic!("expected a core section"),
    }
}

#[test]
fn new_record_with_os_randomness() {
    let kf = KeyFile::new("pass", &KdfDepthLevel::Normal, true, Some("a".to_string()), None)
        .unwrap();
    let pk = kf.decrypt_key("pass").unwrap();
    assert_eq!(pk.to_address(), Some(kf.address));
    match &kf.crypto {
        CryptoType::Core(c) => assert_eq!(c.kdf, Kdf::Scrypt { n: 1024, r: 8, p: 1 }),
        _ => panic!("expected a core section"),
    }
}

#[test]
fn document_without_version_is_malformed() {
    let mut doc = pbkdf2_vector();
    doc.version = None;
    assert_eq!(decode(&doc).err(), Some(Error::MalformedDocument));
}
