use cryptcore::cipher::Cipher;
use cryptcore::codec::{pack, unpack};
use cryptcore::cost::Cost;
use cryptcore::iterations::Iterations;
use cryptcore::kdf::{KDFCost, KDF};
use cryptcore::state::{State, UpdateMsg, Updater};
use cryptcore::CryptoError;

#[test]
fn test_pbkdf2_cost_table() {
    assert_eq!(KDF::PBKDF2.cost(Cost::LOW), KDFCost::PBKDF2(10_000));
    assert_eq!(KDF::PBKDF2.cost(Cost::MEDIUM), KDFCost::PBKDF2(100_000));
    assert_eq!(KDF::PBKDF2.cost(Cost::HIGH), KDFCost::PBKDF2(1_000_000));
}

#[test]
fn test_argon2_cost_table() {
    assert_eq!(KDF::ARGON2.cost(Cost::LOW), KDFCost::ARGON2(65536, 6));
    assert_eq!(KDF::ARGON2.cost(Cost::MEDIUM), KDFCost::ARGON2(1048576, 8));
    assert_eq!(KDF::ARGON2.cost(Cost::HIGH), KDFCost::ARGON2(4194304, 10));
}

#[test]
fn test_labels() {
    assert_eq!(Cipher::AESCBC.as_static_str(), "AES-CBC");
    assert_eq!(Cipher::CHACHA20.as_static_str(), "CHACHA20");
    assert_eq!(Cipher::SALSA20.as_static_str(), "SALSA20");
    assert_eq!(Cost::LOW.as_static_str(), "LOW");
    assert_eq!(Cost::MEDIUM.as_static_str(), "MEDIUM");
    assert_eq!(Cost::HIGH.as_static_str(), "HIGH");
    assert_eq!(Iterations::LOW.as_static_str(), "LOW");
    assert_eq!(KDF::PBKDF2.as_static_str(), "PBKDF2");
    assert_eq!(KDF::ARGON2.as_static_str(), "ARGON2");
    assert_eq!(cryptcore::hash::Hash::RIPEMD160.as_static_str(), "RIPEMD-160");
    assert_eq!(cryptcore::hash::Hash::BLAKE2B.as_static_str(), "BLAKE2B");
    assert_eq!(cryptcore::hash::Hash::BLAKE2S.as_static_str(), "BLAKE2S");
    assert_eq!(cryptcore::hash::Hash::SHA2_256.as_static_str(), "SHA-256");
    assert_eq!(cryptcore::hash::Hash::SHA2_384.as_static_str(), "SHA-384");
    assert_eq!(cryptcore::hash::Hash::SHA2_512.as_static_str(), "SHA-512");
    assert_eq!(cryptcore::hash::Hash::SHA3_256.as_static_str(), "SHA3-256");
    assert_eq!(cryptcore::hash::Hash::SHA3_384.as_static_str(), "SHA3-384");
    assert_eq!(cryptcore::hash::Hash::SHA3_512.as_static_str(), "SHA3-512");
}

#[test]
fn test_nonce_lengths() {
    assert_eq!(Cipher::AESCBC.nonce_len(), 16);
    assert_eq!(Cipher::CHACHA20.nonce_len(), 12);
    assert_eq!(Cipher::SALSA20.nonce_len(), 8);
}

#[test]
fn test_iterations_to_cost() {
    assert_eq!(Iterations::LOW.to_cost(), Cost::LOW);
    assert_eq!(Iterations::MEDIUM.to_cost(), Cost::MEDIUM);
    assert_eq!(Iterations::HIGH.to_cost(), Cost::HIGH);
}

#[test]
fn test_state_new_defaults() {
    let state = State::new();
    assert_eq!(state.hash, cryptcore::hash::Hash::SHA2_256);
    assert_eq!(state.cipher, Cipher::AESCBC);
    assert_eq!(state.iterations, Iterations::MEDIUM);
    assert_eq!(state.kdf, KDF::PBKDF2);
}

#[test]
fn test_state_update() {
    let mut state = State::new();
    state.update(UpdateMsg::Cipher(Cipher::SALSA20));
    assert_eq!(state.cipher, Cipher::SALSA20);
    assert_eq!(state.kdf, KDF::PBKDF2);
    state.update(UpdateMsg::KDF(KDF::ARGON2));
    assert_eq!(state.kdf, KDF::ARGON2);
    state.update(UpdateMsg::Hash(cryptcore::hash::Hash::BLAKE2S));
    assert_eq!(state.hash, cryptcore::hash::Hash::BLAKE2S);
    state.update(UpdateMsg::Iterations(Iterations::HIGH));
    assert_eq!(state.iterations, Iterations::HIGH);
    assert_eq!(state.cipher, Cipher::SALSA20);
}

#[test]
fn test_updater_messages() {
    assert_eq!(
        Cipher::CHACHA20.update(),
        UpdateMsg::Cipher(Cipher::CHACHA20)
    );
    assert_eq!(KDF::ARGON2.update(), UpdateMsg::KDF(KDF::ARGON2));
    assert_eq!(
        Iterations::HIGH.update(),
        UpdateMsg::Iterations(Iterations::HIGH)
    );
    assert_eq!(
        cryptcore::hash::Hash::SHA3_512.update(),
        UpdateMsg::Hash(cryptcore::hash::Hash::SHA3_512)
    );
}

#[test]
fn test_state_status() {
    let mut state = State::new();
    assert_eq!(state.status(), "AES-CBC | SHA-256 | MEDIUM | PBKDF2");
    state.update(UpdateMsg::KDF(KDF::ARGON2));
    // Under Argon2i the digest selection is ignored, so it is not shown.
    assert_eq!(state.status(), "AES-CBC | MEDIUM | ARGON2");
    state.update(UpdateMsg::Cipher(Cipher::SALSA20));
    state.update(UpdateMsg::Iterations(Iterations::HIGH));
    assert_eq!(state.status(), "SALSA20 | HIGH | ARGON2");
}

#[test]
fn test_pkcs_strip() {
    let mut padded = b"secret".to_vec();
    padded.extend(vec![10u8; 10]);
    assert_eq!(cryptcore::engine::pkcs_strip(padded), Ok(b"secret".to_vec()));
    let full_block = vec![16u8; 16];
    assert_eq!(cryptcore::engine::pkcs_strip(full_block), Ok(Vec::new()));
    // A padding count of zero, one above the block size, or larger than
    // the input, and a tail that does not repeat the count, are all
    // rejected; so is an empty input.
    assert!(cryptcore::engine::pkcs_strip(vec![0u8; 16]).is_err());
    assert!(cryptcore::engine::pkcs_strip(vec![17u8; 16]).is_err());
    assert!(cryptcore::engine::pkcs_strip(vec![2u8, 2, 5]).is_err());
    let mut bad_tail = vec![7u8; 16];
    bad_tail[10] = 9;
    bad_tail[15] = 7;
    assert!(cryptcore::engine::pkcs_strip(bad_tail).is_err());
    assert!(cryptcore::engine::pkcs_strip(Vec::new()).is_err());
}

#[test]
fn test_pack_unpack() {
    let salt = b"0123456789abcdef";
    let ciphertext = vec![1u8, 2, 3];
    let blob = pack(salt, ciphertext.as_slice());
    assert_eq!(blob.len(), 19);
    assert_eq!(&blob[0..16], salt.as_slice());
    assert_eq!(&blob[16..], ciphertext.as_slice());
    let (s, c) = unpack(blob.as_slice()).unwrap();
    assert_eq!(s, salt.to_vec());
    assert_eq!(c, ciphertext);
}

#[test]
fn test_unpack_rejects_short_blob() {
    assert_eq!(
        unpack(&[0u8; 16]),
        Err(CryptoError::PreconditionViolation)
    );
    assert_eq!(unpack(&[]), Err(CryptoError::PreconditionViolation));
}

#[test]
fn test_xor() {
    let a = [0b1010u8, 0xff, 0x00];
    let b = [0b0110u8, 0x0f, 0x00];
    assert_eq!(cryptcore::extract::xor(&a, &b), vec![0b1100u8, 0xf0, 0x00]);
}

#[test]
fn test_extract_iv_binds_salt() {
    let derived: Vec<u8> = (0u8..48).collect();
    let salt = [0xaau8; 16];
    let (iv, key) = cryptcore::extract::extract(derived.as_slice(), &salt);
    assert_eq!(iv.len(), 16);
    assert_eq!(key.len(), 32);
    for i in 0..16 {
        assert_eq!(iv[i], 0xaa ^ (i as u8));
    }
    assert_eq!(key, (16u8..48).collect::<Vec<u8>>());
}
