use cryptcore::cost::Cost;
use cryptcore::kdf::KDF;
use cryptcore::keyderive::derive_key;

fn all_hashes() -> Vec<cryptcore::hash::Hash> {
    vec![
        cryptcore::hash::Hash::RIPEMD160,
        cryptcore::hash::Hash::BLAKE2B,
        cryptcore::hash::Hash::BLAKE2S,
        cryptcore::hash::Hash::SHA2_256,
        cryptcore::hash::Hash::SHA2_384,
        cryptcore::hash::Hash::SHA2_512,
        cryptcore::hash::Hash::SHA3_256,
        cryptcore::hash::Hash::SHA3_384,
        cryptcore::hash::Hash::SHA3_512,
    ]
}

#[test]
fn test_derive_deterministic() {
    let salt = b"0123456789abcdef";
    let a = derive_key(
        cryptcore::hash::Hash::SHA2_256,
        KDF::PBKDF2,
        Cost::LOW,
        "hello".as_bytes(),
        salt,
    )
    .unwrap();
    let b = derive_key(
        cryptcore::hash::Hash::SHA2_256,
        KDF::PBKDF2,
        Cost::LOW,
        "hello".as_bytes(),
        salt,
    )
    .unwrap();
    assert_eq!(a, b);
    assert_eq!(a.len(), 48);
}

#[test]
fn test_derive_hashes_distinct_under_pbkdf2() {
    let salt = b"0123456789abcdef";
    let mut outputs: Vec<Vec<u8>> = Vec::new();
    for hash in all_hashes() {
        let d = derive_key(hash, KDF::PBKDF2, Cost::LOW, "hello".as_bytes(), salt).unwrap();
        assert_eq!(d.len(), 48);
        outputs.push(d);
    }
    for i in 0..outputs.len() {
        for j in 0..i {
            assert_ne!(outputs[i], outputs[j]);
        }
    }
}

#[test]
fn test_argon2_hash_independence() {
    let salt = b"0123456789abcdef";
    let reference = derive_key(
        cryptcore::hash::Hash::RIPEMD160,
        KDF::ARGON2,
        Cost::LOW,
        "hello".as_bytes(),
        salt,
    )
    .unwrap();
    assert_eq!(reference.len(), 48);
    for hash in all_hashes() {
        let d = derive_key(hash, KDF::ARGON2, Cost::LOW, "hello".as_bytes(), salt).unwrap();
        assert_eq!(d, reference);
    }
}

#[test]
fn test_argon2_differs_from_pbkdf2() {
    let salt = b"0123456789abcdef";
    let a = derive_key(
        cryptcore::hash::Hash::SHA2_256,
        KDF::ARGON2,
        Cost::LOW,
        "hello".as_bytes(),
        salt,
    )
    .unwrap();
    let p = derive_key(
        cryptcore::hash::Hash::SHA2_256,
        KDF::PBKDF2,
        Cost::LOW,
        "hello".as_bytes(),
        salt,
    )
    .unwrap();
    assert_ne!(a, p);
}

#[test]
fn test_derive_differs_from_password_and_salt() {
    let salt = b"0123456789abcdef";
    let d = derive_key(
        cryptcore::hash::Hash::SHA2_256,
        KDF::PBKDF2,
        Cost::LOW,
        "hello".as_bytes(),
        salt,
    )
    .unwrap();
    assert_ne!(&d[0..5], "hello".as_bytes());
    assert_ne!(&d[0..16], salt.as_slice());
}
