// Every (cipher, digest) pair of the PBKDF2 configuration space, each as a
// round trip of password "hello" and plaintext "secret" at the LOW cost
// tier. One test per pair: the slowest digests take several seconds each
// here, so a single test over all 27 pairs would not fit the harness's
// per-test time budget.

use cryptcore::cipher::Cipher;
use cryptcore::cost::Cost;
use cryptcore::kdf::KDF;
use cryptcore::{decrypt, encrypt};

fn encrypt_decrypt(cipher: Cipher, hash: cryptcore::hash::Hash) {
    let cost = Cost::LOW;
    let kdf = KDF::PBKDF2;
    let pass = String::from("hello");
    let plaintext = "secret".as_bytes();
    let (salt, ciphertext) = encrypt(cipher, hash, cost, kdf, pass.clone(), plaintext).unwrap();
    let mut c: Vec<u8> = Vec::new();
    c.append(&mut salt[..].to_vec());
    c.extend(ciphertext);
    let res = decrypt(cipher, hash, cost, kdf, pass, c).unwrap();
    assert_eq!(&res.as_slice(), &plaintext);
}

#[test]
fn test_pbkdf2_round_trip_aescbc_ripemd160() {
    encrypt_decrypt(Cipher::AESCBC, cryptcore::hash::Hash::RIPEMD160);
}

#[test]
fn test_pbkdf2_round_trip_aescbc_blake2b() {
    encrypt_decrypt(Cipher::AESCBC, cryptcore::hash::Hash::BLAKE2B);
}

#[test]
fn test_pbkdf2_round_trip_aescbc_blake2s() {
    encrypt_decrypt(Cipher::AESCBC, cryptcore::hash::Hash::BLAKE2S);
}

#[test]
fn test_pbkdf2_round_trip_aescbc_sha2_256() {
    encrypt_decrypt(Cipher::AESCBC, cryptcore::hash::Hash::SHA2_256);
}

#[test]
fn test_pbkdf2_round_trip_aescbc_sha2_384() {
    encrypt_decrypt(Cipher::AESCBC, cryptcore::hash::Hash::SHA2_384);
}

#[test]
fn test_pbkdf2_round_trip_aescbc_sha2_512() {
    encrypt_decrypt(Cipher::AESCBC, cryptcore::hash::Hash::SHA2_512);
}

#[test]
fn test_pbkdf2_round_trip_aescbc_sha3_256() {
    encrypt_decrypt(Cipher::AESCBC, cryptcore::hash::Hash::SHA3_256);
}

#[test]
fn test_pbkdf2_round_trip_aescbc_sha3_384() {
    encrypt_decrypt(Cipher::AESCBC, cryptcore::hash::Hash::SHA3_384);
}

#[test]
fn test_pbkdf2_round_trip_aescbc_sha3_512() {
    encrypt_decrypt(Cipher::AESCBC, cryptcore::hash::Hash::SHA3_512);
}

#[test]
fn test_pbkdf2_round_trip_chacha20_ripemd160() {
    encrypt_decrypt(Cipher::CHACHA20, cryptcore::hash::Hash::RIPEMD160);
}

#[test]
fn test_pbkdf2_round_trip_chacha20_blake2b() {
    encrypt_decrypt(Cipher::CHACHA20, cryptcore::hash::Hash::BLAKE2B);
}

#[test]
fn test_pbkdf2_round_trip_chacha20_blake2s() {
    encrypt_decrypt(Cipher::CHACHA20, cryptcore::hash::Hash::BLAKE2S);
}

#[test]
fn test_pbkdf2_round_trip_chacha20_sha2_256() {
    encrypt_decrypt(Cipher::CHACHA20, cryptcore::hash::Hash::SHA2_256);
}

#[test]
fn test_pbkdf2_round_trip_chacha20_sha2_384() {
    encrypt_decrypt(Cipher::CHACHA20, cryptcore::hash::Hash::SHA2_384);
}

#[test]
fn test_pbkdf2_round_trip_chacha20_sha2_512() {
    encrypt_decrypt(Cipher::CHACHA20, cryptcore::hash::Hash::SHA2_512);
}

#[test]
fn test_pbkdf2_round_trip_chacha20_sha3_256() {
    encrypt_decrypt(Cipher::CHACHA20, cryptcore::hash::Hash::SHA3_256);
}

#[test]
fn test_pbkdf2_round_trip_chacha20_sha3_384() {
    encrypt_decrypt(Cipher::CHACHA20, cryptcore::hash::Hash::SHA3_384);
}

#[test]
fn test_pbkdf2_round_trip_chacha20_sha3_512() {
    encrypt_decrypt(Cipher::CHACHA20, cryptcore::hash::Hash::SHA3_512);
}

#[test]
fn test_pbkdf2_round_trip_salsa20_ripemd160() {
    encrypt_decrypt(Cipher::SALSA20, cryptcore::hash::Hash::RIPEMD160);
}

#[test]
fn test_pbkdf2_round_trip_salsa20_blake2b() {
    encrypt_decrypt(Cipher::SALSA20, cryptcore::hash::Hash::BLAKE2B);
}

#[test]
fn test_pbkdf2_round_trip_salsa20_blake2s() {
    encrypt_decrypt(Cipher::SALSA20, cryptcore::hash::Hash::BLAKE2S);
}

#[test]
fn test_pbkdf2_round_trip_salsa20_sha2_256() {
    encrypt_decrypt(Cipher::SALSA20, cryptcore::hash::Hash::SHA2_256);
}

#[test]
fn test_pbkdf2_round_trip_salsa20_sha2_384() {
    encrypt_decrypt(Cipher::SALSA20, cryptcore::hash::Hash::SHA2_384);
}

#[test]
fn test_pbkdf2_round_trip_salsa20_sha2_512() {
    encrypt_decrypt(Cipher::SALSA20, cryptcore::hash::Hash::SHA2_512);
}

#[test]
fn test_pbkdf2_round_trip_salsa20_sha3_256() {
    encrypt_decrypt(Cipher::SALSA20, cryptcore::hash::Hash::SHA3_256);
}

#[test]
fn test_pbkdf2_round_trip_salsa20_sha3_384() {
    encrypt_decrypt(Cipher::SALSA20, cryptcore::hash::Hash::SHA3_384);
}

#[test]
fn test_pbkdf2_round_trip_salsa20_sha3_512() {
    encrypt_decrypt(Cipher::SALSA20, cryptcore::hash::Hash::SHA3_512);
}
