use vstd::prelude::*;

use rand::RngCore;
use vstd::string::StringSliceAdditionalSpecFns;

use crate::cipher::Cipher;
use crate::codec::unpack;
use crate::cost::Cost;
use crate::engine::{
    lemma_chacha20_tamper_locality, lemma_salsa20_tamper_locality, make_dec_engine,
    make_enc_engine, pkcs_strip, run_decrypt, run_encrypt, spec_ciphertext_len,
    spec_decrypt_bytes, spec_encrypt_bytes,
};
use crate::errors::CryptoError;
use crate::extract::{extract, spec_cipher_key, spec_iv};
use crate::kdf::KDF;
use crate::keyderive::{derive_key, spec_derived_key};

verus! {

/// The password's bytes, as the key-derivation backends consume them.
pub open spec fn spec_password_bytes(key: Seq<char>) -> Seq<u8> {
    vstd::utf8::encode_utf8(key)
}

/// The ciphertext that one encryption produces from a password, a salt
/// and a payload: key material is derived, split into IV and cipher key,
/// and the selected cipher applied.
pub open spec fn spec_encrypt_ciphertext(
    cipher: Cipher,
    hash: crate::hash::Hash,
    cost: Cost,
    kdf: KDF,
    password: Seq<u8>,
    salt: Seq<u8>,
    plaintext: Seq<u8>,
) -> Seq<u8> {
    let derived = spec_derived_key(hash, kdf, cost, password, salt);
    spec_encrypt_bytes(cipher, spec_cipher_key(derived), spec_iv(salt, derived), plaintext)
}

/// What decrypting a blob under a password yields: `None` when the blob
/// is no longer than the salt or the cipher backend rejects its
/// ciphertext; otherwise the recovered payload. The salt is the blob's
/// first 16 bytes, and the same derivation as on the encrypting side
/// rebuilds IV and cipher key from it.
pub open spec fn spec_decrypt_blob(
    cipher: Cipher,
    hash: crate::hash::Hash,
    cost: Cost,
    kdf: KDF,
    password: Seq<u8>,
    blob: Seq<u8>,
) -> Option<Seq<u8>> {
    if blob.len() <= 16 {
        None
    } else {
        let salt = blob.take(16);
        let ciphertext = blob.skip(16);
        let derived = spec_derived_key(hash, kdf, cost, password, salt);
        spec_decrypt_bytes(
            cipher,
            spec_cipher_key(derived),
            spec_iv(salt, derived),
            ciphertext,
        )
    }
}

/// Tampering with the ciphertext part of a stream-cipher blob moves
/// bit-for-bit into the decrypted payload: under one password and
/// selection, two equally long blobs sharing their salt decrypt to
/// payloads that differ at each position exactly as the blobs do — and
/// both decryptions succeed, since stream ciphers carry no integrity
/// signal. Expected behavior, not a defect: only the caller can tell a
/// garbled payload from a genuine one.
pub proof fn lemma_stream_blob_tamper_locality(
    cipher: Cipher,
    hash: crate::hash::Hash,
    cost: Cost,
    kdf: KDF,
    password: Seq<u8>,
    b1: Seq<u8>,
    b2: Seq<u8>,
    i: int,
)
    requires
        cipher == Cipher::CHACHA20 || cipher == Cipher::SALSA20,
        b1.len() == b2.len(),
        b1.len() > 16,
        b1.take(16) == b2.take(16),
        16 <= i < b1.len(),
    ensures
        spec_decrypt_blob(cipher, hash, cost, kdf, password, b1) matches Some(p1)
            && spec_decrypt_blob(cipher, hash, cost, kdf, password, b2) matches Some(p2)
            && p1.len() == b1.len() - 16 && p2.len() == b1.len() - 16 && (p1[i - 16] ^ p2[i - 16])
            == (b1[i] ^ b2[i]),
{
    let salt = b1.take(16);
    let derived = spec_derived_key(hash, kdf, cost, password, salt);
    let key = spec_cipher_key(derived);
    let iv = spec_iv(salt, derived);
    let c1 = b1.skip(16);
    let c2 = b2.skip(16);
    match cipher {
        Cipher::CHACHA20 => lemma_chacha20_tamper_locality(key, iv.take(12), c1, c2, i - 16),
        Cipher::SALSA20 => lemma_salsa20_tamper_locality(key, iv.take(8), c1, c2, i - 16),
        Cipher::AESCBC => {},
    }
}

/// Relies on rand::thread_rng, a cryptographically secure generator, to
/// fill the 16-byte salt; nothing is assumed about the drawn values.
#[verifier::external_body]
fn random_salt() -> (r: Vec<u8>)
    ensures
        r@.len() == 16,
{
    let mut salt = [0u8; 16];
    rand::thread_rng().fill_bytes(&mut salt);
    salt.to_vec()
}

/// Encrypts a payload with a caller-supplied 16-byte salt. Deterministic:
/// the ciphertext is a function of the five selections, the password, the
/// salt and the payload. Whenever the ciphertext is not empty (that is,
/// for every non-empty payload), the blob made of this salt followed by
/// the ciphertext decrypts back to the payload under the same selections
/// and password; an empty payload leaves an empty ciphertext, and a blob
/// of bare salt is rejected on the decrypt side.
pub fn encrypt_with_salt(
    cipher: Cipher,
    hash: crate::hash::Hash,
    cost: Cost,
    kdf: KDF,
    key: &str,
    salt: &[u8],
    plaintext: &[u8],
) -> (r: Result<Vec<u8>, CryptoError>)
    requires
        salt@.len() == 16,
    ensures
        r matches Ok(ct) ==> ct@ == spec_encrypt_ciphertext(
            cipher,
            hash,
            cost,
            kdf,
            key.spec_bytes(),
            salt@,
            plaintext@,
        ),
        r matches Ok(ct) ==> ct@.len() == spec_ciphertext_len(cipher, plaintext@.len()),
        r matches Ok(ct) ==> ct@.len() > 0 ==> spec_decrypt_blob(
            cipher,
            hash,
            cost,
            kdf,
            key.spec_bytes(),
            salt@ + ct@,
        ) == Some(plaintext@),
        r matches Err(e) ==> e == CryptoError::KDFConfigurationError && kdf == KDF::ARGON2
            && key.spec_bytes().len() > 0xffff_ffffusize,
        key.spec_bytes().len() <= 0xffff_ffffusize ==> r is Ok,
{
    let derived: Vec<u8> = match derive_key(hash, kdf, cost, key.as_bytes(), salt) {
        Ok(d) => d,
        Err(e) => {
            return Err(e);
        },
    };
    let parts = extract(derived.as_slice(), salt);
    let (iv, cipher_key) = parts;
    let eng = make_enc_engine(cipher, cipher_key.as_slice(), iv.as_slice(), plaintext);
    let ciphertext = run_encrypt(eng);
    proof {
        if ciphertext@.len() > 0 {
            let blob = salt@ + ciphertext@;
            assert(blob.take(16) =~= salt@);
            assert(blob.skip(16) =~= ciphertext@);
        }
    }
    Ok(ciphertext)
}

/// Encrypts a payload under a fresh random 16-byte salt and returns the
/// salt and the ciphertext; the caller packs and persists them. The
/// ciphertext is the same function of selections, password, salt and
/// payload that `encrypt_with_salt` pins down, and the returned pair
/// decrypts back to the payload whenever the ciphertext is not empty.
/// The only failure is a rejection of the Argon2 parameters, which can
/// reach only callers whose password has 2^32 bytes or more.
pub fn encrypt(
    cipher: Cipher,
    hash: crate::hash::Hash,
    cost: Cost,
    kdf: KDF,
    key: String,
    plaintext: &[u8],
) -> (r: Result<(Vec<u8>, Vec<u8>), CryptoError>)
    ensures
        r matches Ok(p) ==> p.0@.len() == 16,
        r matches Ok(p) ==> p.1@ == spec_encrypt_ciphertext(
            cipher,
            hash,
            cost,
            kdf,
            spec_password_bytes(key@),
            p.0@,
            plaintext@,
        ),
        r matches Ok(p) ==> p.1@.len() == spec_ciphertext_len(cipher, plaintext@.len()),
        r matches Ok(p) ==> p.1@.len() > 0 ==> spec_decrypt_blob(
            cipher,
            hash,
            cost,
            kdf,
            spec_password_bytes(key@),
            p.0@ + p.1@,
        ) == Some(plaintext@),
        r matches Err(e) ==> e == CryptoError::KDFConfigurationError && kdf == KDF::ARGON2
            && spec_password_bytes(key@).len() > 0xffff_ffffusize,
        spec_password_bytes(key@).len() <= 0xffff_ffffusize ==> r is Ok,
{
    let salt = random_salt();
    let ciphertext = match encrypt_with_salt(
        cipher,
        hash,
        cost,
        kdf,
        key.as_str(),
        salt.as_slice(),
        plaintext,
    ) {
        Ok(ct) => ct,
        Err(e) => {
            return Err(e);
        },
    };
    Ok((salt, ciphertext))
}

/// Decrypts a blob: the first 16 bytes are taken as the salt, key
/// material is derived from it and the password, and the selected cipher
/// run in the decrypt direction. The selections and password must be the
/// ones used at encryption time; the core negotiates nothing.
///
/// A blob no longer than the salt fails with `PreconditionViolation`.
/// For AES-CBC, a ciphertext that is not a whole number of blocks is
/// rejected by the backend, and the PKCS padding of the raw decryption is
/// validated and stripped here in verified code; either rejection — the
/// likely fate of tampered or wrong-key input — fails with
/// `CipherBackendError`. The stream ciphers reject nothing and return
/// exactly as many bytes as the ciphertext held: a wrong password then
/// surfaces only as garbled output, which only the caller can detect.
pub fn decrypt(
    cipher: Cipher,
    hash: crate::hash::Hash,
    cost: Cost,
    kdf: KDF,
    key: String,
    data: Vec<u8>,
) -> (r: Result<Vec<u8>, CryptoError>)
    ensures
        data@.len() <= 16 ==> r == Err::<Vec<u8>, CryptoError>(CryptoError::PreconditionViolation),
        data@.len() > 16 ==> match r {
            Ok(v) => spec_decrypt_blob(
                cipher,
                hash,
                cost,
                kdf,
                spec_password_bytes(key@),
                data@,
            ) == Some(v@),
            Err(e) => (e == CryptoError::CipherBackendError && spec_decrypt_blob(
                cipher,
                hash,
                cost,
                kdf,
                spec_password_bytes(key@),
                data@,
            ) is None) || (e == CryptoError::KDFConfigurationError && kdf == KDF::ARGON2
                && spec_password_bytes(key@).len() > 0xffff_ffffusize),
        },
        data@.len() > 16 && (cipher == Cipher::CHACHA20 || cipher == Cipher::SALSA20) ==> (
        r matches Ok(v) ==> v@.len() + 16 == data@.len()),
        data@.len() > 16 && cipher == Cipher::AESCBC && (data@.len() - 16) % 16 != 0 ==> r is Err,
{
    let parts = match unpack(data.as_slice()) {
        Ok(p) => p,
        Err(e) => {
            return Err(e);
        },
    };
    let (salt, ciphertext) = parts;
    let derived: Vec<u8> = match derive_key(
        hash,
        kdf,
        cost,
        key.as_str().as_bytes(),
        salt.as_slice(),
    ) {
        Ok(d) => d,
        Err(e) => {
            return Err(e);
        },
    };
    let extracted = extract(derived.as_slice(), salt.as_slice());
    let (iv, cipher_key) = extracted;
    let eng = make_dec_engine(
        cipher,
        cipher_key.as_slice(),
        iv.as_slice(),
        ciphertext.as_slice(),
    );
    let raw = match run_decrypt(eng) {
        Ok(v) => v,
        Err(e) => {
            return Err(e);
        },
    };
    match cipher {
        Cipher::AESCBC => pkcs_strip(raw),
        Cipher::CHACHA20 => Ok(raw),
        Cipher::SALSA20 => Ok(raw),
    }
}

} // verus!
