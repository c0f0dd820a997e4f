use vstd::prelude::*;

use crypto::blake2b::Blake2b;
use crypto::blake2s::Blake2s;
use crypto::hmac::Hmac;
use crypto::pbkdf2::pbkdf2;
use crypto::ripemd160::Ripemd160;
use crypto::sha2::{Sha256, Sha384, Sha512};
use crypto::sha3::{Sha3, Sha3Mode};

use crate::cost::Cost;
use crate::errors::CryptoError;
use crate::kdf::{spec_argon2_mem_cost, spec_argon2_time_cost, spec_pbkdf2_iterations, KDF};

verus! {

/// The 48 bytes that PBKDF2 derives from a password and a salt, using the
/// selected digest inside an HMAC and the given iteration count. The value
/// is a function of these arguments alone; it is pinned down only by the
/// trusted wrappers below.
pub uninterp spec fn spec_pbkdf2(
    hash: crate::hash::Hash,
    password: Seq<u8>,
    salt: Seq<u8>,
    iterations: u32,
) -> Seq<u8>;

/// The bytes that Argon2i (version 0x13, four lanes, empty secret and
/// associated data, 48-byte output) derives from a password and a salt at
/// the given memory cost (KiB) and time cost (passes). The value is a
/// function of these arguments alone.
pub uninterp spec fn spec_argon2i(
    password: Seq<u8>,
    salt: Seq<u8>,
    mem_cost: u32,
    time_cost: u32,
) -> Seq<u8>;

/// The 48 bytes of key material that `derive_key` produces: PBKDF2 over
/// the selected digest with the tier's iteration count, or Argon2i with
/// the tier's memory and time cost. The Argon2i branch ignores the digest
/// selection; that asymmetry is deliberate and kept.
pub open spec fn spec_derived_key(
    hash: crate::hash::Hash,
    kdf: KDF,
    cost: Cost,
    password: Seq<u8>,
    salt: Seq<u8>,
) -> Seq<u8> {
    match kdf {
        KDF::PBKDF2 => spec_pbkdf2(hash, password, salt, spec_pbkdf2_iterations(cost)),
        KDF::ARGON2 => spec_argon2i(
            password,
            salt,
            spec_argon2_mem_cost(cost),
            spec_argon2_time_cost(cost),
        ),
    }
}

/// Relies on crypto::pbkdf2::pbkdf2 with HMAC-RIPEMD-160: it fills the
/// 48-byte output buffer deterministically from password, salt and
/// iteration count, and asserts a positive iteration count.
#[verifier::external_body]
fn pbkdf2_ripemd160(password: &[u8], salt: &[u8], iterations: u32) -> (r: Vec<u8>)
    requires
        iterations >= 1,
    ensures
        r@ == spec_pbkdf2(crate::hash::Hash::RIPEMD160, password@, salt@, iterations),
        r@.len() == 48,
{
    let mut mac = Hmac::new(Ripemd160::new(), password);
    let mut out = vec![0u8; 48];
    pbkdf2(&mut mac, salt, iterations, &mut out);
    out
}

/// Relies on crypto::pbkdf2::pbkdf2 with HMAC-BLAKE2b (64-byte digest):
/// deterministic in password, salt and iteration count; iterations must be
/// positive.
#[verifier::external_body]
fn pbkdf2_blake2b(password: &[u8], salt: &[u8], iterations: u32) -> (r: Vec<u8>)
    requires
        iterations >= 1,
    ensures
        r@ == spec_pbkdf2(crate::hash::Hash::BLAKE2B, password@, salt@, iterations),
        r@.len() == 48,
{
    let mut mac = Hmac::new(Blake2b::new(64), password);
    let mut out = vec![0u8; 48];
    pbkdf2(&mut mac, salt, iterations, &mut out);
    out
}

/// Relies on crypto::pbkdf2::pbkdf2 with HMAC-BLAKE2s (32-byte digest):
/// deterministic in password, salt and iteration count; iterations must be
/// positive.
#[verifier::external_body]
fn pbkdf2_blake2s(password: &[u8], salt: &[u8], iterations: u32) -> (r: Vec<u8>)
    requires
        iterations >= 1,
    ensures
        r@ == spec_pbkdf2(crate::hash::Hash::BLAKE2S, password@, salt@, iterations),
        r@.len() == 48,
{
    let mut mac = Hmac::new(Blake2s::new(32), password);
    let mut out = vec![0u8; 48];
    pbkdf2(&mut mac, salt, iterations, &mut out);
    out
}

/// Relies on crypto::pbkdf2::pbkdf2 with HMAC-SHA-256: deterministic in
/// password, salt and iteration count; iterations must be positive.
#[verifier::external_body]
fn pbkdf2_sha2_256(password: &[u8], salt: &[u8], iterations: u32) -> (r: Vec<u8>)
    requires
        iterations >= 1,
    ensures
        r@ == spec_pbkdf2(crate::hash::Hash::SHA2_256, password@, salt@, iterations),
        r@.len() == 48,
{
    let mut mac = Hmac::new(Sha256::new(), password);
    let mut out = vec![0u8; 48];
    pbkdf2(&mut mac, salt, iterations, &mut out);
    out
}

/// Relies on crypto::pbkdf2::pbkdf2 with HMAC-SHA-384: deterministic in
/// password, salt and iteration count; iterations must be positive.
#[verifier::external_body]
fn pbkdf2_sha2_384(password: &[u8], salt: &[u8], iterations: u32) -> (r: Vec<u8>)
    requires
        iterations >= 1,
    ensures
        r@ == spec_pbkdf2(crate::hash::Hash::SHA2_384, password@, salt@, iterations),
        r@.len() == 48,
{
    let mut mac = Hmac::new(Sha384::new(), password);
    let mut out = vec![0u8; 48];
    pbkdf2(&mut mac, salt, iterations, &mut out);
    out
}

/// Relies on crypto::pbkdf2::pbkdf2 with HMAC-SHA-512: deterministic in
/// password, salt and iteration count; iterations must be positive.
#[verifier::external_body]
fn pbkdf2_sha2_512(password: &[u8], salt: &[u8], iterations: u32) -> (r: Vec<u8>)
    requires
        iterations >= 1,
    ensures
        r@ == spec_pbkdf2(crate::hash::Hash::SHA2_512, password@, salt@, iterations),
        r@.len() == 48,
{
    let mut mac = Hmac::new(Sha512::new(), password);
    let mut out = vec![0u8; 48];
    pbkdf2(&mut mac, salt, iterations, &mut out);
    out
}

/// Relies on crypto::pbkdf2::pbkdf2 with HMAC-SHA3-256: deterministic in
/// password, salt and iteration count; iterations must be positive.
#[verifier::external_body]
fn pbkdf2_sha3_256(password: &[u8], salt: &[u8], iterations: u32) -> (r: Vec<u8>)
    requires
        iterations >= 1,
    ensures
        r@ == spec_pbkdf2(crate::hash::Hash::SHA3_256, password@, salt@, iterations),
        r@.len() == 48,
{
    let mut mac = Hmac::new(Sha3::new(Sha3Mode::Sha3_256), password);
    let mut out = vec![0u8; 48];
    pbkdf2(&mut mac, salt, iterations, &mut out);
    out
}

/// Relies on crypto::pbkdf2::pbkdf2 with HMAC-SHA3-384: deterministic in
/// password, salt and iteration count; iterations must be positive.
#[verifier::external_body]
fn pbkdf2_sha3_384(password: &[u8], salt: &[u8], iterations: u32) -> (r: Vec<u8>)
    requires
        iterations >= 1,
    ensures
        r@ == spec_pbkdf2(crate::hash::Hash::SHA3_384, password@, salt@, iterations),
        r@.len() == 48,
{
    let mut mac = Hmac::new(Sha3::new(Sha3Mode::Sha3_384), password);
    let mut out = vec![0u8; 48];
    pbkdf2(&mut mac, salt, iterations, &mut out);
    out
}

/// Relies on crypto::pbkdf2::pbkdf2 with HMAC-SHA3-512: deterministic in
/// password, salt and iteration count; iterations must be positive.
#[verifier::external_body]
fn pbkdf2_sha3_512(password: &[u8], salt: &[u8], iterations: u32) -> (r: Vec<u8>)
    requires
        iterations >= 1,
    ensures
        r@ == spec_pbkdf2(crate::hash::Hash::SHA3_512, password@, salt@, iterations),
        r@.len() == 48,
{
    let mut mac = Hmac::new(Sha3::new(Sha3Mode::Sha3_512), password);
    let mut out = vec![0u8; 48];
    pbkdf2(&mut mac, salt, iterations, &mut out);
    out
}

/// Relies on argon2::hash_raw with variant Argon2i, version 0x13, four
/// lanes, empty secret and associated data and a 48-byte output: the
/// result is deterministic in password, salt, memory cost and time cost,
/// and the call succeeds whenever its parameter validation passes (salt
/// of 8 to 2^32 - 1 bytes, password under 2^32 bytes, memory cost at
/// least 8 blocks per lane, positive time cost). The success clause
/// assumes the memory ceiling of targets with 64-bit pointers, as built
/// here; a build for a 32-bit target caps memory lower and would reject
/// the largest tier.
#[verifier::external_body]
fn argon2i_hash(password: &[u8], salt: &[u8], mem_cost: u32, time_cost: u32) -> (r: Result<
    Vec<u8>,
    CryptoError,
>)
    ensures
        r matches Ok(v) ==> v@ == spec_argon2i(password@, salt@, mem_cost, time_cost)
            && v@.len() == 48,
        r matches Err(e) ==> e == CryptoError::KDFConfigurationError,
        (8 <= salt@.len() <= 0xffff_ffffusize && password@.len() <= 0xffff_ffffusize && mem_cost
            >= 32 && time_cost >= 1) ==> r is Ok,
{
    let config = argon2::Config {
        variant: argon2::Variant::Argon2i,
        version: argon2::Version::Version13,
        mem_cost,
        time_cost,
        lanes: 4,
        thread_mode: argon2::ThreadMode::Parallel,
        secret: &[],
        ad: &[],
        hash_length: 48,
    };
    argon2::hash_raw(password, salt, &config).map_err(|_| CryptoError::KDFConfigurationError)
}

/// Derives the 48 bytes of key material for one encryption or decryption:
/// PBKDF2 with the selected digest as its HMAC, or Argon2i, at the cost
/// the tier resolves to. Identical inputs give identical output. Under
/// Argon2i the digest selection has no effect; that asymmetry is kept
/// deliberately. The only failure is a rejection of the Argon2 parameters,
/// which the fixed cost table makes unreachable for any password shorter
/// than 2^32 bytes.
pub fn derive_key(
    hash: crate::hash::Hash,
    kdf: KDF,
    cost: Cost,
    password: &[u8],
    salt: &[u8],
) -> (r: Result<Vec<u8>, CryptoError>)
    requires
        salt@.len() == 16,
    ensures
        r matches Ok(v) ==> v@ == spec_derived_key(hash, kdf, cost, password@, salt@)
            && v@.len() == 48,
        r matches Err(e) ==> e == CryptoError::KDFConfigurationError,
        kdf == KDF::PBKDF2 ==> r is Ok,
        password@.len() <= 0xffff_ffffusize ==> r is Ok,
{
    match kdf.cost(cost) {
        crate::kdf::KDFCost::PBKDF2(iterations) => {
            let out: Vec<u8> = match hash {
                crate::hash::Hash::RIPEMD160 => pbkdf2_ripemd160(password, salt, iterations),
                crate::hash::Hash::BLAKE2B => pbkdf2_blake2b(password, salt, iterations),
                crate::hash::Hash::BLAKE2S => pbkdf2_blake2s(password, salt, iterations),
                crate::hash::Hash::SHA2_256 => pbkdf2_sha2_256(password, salt, iterations),
                crate::hash::Hash::SHA2_384 => pbkdf2_sha2_384(password, salt, iterations),
                crate::hash::Hash::SHA2_512 => pbkdf2_sha2_512(password, salt, iterations),
                crate::hash::Hash::SHA3_256 => pbkdf2_sha3_256(password, salt, iterations),
                crate::hash::Hash::SHA3_384 => pbkdf2_sha3_384(password, salt, iterations),
                crate::hash::Hash::SHA3_512 => pbkdf2_sha3_512(password, salt, iterations),
            };
            Ok(out)
        },
        crate::kdf::KDFCost::ARGON2(mem_cost, time_cost) => argon2i_hash(
            password,
            salt,
            mem_cost,
            time_cost,
        ),
    }
}

/// With the Argon2i key-derivation function, the digest selection has no
/// effect: any two digest choices give the same derived key material for
/// the same password, salt and cost tier.
pub proof fn lemma_argon2_hash_independence(
    h1: crate::hash::Hash,
    h2: crate::hash::Hash,
    cost: Cost,
    password: Seq<u8>,
    salt: Seq<u8>,
)
    ensures
        spec_derived_key(h1, KDF::ARGON2, cost, password, salt) == spec_derived_key(
            h2,
            KDF::ARGON2,
            cost,
            password,
            salt,
        ),
{
}

} // verus!
