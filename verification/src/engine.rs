use vstd::prelude::*;

use crypto::buffer::{BufferResult, ReadBuffer, RefReadBuffer, RefWriteBuffer, WriteBuffer};
use crypto::{aes, blockmodes, chacha20, salsa20};

use crate::cipher::Cipher;
use crate::errors::CryptoError;
use crate::extract::{
    lemma_xor_bytes_difference, lemma_xor_bytes_involution, spec_xor_bytes,
};

verus! {

/// Size of the bounded internal buffer the streaming loops drain through.
/// Peak memory per call stays at this many bytes plus the cipher's own
/// state, independent of payload length.
pub const CHUNK_SIZE: usize = 4096;

/// The ciphertext that AES-CBC with a 256-bit key, a 16-byte IV and PKCS
/// padding produces for a byte string. A function of its arguments alone;
/// pinned down only by the trusted engine constructors.
pub uninterp spec fn spec_aes_cbc_encrypt(key: Seq<u8>, iv: Seq<u8>, data: Seq<u8>) -> Seq<u8>;

/// What raw AES-CBC decryption — block decryption and chaining only, no
/// padding removed — yields for a byte string: `None` exactly when the
/// input is not a whole number of blocks. Padding is validated and
/// stripped afterwards, in verified code (`spec_pkcs_strip`).
pub uninterp spec fn spec_aes_cbc_decrypt_raw(key: Seq<u8>, iv: Seq<u8>, data: Seq<u8>) -> Option<
    Seq<u8>,
>;

/// The keystream that ChaCha20 produces under a 256-bit key and a
/// 12-byte nonce, as much of it as a byte string of the given length
/// consumes. A function of its arguments alone.
pub uninterp spec fn spec_chacha20_keystream(key: Seq<u8>, nonce: Seq<u8>, len: nat) -> Seq<u8>;

/// The keystream that Salsa20 produces under a 256-bit key and an 8-byte
/// nonce, as much of it as a byte string of the given length consumes.
/// A function of its arguments alone.
pub uninterp spec fn spec_salsa20_keystream(key: Seq<u8>, nonce: Seq<u8>, len: nat) -> Seq<u8>;

/// What ChaCha20 makes of a byte string: its XOR with the keystream, as
/// spec'd for stream ciphers. Encrypting and decrypting are this same
/// operation, and its output is as long as its input.
pub open spec fn spec_chacha20(key: Seq<u8>, nonce: Seq<u8>, data: Seq<u8>) -> Seq<u8> {
    spec_xor_bytes(data, spec_chacha20_keystream(key, nonce, data.len()))
}

/// What Salsa20 makes of a byte string: its XOR with the keystream.
pub open spec fn spec_salsa20(key: Seq<u8>, nonce: Seq<u8>, data: Seq<u8>) -> Seq<u8> {
    spec_xor_bytes(data, spec_salsa20_keystream(key, nonce, data.len()))
}

/// Applying ChaCha20 twice under one key and nonce restores the input:
/// the keystream XOR is an involution.
pub proof fn lemma_chacha20_involution(key: Seq<u8>, nonce: Seq<u8>, data: Seq<u8>)
    ensures
        spec_chacha20(key, nonce, spec_chacha20(key, nonce, data)) == data,
{
    lemma_xor_bytes_involution(data, spec_chacha20_keystream(key, nonce, data.len()));
}

/// Applying Salsa20 twice under one key and nonce restores the input.
pub proof fn lemma_salsa20_involution(key: Seq<u8>, nonce: Seq<u8>, data: Seq<u8>)
    ensures
        spec_salsa20(key, nonce, spec_salsa20(key, nonce, data)) == data,
{
    lemma_xor_bytes_involution(data, spec_salsa20_keystream(key, nonce, data.len()));
}

/// Tampering moves bit-for-bit through ChaCha20: two equally long inputs
/// come out, under one key and nonce, differing at each index exactly as
/// they went in. Flipping one ciphertext bit flips that plaintext bit and
/// no other.
pub proof fn lemma_chacha20_tamper_locality(
    key: Seq<u8>,
    nonce: Seq<u8>,
    c1: Seq<u8>,
    c2: Seq<u8>,
    i: int,
)
    requires
        c1.len() == c2.len(),
        0 <= i < c1.len(),
    ensures
        spec_chacha20(key, nonce, c1)[i] ^ spec_chacha20(key, nonce, c2)[i] == c1[i] ^ c2[i],
{
    lemma_xor_bytes_difference(c1, c2, spec_chacha20_keystream(key, nonce, c1.len()), i);
}

/// Tampering moves bit-for-bit through Salsa20, as through ChaCha20.
pub proof fn lemma_salsa20_tamper_locality(
    key: Seq<u8>,
    nonce: Seq<u8>,
    c1: Seq<u8>,
    c2: Seq<u8>,
    i: int,
)
    requires
        c1.len() == c2.len(),
        0 <= i < c1.len(),
    ensures
        spec_salsa20(key, nonce, c1)[i] ^ spec_salsa20(key, nonce, c2)[i] == c1[i] ^ c2[i],
{
    lemma_xor_bytes_difference(c1, c2, spec_salsa20_keystream(key, nonce, c1.len()), i);
}

/// PKCS block padding for 16-byte blocks: the input followed by as many
/// filler bytes as it takes to reach the next whole block — 1 to 16 of
/// them, each holding that count.
pub open spec fn spec_pkcs_pad(data: Seq<u8>) -> Seq<u8> {
    let pad = (16 - (data.len() % 16)) as int;
    data + Seq::new(pad as nat, |i: int| pad as u8)
}

/// PKCS unpadding for 16-byte blocks: the last byte names the padding
/// length, which must be 1 to 16, fit in the input, and fill the tail
/// with copies of itself; anything else is rejected. This check is the
/// one place where tampered or wrong-key AES-CBC ciphertext surfaces as
/// an explicit failure.
pub open spec fn spec_pkcs_strip(raw: Seq<u8>) -> Option<Seq<u8>> {
    if raw.len() == 0 {
        None
    } else {
        let pad = raw[raw.len() - 1] as int;
        if 1 <= pad <= 16 && pad <= raw.len() && (forall|i: int|
            raw.len() - pad <= i < raw.len() ==> #[trigger] raw[i] == raw[raw.len() - 1]) {
            Some(raw.take(raw.len() - pad))
        } else {
            None
        }
    }
}

/// Unpadding undoes padding: stripping a padded byte string gives the
/// original back, whatever its length.
pub proof fn lemma_pkcs_strip_pad(data: Seq<u8>)
    ensures
        spec_pkcs_strip(spec_pkcs_pad(data)) == Some(data),
{
    let pad = (16 - (data.len() % 16)) as int;
    let padded = spec_pkcs_pad(data);
    assert(1 <= pad <= 16);
    assert(padded.len() == data.len() + pad);
    assert(padded[padded.len() - 1] == pad as u8);
    assert forall|i: int| padded.len() - pad <= i < padded.len() implies #[trigger] padded[i]
        == padded[padded.len() - 1] by {
        assert(padded[i] == pad as u8);
    };
    assert(padded.take(padded.len() - pad) =~= data);
}

/// Validates and strips the PKCS padding of a raw AES-CBC decryption,
/// exactly as `spec_pkcs_strip` describes; an invalid tail is a cipher
/// backend rejection.
pub fn pkcs_strip(raw: Vec<u8>) -> (r: Result<Vec<u8>, CryptoError>)
    ensures
        r matches Ok(v) ==> spec_pkcs_strip(raw@) == Some(v@),
        r matches Err(e) ==> spec_pkcs_strip(raw@) is None && e
            == CryptoError::CipherBackendError,
{
    let n = raw.len();
    if n == 0 {
        return Err(CryptoError::CipherBackendError);
    }
    let pad_byte = raw[n - 1];
    let pad: usize = pad_byte as usize;
    if pad < 1 || pad > 16 || pad > n {
        return Err(CryptoError::CipherBackendError);
    }
    for i in (n - pad)..n
        invariant
            raw@.len() == n,
            1 <= pad <= 16,
            pad <= n,
            pad_byte == raw@[n - 1],
            pad == pad_byte as int,
            forall|j: int| n - pad <= j < i ==> #[trigger] raw@[j] == raw@[n - 1],
    {
        if raw[i] != pad_byte {
            return Err(CryptoError::CipherBackendError);
        }
    }
    let mut out = raw;
    out.truncate(n - pad);
    Ok(out)
}

/// A running encryption: the selected cipher primed with key and nonce,
/// the input it was fed, and how much of its output has been drained.
/// Opaque to the verifier; described only through `spec_enc_output` (the
/// full ciphertext it will emit) and `spec_enc_emitted` (how many bytes
/// have been handed out so far).
#[verifier::external_body]
pub struct EncEngine {
    inner: Box<dyn crypto::symmetriccipher::Encryptor + 'static>,
    data: Vec<u8>,
    pos: usize,
}

/// A running decryption, opaque like `EncEngine`. `spec_dec_output` is
/// what the whole run yields: the raw decryption, or `None` when the
/// backend rejects the input. The AES-CBC engine is built without a
/// padding processor, so the backend rejects only a misaligned input;
/// padding is checked afterwards in verified code (`pkcs_strip`), which
/// keeps every path through the backend panic-free.
#[verifier::external_body]
pub struct DecEngine {
    inner: Box<dyn crypto::symmetriccipher::Decryptor + 'static>,
    data: Vec<u8>,
    pos: usize,
}

/// The full output the encryption engine will have emitted once drained.
pub uninterp spec fn spec_enc_output(e: EncEngine) -> Seq<u8>;

/// How many bytes of its output the encryption engine has handed out.
pub uninterp spec fn spec_enc_emitted(e: EncEngine) -> nat;

/// What the decryption engine's whole run yields, if it succeeds.
pub uninterp spec fn spec_dec_output(e: DecEngine) -> Option<Seq<u8>>;

/// How many bytes of its output the decryption engine has handed out.
pub uninterp spec fn spec_dec_emitted(e: DecEngine) -> nat;

/// The length of the input the decryption engine was fed; decryption
/// never emits more bytes than that, which bounds the draining loop.
pub uninterp spec fn spec_dec_cap(e: DecEngine) -> nat;

/// Relies on crypto::aes::cbc_encryptor (256-bit key, 16-byte IV, PKCS
/// padding): fed a non-empty input it emits the CBC encryption of the
/// PKCS-padded input, one block more than the input fills, and raw CBC
/// decryption under the same key and IV gives that padded input back (an
/// empty input emits nothing).
#[verifier::external_body]
pub fn enc_new_aes_cbc(key: &[u8], iv: &[u8], data: &[u8]) -> (e: EncEngine)
    requires
        key@.len() == 32,
        iv@.len() == 16,
    ensures
        spec_enc_output(e) == spec_aes_cbc_encrypt(key@, iv@, data@),
        spec_enc_emitted(e) == 0,
        spec_enc_output(e).len() == spec_ciphertext_len(Cipher::AESCBC, data@.len()),
        data@.len() > 0 ==> spec_aes_cbc_decrypt_raw(key@, iv@, spec_enc_output(e)) == Some(
            spec_pkcs_pad(data@),
        ),
{
    EncEngine {
        inner: aes::cbc_encryptor(aes::KeySize::KeySize256, key, iv, blockmodes::PkcsPadding),
        data: data.to_vec(),
        pos: 0,
    }
}

/// Relies on crypto::chacha20::ChaCha20::new (256-bit key, 12-byte
/// nonce): the engine emits the input XORed with the ChaCha20 keystream.
#[verifier::external_body]
pub fn enc_new_chacha20(key: &[u8], nonce: &[u8], data: &[u8]) -> (e: EncEngine)
    requires
        key@.len() == 32,
        nonce@.len() == 12,
    ensures
        spec_enc_output(e) == spec_xor_bytes(
            data@,
            spec_chacha20_keystream(key@, nonce@, data@.len()),
        ),
        spec_enc_emitted(e) == 0,
{
    EncEngine {
        inner: Box::new(chacha20::ChaCha20::new(key, nonce)),
        data: data.to_vec(),
        pos: 0,
    }
}

/// Relies on crypto::salsa20::Salsa20::new (256-bit key, 8-byte nonce):
/// the engine emits the input XORed with the Salsa20 keystream.
#[verifier::external_body]
pub fn enc_new_salsa20(key: &[u8], nonce: &[u8], data: &[u8]) -> (e: EncEngine)
    requires
        key@.len() == 32,
        nonce@.len() == 8,
    ensures
        spec_enc_output(e) == spec_xor_bytes(
            data@,
            spec_salsa20_keystream(key@, nonce@, data@.len()),
        ),
        spec_enc_emitted(e) == 0,
{
    EncEngine {
        inner: Box::new(salsa20::Salsa20::new(key, nonce)),
        data: data.to_vec(),
        pos: 0,
    }
}

/// Relies on crypto::aes::cbc_decryptor (256-bit key, 16-byte IV) with
/// no padding processor: a whole number of blocks decrypts in full, as
/// many bytes out as in; anything else is rejected as invalid length.
/// Nothing here reads a padding byte, so no input can make it panic.
#[verifier::external_body]
pub fn dec_new_aes_cbc(key: &[u8], iv: &[u8], data: &[u8]) -> (e: DecEngine)
    requires
        key@.len() == 32,
        iv@.len() == 16,
    ensures
        spec_dec_output(e) == spec_aes_cbc_decrypt_raw(key@, iv@, data@),
        spec_dec_emitted(e) == 0,
        spec_dec_cap(e) == data@.len(),
        data@.len() % 16 == 0 ==> spec_dec_output(e) is Some,
        spec_dec_output(e) matches Some(p) ==> p.len() == data@.len(),
        data@.len() % 16 != 0 ==> spec_dec_output(e) is None,
{
    DecEngine {
        inner: aes::cbc_decryptor(aes::KeySize::KeySize256, key, iv, blockmodes::NoPadding),
        data: data.to_vec(),
        pos: 0,
    }
}

/// Relies on crypto::chacha20::ChaCha20::new: decryption is the same
/// keystream XOR as encryption, so the run always succeeds.
#[verifier::external_body]
pub fn dec_new_chacha20(key: &[u8], nonce: &[u8], data: &[u8]) -> (e: DecEngine)
    requires
        key@.len() == 32,
        nonce@.len() == 12,
    ensures
        spec_dec_output(e) == Some(
            spec_xor_bytes(data@, spec_chacha20_keystream(key@, nonce@, data@.len())),
        ),
        spec_dec_emitted(e) == 0,
        spec_dec_cap(e) == data@.len(),
{
    DecEngine {
        inner: Box::new(chacha20::ChaCha20::new(key, nonce)),
        data: data.to_vec(),
        pos: 0,
    }
}

/// Relies on crypto::salsa20::Salsa20::new: decryption is the same
/// keystream XOR as encryption, so the run always succeeds.
#[verifier::external_body]
pub fn dec_new_salsa20(key: &[u8], nonce: &[u8], data: &[u8]) -> (e: DecEngine)
    requires
        key@.len() == 32,
        nonce@.len() == 8,
    ensures
        spec_dec_output(e) == Some(
            spec_xor_bytes(data@, spec_salsa20_keystream(key@, nonce@, data@.len())),
        ),
        spec_dec_emitted(e) == 0,
        spec_dec_cap(e) == data@.len(),
{
    DecEngine {
        inner: Box::new(salsa20::Salsa20::new(key, nonce)),
        data: data.to_vec(),
        pos: 0,
    }
}

/// Relies on Encryptor::encrypt driven with eof set and drained through a
/// `CHUNK_SIZE` write buffer: each call hands out the next chunk of the
/// engine's output and reports BufferUnderflow exactly when everything
/// has been emitted. Encryption itself cannot fail here: PKCS padding
/// always completes the last block and the stream ciphers are plain
/// keystream XOR.
#[verifier::external_body]
pub fn enc_step(e: &mut EncEngine) -> (r: (Vec<u8>, bool))
    ensures
        spec_enc_output(*final(e)) == spec_enc_output(*old(e)),
        spec_enc_emitted(*old(e)) <= spec_enc_emitted(*final(e)) <= spec_enc_output(
            *old(e),
        ).len(),
        r.0@ == spec_enc_output(*old(e)).subrange(
            spec_enc_emitted(*old(e)) as int,
            spec_enc_emitted(*final(e)) as int,
        ),
        r.1 <==> spec_enc_emitted(*final(e)) == spec_enc_output(*old(e)).len(),
        !r.1 ==> spec_enc_emitted(*final(e)) > spec_enc_emitted(*old(e)),
        r.0@.len() <= CHUNK_SIZE,
{
    let remaining = &e.data[e.pos..];
    let mut read_buffer = RefReadBuffer::new(remaining);
    let mut buf = [0u8; CHUNK_SIZE];
    let mut write_buffer = RefWriteBuffer::new(&mut buf);
    let result = e.inner.encrypt(&mut read_buffer, &mut write_buffer, true).unwrap();
    e.pos += remaining.len() - read_buffer.remaining();
    let chunk = write_buffer.take_read_buffer().take_remaining().to_vec();
    (chunk, matches!(result, BufferResult::BufferUnderflow))
}

/// Relies on Decryptor::decrypt driven with eof set and drained through a
/// `CHUNK_SIZE` write buffer: each call hands out the next chunk of the
/// output, reports BufferUnderflow exactly when the run has completed
/// successfully, and surfaces a backend rejection as an error, which only
/// an input the whole run rejects can produce. With the engines above the
/// backend rejects exactly a misaligned AES-CBC input; no padding byte is
/// read behind this boundary.
#[verifier::external_body]
pub fn dec_step(e: &mut DecEngine) -> (r: Result<(Vec<u8>, bool), CryptoError>)
    ensures
        spec_dec_output(*final(e)) == spec_dec_output(*old(e)),
        spec_dec_cap(*final(e)) == spec_dec_cap(*old(e)),
        r matches Err(err) ==> spec_dec_output(*old(e)) is None && err
            == CryptoError::CipherBackendError,
        r matches Ok(p) ==> spec_dec_emitted(*old(e)) <= spec_dec_emitted(*final(e))
            <= spec_dec_cap(*old(e)),
        r matches Ok(p) ==> !p.1 ==> spec_dec_emitted(*final(e)) > spec_dec_emitted(*old(e)),
        r matches Ok(p) ==> p.1 ==> spec_dec_output(*old(e)) is Some,
        r matches Ok(p) ==> spec_dec_output(*old(e)) matches Some(full) ==> spec_dec_emitted(
            *old(e),
        ) <= spec_dec_emitted(*final(e)) <= full.len() && p.0@ == full.subrange(
            spec_dec_emitted(*old(e)) as int,
            spec_dec_emitted(*final(e)) as int,
        ) && (p.1 <==> spec_dec_emitted(*final(e)) == full.len()) && p.0@.len() <= CHUNK_SIZE,
{
    let remaining = &e.data[e.pos..];
    let mut read_buffer = RefReadBuffer::new(remaining);
    let mut buf = [0u8; CHUNK_SIZE];
    let mut write_buffer = RefWriteBuffer::new(&mut buf);
    let result = match e.inner.decrypt(&mut read_buffer, &mut write_buffer, true) {
        Ok(x) => x,
        Err(_) => return Err(CryptoError::CipherBackendError),
    };
    e.pos += remaining.len() - read_buffer.remaining();
    let chunk = write_buffer.take_read_buffer().take_remaining().to_vec();
    Ok((chunk, matches!(result, BufferResult::BufferUnderflow)))
}

/// The ciphertext the selected cipher produces for a payload under a key
/// and the 16-byte IV: AES-CBC consumes the whole IV, the stream ciphers
/// a leading prefix of it as their nonce.
pub open spec fn spec_encrypt_bytes(
    cipher: Cipher,
    key: Seq<u8>,
    iv: Seq<u8>,
    data: Seq<u8>,
) -> Seq<u8> {
    match cipher {
        Cipher::AESCBC => spec_aes_cbc_encrypt(key, iv, data),
        Cipher::CHACHA20 => spec_chacha20(key, iv.take(12), data),
        Cipher::SALSA20 => spec_salsa20(key, iv.take(8), data),
    }
}

/// What the decryption engines themselves yield for a byte string: the
/// raw AES-CBC decryption with the padding still on, or the keystream
/// XOR of a stream cipher, which carries no error signal.
pub open spec fn spec_decrypt_raw(
    cipher: Cipher,
    key: Seq<u8>,
    iv: Seq<u8>,
    data: Seq<u8>,
) -> Option<Seq<u8>> {
    match cipher {
        Cipher::AESCBC => spec_aes_cbc_decrypt_raw(key, iv, data),
        Cipher::CHACHA20 => Some(spec_chacha20(key, iv.take(12), data)),
        Cipher::SALSA20 => Some(spec_salsa20(key, iv.take(8), data)),
    }
}

/// What decrypting a byte string with the selected cipher yields: for
/// AES-CBC the raw decryption with its PKCS padding validated and
/// stripped — `None` on a misaligned input or a bad tail — and for the
/// stream ciphers always the keystream XOR.
pub open spec fn spec_decrypt_bytes(
    cipher: Cipher,
    key: Seq<u8>,
    iv: Seq<u8>,
    data: Seq<u8>,
) -> Option<Seq<u8>> {
    match cipher {
        Cipher::AESCBC => match spec_aes_cbc_decrypt_raw(key, iv, data) {
            Some(raw) => spec_pkcs_strip(raw),
            None => None,
        },
        Cipher::CHACHA20 => Some(spec_chacha20(key, iv.take(12), data)),
        Cipher::SALSA20 => Some(spec_salsa20(key, iv.take(8), data)),
    }
}

/// Ciphertext length as a function of payload length: padded up to the
/// next whole block for AES-CBC (except that an empty payload stays
/// empty), unchanged for the stream ciphers.
pub open spec fn spec_ciphertext_len(cipher: Cipher, len: nat) -> nat {
    match cipher {
        Cipher::AESCBC => if len == 0 {
            0
        } else {
            ((len / 16) + 1) * 16
        },
        Cipher::CHACHA20 => len,
        Cipher::SALSA20 => len,
    }
}

/// Primes an encryption engine for the selected cipher, handing the
/// stream ciphers their nonce-length prefix of the IV.
pub fn make_enc_engine(cipher: Cipher, key: &[u8], iv: &[u8], data: &[u8]) -> (e: EncEngine)
    requires
        key@.len() == 32,
        iv@.len() == 16,
    ensures
        spec_enc_emitted(e) == 0,
        spec_enc_output(e) == spec_encrypt_bytes(cipher, key@, iv@, data@),
        spec_enc_output(e).len() == spec_ciphertext_len(cipher, data@.len()),
        data@.len() > 0 ==> spec_decrypt_bytes(cipher, key@, iv@, spec_enc_output(e)) == Some(
            data@,
        ),
{
    match cipher {
        Cipher::AESCBC => {
            let e = enc_new_aes_cbc(key, iv, data);
            proof {
                if data@.len() > 0 {
                    lemma_pkcs_strip_pad(data@);
                }
            }
            e
        },
        Cipher::CHACHA20 => {
            let nonce: &[u8] = vstd::slice::slice_subrange(iv, 0, 12);
            let e = enc_new_chacha20(key, nonce, data);
            proof {
                lemma_chacha20_involution(key@, nonce@, data@);
            }
            e
        },
        Cipher::SALSA20 => {
            let nonce: &[u8] = vstd::slice::slice_subrange(iv, 0, 8);
            let e = enc_new_salsa20(key, nonce, data);
            proof {
                lemma_salsa20_involution(key@, nonce@, data@);
            }
            e
        },
    }
}

/// Primes a decryption engine for the selected cipher, handing the
/// stream ciphers their nonce-length prefix of the IV. A misaligned
/// AES-CBC input yields an engine whose run is bound to fail.
pub fn make_dec_engine(cipher: Cipher, key: &[u8], iv: &[u8], data: &[u8]) -> (e: DecEngine)
    requires
        key@.len() == 32,
        iv@.len() == 16,
    ensures
        spec_dec_emitted(e) == 0,
        spec_dec_cap(e) == data@.len(),
        spec_dec_output(e) == spec_decrypt_raw(cipher, key@, iv@, data@),
        cipher == Cipher::AESCBC && data@.len() % 16 != 0 ==> spec_dec_output(e) is None,
        cipher != Cipher::AESCBC ==> (spec_dec_output(e) matches Some(p) && p.len()
            == data@.len()),
{
    match cipher {
        Cipher::AESCBC => dec_new_aes_cbc(key, iv, data),
        Cipher::CHACHA20 => {
            let nonce: &[u8] = vstd::slice::slice_subrange(iv, 0, 12);
            dec_new_chacha20(key, nonce, data)
        },
        Cipher::SALSA20 => {
            let nonce: &[u8] = vstd::slice::slice_subrange(iv, 0, 8);
            dec_new_salsa20(key, nonce, data)
        },
    }
}

/// Drains an encryption engine through the bounded buffer: repeatedly
/// takes the next chunk, at most `CHUNK_SIZE` bytes, and appends it to
/// the result until the engine reports all output flushed. Returns
/// exactly the engine's full output.
pub fn run_encrypt(e: EncEngine) -> (r: Vec<u8>)
    requires
        spec_enc_emitted(e) == 0,
    ensures
        r@ == spec_enc_output(e),
{
    let ghost target = spec_enc_output(e);
    let mut eng = e;
    let mut out: Vec<u8> = Vec::new();
    let mut done = false;
    while !done
        invariant
            target == spec_enc_output(e),
            spec_enc_output(eng) == target,
            spec_enc_emitted(eng) <= target.len(),
            out@ == target.take(spec_enc_emitted(eng) as int),
            done ==> spec_enc_emitted(eng) == target.len(),
        decreases target.len() - spec_enc_emitted(eng) + (if done { 0int } else { 1int }),
    {
        let step = enc_step(&mut eng);
        let mut chunk = step.0;
        out.append(&mut chunk);
        done = step.1;
        proof {
            assert(out@ =~= target.take(spec_enc_emitted(eng) as int));
        }
    }
    proof {
        assert(out@ =~= target);
    }
    out
}

/// Drains a decryption engine through the bounded buffer, as
/// `run_encrypt` does. A backend rejection aborts the call and discards
/// the partial output; a completed run returns exactly the engine's raw
/// output.
pub fn run_decrypt(e: DecEngine) -> (r: Result<Vec<u8>, CryptoError>)
    requires
        spec_dec_emitted(e) == 0,
    ensures
        r matches Ok(v) ==> spec_dec_output(e) == Some(v@),
        r matches Err(err) ==> spec_dec_output(e) is None && err
            == CryptoError::CipherBackendError,
{
    let ghost target = spec_dec_output(e);
    let mut eng = e;
    let mut out: Vec<u8> = Vec::new();
    let mut done = false;
    while !done
        invariant
            target == spec_dec_output(e),
            spec_dec_output(eng) == target,
            target matches Some(full) ==> spec_dec_emitted(eng) <= full.len() && out@
                == full.take(spec_dec_emitted(eng) as int),
            done ==> (target matches Some(full) && spec_dec_emitted(eng) == full.len()),
            spec_dec_emitted(eng) <= spec_dec_cap(eng),
            spec_dec_cap(eng) == spec_dec_cap(e),
        decreases spec_dec_cap(eng) - spec_dec_emitted(eng) + (if done { 0int } else { 1int }),
    {
        match dec_step(&mut eng) {
            Ok(step) => {
                let mut chunk = step.0;
                out.append(&mut chunk);
                done = step.1;
                proof {
                    if let Some(full) = target {
                        assert(out@ =~= full.take(spec_dec_emitted(eng) as int));
                    }
                }
            },
            Err(err) => {
                return Err(err);
            },
        }
    }
    proof {
        if let Some(full) = target {
            assert(out@ =~= full);
        }
    }
    Ok(out)
}

} // verus!
