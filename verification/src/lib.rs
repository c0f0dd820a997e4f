//! Password-based symmetric file-encryption core.
//!
//! A user password and a fresh random salt are stretched by a selectable
//! key-derivation function (PBKDF2 over one of nine digests, or Argon2i)
//! into 48 bytes of key material; the material is split into an
//! initialization vector (bound to the salt by XOR) and a 256-bit cipher
//! key; a selectable symmetric cipher (AES-CBC, ChaCha20 or Salsa20) is
//! then applied to the payload through a bounded streaming buffer.
//! The persisted blob is the salt followed by the ciphertext; it carries
//! no algorithm metadata and no authenticity tag, so the decrypting side
//! must supply the same algorithm selection out of band, and a wrong
//! password is only detectable for AES-CBC (through its padding check).

pub mod cipher;
pub mod codec;
pub mod cost;
pub mod engine;
pub mod extract;
mod errors;
pub mod hash;
pub mod iterations;
pub mod kdf;
pub mod keyderive;
pub mod ops;
pub mod state;

pub use errors::CryptoError;
pub use codec::{pack, unpack};
pub use ops::{decrypt, encrypt, encrypt_with_salt};

