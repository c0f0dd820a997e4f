use vstd::prelude::*;
use crate::state::{UpdateMsg, Updater};

verus! {

/// Selectable symmetric cipher. AES-CBC is a block cipher with PKCS
/// padding; ChaCha20 and Salsa20 are stream ciphers whose encrypt and
/// decrypt directions are the same keystream-XOR operation.
#[derive(Clone, Copy, Debug, PartialEq, Eq, Structural)]
pub enum Cipher {
    AESCBC,
    CHACHA20,
    SALSA20,
}

impl Cipher {
    /// The display label, as contracts speak of it.
    pub open spec fn spec_label(&self) -> Seq<char> {
        match self {
            Cipher::AESCBC => "AES-CBC"@,
            Cipher::CHACHA20 => "CHACHA20"@,
            Cipher::SALSA20 => "SALSA20"@,
        }
    }

    /// Stable display label; presentation only, no cryptographic effect.
    pub fn as_static_str(&self) -> (r: &'static str)
        ensures
            r@ == self.spec_label(),
    {
        match self {
            Cipher::AESCBC => "AES-CBC",
            Cipher::CHACHA20 => "CHACHA20",
            Cipher::SALSA20 => "SALSA20",
        }
    }

    /// Number of leading bytes of the 16-byte IV consumed as the nonce.
    pub fn nonce_len(&self) -> (r: usize)
        ensures
            r == self.spec_nonce_len(),
    {
        match self {
            Cipher::AESCBC => 16,
            Cipher::CHACHA20 => 12,
            Cipher::SALSA20 => 8,
        }
    }

    pub open spec fn spec_nonce_len(&self) -> usize {
        match self {
            Cipher::AESCBC => 16usize,
            Cipher::CHACHA20 => 12usize,
            Cipher::SALSA20 => 8usize,
        }
    }
}

impl Updater for Cipher {
    fn update(&self) -> (r: UpdateMsg)
        ensures
            r == UpdateMsg::Cipher(*self),
    {
        UpdateMsg::Cipher(*self)
    }
}

impl Default for Cipher {
    fn default() -> (r: Self)
        ensures
            r == Cipher::AESCBC,
    {
        Cipher::AESCBC
    }
}

} // verus!
