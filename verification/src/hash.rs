use vstd::prelude::*;
use crate::state::{UpdateMsg, Updater};

verus! {

/// Selectable digest algorithm. It is used only as the HMAC digest inside
/// the PBKDF2 key derivation; the Argon2i derivation ignores it.
#[derive(Clone, Copy, Debug, PartialEq, Eq, Structural)]
pub enum Hash {
    RIPEMD160,
    BLAKE2B,
    BLAKE2S,
    SHA2_256,
    SHA2_384,
    SHA2_512,
    SHA3_256,
    SHA3_384,
    SHA3_512,
}

impl Hash {
    /// The display label, as contracts speak of it.
    pub open spec fn spec_label(&self) -> Seq<char> {
        match self {
            Hash::RIPEMD160 => "RIPEMD-160"@,
            Hash::BLAKE2B => "BLAKE2B"@,
            Hash::BLAKE2S => "BLAKE2S"@,
            Hash::SHA2_256 => "SHA-256"@,
            Hash::SHA2_384 => "SHA-384"@,
            Hash::SHA2_512 => "SHA-512"@,
            Hash::SHA3_256 => "SHA3-256"@,
            Hash::SHA3_384 => "SHA3-384"@,
            Hash::SHA3_512 => "SHA3-512"@,
        }
    }

    /// Stable display label; presentation only, no cryptographic effect.
    pub fn as_static_str(&self) -> (r: &'static str)
        ensures
            r@ == self.spec_label(),
    {
        match self {
            Hash::RIPEMD160 => "RIPEMD-160",
            Hash::BLAKE2B => "BLAKE2B",
            Hash::BLAKE2S => "BLAKE2S",
            Hash::SHA2_256 => "SHA-256",
            Hash::SHA2_384 => "SHA-384",
            Hash::SHA2_512 => "SHA-512",
            Hash::SHA3_256 => "SHA3-256",
            Hash::SHA3_384 => "SHA3-384",
            Hash::SHA3_512 => "SHA3-512",
        }
    }
}

impl Updater for Hash {
    fn update(&self) -> (r: UpdateMsg)
        ensures
            r == UpdateMsg::Hash(*self),
    {
        UpdateMsg::Hash(*self)
    }
}

impl Default for Hash {
    fn default() -> (r: Self)
        ensures
            r == Hash::SHA2_256,
    {
        Hash::SHA2_256
    }
}

} // verus!
