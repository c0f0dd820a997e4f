use vstd::prelude::*;

verus! {

/// Failure taxonomy of the encryption core.
///
/// Every failure is returned as an explicit value; the core never retries
/// and never panics on inputs its contracts admit.
#[derive(Clone, Copy, Debug, PartialEq, Eq, Structural)]
pub enum CryptoError {
    /// The cipher backend rejected the input, e.g. invalid PKCS padding
    /// on an AES-CBC decrypt of tampered or wrong-key ciphertext.
    CipherBackendError,
    /// The blob handed to `decrypt` is no longer than the salt, so it was
    /// never a valid blob; a caller error, not a cryptographic failure.
    PreconditionViolation,
    /// The key-derivation backend rejected its cost parameters. The fixed
    /// cost table keeps this unreachable in correct use; it is kept as a
    /// defensive, fatal configuration error.
    KDFConfigurationError,
}

} // verus!
