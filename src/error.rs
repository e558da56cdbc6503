//! The outcomes, other than success, of keystore operations.
use vstd::prelude::*;

verus! {

/// Why a keystore operation did not complete. Each kind is reported on its
/// own; none is silently turned into another.
#[derive(Debug, Clone, Copy, PartialEq, Eq, Structural)]
pub enum KeystoreError {
    /// No entry has the requested identity.
    NotFound,
    /// The supplied secret is not a valid private key.
    InvalidSecret,
    /// A password was needed and none, or an empty one, was given.
    MissingCredential,
    /// The ciphertext did not authenticate: a wrong password, another
    /// device, or damaged data.
    AuthenticationFailure,
    /// The decrypted secret belongs to another identity than its entry.
    VerificationMismatch,
    /// A stored record does not have the expected shape.
    FormatError,
    /// The key derivation function refused its inputs.
    KeyDerivationFailure,
    /// The cipher refused to encrypt the secret.
    EncryptionFailure,
    /// The host gave no machine identifier for device protection.
    DeviceUnavailable,
}

/// A text result seen through the characters of its text.
pub open spec fn text_outcome(r: Result<String, KeystoreError>) -> Result<Seq<char>, KeystoreError> {
    match r {
        Ok(s) => Ok(s@),
        Err(e) => Err(e),
    }
}

} // verus!
