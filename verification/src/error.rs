//! The errors of the vault and the text that each is reported with.

use vstd::prelude::*;

verus! {

/// Why a byte string is not a container.
#[derive(Clone, Copy, Debug, PartialEq, Eq, Structural)]
pub enum FormatError {
    /// Fewer bytes than a header has.
    TooShort,
    /// The first four bytes are not the marker.
    MagicMismatch,
}

/// Why an encryption or a decryption did not produce its output.
#[derive(Clone, Copy, Debug, PartialEq, Eq, Structural)]
pub enum VaultError {
    /// The input is not a container. Raised before any key is derived.
    Format(FormatError),
    /// Key derivation refused the password, which is longer than it accepts.
    Kdf,
    /// The cipher refused to seal the plaintext, which is longer than it
    /// accepts.
    Cipher,
    /// The authentication tag did not verify: the password is wrong or the
    /// container was altered. The two cannot be told apart.
    Authentication,
    /// The operating system's random source gave no bytes.
    Random,
}

impl VaultError {
    /// The text that a user is shown for this error.
    pub open spec fn message_spec(self) -> Seq<char> {
        match self {
            VaultError::Format(FormatError::TooShort) => "Input too short to be a ZeroVault file"@,
            VaultError::Format(FormatError::MagicMismatch) => "Not a ZeroVault file (magic mismatch)"@,
            VaultError::Kdf => "Argon2 key derivation failed: password is too long"@,
            VaultError::Cipher => "Encryption failed: aead::Error"@,
            VaultError::Authentication => "Decryption failed (wrong password or corrupted file)"@,
            VaultError::Random => "Secure random source unavailable"@,
        }
    }

    /// The text that a user is shown for this error. A failed authentication
    /// has one text only, which names both of its possible causes.
    pub fn message(&self) -> (text: String)
        ensures
            text@ == self.message_spec(),
    {
        match self {
            VaultError::Format(FormatError::TooShort) => {
                "Input too short to be a ZeroVault file".to_owned()
            },
            VaultError::Format(FormatError::MagicMismatch) => {
                "Not a ZeroVault file (magic mismatch)".to_owned()
            },
            VaultError::Kdf => "Argon2 key derivation failed: password is too long".to_owned(),
            VaultError::Cipher => "Encryption failed: aead::Error".to_owned(),
            VaultError::Authentication => {
                "Decryption failed (wrong password or corrupted file)".to_owned()
            },
            VaultError::Random => "Secure random source unavailable".to_owned(),
        }
    }
}

} // verus!
