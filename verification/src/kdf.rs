//! Key derivation: Argon2id with the argon2 crate's default work parameters.

use crate::error::VaultError;
use argon2::Argon2;
use vstd::prelude::*;
use vstd::string::StringSliceAdditionalSpecFns;

verus! {

/// Length of a derived key in bytes.
pub const KEY_LEN: usize = 32;

/// Length of the salt in bytes.
pub const SALT_LEN: usize = 16;

/// Longest password, in bytes, that key derivation accepts.
pub const MAX_PASSWORD_LEN: usize = 0xFFFF_FFFF;

/// `argon2::Error`, carried opaquely from the hash to where it is mapped.
#[verifier::external_type_specification]
#[verifier::external_body]
pub struct ExArgon2Error(argon2::Error);

/// The 32-byte Argon2id hash of `password` under `salt`, with the argon2
/// crate's default algorithm, version and work parameters; `None` where the
/// crate rejects the input.
pub uninterp spec fn argon2id_key(password: Seq<u8>, salt: Seq<u8>) -> Option<Seq<u8>>;

/// Calls `argon2::Argon2::hash_password_into` on `Argon2::default()` with a
/// 32-byte output buffer.
///
/// Trusted: the outcome is `argon2id_key` of the password and the salt, the
/// hash being a function of its inputs alone. With a 16-byte salt, a 32-byte
/// output and the default parameters, the only check in the crate that can
/// fail is the one on the password's length.
#[verifier::external_body]
fn argon2id_hash(password: &[u8], salt: &[u8; SALT_LEN]) -> (r: Result<
    [u8; KEY_LEN],
    argon2::Error,
>)
    ensures
        match r {
            Ok(key) => argon2id_key(password@, salt@) == Some(key@),
            Err(_) => argon2id_key(password@, salt@) is None,
        },
        r is Ok <==> password@.len() <= MAX_PASSWORD_LEN,
{
    let mut key = [0u8; KEY_LEN];
    match Argon2::default().hash_password_into(password, salt, &mut key) {
        Ok(()) => Ok(key),
        Err(e) => Err(e),
    }
}

/// Derives the 32-byte key for `password` and `salt`.
///
/// The same password and salt always give the same key. Every password of at
/// most `MAX_PASSWORD_LEN` bytes is accepted; a longer one is a `Kdf` error.
/// The caller owns the key and wipes it after use.
pub fn derive_key_from_password(password: &str, salt: &[u8; SALT_LEN]) -> (r: Result<
    [u8; KEY_LEN],
    VaultError,
>)
    ensures
        match r {
            Ok(key) => argon2id_key(password.spec_bytes(), salt@) == Some(key@),
            Err(e) => e == VaultError::Kdf && argon2id_key(password.spec_bytes(), salt@) is None,
        },
        r is Ok <==> password.spec_bytes().len() <= MAX_PASSWORD_LEN,
{
    match argon2id_hash(password.as_bytes(), salt) {
        Ok(key) => Ok(key),
        Err(_) => Err(VaultError::Kdf),
    }
}

} // verus!
