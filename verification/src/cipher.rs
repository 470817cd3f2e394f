//! Authenticated encryption: AES-256-GCM with an empty associated data.

use crate::error::VaultError;
use crate::kdf::KEY_LEN;
use crate::secret::{is_wiped, wipe_key};
use aes_gcm::aead::{Aead, KeyInit};
use aes_gcm::{Aes256Gcm, Key, Nonce};
use vstd::prelude::*;

verus! {

/// Length of the nonce in bytes.
pub const NONCE_LEN: usize = 12;

/// Length of the authentication tag that ends every sealed ciphertext.
pub const TAG_LEN: usize = 16;

/// Longest plaintext, in bytes, that the cipher seals.
pub const MAX_PLAINTEXT_LEN: u64 = 0x10_0000_0000;

/// `aes_gcm::Error`, which by design says nothing of why the cipher failed.
#[verifier::external_type_specification]
#[verifier::external_body]
pub struct ExAeadError(aes_gcm::Error);

/// The AES-256-GCM ciphertext of `plaintext` under `key` and `nonce`, the tag
/// appended and no associated data; `None` where the cipher refuses to seal.
pub uninterp spec fn aes256gcm_seal(key: Seq<u8>, nonce: Seq<u8>, plaintext: Seq<u8>) -> Option<
    Seq<u8>,
>;

/// The plaintext that AES-256-GCM recovers from `sealed` under `key` and
/// `nonce` with no associated data; `None` where the tag does not verify.
pub uninterp spec fn aes256gcm_open(key: Seq<u8>, nonce: Seq<u8>, sealed: Seq<u8>) -> Option<
    Seq<u8>,
>;

/// Calls `aes_gcm::aead::Aead::encrypt` on an `Aes256Gcm` made from `key`.
///
/// Trusted: the outcome is `aes256gcm_seal` of the key, the nonce and the
/// plaintext. The cipher refuses only a plaintext longer than its limit. The
/// ciphertext is the plaintext's length plus the tag, and decrypting it under
/// the same key and nonce gives the plaintext back.
#[verifier::external_body]
fn aes256gcm_encrypt(key: &[u8; KEY_LEN], nonce: &[u8; NONCE_LEN], plaintext: &[u8]) -> (r: Result<
    Vec<u8>,
    aes_gcm::Error,
>)
    ensures
        match r {
            Ok(sealed) => {
                &&& aes256gcm_seal(key@, nonce@, plaintext@) == Some(sealed@)
                &&& aes256gcm_open(key@, nonce@, sealed@) == Some(plaintext@)
                &&& sealed@.len() == plaintext@.len() + TAG_LEN
            },
            Err(_) => aes256gcm_seal(key@, nonce@, plaintext@) is None,
        },
        r is Ok <==> plaintext@.len() <= MAX_PLAINTEXT_LEN,
{
    let cipher = Aes256Gcm::new(Key::<Aes256Gcm>::from_slice(key));
    cipher.encrypt(Nonce::from_slice(nonce), plaintext)
}

/// Calls `aes_gcm::aead::Aead::decrypt` on an `Aes256Gcm` made from `key`.
///
/// Trusted: the outcome is `aes256gcm_open` of the key, the nonce and the
/// sealed bytes. Input shorter than a tag is refused, and a recovered
/// plaintext is the input without its tag in length.
#[verifier::external_body]
fn aes256gcm_decrypt(key: &[u8; KEY_LEN], nonce: &[u8; NONCE_LEN], sealed: &[u8]) -> (r: Result<
    Vec<u8>,
    aes_gcm::Error,
>)
    ensures
        match r {
            Ok(plaintext) => {
                &&& aes256gcm_open(key@, nonce@, sealed@) == Some(plaintext@)
                &&& plaintext@.len() + TAG_LEN == sealed@.len()
            },
            Err(_) => aes256gcm_open(key@, nonce@, sealed@) is None,
        },
        sealed@.len() < TAG_LEN ==> r is Err,
{
    let cipher = Aes256Gcm::new(Key::<Aes256Gcm>::from_slice(key));
    cipher.decrypt(Nonce::from_slice(nonce), sealed)
}

/// Seals `plaintext` under `key` and `nonce`, then wipes the key.
///
/// A derived key serves one cipher operation: when this returns, with the
/// ciphertext or with an error, the key buffer holds zeros. The ciphertext is
/// 16 bytes longer than the plaintext and opens to it under the same key and
/// nonce. Only a plaintext over `MAX_PLAINTEXT_LEN` bytes is refused.
pub fn seal(key: &mut [u8; KEY_LEN], nonce: &[u8; NONCE_LEN], plaintext: &[u8]) -> (r: Result<
    Vec<u8>,
    VaultError,
>)
    ensures
        is_wiped(final(key)@),
        match r {
            Ok(sealed) => {
                &&& aes256gcm_seal(old(key)@, nonce@, plaintext@) == Some(sealed@)
                &&& aes256gcm_open(old(key)@, nonce@, sealed@) == Some(plaintext@)
                &&& sealed@.len() == plaintext@.len() + TAG_LEN
            },
            Err(e) => e == VaultError::Cipher && aes256gcm_seal(old(key)@, nonce@, plaintext@)
                is None,
        },
        r is Ok <==> plaintext@.len() <= MAX_PLAINTEXT_LEN,
{
    let outcome = aes256gcm_encrypt(key, nonce, plaintext);
    wipe_key(key);
    match outcome {
        Ok(sealed) => Ok(sealed),
        Err(_) => Err(VaultError::Cipher),
    }
}

/// Verifies and opens `sealed` under `key` and `nonce`, then wipes the key.
///
/// The tag is verified before any plaintext is released: the result is the
/// plaintext, 16 bytes shorter than the input, or `Authentication`, which is
/// the one error for a wrong key and for altered bytes alike. Input shorter
/// than a tag never opens. When this returns, the key buffer holds zeros.
pub fn unseal(key: &mut [u8; KEY_LEN], nonce: &[u8; NONCE_LEN], sealed: &[u8]) -> (r: Result<
    Vec<u8>,
    VaultError,
>)
    ensures
        is_wiped(final(key)@),
        match r {
            Ok(plaintext) => {
                &&& aes256gcm_open(old(key)@, nonce@, sealed@) == Some(plaintext@)
                &&& plaintext@.len() + TAG_LEN == sealed@.len()
            },
            Err(e) => e == VaultError::Authentication && aes256gcm_open(
                old(key)@,
                nonce@,
                sealed@,
            ) is None,
        },
        sealed@.len() < TAG_LEN ==> r is Err,
{
    let outcome = aes256gcm_decrypt(key, nonce, sealed);
    wipe_key(key);
    match outcome {
        Ok(plaintext) => Ok(plaintext),
        Err(_) => Err(VaultError::Authentication),
    }
}

} // verus!
