//! Encryption and decryption of whole files held in memory.

use crate::cipher::{
    aes256gcm_open, aes256gcm_seal, seal, unseal, MAX_PLAINTEXT_LEN, NONCE_LEN, TAG_LEN,
};
use crate::error::{FormatError, VaultError};
use crate::format::{
    container_bytes, decode_container, decode_spec, encode_container, lemma_altered_body_decodes,
    lemma_container_injective, lemma_decode_of_container, parts_with_byte, Parts, HEADER_LEN,
    MAGIC, MAGIC_LEN,
};
use crate::kdf::{argon2id_key, derive_key_from_password, MAX_PASSWORD_LEN, SALT_LEN};
use crate::random::os_random;
use crate::secret::is_wiped;
use vstd::prelude::*;
use vstd::string::StringSliceAdditionalSpecFns;

verus! {

/// The container that encrypting `plaintext` under `password` with the given
/// salt and nonce produces, or the error it ends with.
pub open spec fn encrypt_spec(
    plaintext: Seq<u8>,
    password: Seq<u8>,
    salt: Seq<u8>,
    nonce: Seq<u8>,
) -> Result<Seq<u8>, VaultError> {
    match argon2id_key(password, salt) {
        None => Err(VaultError::Kdf),
        Some(key) => match aes256gcm_seal(key, nonce, plaintext) {
            None => Err(VaultError::Cipher),
            Some(sealed) => Ok(container_bytes(salt, nonce, sealed)),
        },
    }
}

/// What the cipher makes of the parts of a container under `password`: the
/// key is derived from the embedded salt, and the tag decides the rest.
pub open spec fn open_parts(parts: Parts, password: Seq<u8>) -> Result<Seq<u8>, VaultError> {
    match argon2id_key(password, parts.salt) {
        None => Err(VaultError::Kdf),
        Some(key) => match aes256gcm_open(key, parts.nonce, parts.sealed) {
            None => Err(VaultError::Authentication),
            Some(plaintext) => Ok(plaintext),
        },
    }
}

/// The plaintext that decrypting `data` under `password` produces, or the
/// error it ends with. The format is checked before any key is derived.
pub open spec fn decrypt_spec(data: Seq<u8>, password: Seq<u8>) -> Result<Seq<u8>, VaultError> {
    match decode_spec(data) {
        Err(e) => Err(VaultError::Format(e)),
        Ok(parts) => open_parts(parts, password),
    }
}

/// Encrypts `plaintext` under `password` with a given salt and nonce.
///
/// This is the whole of encryption but for the drawing of the salt and the
/// nonce. The key is derived, used once and wiped; the result is the
/// container `MAGIC || salt || nonce || sealed`, 48 bytes longer than the
/// plaintext, and it decrypts to the plaintext under the same password. A
/// password over `MAX_PASSWORD_LEN` bytes is a `Kdf` error, a plaintext over
/// `MAX_PLAINTEXT_LEN` bytes a `Cipher` error; every other input succeeds.
pub fn encrypt_with_salt_and_nonce(
    plaintext: &[u8],
    password: &str,
    salt: &[u8; SALT_LEN],
    nonce: &[u8; NONCE_LEN],
) -> (r: Result<Vec<u8>, VaultError>)
    ensures
        match r {
            Ok(container) => {
                &&& encrypt_spec(plaintext@, password.spec_bytes(), salt@, nonce@) == Ok::<
                    Seq<u8>,
                    VaultError,
                >(container@)
                &&& decrypt_spec(container@, password.spec_bytes()) == Ok::<Seq<u8>, VaultError>(
                    plaintext@,
                )
                &&& container@.len() == HEADER_LEN + plaintext@.len() + TAG_LEN
            },
            Err(e) => encrypt_spec(plaintext@, password.spec_bytes(), salt@, nonce@) == Err::<
                Seq<u8>,
                VaultError,
            >(e),
        },
        r == Err::<Vec<u8>, VaultError>(VaultError::Kdf) <==> password.spec_bytes().len()
            > MAX_PASSWORD_LEN,
        r is Ok <==> password.spec_bytes().len() <= MAX_PASSWORD_LEN && plaintext@.len()
            <= MAX_PLAINTEXT_LEN,
{
    let mut key = match derive_key_from_password(password, salt) {
        Ok(key) => key,
        Err(e) => {
            return Err(e);
        },
    };
    let outcome = seal(&mut key, nonce, plaintext);
    // From here on no path holds key material: sealing wiped the buffer
    // whether it succeeded or not.
    assert(is_wiped(key@));
    match outcome {
        Ok(sealed) => {
            let container = encode_container(salt, nonce, &sealed);
            proof {
                lemma_decode_of_container(salt@, nonce@, sealed@);
            }
            Ok(container)
        },
        Err(e) => Err(e),
    }
}

/// Encrypts `plaintext` under `password` into a fresh container.
///
/// A salt and a nonce are drawn from the operating system's random source,
/// and the rest is `encrypt_with_salt_and_nonce`. Whatever was drawn, the
/// container decrypts to the plaintext under the same password and is 48
/// bytes longer than it.
pub fn encrypt_file_with_password(plaintext: &[u8], password: &str) -> (r: Result<
    Vec<u8>,
    VaultError,
>)
    ensures
        match r {
            Ok(container) => {
                &&& exists|salt: Seq<u8>, nonce: Seq<u8>|
                    salt.len() == SALT_LEN && nonce.len() == NONCE_LEN && #[trigger] encrypt_spec(
                        plaintext@,
                        password.spec_bytes(),
                        salt,
                        nonce,
                    ) == Ok::<Seq<u8>, VaultError>(container@)
                &&& decrypt_spec(container@, password.spec_bytes()) == Ok::<Seq<u8>, VaultError>(
                    plaintext@,
                )
                &&& container@.len() == HEADER_LEN + plaintext@.len() + TAG_LEN
                &&& password.spec_bytes().len() <= MAX_PASSWORD_LEN
                &&& plaintext@.len() <= MAX_PLAINTEXT_LEN
            },
            Err(e) => {
                ||| e == VaultError::Random
                ||| e == VaultError::Kdf && password.spec_bytes().len() > MAX_PASSWORD_LEN
                ||| e == VaultError::Cipher && password.spec_bytes().len() <= MAX_PASSWORD_LEN
                    && plaintext@.len() > MAX_PLAINTEXT_LEN
            },
        },
{
    let salt: [u8; SALT_LEN] = match os_random() {
        Ok(bytes) => bytes,
        Err(_) => {
            return Err(VaultError::Random);
        },
    };
    let nonce: [u8; NONCE_LEN] = match os_random() {
        Ok(bytes) => bytes,
        Err(_) => {
            return Err(VaultError::Random);
        },
    };
    encrypt_with_salt_and_nonce(plaintext, password, &salt, &nonce)
}

/// Decrypts the container `data` under `password`.
///
/// The container is decoded first: input under 32 bytes or without the
/// marker is a `Format` error and no key is derived for it. Otherwise the key
/// is derived from the embedded salt, the tag is verified, and the key is
/// wiped. The result is the plaintext, 48 bytes shorter than the container,
/// or `Authentication`; a sealed part shorter than a tag never opens.
pub fn decrypt_file_with_password(data: &[u8], password: &str) -> (r: Result<Vec<u8>, VaultError>)
    ensures
        match r {
            Ok(plaintext) => {
                &&& decrypt_spec(data@, password.spec_bytes()) == Ok::<Seq<u8>, VaultError>(
                    plaintext@,
                )
                &&& plaintext@.len() + HEADER_LEN + TAG_LEN == data@.len()
            },
            Err(e) => decrypt_spec(data@, password.spec_bytes()) == Err::<Seq<u8>, VaultError>(e),
        },
        data@.len() < HEADER_LEN ==> r == Err::<Vec<u8>, VaultError>(
            VaultError::Format(FormatError::TooShort),
        ),
        data@.len() >= HEADER_LEN && data@.subrange(0, MAGIC_LEN as int) != MAGIC@ ==> r == Err::<
            Vec<u8>,
            VaultError,
        >(VaultError::Format(FormatError::MagicMismatch)),
        r == Err::<Vec<u8>, VaultError>(VaultError::Kdf) <==> decode_spec(data@) is Ok
            && password.spec_bytes().len() > MAX_PASSWORD_LEN,
        data@.len() < HEADER_LEN + TAG_LEN ==> r is Err,
{
    let container = match decode_container(data) {
        Ok(container) => container,
        Err(e) => {
            return Err(VaultError::Format(e));
        },
    };
    let mut key = match derive_key_from_password(password, &container.salt) {
        Ok(key) => key,
        Err(e) => {
            return Err(e);
        },
    };
    let outcome = unseal(&mut key, &container.nonce, container.sealed);
    // The key is wiped before the plaintext or the error leaves.
    assert(is_wiped(key@));
    outcome
}

/// Decryption fails closed. A well-formed container never ends in a format
/// error: under any password it yields a plaintext only where the tag
/// verified under the key derived from that password and the embedded salt,
/// and otherwise `Authentication`, or `Kdf` where no key could be derived.
pub proof fn lemma_decrypt_fails_closed(
    salt: Seq<u8>,
    nonce: Seq<u8>,
    sealed: Seq<u8>,
    password: Seq<u8>,
)
    requires
        salt.len() == SALT_LEN,
        nonce.len() == NONCE_LEN,
    ensures
        decrypt_spec(container_bytes(salt, nonce, sealed), password) == open_parts(
            Parts { salt, nonce, sealed },
            password,
        ),
        match decrypt_spec(container_bytes(salt, nonce, sealed), password) {
            Ok(plaintext) => argon2id_key(password, salt) is Some && aes256gcm_open(
                argon2id_key(password, salt)->Some_0,
                nonce,
                sealed,
            ) == Some(plaintext),
            Err(e) => e == VaultError::Authentication || e == VaultError::Kdf,
        },
{
    lemma_decode_of_container(salt, nonce, sealed);
}

/// Encryptions of one plaintext under one password never coincide once the
/// salt or the nonce differs: a fresh draw gives a fresh container.
pub proof fn lemma_fresh_draw_gives_fresh_container(
    plaintext: Seq<u8>,
    password: Seq<u8>,
    salt1: Seq<u8>,
    nonce1: Seq<u8>,
    salt2: Seq<u8>,
    nonce2: Seq<u8>,
)
    requires
        salt1.len() == SALT_LEN,
        salt2.len() == SALT_LEN,
        nonce1.len() == NONCE_LEN,
        nonce2.len() == NONCE_LEN,
        salt1 != salt2 || nonce1 != nonce2,
        encrypt_spec(plaintext, password, salt1, nonce1) is Ok,
        encrypt_spec(plaintext, password, salt2, nonce2) is Ok,
    ensures
        encrypt_spec(plaintext, password, salt1, nonce1) != encrypt_spec(
            plaintext,
            password,
            salt2,
            nonce2,
        ),
{
    let sealed1 = aes256gcm_seal(argon2id_key(password, salt1)->Some_0, nonce1, plaintext)->Some_0;
    let sealed2 = aes256gcm_seal(argon2id_key(password, salt2)->Some_0, nonce2, plaintext)->Some_0;
    if container_bytes(salt1, nonce1, sealed1) == container_bytes(salt2, nonce2, sealed2) {
        lemma_container_injective(salt1, nonce1, sealed1, salt2, nonce2, sealed2);
    }
}

/// Format rejection. Input under 32 bytes, the empty input included, is
/// `TooShort`; longer input that does not open with the marker is
/// `MagicMismatch`. Either way the password plays no part: no key is derived
/// for input that does not decode.
pub proof fn lemma_format_rejection(data: Seq<u8>, password: Seq<u8>, other: Seq<u8>)
    ensures
        data.len() < HEADER_LEN ==> decrypt_spec(data, password) == Err::<Seq<u8>, VaultError>(
            VaultError::Format(FormatError::TooShort),
        ),
        data.len() >= HEADER_LEN && data.subrange(0, MAGIC_LEN as int) != MAGIC@ ==> decrypt_spec(
            data,
            password,
        ) == Err::<Seq<u8>, VaultError>(VaultError::Format(FormatError::MagicMismatch)),
        decode_spec(data) is Err ==> decrypt_spec(data, password) == decrypt_spec(data, other),
{
}

/// Altering a byte behind the marker of a container never produces a format
/// error: decryption then runs on the altered salt, nonce or ciphertext, and
/// the tag decides.
pub proof fn lemma_decrypt_of_altered_body(data: Seq<u8>, i: int, byte: u8, password: Seq<u8>)
    requires
        decode_spec(data) is Ok,
        MAGIC_LEN <= i < data.len(),
    ensures
        decrypt_spec(data.update(i, byte), password) == open_parts(
            parts_with_byte(decode_spec(data)->Ok_0, i, byte),
            password,
        ),
{
    lemma_altered_body_decodes(data, i, byte);
}

} // verus!
