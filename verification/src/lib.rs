//! ZeroVault: password-based authenticated encryption of files held in
//! memory.
//!
//! A container is `MAGIC || SALT || NONCE || SEALED`: a four-byte marker, the
//! 16-byte salt from which Argon2id derives the key, the 12-byte AES-256-GCM
//! nonce, and the ciphertext with its 16-byte tag. Everything needed to
//! decrypt it, but for the password, is in the container.
//!
//! - [`format`] encodes and decodes containers.
//! - [`kdf`] derives the key from the password and the salt.
//! - [`cipher`] seals and opens under a derived key, and wipes it.
//! - [`crypto`] puts the three together: whole-file encryption and decryption.
//! - [`error`] holds the errors and their texts.
//! - [`random`] and [`secret`] reach the random source and wipe buffers.

pub mod cipher;
pub mod crypto;
pub mod error;
pub mod format;
pub mod kdf;
pub mod random;
pub mod secret;
