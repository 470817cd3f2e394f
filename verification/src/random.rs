//! The secure random source that salts and nonces are drawn from.

use rand::rngs::OsRng;
use rand::RngCore;
use vstd::prelude::*;

verus! {

/// `rand::Error`, carried opaquely from the random source to where it is
/// mapped.
#[verifier::external_type_specification]
#[verifier::external_body]
pub struct ExRandError(rand::Error);

/// Calls `rand::RngCore::try_fill_bytes` on `rand::rngs::OsRng` with a buffer
/// of `N` bytes.
///
/// Nothing is claimed of the bytes: they differ from call to call.
#[verifier::external_body]
pub(crate) fn os_random<const N: usize>() -> Result<[u8; N], rand::Error> {
    let mut bytes = [0u8; N];
    match OsRng.try_fill_bytes(&mut bytes) {
        Ok(()) => Ok(bytes),
        Err(e) => Err(e),
    }
}

} // verus!
