//! Wiping of secret buffers.

use crate::kdf::KEY_LEN;
use vstd::prelude::*;
use zeroize::Zeroize;

verus! {

/// Whether every byte of `bytes` is zero.
pub open spec fn is_wiped(bytes: Seq<u8>) -> bool {
    forall|i: int| 0 <= i < bytes.len() ==> bytes[i] == 0
}

/// Calls `zeroize::Zeroize::zeroize` on the key buffer.
///
/// Trusted: the crate's impl for arrays overwrites every element with its
/// default, which for `u8` is zero.
#[verifier::external_body]
pub(crate) fn wipe_key(key: &mut [u8; KEY_LEN])
    ensures
        is_wiped(final(key)@),
{
    key.zeroize();
}

} // verus!
