//! Fresh random bytes from the operating system.

use aes_gcm::aead::rand_core::RngCore;
use vstd::prelude::*;

verus! {

/// The error type of the `rand_core` crate.
#[verifier::external_type_specification]
#[verifier::external_body]
pub struct ExRandomError(aes_gcm::aead::rand_core::Error);

/// Calls `OsRng::try_fill_bytes` on a buffer of `N` bytes.
///
/// Nothing is claimed of the bytes: two calls need not agree.
#[verifier::external_body]
pub(crate) fn os_random<const N: usize>() -> Result<[u8; N], aes_gcm::aead::rand_core::Error> {
    let mut bytes = [0u8; N];
    aes_gcm::aead::OsRng.try_fill_bytes(&mut bytes)?;
    Ok(bytes)
}

} // verus!
