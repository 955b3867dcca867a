//! AES-256-GCM on whole buffers, with no associated data.

use aes_gcm::aead::Aead;
use aes_gcm::aead::KeyInit;
use vstd::prelude::*;

use crate::blob::{KEY_SIZE, NONCE_SIZE, TAG_SIZE};

verus! {

/// The error type of the `aes_gcm` crate. It carries nothing.
#[verifier::external_type_specification]
#[verifier::external_body]
pub struct ExAeadError(aes_gcm::Error);

/// What `Aes256Gcm::encrypt` returns for this key, nonce and plaintext:
/// ciphertext followed by tag, or `None` where it returns an error.
pub uninterp spec fn aes256_gcm_encrypted(key: Seq<u8>, nonce: Seq<u8>, plaintext: Seq<u8>)
    -> Option<Seq<u8>>;

/// What `Aes256Gcm::decrypt` returns for this key, nonce and ciphertext
/// with tag: the plaintext, or `None` where it returns an error.
pub uninterp spec fn aes256_gcm_decrypted(key: Seq<u8>, nonce: Seq<u8>, ciphertext: Seq<u8>)
    -> Option<Seq<u8>>;

/// Calls `Aes256Gcm::new` and then `Aead::encrypt`.
///
/// The contract claims three things of a ciphertext that comes back: it
/// depends on key, nonce and plaintext alone; it is the plaintext's length
/// plus a 16-byte tag; and `Aead::decrypt` with the same key and nonce
/// gives the plaintext back. An error, too, depends on the three alone.
#[verifier::external_body]
pub(crate) fn aes256_gcm_encrypt(key: &[u8; KEY_SIZE], nonce: &[u8; NONCE_SIZE], plaintext: &[u8])
    -> (res: Result<Vec<u8>, aes_gcm::Error>)
    ensures
        match res {
            Ok(ciphertext) => aes256_gcm_encrypted(key@, nonce@, plaintext@) == Some(ciphertext@)
                && ciphertext@.len() == plaintext@.len() + TAG_SIZE && aes256_gcm_decrypted(
                key@,
                nonce@,
                ciphertext@,
            ) == Some(plaintext@),
            Err(_) => aes256_gcm_encrypted(key@, nonce@, plaintext@) is None,
        },
{
    aes_gcm::Aes256Gcm::new(key.into()).encrypt(nonce.into(), plaintext)
}

/// Calls `Aes256Gcm::new` and then `Aead::decrypt`, which checks the tag in
/// constant time before it hands any plaintext out.
///
/// The contract claims that the outcome depends on key, nonce and
/// ciphertext alone, and that a plaintext that comes back is the
/// ciphertext's length less the 16-byte tag. The nonce must be twelve bytes
/// long: the crate panics on any other length.
#[verifier::external_body]
pub(crate) fn aes256_gcm_decrypt(key: &[u8; KEY_SIZE], nonce: &[u8], ciphertext: &[u8]) -> (res:
    Result<Vec<u8>, aes_gcm::Error>)
    requires
        nonce@.len() == NONCE_SIZE,
    ensures
        match res {
            Ok(plaintext) => aes256_gcm_decrypted(key@, nonce@, ciphertext@) == Some(plaintext@)
                && plaintext@.len() + TAG_SIZE == ciphertext@.len(),
            Err(_) => aes256_gcm_decrypted(key@, nonce@, ciphertext@) is None,
        },
{
    aes_gcm::Aes256Gcm::new(key.into()).decrypt(aes_gcm::Nonce::from_slice(nonce), ciphertext)
}

} // verus!
