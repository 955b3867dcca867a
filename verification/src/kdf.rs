//! Key derivation: from a password and a salt to a 32-byte key.
//!
//! The key comes from Argon2id, version 0x13, with the cost parameters that
//! the `argon2` crate ships as its defaults in the release this library is
//! built against: 19456 KiB of memory, two passes, one lane. A blob can be
//! opened only with the parameters it was made with, so a change of that
//! release is a change of format.

use vstd::prelude::*;

use crate::blob::KEY_SIZE;
use crate::error::CodecError;

verus! {

/// The error type of the `argon2` crate.
#[verifier::external_type_specification]
#[verifier::external_body]
pub struct ExArgon2Error(argon2::Error);

/// What `Argon2::default().hash_password_into` writes into a 32-byte buffer
/// for this password and salt, or `None` where it returns an error.
pub uninterp spec fn argon2id_key(password: Seq<u8>, salt: Seq<u8>) -> Option<Seq<u8>>;

/// Calls `argon2::Argon2::hash_password_into` on the default context with a
/// 32-byte output buffer.
///
/// The contract claims that the outcome is a function of the password and
/// the salt alone: the same two always give the same key, or always an
/// error.
#[verifier::external_body]
fn argon2id_hash(password: &[u8], salt: &[u8]) -> (res: Result<[u8; KEY_SIZE], argon2::Error>)
    ensures
        match res {
            Ok(key) => argon2id_key(password@, salt@) == Some(key@),
            Err(_) => argon2id_key(password@, salt@) is None,
        },
{
    let mut key = [0u8; KEY_SIZE];
    argon2::Argon2::default().hash_password_into(password, salt, &mut key)?;
    Ok(key)
}

/// The key that belongs to a password and a salt: none for an empty salt,
/// else what Argon2id gives.
pub open spec fn derived_key(password: Seq<u8>, salt: Seq<u8>) -> Option<Seq<u8>> {
    if salt.len() == 0 {
        None
    } else {
        argon2id_key(password, salt)
    }
}

/// Derives the 32-byte key for `password` and `salt`.
///
/// Fails with [`CodecError::KeyDerivation`] where the salt is empty or
/// Argon2id refuses the input, and never otherwise.
pub fn derive_key(password: &[u8], salt: &[u8]) -> (res: Result<[u8; KEY_SIZE], CodecError>)
    ensures
        match res {
            Ok(key) => derived_key(password@, salt@) == Some(key@),
            Err(e) => e == CodecError::KeyDerivation && derived_key(password@, salt@) is None,
        },
        salt@.len() == 0 ==> res is Err,
{
    if salt.len() == 0 {
        return Err(CodecError::KeyDerivation);
    }
    match argon2id_hash(password, salt) {
        Ok(key) => Ok(key),
        Err(_) => Err(CodecError::KeyDerivation),
    }
}

} // verus!
