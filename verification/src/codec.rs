//! The vault codec: a password and a byte buffer in, a blob out, and back.
//!
//! [`encrypt`] draws a fresh salt and a fresh nonce and hands them to
//! [`encrypt_with`], which is a function of its arguments alone: it derives
//! the key, seals the plaintext and frames the result. [`decrypt`] parses a
//! blob, derives the key from the salt it finds, and opens the ciphertext.
//! No plaintext leaves [`decrypt`] unless the authentication tag matched.

use vstd::prelude::*;

use crate::blob::{
    assemble_blob, blob_of, ciphertext_of, declared_salt_len, framing_round_trip, nonce_of,
    parse_blob, salt_of, well_framed, NONCE_SIZE, SALT_SIZE, TAG_SIZE,
};
use crate::cipher::{
    aes256_gcm_decrypt, aes256_gcm_decrypted, aes256_gcm_encrypt, aes256_gcm_encrypted,
};
use crate::error::CodecError;
use crate::kdf::{derive_key, derived_key};
use crate::random::os_random;

verus! {

/// The ciphertext, tag included, that sealing `plaintext` gives.
///
/// The cipher's output counts only where it is one tag longer than the
/// plaintext and opens again to it under the same key and nonce. The cipher
/// is trusted to yield no other.
pub open spec fn sealed(key: Seq<u8>, nonce: Seq<u8>, plaintext: Seq<u8>) -> Option<Seq<u8>> {
    match aes256_gcm_encrypted(key, nonce, plaintext) {
        Some(ciphertext) => if ciphertext.len() == plaintext.len() + TAG_SIZE
            && aes256_gcm_decrypted(key, nonce, ciphertext) == Some(plaintext) {
            Some(ciphertext)
        } else {
            None
        },
        None => None,
    }
}

/// The blob that encrypting `plaintext` under `password` gives once `salt`
/// and `nonce` have been drawn, or the failure that stops it.
pub open spec fn encrypted(
    plaintext: Seq<u8>,
    password: Seq<u8>,
    salt: Seq<u8>,
    nonce: Seq<u8>,
) -> Result<Seq<u8>, CodecError> {
    match derived_key(password, salt) {
        None => Err(CodecError::KeyDerivation),
        Some(key) => match sealed(key, nonce, plaintext) {
            None => Err(CodecError::Encryption),
            Some(ciphertext) => Ok(blob_of(salt, nonce, ciphertext)),
        },
    }
}

/// The plaintext that decrypting `blob` under `password` gives, or the
/// failure that stops it. Framing is judged first, then the key, then the
/// tag.
pub open spec fn decrypted(blob: Seq<u8>, password: Seq<u8>) -> Result<Seq<u8>, CodecError> {
    if !well_framed(blob) {
        Err(CodecError::MalformedBlob)
    } else {
        match derived_key(password, salt_of(blob)) {
            None => Err(CodecError::KeyDerivation),
            Some(key) => match aes256_gcm_decrypted(key, nonce_of(blob), ciphertext_of(blob)) {
                None => Err(CodecError::Authentication),
                Some(plaintext) => Ok(plaintext),
            },
        }
    }
}

/// Encrypts `plaintext` under `password` with the given salt and nonce.
///
/// The result is [`encrypted`] of the four arguments. A blob that comes
/// back is the length byte, the salt, the nonce and the sealed plaintext in
/// that order, and [`decrypt`] under the same password gives the plaintext
/// back.
pub fn encrypt_with(
    plaintext: &[u8],
    password: &[u8],
    salt: &[u8; SALT_SIZE],
    nonce: &[u8; NONCE_SIZE],
) -> (res: Result<Vec<u8>, CodecError>)
    ensures
        match res {
            Ok(blob) => encrypted(plaintext@, password@, salt@, nonce@) == Ok::<
                Seq<u8>,
                CodecError,
            >(blob@) && blob@.len() == 1 + SALT_SIZE + NONCE_SIZE + plaintext@.len() + TAG_SIZE
                && decrypted(blob@, password@) == Ok::<Seq<u8>, CodecError>(plaintext@),
            Err(e) => encrypted(plaintext@, password@, salt@, nonce@) == Err::<
                Seq<u8>,
                CodecError,
            >(e),
        },
{
    let key = match derive_key(password, salt.as_slice()) {
        Ok(key) => key,
        Err(e) => {
            return Err(e);
        },
    };
    match aes256_gcm_encrypt(&key, nonce, plaintext) {
        Ok(ciphertext) => {
            let blob = assemble_blob(salt, nonce, ciphertext.as_slice());
            proof {
                decrypt_inverts_encrypt(plaintext@, password@, salt@, nonce@);
            }
            Ok(blob)
        },
        Err(_) => Err(CodecError::Encryption),
    }
}

/// Encrypts `plaintext` under `password` with a salt and a nonce drawn
/// afresh from the operating system.
///
/// A blob that comes back is what [`encrypt_with`] makes of the salt and
/// nonce that stand in it, and so decrypts to `plaintext` under `password`.
/// The call fails with [`CodecError::Encryption`] where no random bytes are
/// to be had or the cipher refuses the plaintext, and with
/// [`CodecError::KeyDerivation`] where the key derivation refuses the
/// password.
pub fn encrypt(plaintext: &[u8], password: &[u8]) -> (res: Result<Vec<u8>, CodecError>)
    ensures
        match res {
            Ok(blob) => well_framed(blob@) && declared_salt_len(blob@) == SALT_SIZE && encrypted(
                plaintext@,
                password@,
                salt_of(blob@),
                nonce_of(blob@),
            ) == Ok::<Seq<u8>, CodecError>(blob@) && decrypted(blob@, password@) == Ok::<
                Seq<u8>,
                CodecError,
            >(plaintext@),
            Err(e) => e == CodecError::Encryption || e == CodecError::KeyDerivation,
        },
{
    let salt = match os_random::<SALT_SIZE>() {
        Ok(salt) => salt,
        Err(_) => {
            return Err(CodecError::Encryption);
        },
    };
    let nonce = match os_random::<NONCE_SIZE>() {
        Ok(nonce) => nonce,
        Err(_) => {
            return Err(CodecError::Encryption);
        },
    };
    let res = encrypt_with(plaintext, password, &salt, &nonce);
    proof {
        if res is Ok {
            let ciphertext = sealed(derived_key(password@, salt@)->0, nonce@, plaintext@)->0;
            framing_round_trip(salt@, nonce@, ciphertext);
        }
    }
    res
}

/// Decrypts `blob` under `password`.
///
/// The result is [`decrypted`] of the two: [`CodecError::MalformedBlob`]
/// for a blob that is not well framed, before any key is derived;
/// [`CodecError::KeyDerivation`] where the salt found is refused;
/// [`CodecError::Authentication`] where the tag does not match; and
/// otherwise the plaintext.
pub fn decrypt(blob: &[u8], password: &[u8]) -> (res: Result<Vec<u8>, CodecError>)
    ensures
        match res {
            Ok(plaintext) => decrypted(blob@, password@) == Ok::<Seq<u8>, CodecError>(plaintext@),
            Err(e) => decrypted(blob@, password@) == Err::<Seq<u8>, CodecError>(e),
        },
        !well_framed(blob@) ==> res == Err::<Vec<u8>, CodecError>(CodecError::MalformedBlob),
{
    let parts = match parse_blob(blob) {
        Ok(parts) => parts,
        Err(e) => {
            return Err(e);
        },
    };
    let key = match derive_key(password, parts.salt) {
        Ok(key) => key,
        Err(e) => {
            return Err(e);
        },
    };
    match aes256_gcm_decrypt(&key, parts.nonce, parts.ciphertext) {
        Ok(plaintext) => Ok(plaintext),
        Err(_) => Err(CodecError::Authentication),
    }
}

/// Decryption inverts encryption: whatever salt and nonce were drawn, a
/// blob that encryption yields decrypts under the same password to the
/// plaintext it was made from.
pub proof fn decrypt_inverts_encrypt(
    plaintext: Seq<u8>,
    password: Seq<u8>,
    salt: Seq<u8>,
    nonce: Seq<u8>,
)
    requires
        salt.len() <= 255,
        nonce.len() == NONCE_SIZE,
    ensures
        encrypted(plaintext, password, salt, nonce) matches Ok(blob) ==> decrypted(blob, password)
            == Ok::<Seq<u8>, CodecError>(plaintext),
{
    if let Ok(blob) = encrypted(plaintext, password, salt, nonce) {
        let key = derived_key(password, salt)->0;
        let ciphertext = sealed(key, nonce, plaintext)->0;
        framing_round_trip(salt, nonce, ciphertext);
    }
}

/// A blob of fewer than thirteen bytes, or one whose declared salt leaves
/// no room for the nonce, is refused as malformed whatever the password.
pub proof fn malformed_blob_is_refused(blob: Seq<u8>, password: Seq<u8>)
    requires
        blob.len() < 1 + NONCE_SIZE || declared_salt_len(blob) + NONCE_SIZE > blob.len() - 1,
    ensures
        decrypted(blob, password) == Err::<Seq<u8>, CodecError>(CodecError::MalformedBlob),
{
}

/// An alteration of a blob's ciphertext region leaves its framing, its salt
/// and its nonce as they were. So the altered blob is judged by the tag check
/// alone: it is never refused as malformed, its key is the one of the
/// unaltered blob, and it yields a plaintext only where the cipher accepts
/// the altered ciphertext under that key and nonce.
pub proof fn altered_ciphertext_is_judged_by_the_tag(
    blob: Seq<u8>,
    password: Seq<u8>,
    at: int,
    byte: u8,
)
    requires
        well_framed(blob),
        1 + declared_salt_len(blob) + NONCE_SIZE <= at < blob.len(),
    ensures
        ({
            let altered = blob.update(at, byte);
            &&& well_framed(altered)
            &&& salt_of(altered) == salt_of(blob)
            &&& nonce_of(altered) == nonce_of(blob)
            &&& ciphertext_of(altered) == ciphertext_of(blob).update(
                at - (1 + declared_salt_len(blob) + NONCE_SIZE),
                byte,
            )
            &&& decrypted(altered, password) == match derived_key(password, salt_of(blob)) {
                None => Err::<Seq<u8>, CodecError>(CodecError::KeyDerivation),
                Some(key) => match aes256_gcm_decrypted(
                    key,
                    nonce_of(blob),
                    ciphertext_of(altered),
                ) {
                    None => Err(CodecError::Authentication),
                    Some(plaintext) => Ok(plaintext),
                },
            }
        }),
{
    let altered = blob.update(at, byte);
    assert(altered[0] == blob[0]);
    assert(salt_of(altered) =~= salt_of(blob));
    assert(nonce_of(altered) =~= nonce_of(blob));
    assert(ciphertext_of(altered) =~= ciphertext_of(blob).update(
        at - (1 + declared_salt_len(blob) + NONCE_SIZE),
        byte,
    ));
}

} // verus!
