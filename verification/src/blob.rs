//! The binary layout of a vault blob.
//!
//! A blob is one length byte, then that many bytes of salt, then a
//! twelve-byte nonce, then the ciphertext with its authentication tag:
//!
//! ```text
//! [ salt_len: 1 ][ salt: salt_len ][ nonce: 12 ][ ciphertext + tag ]
//! ```
//!
//! Blobs made here always carry a sixteen-byte salt. A reader takes the
//! length byte as it finds it.

use vstd::prelude::*;
use vstd::slice::slice_subrange;

use crate::error::CodecError;

verus! {

/// Bytes of salt in a blob made by this library.
pub const SALT_SIZE: usize = 16;

/// Bytes of nonce in every blob.
pub const NONCE_SIZE: usize = 12;

/// Bytes of authentication tag at the end of the ciphertext.
pub const TAG_SIZE: usize = 16;

/// Bytes of a derived key.
pub const KEY_SIZE: usize = 32;

/// The bytes of the blob that holds these three fields.
pub open spec fn blob_of(salt: Seq<u8>, nonce: Seq<u8>, ciphertext: Seq<u8>) -> Seq<u8> {
    seq![salt.len() as u8] + salt + nonce + ciphertext
}

/// The salt length that a non-empty blob declares.
pub open spec fn declared_salt_len(blob: Seq<u8>) -> int {
    blob[0] as int
}

/// Whether `blob` is long enough for its length byte, the salt that the
/// length byte declares, and a nonce.
pub open spec fn well_framed(blob: Seq<u8>) -> bool {
    blob.len() >= 1 && blob.len() >= 1 + declared_salt_len(blob) + NONCE_SIZE
}

/// The salt field of a well-framed blob.
pub open spec fn salt_of(blob: Seq<u8>) -> Seq<u8> {
    blob.subrange(1, 1 + declared_salt_len(blob))
}

/// The nonce field of a well-framed blob.
pub open spec fn nonce_of(blob: Seq<u8>) -> Seq<u8> {
    blob.subrange(1 + declared_salt_len(blob), 1 + declared_salt_len(blob) + NONCE_SIZE)
}

/// The ciphertext field of a well-framed blob: all that follows the nonce.
pub open spec fn ciphertext_of(blob: Seq<u8>) -> Seq<u8> {
    blob.subrange(1 + declared_salt_len(blob) + NONCE_SIZE, blob.len() as int)
}

/// The three fields of a blob, borrowed from it.
pub struct BlobParts<'a> {
    pub salt: &'a [u8],
    pub nonce: &'a [u8],
    pub ciphertext: &'a [u8],
}

/// Splits a blob into its fields.
///
/// Fails with [`CodecError::MalformedBlob`] exactly when the blob is
/// empty or shorter than its length byte, declared salt and nonce together.
pub fn parse_blob<'a>(blob: &'a [u8]) -> (res: Result<BlobParts<'a>, CodecError>)
    ensures
        match res {
            Ok(parts) => well_framed(blob@) && parts.salt@ == salt_of(blob@) && parts.nonce@
                == nonce_of(blob@) && parts.ciphertext@ == ciphertext_of(blob@),
            Err(e) => !well_framed(blob@) && e == CodecError::MalformedBlob,
        },
{
    if blob.len() < 1 {
        return Err(CodecError::MalformedBlob);
    }
    let salt_len: usize = blob[0] as usize;
    if blob.len() - 1 < salt_len || blob.len() - 1 - salt_len < NONCE_SIZE {
        return Err(CodecError::MalformedBlob);
    }
    let salt_end: usize = 1 + salt_len;
    let nonce_end: usize = salt_end + NONCE_SIZE;
    Ok(
        BlobParts {
            salt: slice_subrange(blob, 1, salt_end),
            nonce: slice_subrange(blob, salt_end, nonce_end),
            ciphertext: slice_subrange(blob, nonce_end, blob.len()),
        },
    )
}

/// Builds the blob that holds `salt`, `nonce` and `ciphertext`.
pub fn assemble_blob(salt: &[u8; SALT_SIZE], nonce: &[u8; NONCE_SIZE], ciphertext: &[u8]) -> (blob:
    Vec<u8>)
    ensures
        blob@ == blob_of(salt@, nonce@, ciphertext@),
        well_framed(blob@),
        declared_salt_len(blob@) == SALT_SIZE,
        salt_of(blob@) == salt@,
        nonce_of(blob@) == nonce@,
        ciphertext_of(blob@) == ciphertext@,
{
    let mut blob: Vec<u8> = Vec::new();
    blob.push(SALT_SIZE as u8);
    blob.extend_from_slice(salt.as_slice());
    blob.extend_from_slice(nonce.as_slice());
    blob.extend_from_slice(ciphertext);
    proof {
        framing_round_trip(salt@, nonce@, ciphertext@);
    }
    blob
}

/// A blob built from a salt of at most 255 bytes and a twelve-byte nonce is
/// well framed, and its fields are the ones it was built from.
pub proof fn framing_round_trip(salt: Seq<u8>, nonce: Seq<u8>, ciphertext: Seq<u8>)
    requires
        salt.len() <= 255,
        nonce.len() == NONCE_SIZE,
    ensures
        well_framed(blob_of(salt, nonce, ciphertext)),
        declared_salt_len(blob_of(salt, nonce, ciphertext)) == salt.len(),
        salt_of(blob_of(salt, nonce, ciphertext)) == salt,
        nonce_of(blob_of(salt, nonce, ciphertext)) == nonce,
        ciphertext_of(blob_of(salt, nonce, ciphertext)) == ciphertext,
{
    let blob = blob_of(salt, nonce, ciphertext);
    assert(blob.len() == 1 + salt.len() + nonce.len() + ciphertext.len());
    assert(blob[0] == salt.len() as u8);
    assert(salt_of(blob) =~= salt);
    assert(nonce_of(blob) =~= nonce);
    assert(ciphertext_of(blob) =~= ciphertext);
}

} // verus!
