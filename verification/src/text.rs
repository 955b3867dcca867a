//! The text form of a blob: standard base64 with padding.
//!
//! A blob that is kept as text is its bytes in base64. White space around
//! the text, such as the newline that an editor leaves at the end of a file,
//! is taken off before the text is decoded.

use base64::Engine;
use vstd::prelude::*;

use crate::codec::{decrypt, decrypted, encrypt};
use crate::error::CodecError;

verus! {

/// The error type of the `base64` crate's decoder.
#[verifier::external_type_specification]
#[verifier::external_body]
pub struct ExDecodeError(base64::DecodeError);

/// What `STANDARD.encode` returns for these bytes.
pub uninterp spec fn base64_encoded(bytes: Seq<u8>) -> Seq<char>;

/// What `STANDARD.decode` returns for this text, or `None` where it returns
/// an error.
pub uninterp spec fn base64_decoded(text: Seq<char>) -> Option<Seq<u8>>;

/// Whether `c` is a letter, a digit, `+`, `/` or the padding sign `=`.
pub open spec fn is_base64_char(c: char) -> bool {
    ||| 'A' <= c <= 'Z'
    ||| 'a' <= c <= 'z'
    ||| '0' <= c <= '9'
    ||| c == '+'
    ||| c == '/'
    ||| c == '='
}

/// Whether `c` has the Unicode property `White_Space`.
pub open spec fn is_white_space(c: char) -> bool {
    ||| '\u{9}' <= c <= '\u{d}'
    ||| c == ' '
    ||| c == '\u{85}'
    ||| c == '\u{a0}'
    ||| c == '\u{1680}'
    ||| '\u{2000}' <= c <= '\u{200a}'
    ||| c == '\u{2028}'
    ||| c == '\u{2029}'
    ||| c == '\u{202f}'
    ||| c == '\u{205f}'
    ||| c == '\u{3000}'
}

/// `text` without the white space at its start.
pub open spec fn trimmed_start(text: Seq<char>) -> Seq<char>
    decreases text.len(),
{
    if text.len() > 0 && is_white_space(text.first()) {
        trimmed_start(text.drop_first())
    } else {
        text
    }
}

/// `text` without the white space at its end.
pub open spec fn trimmed_end(text: Seq<char>) -> Seq<char>
    decreases text.len(),
{
    if text.len() > 0 && is_white_space(text.last()) {
        trimmed_end(text.drop_last())
    } else {
        text
    }
}

/// `text` without the white space at either end.
pub open spec fn trimmed(text: Seq<char>) -> Seq<char> {
    trimmed_end(trimmed_start(text))
}

/// The length of the base64 text of `len` bytes: four characters for every
/// three bytes or part of three.
pub open spec fn base64_len(len: nat) -> nat {
    4 * ((len + 2) / 3)
}

/// Calls `str::trim`, which takes leading and trailing white space off, white
/// space being the characters with the Unicode property `White_Space`.
#[verifier::external_body]
fn trim(text: &str) -> (res: &str)
    ensures
        res@ == trimmed(text@),
{
    text.trim()
}

/// Calls `Engine::encode` on the `STANDARD` engine: the alphabet of RFC 4648
/// with padding.
///
/// The contract claims that the text depends on the bytes alone, that it
/// holds only characters of that alphabet and `=`, and that `STANDARD.decode`
/// gives the bytes back from it. The length of the text must fit in `usize`:
/// the crate panics where it does not.
#[verifier::external_body]
fn base64_encode(bytes: &[u8]) -> (text: String)
    requires
        base64_len(bytes@.len()) <= usize::MAX,
    ensures
        text@ == base64_encoded(bytes@),
        forall|i: int| 0 <= i < text@.len() ==> is_base64_char(#[trigger] text@[i]),
        base64_decoded(text@) == Some(bytes@),
{
    base64::engine::general_purpose::STANDARD.encode(bytes)
}

/// Calls `Engine::decode` on the `STANDARD` engine.
///
/// The contract claims that the outcome depends on the text alone.
#[verifier::external_body]
fn base64_decode(text: &str) -> (res: Result<Vec<u8>, base64::DecodeError>)
    ensures
        match res {
            Ok(bytes) => base64_decoded(text@) == Some(bytes@),
            Err(_) => base64_decoded(text@) is None,
        },
{
    base64::engine::general_purpose::STANDARD.decode(text)
}

/// The blob that `text` stands for: the base64 reading of `text` without
/// the white space around it, or `MalformedBlob` where that is no base64.
pub open spec fn blob_of_text(text: Seq<char>) -> Result<Seq<u8>, CodecError> {
    match base64_decoded(trimmed(text)) {
        Some(blob) => Ok(blob),
        None => Err(CodecError::MalformedBlob),
    }
}

/// What decrypting the blob that `text` stands for gives.
pub open spec fn decrypted_text(text: Seq<char>, password: Seq<u8>) -> Result<
    Seq<u8>,
    CodecError,
> {
    match blob_of_text(text) {
        Ok(blob) => decrypted(blob, password),
        Err(e) => Err(e),
    }
}

/// The largest number of bytes whose base64 text has a length that fits in
/// `usize`.
pub open spec fn max_encodable_len() -> nat {
    ((usize::MAX / 4) * 3) as nat
}

/// Whether the base64 text of `len` bytes has a length that fits in `usize`.
pub fn fits_text(len: usize) -> (fits: bool)
    ensures
        fits == (base64_len(len as nat) <= usize::MAX),
{
    len <= (usize::MAX / 4) * 3
}

/// Writes `blob` as text.
///
/// The text is the blob's base64, it has no white space in it, and
/// [`decode_text`] reads the blob back from it.
pub fn encode_text(blob: &[u8]) -> (text: String)
    requires
        base64_len(blob@.len()) <= usize::MAX,
    ensures
        text@ == base64_encoded(blob@),
        trimmed(text@) == text@,
        blob_of_text(text@) == Ok::<Seq<u8>, CodecError>(blob@),
{
    let text = base64_encode(blob);
    proof {
        base64_text_has_no_margin(text@);
    }
    text
}

/// Reads a blob from its text form, ignoring white space around it.
///
/// Fails with [`CodecError::MalformedBlob`] exactly where what is left
/// after trimming is not base64 with canonical padding.
pub fn decode_text(text: &str) -> (res: Result<Vec<u8>, CodecError>)
    ensures
        match res {
            Ok(blob) => blob_of_text(text@) == Ok::<Seq<u8>, CodecError>(blob@),
            Err(e) => blob_of_text(text@) == Err::<Seq<u8>, CodecError>(e),
        },
{
    match base64_decode(trim(text)) {
        Ok(blob) => Ok(blob),
        Err(_) => Err(CodecError::MalformedBlob),
    }
}

/// Encrypts `plaintext` under `password` and writes the blob as text.
///
/// A text that comes back decrypts, by [`decrypt_from_text`] under the same
/// password, to `plaintext`. The call fails as [`encrypt`] does, and with
/// [`CodecError::Encryption`] where the text of the blob would be longer
/// than `usize` can say.
pub fn encrypt_to_text(plaintext: &[u8], password: &[u8]) -> (res: Result<String, CodecError>)
    ensures
        match res {
            Ok(text) => decrypted_text(text@, password@) == Ok::<Seq<u8>, CodecError>(plaintext@)
                && trimmed(text@) == text@,
            Err(e) => e == CodecError::Encryption || e == CodecError::KeyDerivation,
        },
{
    let blob = match encrypt(plaintext, password) {
        Ok(blob) => blob,
        Err(e) => {
            return Err(e);
        },
    };
    if !fits_text(blob.len()) {
        return Err(CodecError::Encryption);
    }
    Ok(encode_text(blob.as_slice()))
}

/// Reads a blob from its text form and decrypts it under `password`.
///
/// The result is [`decrypted_text`] of the two: a text that is no base64 is
/// refused as malformed, and what it decodes to is judged as [`decrypt`]
/// judges a blob.
pub fn decrypt_from_text(text: &str, password: &[u8]) -> (res: Result<Vec<u8>, CodecError>)
    ensures
        match res {
            Ok(plaintext) => decrypted_text(text@, password@) == Ok::<Seq<u8>, CodecError>(
                plaintext@,
            ),
            Err(e) => decrypted_text(text@, password@) == Err::<Seq<u8>, CodecError>(e),
        },
{
    let blob = match decode_text(text) {
        Ok(blob) => blob,
        Err(e) => {
            return Err(e);
        },
    };
    decrypt(blob.as_slice(), password)
}

/// No character of base64 is white space.
pub proof fn base64_char_is_not_white_space(c: char)
    requires
        is_base64_char(c),
    ensures
        !is_white_space(c),
{
}

/// Trimming leaves a text of base64 characters as it is.
pub proof fn base64_text_has_no_margin(text: Seq<char>)
    requires
        forall|i: int| 0 <= i < text.len() ==> is_base64_char(#[trigger] text[i]),
    ensures
        trimmed(text) == text,
{
    if text.len() > 0 {
        base64_char_is_not_white_space(text.first());
        base64_char_is_not_white_space(text.last());
    }
}

} // verus!
