use aes_gcm::aead::{Aead, KeyInit};
use aes_gcm::{Aes256Gcm, Nonce};
use argon2::{Algorithm, Argon2, Params, Version};
use portfolio_vault::{
    assemble_blob, decrypt, derive_key, encrypt, encrypt_with, parse_blob, CodecError, KEY_SIZE,
    NONCE_SIZE, SALT_SIZE, TAG_SIZE,
};

const SALT: [u8; 16] = [1, 2, 3, 4, 5, 6, 7, 8, 9, 10, 11, 12, 13, 14, 15, 16];
const NONCE: [u8; 12] = [21, 22, 23, 24, 25, 26, 27, 28, 29, 30, 31, 32];

fn reference_key(password: &[u8], salt: &[u8]) -> [u8; 32] {
    let params = Params::new(19456, 2, 1, None).unwrap();
    let mut key = [0u8; 32];
    Argon2::new(Algorithm::Argon2id, Version::V0x13, params)
        .hash_password_into(password, salt, &mut key)
        .unwrap();
    key
}

fn reference_seal(key: &[u8; 32], nonce: &[u8; 12], plaintext: &[u8]) -> Vec<u8> {
    Aes256Gcm::new_from_slice(key)
        .unwrap()
        .encrypt(Nonce::from_slice(nonce), plaintext)
        .unwrap()
}

#[test]
fn sizes_are_those_of_the_layout() {
    assert_eq!(SALT_SIZE, 16);
    assert_eq!(NONCE_SIZE, 12);
    assert_eq!(TAG_SIZE, 16);
    assert_eq!(KEY_SIZE, 32);
}

#[test]
fn round_trip_of_a_message() {
    let blob = encrypt(b"quarterly figures", b"pw1").unwrap();
    assert_eq!(decrypt(&blob, b"pw1").unwrap(), b"quarterly figures".to_vec());
}

#[test]
fn round_trip_of_the_empty_plaintext() {
    let blob = encrypt(b"", b"pw1").unwrap();
    assert_eq!(blob.len(), 1 + 16 + 12 + 16);
    assert_eq!(decrypt(&blob, b"pw1").unwrap(), Vec::<u8>::new());
}

#[test]
fn round_trip_with_an_empty_password() {
    let blob = encrypt(b"data", b"").unwrap();
    assert_eq!(decrypt(&blob, b"").unwrap(), b"data".to_vec());
}

#[test]
fn round_trip_of_binary_data() {
    let mut plaintext = Vec::new();
    for i in 0..1000u32 {
        plaintext.push((i * 7 % 256) as u8);
    }
    let blob = encrypt(&plaintext, "p\u{e4}ssw\u{f6}rd".as_bytes()).unwrap();
    assert_eq!(decrypt(&blob, "p\u{e4}ssw\u{f6}rd".as_bytes()).unwrap(), plaintext);
}

#[test]
fn blob_has_the_documented_layout() {
    let plaintext = b"hello";
    let blob = encrypt(plaintext, b"pw").unwrap();
    assert_eq!(blob[0], 16);
    assert_eq!(blob.len(), 1 + 16 + 12 + plaintext.len() + 16);
    let parts = parse_blob(&blob).unwrap();
    assert_eq!(parts.salt, &blob[1..17]);
    assert_eq!(parts.nonce, &blob[17..29]);
    assert_eq!(parts.ciphertext, &blob[29..]);
}

#[test]
fn encrypt_with_is_the_cipher_on_the_derived_key() {
    let blob = encrypt_with(b"hello", b"pw", &SALT, &NONCE).unwrap();
    let key = reference_key(b"pw", &SALT);
    let mut expected = vec![16u8];
    expected.extend_from_slice(&SALT);
    expected.extend_from_slice(&NONCE);
    expected.extend_from_slice(&reference_seal(&key, &NONCE, b"hello"));
    assert_eq!(blob, expected);
    assert_ne!(&blob[29..34], b"hello");
}

#[test]
fn encrypt_with_is_a_function_of_its_arguments() {
    let a = encrypt_with(b"same", b"pw", &SALT, &NONCE).unwrap();
    let b = encrypt_with(b"same", b"pw", &SALT, &NONCE).unwrap();
    assert_eq!(a, b);
    assert_eq!(decrypt(&a, b"pw").unwrap(), b"same".to_vec());
}

#[test]
fn derive_key_is_argon2id_with_the_pinned_costs() {
    let key = derive_key(b"hunter42", b"example salt").unwrap();
    assert_eq!(key, reference_key(b"hunter42", b"example salt"));
    assert_ne!(key, [0u8; 32]);
    assert_eq!(key, derive_key(b"hunter42", b"example salt").unwrap());
    assert_ne!(key, derive_key(b"hunter43", b"example salt").unwrap());
    assert_ne!(key, derive_key(b"hunter42", b"another salt").unwrap());
}

#[test]
fn derive_key_refuses_an_empty_salt() {
    assert_eq!(derive_key(b"pw", b""), Err(CodecError::KeyDerivation));
}

#[test]
fn derive_key_refuses_a_salt_that_argon2_refuses() {
    assert_eq!(derive_key(b"pw", b"short"), Err(CodecError::KeyDerivation));
}

#[test]
fn two_encryptions_differ_in_salt_and_nonce() {
    let a = encrypt(b"same plaintext", b"same password").unwrap();
    let b = encrypt(b"same plaintext", b"same password").unwrap();
    assert_ne!(a, b);
    assert_ne!(a[1..17], b[1..17]);
    assert_ne!(a[17..29], b[17..29]);
    assert_eq!(decrypt(&a, b"same password").unwrap(), b"same plaintext".to_vec());
    assert_eq!(decrypt(&b, b"same password").unwrap(), b"same plaintext".to_vec());
}

#[test]
fn wrong_password_fails_authentication() {
    let blob = encrypt_with(b"secret", b"pw1", &SALT, &NONCE).unwrap();
    assert_eq!(decrypt(&blob, b"pw2"), Err(CodecError::Authentication));
}

#[test]
fn flipped_first_ciphertext_byte_fails_authentication() {
    let mut blob = encrypt_with(b"secret", b"pw1", &SALT, &NONCE).unwrap();
    blob[29] ^= 0x01;
    assert_eq!(decrypt(&blob, b"pw1"), Err(CodecError::Authentication));
}

#[test]
fn flipped_middle_ciphertext_byte_fails_authentication() {
    let mut blob = encrypt_with(b"secret", b"pw1", &SALT, &NONCE).unwrap();
    blob[32] ^= 0xff;
    assert_eq!(decrypt(&blob, b"pw1"), Err(CodecError::Authentication));
}

#[test]
fn flipped_tag_byte_fails_authentication() {
    let mut blob = encrypt_with(b"secret", b"pw1", &SALT, &NONCE).unwrap();
    let last = blob.len() - 1;
    blob[last] ^= 0x80;
    assert_eq!(decrypt(&blob, b"pw1"), Err(CodecError::Authentication));
    blob[last] ^= 0x80;
    blob[35] ^= 0x10;
    assert_eq!(decrypt(&blob, b"pw1"), Err(CodecError::Authentication));
}

#[test]
fn flipped_nonce_or_salt_byte_fails_authentication() {
    let blob = encrypt_with(b"secret", b"pw1", &SALT, &NONCE).unwrap();
    let mut in_nonce = blob.clone();
    in_nonce[20] ^= 0x01;
    assert_eq!(decrypt(&in_nonce, b"pw1"), Err(CodecError::Authentication));
    let mut in_salt = blob.clone();
    in_salt[5] ^= 0x01;
    assert_eq!(decrypt(&in_salt, b"pw1"), Err(CodecError::Authentication));
}

#[test]
fn truncated_ciphertext_fails_authentication() {
    let mut blob = encrypt_with(b"secret", b"pw1", &SALT, &NONCE).unwrap();
    blob.truncate(29 + 10);
    assert_eq!(decrypt(&blob, b"pw1"), Err(CodecError::Authentication));
    blob.truncate(29);
    assert_eq!(decrypt(&blob, b"pw1"), Err(CodecError::Authentication));
}

#[test]
fn empty_blob_is_malformed() {
    assert_eq!(decrypt(b"", b"pw"), Err(CodecError::MalformedBlob));
    assert!(matches!(parse_blob(b""), Err(CodecError::MalformedBlob)));
}

#[test]
fn blob_shorter_than_thirteen_bytes_is_malformed() {
    assert_eq!(decrypt(&[0u8; 12], b"pw"), Err(CodecError::MalformedBlob));
    assert_eq!(decrypt(&[0u8; 1], b"pw"), Err(CodecError::MalformedBlob));
    assert!(matches!(parse_blob(&[0u8; 12]), Err(CodecError::MalformedBlob)));
}

#[test]
fn declared_salt_longer_than_the_rest_is_malformed() {
    let mut blob = vec![200u8];
    blob.extend_from_slice(&[7u8; 100]);
    assert_eq!(decrypt(&blob, b"pw"), Err(CodecError::MalformedBlob));
    let mut tight = vec![16u8];
    tight.extend_from_slice(&[7u8; 27]);
    assert_eq!(decrypt(&tight, b"pw"), Err(CodecError::MalformedBlob));
    assert!(matches!(parse_blob(&tight), Err(CodecError::MalformedBlob)));
}

#[test]
fn smallest_well_framed_blobs_are_parsed() {
    let bare = [0u8; 13];
    let parts = parse_blob(&bare).unwrap();
    assert_eq!(parts.salt.len(), 0);
    assert_eq!(parts.nonce.len(), 12);
    assert_eq!(parts.ciphertext.len(), 0);
    assert_eq!(decrypt(&bare, b"pw"), Err(CodecError::KeyDerivation));
    let mut exact = vec![16u8];
    exact.extend_from_slice(&[7u8; 28]);
    let parts = parse_blob(&exact).unwrap();
    assert_eq!(parts.salt, &[7u8; 16]);
    assert_eq!(parts.ciphertext.len(), 0);
    assert_eq!(decrypt(&exact, b"pw"), Err(CodecError::Authentication));
}

#[test]
fn salt_of_another_length_is_read_as_declared() {
    let salt = b"w8Z3kq0UeWm1c5yQ2bNfTg";
    assert_eq!(salt.len(), 22);
    let key = derive_key(b"pw", salt).unwrap();
    let mut blob = vec![22u8];
    blob.extend_from_slice(salt);
    blob.extend_from_slice(&NONCE);
    blob.extend_from_slice(&reference_seal(&key, &NONCE, b"older blob"));
    let parts = parse_blob(&blob).unwrap();
    assert_eq!(parts.salt, salt);
    assert_eq!(parts.nonce, &NONCE);
    assert_eq!(decrypt(&blob, b"pw").unwrap(), b"older blob".to_vec());
}

#[test]
fn assemble_then_parse_gives_the_fields_back() {
    let blob = assemble_blob(&SALT, &NONCE, b"ciphertext and tag");
    assert_eq!(blob.len(), 1 + 16 + 12 + 18);
    assert_eq!(blob[0], 16);
    let parts = parse_blob(&blob).unwrap();
    assert_eq!(parts.salt, &SALT);
    assert_eq!(parts.nonce, &NONCE);
    assert_eq!(parts.ciphertext, b"ciphertext and tag");
}

#[test]
fn codec_errors_have_their_messages() {
    assert_eq!(CodecError::MalformedBlob.message(), "Malformed encrypted blob");
    assert_eq!(
        CodecError::Authentication.message(),
        "Decryption failed: wrong password or corrupted data"
    );
    assert_eq!(CodecError::KeyDerivation.message(), "Key derivation failed");
    assert_eq!(CodecError::Encryption.message(), "Encryption failed");
}
