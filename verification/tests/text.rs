use portfolio_vault::{
    decode_text, decrypt_from_text, encode_text, encrypt, encrypt_to_text, fits_text, CodecError,
};

#[test]
fn encode_text_is_standard_base64_with_padding() {
    assert_eq!(encode_text(b""), "");
    assert_eq!(encode_text(b"f"), "Zg==");
    assert_eq!(encode_text(b"fo"), "Zm8=");
    assert_eq!(encode_text(b"foo"), "Zm9v");
    assert_eq!(encode_text(b"hello"), "aGVsbG8=");
    assert_eq!(encode_text(&[0xfb, 0xff]), "+/8=");
}

#[test]
fn encoded_length_is_four_for_every_three() {
    for len in 0..20usize {
        let bytes = vec![0xa5u8; len];
        assert_eq!(encode_text(&bytes).len(), 4 * ((len + 2) / 3));
    }
}

#[test]
fn decode_text_reads_base64() {
    assert_eq!(decode_text("aGVsbG8=").unwrap(), b"hello".to_vec());
    assert_eq!(decode_text("").unwrap(), Vec::<u8>::new());
    assert_eq!(decode_text("+/8=").unwrap(), vec![0xfb, 0xff]);
}

#[test]
fn decode_text_ignores_white_space_around_the_text() {
    assert_eq!(decode_text("aGVsbG8=\n").unwrap(), b"hello".to_vec());
    assert_eq!(decode_text("  \taGVsbG8=\r\n\n").unwrap(), b"hello".to_vec());
    assert_eq!(decode_text("\u{a0}aGVsbG8=\u{2028}\u{3000}").unwrap(), b"hello".to_vec());
    assert_eq!(decode_text(" \n ").unwrap(), Vec::<u8>::new());
}

#[test]
fn decode_text_refuses_what_is_not_base64() {
    assert_eq!(decode_text("aGVs bG8="), Err(CodecError::MalformedBlob));
    assert_eq!(decode_text("aGVsbG8"), Err(CodecError::MalformedBlob));
    assert_eq!(decode_text("a*Vs"), Err(CodecError::MalformedBlob));
    assert_eq!(decode_text("aGVsbG8=\u{200b}"), Err(CodecError::MalformedBlob));
    assert_eq!(decode_text("aGVsbG9="), Err(CodecError::MalformedBlob));
}

#[test]
fn text_round_trip_of_every_byte() {
    let mut bytes = Vec::new();
    for b in 0..=255u8 {
        bytes.push(b);
    }
    let text = encode_text(&bytes);
    assert_eq!(text.trim(), text);
    assert_eq!(decode_text(&text).unwrap(), bytes);
}

#[test]
fn fits_text_is_the_bound_on_the_encoded_length() {
    assert!(fits_text(0));
    assert!(fits_text(45));
    assert!(fits_text((usize::MAX / 4) * 3));
    assert!(!fits_text((usize::MAX / 4) * 3 + 1));
    assert!(!fits_text(usize::MAX));
}

#[test]
fn encrypted_text_decrypts_to_the_plaintext() {
    let text = encrypt_to_text(b"ledger", b"pw1").unwrap();
    assert_eq!(text.len(), 4 * ((1 + 16 + 12 + 6 + 16 + 2) / 3));
    assert_eq!(text.trim(), text);
    assert_eq!(decrypt_from_text(&text, b"pw1").unwrap(), b"ledger".to_vec());
    let stored = format!("{}\n", text);
    assert_eq!(decrypt_from_text(&stored, b"pw1").unwrap(), b"ledger".to_vec());
}

#[test]
fn encrypted_text_is_the_text_of_the_blob() {
    let blob = encrypt(b"ledger", b"pw1").unwrap();
    let text = encode_text(&blob);
    assert_eq!(decode_text(&text).unwrap(), blob);
    assert_eq!(decrypt_from_text(&text, b"pw1").unwrap(), b"ledger".to_vec());
}

#[test]
fn encrypted_text_fails_under_another_password() {
    let text = encrypt_to_text(b"ledger", b"pw1").unwrap();
    assert_eq!(decrypt_from_text(&text, b"pw2"), Err(CodecError::Authentication));
}

#[test]
fn text_that_is_no_blob_is_malformed() {
    assert_eq!(decrypt_from_text("not base64!", b"pw"), Err(CodecError::MalformedBlob));
    assert_eq!(decrypt_from_text("", b"pw"), Err(CodecError::MalformedBlob));
    assert_eq!(decrypt_from_text("aGVsbG8=", b"pw"), Err(CodecError::MalformedBlob));
}
