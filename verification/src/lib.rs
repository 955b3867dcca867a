//! Password-protected storage for named portfolios.
//!
//! Two facilities live here. The vault codec turns a password and a byte
//! buffer into a self-describing encrypted blob and back. The portfolio
//! session decides, step by step, what has to happen to the vault directory
//! and to the one portfolio that may be open at a time; its caller performs
//! the steps and reports how they went.

pub mod blob;
pub mod cipher;
pub mod codec;
pub mod directory;
pub mod error;
pub mod kdf;
pub mod random;
pub mod session;
pub mod text;

pub use blob::{assemble_blob, parse_blob, BlobParts, KEY_SIZE, NONCE_SIZE, SALT_SIZE, TAG_SIZE};
pub use codec::{decrypt, encrypt, encrypt_with};
pub use directory::{
    key_statement, list_portfolios, portfolio_file_name, portfolio_name, verification_statement,
};
pub use error::{CodecError, IoFailure, SessionError};
pub use kdf::derive_key;
pub use session::{
    create_portfolio, delete_portfolio, resume, select_portfolio, Effect, Event, Pending, Purpose,
    Session, Step,
};
pub use text::{decode_text, decrypt_from_text, encode_text, encrypt_to_text, fits_text};
