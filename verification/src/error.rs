//! The failures that the library reports.

use vstd::prelude::*;

verus! {

/// Why an encrypt or decrypt call failed.
#[derive(Debug, Clone, Copy, PartialEq, Eq, Structural)]
pub enum CodecError {
    /// The blob is too short for the framing it declares, or its text form
    /// is not valid base64.
    MalformedBlob,
    /// The authentication tag does not match: the password is wrong or the
    /// blob was altered. The two cannot be told apart.
    Authentication,
    /// The key-derivation function refused its input.
    KeyDerivation,
    /// No random bytes could be had, or the cipher refused the plaintext.
    Encryption,
}

impl CodecError {
    /// The message shown to the user.
    pub fn message(&self) -> (text: String)
        ensures
            text@ == self.message_text(),
    {
        match self {
            CodecError::MalformedBlob => String::from_str("Malformed encrypted blob"),
            CodecError::Authentication => String::from_str(
                "Decryption failed: wrong password or corrupted data",
            ),
            CodecError::KeyDerivation => String::from_str("Key derivation failed"),
            CodecError::Encryption => String::from_str("Encryption failed"),
        }
    }

    /// The characters of [`CodecError::message`].
    pub open spec fn message_text(&self) -> Seq<char> {
        match self {
            CodecError::MalformedBlob => "Malformed encrypted blob"@,
            CodecError::Authentication => "Decryption failed: wrong password or corrupted data"@,
            CodecError::KeyDerivation => "Key derivation failed"@,
            CodecError::Encryption => "Encryption failed"@,
        }
    }
}

/// The step of a portfolio operation at which the file system or the storage
/// backend failed.
#[derive(Debug, Clone, Copy, PartialEq, Eq, Structural)]
pub enum IoFailure {
    /// The store of a new portfolio could not be created.
    CreateStore,
    /// The store of an existing portfolio could not be opened.
    OpenStore,
    /// The backend refused the key of a new store.
    SetKey,
    /// The schema script failed on a new store.
    InitSchema,
    /// The file of a portfolio could not be removed.
    RemoveFile,
    /// A report came in that the step in hand had not asked for.
    OutOfStep,
}

/// Why a portfolio operation failed.
#[derive(Debug, Clone, Copy, PartialEq, Eq, Structural)]
pub enum SessionError {
    /// A portfolio of that name is already there.
    AlreadyExists,
    /// No portfolio of that name is there.
    NotFound,
    /// The store does not open under the password: the password is wrong or
    /// the file is damaged. The two cannot be told apart.
    WrongPasswordOrCorrupt,
    /// The file system or the storage backend failed.
    Io(IoFailure),
    /// The lock on the session could not be taken.
    Lock,
}

impl SessionError {
    /// The message shown to the user.
    pub fn message(&self) -> (text: String)
        ensures
            text@ == self.message_text(),
    {
        match self {
            SessionError::AlreadyExists => String::from_str("Portfolio already exists"),
            SessionError::NotFound => String::from_str("Portfolio does not exist"),
            SessionError::WrongPasswordOrCorrupt => String::from_str("Failed to unlock database"),
            SessionError::Io(IoFailure::CreateStore) => String::from_str(
                "Failed to create database",
            ),
            SessionError::Io(IoFailure::OpenStore) => String::from_str("Failed to open database"),
            SessionError::Io(IoFailure::SetKey) => String::from_str("Failed to set password"),
            SessionError::Io(IoFailure::InitSchema) => String::from_str(
                "Failed to execute setup SQL",
            ),
            SessionError::Io(IoFailure::RemoveFile) => String::from_str(
                "Failed to delete portfolio",
            ),
            SessionError::Io(IoFailure::OutOfStep) => String::from_str(
                "Unexpected report from storage",
            ),
            SessionError::Lock => String::from_str("Failed to lock app state"),
        }
    }

    /// The message shown to the user, with what the system said of the
    /// failure where that may be shown.
    ///
    /// Only a failure of the file system or the storage backend carries the
    /// system's words, after a colon. A store that does not unlock gets its
    /// one message whatever the system said, so that nothing hints at
    /// whether the password or the file was at fault.
    pub fn describe(&self, detail: Option<&str>) -> (text: String)
        ensures
            text@ == self.described_text(
                match detail {
                    Some(detail) => Some(detail@),
                    None => None,
                },
            ),
    {
        match (self, detail) {
            (SessionError::Io(_), Some(detail)) => self.message().concat(": ").concat(detail),
            _ => self.message(),
        }
    }

    /// The characters of [`SessionError::describe`].
    pub open spec fn described_text(&self, detail: Option<Seq<char>>) -> Seq<char> {
        match (*self, detail) {
            (SessionError::Io(_), Some(detail)) => self.message_text() + ": "@ + detail,
            _ => self.message_text(),
        }
    }

    /// The characters of [`SessionError::message`].
    pub open spec fn message_text(&self) -> Seq<char> {
        match self {
            SessionError::AlreadyExists => "Portfolio already exists"@,
            SessionError::NotFound => "Portfolio does not exist"@,
            SessionError::WrongPasswordOrCorrupt => "Failed to unlock database"@,
            SessionError::Io(IoFailure::CreateStore) => "Failed to create database"@,
            SessionError::Io(IoFailure::OpenStore) => "Failed to open database"@,
            SessionError::Io(IoFailure::SetKey) => "Failed to set password"@,
            SessionError::Io(IoFailure::InitSchema) => "Failed to execute setup SQL"@,
            SessionError::Io(IoFailure::RemoveFile) => "Failed to delete portfolio"@,
            SessionError::Io(IoFailure::OutOfStep) => "Unexpected report from storage"@,
            SessionError::Lock => "Failed to lock app state"@,
        }
    }
}

} // verus!
