//! Error taxonomy of the container engine and of input validation.

use vstd::prelude::*;

verus! {

/// Failures of the cryptographic container engine.
///
/// None of these are retried automatically; each is a terminal failure of the
/// current operation.
#[derive(Clone, Copy, Debug, PartialEq, Eq, Structural)]
pub enum ContainerError {
    /// The token's integrity tag did not verify: the password is incorrect or
    /// the header region is corrupt.  Fail-closed: the wrapped key is never
    /// unwrapped in this case.
    InvalidPassword,
    /// The bulk stream's authentication tag did not verify: the ciphertext
    /// body or the tag was truncated or altered.
    TagMismatch,
    /// An underlying cryptographic primitive failed.  This indicates a broken
    /// runtime environment, not bad input, and is not recoverable by retry.
    CipherFailure,
}

impl ContainerError {
    /// The description that `message` returns for each failure.
    pub open spec fn message_spec(&self) -> Seq<char> {
        match self {
            ContainerError::InvalidPassword => "Invalid Password"@,
            ContainerError::TagMismatch => "Stream integrity check failed"@,
            ContainerError::CipherFailure => "Cipher primitive failure"@,
        }
    }

    /// A human-readable description of the failure.
    pub fn message(&self) -> (m: &'static str)
        ensures
            m@ == self.message_spec(),
    {
        match self {
            ContainerError::InvalidPassword => "Invalid Password",
            ContainerError::TagMismatch => "Stream integrity check failed",
            ContainerError::CipherFailure => "Cipher primitive failure",
        }
    }
}

/// Rejections of input before any cryptographic work is done.
#[derive(Clone, Copy, Debug, PartialEq, Eq, Structural)]
pub enum ValidationError {
    /// Encryption input already carries the encrypted-file extension.
    PathAlreadyEncrypted,
    /// Decryption input does not carry the encrypted-file extension.
    PathNotEncrypted,
    /// Encryption input is empty.
    EmptyFile,
    /// Encryption input exceeds the supported maximum size.
    FileTooBig,
    /// Decryption input is too small or too large to be a container.
    InvalidFileSize,
    /// Decryption input does not start with the supported format version.
    WrongVersion,
    /// The password is shorter than the accepted minimum.
    PasswordTooShort,
    /// The password is longer than the accepted maximum.
    PasswordTooLong,
    /// The password has no lowercase character.
    MissingLowercase,
    /// The password has no uppercase character.
    MissingUppercase,
    /// The password has no numeric character.
    MissingNumber,
    /// The password has no punctuation character.
    MissingSymbol,
}

impl ValidationError {
    /// The description that `message` returns for each rejection.
    pub open spec fn message_spec(&self) -> Seq<char> {
        match self {
            ValidationError::PathAlreadyEncrypted => "Path already encrypted"@,
            ValidationError::PathNotEncrypted => "Path is not encrypted"@,
            ValidationError::EmptyFile => "File is empty"@,
            ValidationError::FileTooBig => "File is too big"@,
            ValidationError::InvalidFileSize => "An invalid file was provided"@,
            ValidationError::WrongVersion => "Invalid file version"@,
            ValidationError::PasswordTooShort => "Password must be at least 8 characters long"@,
            ValidationError::PasswordTooLong => "Password must be at most 4000 characters long"@,
            ValidationError::MissingLowercase => "Password must contain at least one lowercase character"@,
            ValidationError::MissingUppercase => "Password must contain at least one uppercase character"@,
            ValidationError::MissingNumber => "Password must contain at least one number"@,
            ValidationError::MissingSymbol => "Password must contain at least one symbol"@,
        }
    }

    /// A human-readable description of the rejection.
    pub fn message(&self) -> (m: &'static str)
        ensures
            m@ == self.message_spec(),
    {
        match self {
            ValidationError::PathAlreadyEncrypted => "Path already encrypted",
            ValidationError::PathNotEncrypted => "Path is not encrypted",
            ValidationError::EmptyFile => "File is empty",
            ValidationError::FileTooBig => "File is too big",
            ValidationError::InvalidFileSize => "An invalid file was provided",
            ValidationError::WrongVersion => "Invalid file version",
            ValidationError::PasswordTooShort => "Password must be at least 8 characters long",
            ValidationError::PasswordTooLong => "Password must be at most 4000 characters long",
            ValidationError::MissingLowercase => "Password must contain at least one lowercase character",
            ValidationError::MissingUppercase => "Password must contain at least one uppercase character",
            ValidationError::MissingNumber => "Password must contain at least one number",
            ValidationError::MissingSymbol => "Password must contain at least one symbol",
        }
    }
}

} // verus!
