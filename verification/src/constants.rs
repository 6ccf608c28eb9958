//! Fixed sizes and limits of the container format.

use vstd::prelude::*;

verus! {

/// Length in bytes of the format-version prefix.
pub const VERSION_SIZE: usize = 4;

/// Length in bytes of the password-derived key material.
pub const TOKEN_KEY_SIZE: usize = 64;

/// Length in bytes of the random salt stored in the token.
pub const TOKEN_SALT_SIZE: usize = 64;

/// Length in bytes of the wrap cipher's initialisation vector.
pub const TOKEN_IV_SIZE: usize = 16;

/// Length in bytes of the wrapped file key (one padded block more than the key).
pub const TOKEN_CIPHERTEXT_SIZE: usize = 48;

/// Length in bytes of the token's integrity tag.
pub const TOKEN_HMAC_SIZE: usize = 64;

/// Total token length: version, salt, wrap IV, wrapped key and integrity tag.
pub const TOKEN_SIZE: usize = VERSION_SIZE + TOKEN_SALT_SIZE + TOKEN_IV_SIZE
    + TOKEN_CIPHERTEXT_SIZE + TOKEN_HMAC_SIZE;

/// Length in bytes of the stream cipher's nonce, written right after the token.
pub const STREAM_IV_SIZE: usize = 32;

/// Length in bytes of the stream cipher's authentication tag, the artifact's
/// final bytes.
pub const STREAM_TAG_SIZE: usize = 16;

/// Length in bytes of the random per-file key for the stream cipher.
pub const STREAM_KEY_SIZE: usize = 32;

/// Length in bytes of the container header: token plus stream nonce.
pub const HEADER_SIZE: usize = TOKEN_SIZE + STREAM_IV_SIZE;

/// Default working-buffer size for chunked stream processing (10 MiB).
pub const BUFFER_SIZE: usize = 10_485_760;

/// Maximum accepted payload size, chosen with margin below the safety limit of
/// the stream cipher mode.
pub const MAX_FILE_SIZE: u64 = 68_719_476_704;

/// Default iteration count for the password-hardening key derivation.
pub const PBKDF2_HMAC_ITERATIONS: usize = 1_000_000;

/// Minimum accepted password length, in bytes.
pub const PASSWORD_MIN: usize = 8;

/// Maximum accepted password length, in bytes.
pub const PASSWORD_MAX: usize = 4_000;

/// Fixed delay in seconds applied after a failed password verification.
pub const INVALID_PASSWORD_TIMEOUT: u64 = 2;

/// Length in characters of a generated temporary file name.
pub const TMP_FILENAME_SIZE: usize = 64;

/// The format-version byte string embedded in every token and mixed into the
/// stream cipher's associated data.
pub open spec fn version_seq() -> Seq<u8> {
    seq![0u8, 0u8, 0u8, 1u8]
}

/// The format-version byte string as a vector.
pub fn version_bytes() -> (v: Vec<u8>)
    ensures
        v@ == version_seq(),
{
    let mut v: Vec<u8> = Vec::new();
    v.push(0u8);
    v.push(0u8);
    v.push(0u8);
    v.push(1u8);
    proof {
        assert(v@ =~= version_seq());
    }
    v
}

} // verus!
