//! Container orchestration: builds a complete encrypted artifact from a
//! payload and opens one back up.
//!
//! An artifact is `token || stream_iv || ciphertext_body || auth_tag` at fixed
//! offsets; the body is exactly as long as the payload, and the tag position
//! is computed arithmetically from the total size.  `open_container` is the
//! single specification of what a container yields under a password, and both
//! directions are proved against it: whatever `encrypt_container` produces,
//! `open_container` maps back to the payload.

use vstd::prelude::*;
use vstd::slice::slice_subrange;

use crate::constants::{
    version_seq, HEADER_SIZE, MAX_FILE_SIZE, STREAM_KEY_SIZE, STREAM_IV_SIZE, STREAM_TAG_SIZE,
    TOKEN_IV_SIZE, TOKEN_SALT_SIZE, TOKEN_SIZE,
};
use crate::errors::ContainerError;
use crate::primitives::{gcm_ciphertext_of, gcm_plaintext_of, gcm_tag_of, random_bytes, wipe};
use crate::stream::{decrypt_stream, encrypt_stream, stream_aad};
use crate::token::{mint_token, open_token, open_token_spec, token_accepts, token_of};

verus! {

/// The token region of a container: its first `TOKEN_SIZE` bytes.
pub open spec fn container_token(c: Seq<u8>) -> Seq<u8> {
    c.subrange(0, TOKEN_SIZE as int)
}

/// The stream nonce of a container, between the token and the body.
pub open spec fn container_stream_iv(c: Seq<u8>) -> Seq<u8> {
    c.subrange(TOKEN_SIZE as int, HEADER_SIZE as int)
}

/// The ciphertext body of a container: everything between the header and the
/// trailing authentication tag.
pub open spec fn container_body(c: Seq<u8>) -> Seq<u8> {
    c.subrange(HEADER_SIZE as int, c.len() - STREAM_TAG_SIZE as int)
}

/// The trailing authentication tag of a container: its final bytes.
pub open spec fn container_tag(c: Seq<u8>) -> Seq<u8> {
    c.subrange(c.len() - STREAM_TAG_SIZE as int, c.len() as int)
}

/// Whether a byte string is long enough to hold a header and a trailing tag.
pub open spec fn container_well_sized(c: Seq<u8>) -> bool {
    c.len() >= HEADER_SIZE + STREAM_TAG_SIZE
}

/// What decrypting a container under `password` yields: the stream-decrypted
/// body, provided the token's integrity tag verifies, the unwrapped file key
/// has the stream cipher's key size, and the trailing tag is the one the
/// stream cipher computes.  Anything else yields nothing.
pub open spec fn open_container(c: Seq<u8>, password: Seq<u8>, iterations: int) -> Option<
    Seq<u8>,
> {
    if !container_well_sized(c) {
        None
    } else {
        match open_token_spec(container_token(c), password, iterations) {
            Option::None => None,
            Option::Some(fk) => {
                if fk.len() == STREAM_KEY_SIZE {
                    let iv = container_stream_iv(c);
                    let pt = gcm_plaintext_of(fk, iv, stream_aad(iv), container_body(c));
                    if container_tag(c) == gcm_tag_of(fk, iv, stream_aad(iv), pt) {
                        Some(pt)
                    } else {
                        None
                    }
                } else {
                    None
                }
            },
        }
    }
}

/// Law: altering the trailing authentication tag of a readable container is
/// always detected.  A container that agrees with a readable one everywhere
/// but in its trailing tag yields nothing under the same password.
/// (Detection of body changes rests on the collision resistance of the tag
/// computation, which no proof can supply.)
pub proof fn lemma_trailing_tag_is_pinned(
    c1: Seq<u8>,
    c2: Seq<u8>,
    password: Seq<u8>,
    iterations: int,
)
    requires
        open_container(c1, password, iterations) is Some,
        c2.len() == c1.len(),
        container_token(c2) == container_token(c1),
        container_stream_iv(c2) == container_stream_iv(c1),
        container_body(c2) == container_body(c1),
        container_tag(c2) != container_tag(c1),
    ensures
        open_container(c2, password, iterations) is None,
{
}

/// Builds the container for `payload` from explicitly supplied random values:
/// the per-file key, the token's salt and wrap IV, and the stream nonce.  The
/// result opens back to the payload under the same password, and its length
/// is exactly header plus payload plus tag.
pub fn encrypt_container_with(
    payload: &[u8],
    password: &[u8],
    file_key: &[u8],
    salt: &[u8],
    wrap_iv: &[u8],
    stream_iv: &[u8],
    iterations: usize,
    buffer_size: usize,
) -> (r: Result<Vec<u8>, ContainerError>)
    requires
        payload@.len() <= MAX_FILE_SIZE,
        file_key@.len() == STREAM_KEY_SIZE,
        salt@.len() == TOKEN_SALT_SIZE,
        wrap_iv@.len() == TOKEN_IV_SIZE,
        stream_iv@.len() == STREAM_IV_SIZE,
        password@.len() <= 0x7fff_ffff,
        iterations <= 0x7fff_ffff,
        1 <= buffer_size,
        buffer_size + 16 <= 0x7fff_ffff,
    ensures
        r matches Ok(c) ==> {
            &&& c@.len() == HEADER_SIZE + payload@.len() + STREAM_TAG_SIZE
            &&& container_token(c@) == token_of(
                password@,
                file_key@,
                salt@,
                wrap_iv@,
                iterations as int,
            )
            &&& container_stream_iv(c@) == stream_iv@
            &&& container_body(c@) == gcm_ciphertext_of(
                file_key@,
                stream_iv@,
                stream_aad(stream_iv@),
                payload@,
            )
            &&& container_tag(c@) == gcm_tag_of(
                file_key@,
                stream_iv@,
                stream_aad(stream_iv@),
                payload@,
            )
            &&& open_container(c@, password@, iterations as int) == Some(payload@)
        },
        r matches Err(e) ==> e == ContainerError::CipherFailure,
{
    let mut container = match mint_token(password, file_key, salt, wrap_iv, iterations) {
        Ok(t) => t,
        Err(e) => {
            return Err(e);
        },
    };
    let ghost token = container@;
    let (body, tag) = match encrypt_stream(file_key, stream_iv, payload, buffer_size) {
        Ok(bt) => bt,
        Err(e) => {
            return Err(e);
        },
    };
    container.extend_from_slice(stream_iv);
    container.extend_from_slice(body.as_slice());
    container.extend_from_slice(tag.as_slice());
    proof {
        assert(container_token(container@) =~= token);
        assert(container_stream_iv(container@) =~= stream_iv@);
        assert(container_body(container@) =~= body@);
        assert(container_tag(container@) =~= tag@);
    }
    Ok(container)
}

/// Encrypts `payload` under `password` into a fresh container: mints the salt,
/// wrap IV, per-file key and stream nonce at random, builds the token, runs
/// the stream cipher, and wipes the file key before returning.  The artifact
/// has length header plus payload plus tag, starts with the format version,
/// and opens back to the payload under the same password.
pub fn encrypt_container(payload: &[u8], password: &[u8], iterations: usize, buffer_size: usize) -> (r:
    Result<Vec<u8>, ContainerError>)
    requires
        payload@.len() <= MAX_FILE_SIZE,
        password@.len() <= 0x7fff_ffff,
        iterations <= 0x7fff_ffff,
        1 <= buffer_size,
        buffer_size + 16 <= 0x7fff_ffff,
    ensures
        r matches Ok(c) ==> {
            &&& c@.len() == HEADER_SIZE + payload@.len() + STREAM_TAG_SIZE
            &&& c@.subrange(0, 4) == version_seq()
            &&& open_container(c@, password@, iterations as int) == Some(payload@)
        },
        r matches Err(e) ==> e == ContainerError::CipherFailure,
{
    let salt = match random_bytes(TOKEN_SALT_SIZE) {
        Ok(b) => b,
        Err(e) => {
            return Err(e);
        },
    };
    let wrap_iv = match random_bytes(TOKEN_IV_SIZE) {
        Ok(b) => b,
        Err(e) => {
            return Err(e);
        },
    };
    let stream_iv = match random_bytes(STREAM_IV_SIZE) {
        Ok(b) => b,
        Err(e) => {
            return Err(e);
        },
    };
    let mut file_key = match random_bytes(STREAM_KEY_SIZE) {
        Ok(b) => b,
        Err(e) => {
            return Err(e);
        },
    };
    let result = encrypt_container_with(
        payload,
        password,
        file_key.as_slice(),
        salt.as_slice(),
        wrap_iv.as_slice(),
        stream_iv.as_slice(),
        iterations,
        buffer_size,
    );
    wipe(&mut file_key);
    proof {
        if result is Ok {
            assert((result->Ok_0)@.subrange(0, 4) =~= version_seq());
        }
    }
    result
}

/// Decrypts a container under `password`: parses the fixed-offset regions,
/// verifies and opens the token (fail-closed), runs the stream cipher over the
/// body, and verifies the trailing tag before the plaintext is returned.
/// `InvalidPassword` means exactly that the token's integrity tag did not
/// verify; `TagMismatch` means the token verified but the body or trailing
/// tag did not.
///
/// The file key recovered along the way is wiped before returning; the
/// plaintext belongs to the caller, as does any delay policy on a failed
/// password (the front end sleeps before surfacing `InvalidPassword`).
pub fn decrypt_container(container: &[u8], password: &[u8], iterations: usize, buffer_size: usize) -> (r:
    Result<Vec<u8>, ContainerError>)
    requires
        container@.len() >= HEADER_SIZE + STREAM_TAG_SIZE,
        password@.len() <= 0x7fff_ffff,
        iterations <= 0x7fff_ffff,
        1 <= buffer_size,
        buffer_size + 16 <= 0x7fff_ffff,
    ensures
        r matches Ok(p) ==> {
            &&& open_container(container@, password@, iterations as int) == Some(p@)
            &&& p@.len() + HEADER_SIZE + STREAM_TAG_SIZE == container@.len()
        },
        r == Err::<Vec<u8>, ContainerError>(ContainerError::InvalidPassword) ==> !token_accepts(
            container_token(container@),
            password@,
            iterations as int,
        ),
        (r == Err::<Vec<u8>, ContainerError>(ContainerError::InvalidPassword) || r == Err::<
            Vec<u8>,
            ContainerError,
        >(ContainerError::TagMismatch)) ==> open_container(
            container@,
            password@,
            iterations as int,
        ) is None,
        r == Err::<Vec<u8>, ContainerError>(ContainerError::TagMismatch) ==> token_accepts(
            container_token(container@),
            password@,
            iterations as int,
        ),
        r matches Err(e) ==> (e == ContainerError::InvalidPassword || e
            == ContainerError::TagMismatch || e == ContainerError::CipherFailure),
{
    let token = slice_subrange(container, 0, TOKEN_SIZE);
    let stream_iv = slice_subrange(container, TOKEN_SIZE, HEADER_SIZE);
    let body_end = container.len() - STREAM_TAG_SIZE;
    let body = slice_subrange(container, HEADER_SIZE, body_end);
    let tag = slice_subrange(container, body_end, container.len());

    let mut file_key = match open_token(password, token, iterations) {
        Ok(k) => k,
        Err(e) => {
            return Err(e);
        },
    };
    if file_key.len() != STREAM_KEY_SIZE {
        wipe(&mut file_key);
        return Err(ContainerError::CipherFailure);
    }
    let result = decrypt_stream(file_key.as_slice(), stream_iv, body, tag, buffer_size);
    wipe(&mut file_key);
    result
}

} // verus!
