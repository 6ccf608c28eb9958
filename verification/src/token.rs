//! The token codec: minting and opening the header token that wraps the
//! random file key under a password-derived key with an integrity tag.
//!
//! A token is laid out as `version || salt || wrap_iv || wrapped_file_key ||
//! integrity_tag` at fixed offsets.  The integrity tag authenticates
//! everything before it and is verified, in constant time, before the wrapped
//! key is ever decrypted: a failed verification is never reachable to an
//! unwrap attempt.

use vstd::prelude::*;
use vstd::slice::slice_subrange;

use crate::constants::{
    version_seq, version_bytes, STREAM_KEY_SIZE, TOKEN_CIPHERTEXT_SIZE, TOKEN_HMAC_SIZE,
    TOKEN_IV_SIZE, TOKEN_KEY_SIZE, TOKEN_SALT_SIZE, TOKEN_SIZE, VERSION_SIZE,
};
use crate::errors::ContainerError;
use crate::primitives::{
    constant_time_eq, derived_key_of, hmac_sha3_512, hmac_sha3_512_of, pbkdf2_sha3_512, sha3_512,
    sha3_512_of, unwrap_decrypt, unwrap_of, wipe, wrap_encrypt, wrap_of,
};

verus! {

/// The first half of the derived key material: it wraps the file key.
pub open spec fn enc_subkey(key_material: Seq<u8>) -> Seq<u8> {
    key_material.subrange(0, TOKEN_KEY_SIZE as int / 2)
}

/// The second half of the derived key material: it authenticates the token.
pub open spec fn sign_subkey(key_material: Seq<u8>) -> Seq<u8> {
    key_material.subrange(TOKEN_KEY_SIZE as int / 2, TOKEN_KEY_SIZE as int)
}

/// The token bytes that the integrity tag authenticates: everything before
/// the tag itself.
pub open spec fn token_signed_part(salt: Seq<u8>, wrap_iv: Seq<u8>, wrapped: Seq<u8>) -> Seq<u8> {
    version_seq() + salt + wrap_iv + wrapped
}

/// The integrity tag of a token with these fields under this password: the
/// HMAC, under the signing sub-key, of the digest of the signed part.
pub open spec fn token_tag_of(
    password: Seq<u8>,
    salt: Seq<u8>,
    wrap_iv: Seq<u8>,
    wrapped: Seq<u8>,
    iterations: int,
) -> Seq<u8> {
    hmac_sha3_512_of(
        sign_subkey(derived_key_of(password, salt, iterations)),
        sha3_512_of(token_signed_part(salt, wrap_iv, wrapped)),
    )
}

/// The complete token minted for `file_key` under `password` with the given
/// random `salt` and `wrap_iv`.
pub open spec fn token_of(
    password: Seq<u8>,
    file_key: Seq<u8>,
    salt: Seq<u8>,
    wrap_iv: Seq<u8>,
    iterations: int,
) -> Seq<u8> {
    let wrapped = wrap_of(enc_subkey(derived_key_of(password, salt, iterations)), wrap_iv, file_key);
    token_signed_part(salt, wrap_iv, wrapped)
        + token_tag_of(password, salt, wrap_iv, wrapped, iterations)
}

/// The salt field of a token, at its fixed offset.
pub open spec fn token_salt(t: Seq<u8>) -> Seq<u8> {
    t.subrange(VERSION_SIZE as int, VERSION_SIZE as int + TOKEN_SALT_SIZE as int)
}

/// The wrap-IV field of a token, at its fixed offset.
pub open spec fn token_wrap_iv(t: Seq<u8>) -> Seq<u8> {
    t.subrange(
        VERSION_SIZE as int + TOKEN_SALT_SIZE as int,
        VERSION_SIZE as int + TOKEN_SALT_SIZE as int + TOKEN_IV_SIZE as int,
    )
}

/// The wrapped-file-key field of a token, at its fixed offset.
pub open spec fn token_wrapped(t: Seq<u8>) -> Seq<u8> {
    t.subrange(
        VERSION_SIZE as int + TOKEN_SALT_SIZE as int + TOKEN_IV_SIZE as int,
        VERSION_SIZE as int + TOKEN_SALT_SIZE as int + TOKEN_IV_SIZE as int
            + TOKEN_CIPHERTEXT_SIZE as int,
    )
}

/// The integrity-tag field of a token, at its fixed offset.
pub open spec fn token_hmac(t: Seq<u8>) -> Seq<u8> {
    t.subrange(TOKEN_SIZE as int - TOKEN_HMAC_SIZE as int, TOKEN_SIZE as int)
}

/// Whether a token's stored integrity tag is the one recomputed from its
/// fields under `password`: the token verification predicate.
pub open spec fn token_accepts(t: Seq<u8>, password: Seq<u8>, iterations: int) -> bool {
    token_tag_of(password, token_salt(t), token_wrap_iv(t), token_wrapped(t), iterations)
        == token_hmac(t)
}

/// What opening a token under `password` yields: the unwrapped file key when
/// the integrity tag verifies and the wrapped field decrypts, nothing
/// otherwise.
pub open spec fn open_token_spec(t: Seq<u8>, password: Seq<u8>, iterations: int) -> Option<
    Seq<u8>,
> {
    if token_accepts(t, password, iterations) {
        unwrap_of(
            enc_subkey(derived_key_of(password, token_salt(t), iterations)),
            token_wrap_iv(t),
            token_wrapped(t),
        )
    } else {
        None
    }
}

/// Law: altering the stored integrity tag of an accepted token is always
/// detected.  A token that agrees with an accepted one on salt, wrap IV and
/// wrapped key but stores a different tag is rejected under the same
/// password.  (Detection of changes to the other fields rests on the
/// collision resistance of the tag computation, which no proof can supply.)
pub proof fn lemma_stored_tag_is_pinned(
    t1: Seq<u8>,
    t2: Seq<u8>,
    password: Seq<u8>,
    iterations: int,
)
    requires
        token_accepts(t1, password, iterations),
        token_salt(t2) == token_salt(t1),
        token_wrap_iv(t2) == token_wrap_iv(t1),
        token_wrapped(t2) == token_wrapped(t1),
        token_hmac(t2) != token_hmac(t1),
    ensures
        !token_accepts(t2, password, iterations),
{
}

/// Mints the token that stores `file_key` wrapped under `password`: derives
/// the key material from the salt, wraps the file key, and authenticates the
/// whole with the signing sub-key.  Opening the result under the same
/// password yields the file key again.
pub fn mint_token(
    password: &[u8],
    file_key: &[u8],
    salt: &[u8],
    wrap_iv: &[u8],
    iterations: usize,
) -> (r: Result<Vec<u8>, ContainerError>)
    requires
        file_key@.len() == STREAM_KEY_SIZE,
        salt@.len() == TOKEN_SALT_SIZE,
        wrap_iv@.len() == TOKEN_IV_SIZE,
        password@.len() <= 0x7fff_ffff,
        iterations <= 0x7fff_ffff,
    ensures
        r matches Ok(t) ==> {
            &&& t@ == token_of(password@, file_key@, salt@, wrap_iv@, iterations as int)
            &&& t@.len() == TOKEN_SIZE
            &&& token_accepts(t@, password@, iterations as int)
            &&& open_token_spec(t@, password@, iterations as int) == Some(file_key@)
        },
        r matches Err(e) ==> e == ContainerError::CipherFailure,
{
    let mut key_material = match pbkdf2_sha3_512(password, salt, iterations) {
        Ok(k) => k,
        Err(e) => {
            return Err(e);
        },
    };
    let ghost km = key_material@;
    let wrapped = {
        let enc_key = slice_subrange(key_material.as_slice(), 0, TOKEN_KEY_SIZE / 2);
        match wrap_encrypt(enc_key, wrap_iv, file_key) {
            Ok(w) => w,
            Err(e) => {
                wipe(&mut key_material);
                return Err(e);
            },
        }
    };
    assert(wrapped@.len() == TOKEN_CIPHERTEXT_SIZE);

    let mut token = version_bytes();
    token.extend_from_slice(salt);
    token.extend_from_slice(wrap_iv);
    token.extend_from_slice(wrapped.as_slice());
    proof {
        assert(token@ =~= token_signed_part(salt@, wrap_iv@, wrapped@));
    }
    let ghost signed = token@;

    let digest = match sha3_512(token.as_slice()) {
        Ok(d) => d,
        Err(e) => {
            wipe(&mut key_material);
            return Err(e);
        },
    };
    let tag = {
        let sign_key = slice_subrange(key_material.as_slice(), TOKEN_KEY_SIZE / 2, TOKEN_KEY_SIZE);
        match hmac_sha3_512(sign_key, digest.as_slice()) {
            Ok(t) => t,
            Err(e) => {
                wipe(&mut key_material);
                return Err(e);
            },
        }
    };
    wipe(&mut key_material);
    token.extend_from_slice(tag.as_slice());

    proof {
        assert(tag@ == token_tag_of(password@, salt@, wrap_iv@, wrapped@, iterations as int));
        assert(token@ =~= signed + tag@);
        assert(token@ =~= token_of(password@, file_key@, salt@, wrap_iv@, iterations as int));
        assert(token_salt(token@) =~= salt@);
        assert(token_wrap_iv(token@) =~= wrap_iv@);
        assert(token_wrapped(token@) =~= wrapped@);
        assert(token_hmac(token@) =~= tag@);
        assert(token_accepts(token@, password@, iterations as int));
        assert(open_token_spec(token@, password@, iterations as int) == Some(file_key@));
    }
    Ok(token)
}

/// The fail-closed gate in front of the wrap cipher: the wrapped key may only
/// be decrypted for a token whose integrity tag has been verified under this
/// password, which the ghost arguments oblige every caller to prove.
fn unwrap_after_verify(
    enc_key: &[u8],
    wrap_iv: &[u8],
    wrapped: &[u8],
    Ghost(token): Ghost<Seq<u8>>,
    Ghost(password): Ghost<Seq<u8>>,
    Ghost(iterations): Ghost<int>,
) -> (r: Result<Vec<u8>, ContainerError>)
    requires
        token_accepts(token, password, iterations),
        enc_key@ == enc_subkey(derived_key_of(password, token_salt(token), iterations)),
        wrap_iv@ == token_wrap_iv(token),
        wrapped@ == token_wrapped(token),
        enc_key@.len() == 32,
        wrap_iv@.len() == 16,
        wrapped@.len() + 16 <= 0x7fff_ffff,
    ensures
        r matches Ok(k) ==> open_token_spec(token, password, iterations) == Some(k@),
        r matches Err(e) ==> e == ContainerError::CipherFailure,
{
    unwrap_decrypt(enc_key, wrap_iv, wrapped)
}

/// Opens a token under `password`: recomputes the integrity tag exactly as in
/// minting, compares it to the stored tag in constant time, and only on a
/// match unwraps and returns the file key.  `InvalidPassword` means exactly
/// that the recomputed tag differs — wrong password or corrupt token region —
/// and in that case the wrapped key is never touched.
///
/// The returned key is secret material: the caller owns it and should
/// overwrite it (not merely drop it) as soon as it is no longer needed; the
/// derived key material used here is wiped internally.  The fixed
/// anti-enumeration delay on a failed verification is the caller's concern —
/// the front end sleeps before surfacing `InvalidPassword`; this function
/// returns at once.
pub fn open_token(password: &[u8], token: &[u8], iterations: usize) -> (r: Result<
    Vec<u8>,
    ContainerError,
>)
    requires
        token@.len() == TOKEN_SIZE,
        password@.len() <= 0x7fff_ffff,
        iterations <= 0x7fff_ffff,
    ensures
        r matches Ok(k) ==> {
            &&& open_token_spec(token@, password@, iterations as int) == Some(k@)
            &&& token_accepts(token@, password@, iterations as int)
        },
        r matches Err(e) ==> e == ContainerError::InvalidPassword || e
            == ContainerError::CipherFailure,
        r == Err::<Vec<u8>, ContainerError>(ContainerError::InvalidPassword) ==> !token_accepts(
            token@,
            password@,
            iterations as int,
        ),
{
    let salt = slice_subrange(token, VERSION_SIZE, VERSION_SIZE + TOKEN_SALT_SIZE);
    let wrap_iv = slice_subrange(
        token,
        VERSION_SIZE + TOKEN_SALT_SIZE,
        VERSION_SIZE + TOKEN_SALT_SIZE + TOKEN_IV_SIZE,
    );
    let wrapped = slice_subrange(
        token,
        VERSION_SIZE + TOKEN_SALT_SIZE + TOKEN_IV_SIZE,
        VERSION_SIZE + TOKEN_SALT_SIZE + TOKEN_IV_SIZE + TOKEN_CIPHERTEXT_SIZE,
    );
    let stored_tag = slice_subrange(token, TOKEN_SIZE - TOKEN_HMAC_SIZE, TOKEN_SIZE);

    let mut key_material = match pbkdf2_sha3_512(password, salt, iterations) {
        Ok(k) => k,
        Err(e) => {
            return Err(e);
        },
    };

    let mut signed = version_bytes();
    signed.extend_from_slice(salt);
    signed.extend_from_slice(wrap_iv);
    signed.extend_from_slice(wrapped);
    proof {
        assert(signed@ =~= token_signed_part(salt@, wrap_iv@, wrapped@));
    }

    let digest = match sha3_512(signed.as_slice()) {
        Ok(d) => d,
        Err(e) => {
            wipe(&mut key_material);
            return Err(e);
        },
    };
    let expected_tag = {
        let sign_key = slice_subrange(key_material.as_slice(), TOKEN_KEY_SIZE / 2, TOKEN_KEY_SIZE);
        match hmac_sha3_512(sign_key, digest.as_slice()) {
            Ok(t) => t,
            Err(e) => {
                wipe(&mut key_material);
                return Err(e);
            },
        }
    };

    if !constant_time_eq(stored_tag, expected_tag.as_slice()) {
        wipe(&mut key_material);
        return Err(ContainerError::InvalidPassword);
    }

    let enc_key = slice_subrange(key_material.as_slice(), 0, TOKEN_KEY_SIZE / 2);
    let file_key = unwrap_after_verify(
        enc_key,
        wrap_iv,
        wrapped,
        Ghost(token@),
        Ghost(password@),
        Ghost(iterations as int),
    );
    wipe(&mut key_material);
    file_key
}

} // verus!
