//! The trusted boundary around the cryptographic primitives.
//!
//! Every function here is `external_body`: Verus believes its contract and
//! does not read its body.  Each body makes one call into openssl (or rand,
//! zeroize, std) plus the conversions of its arguments and result, nothing
//! more.  Results that are deterministic functions of the arguments alone are
//! given uninterpreted names (`derived_key_of`, `wrap_of`, ...), and the
//! verified layers above speak of those names exactly.

use vstd::prelude::*;

use crate::constants::TOKEN_KEY_SIZE;
use crate::errors::ContainerError;

verus! {

/// The key material that PBKDF2-HMAC-SHA3-512 derives from a password, a salt
/// and an iteration count; always `TOKEN_KEY_SIZE` bytes.
pub uninterp spec fn derived_key_of(password: Seq<u8>, salt: Seq<u8>, iterations: int) -> Seq<u8>;

/// The AES-256-CBC ciphertext (PKCS padding enabled) of `plaintext` under
/// `key` and `iv`.
pub uninterp spec fn wrap_of(key: Seq<u8>, iv: Seq<u8>, plaintext: Seq<u8>) -> Seq<u8>;

/// The AES-256-CBC decryption (PKCS padding enabled) of `ciphertext` under
/// `key` and `iv`; `None` when the padding does not check out.
pub uninterp spec fn unwrap_of(key: Seq<u8>, iv: Seq<u8>, ciphertext: Seq<u8>) -> Option<Seq<u8>>;

/// The SHA3-512 digest of `data`; always 64 bytes.
pub uninterp spec fn sha3_512_of(data: Seq<u8>) -> Seq<u8>;

/// The HMAC-SHA3-512 authentication code of `data` under `key`; always 64
/// bytes.
pub uninterp spec fn hmac_sha3_512_of(key: Seq<u8>, data: Seq<u8>) -> Seq<u8>;

/// The AES-256-GCM ciphertext of `plaintext` under `key` and nonce `iv` with
/// associated data `aad`; byte-for-byte as long as the plaintext.
pub uninterp spec fn gcm_ciphertext_of(key: Seq<u8>, iv: Seq<u8>, aad: Seq<u8>, plaintext: Seq<u8>) -> Seq<u8>;

/// The AES-256-GCM decryption of `ciphertext` under `key`, nonce `iv` and
/// associated data `aad`.  GCM enciphers with a keystream, so this is a total
/// function that inverts `gcm_ciphertext_of`.
pub uninterp spec fn gcm_plaintext_of(key: Seq<u8>, iv: Seq<u8>, aad: Seq<u8>, ciphertext: Seq<u8>) -> Seq<u8>;

/// The AES-256-GCM authentication tag over `plaintext` (and `aad`) under `key`
/// and nonce `iv`; always `STREAM_TAG_SIZE` bytes.
pub uninterp spec fn gcm_tag_of(key: Seq<u8>, iv: Seq<u8>, aad: Seq<u8>, plaintext: Seq<u8>) -> Seq<u8>;

/// Relies on openssl's `pkcs5::pbkdf2_hmac` with SHA3-512: the derived key is
/// a deterministic function of the password, the salt and the iteration
/// count, filling the whole output buffer (here `TOKEN_KEY_SIZE` bytes).
/// The size bounds keep openssl's conversions to C integers from panicking.
#[verifier::external_body]
pub(crate) fn pbkdf2_sha3_512(password: &[u8], salt: &[u8], iterations: usize) -> (r: Result<
    Vec<u8>,
    ContainerError,
>)
    requires
        password@.len() <= 0x7fff_ffff,
        salt@.len() <= 0x7fff_ffff,
        iterations <= 0x7fff_ffff,
    ensures
        r matches Ok(k) ==> k@ == derived_key_of(password@, salt@, iterations as int)
            && k@.len() == TOKEN_KEY_SIZE,
        r matches Err(e) ==> e == ContainerError::CipherFailure,
{
    let mut key = vec![0u8; TOKEN_KEY_SIZE];
    match openssl::pkcs5::pbkdf2_hmac(
        password,
        salt,
        iterations,
        openssl::hash::MessageDigest::sha3_512(),
        &mut key,
    ) {
        Ok(()) => Ok(key),
        Err(_) => Err(ContainerError::CipherFailure),
    }
}

/// Relies on openssl's `symm::encrypt` with AES-256-CBC: a one-go encryption
/// with PKCS padding enabled, so the ciphertext is one padded block longer
/// than the last full block of data, and `symm::decrypt` with the same key
/// and IV inverts it.
#[verifier::external_body]
pub(crate) fn wrap_encrypt(key: &[u8], iv: &[u8], data: &[u8]) -> (r: Result<
    Vec<u8>,
    ContainerError,
>)
    requires
        key@.len() == 32,
        iv@.len() == 16,
        data@.len() + 16 <= 0x7fff_ffff,
    ensures
        r matches Ok(c) ==> {
            &&& c@ == wrap_of(key@, iv@, data@)
            &&& c@.len() == (data@.len() / 16 + 1) * 16
            &&& unwrap_of(key@, iv@, c@) == Some(data@)
        },
        r matches Err(e) ==> e == ContainerError::CipherFailure,
{
    match openssl::symm::encrypt(openssl::symm::Cipher::aes_256_cbc(), key, Some(iv), data) {
        Ok(c) => Ok(c),
        Err(_) => Err(ContainerError::CipherFailure),
    }
}

/// Relies on openssl's `symm::decrypt` with AES-256-CBC: a one-go decryption
/// with PKCS padding enabled, a deterministic function of key, IV and
/// ciphertext that fails when the padding does not check out.
#[verifier::external_body]
pub(crate) fn unwrap_decrypt(key: &[u8], iv: &[u8], data: &[u8]) -> (r: Result<
    Vec<u8>,
    ContainerError,
>)
    requires
        key@.len() == 32,
        iv@.len() == 16,
        data@.len() + 16 <= 0x7fff_ffff,
    ensures
        r matches Ok(p) ==> unwrap_of(key@, iv@, data@) == Some(p@),
        r matches Err(e) ==> e == ContainerError::CipherFailure,
{
    match openssl::symm::decrypt(openssl::symm::Cipher::aes_256_cbc(), key, Some(iv), data) {
        Ok(p) => Ok(p),
        Err(_) => Err(ContainerError::CipherFailure),
    }
}

/// Relies on openssl's `hash::hash` with SHA3-512: a 64-byte digest that is a
/// deterministic function of the data alone.
#[verifier::external_body]
pub(crate) fn sha3_512(data: &[u8]) -> (r: Result<Vec<u8>, ContainerError>)
    requires
        data@.len() <= 0x7fff_ffff,
    ensures
        r matches Ok(h) ==> h@ == sha3_512_of(data@) && h@.len() == 64,
        r matches Err(e) ==> e == ContainerError::CipherFailure,
{
    match openssl::hash::hash(openssl::hash::MessageDigest::sha3_512(), data) {
        Ok(h) => Ok(h.to_vec()),
        Err(_) => Err(ContainerError::CipherFailure),
    }
}

/// Relies on openssl's HMAC path (`pkey::PKey::hmac`, `sign::Signer` with
/// SHA3-512, `update`, `sign_to_vec`): the authentication code is a 64-byte
/// deterministic function of the key and the data alone.  The size bounds
/// keep openssl's conversions to C integers from panicking.
#[verifier::external_body]
pub(crate) fn hmac_sha3_512(key: &[u8], data: &[u8]) -> (r: Result<Vec<u8>, ContainerError>)
    requires
        1 <= key@.len() <= 0x7fff_ffff,
        data@.len() <= 0x7fff_ffff,
    ensures
        r matches Ok(t) ==> t@ == hmac_sha3_512_of(key@, data@) && t@.len() == 64,
        r matches Err(e) ==> e == ContainerError::CipherFailure,
{
    let out = openssl::pkey::PKey::hmac(key).and_then(|pkey| {
        let mut signer = openssl::sign::Signer::new(openssl::hash::MessageDigest::sha3_512(), &pkey)?;
        signer.update(data)?;
        signer.sign_to_vec()
    });
    match out {
        Ok(t) => Ok(t),
        Err(_) => Err(ContainerError::CipherFailure),
    }
}

/// Relies on openssl's `memcmp::eq`: returns true iff the two slices hold the
/// same bytes, in time independent of their contents.  It panics on slices of
/// different lengths, which the precondition rules out.
#[verifier::external_body]
pub(crate) fn constant_time_eq(a: &[u8], b: &[u8]) -> (r: bool)
    requires
        a@.len() == b@.len(),
    ensures
        r <==> a@ == b@,
{
    openssl::memcmp::eq(a, b)
}

/// Relies on openssl's `rand::rand_bytes`: fills the buffer with
/// cryptographically strong bytes.  Nothing is promised of the values, only
/// of the length.  The size bound keeps openssl's conversion to a C integer
/// from panicking.
#[verifier::external_body]
pub(crate) fn random_bytes(n: usize) -> (r: Result<Vec<u8>, ContainerError>)
    requires
        n <= 0x7fff_ffff,
    ensures
        r matches Ok(b) ==> b@.len() == n,
        r matches Err(e) ==> e == ContainerError::CipherFailure,
{
    let mut buf = vec![0u8; n];
    match openssl::rand::rand_bytes(&mut buf) {
        Ok(()) => Ok(buf),
        Err(_) => Err(ContainerError::CipherFailure),
    }
}

/// Relies on rand's `random`: an arbitrary machine-word drawn from the thread
/// RNG.  Nothing is promised of the value.
#[verifier::external_body]
pub(crate) fn random_usize() -> usize {
    rand::random::<usize>()
}

/// Relies on zeroize's `Zeroize for Vec<u8>`: overwrites the buffer's whole
/// capacity with zeroes and clears it, so the secret does not linger in
/// process memory.
#[verifier::external_body]
pub(crate) fn wipe(buf: &mut Vec<u8>)
    ensures
        final(buf)@.len() == 0,
{
    zeroize::Zeroize::zeroize(buf);
}

/// Whether a character has the Unicode lowercase property.
pub uninterp spec fn lowercase_char(c: char) -> bool;

/// Whether a character has the Unicode uppercase property.
pub uninterp spec fn uppercase_char(c: char) -> bool;

/// Whether a character has the Unicode numeric property.
pub uninterp spec fn numeric_char(c: char) -> bool;

/// Relies on std's `char::is_lowercase`: the Unicode lowercase property, a
/// function of the character alone.
#[verifier::external_body]
pub(crate) fn char_is_lowercase(c: char) -> (r: bool)
    ensures
        r == lowercase_char(c),
{
    c.is_lowercase()
}

/// Relies on std's `char::is_uppercase`: the Unicode uppercase property, a
/// function of the character alone.
#[verifier::external_body]
pub(crate) fn char_is_uppercase(c: char) -> (r: bool)
    ensures
        r == uppercase_char(c),
{
    c.is_uppercase()
}

/// Relies on std's `char::is_numeric`: the Unicode numeric property, a
/// function of the character alone.
#[verifier::external_body]
pub(crate) fn char_is_numeric(c: char) -> (r: bool)
    ensures
        r == numeric_char(c),
{
    c.is_numeric()
}

} // verus!
