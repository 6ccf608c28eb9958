//! Key derivation: password and salt to fixed-length key material, through a
//! slow, salted, iterated hash.

use vstd::prelude::*;

use crate::constants::TOKEN_KEY_SIZE;
use crate::errors::ContainerError;
use crate::primitives::{derived_key_of, pbkdf2_sha3_512};

verus! {

/// Derives `TOKEN_KEY_SIZE` bytes of key material from a password and a salt
/// with PBKDF2-HMAC-SHA3-512 at the given iteration count.  The result is a
/// deterministic function of the three inputs: calling this twice on equal
/// inputs yields equal key material.
///
/// The result is secret material: the caller owns it and should overwrite it
/// (not merely drop it) as soon as it is no longer needed.
pub fn key_from_password(password: &[u8], salt: &[u8], iterations: usize) -> (r: Result<
    Vec<u8>,
    ContainerError,
>)
    requires
        password@.len() <= 0x7fff_ffff,
        salt@.len() <= 0x7fff_ffff,
        iterations <= 0x7fff_ffff,
    ensures
        r matches Ok(k) ==> {
            &&& k@ == derived_key_of(password@, salt@, iterations as int)
            &&& k@.len() == TOKEN_KEY_SIZE
        },
        r matches Err(e) ==> e == ContainerError::CipherFailure,
{
    pbkdf2_sha3_512(password, salt, iterations)
}

/// Law: key derivation is deterministic.  Two derivations agree whenever the
/// passwords, the salts and the iteration counts agree; together with
/// `key_from_password`'s postcondition this says that repeated calls on the
/// same inputs return the same key material.
pub proof fn lemma_derivation_deterministic(
    w1: Seq<u8>,
    s1: Seq<u8>,
    i1: int,
    w2: Seq<u8>,
    s2: Seq<u8>,
    i2: int,
)
    requires
        w1 == w2,
        s1 == s2,
        i1 == i2,
    ensures
        derived_key_of(w1, s1, i1) == derived_key_of(w2, s2, i2),
{
}

} // verus!
