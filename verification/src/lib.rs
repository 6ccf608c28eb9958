//! A password-based, single-file symmetric encryption container.
//!
//! The crate builds and consumes self-contained encrypted artifacts: a header
//! token wraps a random per-file key under a password-derived key with an
//! integrity tag, and an authenticated stream cipher processes the payload in
//! bounded-size chunks.  The cryptographic primitives come from openssl and
//! stand behind a small trusted boundary in [`primitives`]; everything layered
//! on top of them is verified.

pub mod constants;
pub mod container;
pub mod derivation;
pub mod errors;
pub mod password;
pub mod paths;
pub mod primitives;
pub mod stream;
pub mod token;
