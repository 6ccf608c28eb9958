//! End-to-end tests of the container engine: round trips, wrong passwords,
//! tamper detection, header binding and buffer boundaries.

use stic::constants::{BUFFER_SIZE, HEADER_SIZE, STREAM_TAG_SIZE, TOKEN_SIZE};
use stic::container::{decrypt_container, encrypt_container, encrypt_container_with};
use stic::errors::ContainerError;

const ITERS: usize = 1_000;
const BUF: usize = 1_024;
const PW: &[u8] = b"Abc123!xyzW";

fn round_trip(payload: &[u8], buffer_size: usize) -> Vec<u8> {
    let container = encrypt_container(payload, PW, ITERS, buffer_size).unwrap();
    assert_eq!(container.len(), HEADER_SIZE + payload.len() + STREAM_TAG_SIZE);
    let back = decrypt_container(&container, PW, ITERS, buffer_size).unwrap();
    assert_eq!(back, payload);
    container
}

#[test]
fn round_trip_small() {
    round_trip(b"hello container world", BUF);
}

#[test]
fn round_trip_single_byte() {
    round_trip(b"x", BUF);
}

#[test]
fn round_trip_empty_payload() {
    round_trip(b"", BUF);
}

#[test]
fn round_trip_multiple_chunks() {
    let payload: Vec<u8> = (0..3000u32).map(|i| (i % 251) as u8).collect();
    round_trip(&payload, 1024);
}

#[test]
fn round_trip_chunk_exact_multiple() {
    let payload: Vec<u8> = (0..2048u32).map(|i| (i * 7 % 256) as u8).collect();
    round_trip(&payload, 1024);
}

#[test]
fn buffer_boundary_exact() {
    let payload = vec![0xa5u8; BUFFER_SIZE];
    let container = round_trip(&payload, BUFFER_SIZE);
    assert_eq!(container.len(), HEADER_SIZE + BUFFER_SIZE + STREAM_TAG_SIZE);
}

#[test]
fn buffer_boundary_plus_one() {
    let payload = vec![0x5au8; BUFFER_SIZE + 1];
    let container = round_trip(&payload, BUFFER_SIZE);
    assert_eq!(container.len(), HEADER_SIZE + BUFFER_SIZE + 1 + STREAM_TAG_SIZE);
}

#[test]
fn chunking_does_not_change_the_artifact_body() {
    // The same payload under the same randomness gives the same container,
    // whatever the working-buffer size.
    let payload: Vec<u8> = (0..500u32).map(|i| (i % 256) as u8).collect();
    let file_key = [7u8; 32];
    let salt = [1u8; 64];
    let wrap_iv = [2u8; 16];
    let stream_iv = [3u8; 32];
    let one = encrypt_container_with(&payload, PW, &file_key, &salt, &wrap_iv, &stream_iv, ITERS, 7)
        .unwrap();
    let two =
        encrypt_container_with(&payload, PW, &file_key, &salt, &wrap_iv, &stream_iv, ITERS, 4096)
            .unwrap();
    assert_eq!(one, two);
}

#[test]
fn ciphertext_differs_from_payload() {
    let payload = vec![0u8; 256];
    let container = encrypt_container(&payload, PW, ITERS, BUF).unwrap();
    let body = &container[HEADER_SIZE..HEADER_SIZE + payload.len()];
    assert_ne!(body, &payload[..]);
}

#[test]
fn container_starts_with_format_version() {
    let container = encrypt_container(b"abc", PW, ITERS, BUF).unwrap();
    assert_eq!(&container[..4], &[0u8, 0, 0, 1]);
}

#[test]
fn wrong_password_fails_with_invalid_password() {
    let container = encrypt_container(b"secret payload", PW, ITERS, BUF).unwrap();
    let result = decrypt_container(&container, b"Abc123!xyzX", ITERS, BUF);
    assert_eq!(result.unwrap_err(), ContainerError::InvalidPassword);
}

#[test]
fn wrong_iteration_count_fails_with_invalid_password() {
    let container = encrypt_container(b"secret payload", PW, ITERS, BUF).unwrap();
    let result = decrypt_container(&container, PW, ITERS + 1, BUF);
    assert_eq!(result.unwrap_err(), ContainerError::InvalidPassword);
}

fn tampered(container: &[u8], index: usize, bit: u8) -> Vec<u8> {
    let mut copy = container.to_vec();
    copy[index] ^= 1 << bit;
    copy
}

#[test]
fn tampering_with_wrapped_file_key_fails_closed() {
    let container = encrypt_container(b"payload under test", PW, ITERS, BUF).unwrap();
    // wrapped_file_key occupies bytes 84..132 of the token
    for &index in &[84usize, 100, 131] {
        let bad = tampered(&container, index, 0);
        let result = decrypt_container(&bad, PW, ITERS, BUF);
        assert_eq!(result.unwrap_err(), ContainerError::InvalidPassword);
    }
}

#[test]
fn tampering_with_integrity_tag_fails_closed() {
    let container = encrypt_container(b"payload under test", PW, ITERS, BUF).unwrap();
    // integrity_tag occupies bytes 132..196 of the token
    for &index in &[132usize, 160, 195] {
        let bad = tampered(&container, index, 3);
        let result = decrypt_container(&bad, PW, ITERS, BUF);
        assert_eq!(result.unwrap_err(), ContainerError::InvalidPassword);
    }
}

#[test]
fn tampering_with_salt_or_wrap_iv_fails_closed() {
    let container = encrypt_container(b"payload under test", PW, ITERS, BUF).unwrap();
    // salt occupies bytes 4..68, wrap_iv bytes 68..84
    for &index in &[4usize, 67, 68, 83] {
        let bad = tampered(&container, index, 7);
        let result = decrypt_container(&bad, PW, ITERS, BUF);
        assert_eq!(result.unwrap_err(), ContainerError::InvalidPassword);
    }
}

#[test]
fn tampering_with_ciphertext_body_fails_with_tag_mismatch() {
    let container = encrypt_container(b"payload under test", PW, ITERS, BUF).unwrap();
    let bad = tampered(&container, HEADER_SIZE, 0);
    let result = decrypt_container(&bad, PW, ITERS, BUF);
    assert_eq!(result.unwrap_err(), ContainerError::TagMismatch);
}

#[test]
fn tampering_with_auth_tag_fails_with_tag_mismatch() {
    let container = encrypt_container(b"payload under test", PW, ITERS, BUF).unwrap();
    let last = container.len() - 1;
    let bad = tampered(&container, last, 5);
    let result = decrypt_container(&bad, PW, ITERS, BUF);
    assert_eq!(result.unwrap_err(), ContainerError::TagMismatch);
}

#[test]
fn swapped_header_fails_finalization() {
    // Two containers that share password, file key and token randomness but
    // use different stream nonces: grafting one header onto the other body
    // must fail the stream tag check, proving associated-data binding.
    let payload = b"the very same payload";
    let file_key = [9u8; 32];
    let salt = [11u8; 64];
    let wrap_iv = [12u8; 16];
    let one =
        encrypt_container_with(payload, PW, &file_key, &salt, &wrap_iv, &[13u8; 32], ITERS, BUF)
            .unwrap();
    let two =
        encrypt_container_with(payload, PW, &file_key, &salt, &wrap_iv, &[14u8; 32], ITERS, BUF)
            .unwrap();
    let mut grafted = one[..HEADER_SIZE].to_vec();
    grafted.extend_from_slice(&two[HEADER_SIZE..]);
    let result = decrypt_container(&grafted, PW, ITERS, BUF);
    assert_eq!(result.unwrap_err(), ContainerError::TagMismatch);
}

#[test]
fn token_region_has_fixed_layout() {
    let file_key = [21u8; 32];
    let salt = [22u8; 64];
    let wrap_iv = [23u8; 16];
    let stream_iv = [24u8; 32];
    let container =
        encrypt_container_with(b"abc", PW, &file_key, &salt, &wrap_iv, &stream_iv, ITERS, BUF)
            .unwrap();
    assert_eq!(&container[..4], &[0u8, 0, 0, 1]);
    assert_eq!(&container[4..68], &salt[..]);
    assert_eq!(&container[68..84], &wrap_iv[..]);
    assert_eq!(&container[TOKEN_SIZE..HEADER_SIZE], &stream_iv[..]);
}
