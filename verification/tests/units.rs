//! Tests of the component layers: key derivation, the token codec, the stream
//! engine, input validation, password strength and path helpers.

use stic::constants::{HEADER_SIZE, MAX_FILE_SIZE, STREAM_TAG_SIZE, TOKEN_SIZE};
use stic::derivation::key_from_password;
use stic::errors::{ContainerError, ValidationError};
use stic::password::verify_password;
use stic::paths::{
    get_decrypted_path, get_encrypted_path, path_has_ic_extension, strip_trailing_separator,
    validate_decryption, validate_encryption, TmpPath,
};
use stic::stream::{decrypt_stream, encrypt_stream, StreamDecryptor, StreamEncryptor};
use stic::token::{mint_token, open_token};

const ITERS: usize = 1_000;
const PW: &[u8] = b"Abc123!xyzW";

#[test]
fn derivation_is_deterministic() {
    let salt = [5u8; 64];
    let one = key_from_password(PW, &salt, ITERS).unwrap();
    let two = key_from_password(PW, &salt, ITERS).unwrap();
    assert_eq!(one, two);
    assert_eq!(one.len(), 64);
}

#[test]
fn derivation_depends_on_salt_password_and_iterations() {
    let salt = [5u8; 64];
    let other_salt = [6u8; 64];
    let base = key_from_password(PW, &salt, ITERS).unwrap();
    assert_ne!(base, key_from_password(PW, &other_salt, ITERS).unwrap());
    assert_ne!(base, key_from_password(b"Abc123!xyzX", &salt, ITERS).unwrap());
    assert_ne!(base, key_from_password(PW, &salt, ITERS + 1).unwrap());
}

#[test]
fn derived_key_is_not_an_echo_of_its_inputs() {
    let salt = [0u8; 64];
    let key = key_from_password(PW, &salt, ITERS).unwrap();
    assert_ne!(&key[..], &salt[..]);
    assert_ne!(&key[..PW.len()], PW);
}

#[test]
fn token_round_trip() {
    let file_key = [42u8; 32];
    let salt = [1u8; 64];
    let wrap_iv = [2u8; 16];
    let token = mint_token(PW, &file_key, &salt, &wrap_iv, ITERS).unwrap();
    assert_eq!(token.len(), TOKEN_SIZE);
    let back = open_token(PW, &token, ITERS).unwrap();
    assert_eq!(back, file_key);
}

#[test]
fn token_rejects_wrong_password() {
    let file_key = [42u8; 32];
    let token = mint_token(PW, &file_key, &[1u8; 64], &[2u8; 16], ITERS).unwrap();
    let result = open_token(b"Abc123!xyzX", &token, ITERS);
    assert_eq!(result.unwrap_err(), ContainerError::InvalidPassword);
}

#[test]
fn token_rejects_any_flipped_bit_after_the_version() {
    // the integrity tag is recomputed over the constant format version, so
    // the authenticated region starts at the salt; a tampered version field
    // is caught earlier, by validate_decryption
    let file_key = [42u8; 32];
    let token = mint_token(PW, &file_key, &[1u8; 64], &[2u8; 16], ITERS).unwrap();
    for index in 4..TOKEN_SIZE {
        let mut bad = token.clone();
        bad[index] ^= 1;
        let result = open_token(PW, &bad, ITERS);
        assert_eq!(result.unwrap_err(), ContainerError::InvalidPassword);
    }
}

#[test]
fn stream_round_trip_and_lengths() {
    let key = [3u8; 32];
    let iv = [4u8; 32];
    let payload: Vec<u8> = (0..777u32).map(|i| (i % 256) as u8).collect();
    let (body, tag) = encrypt_stream(&key, &iv, &payload, 100).unwrap();
    assert_eq!(body.len(), payload.len());
    assert_eq!(tag.len(), STREAM_TAG_SIZE);
    let back = decrypt_stream(&key, &iv, &body, &tag, 100).unwrap();
    assert_eq!(back, payload);
}

#[test]
fn stream_chunking_is_immaterial() {
    let key = [3u8; 32];
    let iv = [4u8; 32];
    let payload: Vec<u8> = (0..777u32).map(|i| (i * 3 % 256) as u8).collect();
    let (body_a, tag_a) = encrypt_stream(&key, &iv, &payload, 1).unwrap();
    let (body_b, tag_b) = encrypt_stream(&key, &iv, &payload, 4096).unwrap();
    assert_eq!(body_a, body_b);
    assert_eq!(tag_a, tag_b);
}

#[test]
fn chunked_stream_matches_one_shot() {
    let key = [3u8; 32];
    let iv = [4u8; 32];
    let payload: Vec<u8> = (0..500u32).map(|i| (i * 11 % 256) as u8).collect();
    let (body, tag) = encrypt_stream(&key, &iv, &payload, 4096).unwrap();

    let mut encryptor = StreamEncryptor::new(&key, &iv).unwrap();
    let mut chunked_body = Vec::new();
    for chunk in payload.chunks(64) {
        chunked_body.extend_from_slice(&encryptor.push(chunk).unwrap());
    }
    let chunked_tag = encryptor.finish().unwrap();
    assert_eq!(chunked_body, body);
    assert_eq!(chunked_tag, tag);

    let mut decryptor = StreamDecryptor::new(&key, &iv).unwrap();
    let mut plain = Vec::new();
    for chunk in body.chunks(100) {
        plain.extend_from_slice(&decryptor.push(chunk).unwrap());
    }
    decryptor.finish(&tag).unwrap();
    assert_eq!(plain, payload);
}

#[test]
fn chunked_decryptor_rejects_bad_tag() {
    let key = [3u8; 32];
    let iv = [4u8; 32];
    let (body, mut tag) = encrypt_stream(&key, &iv, b"chunked data", 100).unwrap();
    tag[15] ^= 0x80;
    let mut decryptor = StreamDecryptor::new(&key, &iv).unwrap();
    decryptor.push(&body).unwrap();
    assert_eq!(decryptor.finish(&tag).unwrap_err(), ContainerError::TagMismatch);
}

#[test]
fn stream_rejects_bad_tag() {
    let key = [3u8; 32];
    let iv = [4u8; 32];
    let (body, mut tag) = encrypt_stream(&key, &iv, b"data", 100).unwrap();
    tag[0] ^= 1;
    let result = decrypt_stream(&key, &iv, &body, &tag, 100);
    assert_eq!(result.unwrap_err(), ContainerError::TagMismatch);
}

#[test]
fn stream_binds_the_nonce() {
    let key = [3u8; 32];
    let (body, tag) = encrypt_stream(&key, &[4u8; 32], b"data", 100).unwrap();
    let result = decrypt_stream(&key, &[5u8; 32], &body, &tag, 100);
    assert_eq!(result.unwrap_err(), ContainerError::TagMismatch);
}

#[test]
fn validate_encryption_accepts_ordinary_file() {
    assert!(validate_encryption("dir/photo.png", 1234).is_ok());
}

#[test]
fn validate_encryption_rejects_encrypted_extension() {
    assert_eq!(
        validate_encryption("dir/photo.png.ic", 1234).unwrap_err(),
        ValidationError::PathAlreadyEncrypted
    );
}

#[test]
fn validate_encryption_rejects_empty_file() {
    assert_eq!(validate_encryption("dir/photo.png", 0).unwrap_err(), ValidationError::EmptyFile);
}

#[test]
fn validate_encryption_rejects_oversized_file() {
    assert_eq!(
        validate_encryption("dir/photo.png", MAX_FILE_SIZE).unwrap_err(),
        ValidationError::FileTooBig
    );
}

#[test]
fn validate_decryption_accepts_plausible_container() {
    let version = [0u8, 0, 0, 1];
    let size = (HEADER_SIZE + STREAM_TAG_SIZE + 1) as u64;
    assert!(validate_decryption("dir/photo.png.ic", size, &version).is_ok());
}

#[test]
fn validate_decryption_rejects_missing_extension() {
    let version = [0u8, 0, 0, 1];
    assert_eq!(
        validate_decryption("dir/photo.png", 1000, &version).unwrap_err(),
        ValidationError::PathNotEncrypted
    );
}

#[test]
fn validate_decryption_rejects_bad_sizes() {
    let version = [0u8, 0, 0, 1];
    let too_small = (HEADER_SIZE + STREAM_TAG_SIZE) as u64;
    let too_big = MAX_FILE_SIZE + (HEADER_SIZE + STREAM_TAG_SIZE) as u64;
    assert_eq!(
        validate_decryption("a.ic", too_small, &version).unwrap_err(),
        ValidationError::InvalidFileSize
    );
    assert_eq!(
        validate_decryption("a.ic", too_big, &version).unwrap_err(),
        ValidationError::InvalidFileSize
    );
}

#[test]
fn validate_decryption_rejects_wrong_version() {
    let version = [0u8, 0, 0, 2];
    let size = (HEADER_SIZE + STREAM_TAG_SIZE + 1) as u64;
    assert_eq!(
        validate_decryption("a.ic", size, &version).unwrap_err(),
        ValidationError::WrongVersion
    );
}

#[test]
fn password_rules_accept_a_strong_password() {
    assert!(verify_password("Abc123!x").is_ok());
}

#[test]
fn password_rules_reject_short_and_long() {
    assert_eq!(verify_password("Ab1!x").unwrap_err(), ValidationError::PasswordTooShort);
    let long = "Ab1!".repeat(1001);
    assert_eq!(verify_password(&long).unwrap_err(), ValidationError::PasswordTooLong);
}

#[test]
fn password_rules_require_each_class() {
    assert_eq!(verify_password("ABC123!XY").unwrap_err(), ValidationError::MissingLowercase);
    assert_eq!(verify_password("abc123!xy").unwrap_err(), ValidationError::MissingUppercase);
    assert_eq!(verify_password("Abcdef!!g").unwrap_err(), ValidationError::MissingNumber);
    assert_eq!(verify_password("Abc123456").unwrap_err(), ValidationError::MissingSymbol);
}

#[test]
fn error_messages_are_stable() {
    assert_eq!(ContainerError::InvalidPassword.message(), "Invalid Password");
    assert_eq!(ValidationError::EmptyFile.message(), "File is empty");
}

#[test]
fn encrypted_path_appends_extension() {
    assert_eq!(get_encrypted_path("dir/photo.png"), "dir/photo.png.ic");
    assert!(path_has_ic_extension("dir/photo.png.ic"));
}

#[test]
fn decrypted_path_strips_extension() {
    assert_eq!(get_decrypted_path("dir/photo.png.ic"), "dir/photo.png");
}

#[test]
fn extension_detection_edge_cases() {
    assert!(path_has_ic_extension("a.ic"));
    assert!(path_has_ic_extension("dir/a.tar.ic"));
    assert!(!path_has_ic_extension(".ic"));
    assert!(!path_has_ic_extension("dir/.ic"));
    assert!(!path_has_ic_extension("dir/photo.png"));
}

#[test]
fn trailing_separator_is_stripped() {
    assert_eq!(strip_trailing_separator("dir/sub/"), "dir/sub");
    assert_eq!(strip_trailing_separator("dir\\sub\\"), "dir\\sub");
    assert_eq!(strip_trailing_separator("dir/sub"), "dir/sub");
    assert_eq!(strip_trailing_separator("/"), "/");
}

#[test]
fn tmp_path_has_the_right_shape() {
    let tmp = TmpPath::new("/some/parent");
    let path = tmp.path();
    assert_eq!(path.len(), "/some/parent".len() + 1 + 64);
    assert!(path.starts_with("/some/parent/"));
    let name = &path["/some/parent/".len()..];
    assert!(name.chars().all(|c| "0123456789abdef".contains(c)));
}

#[test]
fn tmp_paths_are_collision_free_in_practice() {
    let one = TmpPath::new("p");
    let two = TmpPath::new("p");
    assert_ne!(one.path(), two.path());
}
