//! Random tokens and the checks of what a checkpoint reads.

use a3s_oci_runtime::error::ErrorCode;
use a3s_oci_runtime::native_checkpoint::artifact::{
    check_image_destination, check_image_directory, check_image_file,
};
use a3s_oci_runtime::native_checkpoint::draw::{
    draw_journal_nonce, draw_publication_token, journal_nonce_of, publication_token_of,
    NONCE_BYTES,
};
use a3s_oci_runtime::native_checkpoint::state::FileKind;
use a3s_oci_runtime::native_checkpoint::tool::check_init_executable;

#[test]
fn drawn_tokens_are_the_bytes_that_were_drawn() {
    let bytes: Vec<u8> = (0u8..32).collect();
    let token = publication_token_of(Ok(bytes.clone())).expect("token");
    assert_eq!(token.to_vec(), bytes);
    let error = publication_token_of(Err("no entropy".to_string())).expect_err("no token");
    assert_eq!(error.code, ErrorCode::Unavailable);
    assert_eq!(
        error.message,
        "failed to generate checkpoint publication token: no entropy"
    );
}

#[test]
fn two_tokens_differ() {
    let first = draw_publication_token().expect("token");
    let second = draw_publication_token().expect("token");
    assert_ne!(first, second);
    assert_ne!(first, [0u8; 32]);
}

#[test]
fn journal_nonces_have_their_length() {
    let nonce = draw_journal_nonce("checkpoint").expect("nonce");
    assert_eq!(nonce.len(), NONCE_BYTES);
    assert_eq!(
        journal_nonce_of("checkpoint", Ok(vec![1, 2])).expect("nonce"),
        vec![1, 2]
    );
    let error = journal_nonce_of("restore", Err("no entropy".to_string())).expect_err("none");
    assert_eq!(error.code, ErrorCode::Unavailable);
    assert_eq!(
        error.message,
        "failed to generate restore journal nonce: no entropy"
    );
}

#[test]
fn images_are_plain_files_in_a_real_directory() {
    assert!(check_image_directory("/images", FileKind::Directory).is_ok());
    assert_eq!(
        check_image_directory("/images", FileKind::Symlink)
            .expect_err("link")
            .message,
        "CRIU image path is not a real directory: /images"
    );
    assert!(check_image_file("core.img", FileKind::Regular).is_ok());
    let error = check_image_file("core.img", FileKind::Socket).expect_err("socket");
    assert_eq!(error.code, ErrorCode::FailedPrecondition);
    assert_eq!(error.message, "CRIU image core.img is not a regular file");
}

#[test]
fn images_are_unpacked_into_an_empty_directory() {
    assert!(check_image_destination("/out", FileKind::Directory, true).is_ok());
    assert_eq!(
        check_image_destination("/out", FileKind::Directory, false)
            .expect_err("occupied")
            .message,
        "restore image destination is not empty: /out"
    );
    assert_eq!(
        check_image_destination("/out", FileKind::Symlink, true)
            .expect_err("link")
            .message,
        "restore image destination is not a real directory: /out"
    );
}

#[test]
fn the_init_executable_is_a_regular_file() {
    assert!(check_init_executable("/init", FileKind::Regular).is_ok());
    let error = check_init_executable("/init", FileKind::Directory).expect_err("directory");
    assert_eq!(error.code, ErrorCode::FailedPrecondition);
    assert_eq!(
        error.message,
        "checkpoint init executable is not a regular file: /init"
    );
}
