use deploy_tools::digest::{content_digest, digests_match};
use deploy_tools::file::FileHandler;
use deploy_tools::sftp::SftpHandler;
use deploy_tools::upload::SftpUpload;

#[test]
fn digest_is_sha256_in_lower_case_hexadecimal() {
    assert_eq!(
        content_digest(b"crypto-hash"),
        "fd1afb6022cd4d47c890961c533928eacfe8219f1b2524f7fb2a61847ddf8c27"
    );
    assert_eq!(
        content_digest(b""),
        "e3b0c44298fc1c149afbf4c8996fb92427ae41e4649b934ca495991b7852b855"
    );
    assert_eq!(
        content_digest(b"abc"),
        "ba7816bf8f01cfea414140de5dae2223b00361a396177a9cb410ff61f20015ad"
    );
}

#[test]
fn equal_bytes_have_equal_digests() {
    let a = vec![1u8, 2, 3, 4, 5];
    let b = vec![1u8, 2, 3, 4, 5];
    assert_eq!(content_digest(&a), content_digest(&b));
    assert_eq!(content_digest(&a).len(), 64);
}

#[test]
fn different_bytes_have_different_digests() {
    assert_ne!(content_digest(b"index v1"), content_digest(b"index v2"));
    assert_ne!(content_digest(b""), content_digest(b"\0"));
}

#[test]
fn a_missing_file_has_an_empty_digest() {
    assert_eq!(SftpHandler::get_file_hash(None), "");
    assert_eq!(FileHandler::get_file_hash(None), "");
}

#[test]
fn a_file_has_the_digest_of_its_content() {
    let data: &[u8] = b"abc";
    let expected = "ba7816bf8f01cfea414140de5dae2223b00361a396177a9cb410ff61f20015ad";
    assert_eq!(SftpHandler::get_file_hash(Some(data)), expected);
    assert_eq!(FileHandler::get_file_hash(Some(data)), expected);
}

#[test]
fn digests_match_only_when_both_are_there_and_equal() {
    assert!(digests_match("abc", "abc"));
    assert!(!digests_match("abc", "abd"));
    assert!(!digests_match("", ""));
    assert!(!digests_match("abc", ""));
    assert!(!digests_match("", "abc"));
    assert!(SftpUpload::compare_two_file_hash("ff00", "ff00"));
    assert!(!SftpUpload::compare_two_file_hash("ff00", "FF00"));
    assert!(!SftpUpload::compare_two_file_hash("", ""));
}
