use ota_server::checksum::_verify_checksum;
use ota_server::checksum::calculate_file_checksum;
use ota_server::checksum::digest_matches;
use ota_server::checksum::format_checksum;
use ota_server::checksum::to_hex;
use ota_server::checksum::ChecksumAccumulator;
use ota_server::checksum::CHECKSUM_LENGTH;
use ota_server::checksum::DIGEST_LENGTH;
use sha2::Digest;

const HELLO: &str = "sha256:b94d27b9934d3e08a52e52d7da7dabfac484efe37a5380ee9088f7ace2efcde9";
const EMPTY: &str = "sha256:e3b0c44298fc1c149afbf4c8996fb92427ae41e4649b934ca495991b7852b855";

#[test]
fn test_verify_checksum() {
    let data = b"hello world";
    let checksum = "sha256:b94d27b9934d3e08a52e52d7da7dabfac484efe37a5380ee9088f7ace2efcde9";
    assert!(_verify_checksum(data, checksum));
}

#[test]
fn checksum_of_known_text() {
    assert_eq!(calculate_file_checksum(b"hello world"), HELLO);
}

#[test]
fn checksum_of_nothing() {
    assert_eq!(calculate_file_checksum(b""), EMPTY);
    assert!(_verify_checksum(b"", EMPTY));
}

#[test]
fn checksum_is_not_the_input() {
    let checksum = calculate_file_checksum(b"abc");
    assert_eq!(
        checksum,
        "sha256:ba7816bf8f01cfea414140de5dae2223b00361a396177a9cb410ff61f20015ad"
    );
    assert_eq!(checksum.len(), 7 + 64);
}

#[test]
fn verify_accepts_what_was_computed() {
    let samples: Vec<Vec<u8>> = vec![
        vec![],
        vec![0],
        vec![255; 3],
        b"zImage contents".to_vec(),
        (0..=255u8).collect(),
        vec![7; 20000],
    ];
    for data in &samples {
        let checksum = calculate_file_checksum(data);
        assert!(_verify_checksum(data, &checksum));
    }
}

#[test]
fn verify_rejects_another_digest() {
    assert!(!_verify_checksum(b"hello world", EMPTY));
    assert!(!_verify_checksum(b"hello world!", HELLO));
    assert!(!_verify_checksum(b"", HELLO));
}

#[test]
fn verify_rejects_text_without_the_tag() {
    assert!(!_verify_checksum(
        b"hello world",
        "b94d27b9934d3e08a52e52d7da7dabfac484efe37a5380ee9088f7ace2efcde9"
    ));
    assert!(!_verify_checksum(
        b"hello world",
        "md5:b94d27b9934d3e08a52e52d7da7dabfac484efe37a5380ee9088f7ace2efcde9"
    ));
    assert!(!_verify_checksum(
        b"hello world",
        "SHA256:b94d27b9934d3e08a52e52d7da7dabfac484efe37a5380ee9088f7ace2efcde9"
    ));
    assert!(!_verify_checksum(b"hello world", ""));
    assert!(!_verify_checksum(b"hello world", "sha256:"));
}

#[test]
fn verify_rejects_upper_case_and_padding() {
    assert!(!_verify_checksum(
        b"hello world",
        "sha256:B94D27B9934D3E08A52E52D7DA7DABFAC484EFE37A5380EE9088F7ACE2EFCDE9"
    ));
    assert!(!_verify_checksum(
        b"hello world",
        "sha256:b94d27b9934d3e08a52e52d7da7dabfac484efe37a5380ee9088f7ace2efcde9 "
    ));
    assert!(!_verify_checksum(
        b"hello world",
        "sha256:b94d27b9934d3e08a52e52d7da7dabfac484efe37a5380ee9088f7ace2efcde"
    ));
}

#[test]
fn hex_is_lower_case_high_nibble_first() {
    assert_eq!(to_hex(&[]), "");
    assert_eq!(to_hex(&[0x00]), "00");
    assert_eq!(to_hex(&[0x0f, 0xf0]), "0ff0");
    assert_eq!(to_hex(&[0x01, 0x23, 0x45, 0x67, 0x89, 0xab, 0xcd, 0xef]), "0123456789abcdef");
    assert_eq!(to_hex(&[0xff, 0x10, 0x9a]), "ff109a");
}

#[test]
fn format_checksum_tags_the_digest() {
    assert_eq!(format_checksum(&[0xde, 0xad, 0xbe, 0xef]), "sha256:deadbeef");
    assert_eq!(format_checksum(&[]), "sha256:");
}

#[test]
fn digest_matches_compares_the_whole_text() {
    assert!(digest_matches(&[0xde, 0xad], "sha256:dead"));
    assert!(!digest_matches(&[0xde, 0xad], "sha256:DEAD"));
    assert!(!digest_matches(&[0xde, 0xad], "dead"));
    assert!(!digest_matches(&[0xde, 0xad], "sha256:dea"));
    assert!(!digest_matches(&[0xde, 0xad], "sha256:deadbe"));
}

#[test]
fn accumulator_without_input_gives_the_empty_checksum() {
    assert_eq!(ChecksumAccumulator::new().finalize(), EMPTY);
}

#[test]
fn chunking_does_not_change_the_checksum() {
    let data: Vec<u8> = (0..50_000u32).map(|i| (i % 251) as u8).collect();
    let whole = calculate_file_checksum(&data);
    for chunk_size in [1usize, 7, 64, 8192, 50_000, 100_000] {
        let mut accumulator = ChecksumAccumulator::new();
        for chunk in data.chunks(chunk_size) {
            accumulator.update(chunk);
        }
        assert_eq!(accumulator.finalize(), whole);
    }
}

#[test]
fn accumulator_keeps_the_order_of_chunks() {
    let mut forward = ChecksumAccumulator::new();
    forward.update(b"hello ");
    forward.update(b"world");
    assert_eq!(forward.finalize(), HELLO);

    let mut backward = ChecksumAccumulator::new();
    backward.update(b"world");
    backward.update(b"hello ");
    assert_ne!(backward.finalize(), HELLO);
}

#[test]
fn empty_chunks_change_nothing() {
    let mut accumulator = ChecksumAccumulator::new();
    accumulator.update(b"");
    accumulator.update(b"hello world");
    accumulator.update(b"");
    assert_eq!(accumulator.finalize(), HELLO);
}

#[test]
fn every_checksum_has_the_same_form() {
    assert_eq!(DIGEST_LENGTH, 32);
    assert_eq!(CHECKSUM_LENGTH, 71);
    for data in [&b""[..], &b"a"[..], &b"hello world"[..], &[0u8; 1000][..]] {
        let checksum = calculate_file_checksum(data);
        assert_eq!(checksum.len(), CHECKSUM_LENGTH);
        assert!(checksum.starts_with("sha256:"));
        assert!(checksum[7..].chars().all(|c| c.is_ascii_digit() || ('a'..='f').contains(&c)));
    }
}

#[test]
fn checksum_agrees_with_the_hasher_used_directly() {
    let data = b"The quick brown fox jumps over the lazy dog";
    let digest = sha2::Sha256::digest(data);
    assert_eq!(calculate_file_checksum(data), format_checksum(&digest));
    assert_eq!(
        calculate_file_checksum(data),
        "sha256:d7a8fbb307d7809469ca9abcb0082e4f8d5651e46d3cdb762d02d0bf37c9e592"
    );
}
