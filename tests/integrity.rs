use mcl_rs::integrity::{assess, content_digest, digest_equals, LocalFile, Validity};

const ABC_SHA1: &str = "a9993e364706816aba3e25717850c26c9cd0d89d";

#[test]
fn digest_of_known_content() {
    assert_eq!(content_digest(b"abc"), ABC_SHA1);
    assert_eq!(content_digest(b""), "da39a3ee5e6b4b0d3255bfef95601890afd80709");
}

#[test]
fn digest_comparison_lowers_expected() {
    assert!(digest_equals(ABC_SHA1, "A9993E364706816ABA3E25717850C26C9CD0D89D"));
    assert!(digest_equals(ABC_SHA1, ABC_SHA1));
    assert!(!digest_equals(ABC_SHA1, "a9993e364706816aba3e25717850c26c9cd0d89e"));
    assert!(!digest_equals(ABC_SHA1, "a9993e"));
    // Only the expected side is lowered.
    assert!(!digest_equals("AB", "ab"));
}

#[test]
fn missing_file_is_invalid() {
    assert_eq!(assess(&LocalFile::Missing, ABC_SHA1, 3), Validity::Invalid);
}

#[test]
fn wrong_length_is_invalid_without_reading() {
    assert_eq!(assess(&LocalFile::Stat { len: 4 }, ABC_SHA1, 3), Validity::Invalid);
    assert_eq!(assess(&LocalFile::Stat { len: 3 }, ABC_SHA1, 3), Validity::NeedsContent);
}

#[test]
fn mismatching_size_or_hash_is_invalid() {
    let content = b"abc".to_vec();
    assert_eq!(assess(&LocalFile::Loaded { content: content.clone() }, ABC_SHA1, 4), Validity::Invalid);
    assert_eq!(
        assess(&LocalFile::Loaded { content: b"abd".to_vec() }, ABC_SHA1, 3),
        Validity::Invalid
    );
    assert_eq!(
        assess(&LocalFile::Loaded { content }, "0000000000000000000000000000000000000000", 3),
        Validity::Invalid
    );
}

#[test]
fn matching_size_and_hash_is_valid() {
    assert_eq!(assess(&LocalFile::Loaded { content: b"abc".to_vec() }, ABC_SHA1, 3), Validity::Valid);
    assert_eq!(
        assess(
            &LocalFile::Loaded { content: b"abc".to_vec() },
            "A9993E364706816ABA3E25717850C26C9CD0D89D",
            3
        ),
        Validity::Valid
    );
}
