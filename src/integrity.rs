//! Whether a local file already satisfies its descriptor.
use vstd::prelude::*;
use crate::text::is_ascii_upper;

verus! {

/// The SHA-1 digest of `data`.
pub uninterp spec fn sha1_of(data: Seq<u8>) -> Seq<u8>;

/// Relies on sha1::Sha1 through digest::Digest::digest: the SHA-1 digest of
/// `data`, which is 20 bytes long.
#[verifier::external_body]
fn sha1_digest(data: &[u8]) -> (r: Vec<u8>)
    ensures
        r@ == sha1_of(data@),
        r@.len() == 20,
{
    <sha1::Sha1 as sha1::Digest>::digest(data).to_vec()
}

pub open spec fn hex_digit(n: int) -> char {
    seq!['0', '1', '2', '3', '4', '5', '6', '7', '8', '9', 'a', 'b', 'c', 'd', 'e', 'f'][n]
}

/// Each byte as two lowercase hexadecimal digits, high digit first.
pub open spec fn hex_lower(b: Seq<u8>) -> Seq<char>
    decreases b.len(),
{
    if b.len() == 0 {
        Seq::empty()
    } else {
        hex_lower(b.drop_last()) + seq![hex_digit(b.last() as int / 16), hex_digit(b.last() as int % 16)]
    }
}

/// Relies on hex::encode: two lowercase hex digits per byte, in order.
#[verifier::external_body]
fn hex_encode(data: &[u8]) -> (r: String)
    ensures
        r@ == hex_lower(data@),
{
    hex::encode(data)
}

/// `d` is `e` with its ASCII upper-case letters lowered.
pub open spec fn is_lowered(d: Seq<char>, e: Seq<char>) -> bool {
    &&& d.len() == e.len()
    &&& forall|i: int|
        0 <= i < d.len() ==> (#[trigger] d[i] == e[i] || (is_ascii_upper(e[i]) && e[i] as u32 + 32
            == d[i] as u32))
}

/// The lowercase hex digest of `content`.
pub open spec fn digest_text(content: Seq<u8>) -> Seq<char> {
    hex_lower(sha1_of(content))
}

/// `content` has the expected size and, up to the case of `hash`, the expected digest.
pub open spec fn content_matches(content: Seq<u8>, hash: Seq<char>, size: u64) -> bool {
    &&& content.len() == size
    &&& is_lowered(digest_text(content), hash)
}

/// What is known of a local file so far.
#[derive(Debug)]
pub enum LocalFile {
    /// Nothing exists at the path.
    Missing,
    /// The file exists with this length; its content has not been read.
    Stat { len: u64 },
    /// The file's full content.
    Loaded { content: Vec<u8> },
}

/// The integrity decision, or what is needed to make it.
#[derive(Clone, Copy, Debug, PartialEq, Eq, Structural)]
pub enum Validity {
    Valid,
    Invalid,
    /// The length matches; the content must be read and hashed.
    NeedsContent,
}

pub open spec fn assessment(local: LocalFile, hash: Seq<char>, size: u64) -> Validity {
    match local {
        LocalFile::Missing => Validity::Invalid,
        LocalFile::Stat { len } => if len == size {
            Validity::NeedsContent
        } else {
            Validity::Invalid
        },
        LocalFile::Loaded { content } => if content_matches(content@, hash, size) {
            Validity::Valid
        } else {
            Validity::Invalid
        },
    }
}

/// The lowercase hex SHA-1 digest of `content`.
pub fn content_digest(content: &[u8]) -> (r: String)
    ensures
        r@ == digest_text(content@),
{
    let digest = sha1_digest(content);
    hex_encode(digest.as_slice())
}

/// Whether `digest` is `expected` with ASCII letters lowered.
pub fn digest_equals(digest: &str, expected: &str) -> (r: bool)
    ensures
        r == is_lowered(digest@, expected@),
{
    let n = digest.unicode_len();
    if n != expected.unicode_len() {
        return false;
    }
    let mut i: usize = 0;
    while i < n
        invariant
            n == digest@.len(),
            n == expected@.len(),
            i <= n,
            forall|j: int|
                0 <= j < i ==> (#[trigger] digest@[j] == expected@[j] || (is_ascii_upper(expected@[j])
                    && expected@[j] as u32 + 32 == digest@[j] as u32)),
        decreases n - i,
    {
        let d = digest.get_char(i);
        let e = expected.get_char(i);
        let upper = 'A' <= e && e <= 'Z';
        if !(d == e || (upper && e as u32 + 32 == d as u32)) {
            return false;
        }
        i = i + 1;
    }
    true
}

/// Decides whether a local file satisfies the expected digest and size.
///
/// A missing file is invalid. A file whose length differs is invalid
/// without its content being read. Otherwise the content decides: it is
/// valid iff its size and digest both match.
pub fn assess(local: &LocalFile, expected_sha1: &str, expected_size: u64) -> (r: Validity)
    ensures
        r == assessment(*local, expected_sha1@, expected_size),
{
    match local {
        LocalFile::Missing => Validity::Invalid,
        LocalFile::Stat { len } => {
            if *len == expected_size {
                Validity::NeedsContent
            } else {
                Validity::Invalid
            }
        },
        LocalFile::Loaded { content } => {
            if content.len() as u64 != expected_size {
                return Validity::Invalid;
            }
            let digest = content_digest(content.as_slice());
            if digest_equals(digest.as_str(), expected_sha1) {
                Validity::Valid
            } else {
                Validity::Invalid
            }
        },
    }
}

/// A local file whose size or digest differs from the descriptor is never
/// valid, whether only its length is known or its whole content.
pub proof fn lemma_mismatch_is_invalid(content: Vec<u8>, hash: Seq<char>, size: u64)
    requires
        content@.len() != size || !is_lowered(digest_text(content@), hash),
    ensures
        assessment(LocalFile::Loaded { content }, hash, size) == Validity::Invalid,
        content@.len() != size && content@.len() <= u64::MAX ==> assessment(
            LocalFile::Stat { len: content@.len() as u64 },
            hash,
            size,
        ) == Validity::Invalid,
{
}

/// No ASCII upper-case letter occurs in `s`, as in a lowercase hex digest.
pub open spec fn has_no_ascii_upper(s: Seq<char>) -> bool {
    forall|i: int| 0 <= i < s.len() ==> !is_ascii_upper(#[trigger] s[i])
}

/// For a lowercase expected digest, the comparison is plain equality: a file
/// whose size differs, or whose digest differs from the expected one, is invalid.
pub proof fn lemma_mismatch_lowercase_is_invalid(content: Vec<u8>, hash: Seq<char>, size: u64)
    requires
        has_no_ascii_upper(hash),
        content@.len() != size || digest_text(content@) != hash,
    ensures
        assessment(LocalFile::Loaded { content }, hash, size) == Validity::Invalid,
{
    if is_lowered(digest_text(content@), hash) {
        assert(digest_text(content@) =~= hash);
    }
}

/// A local file whose size and digest both match the descriptor is valid:
/// its length check asks for the content, and the content is accepted.
pub proof fn lemma_match_is_valid(content: Vec<u8>, hash: Seq<char>, size: u64)
    requires
        content_matches(content@, hash, size),
    ensures
        assessment(LocalFile::Stat { len: size }, hash, size) == Validity::NeedsContent,
        assessment(LocalFile::Loaded { content }, hash, size) == Validity::Valid,
{
}

} // verus!
