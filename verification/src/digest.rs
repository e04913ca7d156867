//! SHA-256 digests and the text forms that records and reports keep of them.

use vstd::prelude::*;
use sha2::Digest;
use crate::text::{
    after_prefix, all_lower_hex, chars_of, encode_hex, hex_text, hex_text_is_lower_hex,
    lower_hex_of_length, strip_prefix,
};

verus! {

/// The incremental SHA-256 hasher of the `sha2` crate.
#[verifier::external_body]
pub struct Sha256Hasher {
    inner: sha2::Sha256,
}

/// The bytes a hasher has taken in since it was made, in order.
pub uninterp spec fn absorbed(hasher: Sha256Hasher) -> Seq<u8>;

/// The SHA-256 digest of a byte sequence.
pub uninterp spec fn sha256(bytes: Seq<u8>) -> Seq<u8>;

/// `Sha256::new` makes a hasher that has taken in nothing.
#[verifier::external_body]
pub(crate) fn hasher_new() -> (hasher: Sha256Hasher)
    ensures
        absorbed(hasher) == Seq::<u8>::empty(),
{
    Sha256Hasher { inner: sha2::Sha256::new() }
}

/// `Digest::update` takes in the given bytes after those taken in before.
#[verifier::external_body]
pub(crate) fn hasher_update(hasher: &mut Sha256Hasher, bytes: &[u8])
    ensures
        absorbed(*final(hasher)) == absorbed(*old(hasher)) + bytes@,
{
    hasher.inner.update(bytes);
}

/// `Digest::finalize` gives the 32-byte SHA-256 digest of everything taken in.
#[verifier::external_body]
pub(crate) fn hasher_finalize(hasher: Sha256Hasher) -> (digest: Vec<u8>)
    ensures
        digest@ == sha256(absorbed(hasher)),
        digest@.len() == 32,
{
    hasher.inner.finalize().to_vec()
}

/// Prefix of a digest that names its algorithm.
pub const DIGEST_PREFIX: &'static str = "sha256:";

/// The SHA-256 digest of bytes in lowercase hexadecimal.
pub open spec fn digest_hex(bytes: Seq<u8>) -> Seq<char> {
    hex_text(sha256(bytes))
}

/// The SHA-256 digest of bytes with its algorithm prefix.
pub open spec fn digest_text(bytes: Seq<u8>) -> Seq<char> {
    DIGEST_PREFIX@ + digest_hex(bytes)
}

/// 64 lowercase hexadecimal digits.
pub open spec fn is_sha256(value: Seq<char>) -> bool {
    value.len() == 64 && all_lower_hex(value)
}

/// The algorithm prefix and 64 lowercase hexadecimal digits.
pub open spec fn is_sha256_digest(value: Seq<char>) -> bool {
    after_prefix(value, DIGEST_PREFIX@) matches Some(rest) && is_sha256(rest)
}

/// 40 lowercase hexadecimal digits.
pub open spec fn is_git_revision(value: Seq<char>) -> bool {
    value.len() == 40 && all_lower_hex(value)
}

/// Hashes bytes into lowercase hexadecimal.
pub fn sha256_hex(bytes: &[u8]) -> (text: String)
    ensures
        text@ == digest_hex(bytes@),
        is_sha256(text@),
{
    let mut hasher = hasher_new();
    hasher_update(&mut hasher, bytes);
    assert(Seq::<u8>::empty() + bytes@ =~= bytes@);
    let digest = hasher_finalize(hasher);
    proof {
        hex_text_is_lower_hex(digest@);
    }
    encode_hex(&digest)
}

/// Hashes bytes into a digest with its algorithm prefix.
pub fn sha256_digest(bytes: &[u8]) -> (text: String)
    ensures
        text@ == digest_text(bytes@),
        is_sha256_digest(text@),
{
    let mut hasher = hasher_new();
    hasher_update(&mut hasher, bytes);
    assert(Seq::<u8>::empty() + bytes@ =~= bytes@);
    finish_digest(hasher)
}

/// The digest, with its algorithm prefix, of everything a hasher has taken in.
pub fn finish_digest(hasher: Sha256Hasher) -> (text: String)
    ensures
        text@ == digest_text(absorbed(hasher)),
        is_sha256_digest(text@),
{
    let digest = hasher_finalize(hasher);
    let mut text = DIGEST_PREFIX.to_owned();
    let hex = encode_hex(&digest);
    text.append(&hex);
    proof {
        hex_text_is_lower_hex(digest@);
        assert(DIGEST_PREFIX@.is_prefix_of(text@));
        assert(text@.skip(DIGEST_PREFIX@.len() as int) =~= hex@);
    }
    text
}

/// Whether a value is a bare SHA-256 digest in lowercase hexadecimal.
pub fn canonical_sha256(value: &str) -> (holds: bool)
    ensures
        holds == is_sha256(value@),
{
    lower_hex_of_length(&chars_of(value), 64)
}

/// Whether a value is a SHA-256 digest with its algorithm prefix.
pub fn canonical_sha256_digest(value: &str) -> (holds: bool)
    ensures
        holds == is_sha256_digest(value@),
{
    match strip_prefix(value, DIGEST_PREFIX) {
        Some(rest) => lower_hex_of_length(&rest, 64),
        None => false,
    }
}

/// Whether an optional value is there and is a SHA-256 digest with its prefix.
pub fn canonical_optional_digest(value: &Option<String>) -> (holds: bool)
    ensures
        holds == (value is Some && is_sha256_digest(value->0@)),
{
    match value {
        Some(value) => canonical_sha256_digest(value),
        None => false,
    }
}

/// Whether a value is a full Git revision in lowercase hexadecimal.
pub fn canonical_git_revision(value: &str) -> (holds: bool)
    ensures
        holds == is_git_revision(value@),
{
    lower_hex_of_length(&chars_of(value), 40)
}

/// Digest of a file that is read piece by piece.
pub struct FileDigest {
    hasher: Sha256Hasher,
}

impl FileDigest {
    /// The bytes read so far.
    pub closed spec fn bytes(self) -> Seq<u8> {
        absorbed(self.hasher)
    }

    /// Nothing read yet.
    pub fn new() -> (digest: FileDigest)
        ensures
            digest.bytes() == Seq::<u8>::empty(),
    {
        FileDigest { hasher: hasher_new() }
    }

    /// Takes in the next piece.
    pub fn update(&mut self, piece: &[u8])
        ensures
            final(self).bytes() == old(self).bytes() + piece@,
    {
        hasher_update(&mut self.hasher, piece);
    }

    /// The digest of the whole file with its algorithm prefix.
    pub fn finish(self) -> (text: String)
        ensures
            text@ == digest_text(self.bytes()),
            is_sha256_digest(text@),
    {
        finish_digest(self.hasher)
    }

    /// The digest of the whole file in bare hexadecimal.
    pub fn finish_hex(self) -> (text: String)
        ensures
            text@ == digest_hex(self.bytes()),
            is_sha256(text@),
    {
        let digest = hasher_finalize(self.hasher);
        proof {
            hex_text_is_lower_hex(digest@);
        }
        encode_hex(&digest)
    }
}

/// A digest is 64 lowercase hexadecimal digits, with the algorithm ahead of them where it
/// is named, and a revision is 40.
pub proof fn digests_are_hexadecimal(value: Seq<char>, place: int)
    ensures
        is_sha256(value) ==> value.len() == 64,
        is_git_revision(value) ==> value.len() == 40,
        (is_sha256(value) || is_git_revision(value)) && 0 <= place < value.len() ==> '0'
            <= value[place] <= '9' || 'a' <= value[place] <= 'f',
        is_sha256_digest(value) ==> value.len() == "sha256:"@.len() + 64 && value.take(
            "sha256:"@.len() as int,
        ) == "sha256:"@ && is_sha256(value.skip("sha256:"@.len() as int)),
        is_sha256(value) ==> is_sha256_digest("sha256:"@ + value),
{
    let prefix = "sha256:"@;
    if (is_sha256(value) || is_git_revision(value)) && 0 <= place < value.len() {
        assert(crate::text::is_lower_hex(value[place]));
    }
    if is_sha256_digest(value) {
        assert(value.take(prefix.len() as int) =~= prefix);
    }
    let named = prefix + value;
    assert(prefix.is_prefix_of(named));
    assert(named.skip(prefix.len() as int) =~= value);
}

} // verus!
