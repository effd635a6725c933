//! Content digests for the thumbnail cache.
//!
//! A gallery entry is cached under a digest of the `file://`-prefixed string
//! form of its path — not of the file's bytes — so the digest is a pure
//! function of the path string: stable across runs, indifferent to the
//! file's contents or existence.

use vstd::prelude::*;

verus! {

/// The canonical-looking URI form of a path: the path string behind a
/// `file://` scheme prefix. Cache idempotence only needs this form to be
/// reproducible, so no filesystem canonicalization takes place.
pub open spec fn uri_of(path: Seq<char>) -> Seq<char> {
    "file://"@ + path
}

/// The lower-case hexadecimal MD5 digest of a string's bytes, named here as
/// an opaque function: it depends on the characters alone.
pub uninterp spec fn md5_hex_of(s: Seq<char>) -> Seq<char>;

/// The cache key of a path: the digest of its URI form.
pub open spec fn digest_of(path: Seq<char>) -> Seq<char> {
    md5_hex_of(uri_of(path))
}

/// Relies on md5::compute and the md5 crate's LowerHex rendering: the digest
/// of the input bytes, written as 16 bytes of two lower-case hex digits
/// each, a function of the input string alone.
#[verifier::external_body]
fn md5_hex(s: &str) -> (r: String)
    ensures
        r@ == md5_hex_of(s@),
        r@.len() == 32,
{
    format!("{:x}", md5::compute(s.as_bytes()))
}

/// Builds the URI form of a path.
pub fn file_uri(path: &String) -> (r: String)
    ensures
        r@ == uri_of(path@),
{
    let mut uri = String::from_str("file://");
    uri.append(path.as_str());
    uri
}

/// The cache key under which a path's thumbnail is stored.
pub fn content_digest(path: &String) -> (r: String)
    ensures
        r@ == digest_of(path@),
        r@.len() == 32,
{
    let uri = file_uri(path);
    md5_hex(uri.as_str())
}

/// The file name of a digest's on-disk cache record: `<digest>.png`.
pub fn thumb_file_name(digest: &String) -> (r: String)
    ensures
        r@ == digest@ + ".png"@,
{
    let mut name = digest.clone();
    name.append(".png");
    name
}

/// Digest stability: the cache key is deterministic and depends only on the
/// path string — equal paths give equal digests, whatever is (or is not) on
/// disk behind them.
pub proof fn lemma_digest_deterministic(p1: Seq<char>, p2: Seq<char>)
    requires
        p1 == p2,
    ensures
        digest_of(p1) == digest_of(p2),
{
}

} // verus!
