//! The name under which a body is stored. It is made of the host of the URL and
//! the content hash of the body, so equal bodies of one host share a name.

use crate::digest::{content_hash, hex_lower, law_hex_is_one_to_one, sha256};
use vstd::prelude::*;
use vstd::string::*;
use vstd::utf8::encode_utf8;

verus! {

/// The host that `url` names, if it is an absolute URL with a host, as the `url`
/// crate reads it.
pub uninterp spec fn url_host(url: Seq<char>) -> Option<Seq<char>>;

/// Calls `url::Url::parse` and takes `host_str` of the URL that it gives. There is
/// no host where the text is no absolute URL and where the URL has none. The
/// result depends on the text alone. This contract is trusted.
#[verifier::external_body]
fn parse_host(url: &str) -> (host: Option<String>)
    ensures
        host.deep_view() == url_host(url@),
{
    match url::Url::parse(url) {
        Ok(parsed) => parsed.host_str().map(String::from),
        Err(_) => None,
    }
}

/// The host, or the empty text where there is none.
pub open spec fn host_part(host: Option<Seq<char>>) -> Seq<char> {
    match host {
        Some(name) => name,
        None => Seq::empty(),
    }
}

/// The host part of the stored names for `url`: its host, or nothing where the
/// text is no URL or the URL has no host.
pub open spec fn host_name(url: Seq<char>) -> Seq<char> {
    host_part(url_host(url))
}

/// The stored name for a host and a hash: the host, `_`, the hash, `.sha256`.
pub open spec fn file_name(host: Seq<char>, hex_hash: Seq<char>) -> Seq<char> {
    host + "_"@ + hex_hash + ".sha256"@
}

/// The stored name for a body with this hash that came from `url`.
pub open spec fn content_name(url: Seq<char>, hex_hash: Seq<char>) -> Seq<char> {
    file_name(host_name(url), hex_hash)
}

/// The hash that a stored name carries: the 64 characters before its `.sha256`.
pub open spec fn hash_in_name(name: Seq<char>) -> Seq<char>
    recommends
        name.len() >= 71,
{
    name.subrange(name.len() - 71, name.len() - 7)
}

/// The host, or the empty text where there is none.
pub fn host_or_empty(host: Option<String>) -> (name: String)
    ensures
        name@ == host_part(host.deep_view()),
{
    match host {
        Some(name) => name,
        None => String::new(),
    }
}

/// Joins a host and a hash to a stored name.
pub fn join_name(host: &str, hex_hash: &str) -> (name: String)
    ensures
        name@ == file_name(host@, hex_hash@),
{
    let mut name = String::from_str(host);
    name.append("_");
    name.append(hex_hash);
    name.append(".sha256");
    name
}

/// Names the file that stores a body with this hash that came from `url`. A text
/// that is no URL gives a name with an empty host part.
pub fn name_content(url: &str, hex_hash: &str) -> (name: String)
    ensures
        name@ == content_name(url@, hex_hash@),
{
    let host = host_or_empty(parse_host(url));
    join_name(host.as_str(), hex_hash)
}

/// A stored name carries its hash: from the name of a 64-character hash, the hash
/// can be read back, whatever the host is.
pub proof fn law_name_carries_hash(host: Seq<char>, hex_hash: Seq<char>)
    requires
        hex_hash.len() == 64,
    ensures
        hash_in_name(file_name(host, hex_hash)) == hex_hash,
{
    reveal_strlit("_");
    reveal_strlit(".sha256");
}

/// Content addressing: bodies with the same bytes that came from URLs with the
/// same host get the same stored name.
pub proof fn law_equal_bodies_share_a_name(
    url_a: Seq<char>,
    body_a: Seq<char>,
    url_b: Seq<char>,
    body_b: Seq<char>,
)
    requires
        url_host(url_a) == url_host(url_b),
        encode_utf8(body_a) == encode_utf8(body_b),
    ensures
        content_name(url_a, content_hash(body_a)) == content_name(url_b, content_hash(body_b)),
{
}

/// Two stored names of one host are equal only if the digests in them are: bodies
/// of one host collide in their name only where SHA-256 collides on them.
pub proof fn law_names_differ_with_digests(host: Seq<char>, digest_a: Seq<u8>, digest_b: Seq<u8>)
    requires
        file_name(host, hex_lower(digest_a)) == file_name(host, hex_lower(digest_b)),
    ensures
        digest_a == digest_b,
{
    let hex_a = hex_lower(digest_a);
    let hex_b = hex_lower(digest_b);
    let name_a = file_name(host, hex_a);
    let name_b = file_name(host, hex_b);
    let skip = host.len() + "_"@.len();
    assert(name_a.len() == name_b.len());
    assert forall|i: int| 0 <= i < hex_a.len() implies hex_a[i] == hex_b[i] by {
        assert(name_a[skip + i] == hex_a[i]);
        assert(name_b[skip + i] == hex_b[i]);
    }
    assert(hex_a =~= hex_b);
    law_hex_is_one_to_one(digest_a, digest_b);
}

/// The same for the names that the fetcher gives: two bodies that came from one
/// URL share a stored name only if the SHA-256 digests of their bytes are equal.
pub proof fn law_name_collision_is_digest_collision(
    url: Seq<char>,
    body_a: Seq<char>,
    body_b: Seq<char>,
)
    requires
        content_name(url, content_hash(body_a)) == content_name(url, content_hash(body_b)),
    ensures
        sha256(encode_utf8(body_a)) == sha256(encode_utf8(body_b)),
{
    law_names_differ_with_digests(
        host_name(url),
        sha256(encode_utf8(body_a)),
        sha256(encode_utf8(body_b)),
    );
}

} // verus!
