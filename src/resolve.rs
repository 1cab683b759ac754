//! Turning a raw request target into a path relative to the asset root.
use vstd::prelude::*;
use vstd::utf8::encode_utf8;
use crate::text::{lossy_text, utf8_lossy};

verus! {

broadcast use vstd::string::group_string_axioms;

/// The path component of a request target, or `None` when the target does not
/// parse as a URI.
pub uninterp spec fn uri_path(url: Seq<char>) -> Option<Seq<char>>;

/// Relies on http's `Uri` parser (its `FromStr`) and on `Uri::path`: the path of
/// the parsed target, query and fragment left out.
#[verifier::external_body]
fn parse_target_path(url: &str) -> (r: Option<String>)
    ensures
        match r {
            Some(p) => uri_path(url@) == Some(p@),
            None => uri_path(url@) is None,
        },
{
    match url.parse::<http::Uri>() {
        Ok(u) => Some(u.path().to_string()),
        Err(_) => None,
    }
}

pub open spec fn is_hex_digit(b: u8) -> bool {
    (48 <= b && b <= 57) || (65 <= b && b <= 70) || (97 <= b && b <= 102)
}

pub open spec fn hex_value(b: u8) -> int {
    if b <= 57 {
        b - 48
    } else if b <= 70 {
        b - 55
    } else {
        b - 87
    }
}

/// Percent-decoding: `%` and two hexadecimal digits give the byte they spell;
/// every other byte, a lone `%` included, is kept.
pub open spec fn percent_decoded(s: Seq<u8>) -> Seq<u8>
    decreases s.len(),
{
    if s.len() == 0 {
        Seq::empty()
    } else if s[0] == 37 && s.len() >= 3 && is_hex_digit(s[1]) && is_hex_digit(s[2]) {
        seq![(hex_value(s[1]) * 16 + hex_value(s[2])) as u8] + percent_decoded(
            s.subrange(3, s.len() as int),
        )
    } else {
        seq![s[0]] + percent_decoded(s.drop_first())
    }
}

/// Relies on percent_encoding's `percent_decode_str`, collected into bytes.
#[verifier::external_body]
fn percent_decode_bytes(s: &str) -> (r: Vec<u8>)
    ensures
        r@ == percent_decoded(encode_utf8(s@)),
{
    percent_encoding::percent_decode_str(s).collect()
}

/// The document served for the root.
pub open spec fn default_document() -> Seq<char> {
    "index.html"@
}

/// The root-relative file path for a decoded request path: one leading `/` is
/// dropped, and an empty remainder names the default document.
pub open spec fn relative_path(p: Seq<char>) -> Seq<char> {
    let rest = if p.len() > 0 && p[0] == '/' {
        p.drop_first()
    } else {
        p
    };
    if rest.len() == 0 {
        default_document()
    } else {
        rest
    }
}

/// The root-relative file path for the path component of a request target.
pub open spec fn resolved_path(p: Seq<char>) -> Seq<char> {
    relative_path(utf8_lossy(percent_decoded(encode_utf8(p))))
}

/// Why a request target could not be resolved.
#[derive(Debug, Clone, Copy, PartialEq, Eq, Structural)]
pub enum ResolveError {
    /// The target does not parse as a URI.
    MalformedTarget,
}

/// The root-relative file path for an already decoded request path.
pub fn relative_file_path(decoded: &str) -> (r: String)
    ensures
        r@ == relative_path(decoded@),
{
    let n = decoded.unicode_len();
    let rest: &str = if n > 0 && decoded.get_char(0) == '/' {
        decoded.substring_char(1, n)
    } else {
        decoded
    };
    assert(n > 0 && decoded@[0] == '/' ==> rest@ =~= decoded@.drop_first());
    if rest.unicode_len() == 0 {
        String::from_str("index.html")
    } else {
        String::from_str(rest)
    }
}

/// Percent-decodes a request path (lossily, as UTF-8) and makes it root-relative.
pub fn resolve_path(path: &str) -> (r: String)
    ensures
        r@ == resolved_path(path@),
{
    let bytes = percent_decode_bytes(path);
    let decoded = lossy_text(bytes.as_slice());
    relative_file_path(decoded.as_str())
}

/// The root-relative file path that a raw request target names.
pub fn resolve_target(url: &str) -> (r: Result<String, ResolveError>)
    ensures
        match uri_path(url@) {
            Some(p) => r is Ok && r->Ok_0@ == resolved_path(p),
            None => r == Err::<String, ResolveError>(ResolveError::MalformedTarget),
        },
{
    match parse_target_path(url) {
        Some(p) => Ok(resolve_path(p.as_str())),
        None => Err(ResolveError::MalformedTarget),
    }
}

/// Requesting the root and requesting the empty path name the same file, the
/// default document.
pub proof fn lemma_root_is_default_document()
    ensures
        relative_path(seq!['/']) == relative_path(Seq::<char>::empty()),
        relative_path(Seq::<char>::empty()) == default_document(),
{
    assert(seq!['/'].drop_first() =~= Seq::<char>::empty());
}

/// Bytes holding no `%` are left as they are by percent-decoding.
pub proof fn lemma_percent_decoded_plain(s: Seq<u8>)
    requires
        forall|i: int| 0 <= i < s.len() ==> s[i] != 37,
    ensures
        percent_decoded(s) == s,
    decreases s.len(),
{
    if s.len() > 0 {
        lemma_percent_decoded_plain(s.drop_first());
        assert(seq![s[0]] + s.drop_first() =~= s);
    }
}

/// A path with percent-encoded bytes resolves as its decoded literal form does,
/// when that form holds no `%` of its own.
pub proof fn lemma_percent_encoded_equivalent(p: Seq<char>, q: Seq<char>)
    requires
        encode_utf8(q) == percent_decoded(encode_utf8(p)),
        forall|i: int| 0 <= i < encode_utf8(q).len() ==> encode_utf8(q)[i] != 37,
    ensures
        resolved_path(p) == resolved_path(q),
{
    lemma_percent_decoded_plain(encode_utf8(q));
}

} // verus!
