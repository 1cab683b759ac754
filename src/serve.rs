//! Assembling the reply to one asset request.
use vstd::prelude::*;
use vstd::utf8::encode_utf8;
use crate::inject::{is_html_document, polyfilled, transform_content};
use crate::mime::{get_mime_type, mime_of_path};
use crate::resolve::{resolve_target, resolved_path, uri_path};
use crate::response::{
    header_view, lemma_with_header_new, HeaderList, Request, RequestHook, Response,
};
use crate::text::{chars_of, starts_with, starts_with_lit};

verus! {

broadcast use vstd::string::group_string_axioms;

/// Audio and images are cached for a long time.
pub open spec fn is_cacheable(mime: Seq<char>) -> bool {
    starts_with(mime, "audio/"@) || starts_with(mime, "image/"@)
}

pub open spec fn cache_directive() -> (Seq<char>, Seq<char>) {
    ("Cache-Control"@, "public, max-age=31536000"@)
}

/// Content type and the permissive cross-origin headers.
pub open spec fn base_headers(mime: Seq<char>) -> HeaderList {
    seq![
        ("Content-Type"@, mime),
        ("Access-Control-Allow-Origin"@, "*"@),
        ("Access-Control-Allow-Methods"@, "GET, POST, OPTIONS"@),
        ("Access-Control-Allow-Headers"@, "Content-Type"@),
    ]
}

/// The headers of an asset response before the hook runs.
pub open spec fn default_headers_for(mime: Seq<char>) -> HeaderList {
    if is_cacheable(mime) {
        base_headers(mime).push(cache_directive())
    } else {
        base_headers(mime)
    }
}

/// The body served for a file with content type `mime` at `path`.
pub open spec fn served_body(content: Seq<u8>, mime: Seq<char>, path: Seq<char>) -> Seq<u8> {
    if is_html_document(mime, path) {
        polyfilled(content)
    } else {
        content
    }
}

proof fn lemma_header_names_distinct()
    ensures
        "Content-Type"@ != "Access-Control-Allow-Origin"@,
        "Content-Type"@ != "Access-Control-Allow-Methods"@,
        "Content-Type"@ != "Access-Control-Allow-Headers"@,
        "Content-Type"@ != "Cache-Control"@,
        "Access-Control-Allow-Origin"@ != "Access-Control-Allow-Methods"@,
        "Access-Control-Allow-Origin"@ != "Access-Control-Allow-Headers"@,
        "Access-Control-Allow-Origin"@ != "Cache-Control"@,
        "Access-Control-Allow-Methods"@ != "Access-Control-Allow-Headers"@,
        "Access-Control-Allow-Methods"@ != "Cache-Control"@,
        "Access-Control-Allow-Headers"@ != "Cache-Control"@,
{
    reveal_strlit("Content-Type");
    reveal_strlit("Access-Control-Allow-Origin");
    reveal_strlit("Access-Control-Allow-Methods");
    reveal_strlit("Access-Control-Allow-Headers");
    reveal_strlit("Cache-Control");
    assert("Content-Type"@.len() == 12);
    assert("Cache-Control"@.len() == 13);
    assert("Access-Control-Allow-Origin"@.len() == 27);
    assert("Access-Control-Allow-Methods"@.len() == 28);
    assert("Access-Control-Allow-Headers"@.len() == 28);
    assert("Access-Control-Allow-Methods"@[21] != "Access-Control-Allow-Headers"@[21]);
}

/// The headers of an asset response with content type `mime`, before the hook.
pub fn default_headers(mime: &str) -> (r: Response)
    ensures
        r@ == default_headers_for(mime@),
{
    proof {
        lemma_header_names_distinct();
    }
    let mut r = Response::new();
    let ghost s0 = r@;
    proof {
        lemma_with_header_new(s0, "Content-Type"@, mime@);
    }
    r.add_header("Content-Type", mime);
    let ghost s1 = r@;
    proof {
        lemma_with_header_new(s1, "Access-Control-Allow-Origin"@, "*"@);
    }
    r.add_header("Access-Control-Allow-Origin", "*");
    let ghost s2 = r@;
    proof {
        lemma_with_header_new(s2, "Access-Control-Allow-Methods"@, "GET, POST, OPTIONS"@);
    }
    r.add_header("Access-Control-Allow-Methods", "GET, POST, OPTIONS");
    let ghost s3 = r@;
    proof {
        lemma_with_header_new(s3, "Access-Control-Allow-Headers"@, "Content-Type"@);
    }
    r.add_header("Access-Control-Allow-Headers", "Content-Type");
    assert(r@ =~= base_headers(mime@));
    let m = chars_of(mime);
    if starts_with_lit(m.as_slice(), "audio/") || starts_with_lit(m.as_slice(), "image/") {
        let ghost s4 = r@;
        proof {
            lemma_with_header_new(s4, "Cache-Control"@, "public, max-age=31536000"@);
        }
        r.add_header("Cache-Control", "public, max-age=31536000");
    }
    r
}

/// A default header set carries the long-lived cache directive exactly when the
/// content type is an audio or image type.
pub proof fn lemma_cache_only_for_media(mime: Seq<char>)
    ensures
        (exists|i: int|
            0 <= i < default_headers_for(mime).len() && #[trigger] default_headers_for(mime)[i]
                == cache_directive()) <==> is_cacheable(mime),
        (exists|i: int|
            0 <= i < default_headers_for(mime).len() && #[trigger] default_headers_for(mime)[i].0
                == "Cache-Control"@) <==> is_cacheable(mime),
{
    lemma_header_names_distinct();
    let h = default_headers_for(mime);
    if is_cacheable(mime) {
        assert(h[4] == cache_directive());
        assert(h[4].0 == "Cache-Control"@);
    } else {
        assert forall|i: int| 0 <= i < h.len() implies h[i].0 != "Cache-Control"@ by {
            assert(h[i] == base_headers(mime)[i]);
        }
    }
}

/// What is sent back for one request.
pub struct Reply {
    pub status: u16,
    pub headers: Vec<(String, String)>,
    pub body: Vec<u8>,
}

/// The reply for a path that names no readable file.
pub fn not_found_reply() -> (r: Reply)
    ensures
        r.status == 404,
        header_view(r.headers@) == seq![("Content-Type"@, "text/plain"@)],
        r.body@ == encode_utf8("Not Found"@),
{
    let mut headers: Vec<(String, String)> = Vec::new();
    headers.push((String::from_str("Content-Type"), String::from_str("text/plain")));
    assert(header_view(headers@) =~= seq![("Content-Type"@, "text/plain"@)]);
    Reply { status: 404, headers, body: "Not Found".as_bytes_vec() }
}

/// The reply for a request target that does not parse.
pub fn malformed_target_reply() -> (r: Reply)
    ensures
        r.status == 500,
        header_view(r.headers@) == seq![("Content-Type"@, "text/plain"@)],
        r.body@ == encode_utf8("Internal Server Error - URI Parse Error"@),
{
    let mut headers: Vec<(String, String)> = Vec::new();
    headers.push((String::from_str("Content-Type"), String::from_str("text/plain")));
    assert(header_view(headers@) =~= seq![("Content-Type"@, "text/plain"@)]);
    Reply {
        status: 500,
        headers,
        body: "Internal Server Error - URI Parse Error".as_bytes_vec(),
    }
}

/// The reply to the request for `url`, which resolved to `path`, given what was
/// read from that file (`None` when it is missing, not a file, or unreadable).
/// The hook, when there is one, sees the request and may change the headers.
pub fn asset_reply<H: RequestHook>(url: &str, path: &str, file: Option<Vec<u8>>, hook: &Option<H>) -> (r: Reply)
    ensures
        file is None ==> r.status == 404 && header_view(r.headers@) == seq![
            ("Content-Type"@, "text/plain"@),
        ] && r.body@ == encode_utf8("Not Found"@),
        file is Some ==> r.status == 200 && r.body@ == served_body(
            file->0@,
            mime_of_path(path@),
            path@,
        ),
        file is Some && hook is None ==> header_view(r.headers@) == default_headers_for(
            mime_of_path(path@),
        ),
{
    match file {
        None => not_found_reply(),
        Some(content) => {
            let mime = get_mime_type(path);
            let body = transform_content(content, mime.as_str(), path);
            let mut response = default_headers(mime.as_str());
            match hook {
                Some(h) => {
                    let request = Request::new(url);
                    h.on_request(&request, &mut response);
                },
                None => {},
            }
            Reply { status: 200, headers: response.into_headers(), body }
        },
    }
}

/// What the listener does first with a request target.
pub enum Step {
    /// Read the file at this root-relative path, then call `asset_reply`.
    Load(String),
    /// Send this reply as it is.
    Send(Reply),
}

/// Resolves a request target: a path to load, or the error reply when the
/// target does not parse.
pub fn begin_request(url: &str) -> (r: Step)
    ensures
        match uri_path(url@) {
            Some(p) => r is Load && r->Load_0@ == resolved_path(p),
            None => r is Send && r->Send_0.status == 500 && header_view(r->Send_0.headers@)
                == seq![("Content-Type"@, "text/plain"@)] && r->Send_0.body@ == encode_utf8(
                "Internal Server Error - URI Parse Error"@,
            ),
        },
{
    match resolve_target(url) {
        Ok(path) => Step::Load(path),
        Err(_) => Step::Send(malformed_target_reply()),
    }
}

} // verus!
