//! Splicing the compatibility script into HTML documents.
use vstd::prelude::*;
use vstd::utf8::{decode_utf8, encode_utf8, valid_utf8};
use crate::polyfill::POLYFILL_SCRIPT;
use crate::text::{chars_eq, chars_of, lossy_text, utf8_lossy};

verus! {

broadcast use vstd::string::group_string_axioms, vstd::utf8::decode_utf8_encode_utf8;

/// Whether `pat` stands in `s` at position `i`.
pub open spec fn occurs_at(s: Seq<u8>, pat: Seq<u8>, i: int) -> bool {
    0 <= i && i + pat.len() <= s.len() && s.subrange(i, i + pat.len()) == pat
}

/// The first position at or after `i` where `pat` stands in `s`.
pub open spec fn find_from(s: Seq<u8>, pat: Seq<u8>, i: int) -> Option<int>
    decreases s.len() - i,
{
    if i < 0 || i >= s.len() || i + pat.len() > s.len() {
        None
    } else if occurs_at(s, pat, i) {
        Some(i)
    } else {
        find_from(s, pat, i + 1)
    }
}

/// `</head>`
pub open spec fn head_close() -> Seq<u8> {
    seq![60u8, 47, 104, 101, 97, 100, 62]
}

/// `<body>`
pub open spec fn body_open() -> Seq<u8> {
    seq![60u8, 98, 111, 100, 121, 62]
}

pub open spec fn newline() -> Seq<u8> {
    seq![10u8]
}

/// Where the payload goes: before the first `</head>`, else after the first
/// `<body>`, else at the start.
pub open spec fn insertion_point(text: Seq<u8>) -> int {
    match find_from(text, head_close(), 0) {
        Some(k) => k,
        None => match find_from(text, body_open(), 0) {
            Some(k) => k + body_open().len(),
            None => 0,
        },
    }
}

/// What is inserted: the payload and a line break, the break first when the
/// payload follows `<body>`.
pub open spec fn inserted_block(text: Seq<u8>, payload: Seq<u8>) -> Seq<u8> {
    if find_from(text, head_close(), 0) is None && find_from(text, body_open(), 0) is Some {
        newline() + payload
    } else {
        payload + newline()
    }
}

/// `text` with one copy of the block inserted at the insertion point.
pub open spec fn injected(text: Seq<u8>, payload: Seq<u8>) -> Seq<u8> {
    let k = insertion_point(text);
    text.subrange(0, k) + inserted_block(text, payload) + text.subrange(k, text.len() as int)
}

/// The bytes of the compatibility script.
pub open spec fn polyfill_bytes() -> Seq<u8> {
    encode_utf8(POLYFILL_SCRIPT@)
}

/// A document after injection: decoded leniently as UTF-8, re-encoded, and given
/// the compatibility script.
pub open spec fn polyfilled(content: Seq<u8>) -> Seq<u8> {
    injected(encode_utf8(utf8_lossy(content)), polyfill_bytes())
}

/// Whether a served file gets the script: an HTML content type and a name that
/// ends in `.html`.
pub open spec fn is_html_document(mime: Seq<char>, path: Seq<char>) -> bool {
    mime == "text/html"@ && path.len() >= 5 && path.subrange(path.len() - 5, path.len() as int)
        == ".html"@
}

proof fn lemma_find_from_bounds(s: Seq<u8>, pat: Seq<u8>, i: int)
    ensures
        match find_from(s, pat, i) {
            Some(k) => i <= k && occurs_at(s, pat, k),
            None => true,
        },
    decreases s.len() - i,
{
    if !(i < 0 || i >= s.len() || i + pat.len() > s.len()) && !occurs_at(s, pat, i) {
        lemma_find_from_bounds(s, pat, i + 1);
    }
}

/// The first position where `pat` stands in `s`.
pub fn find_bytes(s: &Vec<u8>, pat: &Vec<u8>) -> (r: Option<usize>)
    ensures
        match r {
            Some(k) => find_from(s@, pat@, 0) == Some(k as int),
            None => find_from(s@, pat@, 0) is None,
        },
{
    let n = s.len();
    let m = pat.len();
    let mut i: usize = 0;
    while i < n
        invariant
            n == s@.len(),
            m == pat@.len(),
            i <= n,
            find_from(s@, pat@, 0) == find_from(s@, pat@, i as int),
        decreases n - i,
    {
        if m > n - i {
            return None;
        }
        let mut j: usize = 0;
        let mut same = true;
        while j < m
            invariant
                n == s@.len(),
                m == pat@.len(),
                i + m <= n,
                j <= m,
                same == (forall|t: int| 0 <= t < j ==> s@[i + t] == pat@[t]),
            decreases m - j,
        {
            if s[i + j] != pat[j] {
                same = false;
            }
            j = j + 1;
        }
        if same {
            assert(s@.subrange(i as int, i + m) =~= pat@);
            return Some(i);
        }
        assert(!occurs_at(s@, pat@, i as int)) by {
            if occurs_at(s@, pat@, i as int) {
                assert forall|t: int| 0 <= t < m implies s@[i + t] == pat@[t] by {
                    assert(s@.subrange(i as int, i + m)[t] == s@[i + t]);
                }
            }
        }
        i = i + 1;
    }
    None
}

/// Appends `src[from..to]` to `out`.
fn push_range(out: &mut Vec<u8>, src: &[u8], from: usize, to: usize)
    requires
        from <= to <= src@.len(),
    ensures
        final(out)@ == old(out)@ + src@.subrange(from as int, to as int),
{
    let mut i: usize = from;
    while i < to
        invariant
            from <= i <= to <= src@.len(),
            out@ == old(out)@ + src@.subrange(from as int, i as int),
        decreases to - i,
    {
        out.push(src[i]);
        i = i + 1;
        assert(out@ =~= old(out)@ + src@.subrange(from as int, i as int));
    }
}

/// `text` with `payload` inserted once: before the first `</head>`, else after the
/// first `<body>`, else at the start, with a line break between payload and
/// marker or document.
pub fn insert_payload(text: &Vec<u8>, payload: &[u8]) -> (r: Vec<u8>)
    ensures
        r@ == injected(text@, payload@),
{
    let head: Vec<u8> = vec![60u8, 47, 104, 101, 97, 100, 62];
    let body: Vec<u8> = vec![60u8, 98, 111, 100, 121, 62];
    assert(head@ =~= head_close());
    assert(body@ =~= body_open());
    proof {
        lemma_find_from_bounds(text@, head_close(), 0);
        lemma_find_from_bounds(text@, body_open(), 0);
    }
    let n = text.len();
    let mut out: Vec<u8> = Vec::new();
    match find_bytes(text, &head) {
        Some(k) => {
            push_range(&mut out, text.as_slice(), 0, k);
            push_range(&mut out, payload, 0, payload.len());
            out.push(10u8);
            push_range(&mut out, text.as_slice(), k, n);
        },
        None => match find_bytes(text, &body) {
            Some(k) => {
                push_range(&mut out, text.as_slice(), 0, k + 6);
                out.push(10u8);
                push_range(&mut out, payload, 0, payload.len());
                push_range(&mut out, text.as_slice(), k + 6, n);
            },
            None => {
                push_range(&mut out, payload, 0, payload.len());
                out.push(10u8);
                push_range(&mut out, text.as_slice(), 0, n);
            },
        },
    }
    assert(payload@.subrange(0, payload@.len() as int) =~= payload@);
    assert(out@ =~= injected(text@, payload@));
    out
}

/// Decodes an HTML document leniently as UTF-8 and inserts the compatibility
/// script once.
pub fn inject_polyfills(content: Vec<u8>) -> (r: Vec<u8>)
    ensures
        r@ == polyfilled(content@),
        valid_utf8(content@) ==> r@ == injected(content@, polyfill_bytes()),
{
    let text = lossy_text(content.as_slice());
    let bytes = text.as_str().as_bytes_vec();
    assert(valid_utf8(content@) ==> encode_utf8(decode_utf8(content@)) == content@);
    insert_payload(&bytes, POLYFILL_SCRIPT.as_bytes())
}

/// Whether a file with content type `mime` at `path` is an HTML document that
/// gets the script.
pub fn is_html(mime: &str, path: &str) -> (r: bool)
    ensures
        r == is_html_document(mime@, path@),
{
    let m = chars_of(mime);
    if !chars_eq(m.as_slice(), "text/html") {
        return false;
    }
    let p = chars_of(path);
    let n = p.len();
    if n < 5 {
        return false;
    }
    let mut tail: Vec<char> = Vec::new();
    let mut i: usize = n - 5;
    while i < n
        invariant
            n == p@.len(),
            n >= 5,
            n - 5 <= i <= n,
            tail@ == p@.subrange(n - 5, i as int),
        decreases n - i,
    {
        tail.push(p[i]);
        i = i + 1;
        assert(tail@ =~= p@.subrange(n - 5, i as int));
    }
    chars_eq(tail.as_slice(), ".html")
}

/// The body served for a file: HTML documents get the script, everything else
/// passes through unchanged.
pub fn transform_content(content: Vec<u8>, mime: &str, path: &str) -> (r: Vec<u8>)
    ensures
        is_html_document(mime@, path@) ==> r@ == polyfilled(content@),
        is_html_document(mime@, path@) && valid_utf8(content@) ==> r@ == injected(
            content@,
            polyfill_bytes(),
        ),
        !is_html_document(mime@, path@) ==> r@ == content@,
{
    if is_html(mime, path) {
        inject_polyfills(content)
    } else {
        content
    }
}

/// Injection adds exactly one block and keeps every byte of the document: taking
/// the block back out at the insertion point gives the document again.
pub proof fn lemma_injection_adds_one_block(text: Seq<u8>, payload: Seq<u8>)
    ensures
        0 <= insertion_point(text) <= text.len(),
        inserted_block(text, payload).len() == payload.len() + 1,
        injected(text, payload).len() == text.len() + payload.len() + 1,
        injected(text, payload).subrange(0, insertion_point(text)) == text.subrange(
            0,
            insertion_point(text),
        ),
        injected(text, payload).subrange(
            insertion_point(text),
            insertion_point(text) + payload.len() + 1,
        ) == inserted_block(text, payload),
        injected(text, payload).subrange(
            insertion_point(text) + payload.len() + 1,
            injected(text, payload).len() as int,
        ) == text.subrange(insertion_point(text), text.len() as int),
{
    lemma_find_from_bounds(text, head_close(), 0);
    lemma_find_from_bounds(text, body_open(), 0);
    let k = insertion_point(text);
    let b = inserted_block(text, payload);
    let r = injected(text, payload);
    assert(r.subrange(0, k) =~= text.subrange(0, k));
    assert(r.subrange(k, k + b.len()) =~= b);
    assert(r.subrange(k + b.len(), r.len() as int) =~= text.subrange(k, text.len() as int));
}

} // verus!
