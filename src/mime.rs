//! Content types inferred from file extensions.
use vstd::prelude::*;
use crate::text::{chars_eq, chars_of, find_last, last_index_of, lemma_last_index_of_bounds};

verus! {

broadcast use vstd::string::group_string_axioms;

/// An ASCII capital letter becomes its small letter; other characters stay.
pub open spec fn ascii_lower(c: char) -> char {
    if 'A' <= c && c <= 'Z' {
        ((c as u8) + 32u8) as char
    } else {
        c
    }
}

pub open spec fn lower_ascii(s: Seq<char>) -> Seq<char> {
    s.map_values(|c: char| ascii_lower(c))
}

/// The characters after the last `/` of a path.
pub open spec fn last_segment(p: Seq<char>) -> Seq<char> {
    p.subrange(last_index_of(p, '/') + 1, p.len() as int)
}

/// The extension of a path's last segment: what follows its last `.`, where that
/// dot is not the segment's first character. `..` has none.
pub open spec fn extension_of(p: Seq<char>) -> Option<Seq<char>> {
    let name = last_segment(p);
    let dot = last_index_of(name, '.');
    if name == seq!['.', '.'] || dot <= 0 {
        None
    } else {
        Some(name.subrange(dot + 1, name.len() as int))
    }
}

/// The content type of a lower-case extension.
pub open spec fn mime_for_extension(e: Seq<char>) -> Seq<char> {
    if e == "html"@ || e == "htm"@ {
        "text/html"@
    } else if e == "css"@ {
        "text/css"@
    } else if e == "js"@ {
        "application/javascript"@
    } else if e == "json"@ {
        "application/json"@
    } else if e == "png"@ || e == "rpgmvp"@ {
        "image/png"@
    } else if e == "jpg"@ || e == "jpeg"@ {
        "image/jpeg"@
    } else if e == "gif"@ {
        "image/gif"@
    } else if e == "svg"@ {
        "image/svg+xml"@
    } else if e == "ico"@ {
        "image/x-icon"@
    } else if e == "woff"@ {
        "font/woff"@
    } else if e == "woff2"@ {
        "font/woff2"@
    } else if e == "ttf"@ {
        "font/ttf"@
    } else if e == "otf"@ {
        "font/otf"@
    } else if e == "mp3"@ {
        "audio/mpeg"@
    } else if e == "wav"@ || e == "rpgmvw"@ {
        "audio/wav"@
    } else if e == "ogg"@ || e == "rpgmvo"@ {
        "audio/ogg"@
    } else if e == "m4a"@ || e == "rpgmvm"@ {
        "audio/mp4"@
    } else if e == "aac"@ {
        "audio/aac"@
    } else if e == "mp4"@ {
        "video/mp4"@
    } else if e == "webm"@ {
        "video/webm"@
    } else if e == "txt"@ {
        "text/plain"@
    } else if e == "xml"@ {
        "application/xml"@
    } else {
        "application/octet-stream"@
    }
}

/// The content type of an extension, ignoring the case of ASCII letters.
pub open spec fn mime_of_extension(e: Seq<char>) -> Seq<char> {
    mime_for_extension(lower_ascii(e))
}

/// The content type of a path: that of its extension, or the generic binary type.
pub open spec fn mime_of_path(p: Seq<char>) -> Seq<char> {
    match extension_of(p) {
        Some(e) => mime_of_extension(e),
        None => "application/octet-stream"@,
    }
}

/// MIME lookup ignores the case of ASCII letters: two extensions that differ only
/// there get the same content type.
pub proof fn lemma_mime_case_insensitive(e1: Seq<char>, e2: Seq<char>)
    requires
        lower_ascii(e1) == lower_ascii(e2),
    ensures
        mime_of_extension(e1) == mime_of_extension(e2),
{
}

/// The four encrypted asset extensions get the content type of what they decrypt
/// to: Ogg audio, MP4 audio, PNG images and WAV audio.
pub proof fn lemma_encrypted_asset_types()
    ensures
        mime_of_extension("rpgmvo"@) == "audio/ogg"@,
        mime_of_extension("rpgmvm"@) == "audio/mp4"@,
        mime_of_extension("rpgmvp"@) == "image/png"@,
        mime_of_extension("rpgmvw"@) == "audio/wav"@,
{
    reveal_strlit("rpgmvo");
    reveal_strlit("rpgmvm");
    reveal_strlit("rpgmvp");
    reveal_strlit("rpgmvw");
    assert(lower_ascii("rpgmvo"@) =~= "rpgmvo"@);
    assert(lower_ascii("rpgmvm"@) =~= "rpgmvm"@);
    assert(lower_ascii("rpgmvp"@) =~= "rpgmvp"@);
    assert(lower_ascii("rpgmvw"@) =~= "rpgmvw"@);
    assert("rpgmvo"@[5] != "rpgmvp"@[5]);
    assert("rpgmvo"@[5] != "rpgmvw"@[5]);
    assert("rpgmvm"@[5] != "rpgmvp"@[5]);
    assert("rpgmvm"@[5] != "rpgmvw"@[5]);
    assert("rpgmvm"@[5] != "rpgmvo"@[5]);
    assert("rpgmvw"@[5] != "rpgmvp"@[5]);
    reveal_strlit("html");
    reveal_strlit("htm");
    reveal_strlit("css");
    reveal_strlit("js");
    reveal_strlit("json");
    reveal_strlit("png");
    reveal_strlit("jpg");
    reveal_strlit("jpeg");
    reveal_strlit("gif");
    reveal_strlit("svg");
    reveal_strlit("ico");
    reveal_strlit("woff");
    reveal_strlit("woff2");
    reveal_strlit("ttf");
    reveal_strlit("otf");
    reveal_strlit("mp3");
    reveal_strlit("wav");
    reveal_strlit("ogg");
    reveal_strlit("m4a");
}

fn ascii_lower_char(c: char) -> (r: char)
    ensures
        r == ascii_lower(c),
{
    if 'A' <= c && c <= 'Z' {
        ((c as u8) + 32u8) as char
    } else {
        c
    }
}

/// The extension of the path `p`, lower-cased, as `extension_of` gives it.
/// The extension of the path `p`, as `extension_of` gives it.
pub fn extension(p: &Vec<char>) -> (r: Option<Vec<char>>)
    ensures
        match extension_of(p@) {
            Some(e) => r is Some && r->0@ == e,
            None => r is None,
        },
{
    match extension_split(p) {
        Some((name, dot)) => {
            let mut ext: Vec<char> = Vec::new();
            assert(dot < name.len());
            let mut j: usize = dot + 1;
            while j < name.len()
                invariant
                    dot < j <= name@.len(),
                    ext@ == name@.subrange(dot + 1, j as int),
                decreases name@.len() - j,
            {
                ext.push(name[j]);
                j = j + 1;
                assert(ext@ =~= name@.subrange(dot + 1, j as int));
            }
            Some(ext)
        },
        None => None,
    }
}

/// The last segment of `p` and the position of its extension's dot, when it has
/// an extension.
fn extension_split(p: &Vec<char>) -> (r: Option<(Vec<char>, usize)>)
    ensures
        match r {
            Some((name, dot)) => name@ == last_segment(p@) && dot as int == last_index_of(name@, '.')
                && 0 < dot < name@.len() && extension_of(p@) == Some(name@.subrange(dot + 1, name@.len() as int)),
            None => extension_of(p@) is None,
        },
{
    proof {
        lemma_last_index_of_bounds(p@, '/');
    }
    let n: usize = p.len();
    let start: usize = match find_last(p, '/') {
        Some(i) => {
            assert(i < p@.len());
            i + 1
        },
        None => 0,
    };
    let mut name: Vec<char> = Vec::new();
    let mut i: usize = start;
    while i < p.len()
        invariant
            start <= i <= p@.len(),
            name@ == p@.subrange(start as int, i as int),
        decreases p@.len() - i,
    {
        name.push(p[i]);
        i = i + 1;
        assert(name@ =~= p@.subrange(start as int, i as int));
    }
    assert(name@ =~= last_segment(p@));
    proof {
        lemma_last_index_of_bounds(name@, '.');
    }
    let dot: usize = match find_last(&name, '.') {
        Some(d) => d,
        None => 0,
    };
    if dot == 0 || (name.len() == 2 && name[0] == '.' && name[1] == '.') {
        assert(name@ == seq!['.', '.'] ==> name@.len() == 2 && name@[0] == '.' && name@[1] == '.');
        assert(name@.len() == 2 && name@[0] == '.' && name@[1] == '.' ==> name@ =~= seq!['.', '.']);
        return None;
    }
    assert(name@ != seq!['.', '.']);
    Some((name, dot))
}

fn lowered_extension(p: &Vec<char>) -> (r: Option<Vec<char>>)
    ensures
        match extension_of(p@) {
            Some(e) => r is Some && r->0@ == lower_ascii(e),
            None => r is None,
        },
{
    match extension(p) {
        Some(e) => Some(lower_chars(&e)),
        None => None,
    }
}

fn lower_chars(e: &Vec<char>) -> (r: Vec<char>)
    ensures
        r@ == lower_ascii(e@),
{
    let mut low: Vec<char> = Vec::new();
    let mut j: usize = 0;
    while j < e.len()
        invariant
            j <= e@.len(),
            low@ == lower_ascii(e@.subrange(0, j as int)),
        decreases e@.len() - j,
    {
        low.push(ascii_lower_char(e[j]));
        j = j + 1;
        assert(low@ =~= lower_ascii(e@.subrange(0, j as int)));
    }
    assert(e@.subrange(0, e@.len() as int) =~= e@);
    low
}

/// The content type of a lower-case extension.
fn mime_for_lowered(e: &Vec<char>) -> (r: String)
    ensures
        r@ == mime_for_extension(e@),
{
    let e = e.as_slice();
    let t = if chars_eq(e, "html") || chars_eq(e, "htm") {
        "text/html"
    } else if chars_eq(e, "css") {
        "text/css"
    } else if chars_eq(e, "js") {
        "application/javascript"
    } else if chars_eq(e, "json") {
        "application/json"
    } else if chars_eq(e, "png") || chars_eq(e, "rpgmvp") {
        "image/png"
    } else if chars_eq(e, "jpg") || chars_eq(e, "jpeg") {
        "image/jpeg"
    } else if chars_eq(e, "gif") {
        "image/gif"
    } else if chars_eq(e, "svg") {
        "image/svg+xml"
    } else if chars_eq(e, "ico") {
        "image/x-icon"
    } else if chars_eq(e, "woff") {
        "font/woff"
    } else if chars_eq(e, "woff2") {
        "font/woff2"
    } else if chars_eq(e, "ttf") {
        "font/ttf"
    } else if chars_eq(e, "otf") {
        "font/otf"
    } else if chars_eq(e, "mp3") {
        "audio/mpeg"
    } else if chars_eq(e, "wav") || chars_eq(e, "rpgmvw") {
        "audio/wav"
    } else if chars_eq(e, "ogg") || chars_eq(e, "rpgmvo") {
        "audio/ogg"
    } else if chars_eq(e, "m4a") || chars_eq(e, "rpgmvm") {
        "audio/mp4"
    } else if chars_eq(e, "aac") {
        "audio/aac"
    } else if chars_eq(e, "mp4") {
        "video/mp4"
    } else if chars_eq(e, "webm") {
        "video/webm"
    } else if chars_eq(e, "txt") {
        "text/plain"
    } else if chars_eq(e, "xml") {
        "application/xml"
    } else {
        "application/octet-stream"
    };
    String::from_str(t)
}

/// The content type of the file at `file_path`, from its extension.
pub fn get_mime_type(file_path: &str) -> (r: String)
    ensures
        r@ == mime_of_path(file_path@),
{
    let p = chars_of(file_path);
    match lowered_extension(&p) {
        Some(e) => mime_for_lowered(&e),
        None => String::from_str("application/octet-stream"),
    }
}

/// The content type of a bare extension (without its dot).
pub fn mime_type_of_extension(ext: &str) -> (r: String)
    ensures
        r@ == mime_of_extension(ext@),
{
    let e = chars_of(ext);
    mime_for_lowered(&lower_chars(&e))
}

} // verus!
