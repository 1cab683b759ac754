use external_localhost::response::{NoHook, Request, RequestHook, Response};
use external_localhost::serve::{
    asset_reply, begin_request, default_headers, malformed_target_reply, not_found_reply, Step,
};

fn pairs(v: &[(&str, &str)]) -> Vec<(String, String)> {
    v.iter().map(|(a, b)| (a.to_string(), b.to_string())).collect()
}

struct Tag;

impl RequestHook for Tag {
    fn on_request(&self, request: &Request, response: &mut Response) {
        response.add_header("X-Requested", request.url());
        response.add_header("Access-Control-Allow-Origin", "http://localhost");
    }
}

#[test]
fn add_header_overwrites_in_place() {
    let mut r = Response::new();
    r.add_header("A", "1");
    r.add_header("B", "2");
    r.add_header("A", "3");
    assert_eq!(r.into_headers(), pairs(&[("A", "3"), ("B", "2")]));
}

#[test]
fn request_keeps_its_url() {
    let r = Request::new("/a%20b.png?x=1");
    assert_eq!(r.url(), "/a%20b.png?x=1");
}

#[test]
fn media_responses_carry_cache_directive() {
    let expected_base = [
        ("Access-Control-Allow-Origin", "*"),
        ("Access-Control-Allow-Methods", "GET, POST, OPTIONS"),
        ("Access-Control-Allow-Headers", "Content-Type"),
    ];
    let mut audio = vec![("Content-Type", "audio/ogg")];
    audio.extend_from_slice(&expected_base);
    audio.push(("Cache-Control", "public, max-age=31536000"));
    assert_eq!(default_headers("audio/ogg").into_headers(), pairs(&audio));
    let image = default_headers("image/png").into_headers();
    assert!(image.contains(&("Cache-Control".to_string(), "public, max-age=31536000".to_string())));
}

#[test]
fn other_responses_carry_no_cache_directive() {
    for mime in ["text/html", "application/javascript", "video/mp4", "font/woff", "application/octet-stream"] {
        let h = default_headers(mime).into_headers();
        assert_eq!(h.len(), 4);
        assert!(h.iter().all(|(k, _)| k != "Cache-Control"));
        assert_eq!(h[0], ("Content-Type".to_string(), mime.to_string()));
    }
}

#[test]
fn missing_file_is_not_found() {
    let r = asset_reply("/nope.png", "nope.png", None, &None::<NoHook>);
    assert_eq!(r.status, 404);
    assert_eq!(r.body, b"Not Found".to_vec());
    assert_eq!(r.headers, pairs(&[("Content-Type", "text/plain")]));
    let r = asset_reply("/dir/", "dir/", None, &Some(Tag));
    assert_eq!(r.status, 404);
    let n = not_found_reply();
    assert_eq!(n.status, 404);
}

#[test]
fn found_file_is_served_with_defaults() {
    let r = asset_reply("/img/a.png", "img/a.png", Some(vec![1, 2, 3]), &None::<NoHook>);
    assert_eq!(r.status, 200);
    assert_eq!(r.body, vec![1, 2, 3]);
    assert_eq!(r.headers[0], ("Content-Type".to_string(), "image/png".to_string()));
    assert_eq!(r.headers.len(), 5);
}

#[test]
fn html_file_is_served_with_script() {
    let r = asset_reply("/", "index.html", Some(b"<head></head>".to_vec()), &Some(NoHook));
    assert_eq!(r.status, 200);
    assert!(r.body.len() > b"<head></head>".len());
    assert!(r.body.ends_with(b"\n</head>"));
}

#[test]
fn hook_may_add_and_overwrite_headers() {
    let r = asset_reply("/a.css", "a.css", Some(vec![]), &Some(Tag));
    assert_eq!(
        r.headers,
        pairs(&[
            ("Content-Type", "text/css"),
            ("Access-Control-Allow-Origin", "http://localhost"),
            ("Access-Control-Allow-Methods", "GET, POST, OPTIONS"),
            ("Access-Control-Allow-Headers", "Content-Type"),
            ("X-Requested", "/a.css"),
        ])
    );
}

#[test]
fn bad_target_gets_server_error() {
    match begin_request("/a b") {
        Step::Send(r) => {
            assert_eq!(r.status, 500);
            assert_eq!(r.body, b"Internal Server Error - URI Parse Error".to_vec());
        }
        Step::Load(_) => panic!("expected an error reply"),
    }
    assert_eq!(malformed_target_reply().status, 500);
}

#[test]
fn good_target_is_loaded() {
    match begin_request("/") {
        Step::Load(p) => assert_eq!(p, "index.html"),
        Step::Send(_) => panic!("expected a path"),
    }
    match begin_request("/a%20b.png") {
        Step::Load(p) => assert_eq!(p, "a b.png"),
        Step::Send(_) => panic!("expected a path"),
    }
}
