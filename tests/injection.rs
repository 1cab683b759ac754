use external_localhost::inject::{inject_polyfills, insert_payload, is_html, transform_content};
use external_localhost::polyfill::POLYFILL_SCRIPT;

fn count(hay: &[u8], needle: &[u8]) -> usize {
    hay.windows(needle.len()).filter(|w| *w == needle).count()
}

#[test]
fn payload_goes_before_closing_head() {
    let text = b"<html><head><title>t</title></head><body></body></html>".to_vec();
    let out = insert_payload(&text, b"P");
    assert_eq!(out, b"<html><head><title>t</title>P\n</head><body></body></html>".to_vec());
}

#[test]
fn payload_goes_after_opening_body_without_head() {
    let text = b"<html><body><p>x</p></body></html>".to_vec();
    let out = insert_payload(&text, b"P");
    assert_eq!(out, b"<html><body>\nP<p>x</p></body></html>".to_vec());
}

#[test]
fn payload_is_prepended_without_markers() {
    let text = b"<p>bare</p>".to_vec();
    let out = insert_payload(&text, b"P");
    assert_eq!(out, b"P\n<p>bare</p>".to_vec());
    assert_eq!(insert_payload(&Vec::new(), b"P"), b"P\n".to_vec());
}

#[test]
fn only_one_insertion_is_made() {
    let text = b"<head></head><head></head>".to_vec();
    let out = insert_payload(&text, b"P");
    assert_eq!(out, b"<head>P\n</head><head></head>".to_vec());
    let text = b"<body></body><body>".to_vec();
    assert_eq!(insert_payload(&text, b"P"), b"<body>\nP</body><body>".to_vec());
}

#[test]
fn polyfills_are_injected_once_and_document_kept() {
    let doc = b"<!DOCTYPE html><html><head><meta charset=\"utf-8\"></head><body></body></html>".to_vec();
    let out = inject_polyfills(doc.clone());
    assert_eq!(out.len(), doc.len() + POLYFILL_SCRIPT.len() + 1);
    assert_eq!(count(&out, POLYFILL_SCRIPT.as_bytes()), 1);
    let at = doc.windows(7).position(|w| w == b"</head>").unwrap();
    let mut expected = doc[..at].to_vec();
    expected.extend_from_slice(POLYFILL_SCRIPT.as_bytes());
    expected.push(b'\n');
    expected.extend_from_slice(&doc[at..]);
    assert_eq!(out, expected);
}

#[test]
fn invalid_utf8_is_replaced_before_injection() {
    let out = inject_polyfills(vec![0xFF, b'<', b'b', b'o', b'd', b'y', b'>']);
    assert!(out.starts_with("\u{FFFD}<body>\n".as_bytes()));
}

#[test]
fn only_html_documents_are_transformed() {
    assert!(is_html("text/html", "index.html"));
    assert!(!is_html("text/html", "index.htm"));
    assert!(!is_html("text/css", "a.html"));
    let css = b"body{}</head>".to_vec();
    assert_eq!(transform_content(css.clone(), "text/css", "a.css"), css);
    let htm = b"<head></head>".to_vec();
    assert_eq!(transform_content(htm.clone(), "text/html", "old.htm"), htm);
    let html = b"<head></head>".to_vec();
    assert_ne!(transform_content(html.clone(), "text/html", "index.html"), html);
}
