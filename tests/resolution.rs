use external_localhost::resolve::{relative_file_path, resolve_path, resolve_target, ResolveError};

#[test]
fn root_and_empty_path_name_the_default_document() {
    assert_eq!(resolve_target("/"), Ok("index.html".to_string()));
    assert_eq!(resolve_path("/"), "index.html");
    assert_eq!(resolve_path(""), "index.html");
    assert_eq!(relative_file_path(""), relative_file_path("/"));
}

#[test]
fn leading_separator_is_stripped_once() {
    assert_eq!(resolve_target("/js/main.js"), Ok("js/main.js".to_string()));
    assert_eq!(resolve_path("//etc/x"), "/etc/x");
    assert_eq!(relative_file_path("a/b"), "a/b");
}

#[test]
fn percent_encoded_path_resolves_as_decoded() {
    assert_eq!(resolve_target("/a%20b.png"), Ok("a b.png".to_string()));
    assert_eq!(resolve_path("/a%20b.png"), resolve_path("/a b.png"));
    assert_eq!(resolve_path("/img%2Fx%2epng"), "img/x.png");
}

#[test]
fn invalid_escapes_are_kept_and_bad_utf8_replaced() {
    assert_eq!(resolve_path("/100%"), "100%");
    assert_eq!(resolve_path("/%zz"), "%zz");
    assert_eq!(resolve_path("/%FF.png"), "\u{FFFD}.png");
}

#[test]
fn query_and_fragment_are_dropped() {
    assert_eq!(resolve_target("/save.json?v=2"), Ok("save.json".to_string()));
    assert_eq!(resolve_target("http://127.0.0.1:8080/img/a.png"), Ok("img/a.png".to_string()));
}

#[test]
fn unparsable_target_is_malformed() {
    assert_eq!(resolve_target("/a b"), Err(ResolveError::MalformedTarget));
    assert_eq!(resolve_target(""), Err(ResolveError::MalformedTarget));
}

#[test]
fn no_parent_segment_filtering() {
    assert_eq!(resolve_target("/../secret.txt"), Ok("../secret.txt".to_string()));
}
