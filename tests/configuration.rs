use external_localhost::builder::Builder;
use external_localhost::response::{Request, RequestHook, Response};

struct Mark;

impl RequestHook for Mark {
    fn on_request(&self, _request: &Request, response: &mut Response) {
        response.add_header("X-Mark", "1");
    }
}

#[test]
fn default_host_is_localhost() {
    let b = Builder::new(8080);
    assert_eq!(b.port(), 8080);
    assert_eq!(b.server_address(), "localhost:8080");
    assert!(b.folder().is_none());
    assert!(b.hook().is_none());
}

#[test]
fn host_and_folder_are_set() {
    let b = Builder::new(0).host("127.0.0.1").external_folder("Game_Contents");
    assert_eq!(b.server_address(), "127.0.0.1:0");
    assert_eq!(b.folder(), Some(&"Game_Contents".to_string()));
    let b = Builder::new(65535).host("::1");
    assert_eq!(b.server_address(), "::1:65535");
}

#[test]
fn hook_is_kept() {
    let b = Builder::new(9).host("h").on_request(Mark);
    assert!(b.hook().is_some());
    assert_eq!(b.server_address(), "h:9");
}
