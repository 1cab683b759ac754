use external_localhost::mime::{get_mime_type, mime_type_of_extension};

#[test]
fn html_documents() {
    assert_eq!(get_mime_type("index.html"), "text/html");
    assert_eq!(get_mime_type("www/page.htm"), "text/html");
}

#[test]
fn web_types() {
    assert_eq!(get_mime_type("css/app.css"), "text/css");
    assert_eq!(get_mime_type("js/main.js"), "application/javascript");
    assert_eq!(get_mime_type("data/Map001.json"), "application/json");
    assert_eq!(get_mime_type("a.xml"), "application/xml");
    assert_eq!(get_mime_type("readme.txt"), "text/plain");
}

#[test]
fn media_and_font_types() {
    assert_eq!(get_mime_type("img/a.png"), "image/png");
    assert_eq!(get_mime_type("img/a.jpg"), "image/jpeg");
    assert_eq!(get_mime_type("img/a.jpeg"), "image/jpeg");
    assert_eq!(get_mime_type("img/a.gif"), "image/gif");
    assert_eq!(get_mime_type("img/a.svg"), "image/svg+xml");
    assert_eq!(get_mime_type("favicon.ico"), "image/x-icon");
    assert_eq!(get_mime_type("f.woff"), "font/woff");
    assert_eq!(get_mime_type("f.woff2"), "font/woff2");
    assert_eq!(get_mime_type("f.ttf"), "font/ttf");
    assert_eq!(get_mime_type("f.otf"), "font/otf");
    assert_eq!(get_mime_type("s.mp3"), "audio/mpeg");
    assert_eq!(get_mime_type("s.wav"), "audio/wav");
    assert_eq!(get_mime_type("s.ogg"), "audio/ogg");
    assert_eq!(get_mime_type("s.m4a"), "audio/mp4");
    assert_eq!(get_mime_type("s.aac"), "audio/aac");
    assert_eq!(get_mime_type("v.mp4"), "video/mp4");
    assert_eq!(get_mime_type("v.webm"), "video/webm");
}

#[test]
fn encrypted_assets_map_to_decrypted_types() {
    assert_eq!(get_mime_type("audio/bgm/Theme.rpgmvo"), "audio/ogg");
    assert_eq!(get_mime_type("audio/se/Cursor.rpgmvm"), "audio/mp4");
    assert_eq!(get_mime_type("img/pictures/Title.rpgmvp"), "image/png");
    assert_eq!(get_mime_type("audio/me/Fanfare.rpgmvw"), "audio/wav");
    assert_eq!(mime_type_of_extension("rpgmvo"), mime_type_of_extension("ogg"));
    assert_eq!(mime_type_of_extension("rpgmvp"), mime_type_of_extension("png"));
}

#[test]
fn lookup_ignores_case() {
    assert_eq!(get_mime_type("IMG/A.PNG"), "image/png");
    assert_eq!(get_mime_type("x.Rpgmvo"), "audio/ogg");
    assert_eq!(mime_type_of_extension("HTML"), mime_type_of_extension("html"));
    assert_eq!(mime_type_of_extension("JsOn"), "application/json");
}

#[test]
fn unknown_or_missing_extension_is_binary() {
    assert_eq!(get_mime_type("archive.zip"), "application/octet-stream");
    assert_eq!(get_mime_type("Makefile"), "application/octet-stream");
    assert_eq!(get_mime_type(".png"), "application/octet-stream");
    assert_eq!(get_mime_type("dir.png/file"), "application/octet-stream");
    assert_eq!(get_mime_type(""), "application/octet-stream");
    assert_eq!(get_mime_type(".."), "application/octet-stream");
    assert_eq!(mime_type_of_extension(""), "application/octet-stream");
}

#[test]
fn extension_is_taken_after_last_dot() {
    assert_eq!(get_mime_type("a.b.css"), "text/css");
    assert_eq!(get_mime_type(".hidden.js"), "application/javascript");
}
