use static_http::handler::{respond, ReadOutcome};
use static_http::mime::{content_type, file_extension, path_content_type};
use static_http::request::{request_file_path, request_target, resolve_path};
use static_http::response::HTTPResponseBuilder;
use static_http::status::HTTPResponse;

fn count(haystack: &[u8], needle: &[u8]) -> usize {
    haystack.windows(needle.len()).filter(|w| *w == needle).count()
}

#[test]
fn content_type_table() {
    assert_eq!(content_type("wasm"), "application/wasm");
    assert_eq!(content_type("html"), "text/html");
    assert_eq!(content_type("png"), "image/png");
    assert_eq!(content_type("json"), "text/json");
    assert_eq!(content_type("jpeg"), "image/jpeg");
    assert_eq!(content_type("jpg"), "image/jpeg");
}

#[test]
fn content_type_fallback() {
    assert_eq!(content_type("txt"), "text/plain");
    assert_eq!(content_type(""), "text/plain");
    assert_eq!(content_type("HTML"), "text/plain");
    assert_eq!(content_type("wasm2"), "text/plain");
}

#[test]
fn resolve_nonempty_path() {
    assert_eq!(resolve_path("/srv", "/a/b.txt"), Some(String::from("/srv/a/b.txt")));
    assert_eq!(resolve_path(".", "/x"), Some(String::from("./x")));
    assert_eq!(resolve_path("root", "/../etc"), Some(String::from("root/../etc")));
}

#[test]
fn resolve_empty_path_gives_index() {
    assert_eq!(resolve_path("root", "/"), Some(String::from("root/index.html")));
    assert_eq!(resolve_path("", "/"), Some(String::from("/index.html")));
}

#[test]
fn resolve_without_leading_slash() {
    assert_eq!(resolve_path("root", "index.html"), None);
    assert_eq!(resolve_path("root", ""), None);
}

#[test]
fn target_is_second_token() {
    assert_eq!(request_target("GET /a.png HTTP/1.1\r\n"), Some("/a.png"));
    assert_eq!(request_target("  GET\t\t/b  HTTP/1.1"), Some("/b"));
    assert_eq!(request_target("GET /c"), Some("/c"));
    assert_eq!(request_target("GET\u{3000}/d HTTP/1.1"), Some("/d"));
}

#[test]
fn target_missing() {
    assert_eq!(request_target(""), None);
    assert_eq!(request_target("GET"), None);
    assert_eq!(request_target("GET   \n"), None);
    assert_eq!(request_file_path("root", "GET\n"), None);
    assert_eq!(request_file_path("root", "GET missing HTTP/1.1"), None);
}

#[test]
fn extensions() {
    assert_eq!(file_extension("root/app.wasm"), Some("wasm"));
    assert_eq!(file_extension("root/a.tar.gz"), Some("gz"));
    assert_eq!(file_extension("root/dir.d/file"), None);
    assert_eq!(file_extension("root/.profile"), None);
    assert_eq!(file_extension("root/.x.json"), Some("json"));
    assert_eq!(file_extension("root/file."), Some(""));
    assert_eq!(file_extension("noext"), None);
}

#[test]
fn path_content_types() {
    assert_eq!(path_content_type("root/index.html"), "text/html");
    assert_eq!(path_content_type("root/readme"), "text/html");
    assert_eq!(path_content_type("root/photo.jpg"), "image/jpeg");
    assert_eq!(path_content_type("root/notes.txt"), "text/plain");
}

#[test]
fn status_codes_and_reasons() {
    assert_eq!(HTTPResponse::Success.code(), 200);
    assert_eq!(HTTPResponse::Success.status_code(), "OK");
    assert_eq!(HTTPResponse::NotFound.code(), 404);
    assert_eq!(HTTPResponse::NotFound.status_code(), "NOT FOUND");
    assert_eq!(HTTPResponse::ServerError.code(), 500);
    assert_eq!(HTTPResponse::ServerError.status_code(), "SERVER ERROR");
}

#[test]
fn empty_builder_serializes() {
    let b = HTTPResponseBuilder::new();
    assert_eq!(b.build(), b"HTTP/1.1 200 OK\ncontent-length: 0\n\n".to_vec());
}

#[test]
fn serialization_round_trip() {
    let mut b = HTTPResponseBuilder::new();
    b.insert_header("content-type", "text/html");
    b.payload = b"<h1>Hi</h1>".to_vec();
    let out = b.build();
    assert!(out.starts_with(b"HTTP/1.1 200 OK\n"));
    assert_eq!(count(&out, b"content-length: 11\n"), 1);
    assert_eq!(count(&out, b"content-type: text/html\n"), 1);
    assert!(out.ends_with(b"<h1>Hi</h1>"));
    assert_eq!(count(&out, b"\n\n"), 1);
}

#[test]
fn serialization_is_idempotent() {
    let make = || {
        let mut b = HTTPResponseBuilder::new();
        b.insert_header("content-type", "image/png");
        b.insert_header("x-a", "1");
        b.payload = vec![0u8, 159, 146, 150, 10];
        b
    };
    assert_eq!(make().build(), make().build());
}

#[test]
fn insert_header_replaces_value() {
    let mut b = HTTPResponseBuilder::new();
    b.insert_header("a", "1");
    b.insert_header("b", "2");
    b.insert_header("a", "3");
    assert_eq!(b.headers.len(), 2);
    assert_eq!(b.build(), b"HTTP/1.1 200 OK\ncontent-length: 0\na: 3\nb: 2\n\n".to_vec());
}

#[test]
fn content_length_counts_bytes() {
    let mut b = HTTPResponseBuilder::new();
    b.payload = vec![b'x'; 12345];
    let out = b.build();
    assert!(out.starts_with(b"HTTP/1.1 200 OK\ncontent-length: 12345\n\n"));
    assert_eq!(out.len(), b"HTTP/1.1 200 OK\ncontent-length: 12345\n\n".len() + 12345);
}

#[test]
fn headers_are_utf8_encoded() {
    let mut b = HTTPResponseBuilder::new();
    b.insert_header("x-name", "caf\u{e9}");
    b.response = HTTPResponse::NotFound;
    assert_eq!(
        b.build(),
        b"HTTP/1.1 404 NOT FOUND\ncontent-length: 0\nx-name: caf\xc3\xa9\n\n".to_vec()
    );
}

#[test]
fn missing_file_gives_not_found() {
    let path = request_file_path("root", "GET /missing.txt HTTP/1.1").unwrap();
    assert_eq!(path, "root/missing.txt");
    let out = respond(&path, ReadOutcome::NotFound).build();
    assert_eq!(out, b"HTTP/1.1 404 NOT FOUND\ncontent-length: 0\n\n".to_vec());
}

#[test]
fn root_request_serves_index() {
    let path = request_file_path("root", "GET / HTTP/1.1").unwrap();
    assert_eq!(path, "root/index.html");
    let out = respond(&path, ReadOutcome::Contents(b"hi".to_vec())).build();
    assert_eq!(
        out,
        b"HTTP/1.1 200 OK\ncontent-length: 2\ncontent-type: text/html\n\nhi".to_vec()
    );
}

#[test]
fn wasm_file_is_served() {
    let path = request_file_path("root", "GET /app.wasm HTTP/1.1").unwrap();
    assert_eq!(path, "root/app.wasm");
    let out = respond(&path, ReadOutcome::Contents(vec![0, 97, 115, 109])).build();
    assert_eq!(
        out,
        b"HTTP/1.1 200 OK\ncontent-length: 4\ncontent-type: application/wasm\n\n\x00asm".to_vec()
    );
}

#[test]
fn read_failure_gives_server_error() {
    let path = request_file_path("root", "GET /subdir HTTP/1.1").unwrap();
    let out = respond(&path, ReadOutcome::OtherError).build();
    assert_eq!(out, b"HTTP/1.1 500 SERVER ERROR\ncontent-length: 0\n\n".to_vec());
}
