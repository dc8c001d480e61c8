use chat_bridge::index::IndexDocument;
use chat_bridge::resource::{
    authorize, begin, complete, content_type_for, is_unsafe_path, is_within, CanonicalPath,
    ContentType, Lookup, ResourceRequest,
};

fn index() -> IndexDocument {
    IndexDocument::from_bytes(b"<html><body>chat</body></html>".to_vec())
}

fn request(path: &str) -> ResourceRequest {
    ResourceRequest::new(path).expect("a path that passes validation")
}

fn path_of(parts: &[&str]) -> CanonicalPath {
    CanonicalPath { components: parts.iter().map(|p| p.to_string()).collect() }
}

#[test]
fn parent_directory_sequence_is_refused_with_400() {
    for path in ["/../etc/passwd", "/static/../../secret", "/..", "..", "/a..b", "/static/x..js"] {
        assert!(is_unsafe_path(path));
        match begin(path, &index()) {
            Lookup::Respond(r) => {
                assert_eq!(r.status, 400);
                assert_eq!(r.content_type, ContentType::PlainText);
                assert_eq!(r.content_type.as_str(), "text/plain");
                assert_eq!(r.body, b"Bad Request".to_vec());
            }
            Lookup::Resolve(_) => panic!("{path} must not reach the filesystem"),
        }
    }
}

#[test]
fn null_byte_is_refused_with_400() {
    for path in ["/static/a\0.js", "\0", "/\0"] {
        assert!(is_unsafe_path(path));
        match begin(path, &index()) {
            Lookup::Respond(r) => {
                assert_eq!(r.status, 400);
                assert_eq!(r.body, b"Bad Request".to_vec());
            }
            Lookup::Resolve(_) => panic!("a null byte must not reach the filesystem"),
        }
    }
}

#[test]
fn single_dots_are_not_unsafe() {
    for path in ["/", "/static/app.js", "/./a", "/a.b.c", "/.hidden", ""] {
        assert!(!is_unsafe_path(path));
    }
}

#[test]
fn root_path_serves_the_bootstrap_document() {
    match begin("/", &index()) {
        Lookup::Respond(r) => {
            assert_eq!(r.status, 200);
            assert_eq!(r.content_type, ContentType::Html);
            assert_eq!(r.content_type.as_str(), "text/html");
            assert_eq!(r.body, b"<html><body>chat</body></html>".to_vec());
        }
        Lookup::Resolve(_) => panic!("the root path is answered from memory"),
    }
}

#[test]
fn other_paths_are_resolved_without_their_leading_slash() {
    for (path, relative) in [
        ("/static/js/app.js", "static/js/app.js"),
        ("//etc/passwd", "/etc/passwd"),
        ("/index.html", "index.html"),
    ] {
        match begin(path, &index()) {
            Lookup::Resolve(request) => {
                assert_eq!(request.path(), path);
                assert!(!request.is_root());
                assert_eq!(request.relative(), relative);
            }
            Lookup::Respond(_) => panic!("expected a path to resolve"),
        }
    }
}

#[test]
fn relative_part_keeps_characters_beyond_ascii() {
    assert_eq!(request("/bild-\u{e4}.png").relative(), "bild-\u{e4}.png");
    assert_eq!(request("\u{e4}/x").relative(), "/x");
    assert_eq!(request("").relative(), "");
    assert_eq!(request("/").relative(), "");
    match begin("", &index()) {
        Lookup::Resolve(request) => assert_eq!(request.path(), ""),
        Lookup::Respond(_) => panic!("expected a path to resolve"),
    }
}

#[test]
fn content_type_follows_the_extension() {
    assert_eq!(content_type_for("/index.html").as_str(), "text/html");
    assert_eq!(content_type_for("/").as_str(), "text/html");
    assert_eq!(content_type_for("/static/app.js").as_str(), "text/javascript");
    assert_eq!(content_type_for("/static/app.css").as_str(), "text/css");
    assert_eq!(content_type_for("/static/settings.json").as_str(), "application/json");
    assert_eq!(content_type_for("/logo.png").as_str(), "image/png");
    assert_eq!(content_type_for("/logo.svg").as_str(), "image/svg+xml");
}

#[test]
fn unknown_extensions_are_octet_streams() {
    for path in ["/font.woff2", "/archive", "/a.JS", "/a.js.map", "/html", "/x.htm", ""] {
        assert_eq!(content_type_for(path), ContentType::OctetStream);
        assert_eq!(content_type_for(path).as_str(), "application/octet-stream");
    }
}

#[test]
fn extension_alone_is_a_match() {
    assert_eq!(content_type_for(".js"), ContentType::JavaScript);
    assert_eq!(content_type_for(".svg"), ContentType::Svg);
    assert_eq!(content_type_for("a.js.css"), ContentType::Css);
}

#[test]
fn path_inside_the_installation_directory_may_be_read() {
    let root = path_of(&["/", "opt", "chat"]);
    let file = path_of(&["/", "opt", "chat", "static", "app.js"]);
    assert!(is_within(&file, &root));
    assert!(is_within(&root, &root));
    assert!(authorize(Some(&file), &root).is_none());
}

#[test]
fn path_outside_the_installation_directory_is_forbidden() {
    let root = path_of(&["/", "opt", "chat"]);
    for outside in [
        path_of(&["/", "etc", "passwd"]),
        path_of(&["/", "opt"]),
        path_of(&["/", "opt", "chat2", "app.js"]),
        path_of(&["/", "opt", "cha", "t"]),
        path_of(&[]),
    ] {
        assert!(!is_within(&outside, &root));
        let r = authorize(Some(&outside), &root).expect("a refusal");
        assert_eq!(r.status, 403);
        assert_eq!(r.content_type.as_str(), "text/plain");
        assert_eq!(r.body, b"Forbidden".to_vec());
    }
}

#[test]
fn path_that_does_not_canonicalize_is_forbidden() {
    let root = path_of(&["/", "opt", "chat"]);
    let r = authorize(None, &root).expect("a refusal");
    assert_eq!(r.status, 403);
    assert_eq!(r.body, b"Forbidden".to_vec());
}

#[test]
fn file_bytes_are_served_as_they_are() {
    let bytes = vec![0u8, 159, 146, 150, 255, 10];
    let r = complete(&request("/static/logo.png"), Ok(bytes.clone()));
    assert_eq!(r.status, 200);
    assert_eq!(r.content_type, ContentType::Png);
    assert_eq!(r.body, bytes);
    let r = complete(&request("/static/data.bin"), Ok(Vec::new()));
    assert_eq!(r.status, 200);
    assert_eq!(r.content_type, ContentType::OctetStream);
    assert!(r.body.is_empty());
}

#[test]
fn failed_read_is_a_404_with_a_diagnostic() {
    let r = complete(&request("/static/missing.js"), Err("No such file or directory (os error 2)".to_string()));
    assert_eq!(r.status, 404);
    assert_eq!(r.content_type.as_str(), "text/html");
    assert_eq!(
        r.body,
        b"<h1>404</h1><p>File not found: No such file or directory (os error 2)</p>".to_vec()
    );
}

#[test]
fn validation_refuses_what_begin_refuses() {
    assert!(ResourceRequest::new("/static/../x").is_none());
    assert!(ResourceRequest::new("/a\0").is_none());
    assert!(request("/").is_root());
    assert!(!request("//").is_root());
    assert!(!request("").is_root());
    assert_eq!(request("/static/app.js").path(), "/static/app.js");
}
