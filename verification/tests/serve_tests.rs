use serve_here::encoding::url_decode;
use serve_here::error::{Body, Reply, ServeError};
use serve_here::listing::{DirectoryContents, ListingEntry};
use serve_here::serve::{FileInfo, PathKind, ServeAction, ServeEvent, ServeRequest};

fn path(parts: &[&str]) -> Vec<Vec<u8>> {
    parts.iter().map(|s| s.as_bytes().to_vec()).collect()
}

fn root() -> Vec<Vec<u8>> {
    path(&["/", "srv", "www"])
}

fn under_root(parts: &[&str]) -> Vec<Vec<u8>> {
    let mut p = root();
    p.extend(path(parts));
    p
}

fn header<'a>(reply: &'a Reply, name: &str) -> Option<&'a str> {
    reply.headers.iter().find(|(n, _)| n == name).map(|(_, v)| v.as_str())
}

fn start(method: &str, path: &str, query: Option<&str>) -> (ServeRequest, ServeAction) {
    ServeRequest::start(method, path, query.map(|q| q.to_string()), root(), "/stats")
}

#[test]
fn other_methods_are_refused_with_allow_header() {
    let (_, action) = start("POST", "/hello.txt", None);
    match action {
        ServeAction::Fail(ServeError::MethodNotAllowed) => {}
        _ => panic!("expected 405"),
    }
    let reply = ServeError::MethodNotAllowed.reply();
    assert_eq!(reply.status, 405);
    assert_eq!(header(&reply, "allow"), Some("GET, HEAD"));
    match reply.body {
        Body::Text(t) => assert_eq!(t, "405 Method Not Allowed"),
        _ => panic!("expected a text body"),
    }
}

#[test]
fn error_replies() {
    let r = ServeError::NotFound.reply();
    assert_eq!(r.status, 404);
    assert_eq!(header(&r, "content-type"), Some("text/plain; charset=utf-8"));
    assert_eq!(header(&r, "cache-control"), Some("no-store"));
    assert!(header(&r, "allow").is_none());
    match r.body {
        Body::Text(t) => assert_eq!(t, "404 Not Found"),
        _ => panic!("expected a text body"),
    }
    match ServeError::InternalError("secret".to_string()).reply().body {
        Body::Text(t) => assert_eq!(t, "500 Internal Server Error"),
        _ => panic!("expected a text body"),
    }
    match ServeError::BadRequest("Bad Request".to_string()).reply().body {
        Body::Text(t) => assert_eq!(t, "400 Bad Request"),
        _ => panic!("expected a text body"),
    }
}

#[test]
fn undecodable_paths_are_bad_requests() {
    let (_, action) = start("GET", "/%FF", None);
    match action {
        ServeAction::Fail(ServeError::BadRequest(m)) => assert_eq!(m, "Bad Request"),
        _ => panic!("expected 400"),
    }
}

#[test]
fn root_is_looked_up_directly() {
    let (_, action) = start("GET", "/", None);
    match action {
        ServeAction::Stat(p) => assert_eq!(p, root()),
        _ => panic!("expected a stat of the root"),
    }
    let (_, action) = start("GET", "/./", None);
    match action {
        ServeAction::Stat(p) => assert_eq!(p, root()),
        _ => panic!("expected a stat of the root"),
    }
}

#[test]
fn directory_without_slash_redirects_keeping_query() {
    let (mut req, action) = start("GET", "/nested", Some("a=1"));
    match action {
        ServeAction::Canonicalize(segs) => assert_eq!(segs, vec!["nested".to_string()]),
        _ => panic!("expected canonicalize"),
    }
    let action = req.step(ServeEvent::Canonicalized(Some(under_root(&["nested"]))));
    match action {
        ServeAction::Stat(p) => assert_eq!(p, under_root(&["nested"])),
        _ => panic!("expected stat"),
    }
    match req.step(ServeEvent::Stat(PathKind::Directory)) {
        ServeAction::Respond(r) => {
            assert_eq!(r.status, 301);
            assert_eq!(header(&r, "location"), Some("/nested/?a=1"));
            assert!(matches!(r.body, Body::Empty));
        }
        _ => panic!("expected a redirect"),
    }
}

#[test]
fn non_ascii_directory_redirect_keeps_encoding() {
    let (mut req, action) = start("GET", "/%E4%B8%AD%E6%96%87", None);
    match action {
        ServeAction::Canonicalize(segs) => assert_eq!(segs, vec!["中文".to_string()]),
        _ => panic!("expected canonicalize"),
    }
    let _ = req.step(ServeEvent::Canonicalized(Some(under_root(&["中文"]))));
    match req.step(ServeEvent::Stat(PathKind::Directory)) {
        ServeAction::Respond(r) => {
            assert_eq!(header(&r, "location"), Some("/%E4%B8%AD%E6%96%87/"));
            assert_eq!(url_decode(header(&r, "location").unwrap()), Some("/中文/".to_string()));
        }
        _ => panic!("expected a redirect"),
    }
}

#[test]
fn paths_outside_the_root_are_forbidden() {
    let (mut req, _) = start("GET", "/link", None);
    let action = req.step(ServeEvent::Canonicalized(Some(path(&["/", "etc"]))));
    assert!(matches!(action, ServeAction::Fail(ServeError::Forbidden)));
    let (mut req, _) = start("GET", "/link", None);
    let action = req.step(ServeEvent::Canonicalized(Some(path(&["/", "srv"]))));
    assert!(matches!(action, ServeAction::Fail(ServeError::Forbidden)));
}

#[test]
fn missing_and_unreadable_paths() {
    let (mut req, _) = start("GET", "/missing", None);
    assert!(matches!(req.step(ServeEvent::Canonicalized(None)), ServeAction::Fail(ServeError::NotFound)));

    let (mut req, _) = start("GET", "/", None);
    assert!(matches!(req.step(ServeEvent::Stat(PathKind::Missing)), ServeAction::Fail(ServeError::NotFound)));

    let (mut req, _) = start("GET", "/", None);
    match req.step(ServeEvent::Stat(PathKind::Unreadable("denied".to_string()))) {
        ServeAction::Fail(ServeError::InternalError(m)) => assert_eq!(m, "Error reading path: denied"),
        _ => panic!("expected 500"),
    }

    let (mut req, _) = start("GET", "/", None);
    assert!(matches!(req.step(ServeEvent::Stat(PathKind::Other)), ServeAction::Fail(ServeError::Forbidden)));
}

#[test]
fn files_are_opened_then_sent() {
    let (mut req, _) = start("GET", "/hello.txt", None);
    let _ = req.step(ServeEvent::Canonicalized(Some(under_root(&["hello.txt"]))));
    let info = FileInfo { len: 22, modified: 0 };
    match req.step(ServeEvent::Stat(PathKind::File(info))) {
        ServeAction::Open(p) => assert_eq!(p, under_root(&["hello.txt"])),
        _ => panic!("expected open"),
    }
    assert!(req.accepts(&ServeEvent::Opened(Ok(()))));
    assert!(!req.accepts(&ServeEvent::Canonicalized(None)));
    match req.step(ServeEvent::Opened(Ok(()))) {
        ServeAction::Respond(r) => {
            assert_eq!(r.status, 200);
            assert_eq!(header(&r, "content-type"), Some("text/plain"));
            assert_eq!(header(&r, "content-length"), Some("22"));
            assert_eq!(header(&r, "last-modified"), Some("Thu, 01 Jan 1970 00:00:00 GMT"));
            assert_eq!(header(&r, "cache-control"), Some("no-cache"));
            assert!(matches!(r.body, Body::File));
        }
        _ => panic!("expected a reply"),
    }
}

#[test]
fn file_that_cannot_be_opened() {
    let (mut req, _) = start("GET", "/hello.txt", None);
    let _ = req.step(ServeEvent::Canonicalized(Some(under_root(&["hello.txt"]))));
    let _ = req.step(ServeEvent::Stat(PathKind::File(FileInfo { len: 1, modified: 0 })));
    match req.step(ServeEvent::Opened(Err("busy".to_string()))) {
        ServeAction::Fail(ServeError::InternalError(m)) => assert_eq!(m, "Error opening file: busy"),
        _ => panic!("expected 500"),
    }
}

#[test]
fn head_requests_get_headers_only() {
    let (mut req, _) = start("HEAD", "/hello.txt", None);
    let _ = req.step(ServeEvent::Canonicalized(Some(under_root(&["hello.txt"]))));
    match req.step(ServeEvent::Stat(PathKind::File(FileInfo { len: 22, modified: 1_700_000_000 }))) {
        ServeAction::Respond(r) => {
            assert_eq!(header(&r, "content-length"), Some("22"));
            assert_eq!(header(&r, "last-modified"), Some("Tue, 14 Nov 2023 22:13:20 GMT"));
            assert!(matches!(r.body, Body::Empty));
        }
        _ => panic!("expected a reply"),
    }
}

#[test]
fn index_file_is_served_for_a_directory() {
    let (mut req, _) = start("GET", "/", None);
    match req.step(ServeEvent::Stat(PathKind::Directory)) {
        ServeAction::StatIndex(p) => assert_eq!(p, under_root(&["index.html"])),
        _ => panic!("expected a look for index.html"),
    }
    match req.step(ServeEvent::IndexStat(Some(FileInfo { len: 7, modified: 0 }))) {
        ServeAction::Open(p) => assert_eq!(p, under_root(&["index.html"])),
        _ => panic!("expected open"),
    }
    match req.step(ServeEvent::Opened(Ok(()))) {
        ServeAction::Respond(r) => assert_eq!(header(&r, "content-type"), Some("text/html")),
        _ => panic!("expected a reply"),
    }
}

#[test]
fn directory_without_index_is_listed() {
    let (mut req, _) = start("GET", "/", None);
    let _ = req.step(ServeEvent::Stat(PathKind::Directory));
    match req.step(ServeEvent::IndexStat(None)) {
        ServeAction::ListDirectory(p) => assert_eq!(p, root()),
        _ => panic!("expected a listing"),
    }
    let contents = DirectoryContents {
        display: "/srv/www".to_string(),
        entries: vec![ListingEntry { name: "hello.txt".to_string(), is_dir: false, size: Some(22), modified: None }],
    };
    match req.step(ServeEvent::Listed(Ok(contents))) {
        ServeAction::Respond(r) => {
            assert_eq!(r.status, 200);
            assert_eq!(header(&r, "content-type"), Some("text/html; charset=utf-8"));
            assert_eq!(header(&r, "cache-control"), Some("no-cache"));
            let length: usize = header(&r, "content-length").unwrap().parse().unwrap();
            match &r.body {
                Body::Text(html) => {
                    assert_eq!(html.len(), length);
                    assert!(html.contains("hello.txt"));
                    assert!(html.contains("Directory explorer"));
                }
                _ => panic!("expected html"),
            }
        }
        _ => panic!("expected a reply"),
    }
}

#[test]
fn head_listing_keeps_length_without_body() {
    let (mut req, _) = start("HEAD", "/", None);
    let _ = req.step(ServeEvent::Stat(PathKind::Directory));
    let _ = req.step(ServeEvent::IndexStat(None));
    let contents = DirectoryContents { display: "/srv/www".to_string(), entries: Vec::new() };
    match req.step(ServeEvent::Listed(Ok(contents))) {
        ServeAction::Respond(r) => {
            assert!(header(&r, "content-length").unwrap().parse::<usize>().unwrap() > 0);
            assert!(matches!(r.body, Body::Empty));
        }
        _ => panic!("expected a reply"),
    }
}

#[test]
fn listing_errors_are_internal_errors() {
    let (mut req, _) = start("GET", "/", None);
    let _ = req.step(ServeEvent::Stat(PathKind::Directory));
    let _ = req.step(ServeEvent::IndexStat(None));
    match req.step(ServeEvent::Listed(Err("gone".to_string()))) {
        ServeAction::Fail(ServeError::InternalError(m)) => assert_eq!(m, "Error generating directory listing: gone"),
        _ => panic!("expected 500"),
    }
}

#[test]
fn names_that_are_not_text_are_compared_as_bytes() {
    let mut odd_root = path(&["/", "srv"]);
    odd_root.push(vec![0xff]);
    let (mut req, _) = ServeRequest::start("GET", "/x", None, odd_root.clone(), "/stats");
    let mut outside = path(&["/", "srv"]);
    outside.push(vec![0xfe]);
    outside.push(b"x".to_vec());
    assert!(matches!(req.step(ServeEvent::Canonicalized(Some(outside))), ServeAction::Fail(ServeError::Forbidden)));

    let (mut req, _) = ServeRequest::start("GET", "/x", None, odd_root.clone(), "/stats");
    let mut inside = odd_root.clone();
    inside.push(vec![0xfe, b'.', b't', b'x', b't']);
    let _ = req.step(ServeEvent::Canonicalized(Some(inside)));
    let _ = req.step(ServeEvent::Stat(PathKind::File(FileInfo { len: 1, modified: 0 })));
    match req.step(ServeEvent::Opened(Ok(()))) {
        ServeAction::Respond(r) => assert_eq!(header(&r, "content-type"), Some("text/plain")),
        _ => panic!("expected a reply"),
    }
}
