use serve_here::error::{Body, Reply};
use serve_here::listing::{DirectoryContents, ListingEntry};
use serve_here::metrics::{is_tracked, request_event, RequestMetrics};
use serve_here::serve::{FileInfo, PathKind, ServeAction, ServeEvent, ServeRequest};
use serve_here::server::dashboard_route_paths;
use serve_here::stats::stats_page_reply;

/// A directory tree held in memory: every path with its file size, or `None` for a directory.
struct Tree {
    nodes: Vec<(Vec<String>, Option<u64>)>,
}

fn root() -> Vec<String> {
    vec!["/".to_string(), "srv".to_string()]
}

fn to_bytes(p: &[String]) -> Vec<Vec<u8>> {
    p.iter().map(|c| c.as_bytes().to_vec()).collect()
}

fn to_names(p: &[Vec<u8>]) -> Vec<String> {
    p.iter().map(|c| String::from_utf8(c.clone()).unwrap()).collect()
}

fn at(parts: &[&str]) -> Vec<String> {
    let mut p = root();
    p.extend(parts.iter().map(|s| s.to_string()));
    p
}

impl Tree {
    fn fixture() -> Tree {
        Tree {
            nodes: vec![
                (root(), None),
                (at(&["hello.txt"]), Some(22)),
                (at(&["nested"]), None),
                (at(&["nested", "deep.txt"]), Some(10)),
                (at(&["中文"]), None),
                (at(&["中文", "readme.txt"]), Some(13)),
            ],
        }
    }

    fn find(&self, path: &[String]) -> Option<Option<u64>> {
        self.nodes.iter().find(|(p, _)| p.as_slice() == path).map(|(_, size)| *size)
    }

    fn children(&self, dir: &[String]) -> Vec<ListingEntry> {
        self.nodes
            .iter()
            .filter(|(p, _)| p.len() == dir.len() + 1 && p[..dir.len()] == *dir)
            .map(|(p, size)| ListingEntry {
                name: p[dir.len()].clone(),
                is_dir: size.is_none(),
                size: *size,
                modified: Some(1_700_000_000),
            })
            .collect()
    }

    /// Serves one request, doing the work the request machine asks for on this tree.
    fn serve(&self, method: &str, path: &str, query: Option<&str>, dashboard_path: &str) -> Reply {
        let (mut request, mut action) =
            ServeRequest::start(method, path, query.map(|q| q.to_string()), to_bytes(&root()), dashboard_path);
        loop {
            let event = match action {
                ServeAction::Fail(error) => return error.reply(),
                ServeAction::Respond(reply) => return reply,
                ServeAction::Canonicalize(segments) => {
                    let mut p = root();
                    for segment in segments {
                        if segment == ".." {
                            if p.len() > 1 {
                                p.pop();
                            }
                        } else {
                            p.push(segment);
                        }
                    }
                    ServeEvent::Canonicalized(self.find(&p).map(|_| to_bytes(&p)))
                }
                ServeAction::Stat(p) => ServeEvent::Stat(match self.find(&to_names(&p)) {
                    None => PathKind::Missing,
                    Some(None) => PathKind::Directory,
                    Some(Some(len)) => PathKind::File(FileInfo { len, modified: 0 }),
                }),
                ServeAction::StatIndex(p) => ServeEvent::IndexStat(match self.find(&to_names(&p)) {
                    Some(Some(len)) => Some(FileInfo { len, modified: 0 }),
                    _ => None,
                }),
                ServeAction::ListDirectory(p) => {
                    let p = to_names(&p);
                    ServeEvent::Listed(Ok(DirectoryContents {
                        display: p[1..].iter().fold(String::new(), |acc, c| acc + "/" + c),
                        entries: self.children(&p),
                    }))
                }
                ServeAction::Open(_) => ServeEvent::Opened(Ok(())),
            };
            assert!(request.accepts(&event));
            action = request.step(event);
        }
    }
}

fn text(reply: &Reply) -> &str {
    match &reply.body {
        Body::Text(t) => t.as_str(),
        _ => "",
    }
}

fn header<'a>(reply: &'a Reply, name: &str) -> Option<&'a str> {
    reply.headers.iter().find(|(n, _)| n == name).map(|(_, v)| v.as_str())
}

#[test]
fn serves_directory_listing_stats_and_files() {
    let tree = Tree::fixture();
    let (dashboard_path, dashboard_data_path) = dashboard_route_paths(tree.find(&at(&["stats"])).is_some());
    let mut metrics = RequestMetrics::new();
    let mut count = |method: &str, route: &str, reply: &Reply| {
        let event = request_event(method, route, false, reply.status, 1, None, None, header(reply, "content-length").map(|v| v.to_string()));
        if is_tracked(route, &dashboard_data_path) {
            metrics.record_request(event, 0);
        }
    };

    let root_reply = tree.serve("GET", "/", None, &dashboard_path);
    assert_eq!(root_reply.status, 200);
    let root_html = text(&root_reply);
    assert!(root_html.contains("Directory explorer"));
    assert!(root_html.contains("Open stats dashboard"));
    assert!(root_html.contains(r#"href="/stats""#));
    assert!(root_html.contains("serve-here-theme"));
    assert!(root_html.contains("打开统计面板"));
    assert!(root_html.contains("hello.txt"));
    assert!(root_html.contains("nested/"));
    count("GET", "/", &root_reply);

    let redirect = tree.serve("GET", "/nested", None, &dashboard_path);
    assert_eq!(redirect.status, 301);
    assert_eq!(header(&redirect, "location"), Some("/nested/"));
    count("GET", "/nested", &redirect);

    let nested = tree.serve("GET", "/nested/", None, &dashboard_path);
    assert_eq!(nested.status, 200);
    let nested_html = text(&nested);
    assert!(nested_html.contains("Parent directory"));
    assert!(nested_html.contains(r#"href="/stats""#));
    assert!(nested_html.contains("breadcrumb_root"));
    assert!(nested_html.contains("deep.txt"));
    count("GET", "/nested/", &nested);

    let file = tree.serve("GET", "/hello.txt", None, &dashboard_path);
    assert_eq!(file.status, 200);
    assert!(matches!(file.body, Body::File));
    assert_eq!(header(&file, "content-length"), Some("22"));
    count("GET", "/hello.txt", &file);

    let head = tree.serve("HEAD", "/", None, &dashboard_path);
    assert_eq!(head.status, 200);
    let content_length = header(&head, "content-length").expect("missing content-length");
    assert_ne!(content_length, "0");
    assert!(matches!(head.body, Body::Empty));
    count("HEAD", "/", &head);

    let stats_page = stats_page_reply("/srv", "127.0.0.1", 8080, 0, &dashboard_data_path);
    assert_eq!(stats_page.status, 200);
    let stats_html = text(&stats_page);
    assert!(stats_html.contains("Service control deck"));
    assert!(stats_html.contains("/stats/data"));
    assert!(stats_html.contains("serve-here-lang"));
    assert!(stats_html.contains("服务控制台"));
    count("GET", &dashboard_path, &stats_page);
    count("GET", &dashboard_data_path, &stats_page);

    let snapshot = metrics.counts_snapshot();
    assert_eq!(snapshot.total_requests, 6);
    assert_eq!(snapshot.unique_routes, 5);
    assert!(snapshot.recent_requests.iter().any(|item| item.path == "/stats"));
    assert!(snapshot.recent_requests.iter().all(|item| item.route != "/stats/data"));
}

#[test]
fn supports_non_ascii_paths_and_rejects_unsupported_methods() {
    let tree = Tree::fixture();
    let redirect = tree.serve("GET", "/%E4%B8%AD%E6%96%87", None, "/stats");
    assert_eq!(redirect.status, 301);
    assert_eq!(header(&redirect, "location"), Some("/%E4%B8%AD%E6%96%87/"));

    let chinese_dir = tree.serve("GET", "/%E4%B8%AD%E6%96%87/", None, "/stats");
    assert_eq!(chinese_dir.status, 200);
    assert!(text(&chinese_dir).contains("readme.txt"));

    let post = tree.serve("POST", "/hello.txt", None, "/stats");
    assert_eq!(post.status, 405);
    assert_eq!(header(&post, "allow"), Some("GET, HEAD"));
}

#[test]
fn preserves_real_stats_paths_when_the_filesystem_uses_that_name() {
    let mut tree = Tree::fixture();
    tree.nodes.push((at(&["stats"]), Some(16)));
    let (dashboard_path, dashboard_data_path) = dashboard_route_paths(tree.find(&at(&["stats"])).is_some());
    assert_eq!(dashboard_path, "/.serve-here/stats");
    assert_eq!(dashboard_data_path, "/.serve-here/stats/data");

    let file = tree.serve("GET", "/stats", None, &dashboard_path);
    assert_eq!(file.status, 200);
    assert!(matches!(file.body, Body::File));
    assert_eq!(header(&file, "content-length"), Some("16"));

    let dashboard = stats_page_reply("/srv", "127.0.0.1", 8080, 0, &dashboard_data_path);
    assert_eq!(dashboard.status, 200);
    assert!(text(&dashboard).contains("Service control deck"));
    assert!(text(&dashboard).contains("/.serve-here/stats/data"));

    let root_reply = tree.serve("GET", "/", None, &dashboard_path);
    assert_eq!(root_reply.status, 200);
    assert!(text(&root_reply).contains(r#"href="/.serve-here/stats""#));
}

#[test]
fn missing_paths_and_escapes_from_the_root() {
    let mut tree = Tree::fixture();
    tree.nodes.push((vec!["/".to_string(), "etc".to_string(), "passwd".to_string()], Some(100)));
    assert_eq!(tree.serve("GET", "/nope.txt", None, "/stats").status, 404);
    assert_eq!(tree.serve("GET", "/%FF", None, "/stats").status, 400);
    assert_eq!(tree.serve("GET", "/../etc/passwd", None, "/stats").status, 403);
    assert_eq!(tree.serve("GET", "/%2E%2E/etc/passwd", None, "/stats").status, 403);
    assert_eq!(tree.serve("GET", "/nested/../hello.txt", None, "/stats").status, 200);
}

#[test]
fn directory_with_only_index_htm_is_listed() {
    let mut tree = Tree::fixture();
    tree.nodes.push((at(&["site"]), None));
    tree.nodes.push((at(&["site", "index.htm"]), Some(5)));
    let reply = tree.serve("GET", "/site/", None, "/stats");
    assert_eq!(reply.status, 200);
    assert!(text(&reply).contains("index.htm"));
    assert!(text(&reply).contains("Directory explorer"));
    tree.nodes.push((at(&["site", "index.html"]), Some(9)));
    let reply = tree.serve("GET", "/site/", None, "/stats");
    assert!(matches!(reply.body, Body::File));
    assert_eq!(header(&reply, "content-length"), Some("9"));
}
