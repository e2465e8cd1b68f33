use serve_here::encoding::url_decode;
use serve_here::listing::{build_breadcrumbs, generate_listing_html, sort_entries, ListingEntry};

fn entry(name: &str, is_dir: bool, size: Option<u64>, modified: Option<i64>) -> ListingEntry {
    ListingEntry { name: name.to_string(), is_dir, size, modified }
}

fn fixture() -> Vec<ListingEntry> {
    vec![
        entry("hello.txt", false, Some(22), Some(1_700_000_000)),
        entry("nested", true, None, Some(1_700_000_100)),
        entry("中文", true, None, None),
    ]
}

#[test]
fn root_listing_shows_entries_and_dashboard_link() {
    let html = generate_listing_html("/", "/srv/www", "/stats", fixture());
    assert!(html.contains("Directory explorer"));
    assert!(html.contains("Open stats dashboard"));
    assert!(html.contains(r#"href="/stats""#));
    assert!(html.contains("serve-here-theme"));
    assert!(html.contains("打开统计面板"));
    assert!(html.contains("hello.txt"));
    assert!(html.contains("nested/"));
    assert!(html.contains(r#"href="%E4%B8%AD%E6%96%87/""#));
    assert_eq!(url_decode("%E4%B8%AD%E6%96%87/"), Some("中文/".to_string()));
    assert!(html.contains("/srv/www"));
    assert!(!html.contains(r#"data-name="..""#));
}

#[test]
fn nested_listing_has_parent_row_and_breadcrumbs() {
    let html = generate_listing_html("/nested/", "/srv/www/nested", "/stats", vec![entry("deep.txt", false, Some(5), None)]);
    assert!(html.contains("Parent directory"));
    assert!(html.contains(r#"data-name="..""#));
    assert!(html.contains("breadcrumb_root"));
    assert!(html.contains("deep.txt"));
}

#[test]
fn listing_escapes_names_and_dashboard_path() {
    let html = generate_listing_html("/", "/srv/<www>", "/.serve-here/stats", vec![entry("<b>.txt", false, Some(1), None)]);
    assert!(html.contains("&lt;b&gt;.txt"));
    assert!(!html.contains("<b>.txt"));
    assert!(html.contains("/srv/&lt;www&gt;"));
    assert!(html.contains(r#"href="/.serve-here/stats""#));
}

#[test]
fn empty_directory_listing() {
    let html = generate_listing_html("/empty/", "/srv/www/empty", "/stats", Vec::new());
    assert!(html.contains("Parent directory"));
}

#[test]
fn entries_sort_directories_first_then_by_name() {
    let sorted = sort_entries(vec![
        entry("b.txt", false, Some(1), None),
        entry("zeta", true, None, None),
        entry("a.txt", false, Some(1), None),
        entry("alpha", true, None, None),
    ]);
    let names: Vec<&str> = sorted.iter().map(|e| e.name.as_str()).collect();
    assert_eq!(names, vec!["alpha", "zeta", "a.txt", "b.txt"]);
}

#[test]
fn breadcrumbs_link_each_prefix() {
    assert_eq!(
        build_breadcrumbs("/"),
        r#"<a class="crumb" href="/" data-i18n="breadcrumb_root">Root</a>"#
    );
    assert_eq!(
        build_breadcrumbs("/a b/c/"),
        r#"<a class="crumb" href="/" data-i18n="breadcrumb_root">Root</a><span class="muted">/</span><a class="crumb" href="/a%20b/">a b</a><span class="muted">/</span><a class="crumb" href="/a%20b/c/">c</a>"#
    );
}
