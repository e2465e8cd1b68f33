use serve_here::metrics::{
    is_tracked, push_history, request_event, sorted_count_items, sorted_status_items, unix_ms, CountItem,
    RequestEvent, RequestMetrics, StatusCountItem,
};

fn event(method: &str, route: &str, status: u16, client: Option<&str>, bytes: Option<u64>) -> RequestEvent {
    RequestEvent {
        method: method.to_string(),
        path: route.to_string(),
        route: route.to_string(),
        status,
        duration_ms: 3,
        client_ip: client.map(|c| c.to_string()),
        user_agent: None,
        response_bytes: bytes,
    }
}

#[test]
fn caps_recent_request_history_at_one_thousand() {
    let mut m = RequestMetrics::new();
    for i in 0..1005u64 {
        m.record_request(event("GET", "/hello.txt", 200, Some("127.0.0.1"), Some(1)), i);
    }
    let snap = m.counts_snapshot();
    assert_eq!(snap.total_requests, 1005);
    assert_eq!(snap.recent_requests.len(), 1000);
    assert_eq!(snap.recent_requests[0].timestamp_ms, 1004);
    assert_eq!(snap.recent_requests[999].timestamp_ms, 5);
    assert_eq!(snap.recent_requests[0].route, "/hello.txt");
    assert_eq!(snap.top_routes.len(), 1);
    assert_eq!(snap.top_routes[0].label, "/hello.txt");
    assert_eq!(snap.top_routes[0].count, 1005);
    assert_eq!(snap.total_bytes_sent, 1005);
    assert_eq!(snap.last_request_at_ms, Some(1004));
}

#[test]
fn counts_by_route_method_status_and_client() {
    let mut m = RequestMetrics::new();
    m.record_request(event("GET", "/a", 200, Some("10.0.0.1"), None), 1);
    m.record_request(event("GET", "/b", 404, Some("10.0.0.2"), Some(10)), 2);
    m.record_request(event("HEAD", "/b", 200, None, Some(0)), 3);
    m.record_request(event("GET", "/c", 301, Some("10.0.0.1"), Some(5)), 4);
    let snap = m.counts_snapshot();
    assert_eq!(snap.total_requests, 4);
    assert_eq!(snap.unique_routes, 3);
    assert!(!snap.unique_routes_capped);
    assert_eq!(snap.unique_clients, 2);
    assert_eq!(snap.total_bytes_sent, 15);
    let routes: Vec<(&str, u64)> = snap.top_routes.iter().map(|c| (c.label.as_str(), c.count)).collect();
    assert_eq!(routes, vec![("/b", 2), ("/a", 1), ("/c", 1)]);
    let methods: Vec<(&str, u64)> = snap.methods.iter().map(|c| (c.label.as_str(), c.count)).collect();
    assert_eq!(methods, vec![("GET", 3), ("HEAD", 1)]);
    let clients: Vec<(&str, u64)> = snap.top_clients.iter().map(|c| (c.label.as_str(), c.count)).collect();
    assert_eq!(clients, vec![("10.0.0.1", 2), ("10.0.0.2", 1)]);
    let statuses: Vec<(u16, u64)> = snap.statuses.iter().map(|s| (s.status, s.count)).collect();
    assert_eq!(statuses, vec![(200, 2), (301, 1), (404, 1)]);
    assert_eq!(snap.recent_requests[0].route, "/c");
    assert_eq!(snap.recent_requests[3].route, "/a");
}

#[test]
fn routes_beyond_the_cap_are_counted_together() {
    let mut m = RequestMetrics::new();
    for i in 0..2050u64 {
        m.record_request(event("GET", &format!("/r{}", i), 200, None, None), i);
    }
    m.record_request(event("GET", "/r0", 200, None, None), 9999);
    let snap = m.counts_snapshot();
    assert_eq!(snap.unique_routes, 2048);
    assert!(snap.unique_routes_capped);
    assert_eq!(m.other_route_requests, 2);
    assert_eq!(snap.top_routes.len(), 10);
    assert_eq!(snap.top_routes[0].label, "/r0");
    assert_eq!(snap.top_routes[0].count, 2);
    assert_eq!(snap.top_routes[1].label, "[other routes]");
    assert_eq!(snap.top_routes[1].count, 2);
}

#[test]
fn clients_beyond_the_cap_are_counted_together() {
    let mut m = RequestMetrics::new();
    for i in 0..1030u64 {
        m.record_request(event("GET", "/", 200, Some(&format!("10.0.{}.{}", i / 256, i % 256)), None), i);
    }
    let snap = m.counts_snapshot();
    assert_eq!(snap.unique_clients, 1024);
    assert!(snap.unique_clients_capped);
    assert_eq!(snap.top_clients.len(), 8);
    assert_eq!(snap.top_clients[0].label, "[other clients]");
    assert_eq!(snap.top_clients[0].count, 6);
}

#[test]
fn byte_total_wraps_around() {
    let mut m = RequestMetrics::new();
    m.record_request(event("GET", "/", 200, None, Some(u64::MAX)), 1);
    m.record_request(event("GET", "/", 200, None, Some(2)), 2);
    assert_eq!(m.total_bytes_sent, 1);
}

#[test]
fn sorted_count_items_orders_and_cuts() {
    let items = vec![
        CountItem { label: "b".to_string(), count: 2 },
        CountItem { label: "a".to_string(), count: 2 },
        CountItem { label: "c".to_string(), count: 5 },
        CountItem { label: "d".to_string(), count: 1 },
    ];
    let top = sorted_count_items(&items, 3, 4, "[other]");
    let got: Vec<(&str, u64)> = top.iter().map(|c| (c.label.as_str(), c.count)).collect();
    assert_eq!(got, vec![("c", 5), ("[other]", 4), ("a", 2)]);
    let all = sorted_count_items(&items, 10, 0, "");
    assert_eq!(all.len(), 4);
    assert_eq!(all[3].label, "d");
}

#[test]
fn sorted_status_items_ascend() {
    let items = vec![
        StatusCountItem { status: 404, count: 1 },
        StatusCountItem { status: 200, count: 9 },
        StatusCountItem { status: 301, count: 2 },
    ];
    let sorted = sorted_status_items(&items);
    let got: Vec<u16> = sorted.iter().map(|s| s.status).collect();
    assert_eq!(got, vec![200, 301, 404]);
}

#[test]
fn tracked_events() {
    assert!(!is_tracked("/stats/data", "/stats/data"));
    assert!(is_tracked("/stats", "/stats/data"));
    let e = request_event("GET", "/x", true, 200, 7, Some("1.2.3.4".to_string()), Some("curl".to_string()), Some("42".to_string()));
    assert_eq!(e.path, "/x?...");
    assert_eq!(e.route, "/x");
    assert_eq!(e.response_bytes, Some(42));
    assert_eq!(e.duration_ms, 7);
    assert_eq!(e.client_ip.as_deref(), Some("1.2.3.4"));
    assert_eq!(e.user_agent.as_deref(), Some("curl"));
    let head = request_event("HEAD", "/x", false, 200, 1, None, None, Some("42".to_string()));
    assert_eq!(head.path, "/x");
    assert_eq!(head.response_bytes, Some(0));
    let bad = request_event("GET", "/x", false, 200, 1, None, None, Some("4x".to_string()));
    assert_eq!(bad.response_bytes, None);
    let none = request_event("GET", "/x", false, 200, 1, None, None, None);
    assert_eq!(none.response_bytes, None);
}

#[test]
fn history_keeps_the_newest() {
    let mut h: Vec<u32> = Vec::new();
    for i in 0..65u32 {
        push_history(&mut h, i, 60);
    }
    assert_eq!(h.len(), 60);
    assert_eq!(h[0], 5);
    assert_eq!(h[59], 64);
}

#[test]
fn unix_ms_clamps() {
    assert_eq!(unix_ms(None), 0);
    assert_eq!(unix_ms(Some(1234)), 1234);
    assert_eq!(unix_ms(Some(u128::MAX)), u64::MAX);
}

#[test]
fn two_snapshots_agree() {
    let mut m = RequestMetrics::new();
    m.record_request(event("GET", "/a", 500, Some("10.0.0.1"), Some(3)), 1);
    m.record_request(event("GET", "/b", 200, Some("10.0.0.2"), Some(4)), 2);
    m.record_request(event("POST", "/a", 405, None, None), 3);
    let a = m.counts_snapshot();
    let b = m.counts_snapshot();
    assert_eq!(a.total_requests, b.total_requests);
    let routes = |s: &serve_here::metrics::CountsSnapshot| s.top_routes.iter().map(|c| (c.label.clone(), c.count)).collect::<Vec<_>>();
    assert_eq!(routes(&a), routes(&b));
    let statuses = |s: &serve_here::metrics::CountsSnapshot| s.statuses.iter().map(|c| (c.status, c.count)).collect::<Vec<_>>();
    assert_eq!(statuses(&a), vec![(200, 1), (405, 1), (500, 1)]);
    assert_eq!(statuses(&a), statuses(&b));
    assert!(a.recent_requests.iter().map(|r| r.timestamp_ms).eq(b.recent_requests.iter().map(|r| r.timestamp_ms)));
}

#[test]
fn overflow_flags_stay_set() {
    let mut m = RequestMetrics::new();
    for i in 0..2049u64 {
        m.record_request(event("GET", &format!("/r{}", i), 200, None, None), i);
    }
    assert!(m.route_count_overflowed);
    m.record_request(event("GET", "/r0", 200, None, None), 5000);
    assert!(m.route_count_overflowed);
    assert_eq!(m.other_route_requests, 1);
}
