use serve_here::cli::{choose_command, missing_dir_message, validate_port, Command, DEFAULT_PORT};
use serve_here::error::Body;
use serve_here::network::{listening_lines, InterfaceAddress};
use serve_here::server::dashboard_route_paths;
use serve_here::stats::{render_stats_page, stats_page_reply};

#[test]
fn ports_are_validated() {
    assert_eq!(DEFAULT_PORT, 8080);
    assert_eq!(validate_port("8080"), Ok(8080));
    assert_eq!(validate_port("+80"), Ok(80));
    assert_eq!(validate_port("65535"), Ok(65535));
    assert_eq!(validate_port("0"), Err("Port must be 1-65535".to_string()));
    assert_eq!(validate_port("65536"), Err("Invalid port: 65536".to_string()));
    assert_eq!(validate_port("abc"), Err("Invalid port: abc".to_string()));
    assert_eq!(validate_port(""), Err("Invalid port: ".to_string()));
}

#[test]
fn commands_follow_flag_priority() {
    assert!(matches!(choose_command(true, true, true, true), Command::Stop));
    assert!(matches!(choose_command(false, true, true, true), Command::Status));
    assert!(matches!(choose_command(false, false, true, true), Command::DaemonChild));
    assert!(matches!(choose_command(false, false, false, true), Command::Daemon));
    assert!(matches!(choose_command(false, false, false, false), Command::Foreground));
    assert_eq!(missing_dir_message("/x"), "Error: directory \"/x\" does not exist or is not accessible.");
}

#[test]
fn dashboard_paths_move_aside_for_a_real_stats_entry() {
    assert_eq!(dashboard_route_paths(false), ("/stats".to_string(), "/stats/data".to_string()));
    assert_eq!(
        dashboard_route_paths(true),
        ("/.serve-here/stats".to_string(), "/.serve-here/stats/data".to_string())
    );
}

#[test]
fn stats_page_names_the_server() {
    let html = render_stats_page("/srv/<www>", "::1", 8080, 1_700_000_000_000, "/stats/data");
    assert!(html.contains("Service control deck"));
    assert!(html.contains("服务控制台"));
    assert!(html.contains("serve-here-lang"));
    assert!(html.contains("/srv/&lt;www&gt;"));
    assert!(html.contains("http://[::1]:8080"));
    assert!(html.contains("data-started-at-ms=\"1700000000000\""));
    assert!(html.contains("fetch(\"/stats/data\""));
    let reply = stats_page_reply("/srv", "0.0.0.0", 80, 0, "/.serve-here/stats/data");
    assert_eq!(reply.status, 200);
    assert_eq!(reply.headers[0], ("content-type".to_string(), "text/html; charset=utf-8".to_string()));
    assert_eq!(reply.headers[1], ("cache-control".to_string(), "no-cache".to_string()));
    match reply.body {
        Body::Text(t) => assert!(t.contains("/.serve-here/stats/data")),
        _ => panic!("expected html"),
    }
}

#[test]
fn listening_addresses() {
    let ifaces = vec![
        InterfaceAddress { address: "192.168.1.2".to_string(), ipv4_external: true },
        InterfaceAddress { address: "127.0.0.1".to_string(), ipv4_external: false },
        InterfaceAddress { address: "192.168.1.2".to_string(), ipv4_external: true },
        InterfaceAddress { address: "10.0.0.1".to_string(), ipv4_external: true },
    ];
    assert_eq!(
        listening_lines("0.0.0.0", 8080, &Some(ifaces)),
        vec!["  http://localhost:8080/", "  http://192.168.1.2:8080/", "  http://10.0.0.1:8080/"]
    );
    assert_eq!(listening_lines("::", 80, &None), vec!["  http://localhost:80/"]);
    assert_eq!(listening_lines("::1", 80, &None), vec!["  http://[::1]:80/"]);
    assert_eq!(listening_lines("127.0.0.1", 3000, &None), vec!["  http://127.0.0.1:3000/"]);
}
