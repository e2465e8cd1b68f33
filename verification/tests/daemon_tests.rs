use serve_here::daemon::{
    plan_servers_report, ServersReport, NO_SERVERS_MESSAGE, RUNNING_SERVERS_HEADER,
    already_running_lines, exited_message, inaccessible_dir_message, log_file_name, no_server_message,
    parse_pid_file, pid_file_content, pid_file_name, plan_start, plan_stop, port_from_pid_file_name,
    process_running, ready_file_name, removes_pid_file, spawn_failed_message, stale_server_message, started_lines,
    status_lines, stopping_message, timed_out_message, PidInfo, StartPlan, StartupStep, StartupWatch,
    StopPlan, StopStep, StopWatch, LOG_DIR_NAME, PID_DIR_NAME,
};

#[test]
fn file_names() {
    assert_eq!(PID_DIR_NAME, ".serve-here");
    assert_eq!(LOG_DIR_NAME, "logs");
    assert_eq!(pid_file_name(8080), "serve-here-8080.pid");
    assert_eq!(log_file_name(3000), "serve-here-3000.log");
    assert_eq!(ready_file_name(1), "serve-here-1.ready");
}

#[test]
fn ports_from_pid_file_names() {
    assert_eq!(port_from_pid_file_name("serve-here-8080.pid"), Some(8080));
    assert_eq!(port_from_pid_file_name("serve-here-65535.pid"), Some(65535));
    assert_eq!(port_from_pid_file_name("serve-here-65536.pid"), None);
    assert_eq!(port_from_pid_file_name("serve-here-x.pid"), None);
    assert_eq!(port_from_pid_file_name("serve-here-.pid"), None);
    assert_eq!(port_from_pid_file_name("other-8080.pid"), None);
    assert_eq!(port_from_pid_file_name("serve-here-8080.log"), None);
}

#[test]
fn pid_files_are_read_back() {
    let content = pid_file_content(1234, "/srv/www");
    assert_eq!(content, "1234\n/srv/www");
    let info = parse_pid_file(&content).unwrap();
    assert_eq!(info.pid, 1234);
    assert_eq!(info.root_dir, "/srv/www");

    let info = parse_pid_file(" 42 \n/dir with space\n").unwrap();
    assert_eq!(info.pid, 42);
    assert_eq!(info.root_dir, "/dir with space");

    let info = parse_pid_file("7").unwrap();
    assert_eq!(info.pid, 7);
    assert_eq!(info.root_dir, "");

    let info = parse_pid_file(&pid_file_content(9, "")).unwrap();
    assert_eq!(info.pid, 9);
    assert_eq!(info.root_dir, "");

    assert!(parse_pid_file("abc\n/x").is_none());
    assert!(parse_pid_file("").is_none());
    assert!(parse_pid_file("4294967296\n/x").is_none());
}

#[test]
fn process_checks() {
    assert!(process_running(0, None, 3));
    assert!(!process_running(-1, Some(3), 3));
    assert!(process_running(-1, Some(1), 3));
    assert!(process_running(-1, None, 3));
}

#[test]
fn start_plans_and_messages() {
    let info = Some(PidInfo { pid: 5, root_dir: "/srv".to_string() });
    assert!(matches!(plan_start(&None, false), StartPlan::Fresh));
    assert!(matches!(plan_start(&info, true), StartPlan::AlreadyRunning));
    assert!(matches!(plan_start(&info, false), StartPlan::RemoveStale));
    let lines = already_running_lines(8080, info.as_ref().unwrap());
    assert_eq!(lines, vec!["Error: Server already running on port 8080 (PID: 5)", "Serving: /srv"]);
    assert_eq!(
        inaccessible_dir_message("/nope", "No such file or directory (os error 2)"),
        "Error: directory \"/nope\" is not accessible: No such file or directory (os error 2)"
    );
    assert_eq!(spawn_failed_message("boom"), "Error: Failed to start daemon: boom");
    assert_eq!(
        started_lines(77, "/srv", 8080, "/home/u/.serve-here/logs/serve-here-8080.log"),
        vec![
            "Server started in background (PID: 77)",
            "Serving: /srv",
            "Listening on port: 8080",
            "Log file: /home/u/.serve-here/logs/serve-here-8080.log",
            "\nTo stop: serve-here --stop -p 8080",
        ]
    );
    assert_eq!(exited_message("/l"), "Error: Failed to start daemon. Check log file: /l");
    assert_eq!(timed_out_message("/l"), "Error: Timed out waiting for daemon readiness. Check log file: /l");
}

#[test]
fn startup_waits_fifty_times_then_times_out() {
    let mut w = StartupWatch::new();
    for _ in 0..50 {
        assert!(matches!(w.poll(false, false), StartupStep::Wait));
    }
    assert!(matches!(w.poll(true, false), StartupStep::TimedOut));

    let mut w = StartupWatch::new();
    assert!(matches!(w.poll(false, false), StartupStep::Wait));
    assert!(matches!(w.poll(true, true), StartupStep::Started));
    let mut w = StartupWatch::new();
    assert!(matches!(w.poll(false, true), StartupStep::Exited));
}

#[test]
fn stop_waits_ten_times_then_kills() {
    let info = Some(PidInfo { pid: 5, root_dir: "/srv".to_string() });
    assert!(matches!(plan_stop(&None, false), StopPlan::NothingToStop));
    assert!(matches!(plan_stop(&info, false), StopPlan::CleanUpStale));
    assert!(matches!(plan_stop(&info, true), StopPlan::Terminate));

    let mut w = StopWatch::new();
    for _ in 0..9 {
        assert!(matches!(w.poll(true), StopStep::Wait));
    }
    assert!(matches!(w.poll(true), StopStep::ForceKill));

    let mut w = StopWatch::new();
    assert!(matches!(w.poll(true), StopStep::Wait));
    assert!(matches!(w.poll(false), StopStep::Stopped));

    assert_eq!(no_server_message(8080), "No server running on port 8080");
    assert_eq!(stale_server_message(12), "Server (PID: 12) is not running, cleaning up...");
    assert_eq!(stopping_message(12), "Stopping server (PID: 12)...");
}

#[test]
fn status_reports() {
    let info = PidInfo { pid: 31, root_dir: "/srv".to_string() };
    assert_eq!(
        status_lines(8080, &info, true, Some("/logs/serve-here-8080.log")),
        vec!["Port 8080:", "  PID: 31", "  Status: running", "  Directory: /srv", "  Log: /logs/serve-here-8080.log"]
    );
    assert_eq!(
        status_lines(9000, &info, false, None),
        vec!["Port 9000:", "  PID: 31", "  Status: stopped", "  Directory: /srv", ""]
    );
}

#[test]
fn stale_pid_files_are_removed_by_reports() {
    assert!(removes_pid_file(false));
    assert!(!removes_pid_file(true));
}

#[test]
fn report_of_all_servers() {
    assert_eq!(NO_SERVERS_MESSAGE, "No servers running.");
    assert_eq!(RUNNING_SERVERS_HEADER, "Running servers:\n");
    assert!(matches!(plan_servers_report(&None), ServersReport::NoServers));
    let none: Vec<String> = vec!["logs".to_string(), "serve-here-80.log".to_string()];
    assert!(matches!(plan_servers_report(&Some(none)), ServersReport::NoServers));
    let names: Vec<String> = vec![
        "serve-here-8080.pid".to_string(),
        "logs".to_string(),
        "notes.pid".to_string(),
        "serve-here-3000.pid".to_string(),
    ];
    match plan_servers_report(&Some(names)) {
        ServersReport::Servers(ports) => assert_eq!(ports, vec![Some(8080), None, Some(3000)]),
        ServersReport::NoServers => panic!("expected servers"),
    }
}
