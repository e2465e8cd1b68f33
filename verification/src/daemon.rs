//! Running the server in the background: the files that track a background server, and
//! the decisions and messages of starting, stopping and listing background servers.
use vstd::prelude::*;
use crate::text::{
    all_digits, chars_of, dec, digits_value, has_prefix, has_suffix, is_digit, is_whitespace,
    lemma_dec_digits, leading_ws, parse_unsigned, parse_unsigned_chars, push_dec, string_of_range,
    trailing_ws, trim, trim_bounds,
};

verus! {

/// The directory, under the home directory, that holds the files of background servers.
pub const PID_DIR_NAME: &'static str = ".serve-here";
/// The directory, under that one, that holds their logs.
pub const LOG_DIR_NAME: &'static str = "logs";

/// What a PID file says: the process and the directory it serves.
pub struct PidInfo {
    pub pid: u32,
    pub root_dir: String,
}

/// The name of the PID file of the server on `port`.
pub open spec fn pid_file_name_text(port: u16) -> Seq<char> {
    "serve-here-"@ + dec(port as nat) + ".pid"@
}

/// The name of the log file of the server on `port`.
pub open spec fn log_file_name_text(port: u16) -> Seq<char> {
    "serve-here-"@ + dec(port as nat) + ".log"@
}

/// The name of the file by which the server on `port` says that it is ready.
pub open spec fn ready_file_name_text(port: u16) -> Seq<char> {
    "serve-here-"@ + dec(port as nat) + ".ready"@
}

fn file_name(port: u16, suffix: &str) -> (r: String)
    ensures
        r@ == "serve-here-"@ + dec(port as nat) + suffix@,
{
    let mut r = String::from_str("serve-here-");
    push_dec(&mut r, port as u64);
    r.append(suffix);
    r
}

/// The name of the PID file of the server on `port`.
pub fn pid_file_name(port: u16) -> (r: String)
    ensures
        r@ == pid_file_name_text(port),
{
    file_name(port, ".pid")
}

/// The name of the log file of the server on `port`.
pub fn log_file_name(port: u16) -> (r: String)
    ensures
        r@ == log_file_name_text(port),
{
    file_name(port, ".log")
}

/// The name of the readiness file of the server on `port`.
pub fn ready_file_name(port: u16) -> (r: String)
    ensures
        r@ == ready_file_name_text(port),
{
    file_name(port, ".ready")
}

/// The port of a PID file's name: the name is `serve-here-`, the port, `.pid`.
pub open spec fn port_of_file_name(name: Seq<char>) -> Option<u16> {
    let prefix = "serve-here-"@;
    let suffix = ".pid"@;
    if name.len() >= prefix.len() && name.take(prefix.len() as int) == prefix {
        let rest = name.skip(prefix.len() as int);
        if rest.len() >= suffix.len() && rest.skip(rest.len() - suffix.len()) == suffix {
            match parse_unsigned(rest.take(rest.len() - suffix.len()), u16::MAX as nat) {
                Some(n) => Some(n as u16),
                None => None,
            }
        } else {
            None
        }
    } else {
        None
    }
}

/// The port of a PID file, from its name; `None` for other files.
pub fn port_from_pid_file_name(name: &str) -> (r: Option<u16>)
    ensures
        r == port_of_file_name(name@),
{
    let cs = chars_of(name);
    proof {
        reveal_strlit("serve-here-");
        reveal_strlit(".pid");
    }
    if !has_prefix(&cs, "serve-here-") {
        return None;
    }
    let rest_str = string_of_range(&cs, 11, cs.len());
    let rest = chars_of(rest_str.as_str());
    proof {
        assert(rest@ =~= cs@.skip(11));
    }
    if !has_suffix(&rest, ".pid") {
        return None;
    }
    let body_str = string_of_range(&rest, 0, rest.len() - 4);
    let body = chars_of(body_str.as_str());
    proof {
        assert(body@ =~= rest@.take(rest@.len() - 4));
    }
    match parse_unsigned_chars(&body, u16::MAX as u64) {
        Some(n) => Some(n as u16),
        None => None,
    }
}

// ----------------------------------------------------------------------------
// The PID file
// ----------------------------------------------------------------------------

/// What the PID file of a server holds: its process id, a line break, its directory.
pub open spec fn pid_file_text(pid: u32, root_dir: Seq<char>) -> Seq<char> {
    dec(pid as nat) + "\n"@ + root_dir
}

/// The index of the first line break in `s`, if any.
pub open spec fn first_newline(s: Seq<char>) -> Option<int>
    decreases s.len(),
{
    if s.len() == 0 {
        None
    } else if s[0] == '\n' {
        Some(0)
    } else {
        match first_newline(s.drop_first()) {
            Some(k) => Some(k + 1),
            None => None,
        }
    }
}

/// What a PID file's contents say: the text is trimmed, its first line (trimmed again) must
/// be a process id, and the rest, after the line break, is the directory (empty when there
/// is no second line).
pub open spec fn parsed_pid_file(content: Seq<char>) -> Option<(u32, Seq<char>)> {
    let t = trim(content);
    let (first, rest) = match first_newline(t) {
        Some(k) => (t.take(k), t.skip(k + 1)),
        None => (t, Seq::<char>::empty()),
    };
    match parse_unsigned(trim(first), u32::MAX as nat) {
        Some(n) => Some((n as u32, rest)),
        None => None,
    }
}

proof fn lemma_first_newline(s: Seq<char>, k: int)
    requires
        0 <= k <= s.len(),
        forall|j: int| 0 <= j < k ==> #[trigger] s[j] != '\n',
    ensures
        k < s.len() && s[k] == '\n' ==> first_newline(s) == Some(k),
        k == s.len() ==> first_newline(s) is None,
    decreases k,
{
    if k > 0 {
        assert forall|j: int| 0 <= j < k - 1 implies #[trigger] s.drop_first()[j] != '\n' by {
            assert(s.drop_first()[j] == s[j + 1]);
        }
        lemma_first_newline(s.drop_first(), k - 1);
    }
}

fn sub_chars(cs: &Vec<char>, from: usize, to: usize) -> (r: Vec<char>)
    requires
        from <= to <= cs.len(),
    ensures
        r@ == cs@.subrange(from as int, to as int),
{
    let mut r: Vec<char> = Vec::new();
    let mut i = from;
    while i < to
        invariant
            from <= i <= to <= cs.len(),
            r@ == cs@.subrange(from as int, i as int),
        decreases to - i,
    {
        r.push(cs[i]);
        proof {
            assert(r@ =~= cs@.subrange(from as int, i + 1));
        }
        i = i + 1;
    }
    r
}

/// Reads the contents of a PID file; `None` when its first line is not a process id.
pub fn parse_pid_file(content: &str) -> (r: Option<PidInfo>)
    ensures
        match r {
            Some(info) => parsed_pid_file(content@) == Some((info.pid, info.root_dir@)),
            None => parsed_pid_file(content@) is None,
        },
{
    let cs = chars_of(content);
    let (a, b) = trim_bounds(&cs);
    let ghost t = cs@.subrange(a as int, b as int);
    let mut k = a;
    while k < b && cs[k] != '\n'
        invariant
            a <= k <= b <= cs.len(),
            t == cs@.subrange(a as int, b as int),
            forall|j: int| 0 <= j < k - a ==> #[trigger] t[j] != '\n',
        decreases b - k,
    {
        proof {
            assert(t[k - a] == cs@[k as int]);
        }
        k = k + 1;
    }
    proof {
        if k < b {
            assert(t[k - a] == cs@[k as int]);
        }
        lemma_first_newline(t, k - a);
    }
    let first = sub_chars(&cs, a, k);
    let root_dir = if k < b { string_of_range(&cs, k + 1, b) } else { String::new() };
    let (c, d) = trim_bounds(&first);
    let digits = sub_chars(&first, c, d);
    proof {
        assert(first@ =~= (if k < b { t.take(k - a) } else { t }));
        if k < b {
            assert(root_dir@ =~= t.skip(k - a + 1));
        }
    }
    match parse_unsigned_chars(&digits, u32::MAX as u64) {
        Some(n) => Some(PidInfo { pid: n as u32, root_dir }),
        None => None,
    }
}

/// The contents of the PID file of process `pid` serving `root_dir`.
pub fn pid_file_content(pid: u32, root_dir: &str) -> (r: String)
    ensures
        r@ == pid_file_text(pid, root_dir@),
{
    let mut r = String::new();
    push_dec(&mut r, pid as u64);
    r.append("\n");
    r.append(root_dir);
    r
}

proof fn lemma_no_edge_ws(s: Seq<char>)
    requires
        s.len() > 0,
        !is_whitespace(s[0]),
        !is_whitespace(s.last()),
    ensures
        trim(s) == s,
{
    assert(s.skip(0) =~= s);
}

proof fn lemma_digits_not_ws(s: Seq<char>)
    requires
        all_digits(s),
    ensures
        forall|i: int| 0 <= i < s.len() ==> !is_whitespace(#[trigger] s[i]) && s[i] != '\n' && s[i] != '+',
{
    assert forall|i: int| 0 <= i < s.len() implies !is_whitespace(#[trigger] s[i]) && s[i] != '\n' && s[i] != '+' by {
        assert(is_digit(s[i]));
    }
}

/// Reading a PID file gives back what was written: the process id, and the directory,
/// whenever the directory does not end in whitespace (which reading trims away).
pub proof fn pid_file_round_trip(pid: u32, root_dir: Seq<char>)
    requires
        trailing_ws(root_dir) == 0,
    ensures
        parsed_pid_file(pid_file_text(pid, root_dir)) == Some((pid, root_dir)),
{
    let d = dec(pid as nat);
    let content = pid_file_text(pid, root_dir);
    reveal_strlit("\n");
    lemma_dec_digits(pid as nat);
    lemma_digits_not_ws(d);
    assert(trim(d) == d) by {
        lemma_no_edge_ws(d);
    }
    assert forall|j: int| 0 <= j < d.len() implies #[trigger] d[j] != '\n' by {}
    assert(parse_unsigned(d, u32::MAX as nat) == Some(pid as nat)) by {
        assert(d[0] != '+');
    }
    if root_dir.len() == 0 {
        assert(content =~= d.push('\n'));
        assert(content.drop_last() =~= d);
        assert(trailing_ws(d) == 0);
        assert(trailing_ws(content) == 1);
        assert(leading_ws(content) == 0);
        assert(content.skip(0) =~= content);
        assert(trim(content) =~= d);
        lemma_first_newline(d, d.len() as int);
    } else {
        assert(content[0] == d[0]);
        assert(content.last() == root_dir.last());
        assert(!is_whitespace(root_dir.last()));
        lemma_no_edge_ws(content);
        assert forall|j: int| 0 <= j < d.len() implies #[trigger] content[j] != '\n' by {
            assert(content[j] == d[j]);
        }
        lemma_first_newline(content, d.len() as int);
        assert(content.take(d.len() as int) =~= d);
        assert(content.skip(d.len() as int + 1) =~= root_dir);
    }
}

// ----------------------------------------------------------------------------
// Processes
// ----------------------------------------------------------------------------

/// Whether a process is running, from what `kill(pid, 0)` returned and the error it set:
/// it runs unless the signal failed because there is no such process (`esrch`); a process
/// that may not be signalled still runs.
pub fn process_running(kill_status: i32, os_error: Option<i32>, esrch: i32) -> (r: bool)
    ensures
        r == (kill_status == 0 || os_error != Some(esrch)),
{
    if kill_status == 0 {
        true
    } else {
        match os_error {
            Some(e) => e != esrch,
            None => true,
        }
    }
}

// ----------------------------------------------------------------------------
// Starting a background server
// ----------------------------------------------------------------------------

/// How many times the start waits for the server to be ready, a tenth of a second each.
pub const MAX_START_POLLS: u32 = 50;

/// What to do about a server that a PID file says is on the port.
pub enum StartPlan {
    /// No PID file: go ahead.
    Fresh,
    /// The process is gone: remove its PID file and go ahead.
    RemoveStale,
    /// A server runs there: say so and stop.
    AlreadyRunning,
}

/// Decides what to do before starting a server on a port, from what its PID file says and
/// whether that process runs.
pub fn plan_start(existing: &Option<PidInfo>, running: bool) -> (p: StartPlan)
    ensures
        existing is None ==> p is Fresh,
        existing is Some && running ==> p is AlreadyRunning,
        existing is Some && !running ==> p is RemoveStale,
{
    match existing {
        None => StartPlan::Fresh,
        Some(_) => if running { StartPlan::AlreadyRunning } else { StartPlan::RemoveStale },
    }
}

/// The two lines that refuse to start a second server on a port.
pub open spec fn already_running_text(port: u16, pid: u32, root_dir: Seq<char>) -> Seq<Seq<char>> {
    seq![
        "Error: Server already running on port "@ + dec(port as nat) + " (PID: "@ + dec(pid as nat) + ")"@,
        "Serving: "@ + root_dir,
    ]
}

/// The error lines when a server already runs on the port.
pub fn already_running_lines(port: u16, info: &PidInfo) -> (r: Vec<String>)
    ensures
        crate::text::strings_view(r@) == already_running_text(port, info.pid, info.root_dir@),
{
    let mut a = String::from_str("Error: Server already running on port ");
    push_dec(&mut a, port as u64);
    a.append(" (PID: ");
    push_dec(&mut a, info.pid as u64);
    a.append(")");
    let mut b = String::from_str("Serving: ");
    b.append(info.root_dir.as_str());
    let mut r: Vec<String> = Vec::new();
    r.push(a);
    r.push(b);
    proof {
        assert(crate::text::strings_view(r@) =~= already_running_text(port, info.pid, info.root_dir@));
    }
    r
}

/// The error when the directory to serve cannot be resolved.
pub fn inaccessible_dir_message(dir: &str, error: &str) -> (r: String)
    ensures
        r@ == "Error: directory \""@ + dir@ + "\" is not accessible: "@ + error@,
{
    let mut r = String::from_str("Error: directory \"");
    r.append(dir);
    r.append("\" is not accessible: ");
    r.append(error);
    r
}

/// The error when the background process cannot be started.
pub fn spawn_failed_message(error: &str) -> (r: String)
    ensures
        r@ == "Error: Failed to start daemon: "@ + error@,
{
    let mut r = String::from_str("Error: Failed to start daemon: ");
    r.append(error);
    r
}

/// What the start does after one look at the new server.
pub enum StartupStep {
    /// The server said it is ready: report and end well.
    Started,
    /// The server ended before it was ready: clean up and fail.
    Exited,
    /// Neither yet: wait a tenth of a second and look again.
    Wait,
    /// It was not ready in time: clean up, kill it and fail.
    TimedOut,
}

/// The wait for a new background server to be ready.
pub struct StartupWatch {
    /// How many times it has waited.
    pub attempts: u32,
}

impl StartupWatch {
    /// No wait yet.
    pub fn new() -> (w: StartupWatch)
        ensures
            w.attempts == 0,
    {
        StartupWatch { attempts: 0 }
    }

    /// Takes one look: whether the server said it is ready, and whether it has ended. It
    /// waits at most fifty times; after the fiftieth wait the start times out.
    pub fn poll(&mut self, ready: bool, exited: bool) -> (step: StartupStep)
        requires
            old(self).attempts <= MAX_START_POLLS,
        ensures
            final(self).attempts <= MAX_START_POLLS,
            old(self).attempts == MAX_START_POLLS ==> step is TimedOut && final(self).attempts == old(self).attempts,
            old(self).attempts < MAX_START_POLLS ==> {
                &&& ready ==> step is Started
                &&& !ready && exited ==> step is Exited
                &&& !ready && !exited ==> step is Wait
                &&& final(self).attempts == old(self).attempts + if step is Wait { 1int } else { 0int }
            },
    {
        if self.attempts >= MAX_START_POLLS {
            StartupStep::TimedOut
        } else if ready {
            StartupStep::Started
        } else if exited {
            StartupStep::Exited
        } else {
            self.attempts = self.attempts + 1;
            StartupStep::Wait
        }
    }
}

/// The report of a server that started: its process, directory, port and log, and how to
/// stop it.
pub open spec fn started_text(pid: u32, root_dir: Seq<char>, port: u16, log_path: Seq<char>) -> Seq<Seq<char>> {
    seq![
        "Server started in background (PID: "@ + dec(pid as nat) + ")"@,
        "Serving: "@ + root_dir,
        "Listening on port: "@ + dec(port as nat),
        "Log file: "@ + log_path,
        "\nTo stop: serve-here --stop -p "@ + dec(port as nat),
    ]
}

/// The lines that report a server that started.
pub fn started_lines(pid: u32, root_dir: &str, port: u16, log_path: &str) -> (r: Vec<String>)
    ensures
        crate::text::strings_view(r@) == started_text(pid, root_dir@, port, log_path@),
{
    let mut a = String::from_str("Server started in background (PID: ");
    push_dec(&mut a, pid as u64);
    a.append(")");
    let mut b = String::from_str("Serving: ");
    b.append(root_dir);
    let mut c = String::from_str("Listening on port: ");
    push_dec(&mut c, port as u64);
    let mut d = String::from_str("Log file: ");
    d.append(log_path);
    let mut e = String::from_str("\nTo stop: serve-here --stop -p ");
    push_dec(&mut e, port as u64);
    let mut r: Vec<String> = Vec::new();
    r.push(a);
    r.push(b);
    r.push(c);
    r.push(d);
    r.push(e);
    proof {
        assert(crate::text::strings_view(r@) =~= started_text(pid, root_dir@, port, log_path@));
    }
    r
}

/// The error when the new server ended before it was ready.
pub fn exited_message(log_path: &str) -> (r: String)
    ensures
        r@ == "Error: Failed to start daemon. Check log file: "@ + log_path@,
{
    let mut r = String::from_str("Error: Failed to start daemon. Check log file: ");
    r.append(log_path);
    r
}

/// The error when the new server was not ready in time.
pub fn timed_out_message(log_path: &str) -> (r: String)
    ensures
        r@ == "Error: Timed out waiting for daemon readiness. Check log file: "@ + log_path@,
{
    let mut r = String::from_str("Error: Timed out waiting for daemon readiness. Check log file: ");
    r.append(log_path);
    r
}

// ----------------------------------------------------------------------------
// Stopping a background server
// ----------------------------------------------------------------------------

/// How many times the stop waits for the server to end, half a second each.
pub const MAX_STOP_POLLS: u32 = 10;

/// What to do to stop the server on a port.
pub enum StopPlan {
    /// No PID file: say so and fail.
    NothingToStop,
    /// The process is gone: remove its PID file and end well.
    CleanUpStale,
    /// Ask the process to end, then wait for it.
    Terminate,
}

/// Decides how to stop the server on a port, from what its PID file says and whether that
/// process runs.
pub fn plan_stop(existing: &Option<PidInfo>, running: bool) -> (p: StopPlan)
    ensures
        existing is None ==> p is NothingToStop,
        existing is Some && !running ==> p is CleanUpStale,
        existing is Some && running ==> p is Terminate,
{
    match existing {
        None => StopPlan::NothingToStop,
        Some(_) => if running { StopPlan::Terminate } else { StopPlan::CleanUpStale },
    }
}

/// What the stop does after one look at the process, half a second after the last.
pub enum StopStep {
    /// It ended: remove its PID file and report.
    Stopped,
    /// It still runs: wait half a second and look again.
    Wait,
    /// It still runs after the last wait: kill it and remove its PID file.
    ForceKill,
}

/// The wait for a server that was asked to end.
pub struct StopWatch {
    /// How many looks found it still running.
    pub attempts: u32,
}

impl StopWatch {
    /// No look yet.
    pub fn new() -> (w: StopWatch)
        ensures
            w.attempts == 0,
    {
        StopWatch { attempts: 0 }
    }

    /// Takes one look: whether the process still runs. The tenth look that finds it running
    /// gives up on waiting.
    pub fn poll(&mut self, running: bool) -> (step: StopStep)
        requires
            old(self).attempts < MAX_STOP_POLLS,
        ensures
            !running ==> step is Stopped && final(self).attempts == old(self).attempts,
            running ==> final(self).attempts == old(self).attempts + 1,
            running && final(self).attempts < MAX_STOP_POLLS ==> step is Wait,
            running && final(self).attempts == MAX_STOP_POLLS ==> step is ForceKill,
    {
        if !running {
            StopStep::Stopped
        } else {
            self.attempts = self.attempts + 1;
            if self.attempts >= MAX_STOP_POLLS { StopStep::ForceKill } else { StopStep::Wait }
        }
    }
}

/// The error when no server is known on the port.
pub fn no_server_message(port: u16) -> (r: String)
    ensures
        r@ == "No server running on port "@ + dec(port as nat),
{
    let mut r = String::from_str("No server running on port ");
    push_dec(&mut r, port as u64);
    r
}

/// The report when the known process is gone.
pub fn stale_server_message(pid: u32) -> (r: String)
    ensures
        r@ == "Server (PID: "@ + dec(pid as nat) + ") is not running, cleaning up..."@,
{
    let mut r = String::from_str("Server (PID: ");
    push_dec(&mut r, pid as u64);
    r.append(") is not running, cleaning up...");
    r
}

/// The report when the process was asked to end.
pub fn stopping_message(pid: u32) -> (r: String)
    ensures
        r@ == "Stopping server (PID: "@ + dec(pid as nat) + ")..."@,
{
    let mut r = String::from_str("Stopping server (PID: ");
    push_dec(&mut r, pid as u64);
    r.append(")...");
    r
}

// ----------------------------------------------------------------------------
// Status of background servers
// ----------------------------------------------------------------------------

/// `running` or `stopped`.
pub open spec fn status_word(running: bool) -> Seq<char> {
    if running { "running"@ } else { "stopped"@ }
}

/// The report on the server of one port: port, process, state, directory, and (when asked
/// about that port) its log.
pub open spec fn status_text(port: u16, pid: u32, running: bool, root_dir: Seq<char>, log_path: Option<Seq<char>>) -> Seq<Seq<char>> {
    let head = seq![
        "Port "@ + dec(port as nat) + ":"@,
        "  PID: "@ + dec(pid as nat),
        "  Status: "@ + status_word(running),
        "  Directory: "@ + root_dir,
    ];
    match log_path {
        Some(l) => head.push("  Log: "@ + l),
        None => head.push(Seq::<char>::empty()),
    }
}

/// The report on the server of one port. With the log path (a question about that port) it
/// ends with the log; without (a list of all servers) it ends with an empty line.
pub fn status_lines(port: u16, info: &PidInfo, running: bool, log_path: Option<&str>) -> (r: Vec<String>)
    ensures
        crate::text::strings_view(r@) == status_text(port, info.pid, running, info.root_dir@, match log_path {
            Some(l) => Some(l@),
            None => None,
        }),
{
    let mut a = String::from_str("Port ");
    push_dec(&mut a, port as u64);
    a.append(":");
    let mut b = String::from_str("  PID: ");
    push_dec(&mut b, info.pid as u64);
    let mut c = String::from_str("  Status: ");
    if running {
        c.append("running");
    } else {
        c.append("stopped");
    }
    let mut d = String::from_str("  Directory: ");
    d.append(info.root_dir.as_str());
    let e = match log_path {
        Some(l) => {
            let mut e = String::from_str("  Log: ");
            e.append(l);
            e
        },
        None => String::new(),
    };
    let mut r: Vec<String> = Vec::new();
    r.push(a);
    r.push(b);
    r.push(c);
    r.push(d);
    r.push(e);
    proof {
        assert(crate::text::strings_view(r@) =~= status_text(port, info.pid, running, info.root_dir@, match log_path {
            Some(l) => Some(l@),
            None => None,
        }));
    }
    r
}

/// Whether a report on a server removes its PID file: it does when the process no longer
/// runs.
pub fn removes_pid_file(running: bool) -> (remove: bool)
    ensures
        remove == !running,
{
    !running
}

/// The report of all background servers when there is none.
pub const NO_SERVERS_MESSAGE: &'static str = "No servers running.";
/// The first line of the report of all background servers when there are some.
pub const RUNNING_SERVERS_HEADER: &'static str = "Running servers:\n";

/// Whether a file name ends in `.pid`.
pub open spec fn is_pid_file_name(name: Seq<char>) -> bool {
    name.len() >= 4 && name.skip(name.len() - 4) == ".pid"@
}

/// The names among `names` that end in `.pid`, in order.
pub open spec fn pid_file_names(names: Seq<Seq<char>>) -> Seq<Seq<char>>
    decreases names.len(),
{
    if names.len() == 0 {
        seq![]
    } else {
        let rest = pid_file_names(names.drop_last());
        if is_pid_file_name(names.last()) { rest.push(names.last()) } else { rest }
    }
}

/// The port of each name, or `None` for a name that is not `serve-here-`, a port, `.pid`.
pub open spec fn ports_of(names: Seq<Seq<char>>) -> Seq<Option<u16>> {
    Seq::new(names.len(), |i: int| port_of_file_name(names[i]))
}

/// What the report of all background servers shows.
pub enum ServersReport {
    /// `No servers running.`: the directory of PID files could not be read, or holds none.
    NoServers,
    /// The header, then, for each PID file in the order read, the server of its port (the
    /// files whose names give no port are passed over).
    Servers(Vec<Option<u16>>),
}

/// Decides the report of all background servers from the names of the entries of the
/// directory of PID files (`None` when it cannot be read).
pub fn plan_servers_report(names: &Option<Vec<String>>) -> (r: ServersReport)
    ensures
        match names {
            None => r is NoServers,
            Some(v) => {
                let files = pid_file_names(crate::text::strings_view(v@));
                &&& files.len() == 0 ==> r is NoServers
                &&& files.len() > 0 ==> (r matches ServersReport::Servers(p) && p@ == ports_of(files))
            },
        },
{
    match names {
        None => ServersReport::NoServers,
        Some(v) => {
            let ghost sv = crate::text::strings_view(v@);
            let mut ports: Vec<Option<u16>> = Vec::new();
            let mut i: usize = 0;
            proof {
                assert(sv.take(0) =~= Seq::<Seq<char>>::empty());
                assert(ports@ =~= ports_of(pid_file_names(sv.take(0))));
            }
            while i < v.len()
                invariant
                    i <= v.len(),
                    sv == crate::text::strings_view(v@),
                    ports@ == ports_of(pid_file_names(sv.take(i as int))),
                decreases v.len() - i,
            {
                let ghost before = pid_file_names(sv.take(i as int));
                proof {
                    assert(sv.take(i + 1).drop_last() =~= sv.take(i as int));
                    assert(sv.take(i + 1).last() == v@[i as int]@);
                }
                let cs = chars_of(v[i].as_str());
                if has_suffix(&cs, ".pid") {
                    let port = port_from_pid_file_name(v[i].as_str());
                    ports.push(port);
                    proof {
                        reveal_strlit(".pid");
                        assert(pid_file_names(sv.take(i + 1)) == before.push(v@[i as int]@));
                        assert(ports@ =~= ports_of(before.push(v@[i as int]@)));
                    }
                } else {
                    proof {
                        reveal_strlit(".pid");
                        assert(pid_file_names(sv.take(i + 1)) == before);
                    }
                }
                i = i + 1;
            }
            proof {
                assert(sv.take(v.len() as int) =~= sv);
            }
            if ports.len() == 0 {
                ServersReport::NoServers
            } else {
                ServersReport::Servers(ports)
            }
        },
    }
}

} // verus!
