//! The command line: its port argument and what it asks for.
use vstd::prelude::*;
use crate::text::{chars_of, parse_unsigned, parse_unsigned_chars};

verus! {

/// The port served when none is given.
pub const DEFAULT_PORT: u16 = 8080;

/// What `validate_port` gives for `s`: a port from 1 to 65535, or the message of the error.
pub open spec fn port_argument(s: Seq<char>) -> Result<u16, Seq<char>> {
    match parse_unsigned(s, u16::MAX as nat) {
        None => Err("Invalid port: "@ + s),
        Some(n) => if n == 0 { Err("Port must be 1-65535"@) } else { Ok(n as u16) },
    }
}

/// Reads a port argument: a decimal number from 1 to 65535.
pub fn validate_port(s: &str) -> (r: Result<u16, String>)
    ensures
        match r {
            Ok(p) => port_argument(s@) == Ok::<u16, Seq<char>>(p),
            Err(m) => port_argument(s@) == Err::<u16, Seq<char>>(m@),
        },
{
    let cs = chars_of(s);
    match parse_unsigned_chars(&cs, u16::MAX as u64) {
        None => {
            let mut m = String::from_str("Invalid port: ");
            m.append(s);
            Err(m)
        },
        Some(n) => {
            if n == 0 {
                Err(String::from_str("Port must be 1-65535"))
            } else {
                Ok(n as u16)
            }
        },
    }
}

/// What the command line asks for.
pub enum Command {
    /// Stop the background server on the port.
    Stop,
    /// Report on background servers.
    Status,
    /// Serve in this process, as the background child of a start.
    DaemonChild,
    /// Start a background server.
    Daemon,
    /// Serve in the foreground.
    Foreground,
}

/// Decides what the flags ask for: stopping comes first, then the status report, then the
/// ways of serving.
pub fn choose_command(stop: bool, status: bool, daemon_child: bool, daemon: bool) -> (c: Command)
    ensures
        stop ==> c is Stop,
        !stop && status ==> c is Status,
        !stop && !status && daemon_child ==> c is DaemonChild,
        !stop && !status && !daemon_child && daemon ==> c is Daemon,
        !stop && !status && !daemon_child && !daemon ==> c is Foreground,
{
    if stop {
        Command::Stop
    } else if status {
        Command::Status
    } else if daemon_child {
        Command::DaemonChild
    } else if daemon {
        Command::Daemon
    } else {
        Command::Foreground
    }
}

/// The error when the directory to serve is not a directory.
pub fn missing_dir_message(dir: &str) -> (r: String)
    ensures
        r@ == "Error: directory \""@ + dir@ + "\" does not exist or is not accessible."@,
{
    let mut r = String::from_str("Error: directory \"");
    r.append(dir);
    r.append("\" does not exist or is not accessible.");
    r
}

} // verus!
