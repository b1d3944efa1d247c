//! The decisions of the command-line client: which socket to talk to, which
//! encoding to ask for, how a health answer is shown, and the exit status.

use vstd::prelude::*;
use crate::text::{decimal, decimal_string};
use crate::wire::opt_chars;

verus! {

/// Why no socket path could be found.
#[derive(Debug, Clone, Copy, PartialEq, Eq, Structural)]
pub enum SocketError {
    /// No path was given, and neither the socket setting nor `$HOME` is set.
    HomeNotSet,
}

impl SocketError {
    /// The human-readable description of this error.
    pub fn message(&self) -> (r: String)
        ensures
            r@ == "$HOME not set"@,
    {
        String::from_str("$HOME not set")
    }
}

/// The socket of the sidecar of the desktop app, under the home directory.
pub open spec fn default_socket(home: Seq<char>) -> Seq<char> {
    home + "/Library/Application Support/app/sidecar.sock"@
}

/// Where the socket path came from.
#[derive(Debug, Clone, PartialEq, Eq)]
pub enum SocketPath<P> {
    /// The path given on the command line, exactly as given.
    Given(P),
    /// A path named by the socket setting or derived from `$HOME`.
    Named(String),
}

/// A `SocketPath` with a named path taken by its characters.
pub enum SocketPathView<P> {
    Given(P),
    Named(Seq<char>),
}

/// A `SocketPath` taken by value.
pub open spec fn socket_path_view<P>(s: SocketPath<P>) -> SocketPathView<P> {
    match s {
        SocketPath::Given(p) => SocketPathView::Given(p),
        SocketPath::Named(n) => SocketPathView::Named(n@),
    }
}

/// The socket to use: the one given on the command line, else the one named
/// by the socket setting, else the desktop app's socket under `$HOME`.
pub open spec fn socket_choice<P>(
    arg: Option<P>,
    env_socket: Option<Seq<char>>,
    home: Option<Seq<char>>,
) -> Result<SocketPathView<P>, SocketError> {
    match arg {
        Some(p) => Ok(SocketPathView::Given(p)),
        None => match env_socket {
            Some(p) => Ok(SocketPathView::Named(p)),
            None => match home {
                Some(h) => Ok(SocketPathView::Named(default_socket(h))),
                None => Err(SocketError::HomeNotSet),
            },
        },
    }
}

/// Resolves the socket path from the `--socket` flag, the socket setting
/// and `$HOME`, in that order of precedence. A path given on the command
/// line is handed back untouched, whatever its encoding.
pub fn resolve_socket<P>(arg: Option<P>, env_socket: Option<String>, home: Option<String>) -> (r:
    Result<SocketPath<P>, SocketError>)
    ensures
        match socket_choice(arg, opt_chars(env_socket), opt_chars(home)) {
            Ok(v) => r matches Ok(s) && socket_path_view(s) == v,
            Err(e) => r matches Err(e2) && e2 == e,
        },
        arg is None && env_socket is Some ==> (r matches Ok(SocketPath::Named(n)) && n@
            == env_socket->0@),
        arg matches Some(a) ==> r == Ok::<SocketPath<P>, SocketError>(SocketPath::Given(a)),
{
    if let Some(p) = arg {
        return Ok(SocketPath::Given(p));
    }
    if let Some(s) = env_socket {
        return Ok(SocketPath::Named(s));
    }
    match home {
        Some(h) => {
            let mut p = h;
            p.append("/Library/Application Support/app/sidecar.sock");
            Ok(SocketPath::Named(p))
        },
        None => Err(SocketError::HomeNotSet),
    }
}

/// The `Accept` value for the encoding asked for on the command line.
pub open spec fn accept_value(msgpack: bool) -> Seq<char> {
    if msgpack {
        "application/msgpack"@
    } else {
        "application/json"@
    }
}

/// The `Accept` header the client sends.
pub fn accept_header(msgpack: bool) -> (r: &'static str)
    ensures
        r@ == accept_value(msgpack),
{
    if msgpack {
        "application/msgpack"
    } else {
        "application/json"
    }
}

/// The exit code for an HTTP answer that is not a success: 3 for a client
/// error (4xx), 4 for anything else.
pub open spec fn failure_code(status: u16) -> Option<i32> {
    if 200 <= status && status < 300 {
        None
    } else if 400 <= status && status < 500 {
        Some(3)
    } else {
        Some(4)
    }
}

/// The exit code owed for an HTTP status, where it is not a success.
pub fn failure_exit_code(status: u16) -> (r: Option<i32>)
    ensures
        r == failure_code(status),
{
    if 200 <= status && status < 300 {
        None
    } else if 400 <= status && status < 500 {
        Some(3)
    } else {
        Some(4)
    }
}

/// What a request's result decides before its body is read: a request that
/// could not be made or answered means the sidecar is unreachable; an
/// answer that is not a success finishes with its failure code; a success
/// decides nothing yet.
pub open spec fn request_decision(status: Option<u16>) -> Option<CliOutcome> {
    match status {
        None => Some(CliOutcome::Unreachable),
        Some(s) => match failure_code(s) {
            Some(c) => Some(CliOutcome::Finished(c)),
            None => None,
        },
    }
}

/// What a request's result decides: `status` is the HTTP status of the
/// answer, absent where no answer came.
pub fn request_outcome(status: Option<u16>) -> (r: Option<CliOutcome>)
    ensures
        r == request_decision(status),
{
    match status {
        None => Some(CliOutcome::Unreachable),
        Some(s) => match failure_exit_code(s) {
            Some(c) => Some(CliOutcome::Finished(c)),
            None => None,
        },
    }
}

/// The body of `/healthz` as the client reads it.
#[derive(Debug, Clone)]
pub struct HealthBody {
    pub status: String,
    pub version: String,
    pub uptime_ms: u128,
    pub stt_ready: bool,
}

/// The text of a boolean.
pub open spec fn bool_text(b: bool) -> Seq<char> {
    if b {
        "true"@
    } else {
        "false"@
    }
}

/// The line the client prints for a health answer.
pub open spec fn health_text(h: HealthBody) -> Seq<char> {
    "status="@ + h.status@ + "  version="@ + h.version@ + "  uptime_ms="@ + decimal(
        h.uptime_ms as nat,
    ) + "  stt_ready="@ + bool_text(h.stt_ready)
}

/// The line the client prints for a health answer.
pub fn health_line(h: &HealthBody) -> (r: String)
    ensures
        r@ == health_text(*h),
{
    let mut r = String::from_str("status=");
    r.append(h.status.as_str());
    r.append("  version=");
    r.append(h.version.as_str());
    r.append("  uptime_ms=");
    let digits = decimal_string(h.uptime_ms);
    r.append(digits.as_str());
    r.append("  stt_ready=");
    if h.stt_ready {
        r.append("true");
    } else {
        r.append("false");
    }
    r
}

/// How a run of the client ended.
#[derive(Debug, Clone, Copy, PartialEq, Eq, Structural)]
pub enum CliOutcome {
    /// No socket path could be resolved.
    SocketUnresolved,
    /// The resolved socket does not exist.
    SocketMissing,
    /// The request to the sidecar could not be made or answered.
    Unreachable,
    /// The subcommand is not available yet.
    NotImplemented,
    /// The subcommand finished with this code.
    Finished(i32),
    /// The subcommand failed.
    Failed,
}

/// The exit status of a run: 2 where the sidecar cannot be reached, 1 for
/// a subcommand that is not available, 4 for a failure, and otherwise the
/// subcommand's own code, truncated to a byte.
pub open spec fn exit_status(o: CliOutcome) -> u8 {
    match o {
        CliOutcome::SocketUnresolved => 2,
        CliOutcome::SocketMissing => 2,
        CliOutcome::Unreachable => 2,
        CliOutcome::NotImplemented => 1,
        CliOutcome::Finished(c) => c as u8,
        CliOutcome::Failed => 4,
    }
}

/// The exit status of a run.
pub fn exit_code(o: CliOutcome) -> (r: u8)
    ensures
        r == exit_status(o),
{
    match o {
        CliOutcome::SocketUnresolved => 2,
        CliOutcome::SocketMissing => 2,
        CliOutcome::Unreachable => 2,
        CliOutcome::NotImplemented => 1,
        CliOutcome::Finished(c) => c as u8,
        CliOutcome::Failed => 4,
    }
}

} // verus!
