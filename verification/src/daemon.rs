//! The authentication daemon: where it lives, how it is started, and when
//! waiting for it ends.

use vstd::prelude::*;
use crate::command::strings_view;
use crate::config::{CLIENT, DAEMON};
use crate::text::{decimal, decimal_string};

verus! {

/// How long to wait for the daemon's socket, in milliseconds.
pub const START_TIMEOUT_MS: u64 = 60000;

/// Pause between two looks at the socket, in milliseconds.
pub const POLL_INTERVAL_MS: u64 = 50;

/// Error when the privilege prompt ends before the daemon is up.
pub const PROMPT_EXITED_MESSAGE: &'static str = "pkexec process has exited (may have been cancelled)";

/// Path of the daemon binary.
fn get_daemon_path() -> (p: String)
    ensures
        p@ == DAEMON@,
{
    DAEMON.to_owned()
}

/// Path of the client binary.
pub fn get_xero_auth_path() -> (p: String)
    ensures
        p@ == CLIENT@,
{
    CLIENT.to_owned()
}

/// The program that starts the daemon with privileges, and its arguments:
/// the daemon, the user it serves and the process it watches.
pub fn daemon_launch(uid: u32, pid: u32) -> (r: (String, Vec<String>))
    ensures
        r.0@ == "pkexec"@,
        strings_view(r.1@) == seq![
            DAEMON@,
            "--uid"@,
            decimal(uid as nat),
            "--parent-pid"@,
            decimal(pid as nat),
        ],
{
    let mut args: Vec<String> = Vec::new();
    args.push(get_daemon_path());
    args.push("--uid".to_owned());
    args.push(decimal_string(uid as u64));
    args.push("--parent-pid".to_owned());
    args.push(decimal_string(pid as u64));
    assert(strings_view(args@) =~= seq![
        DAEMON@,
        "--uid"@,
        decimal(uid as nat),
        "--parent-pid"@,
        decimal(pid as nat),
    ]);
    ("pkexec".to_owned(), args)
}

/// What to do while waiting for the daemon.
#[derive(Debug, Clone, Copy, PartialEq, Eq, Structural)]
pub enum DaemonWait {
    /// The socket exists: the daemon is up.
    Ready,
    /// The privilege prompt ended first (cancelled or failed).
    PromptExited,
    /// The time is up: stop the prompt and give up.
    TimedOut,
    /// Look again after `POLL_INTERVAL_MS`.
    Wait,
}

/// The next step of the wait, from what was observed: the socket first, then
/// the prompt process, then the clock.
pub open spec fn poll_spec(socket_exists: bool, prompt_exited: bool, elapsed_ms: nat, timeout_ms: nat) -> DaemonWait {
    if socket_exists {
        DaemonWait::Ready
    } else if prompt_exited {
        DaemonWait::PromptExited
    } else if elapsed_ms >= timeout_ms {
        DaemonWait::TimedOut
    } else {
        DaemonWait::Wait
    }
}

/// Decides the next step of the wait, from what was observed: the socket
/// first, then the prompt process, then the clock.
pub fn poll_daemon(socket_exists: bool, prompt_exited: bool, elapsed_ms: u64, timeout_ms: u64) -> (r:
    DaemonWait)
    ensures
        r == poll_spec(socket_exists, prompt_exited, elapsed_ms as nat, timeout_ms as nat),
{
    if socket_exists {
        DaemonWait::Ready
    } else if prompt_exited {
        DaemonWait::PromptExited
    } else if elapsed_ms >= timeout_ms {
        DaemonWait::TimedOut
    } else {
        DaemonWait::Wait
    }
}

/// The wait ends at the latest when the timeout is reached: polling with the
/// elapsed time at or past the timeout never says to wait again.
pub proof fn law_wait_is_bounded(socket_exists: bool, prompt_exited: bool, elapsed_ms: u64, timeout_ms: u64)
    requires
        elapsed_ms >= timeout_ms,
    ensures
        poll_spec(socket_exists, prompt_exited, elapsed_ms as nat, timeout_ms as nat) != DaemonWait::Wait,
{
}

} // verus!
