//! The decisions of the Tor daemon manager; starting, watching and killing
//! the process is left to the shell.

use vstd::prelude::*;
use crate::filename::{strip_back_white, strip_front_white, trim_ends};
use crate::text::{chars_of, find_exec, find_from, slice_chars, string_of};

verus! {

/// What is known of the daemon the shell started.
pub struct TorState {
    /// A daemon process is held.
    pub running: bool,
    /// The SOCKS port it listens on, once it has bootstrapped.
    pub socks_port: Option<u16>,
}

/// What the shell learnt of a held daemon process.
pub enum ProcessStatus {
    Running,
    Exited,
    Unknown,
}

impl TorState {
    pub fn new() -> (r: Self)
        ensures
            !r.running,
            r.socks_port is None,
    {
        TorState { running: false, socks_port: None }
    }

    /// The port to hand out without starting a daemon: the known port of a
    /// daemon that still runs. A daemon that has exited is forgotten.
    pub fn reuse_port(&mut self, status: ProcessStatus) -> (r: Option<u16>)
        ensures
            r == if old(self).running && old(self).socks_port is Some && status is Running {
                old(self).socks_port
            } else {
                None
            },
            (old(self).running && old(self).socks_port is Some && status is Exited) ==> (
            !final(self).running && final(self).socks_port is None),
            !(old(self).running && old(self).socks_port is Some && status is Exited) ==> *final(self)
                == *old(self),
    {
        if self.running && self.socks_port.is_some() {
            match status {
                ProcessStatus::Running => {
                    return self.socks_port;
                },
                ProcessStatus::Exited => {
                    self.running = false;
                    self.socks_port = None;
                },
                ProcessStatus::Unknown => {},
            }
        }
        None
    }

    /// Records a daemon that has bootstrapped on `port`.
    pub fn started(&mut self, port: u16)
        ensures
            final(self).running,
            final(self).socks_port == Some(port),
    {
        self.running = true;
        self.socks_port = Some(port);
    }
}

/// Forgets the daemon; whether a process is held that must be killed.
pub fn stop(state: &mut TorState) -> (kill: bool)
    ensures
        kill == old(state).running,
        !final(state).running,
        final(state).socks_port is None,
{
    let kill = state.running;
    state.running = false;
    state.socks_port = None;
    kill
}

/// How a line of the daemon's log bears on its bootstrap.
pub enum BootstrapLine {
    /// `Bootstrapped 100%`: the daemon is ready.
    Ready,
    /// An `[err]` line, to be reported.
    Error,
    Other,
}

pub open spec fn contains(s: Seq<char>, t: Seq<char>) -> bool {
    find_from(s, t, 0) is Some
}

pub fn classify_bootstrap_line(line: &str) -> (r: BootstrapLine)
    ensures
        r == if contains(line@, "Bootstrapped 100%"@) {
            BootstrapLine::Ready
        } else if contains(line@, "[err]"@) {
            BootstrapLine::Error
        } else {
            BootstrapLine::Other
        },
{
    let s = chars_of(line);
    if find_exec(&s, &chars_of("Bootstrapped 100%")).is_some() {
        BootstrapLine::Ready
    } else if find_exec(&s, &chars_of("[err]")).is_some() {
        BootstrapLine::Error
    } else {
        BootstrapLine::Other
    }
}

/// The characters before the first line break (all of them without one),
/// with a carriage return before the break dropped.
pub open spec fn first_line(s: Seq<char>) -> Seq<char> {
    let line = match find_from(s, "\n"@, 0) {
        Some(k) => s.subrange(0, k as int),
        None => s,
    };
    if line.len() > 0 && line.last() == '\r' {
        line.drop_last()
    } else {
        line
    }
}

/// The binary path in the output of `which tor`: its first line, trimmed,
/// unless that is empty.
pub fn binary_path_from_listing(output: &str) -> (r: Option<String>)
    ensures
        match r {
            Some(p) => p@ == strip_back_white(strip_front_white(first_line(output@))) && p@.len() > 0,
            None => strip_back_white(strip_front_white(first_line(output@))).len() == 0,
        },
{
    proof {
        reveal_strlit("\n");
    }
    let s = chars_of(output);
    let mut line = match find_exec(&s, &chars_of("\n")) {
        Some(k) => slice_chars(&s, 0, k),
        None => s,
    };
    if line.len() > 0 && line[line.len() - 1] == '\r' {
        line.pop();
    }
    let path = trim_ends(&line, false);
    if path.len() == 0 {
        None
    } else {
        Some(string_of(&path))
    }
}


/// How long, in seconds, the daemon may take to bootstrap.
pub const BOOTSTRAP_TIMEOUT_SECS: u64 = 60;

/// Whether a bootstrap that has run for `secs` seconds and `subsec_nanos`
/// nanoseconds has taken longer than the timeout.
pub fn bootstrap_timed_out(secs: u64, subsec_nanos: u32) -> (r: bool)
    ensures
        r == (secs > BOOTSTRAP_TIMEOUT_SECS || (secs == BOOTSTRAP_TIMEOUT_SECS && subsec_nanos > 0)),
{
    secs > BOOTSTRAP_TIMEOUT_SECS || (secs == BOOTSTRAP_TIMEOUT_SECS && subsec_nanos > 0)
}

} // verus!
