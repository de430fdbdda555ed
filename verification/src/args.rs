//! The validated configuration handed to the monitor at startup.

use vstd::prelude::*;

verus! {

/// Verbosity of the host program's logging. The library never logs itself;
/// the level is carried here so that one validated argument record holds
/// everything the program was started with.
#[derive(Clone, Copy, Debug, PartialEq, Eq, Structural)]
pub enum LogLevel {
    Error,
    Warn,
    Info,
    Debug,
    Trace,
}

/// Validated startup arguments.
///
/// `pid` names the process to watch and `port` the local port whose
/// ESTABLISHED connections count as activity. `timeout` is the idle duration
/// in seconds after which the remediation `script` is due; `interval` is the
/// polling cadence in seconds.
#[derive(Clone, Debug)]
pub struct Args {
    pub pid: i32,
    pub port: u16,
    pub timeout: u64,
    pub interval: u64,
    pub script: String,
    pub log_level: LogLevel,
}

impl Args {
    /// The constraints of validated input: a positive polling interval (a
    /// zero interval would busy-loop) and a non-empty action command. The
    /// timeout may be any value, zero included.
    pub open spec fn wf(&self) -> bool {
        self.interval > 0 && self.script@.len() > 0
    }
}

} // verus!
