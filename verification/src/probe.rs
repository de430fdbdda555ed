//! The operating-system edge: queries of the process table and of the
//! per-process TCP socket tables, through the `procfs` crate.
//!
//! Everything these calls return depends on the machine's state at the moment
//! of the call, so nothing is promised of the values that come back; the
//! verified code takes them as arguments and is proved for every value.

use vstd::prelude::*;
use procfs::process::Process;
use procfs::net::TcpState;

verus! {

/// Error from an operating-system process or socket query, carrying a
/// human-readable cause.
#[derive(Clone, Debug)]
pub struct QueryError {
    pub message: String,
}

/// What the monitor reads from one TCP socket-table row: the local port and
/// whether the connection state is ESTABLISHED.
#[derive(Clone, Copy, Debug, PartialEq, Eq, Structural)]
pub struct TcpEntry {
    pub local_port: u16,
    pub established: bool,
}

#[verifier::external_type_specification]
#[verifier::external_body]
pub struct ExProcess(Process);

/// Relies on `procfs::process::Process::new`: resolves `/proc/<pid>`, failing
/// when the process does not exist or cannot be read.
#[verifier::external_body]
pub(crate) fn proc_open(pid: i32) -> Result<Process, QueryError> {
    match Process::new(pid) {
        Ok(p) => Ok(p),
        Err(e) => Err(QueryError { message: format!("Failed to get process info: {}", e) }),
    }
}

/// Relies on `procfs::process::Process::stat`: reads `/proc/<pid>/stat`; only
/// the `starttime` field is kept, the instant the process started, in clock
/// ticks since boot.
#[verifier::external_body]
pub(crate) fn proc_starttime(process: &Process) -> Result<u64, QueryError> {
    match process.stat() {
        Ok(stat) => Ok(stat.starttime),
        Err(e) => Err(QueryError { message: format!("Failed to get process stat: {}", e) }),
    }
}

/// Relies on `procfs::process::Process::tcp`: reads the process's IPv4 TCP
/// socket table; of each row only the local port and the ESTABLISHED flag are
/// kept.
#[verifier::external_body]
pub(crate) fn proc_tcp(process: &Process) -> Result<Vec<TcpEntry>, QueryError> {
    match process.tcp() {
        Ok(rows) => Ok(rows.iter().map(|row| TcpEntry {
            local_port: row.local_address.port(),
            established: matches!(row.state, TcpState::Established),
        }).collect()),
        Err(e) => Err(QueryError { message: format!("Failed to get TCP connections: {}", e) }),
    }
}

/// Relies on `procfs::process::Process::tcp6`: reads the process's IPv6 TCP
/// socket table; of each row only the local port and the ESTABLISHED flag are
/// kept.
#[verifier::external_body]
pub(crate) fn proc_tcp6(process: &Process) -> Result<Vec<TcpEntry>, QueryError> {
    match process.tcp6() {
        Ok(rows) => Ok(rows.iter().map(|row| TcpEntry {
            local_port: row.local_address.port(),
            established: matches!(row.state, TcpState::Established),
        }).collect()),
        Err(e) => Err(QueryError { message: format!("Failed to get TCP6 connections: {}", e) }),
    }
}

} // verus!
