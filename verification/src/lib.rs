//! Watchdog for a single process's TCP activity on one local port.
//!
//! The library samples the process's socket tables, keeps an idle timer that
//! measures how long the port has been without an ESTABLISHED connection, and
//! decides when a remediation action is due and when monitoring must stop
//! because the watched process is gone (or its identifier was reused by an
//! unrelated process). The host program drives the polling loop, performs the
//! sleeps and runs the remediation command; every decision is made here.

use vstd::prelude::*;

pub mod args;
pub mod monitor;
pub mod probe;
pub mod timer;

verus! {

use crate::args::Args;
use crate::monitor::Monitor;
use crate::probe::QueryError;
use crate::timer::IdleTimerState;

/// The setup phase of the watchdog: captures the process identity and hands
/// back an idle, active monitor, or the fatal cause when the process cannot
/// be resolved at startup. The host then drives `Monitor::poll` once per
/// interval until the monitor terminates.
pub fn run(args: Args) -> (r: Result<Monitor, QueryError>)
    requires
        args.wf(),
    ensures
        r matches Ok(m) ==> ({
            &&& m.pid == args.pid
            &&& m.port == args.port
            &&& m.timeout == args.timeout
            &&& m.interval == args.interval
            &&& m.script == args.script
            &&& m.timer == IdleTimerState::Armed
            &&& !m.terminated
        }),
{
    Monitor::new(args)
}

} // verus!
