//! The monitor: one watched process, one port, and the decisions of the
//! polling loop — sampling, idle-timer bookkeeping, liveness checking and
//! clean termination.

use vstd::prelude::*;
use crate::args::Args;
use crate::probe::{proc_open, proc_starttime, proc_tcp, proc_tcp6, QueryError, TcpEntry};
use crate::timer::{timer_step, on_sample, IdleTimerState};

verus! {

/// A monitor for one process and one local port.
///
/// `pid`, `port`, `timeout`, `interval` and `script` are the configuration,
/// immutable after construction; `initial_starttime` is the start-time token
/// captured at construction, which pins the process identity against PID
/// reuse. `timer` and `terminated` are the loop's state.
#[derive(Debug)]
pub struct Monitor {
    pub pid: i32,
    pub port: u16,
    pub timeout: u64,
    pub interval: u64,
    pub initial_starttime: u64,
    pub script: String,
    pub timer: IdleTimerState,
    pub terminated: bool,
}

/// What one polling tick decided; the host acts on it and continues or stops.
pub enum TickOutcome {
    /// The socket query succeeded; `connections_nonempty` is what it saw and
    /// `fired` says whether the remediation action is due now.
    Sampled { connections_nonempty: bool, fired: bool },
    /// The socket query failed but the process is confirmed still alive: a
    /// transient fault, logged by the host; the timer is untouched.
    TransientFailure { error: QueryError },
    /// The process is gone (or its PID was reused): monitoring is over.
    Terminated,
}

/// The liveness verdict from a fresh look at the process table.
///
/// `observed` is the start-time token read now (`None` when the identifier no
/// longer resolves) and `initial` the token captured at construction. The
/// verdict is `true` exactly when the identifier resolves and the token is
/// unchanged; a resolved identifier with a different token is an unrelated
/// process that reused the PID, and counts as gone.
pub fn liveness_decision(observed: Option<u64>, initial: u64) -> (alive: bool)
    ensures
        alive <==> observed == Some(initial),
        observed is None ==> !alive,
        (observed matches Some(t) && t != initial) ==> !alive,
{
    match observed {
        Some(t) => t == initial,
        None => false,
    }
}

/// Keeps exactly the rows that are ESTABLISHED and bound to `port`.
pub fn filter_established(entries: &Vec<TcpEntry>, port: u16) -> (r: Vec<TcpEntry>)
    ensures
        r@ == entries@.filter(|e: TcpEntry| e.established && e.local_port == port),
{
    let mut out: Vec<TcpEntry> = Vec::new();
    let mut i: usize = 0;
    proof {
        reveal(Seq::filter);
        assert(entries@.take(0) =~= Seq::<TcpEntry>::empty());
    }
    while i < entries.len()
        invariant
            i <= entries.len(),
            out@ == entries@.take(i as int).filter(
                |e: TcpEntry| e.established && e.local_port == port,
            ),
        decreases entries.len() - i,
    {
        let e = entries[i];
        if e.established && e.local_port == port {
            out.push(e);
        }
        proof {
            reveal(Seq::filter);
            assert(entries@.take(i + 1).drop_last() =~= entries@.take(i as int));
            assert(entries@.take(i + 1).last() == entries@[i as int]);
        }
        i += 1;
    }
    proof {
        assert(entries@.take(entries@.len() as int) =~= entries@);
    }
    out
}

impl Monitor {
    /// Captures the process identity and builds an idle, active monitor.
    ///
    /// Fails fast, with the cause, when the process cannot be resolved or its
    /// stat record cannot be read at construction time.
    pub fn new(args: Args) -> (r: Result<Monitor, QueryError>)
        requires
            args.wf(),
        ensures
            r matches Ok(m) ==> ({
                &&& m.pid == args.pid
                &&& m.port == args.port
                &&& m.timeout == args.timeout
                &&& m.interval == args.interval
                &&& m.script == args.script
                &&& m.timer == IdleTimerState::Armed
                &&& !m.terminated
            }),
    {
        let process = proc_open(args.pid)?;
        let initial_starttime = proc_starttime(&process)?;
        Ok(
            Monitor {
                pid: args.pid,
                port: args.port,
                timeout: args.timeout,
                interval: args.interval,
                initial_starttime,
                script: args.script,
                timer: IdleTimerState::Armed,
                terminated: false,
            },
        )
    }

    /// Queries the process's TCP and TCP6 socket tables and keeps the
    /// ESTABLISHED rows bound to the configured port. Whatever the tables
    /// held, every returned row is ESTABLISHED and on that port.
    pub fn check_established_connections(&self) -> (r: Result<Vec<TcpEntry>, QueryError>)
        ensures
            r matches Ok(v) ==> forall|j: int|
                0 <= j < v@.len() ==> (#[trigger] v@[j]).established && v@[j].local_port
                    == self.port,
    {
        let process = proc_open(self.pid)?;
        let mut rows = proc_tcp(&process)?;
        let mut rows6 = proc_tcp6(&process)?;
        rows.append(&mut rows6);
        let kept = filter_established(&rows, self.port);
        proof {
            broadcast use vstd::seq_lib::group_filter_ensures;
        }
        Ok(kept)
    }

    /// Re-resolves the process and compares the start-time token against the
    /// one captured at construction; the verdict is `liveness_decision` of
    /// what the process table showed. A process that no longer resolves is
    /// gone (`Ok(false)`, not an error); only a failure to read the stat
    /// record of a resolved process is reported as an error.
    pub fn is_process_running(&self) -> Result<bool, QueryError> {
        match proc_open(self.pid) {
            Ok(process) => {
                let starttime = proc_starttime(&process)?;
                Ok(liveness_decision(Some(starttime), self.initial_starttime))
            },
            Err(_) => Ok(false),
        }
    }

    /// Feeds one successful sample into the idle timer; returns whether the
    /// remediation action fires at this instant. Configuration, identity and
    /// termination flag are untouched.
    pub fn on_sample(&mut self, connections_nonempty: bool, now: u64) -> (fired: bool)
        ensures
            ({
                let st = timer_step(old(self).timer, connections_nonempty, now, old(self).timeout);
                &&& final(self).timer == st.0
                &&& fired == st.1
            }),
            *final(self) == (Monitor {
                timer: final(self).timer,
                ..*old(self)
            }),
    {
        let (next, fired) = on_sample(self.timer, connections_nonempty, now, self.timeout);
        self.timer = next;
        fired
    }

    /// Records the liveness verdict after a failed sample. A live process
    /// leaves the monitor exactly as it was — a failed sample is never
    /// treated as empty or as non-empty; a dead one terminates it, with the
    /// timer untouched.
    pub fn on_query_failure(&mut self, alive: bool)
        ensures
            alive ==> *final(self) == *old(self),
            !alive ==> *final(self) == (Monitor { terminated: true, ..*old(self) }),
    {
        if !alive {
            self.terminated = true;
        }
    }

    /// One polling tick: sample the socket tables and decide.
    ///
    /// On a successful sample the idle timer advances by exactly one
    /// `timer_step` on the observed emptiness; on a failed sample the timer
    /// is untouched and the liveness verdict decides between a transient
    /// fault and termination. An error from the liveness check itself is
    /// handed back with the monitor unchanged.
    pub fn poll(&mut self, now: u64) -> (r: Result<TickOutcome, QueryError>)
        ensures
            r matches Ok(TickOutcome::Sampled { connections_nonempty, fired }) ==> ({
                let st = timer_step(old(self).timer, connections_nonempty, now, old(self).timeout);
                &&& final(self).timer == st.0
                &&& fired == st.1
                &&& *final(self) == (Monitor { timer: st.0, ..*old(self) })
            }),
            (r matches Ok(o) && o is TransientFailure) ==> *final(self) == *old(self),
            r matches Ok(TickOutcome::Terminated) ==> *final(self) == (Monitor {
                terminated: true,
                ..*old(self)
            }),
            r is Err ==> *final(self) == *old(self),
    {
        match self.check_established_connections() {
            Ok(connections) => {
                let connections_nonempty = connections.len() > 0;
                let fired = self.on_sample(connections_nonempty, now);
                Ok(TickOutcome::Sampled { connections_nonempty, fired })
            },
            Err(error) => {
                let alive = self.is_process_running()?;
                self.on_query_failure(alive);
                if alive {
                    Ok(TickOutcome::TransientFailure { error })
                } else {
                    Ok(TickOutcome::Terminated)
                }
            },
        }
    }
}

} // verus!
