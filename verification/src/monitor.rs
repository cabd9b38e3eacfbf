use vstd::prelude::*;
use crate::lookup::ProcessIdentity;
use crate::paths::basename;
use crate::paths::basename_spec;
use crate::paths::dir_prefix;
use crate::paths::dir_prefix_spec;
use crate::render::dec_digits;
use crate::render::dec_string;
use crate::messages::not_running_line;

verus! {

/// How a bounded wait on the cancellation signal ended.
pub enum WaitOutcome {
    /// The deadline elapsed with no cancellation: a restart cycle is due.
    TimedOut,
    /// Cancellation fired first: no restart may happen.
    Cancelled,
}

/// Where the monitor loop stands between two of its suspension points.
pub enum MonitorPhase {
    /// About to read the shared cancellation flag.
    Idle,
    /// The flag was clear; a fresh lookup of the target is due.
    Looking,
    /// The target was resolved; blocked until the interval elapses or
    /// cancellation fires.
    Waiting { id: ProcessIdentity },
    /// The interval elapsed; a terminate-then-spawn cycle is due.
    Restarting { id: ProcessIdentity },
    /// The loop has ended; the cancellation signal is to be set.
    Stopped,
}

/// What the outside world reports back to the monitor loop.
pub enum MonitorEvent {
    /// The value read from the shared cancellation flag.
    SignalObserved(bool),
    /// The identity the lookup resolved, fresh from the process table.
    LookupCompleted(Option<ProcessIdentity>),
    /// How the interruptible wait ended.
    WaitCompleted(WaitOutcome),
    /// How the terminate-then-spawn cycle ended; `Err` carries the detail
    /// for the failure report.
    RestartCompleted(Result<(), String>),
}

/// The blocking work the monitor loop asks its driver to perform next.
pub enum MonitorAction {
    /// Read the shared cancellation flag and report it.
    ObserveSignal,
    /// Resolve the target name against a fresh process-table snapshot.
    Lookup,
    /// Block on the cancellation signal for up to this many seconds.
    Wait(u64),
    /// Terminate this identity, then spawn its executable again.
    Restart(ProcessIdentity),
    /// Print the fatal not-found report, set the signal, and stop.
    ReportNotFoundAndStop,
    /// Print the restart-failure report, then read the flag again; the
    /// failed cycle is abandoned and the cadence continues unchanged.
    ReportFailureAndObserve(String),
    /// Set the signal and stop.
    Stop,
}

/// The monitor loop's restart cadence, driven one decision at a time.
/// Between decisions the driver performs the returned [`MonitorAction`]
/// and reports back what happened as a [`MonitorEvent`].
pub struct MonitorMachine {
    pub phase: MonitorPhase,
    pub interval_secs: u64,
}

impl MonitorMachine {
    /// Whether this event is the answer to the work the current phase is
    /// waiting on.
    pub open spec fn accepts(self, event: MonitorEvent) -> bool {
        match (self.phase, event) {
            (MonitorPhase::Idle, MonitorEvent::SignalObserved(_)) => true,
            (MonitorPhase::Looking, MonitorEvent::LookupCompleted(_)) => true,
            (MonitorPhase::Waiting { .. }, MonitorEvent::WaitCompleted(_)) => true,
            (MonitorPhase::Restarting { .. }, MonitorEvent::RestartCompleted(_)) => true,
            (MonitorPhase::Stopped, _) => true,
            _ => false,
        }
    }

    /// A fresh monitor, about to check the signal for the first time.
    pub fn new(interval_secs: u64) -> (r: MonitorMachine)
        ensures
            r.phase is Idle,
            r.interval_secs == interval_secs,
    {
        MonitorMachine { phase: MonitorPhase::Idle, interval_secs }
    }

    /// Whether this event answers what the current phase waits on; drivers
    /// check it before calling [`Self::step`].
    pub fn accepts_event(&self, event: &MonitorEvent) -> (r: bool)
        ensures
            r == self.accepts(*event),
    {
        match (&self.phase, event) {
            (MonitorPhase::Idle, MonitorEvent::SignalObserved(_)) => true,
            (MonitorPhase::Looking, MonitorEvent::LookupCompleted(_)) => true,
            (MonitorPhase::Waiting { .. }, MonitorEvent::WaitCompleted(_)) => true,
            (MonitorPhase::Restarting { .. }, MonitorEvent::RestartCompleted(_)) => true,
            (MonitorPhase::Stopped, _) => true,
            _ => false,
        }
    }

    /// One decision of the monitor loop.
    ///
    /// A clear signal leads to a fresh lookup; a failed lookup is fatal
    /// and stops the loop; a cancelled wait stops the loop without a
    /// restart; an elapsed wait triggers the restart cycle for the
    /// identity resolved this cycle; a failed restart is reported and the
    /// loop continues on its unchanged cadence; a stopped loop stays
    /// stopped. The interval never changes.
    pub fn step(self, event: MonitorEvent) -> (r: (MonitorMachine, MonitorAction))
        requires
            self.accepts(event),
        ensures
            r.0.interval_secs == self.interval_secs,
            match (self.phase, event) {
                (MonitorPhase::Idle, MonitorEvent::SignalObserved(set)) => (
                if set {
                    r.0.phase is Stopped && r.1 is Stop
                } else {
                    r.0.phase is Looking && r.1 is Lookup
                }),
                (MonitorPhase::Looking, MonitorEvent::LookupCompleted(found)) => (
                match found {
                    Option::None => r.0.phase is Stopped && r.1 is ReportNotFoundAndStop,
                    Option::Some(id) => (r.0.phase matches MonitorPhase::Waiting { id: wid }
                        && wid.pid == id.pid && wid.path@ == id.path@) && (
                    r.1 matches MonitorAction::Wait(secs) && secs == self.interval_secs),
                }),
                (MonitorPhase::Waiting { id }, MonitorEvent::WaitCompleted(w)) => (
                match w {
                    WaitOutcome::Cancelled => r.0.phase is Stopped && r.1 is Stop,
                    WaitOutcome::TimedOut => (r.0.phase matches MonitorPhase::Restarting {
                        id: rid,
                    } && rid.pid == id.pid && rid.path@ == id.path@) && (
                    r.1 matches MonitorAction::Restart(aid) && aid.pid == id.pid && aid.path@
                        == id.path@),
                }),
                (MonitorPhase::Restarting { id }, MonitorEvent::RestartCompleted(res)) => (r.0.phase
                    is Idle && match res {
                    Result::Ok(u) => r.1 is ObserveSignal,
                    Result::Err(e) => r.1 matches MonitorAction::ReportFailureAndObserve(d) && d@
                        == e@,
                }),
                (MonitorPhase::Stopped, _) => r.0.phase is Stopped && r.1 is Stop,
                _ => true,
            },
    {
        let MonitorMachine { phase, interval_secs } = self;
        match (phase, event) {
            (MonitorPhase::Idle, MonitorEvent::SignalObserved(set)) => {
                if set {
                    (
                        MonitorMachine { phase: MonitorPhase::Stopped, interval_secs },
                        MonitorAction::Stop,
                    )
                } else {
                    (
                        MonitorMachine { phase: MonitorPhase::Looking, interval_secs },
                        MonitorAction::Lookup,
                    )
                }
            },
            (MonitorPhase::Looking, MonitorEvent::LookupCompleted(found)) => {
                match found {
                    None => (
                        MonitorMachine { phase: MonitorPhase::Stopped, interval_secs },
                        MonitorAction::ReportNotFoundAndStop,
                    ),
                    Some(id) => (
                        MonitorMachine { phase: MonitorPhase::Waiting { id }, interval_secs },
                        MonitorAction::Wait(interval_secs),
                    ),
                }
            },
            (MonitorPhase::Waiting { id }, MonitorEvent::WaitCompleted(w)) => {
                match w {
                    WaitOutcome::Cancelled => (
                        MonitorMachine { phase: MonitorPhase::Stopped, interval_secs },
                        MonitorAction::Stop,
                    ),
                    WaitOutcome::TimedOut => {
                        let aid = ProcessIdentity {
                            pid: id.pid,
                            path: crate::lookup::copy_bytes(&id.path),
                        };
                        (
                            MonitorMachine {
                                phase: MonitorPhase::Restarting { id },
                                interval_secs,
                            },
                            MonitorAction::Restart(aid),
                        )
                    },
                }
            },
            (MonitorPhase::Restarting { id: _ }, MonitorEvent::RestartCompleted(res)) => {
                match res {
                    Ok(_) => (
                        MonitorMachine { phase: MonitorPhase::Idle, interval_secs },
                        MonitorAction::ObserveSignal,
                    ),
                    Err(e) => (
                        MonitorMachine { phase: MonitorPhase::Idle, interval_secs },
                        MonitorAction::ReportFailureAndObserve(e),
                    ),
                }
            },
            _ => (
                MonitorMachine { phase: MonitorPhase::Stopped, interval_secs },
                MonitorAction::Stop,
            ),
        }
    }
}

/// The decision taken once at startup, from the first lookup.
pub enum StartupDecision {
    /// No process of the target's name is running: report it and exit
    /// without starting any loop.
    NotFound,
    /// The target was found; `app_name` is the resolved executable's file
    /// name, for the startup confirmation line.
    Proceed { app_name: Vec<u8> },
}

/// Decide from the startup lookup whether the run proceeds: a failed
/// lookup starts no loop at all, a successful one yields the executable
/// file name shown to the operator.
pub fn plan_startup(lookup: Option<ProcessIdentity>, sep: u8) -> (r: StartupDecision)
    ensures
        lookup is None ==> r is NotFound,
        lookup matches Some(id) ==> (r matches StartupDecision::Proceed { app_name } && app_name@
            == basename_spec(id.path@, sep)),
{
    match lookup {
        None => StartupDecision::NotFound,
        Some(id) => StartupDecision::Proceed { app_name: basename(&id.path, sep) },
    }
}

/// What a restart cycle executes, precomputed from the resolved identity:
/// the platform kill command for the live identifier, and the working
/// directory the new instance is spawned in.
pub struct RestartCommands {
    pub kill_command: String,
    pub working_dir: Vec<u8>,
}

/// Prepare one terminate-then-spawn cycle. `pid` is the identifier
/// resolved fresh from the process table; when the target is no longer
/// running the cycle is refused with the error detail, else the kill
/// command and the executable's own directory are laid out.
pub fn plan_restart(pid: Option<u32>, path: &Vec<u8>, name: &str, sep: u8) -> (r: Result<
    RestartCommands,
    String,
>)
    ensures
        pid is None ==> (r matches Err(m) && m@ == "Program "@ + name@ + " isn't running."@),
        pid matches Some(p) ==> (r matches Ok(c) && c.kill_command@ == "taskkill /F /PID "@
            + dec_digits(p as u64) && c.working_dir@ == dir_prefix_spec(path@, sep)),
{
    match pid {
        None => Err(not_running_line(name)),
        Some(p) => {
            let mut kill_command = "taskkill /F /PID ".to_owned();
            kill_command.append(dec_string(p as u64).as_str());
            Ok(RestartCommands { kill_command, working_dir: dir_prefix(path, sep) })
        },
    }
}

} // verus!
