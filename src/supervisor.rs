use vstd::prelude::*;
use crate::policy::RetryPolicy;
use crate::reaper::{find_by_name, matching_pids, ProcessEntry};

verus! {

/// Where the supervisor stands in its start / stop lifecycle.
#[derive(Clone, Copy, Debug, PartialEq, Eq, Structural)]
pub enum Phase {
    /// No process owned; ready to start.
    Idle,
    /// Start requested: stray same-named processes are being reaped.
    Clearing,
    /// A spawn of the current attempt was requested.
    Spawning,
    /// The process `pid` was spawned; `probes` health probes have been requested.
    Probing { pid: u32, probes: u32 },
    /// The process `pid` never became healthy and is being killed.
    Discarding { pid: u32 },
    /// Every attempt failed: a final reap runs before giving up.
    Sweeping,
    /// The process `pid` is healthy and owned by the caller's handle.
    Running { pid: u32 },
    /// The start sequence gave up; nothing is owned.
    StartFailed,
    /// Stop requested: graceful termination of `pid` was requested.
    Terminating { pid: u32 },
    /// Waiting for `pid` to exit; `polls` exit polls have been requested.
    Awaiting { pid: u32, polls: u32 },
    /// `pid` outlived the grace period and is being killed.
    Forcing { pid: u32 },
    /// The owned process is gone: a final reap runs before returning to idle.
    StopSweeping,
}

/// What the caller observed after performing the last requested action.
#[derive(Clone, Copy, Debug, PartialEq, Eq, Structural)]
pub enum Event {
    /// The caller asks for the backend to be started.
    Begin,
    /// The caller asks for the backend to be stopped.
    Stop,
    /// A reap, kill or graceful signal was carried out (failures are absorbed).
    Done,
    /// The spawn succeeded with this pid.
    Spawned(u32),
    /// The operating system refused the spawn.
    SpawnFailed,
    /// The health probe answered: success-class status or not.
    Probed(bool),
    /// The exit poll answered: the process has exited or not.
    Exited(bool),
}

/// What the caller must do next.
#[derive(Clone, Copy, Debug, PartialEq, Eq, Structural)]
pub enum Action {
    /// Nothing owned and nothing to do.
    Idle,
    /// Terminate every process whose name matches the backend's executable name.
    Reap,
    /// Wait `delay_ms`, then spawn a fresh backend process.
    Spawn { delay_ms: u64 },
    /// Wait `delay_ms`, then make one health request.
    Probe { delay_ms: u64 },
    /// Forcibly kill `pid` and reap it.
    Kill { pid: u32 },
    /// Ask `pid` to terminate gracefully.
    Terminate { pid: u32 },
    /// Wait `delay_ms`, then check whether `pid` has exited.
    PollExit { pid: u32, delay_ms: u64 },
    /// The start sequence succeeded; `pid` is the healthy process.
    Ready { pid: u32 },
    /// The start sequence failed terminally.
    Failed,
}

/// The decision state of the supervisor.
#[derive(Clone, Copy, Debug, PartialEq, Eq, Structural)]
pub struct Machine {
    pub phase: Phase,
    /// Spawns requested in the current start sequence.
    pub attempts: u32,
}

impl Machine {
    pub open spec fn wf(&self, p: RetryPolicy) -> bool {
        &&& self.attempts <= p.max_attempts
        &&& match self.phase {
            Phase::Idle | Phase::Clearing => self.attempts == 0,
            Phase::Spawning | Phase::Discarding { .. } | Phase::Running { .. } => 1 <= self.attempts,
            Phase::Probing { probes, .. } => 1 <= self.attempts && 1 <= probes <= p.probe_attempts,
            Phase::Sweeping | Phase::StartFailed => self.attempts == p.max_attempts,
            Phase::Awaiting { polls, .. } => 1 <= polls <= p.grace_polls,
            _ => true,
        }
    }

    pub open spec fn spec_idle() -> Machine {
        Machine { phase: Phase::Idle, attempts: 0 }
    }

    /// The supervisor before any start.
    pub fn idle() -> (r: Machine)
        ensures
            r == Machine::spec_idle(),
    {
        Machine { phase: Phase::Idle, attempts: 0 }
    }
}

/// The process the supervisor holds and has not yet asked to be killed.
pub open spec fn owned(m: Machine) -> Option<u32> {
    match m.phase {
        Phase::Probing { pid, .. } => Some(pid),
        Phase::Running { pid } => Some(pid),
        Phase::Terminating { pid } => Some(pid),
        Phase::Awaiting { pid, .. } => Some(pid),
        _ => None,
    }
}

/// After a failed attempt: spawn again after the backoff, or give up after a
/// final reap once the budget is spent.
pub open spec fn after_failed_attempt(p: RetryPolicy, attempts: u32) -> Machine {
    if attempts < p.max_attempts {
        Machine { phase: Phase::Spawning, attempts: (attempts + 1) as u32 }
    } else {
        Machine { phase: Phase::Sweeping, attempts }
    }
}

/// The transition on one event. An event that does not answer the pending
/// action leaves the machine as it is.
pub open spec fn next(p: RetryPolicy, m: Machine, e: Event) -> Machine {
    match m.phase {
        Phase::Idle => match e {
            Event::Begin => Machine { phase: Phase::Clearing, attempts: 0 },
            _ => m,
        },
        Phase::Clearing => match e {
            Event::Done => Machine { phase: Phase::Spawning, attempts: 1 },
            _ => m,
        },
        Phase::Spawning => match e {
            Event::Spawned(pid) => Machine { phase: Phase::Probing { pid, probes: 1 }, attempts: m.attempts },
            Event::SpawnFailed => after_failed_attempt(p, m.attempts),
            _ => m,
        },
        Phase::Probing { pid, probes } => match e {
            Event::Probed(true) => Machine { phase: Phase::Running { pid }, attempts: m.attempts },
            Event::Probed(false) => if probes < p.probe_attempts {
                Machine { phase: Phase::Probing { pid, probes: (probes + 1) as u32 }, attempts: m.attempts }
            } else {
                Machine { phase: Phase::Discarding { pid }, attempts: m.attempts }
            },
            _ => m,
        },
        Phase::Discarding { .. } => match e {
            Event::Done => after_failed_attempt(p, m.attempts),
            _ => m,
        },
        Phase::Sweeping => match e {
            Event::Done => Machine { phase: Phase::StartFailed, attempts: m.attempts },
            _ => m,
        },
        Phase::Running { pid } => match e {
            Event::Stop => Machine { phase: Phase::Terminating { pid }, attempts: m.attempts },
            _ => m,
        },
        Phase::StartFailed => m,
        Phase::Terminating { pid } => match e {
            Event::Done => Machine { phase: Phase::Awaiting { pid, polls: 1 }, attempts: m.attempts },
            _ => m,
        },
        Phase::Awaiting { pid, polls } => match e {
            Event::Exited(true) => Machine { phase: Phase::StopSweeping, attempts: m.attempts },
            Event::Exited(false) => if polls < p.grace_polls {
                Machine { phase: Phase::Awaiting { pid, polls: (polls + 1) as u32 }, attempts: m.attempts }
            } else {
                Machine { phase: Phase::Forcing { pid }, attempts: m.attempts }
            },
            _ => m,
        },
        Phase::Forcing { .. } => match e {
            Event::Done => Machine { phase: Phase::StopSweeping, attempts: m.attempts },
            _ => m,
        },
        Phase::StopSweeping => match e {
            Event::Done => Machine::spec_idle(),
            _ => m,
        },
    }
}

/// The action that a machine in state `m` asks of the caller.
pub open spec fn pending(p: RetryPolicy, m: Machine) -> Action {
    match m.phase {
        Phase::Idle => Action::Idle,
        Phase::Clearing => Action::Reap,
        Phase::Spawning => Action::Spawn {
            delay_ms: if m.attempts <= 1 { 0 } else { p.backoff_ms },
        },
        Phase::Probing { .. } => Action::Probe { delay_ms: p.probe_interval_ms },
        Phase::Discarding { pid } => Action::Kill { pid },
        Phase::Sweeping => Action::Reap,
        Phase::Running { pid } => Action::Ready { pid },
        Phase::StartFailed => Action::Failed,
        Phase::Terminating { pid } => Action::Terminate { pid },
        Phase::Awaiting { pid, .. } => Action::PollExit { pid, delay_ms: p.grace_poll_ms },
        Phase::Forcing { pid } => Action::Kill { pid },
        Phase::StopSweeping => Action::Reap,
    }
}

/// The action that `m` asks of the caller.
pub fn pending_action(p: &RetryPolicy, m: &Machine) -> (r: Action)
    ensures
        r == pending(*p, *m),
{
    match m.phase {
        Phase::Idle => Action::Idle,
        Phase::Clearing => Action::Reap,
        Phase::Spawning => Action::Spawn {
            delay_ms: if m.attempts <= 1 { 0 } else { p.backoff_ms },
        },
        Phase::Probing { .. } => Action::Probe { delay_ms: p.probe_interval_ms },
        Phase::Discarding { pid } => Action::Kill { pid },
        Phase::Sweeping => Action::Reap,
        Phase::Running { pid } => Action::Ready { pid },
        Phase::StartFailed => Action::Failed,
        Phase::Terminating { pid } => Action::Terminate { pid },
        Phase::Awaiting { pid, .. } => Action::PollExit { pid, delay_ms: p.grace_poll_ms },
        Phase::Forcing { pid } => Action::Kill { pid },
        Phase::StopSweeping => Action::Reap,
    }
}

fn after_failed_attempt_exec(p: &RetryPolicy, attempts: u32) -> (r: Machine)
    ensures
        r == after_failed_attempt(*p, attempts),
{
    if attempts < p.max_attempts {
        Machine { phase: Phase::Spawning, attempts: attempts + 1 }
    } else {
        Machine { phase: Phase::Sweeping, attempts }
    }
}

/// Apply one event to `m`, returning the next state and the action it asks for.
pub fn transition(p: &RetryPolicy, m: Machine, e: Event) -> (r: (Machine, Action))
    requires
        p.wf(),
        m.wf(*p),
    ensures
        r.0 == next(*p, m, e),
        r.0.wf(*p),
        r.1 == pending(*p, r.0),
{
    let n = match m.phase {
        Phase::Idle => match e {
            Event::Begin => Machine { phase: Phase::Clearing, attempts: 0 },
            _ => m,
        },
        Phase::Clearing => match e {
            Event::Done => Machine { phase: Phase::Spawning, attempts: 1 },
            _ => m,
        },
        Phase::Spawning => match e {
            Event::Spawned(pid) => Machine { phase: Phase::Probing { pid, probes: 1 }, attempts: m.attempts },
            Event::SpawnFailed => after_failed_attempt_exec(p, m.attempts),
            _ => m,
        },
        Phase::Probing { pid, probes } => match e {
            Event::Probed(true) => Machine { phase: Phase::Running { pid }, attempts: m.attempts },
            Event::Probed(false) => if probes < p.probe_attempts {
                Machine { phase: Phase::Probing { pid, probes: probes + 1 }, attempts: m.attempts }
            } else {
                Machine { phase: Phase::Discarding { pid }, attempts: m.attempts }
            },
            _ => m,
        },
        Phase::Discarding { .. } => match e {
            Event::Done => after_failed_attempt_exec(p, m.attempts),
            _ => m,
        },
        Phase::Sweeping => match e {
            Event::Done => Machine { phase: Phase::StartFailed, attempts: m.attempts },
            _ => m,
        },
        Phase::Running { pid } => match e {
            Event::Stop => Machine { phase: Phase::Terminating { pid }, attempts: m.attempts },
            _ => m,
        },
        Phase::StartFailed => m,
        Phase::Terminating { pid } => match e {
            Event::Done => Machine { phase: Phase::Awaiting { pid, polls: 1 }, attempts: m.attempts },
            _ => m,
        },
        Phase::Awaiting { pid, polls } => match e {
            Event::Exited(true) => Machine { phase: Phase::StopSweeping, attempts: m.attempts },
            Event::Exited(false) => if polls < p.grace_polls {
                Machine { phase: Phase::Awaiting { pid, polls: polls + 1 }, attempts: m.attempts }
            } else {
                Machine { phase: Phase::Forcing { pid }, attempts: m.attempts }
            },
            _ => m,
        },
        Phase::Forcing { .. } => match e {
            Event::Done => Machine { phase: Phase::StopSweeping, attempts: m.attempts },
            _ => m,
        },
        Phase::StopSweeping => match e {
            Event::Done => Machine::idle(),
            _ => m,
        },
    };
    let a = pending_action(p, &n);
    (n, a)
}

/// The outcome of one health request: healthy exactly when a response came
/// back (`status` is its HTTP status code) with a success-class (2xx) status;
/// `None` stands for a transport error or a timeout.
pub fn probe_outcome(status: Option<u16>) -> (r: Event)
    ensures
        r == Event::Probed(
            match status {
                Some(code) => 200 <= code < 300,
                None => false,
            },
        ),
{
    match status {
        Some(code) => Event::Probed(200 <= code && code < 300),
        None => Event::Probed(false),
    }
}

/// What a supervisor is, seen from outside: its configuration, the
/// executable name it reaps by, and its decision state.
pub struct SupervisorView {
    pub policy: RetryPolicy,
    pub exe_name: Seq<char>,
    pub machine: Machine,
}

/// The start / stop decision maker for one backend executable.
pub struct Supervisor {
    policy: RetryPolicy,
    exe_name: String,
    machine: Machine,
}

impl View for Supervisor {
    type V = SupervisorView;

    closed spec fn view(&self) -> SupervisorView {
        SupervisorView { policy: self.policy, exe_name: self.exe_name@, machine: self.machine }
    }
}

impl Supervisor {
    pub open spec fn wf(&self) -> bool {
        &&& self@.policy.wf()
        &&& self@.machine.wf(self@.policy)
    }

    /// An idle supervisor of the backend named `exe_name`.
    pub fn new(policy: RetryPolicy, exe_name: String) -> (r: Supervisor)
        requires
            policy.wf(),
        ensures
            r.wf(),
            r@.policy == policy,
            r@.exe_name == exe_name@,
            r@.machine == Machine::spec_idle(),
    {
        Supervisor { policy, exe_name, machine: Machine::idle() }
    }

    /// Feed one event; returns the action the caller must carry out next.
    pub fn step(&mut self, e: Event) -> (r: Action)
        requires
            old(self).wf(),
        ensures
            final(self).wf(),
            final(self)@.policy == old(self)@.policy,
            final(self)@.exe_name == old(self)@.exe_name,
            final(self)@.machine == next(old(self)@.policy, old(self)@.machine, e),
            r == pending(old(self)@.policy, final(self)@.machine),
    {
        let (m, a) = transition(&self.policy, self.machine, e);
        self.machine = m;
        a
    }

    /// The action currently asked of the caller.
    pub fn action(&self) -> (r: Action)
        ensures
            r == pending(self@.policy, self@.machine),
    {
        pending_action(&self.policy, &self.machine)
    }

    /// The processes of `table` that a reap must terminate.
    pub fn orphans(&self, table: &Vec<ProcessEntry>) -> (r: Vec<u32>)
        ensures
            r@ == matching_pids(table@, self@.exe_name),
    {
        find_by_name(table, self.exe_name.as_str())
    }

    pub fn phase(&self) -> (r: Phase)
        ensures
            r == self@.machine.phase,
    {
        self.machine.phase
    }

    pub fn attempts(&self) -> (r: u32)
        ensures
            r == self@.machine.attempts,
    {
        self.machine.attempts
    }

    pub fn exe_name(&self) -> (r: &str)
        ensures
            r@ == self@.exe_name,
    {
        self.exe_name.as_str()
    }

    pub fn policy(&self) -> (r: RetryPolicy)
        ensures
            r == self@.policy,
    {
        self.policy
    }
}

} // verus!
