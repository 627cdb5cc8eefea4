use vstd::prelude::*;
use crate::policy::RetryPolicy;
use crate::supervisor::{next, owned, pending, Action, Event, Machine, Phase};

verus! {

/// A scripted environment for reasoning about whole runs: spawns always
/// succeed and the process spawned on attempt `k` gets pid `k`; the health
/// endpoint answers with success exactly during attempt `healthy_on` (never,
/// when it is 0); the owned process exits on graceful termination exactly when
/// `exits_gracefully` holds.
pub struct World {
    pub healthy_on: u32,
    pub exits_gracefully: bool,
}

/// What a run left behind and what it did.
pub struct Trace {
    /// The state where the run stopped.
    pub end: Machine,
    /// Spawn actions issued.
    pub spawns: nat,
    /// Reap actions issued.
    pub reaps: nat,
    /// Total of the waits that the issued actions asked for, in milliseconds.
    pub waited: nat,
    /// Pids reported by successful spawns.
    pub spawned: Set<u32>,
    /// Pids that a kill action was issued for.
    pub killed: Set<u32>,
}

/// States in which the supervisor waits for the caller rather than for an
/// outcome.
pub open spec fn settled(m: Machine) -> bool {
    m.phase is Idle || m.phase is Running || m.phase is StartFailed
}

/// The environment's answer to the action pending in `m`.
pub open spec fn respond(w: World, m: Machine) -> Event {
    match m.phase {
        Phase::Spawning => Event::Spawned(m.attempts),
        Phase::Probing { .. } => Event::Probed(m.attempts == w.healthy_on),
        Phase::Awaiting { .. } => Event::Exited(w.exits_gracefully),
        _ => Event::Done,
    }
}

pub open spec fn delay_of(a: Action) -> nat {
    match a {
        Action::Spawn { delay_ms } => delay_ms as nat,
        Action::Probe { delay_ms } => delay_ms as nat,
        Action::PollExit { delay_ms, .. } => delay_ms as nat,
        _ => 0,
    }
}

/// Run the supervisor from `m` against `w` for at most `fuel` steps, stopping
/// early at a settled state.
pub open spec fn drive(p: RetryPolicy, w: World, m: Machine, fuel: nat) -> Trace
    decreases fuel,
{
    if fuel == 0 || settled(m) {
        Trace {
            end: m,
            spawns: 0,
            reaps: 0,
            waited: 0,
            spawned: Set::empty(),
            killed: Set::empty(),
        }
    } else {
        let e = respond(w, m);
        let m2 = next(p, m, e);
        let a = pending(p, m2);
        let t = drive(p, w, m2, (fuel - 1) as nat);
        Trace {
            end: t.end,
            spawns: t.spawns + if a is Spawn { 1nat } else { 0nat },
            reaps: t.reaps + if a is Reap { 1nat } else { 0nat },
            waited: t.waited + delay_of(a),
            spawned: match e {
                Event::Spawned(pid) => t.spawned.insert(pid),
                _ => t.spawned,
            },
            killed: match a {
                Action::Kill { pid } => t.killed.insert(pid),
                _ => t.killed,
            },
        }
    }
}

/// Steps taken by `k` failed attempts.
pub open spec fn attempts_cost(p: RetryPolicy, k: nat) -> nat
    decreases k,
{
    if k == 0 {
        0
    } else {
        p.probe_attempts as nat + 2 + attempts_cost(p, (k - 1) as nat)
    }
}

/// Steps that a start sequence whose every attempt fails takes from `m`.
pub open spec fn failing_steps(p: RetryPolicy, m: Machine) -> nat {
    match m.phase {
        Phase::Clearing => attempts_cost(p, p.max_attempts as nat) + 2,
        Phase::Spawning => attempts_cost(p, (p.max_attempts - m.attempts + 1) as nat) + 1,
        Phase::Probing { probes, .. } => (p.probe_attempts - probes) as nat + 3 + attempts_cost(
            p,
            (p.max_attempts - m.attempts) as nat,
        ),
        Phase::Discarding { .. } => attempts_cost(p, (p.max_attempts - m.attempts) as nat) + 2,
        Phase::Sweeping => 1,
        _ => 0,
    }
}

/// Wait asked for by `n` health probes.
pub open spec fn probes_wait(p: RetryPolicy, n: nat) -> nat
    decreases n,
{
    if n == 0 {
        0
    } else {
        p.probe_interval_ms as nat + probes_wait(p, (n - 1) as nat)
    }
}

/// Wait asked for by `r` further attempts that all fail.
pub open spec fn retries_wait(p: RetryPolicy, r: nat) -> nat
    decreases r,
{
    if r == 0 {
        0
    } else {
        p.backoff_ms as nat + probes_wait(p, p.probe_attempts as nat) + retries_wait(p, (r - 1) as nat)
    }
}

/// Wait still to be asked for from `m` when every attempt fails.
pub open spec fn failing_wait(p: RetryPolicy, m: Machine) -> nat {
    match m.phase {
        Phase::Clearing => probes_wait(p, p.probe_attempts as nat) + retries_wait(
            p,
            (p.max_attempts - 1) as nat,
        ),
        Phase::Spawning => probes_wait(p, p.probe_attempts as nat) + retries_wait(
            p,
            (p.max_attempts - m.attempts) as nat,
        ),
        Phase::Probing { probes, .. } => probes_wait(p, (p.probe_attempts - probes) as nat)
            + retries_wait(p, (p.max_attempts - m.attempts) as nat),
        Phase::Discarding { .. } => retries_wait(p, (p.max_attempts - m.attempts) as nat),
        _ => 0,
    }
}

proof fn lemma_probes_wait(p: RetryPolicy, n: nat)
    ensures
        probes_wait(p, n) == n * p.probe_interval_ms,
    decreases n,
{
    if n > 0 {
        lemma_probes_wait(p, (n - 1) as nat);
        let i = p.probe_interval_ms as int;
        let k = (n - 1) as nat;
        assert(probes_wait(p, n) == i + probes_wait(p, k));
        assert(k * i + i == n * i) by (nonlinear_arith)
            requires
                k + 1 == n,
        ;
        assert(probes_wait(p, n) == n * i);
    } else {
        assert(probes_wait(p, n) == 0);
        assert(n * p.probe_interval_ms == 0);
    }
}

proof fn lemma_retries_wait(p: RetryPolicy, r: nat)
    ensures
        retries_wait(p, r) == r * (p.backoff_ms + p.probe_attempts * p.probe_interval_ms),
    decreases r,
{
    lemma_probes_wait(p, p.probe_attempts as nat);
    if r > 0 {
        lemma_retries_wait(p, (r - 1) as nat);
        let c = p.backoff_ms + p.probe_attempts * p.probe_interval_ms;
        let k = (r - 1) as nat;
        assert(retries_wait(p, r) == c + retries_wait(p, k));
        assert(k * c + c == r * c) by (nonlinear_arith)
            requires
                k + 1 == r,
        ;
        assert(retries_wait(p, r) == r * c);
    } else {
        assert(retries_wait(p, r) == 0);
        assert(r * (p.backoff_ms + p.probe_attempts * p.probe_interval_ms) == 0);
    }
}

/// Spawns still to be issued from `m` when every attempt fails.
pub open spec fn failing_spawns_left(p: RetryPolicy, m: Machine) -> nat {
    match m.phase {
        Phase::Clearing => p.max_attempts as nat,
        Phase::Spawning | Phase::Probing { .. } | Phase::Discarding { .. } => (p.max_attempts
            - m.attempts) as nat,
        _ => 0,
    }
}

pub open spec fn in_start_sequence(m: Machine) -> bool {
    ||| m.phase is Clearing
    ||| m.phase is Spawning
    ||| m.phase is Probing
    ||| m.phase is Discarding
    ||| m.phase is Sweeping
    ||| m.phase is StartFailed
}

proof fn lemma_failing_run(p: RetryPolicy, w: World, m: Machine, fuel: nat)
    requires
        p.wf(),
        m.wf(p),
        in_start_sequence(m),
        w.healthy_on == 0,
        fuel >= failing_steps(p, m),
    ensures
        ({
            let t = drive(p, w, m, fuel);
            &&& t.end.phase == Phase::StartFailed
            &&& t.end.attempts == p.max_attempts
            &&& t.spawns == failing_spawns_left(p, m)
            &&& t.waited == failing_wait(p, m)
            &&& t.reaps == if m.phase is Sweeping || m.phase is StartFailed { 0nat } else { 1nat }
            &&& t.spawned.subset_of(t.killed)
            &&& (m.phase matches Phase::Probing { pid, .. } ==> t.killed.contains(pid))
        }),
    decreases fuel,
{
    if m.phase is StartFailed {
        return;
    }
    let e = respond(w, m);
    let m2 = next(p, m, e);
    assert(failing_steps(p, m2) + 1 == failing_steps(p, m));
    lemma_failing_run(p, w, m2, (fuel - 1) as nat);
}

/// A start whose health probes never succeed makes exactly `max_attempts`
/// spawns, kills every process it spawned, reaps stray processes before the
/// first spawn and once more at the end, and ends in the failed state owning
/// nothing. The waits it asks for add up to every probe interval of every
/// attempt and the backoff between consecutive attempts.
pub proof fn lemma_never_healthy_start_fails(p: RetryPolicy, w: World, fuel: nat)
    requires
        p.wf(),
        w.healthy_on == 0,
        fuel >= attempts_cost(p, p.max_attempts as nat) + 2,
    ensures
        ({
            let m1 = next(p, Machine::spec_idle(), Event::Begin);
            let t = drive(p, w, m1, fuel);
            &&& pending(p, m1) == Action::Reap
            &&& t.end.phase == Phase::StartFailed
            &&& owned(t.end) is None
            &&& t.spawns == p.max_attempts
            &&& t.reaps == 1
            &&& t.spawned.subset_of(t.killed)
            &&& t.waited == p.max_attempts * p.probe_attempts * p.probe_interval_ms + (p.max_attempts
                - 1) * p.backoff_ms
        }),
{
    let m1 = next(p, Machine::spec_idle(), Event::Begin);
    lemma_failing_run(p, w, m1, fuel);
    lemma_probes_wait(p, p.probe_attempts as nat);
    lemma_retries_wait(p, (p.max_attempts - 1) as nat);
    let n = p.max_attempts as int;
    let q = p.probe_attempts as int;
    let i = p.probe_interval_ms as int;
    let b = p.backoff_ms as int;
    assert(q * i + (n - 1) * (b + q * i) == n * q * i + (n - 1) * b) by (nonlinear_arith);
}

/// Steps that a start sequence whose attempt `k` turns healthy takes from `m`.
pub open spec fn healthy_steps(p: RetryPolicy, k: u32, m: Machine) -> nat {
    match m.phase {
        Phase::Clearing => attempts_cost(p, (k - 1) as nat) + 3,
        Phase::Spawning => attempts_cost(p, (k - m.attempts) as nat) + 2,
        Phase::Probing { probes, .. } => if m.attempts == k {
            1
        } else {
            (p.probe_attempts - probes) as nat + 4 + attempts_cost(p, (k - 1 - m.attempts) as nat)
        },
        Phase::Discarding { .. } => attempts_cost(p, (k - 1 - m.attempts) as nat) + 3,
        _ => 0,
    }
}

/// First attempt whose spawn lies ahead of `m`.
pub open spec fn next_spawn(m: Machine) -> int {
    match m.phase {
        Phase::Clearing => 1,
        Phase::Spawning => m.attempts as int,
        _ => m.attempts + 1,
    }
}

/// First attempt whose kill lies ahead of `m`.
pub open spec fn next_kill(m: Machine) -> int {
    match m.phase {
        Phase::Clearing => 1,
        Phase::Spawning | Phase::Probing { .. } => m.attempts as int,
        _ => m.attempts + 1,
    }
}

pub open spec fn healthy_run_state(p: RetryPolicy, k: u32, m: Machine) -> bool {
    match m.phase {
        Phase::Clearing => true,
        Phase::Spawning => m.attempts <= k,
        Phase::Probing { pid, .. } => pid == m.attempts && m.attempts <= k,
        Phase::Discarding { pid } => pid == m.attempts && m.attempts < k,
        Phase::Running { pid } => pid == k && m.attempts == k,
        _ => false,
    }
}

proof fn lemma_healthy_run(p: RetryPolicy, w: World, m: Machine, fuel: nat)
    requires
        p.wf(),
        m.wf(p),
        1 <= w.healthy_on <= p.max_attempts,
        healthy_run_state(p, w.healthy_on, m),
        fuel >= healthy_steps(p, w.healthy_on, m),
    ensures
        ({
            let k = w.healthy_on;
            let t = drive(p, w, m, fuel);
            &&& t.end.phase == (Phase::Running { pid: k })
            &&& t.end.attempts == k
            &&& t.spawns == k - (if m.phase is Clearing { 0 } else { m.attempts as int })
            &&& t.reaps == 0
            &&& forall|j: u32| #[trigger] t.killed.contains(j) <==> next_kill(m) <= j < k
            &&& forall|j: u32| #[trigger] t.spawned.contains(j) <==> next_spawn(m) <= j <= k
        }),
    decreases fuel,
{
    if m.phase is Running {
        return;
    }
    let e = respond(w, m);
    let m2 = next(p, m, e);
    assert(healthy_steps(p, w.healthy_on, m2) + 1 == healthy_steps(p, w.healthy_on, m));
    lemma_healthy_run(p, w, m2, (fuel - 1) as nat);
}

/// A start whose health probe first succeeds during attempt `k` makes exactly
/// `k` spawns, hands over the process spawned on attempt `k`, and has killed
/// the processes of attempts `1..k-1` and no other.
pub proof fn lemma_healthy_on_attempt(p: RetryPolicy, w: World, fuel: nat)
    requires
        p.wf(),
        1 <= w.healthy_on <= p.max_attempts,
        fuel >= attempts_cost(p, (w.healthy_on - 1) as nat) + 3,
    ensures
        ({
            let k = w.healthy_on;
            let m1 = next(p, Machine::spec_idle(), Event::Begin);
            let t = drive(p, w, m1, fuel);
            &&& pending(p, m1) == Action::Reap
            &&& t.end.phase == (Phase::Running { pid: k })
            &&& pending(p, t.end) == (Action::Ready { pid: k })
            &&& owned(t.end) == Some(k)
            &&& t.spawns == k
            &&& t.spawned.contains(k)
            &&& !t.killed.contains(k)
            &&& forall|j: u32| 1 <= j < k ==> #[trigger] t.killed.contains(j)
            &&& forall|j: u32| #[trigger] t.spawned.contains(j) ==> 1 <= j <= k
        }),
{
    let m1 = next(p, Machine::spec_idle(), Event::Begin);
    lemma_healthy_run(p, w, m1, fuel);
}

pub open spec fn in_stop_sequence(m: Machine) -> bool {
    ||| m.phase is Terminating
    ||| m.phase is Awaiting
    ||| m.phase is Forcing
    ||| m.phase is StopSweeping
    ||| m.phase is Idle
}

/// Steps that a stop sequence whose process ignores graceful termination
/// takes from `m`.
pub open spec fn stop_steps(p: RetryPolicy, m: Machine) -> nat {
    match m.phase {
        Phase::Terminating { .. } => p.grace_polls as nat + 3,
        Phase::Awaiting { polls, .. } => (p.grace_polls - polls) as nat + 3,
        Phase::Forcing { .. } => 2,
        Phase::StopSweeping => 1,
        _ => 0,
    }
}

proof fn lemma_stop_run(p: RetryPolicy, w: World, m: Machine, fuel: nat)
    requires
        p.wf(),
        m.wf(p),
        in_stop_sequence(m),
        fuel >= stop_steps(p, m),
    ensures
        ({
            let t = drive(p, w, m, fuel);
            &&& t.end == Machine::spec_idle()
            &&& t.reaps == if m.phase is StopSweeping || m.phase is Idle { 0nat } else { 1nat }
            &&& t.spawns == 0
            &&& forall|x: u32| #[trigger] t.killed.contains(x) <==> (!w.exits_gracefully && owned(m) == Some(x))
        }),
    decreases fuel,
{
    if m.phase is Idle {
        return;
    }
    let e = respond(w, m);
    let m2 = next(p, m, e);
    lemma_stop_run(p, w, m2, (fuel - 1) as nat);
}

/// Stopping a running backend first asks it to terminate gracefully; a
/// process that ignores this past the bounded wait is killed, one that obeys
/// is not; either way the sequence ends idle after a final reap.
pub proof fn lemma_stop_escalates(p: RetryPolicy, w: World, m: Machine, fuel: nat)
    requires
        p.wf(),
        m.wf(p),
        m.phase is Running,
        fuel >= p.grace_polls as nat + 3,
    ensures
        ({
            let pid = m.phase->Running_pid;
            let m1 = next(p, m, Event::Stop);
            let t = drive(p, w, m1, fuel);
            &&& pending(p, m1) == (Action::Terminate { pid })
            &&& t.end == Machine::spec_idle()
            &&& owned(t.end) is None
            &&& t.reaps == 1
            &&& t.spawns == 0
            &&& t.killed.contains(pid) == !w.exits_gracefully
            &&& forall|x: u32| #[trigger] t.killed.contains(x) ==> x == pid
        }),
{
    let m1 = next(p, m, Event::Stop);
    lemma_stop_run(p, w, m1, fuel);
}

/// Every transition keeps the supervisor's state well formed.
pub proof fn lemma_next_wf(p: RetryPolicy, m: Machine, e: Event)
    requires
        p.wf(),
        m.wf(p),
    ensures
        next(p, m, e).wf(p),
{
}

/// A stop request while nothing is owned changes nothing and asks for nothing.
pub proof fn lemma_stop_when_idle(p: RetryPolicy)
    ensures
        next(p, Machine::spec_idle(), Event::Stop) == Machine::spec_idle(),
        pending(p, Machine::spec_idle()) == Action::Idle,
{
}

/// At most one process is owned: a spawn is only asked for when nothing is
/// owned, and the owned process is only let go through a kill of it or its
/// observed exit.
pub proof fn lemma_single_owner(p: RetryPolicy, m: Machine, e: Event)
    requires
        p.wf(),
        m.wf(p),
    ensures
        ({
            let m2 = next(p, m, e);
            &&& (m2 != m && pending(p, m2) is Spawn) ==> owned(m) is None
            &&& forall|pid: u32|
                owned(m) == Some(pid) && owned(m2) != Some(pid) ==> pending(p, m2) == (Action::Kill { pid })
                    || e == Event::Exited(true)
        }),
{
}

/// The live backend processes after the environment carries out `a`: a reap
/// terminates every one of them, a spawn adds the new one, a kill removes its
/// target, and a graceful termination does so when the process obeys it.
pub open spec fn perform(w: World, m: Machine, a: Action, alive: Set<u32>) -> Set<u32> {
    match a {
        Action::Reap => Set::empty(),
        Action::Spawn { .. } => alive.insert(m.attempts),
        Action::Kill { pid } => alive.remove(pid),
        Action::Terminate { pid } => if w.exits_gracefully {
            alive.remove(pid)
        } else {
            alive
        },
        _ => alive,
    }
}

/// The live backend processes when a run from `m`, with `alive` running, stops.
pub open spec fn survivors(p: RetryPolicy, w: World, m: Machine, alive: Set<u32>, fuel: nat) -> Set<
    u32,
>
    decreases fuel,
{
    if fuel == 0 || settled(m) {
        alive
    } else {
        let alive2 = perform(w, m, pending(p, m), alive);
        survivors(p, w, next(p, m, respond(w, m)), alive2, (fuel - 1) as nat)
    }
}

proof fn lemma_failing_survivors(p: RetryPolicy, w: World, m: Machine, alive: Set<u32>, fuel: nat)
    requires
        p.wf(),
        m.wf(p),
        in_start_sequence(m),
        w.healthy_on == 0,
        fuel >= failing_steps(p, m),
        m.phase is StartFailed ==> alive.is_empty(),
    ensures
        survivors(p, w, m, alive, fuel).is_empty(),
    decreases fuel,
{
    if m.phase is StartFailed {
        return;
    }
    let m2 = next(p, m, respond(w, m));
    assert(failing_steps(p, m2) + 1 == failing_steps(p, m));
    lemma_failing_survivors(p, w, m2, perform(w, m, pending(p, m), alive), (fuel - 1) as nat);
}

pub open spec fn healthy_alive(k: u32, m: Machine, alive: Set<u32>) -> bool {
    match m.phase {
        Phase::Clearing => true,
        Phase::Spawning => alive.is_empty(),
        Phase::Probing { pid, .. } => alive == Set::empty().insert(pid),
        Phase::Discarding { pid } => alive == Set::empty().insert(pid),
        Phase::Running { pid } => alive == Set::empty().insert(pid),
        _ => false,
    }
}

proof fn lemma_healthy_survivors(p: RetryPolicy, w: World, m: Machine, alive: Set<u32>, fuel: nat)
    requires
        p.wf(),
        m.wf(p),
        1 <= w.healthy_on <= p.max_attempts,
        healthy_run_state(p, w.healthy_on, m),
        healthy_alive(w.healthy_on, m, alive),
        fuel >= healthy_steps(p, w.healthy_on, m),
    ensures
        survivors(p, w, m, alive, fuel) == Set::empty().insert(w.healthy_on),
    decreases fuel,
{
    if m.phase is Running {
        return;
    }
    let m2 = next(p, m, respond(w, m));
    let alive2 = perform(w, m, pending(p, m), alive);
    assert(healthy_steps(p, w.healthy_on, m2) + 1 == healthy_steps(p, w.healthy_on, m));
    if m.phase is Discarding {
        assert(alive2 =~= Set::empty());
    }
    if m.phase is Spawning {
        assert(alive2 =~= Set::empty().insert(m.attempts));
    }
    lemma_healthy_survivors(p, w, m2, alive2, (fuel - 1) as nat);
}

/// Whatever backend processes were running before a start, afterwards exactly
/// one runs, the one handed over, when attempt `k` turns healthy, and none
/// runs when no attempt does; this holds where reaping and killing take effect.
pub proof fn lemma_start_leaves_one_or_none(p: RetryPolicy, w: World, alive: Set<u32>, fuel: nat)
    requires
        p.wf(),
        w.healthy_on <= p.max_attempts,
        fuel >= attempts_cost(p, p.max_attempts as nat) + 2,
    ensures
        ({
            let m1 = next(p, Machine::spec_idle(), Event::Begin);
            let t = drive(p, w, m1, fuel);
            let left = survivors(p, w, m1, alive, fuel);
            &&& w.healthy_on == 0 ==> t.end.phase == Phase::StartFailed && left.is_empty()
            &&& w.healthy_on != 0 ==> t.end.phase == (Phase::Running { pid: w.healthy_on })
                && left == Set::empty().insert(w.healthy_on)
        }),
{
    let m1 = next(p, Machine::spec_idle(), Event::Begin);
    if w.healthy_on == 0 {
        lemma_failing_run(p, w, m1, fuel);
        lemma_failing_survivors(p, w, m1, alive, fuel);
    } else {
        lemma_attempts_cost_monotone(p, (w.healthy_on - 1) as nat, (p.max_attempts - 1) as nat);
        assert(attempts_cost(p, p.max_attempts as nat) == p.probe_attempts as nat + 2 + attempts_cost(
            p,
            (p.max_attempts - 1) as nat,
        ));
        lemma_healthy_run(p, w, m1, fuel);
        lemma_healthy_survivors(p, w, m1, alive, fuel);
    }
}

proof fn lemma_attempts_cost_monotone(p: RetryPolicy, a: nat, b: nat)
    requires
        a <= b,
    ensures
        attempts_cost(p, a) <= attempts_cost(p, b),
    decreases b,
{
    if a < b {
        lemma_attempts_cost_monotone(p, a, (b - 1) as nat);
    }
}

proof fn lemma_stop_survivors(p: RetryPolicy, w: World, m: Machine, alive: Set<u32>, fuel: nat)
    requires
        p.wf(),
        m.wf(p),
        in_stop_sequence(m),
        fuel >= stop_steps(p, m),
        m.phase is Idle ==> alive.is_empty(),
    ensures
        survivors(p, w, m, alive, fuel).is_empty(),
    decreases fuel,
{
    if m.phase is Idle {
        return;
    }
    let m2 = next(p, m, respond(w, m));
    lemma_stop_survivors(p, w, m2, perform(w, m, pending(p, m), alive), (fuel - 1) as nat);
}

/// After a stop, whether or not the owned process obeyed graceful
/// termination, no backend process runs; this holds where killing and
/// reaping take effect.
pub proof fn lemma_stop_leaves_none(p: RetryPolicy, w: World, m: Machine, alive: Set<u32>, fuel: nat)
    requires
        p.wf(),
        m.wf(p),
        m.phase is Running,
        fuel >= p.grace_polls as nat + 3,
    ensures
        survivors(p, w, next(p, m, Event::Stop), alive, fuel).is_empty(),
{
    lemma_stop_survivors(p, w, next(p, m, Event::Stop), alive, fuel);
}

} // verus!
