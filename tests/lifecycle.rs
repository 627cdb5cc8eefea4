use backend_supervisor::policy::{backend_exe_name, is_service_flag, stop_on_window_close, RetryPolicy};
use backend_supervisor::reaper::{find_by_name, name_matches, ProcessEntry};
use backend_supervisor::supervisor::{probe_outcome, Action, Event, Phase, Supervisor};

/// What a scripted run did.
struct Run {
    actions: Vec<Action>,
    spawned: Vec<u32>,
    killed: Vec<u32>,
    reaps: usize,
    waited_ms: u64,
    last: Action,
}

/// Runs a start sequence: spawns get pids 1, 2, ...; the probe answers with
/// `healthy(attempt, probe)`; spawns fail when `spawn_ok` is false.
fn run_start(sup: &mut Supervisor, healthy: &dyn Fn(u32, u32) -> bool, spawn_ok: bool) -> Run {
    let mut run = Run { actions: vec![], spawned: vec![], killed: vec![], reaps: 0, waited_ms: 0, last: Action::Idle };
    let mut action = sup.step(Event::Begin);
    let mut attempt = 0u32;
    let mut probe = 0u32;
    loop {
        run.actions.push(action);
        let event = match action {
            Action::Reap => {
                run.reaps += 1;
                Event::Done
            }
            Action::Spawn { delay_ms } => {
                run.waited_ms += delay_ms;
                attempt += 1;
                probe = 0;
                if spawn_ok {
                    run.spawned.push(attempt);
                    Event::Spawned(attempt)
                } else {
                    Event::SpawnFailed
                }
            }
            Action::Probe { delay_ms } => {
                run.waited_ms += delay_ms;
                probe += 1;
                Event::Probed(healthy(attempt, probe))
            }
            Action::Kill { pid } => {
                run.killed.push(pid);
                Event::Done
            }
            other => {
                run.last = other;
                return run;
            }
        };
        action = sup.step(event);
    }
}

/// Runs a stop sequence from a running supervisor; the process exits after
/// `exits_after` polls, or never.
fn run_stop(sup: &mut Supervisor, exits_after: Option<u32>) -> Run {
    let mut run = Run { actions: vec![], spawned: vec![], killed: vec![], reaps: 0, waited_ms: 0, last: Action::Idle };
    let mut action = sup.step(Event::Stop);
    let mut polls = 0u32;
    loop {
        run.actions.push(action);
        let event = match action {
            Action::Terminate { .. } => Event::Done,
            Action::PollExit { delay_ms, .. } => {
                run.waited_ms += delay_ms;
                polls += 1;
                Event::Exited(exits_after.map_or(false, |n| polls >= n))
            }
            Action::Kill { pid } => {
                run.killed.push(pid);
                Event::Done
            }
            Action::Reap => {
                run.reaps += 1;
                Event::Done
            }
            other => {
                run.last = other;
                return run;
            }
        };
        action = sup.step(event);
    }
}

fn supervisor() -> Supervisor {
    Supervisor::new(RetryPolicy::standard(), "m3u-filter-service".to_string())
}

#[test]
fn standard_policy_values() {
    let p = RetryPolicy::standard();
    assert_eq!(p.max_attempts, 3);
    assert_eq!(p.probe_attempts, 10);
    assert_eq!(p.probe_interval_ms, 1000);
    assert_eq!(p.backoff_ms, 2000);
    assert_eq!(p.request_timeout_ms, 5000);
    assert_eq!(p.grace_polls, 10);
    assert_eq!(p.grace_poll_ms, 500);
}

#[test]
fn healthy_immediately_returns_after_one_probe() {
    let mut sup = supervisor();
    let run = run_start(&mut sup, &|_, _| true, true);
    assert_eq!(run.last, Action::Ready { pid: 1 });
    assert_eq!(run.spawned, vec![1]);
    assert!(run.killed.is_empty());
    assert_eq!(run.waited_ms, 1000);
    assert_eq!(run.reaps, 1);
    assert_eq!(sup.phase(), Phase::Running { pid: 1 });
    assert_eq!(sup.exe_name(), "m3u-filter-service");
}

#[test]
fn never_healthy_fails_after_three_attempts() {
    let mut sup = supervisor();
    let run = run_start(&mut sup, &|_, _| false, true);
    assert_eq!(run.last, Action::Failed);
    assert_eq!(run.spawned, vec![1, 2, 3]);
    assert_eq!(run.killed, vec![1, 2, 3]);
    assert_eq!(run.reaps, 2);
    assert_eq!(run.waited_ms, 3 * 10 * 1000 + 2 * 2000);
    assert!(run.waited_ms >= 34000);
    let probes = run.actions.iter().filter(|a| matches!(a, Action::Probe { .. })).count();
    assert_eq!(probes, 30);
    assert_eq!(sup.phase(), Phase::StartFailed);
    assert_eq!(sup.attempts(), 3);
}

#[test]
fn failed_start_is_absorbing() {
    let mut sup = supervisor();
    run_start(&mut sup, &|_, _| false, true);
    assert_eq!(sup.step(Event::Begin), Action::Failed);
    assert_eq!(sup.step(Event::Stop), Action::Failed);
    assert_eq!(sup.phase(), Phase::StartFailed);
}

#[test]
fn healthy_on_second_attempt_returns_second_process() {
    let mut sup = supervisor();
    let run = run_start(&mut sup, &|attempt, probe| attempt == 2 && probe == 4, true);
    assert_eq!(run.last, Action::Ready { pid: 2 });
    assert_eq!(run.spawned, vec![1, 2]);
    assert_eq!(run.killed, vec![1]);
    assert_eq!(run.waited_ms, 10 * 1000 + 2000 + 4 * 1000);
    assert_eq!(sup.attempts(), 2);
}

#[test]
fn spawn_failures_are_retried_then_fail() {
    let mut sup = supervisor();
    let run = run_start(&mut sup, &|_, _| true, false);
    assert_eq!(run.last, Action::Failed);
    let spawns = run.actions.iter().filter(|a| matches!(a, Action::Spawn { .. })).count();
    assert_eq!(spawns, 3);
    assert!(run.killed.is_empty());
    assert_eq!(run.reaps, 2);
    assert_eq!(run.waited_ms, 2 * 2000);
}

#[test]
fn orphans_are_reaped_before_the_first_spawn() {
    let mut sup = supervisor();
    assert_eq!(sup.step(Event::Begin), Action::Reap);
    assert_eq!(sup.phase(), Phase::Clearing);
    assert_eq!(sup.step(Event::Done), Action::Spawn { delay_ms: 0 });
}

#[test]
fn unexpected_event_repeats_the_pending_action() {
    let mut sup = supervisor();
    sup.step(Event::Begin);
    assert_eq!(sup.step(Event::Probed(true)), Action::Reap);
    assert_eq!(sup.phase(), Phase::Clearing);
    assert_eq!(sup.action(), Action::Reap);
}

#[test]
fn stop_without_handle_is_a_no_op() {
    let mut sup = supervisor();
    assert_eq!(sup.step(Event::Stop), Action::Idle);
    assert_eq!(sup.phase(), Phase::Idle);
    assert_eq!(sup.attempts(), 0);
}

#[test]
fn graceful_stop_does_not_kill() {
    let mut sup = supervisor();
    run_start(&mut sup, &|_, _| true, true);
    let run = run_stop(&mut sup, Some(3));
    assert_eq!(run.actions[0], Action::Terminate { pid: 1 });
    assert!(run.killed.is_empty());
    assert_eq!(run.reaps, 1);
    assert_eq!(run.waited_ms, 1500);
    assert_eq!(run.last, Action::Idle);
    assert_eq!(sup.phase(), Phase::Idle);
}

#[test]
fn ignored_graceful_stop_escalates_to_kill() {
    let mut sup = supervisor();
    run_start(&mut sup, &|_, _| true, true);
    let run = run_stop(&mut sup, None);
    assert_eq!(run.actions[0], Action::Terminate { pid: 1 });
    let polls = run.actions.iter().filter(|a| matches!(a, Action::PollExit { .. })).count();
    assert_eq!(polls, 10);
    assert_eq!(run.waited_ms, 5000);
    assert_eq!(run.killed, vec![1]);
    assert_eq!(run.reaps, 1);
    assert_eq!(run.actions[run.actions.len() - 2], Action::Reap);
    assert_eq!(run.last, Action::Idle);
    assert_eq!(sup.phase(), Phase::Idle);
}

#[test]
fn restart_after_stop() {
    let mut sup = supervisor();
    run_start(&mut sup, &|_, _| true, true);
    run_stop(&mut sup, Some(1));
    let run = run_start(&mut sup, &|_, _| true, true);
    assert_eq!(run.last, Action::Ready { pid: 1 });
}

#[test]
fn service_mode_keeps_backend_on_window_close() {
    assert!(!stop_on_window_close(true));
    assert!(stop_on_window_close(false));
    let mut sup = supervisor();
    run_start(&mut sup, &|_, _| true, true);
    if stop_on_window_close(true) {
        sup.step(Event::Stop);
    }
    assert_eq!(sup.phase(), Phase::Running { pid: 1 });
}

#[test]
fn service_flag_is_recognised() {
    assert!(is_service_flag("--service"));
    assert!(!is_service_flag("--servic"));
    assert!(!is_service_flag("--services"));
    assert!(!is_service_flag("-service-"));
    assert!(!is_service_flag(""));
}

#[test]
fn probe_outcome_accepts_only_success_statuses() {
    assert_eq!(probe_outcome(Some(200)), Event::Probed(true));
    assert_eq!(probe_outcome(Some(204)), Event::Probed(true));
    assert_eq!(probe_outcome(Some(299)), Event::Probed(true));
    assert_eq!(probe_outcome(Some(199)), Event::Probed(false));
    assert_eq!(probe_outcome(Some(300)), Event::Probed(false));
    assert_eq!(probe_outcome(Some(404)), Event::Probed(false));
    assert_eq!(probe_outcome(Some(503)), Event::Probed(false));
    assert_eq!(probe_outcome(None), Event::Probed(false));
}

#[test]
fn exe_name_per_platform() {
    assert_eq!(backend_exe_name(true), "m3u-filter-service.exe");
    assert_eq!(backend_exe_name(false), "m3u-filter-service");
}

#[test]
fn name_matching_is_by_substring() {
    assert!(name_matches("m3u-filter-service", "m3u-filter-service"));
    assert!(name_matches("m3u-filter-service.exe", "m3u-filter-service"));
    assert!(name_matches("old-m3u-filter-service", "filter"));
    assert!(!name_matches("m3u-filter", "m3u-filter-service"));
    assert!(!name_matches("bash", "m3u-filter-service"));
    assert!(name_matches("anything", ""));
    assert!(name_matches("", ""));
    assert!(!name_matches("", "a"));
    assert!(name_matches("aab", "ab"));
    assert!(name_matches("dienst-ü", "ü"));
}

#[test]
fn find_by_name_keeps_table_order() {
    let table = vec![
        ProcessEntry { pid: 10, name: "m3u-filter-service".to_string() },
        ProcessEntry { pid: 11, name: "bash".to_string() },
        ProcessEntry { pid: 12, name: "m3u-filter-service.exe".to_string() },
        ProcessEntry { pid: 13, name: "m3u-filter".to_string() },
    ];
    assert_eq!(find_by_name(&table, "m3u-filter-service"), vec![10, 12]);
    assert_eq!(find_by_name(&table, "nothing"), Vec::<u32>::new());
    assert_eq!(find_by_name(&vec![], "m3u-filter-service"), Vec::<u32>::new());
    let sup = supervisor();
    assert_eq!(sup.orphans(&table), vec![10, 12]);
}

/// Runs a start sequence against a simulated process table, starting from
/// `table`; spawned backends get pids 100, 101, ...
fn run_start_with_table(sup: &mut Supervisor, healthy_on: u32, mut table: Vec<ProcessEntry>) -> (Action, Vec<ProcessEntry>) {
    let mut action = sup.step(Event::Begin);
    let mut attempt = 0u32;
    loop {
        let event = match action {
            Action::Reap => {
                let doomed = sup.orphans(&table);
                table.retain(|e| !doomed.contains(&e.pid));
                Event::Done
            }
            Action::Spawn { .. } => {
                attempt += 1;
                let pid = 99 + attempt;
                table.push(ProcessEntry { pid, name: "m3u-filter-service".to_string() });
                Event::Spawned(pid)
            }
            Action::Probe { .. } => Event::Probed(attempt == healthy_on),
            Action::Kill { pid } => {
                table.retain(|e| e.pid != pid);
                Event::Done
            }
            other => return (other, table),
        };
        action = sup.step(event);
    }
}

fn table_with_orphan() -> Vec<ProcessEntry> {
    vec![
        ProcessEntry { pid: 7, name: "m3u-filter-service".to_string() },
        ProcessEntry { pid: 8, name: "bash".to_string() },
    ]
}

#[test]
fn orphan_cleared_on_successful_start() {
    let mut sup = supervisor();
    let (last, table) = run_start_with_table(&mut sup, 2, table_with_orphan());
    assert_eq!(last, Action::Ready { pid: 101 });
    assert_eq!(sup.orphans(&table), vec![101]);
    assert!(table.iter().any(|e| e.pid == 8));
}

#[test]
fn orphan_cleared_on_failed_start() {
    let mut sup = supervisor();
    let (last, table) = run_start_with_table(&mut sup, 0, table_with_orphan());
    assert_eq!(last, Action::Failed);
    assert!(sup.orphans(&table).is_empty());
    assert_eq!(table.len(), 1);
}
