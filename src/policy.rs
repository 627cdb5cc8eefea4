use vstd::prelude::*;

verus! {

/// Immutable retry and timing configuration of the supervisor.
#[derive(Clone, Copy, Debug, PartialEq, Eq, Structural)]
pub struct RetryPolicy {
    /// Number of spawn-and-probe cycles before the start sequence gives up.
    pub max_attempts: u32,
    /// Health probes made against each spawned process.
    pub probe_attempts: u32,
    /// Wait before each health probe, in milliseconds.
    pub probe_interval_ms: u64,
    /// Wait between a failed attempt and the next spawn, in milliseconds.
    pub backoff_ms: u64,
    /// Timeout of a single health request, in milliseconds.
    pub request_timeout_ms: u64,
    /// Exit polls after graceful termination before forcing.
    pub grace_polls: u32,
    /// Wait before each exit poll, in milliseconds.
    pub grace_poll_ms: u64,
}

impl RetryPolicy {
    /// Attempts are finite and each stage is tried at least once.
    pub open spec fn wf(&self) -> bool {
        &&& self.max_attempts >= 1
        &&& self.probe_attempts >= 1
        &&& self.grace_polls >= 1
    }

    /// Three spawn attempts, ten probes a second apart, two seconds of backoff,
    /// a five second request timeout, and five seconds of grace on stop.
    pub fn standard() -> (r: RetryPolicy)
        ensures
            r.wf(),
            r.max_attempts == 3,
            r.probe_attempts == 10,
            r.probe_interval_ms == 1000,
            r.backoff_ms == 2000,
            r.request_timeout_ms == 5000,
            r.grace_polls == 10,
            r.grace_poll_ms == 500,
    {
        RetryPolicy {
            max_attempts: 3,
            probe_attempts: 10,
            probe_interval_ms: 1000,
            backoff_ms: 2000,
            request_timeout_ms: 5000,
            grace_polls: 10,
            grace_poll_ms: 500,
        }
    }
}

/// The backend's executable file name on the current platform.
pub fn backend_exe_name(windows: bool) -> (r: &'static str)
    ensures
        windows ==> r@ == "m3u-filter-service.exe"@,
        !windows ==> r@ == "m3u-filter-service"@,
{
    if windows {
        "m3u-filter-service.exe"
    } else {
        "m3u-filter-service"
    }
}

/// Whether closing the shell's window tears the backend down: only outside
/// service mode, where the backend is meant to keep serving headless.
pub fn stop_on_window_close(service_mode: bool) -> (r: bool)
    ensures
        r == !service_mode,
{
    !service_mode
}

/// Whether a command-line argument turns service mode on.
pub fn is_service_flag(arg: &str) -> (r: bool)
    ensures
        r == (arg@ == "--service"@),
{
    let flag = "--service";
    proof {
        reveal_strlit("--service");
    }
    let n = arg.unicode_len();
    if n != 9 {
        return false;
    }
    let mut i: usize = 0;
    while i < 9
        invariant
            n == 9,
            arg@.len() == 9,
            flag@ == "--service"@,
            flag@.len() == 9,
            0 <= i <= 9,
            forall|j: int| 0 <= j < i ==> arg@[j] == flag@[j],
        decreases 9 - i,
    {
        if arg.get_char(i) != flag.get_char(i) {
            return false;
        }
        i = i + 1;
    }
    assert(arg@ =~= flag@);
    true
}

} // verus!
