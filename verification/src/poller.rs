//! The health-polling state machine.
//!
//! The launcher repeatedly probes `GET /api/health` on the backend's port
//! until a probe succeeds (any 2xx status) or an overall timeout elapses.
//! Each probe is an HTTP request the caller performs; what comes back — a
//! status code or a transport-level failure, together with how long the probe
//! took — is fed into the machine here, which decides whether to declare the
//! backend ready, sleep and retry, or give up.
//!
//! A recursive spec model, [`poll_model`], fixes the outcome of a whole
//! polling run from a script of probe observations; [`run_poll`] is proved to
//! compute exactly that outcome, and the lemmas at the bottom establish the
//! rules of the protocol: readiness requires a successful probe, a first-probe
//! success ends the run with no sleeping, and a backend that never answers
//! leads to a timeout at or after the configured deadline.

use vstd::prelude::*;

verus! {

/// Milliseconds slept between two probe attempts.
pub const SLEEP_MS: u64 = 500;

/// The per-request timeout: one probe never takes longer than this, so a
/// single hung request cannot consume the whole polling budget.
pub const REQUEST_TIMEOUT_MS: u64 = 2000;

/// The overall polling deadline in the reference deployment.
pub const DEFAULT_TIMEOUT_MS: u64 = 30000;

/// What one health probe observed.
#[derive(Clone, Copy, PartialEq, Eq, Structural, Debug)]
pub enum ProbeResult {
    /// The backend answered with this HTTP status code.
    Status(u16),
    /// The request failed below HTTP: connection refused, reset, or the
    /// per-request timeout fired.
    TransportFailure,
}

/// One probe observation: what came back and how long the probe took.
#[derive(Clone, Copy, PartialEq, Eq, Structural, Debug)]
pub struct ProbeRecord {
    pub result: ProbeResult,
    pub duration_ms: u64,
}

/// A 2xx status means the backend is ready; anything else — and any
/// transport failure — means "not ready yet".
pub open spec fn probe_ok(p: ProbeResult) -> bool {
    match p {
        ProbeResult::Status(code) => 200 <= code && code < 300,
        ProbeResult::TransportFailure => false,
    }
}

/// Whether `code` is an HTTP success (2xx) status.
pub fn is_ready_status(code: u16) -> (r: bool)
    ensures
        r == probe_ok(ProbeResult::Status(code)),
{
    200 <= code && code < 300
}

/// Mutable state of one polling run: time spent so far (probe durations plus
/// sleeps) and the number of probes made.
#[derive(Clone, Copy, PartialEq, Eq, Structural, Debug)]
pub struct PollState {
    pub elapsed_ms: u64,
    pub attempts: u64,
}

/// The outcome the poller reports.
#[derive(Clone, Copy, PartialEq, Eq, Structural, Debug)]
pub enum PollOutcome {
    /// A probe succeeded; `attempts` probes were made in all.
    Ready { attempts: u64 },
    /// The deadline passed without any successful probe.
    TimedOut { attempts: u64 },
}

/// Spec-level account of a finished polling run.
pub struct PollRunSpec {
    /// Did a probe succeed before the deadline?
    pub ready: bool,
    /// Probes made, the successful one included.
    pub attempts: nat,
    /// Time accounted when the run ended: probe durations plus one sleep per
    /// failed attempt.
    pub elapsed_ms: int,
}

/// The `i`-th probe observation of a scripted run. Beyond the end of the
/// script the backend is taken as unreachable: every further probe is a
/// transport failure that consumes the full per-request timeout.
pub open spec fn probe_at(script: Seq<ProbeRecord>, i: int) -> ProbeRecord {
    if 0 <= i < script.len() {
        script[i]
    } else {
        ProbeRecord { result: ProbeResult::TransportFailure, duration_ms: REQUEST_TIMEOUT_MS }
    }
}

/// The polling budget still open at `elapsed` (zero once the deadline passed).
pub open spec fn remaining(timeout_ms: int, elapsed: int) -> int {
    if timeout_ms > elapsed {
        timeout_ms - elapsed
    } else {
        0
    }
}

/// The rest of a polling run, from `elapsed` milliseconds spent and
/// `attempts` probes already made: while the deadline has not passed, make
/// one more probe; a success ends the run ready at once (no sleep), anything
/// else costs one sleep and continues.
pub open spec fn poll_model(
    script: Seq<ProbeRecord>,
    timeout_ms: int,
    elapsed: int,
    attempts: nat,
) -> PollRunSpec
    decreases remaining(timeout_ms, elapsed),
{
    if elapsed >= timeout_ms {
        PollRunSpec { ready: false, attempts, elapsed_ms: elapsed }
    } else {
        let rec = probe_at(script, attempts as int);
        if probe_ok(rec.result) {
            PollRunSpec {
                ready: true,
                attempts: attempts + 1,
                elapsed_ms: elapsed + rec.duration_ms,
            }
        } else {
            poll_model(script, timeout_ms, elapsed + rec.duration_ms + SLEEP_MS, attempts + 1)
        }
    }
}

/// A whole polling run over `script` with deadline `timeout_ms`.
pub open spec fn poll_run(script: Seq<ProbeRecord>, timeout_ms: int) -> PollRunSpec {
    poll_model(script, timeout_ms, 0, 0)
}

/// Fresh polling state: nothing spent, no probe made.
pub fn poll_init() -> (s: PollState)
    ensures
        s.elapsed_ms == 0,
        s.attempts == 0,
{
    PollState { elapsed_ms: 0, attempts: 0 }
}

/// Whether the polling deadline has passed: if so, the caller stops probing
/// and reports a timeout.
pub fn poll_deadline_passed(s: &PollState, timeout_ms: u64) -> (r: bool)
    ensures
        r == (s.elapsed_ms >= timeout_ms),
{
    s.elapsed_ms >= timeout_ms
}

/// Records one probe observation. Returns true when the probe succeeded — the
/// backend is ready and the caller must not sleep again; on false the caller
/// sleeps [`SLEEP_MS`] (already accounted here) and retries.
pub fn poll_record(s: &mut PollState, probe: ProbeRecord) -> (ready: bool)
    requires
        old(s).elapsed_ms + probe.duration_ms + SLEEP_MS <= u64::MAX,
        old(s).attempts < u64::MAX,
    ensures
        ready == probe_ok(probe.result),
        final(s).attempts == old(s).attempts + 1,
        ready ==> final(s).elapsed_ms == old(s).elapsed_ms + probe.duration_ms,
        !ready ==> final(s).elapsed_ms == old(s).elapsed_ms + probe.duration_ms + SLEEP_MS,
{
    s.attempts = s.attempts + 1;
    let ready = match probe.result {
        ProbeResult::Status(code) => is_ready_status(code),
        ProbeResult::TransportFailure => false,
    };
    if ready {
        s.elapsed_ms = s.elapsed_ms + probe.duration_ms;
    } else {
        s.elapsed_ms = s.elapsed_ms + probe.duration_ms + SLEEP_MS;
    }
    ready
}

/// Runs a whole scripted polling run and returns exactly the outcome that
/// [`poll_run`] ascribes to it. Probes past the end of the script behave as
/// [`probe_at`] says: transport failures taking the full per-request timeout.
pub fn run_poll(script: &Vec<ProbeRecord>, timeout_ms: u64) -> (r: PollOutcome)
    requires
        timeout_ms + REQUEST_TIMEOUT_MS + SLEEP_MS <= u64::MAX,
        forall|i: int| 0 <= i < script@.len() ==> script@[i].duration_ms <= REQUEST_TIMEOUT_MS,
    ensures
        ({
            let m = poll_run(script@, timeout_ms as int);
            if m.ready {
                r == (PollOutcome::Ready { attempts: m.attempts as u64 })
            } else {
                r == (PollOutcome::TimedOut { attempts: m.attempts as u64 })
            }
        }),
{
    let mut s = poll_init();
    loop
        invariant
            timeout_ms + REQUEST_TIMEOUT_MS + SLEEP_MS <= u64::MAX,
            forall|i: int| 0 <= i < script@.len() ==> script@[i].duration_ms <= REQUEST_TIMEOUT_MS,
            SLEEP_MS * s.attempts <= s.elapsed_ms,
            s.elapsed_ms <= timeout_ms + REQUEST_TIMEOUT_MS + SLEEP_MS,
            poll_model(script@, timeout_ms as int, s.elapsed_ms as int, s.attempts as nat)
                == poll_run(script@, timeout_ms as int),
        decreases remaining(timeout_ms as int, s.elapsed_ms as int),
    {
        if poll_deadline_passed(&s, timeout_ms) {
            return PollOutcome::TimedOut { attempts: s.attempts };
        }
        let probe: ProbeRecord = if s.attempts < script.len() as u64 {
            script[s.attempts as usize]
        } else {
            ProbeRecord { result: ProbeResult::TransportFailure, duration_ms: REQUEST_TIMEOUT_MS }
        };
        proof {
            assert(probe == probe_at(script@, s.attempts as int));
            assert(s.attempts < u64::MAX) by (nonlinear_arith)
                requires
                    SLEEP_MS * s.attempts <= s.elapsed_ms,
                    s.elapsed_ms < timeout_ms,
                    timeout_ms + REQUEST_TIMEOUT_MS + SLEEP_MS <= u64::MAX,
                    SLEEP_MS == 500,
            ;
        }
        let ready = poll_record(&mut s, probe);
        if ready {
            return PollOutcome::Ready { attempts: s.attempts };
        }
        proof {
            assert(SLEEP_MS * s.attempts <= s.elapsed_ms) by (nonlinear_arith)
                requires
                    SLEEP_MS * (s.attempts - 1) <= s.elapsed_ms - probe.duration_ms - SLEEP_MS,
                    probe.duration_ms >= 0,
                    SLEEP_MS == 500,
            ;
        }
    }
}

/// Readiness is only ever declared on the strength of a successful probe: if
/// the run from (`elapsed`, `attempts`) ends ready, its final attempt — probe
/// number `attempts - 1`, counting from zero — observed a 2xx status.
proof fn lemma_ready_needs_success(
    script: Seq<ProbeRecord>,
    timeout_ms: int,
    elapsed: int,
    attempts: nat,
)
    ensures
        ({
            let m = poll_model(script, timeout_ms, elapsed, attempts);
            m.ready ==> {
                &&& m.attempts >= attempts + 1
                &&& probe_ok(probe_at(script, m.attempts - 1).result)
            }
        }),
    decreases remaining(timeout_ms, elapsed),
{
    if elapsed >= timeout_ms {
    } else {
        let rec = probe_at(script, attempts as int);
        if !probe_ok(rec.result) {
            lemma_ready_needs_success(
                script,
                timeout_ms,
                elapsed + rec.duration_ms + SLEEP_MS,
                attempts + 1,
            );
        }
    }
}

/// Health polling never declares readiness without at least one successful
/// 2xx probe having occurred.
pub proof fn lemma_no_ready_without_success(script: Seq<ProbeRecord>, timeout_ms: int)
    ensures
        ({
            let m = poll_run(script, timeout_ms);
            m.ready ==> exists|i: int|
                0 <= i < m.attempts && probe_ok(#[trigger] probe_at(script, i).result)
        }),
{
    lemma_ready_needs_success(script, timeout_ms, 0, 0);
    let m = poll_run(script, timeout_ms);
    if m.ready {
        assert(probe_ok(probe_at(script, m.attempts - 1).result));
    }
}

/// A backend that answers 2xx on the very first probe is declared ready after
/// exactly one attempt, and no inter-attempt sleep is ever accounted: the run
/// ends as soon as that probe returns.
pub proof fn lemma_first_probe_success_is_immediate(script: Seq<ProbeRecord>, timeout_ms: int)
    requires
        timeout_ms > 0,
        probe_ok(probe_at(script, 0).result),
    ensures
        poll_run(script, timeout_ms).ready,
        poll_run(script, timeout_ms).attempts == 1,
        poll_run(script, timeout_ms).elapsed_ms == probe_at(script, 0).duration_ms,
{
}

/// If no probe ever succeeds, the run from (`elapsed`, `attempts`) ends not
/// ready, with the accounted time at or past the deadline.
proof fn lemma_no_success_model(
    script: Seq<ProbeRecord>,
    timeout_ms: int,
    elapsed: int,
    attempts: nat,
)
    requires
        forall|i: int| !probe_ok(#[trigger] probe_at(script, i).result),
    ensures
        !poll_model(script, timeout_ms, elapsed, attempts).ready,
        poll_model(script, timeout_ms, elapsed, attempts).elapsed_ms >= timeout_ms,
    decreases remaining(timeout_ms, elapsed),
{
    if elapsed >= timeout_ms {
    } else {
        let rec = probe_at(script, attempts as int);
        lemma_no_success_model(
            script,
            timeout_ms,
            elapsed + rec.duration_ms + SLEEP_MS,
            attempts + 1,
        );
    }
}

/// The time a run spends on `k` failed attempts starting at probe `start`:
/// each costs its probe duration plus one inter-attempt sleep.
pub open spec fn failures_cost(script: Seq<ProbeRecord>, start: nat, k: nat) -> int
    decreases k,
{
    if k == 0 {
        0
    } else {
        probe_at(script, start as int).duration_ms + SLEEP_MS + failures_cost(
            script,
            start + 1,
            (k - 1) as nat,
        )
    }
}

proof fn lemma_failures_cost_nonneg(script: Seq<ProbeRecord>, start: nat, k: nat)
    ensures
        failures_cost(script, start, k) >= 0,
    decreases k,
{
    if k > 0 {
        lemma_failures_cost_nonneg(script, start + 1, (k - 1) as nat);
    }
}

proof fn lemma_reaches_success(
    script: Seq<ProbeRecord>,
    timeout_ms: int,
    elapsed: int,
    attempts: nat,
    k: nat,
)
    requires
        forall|j: int|
            attempts <= j < attempts + k ==> !probe_ok(#[trigger] probe_at(script, j).result),
        probe_ok(probe_at(script, (attempts + k) as int).result),
        elapsed + failures_cost(script, attempts, k) < timeout_ms,
    ensures
        poll_model(script, timeout_ms, elapsed, attempts).ready,
        poll_model(script, timeout_ms, elapsed, attempts).attempts == attempts + k + 1,
        poll_model(script, timeout_ms, elapsed, attempts).elapsed_ms == elapsed + failures_cost(
            script,
            attempts,
            k,
        ) + probe_at(script, (attempts + k) as int).duration_ms,
    decreases k,
{
    lemma_failures_cost_nonneg(script, attempts, k);
    if k == 0 {
    } else {
        let rec = probe_at(script, attempts as int);
        lemma_reaches_success(
            script,
            timeout_ms,
            elapsed + rec.duration_ms + SLEEP_MS,
            attempts + 1,
            (k - 1) as nat,
        );
    }
}

/// Success is owed: if the first `k` probes fail, probe `k` (counting from
/// zero) observes a 2xx status, and the time spent on the failed attempts
/// still lies within the deadline, then the run is declared ready on attempt
/// `k + 1` — a late-but-in-time recovery is always honoured, never mistaken
/// for a timeout.
pub proof fn lemma_eventual_success_is_ready(script: Seq<ProbeRecord>, timeout_ms: int, k: nat)
    requires
        forall|j: int| 0 <= j < k ==> !probe_ok(#[trigger] probe_at(script, j).result),
        probe_ok(probe_at(script, k as int).result),
        failures_cost(script, 0, k) < timeout_ms,
    ensures
        poll_run(script, timeout_ms).ready,
        poll_run(script, timeout_ms).attempts == k + 1,
{
    lemma_reaches_success(script, timeout_ms, 0, 0, k);
}

/// A backend that never responds successfully leads to a timeout, never to
/// readiness, and only once the accounted time has reached the deadline.
pub proof fn lemma_never_healthy_times_out(script: Seq<ProbeRecord>, timeout_ms: int)
    requires
        forall|i: int| !probe_ok(#[trigger] probe_at(script, i).result),
    ensures
        !poll_run(script, timeout_ms).ready,
        poll_run(script, timeout_ms).elapsed_ms >= timeout_ms,
{
    lemma_no_success_model(script, timeout_ms, 0, 0);
}

} // verus!
