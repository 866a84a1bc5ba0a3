use studio_launcher::poller::is_ready_status;
use studio_launcher::poller::poll_deadline_passed;
use studio_launcher::poller::poll_init;
use studio_launcher::poller::poll_record;
use studio_launcher::poller::run_poll;
use studio_launcher::poller::DEFAULT_TIMEOUT_MS;
use studio_launcher::poller::PollOutcome;
use studio_launcher::poller::ProbeRecord;
use studio_launcher::poller::ProbeResult;

fn status(code: u16, duration_ms: u64) -> ProbeRecord {
    ProbeRecord { result: ProbeResult::Status(code), duration_ms }
}

fn refused(duration_ms: u64) -> ProbeRecord {
    ProbeRecord { result: ProbeResult::TransportFailure, duration_ms }
}

#[test]
fn ready_statuses_are_2xx() {
    assert!(is_ready_status(200));
    assert!(is_ready_status(204));
    assert!(is_ready_status(299));
    assert!(!is_ready_status(199));
    assert!(!is_ready_status(300));
    assert!(!is_ready_status(404));
    assert!(!is_ready_status(503));
}

#[test]
fn first_probe_success_is_one_attempt() {
    let script = vec![status(200, 40)];
    assert_eq!(run_poll(&script, DEFAULT_TIMEOUT_MS), PollOutcome::Ready { attempts: 1 });
}

#[test]
fn first_probe_success_accounts_no_sleep() {
    let mut state = poll_init();
    let ready = poll_record(&mut state, status(200, 40));
    assert!(ready);
    assert_eq!(state.attempts, 1);
    assert_eq!(state.elapsed_ms, 40);
}

#[test]
fn unhealthy_backend_times_out() {
    // An empty script: every probe is an unreachable backend, each costing
    // the full 2000 ms request timeout plus the 500 ms sleep.
    let script: Vec<ProbeRecord> = vec![];
    assert_eq!(run_poll(&script, DEFAULT_TIMEOUT_MS), PollOutcome::TimedOut { attempts: 12 });
}

#[test]
fn persistent_errors_time_out_not_ready() {
    let script = vec![status(500, 10), refused(2000), status(404, 5)];
    let outcome = run_poll(&script, DEFAULT_TIMEOUT_MS);
    assert!(matches!(outcome, PollOutcome::TimedOut { .. }));
}

#[test]
fn short_deadline_times_out_at_once() {
    let mut state = poll_init();
    let ready = poll_record(&mut state, refused(2000));
    assert!(!ready);
    // 2000 ms probe + 500 ms sleep spent: a 2000 ms deadline has now passed.
    assert!(poll_deadline_passed(&state, 2000));
    assert!(!poll_deadline_passed(&state, DEFAULT_TIMEOUT_MS));
}

#[test]
fn unavailable_then_healthy_reports_ready() {
    // The backend answers 503 for the first two seconds, then 200. With
    // instant responses and the 500 ms cadence, probes land at 0, 500, 1000,
    // 1500 and 2000 ms: four 503s, then the 200 on the fifth attempt.
    let script = vec![
        status(503, 0),
        status(503, 0),
        status(503, 0),
        status(503, 0),
        status(200, 10),
    ];
    assert_eq!(run_poll(&script, DEFAULT_TIMEOUT_MS), PollOutcome::Ready { attempts: 5 });
}
