use traffic_generator::dispatch::{Action, Dispatcher, Phase, BATCH_ERROR_CONTEXT, WARM_UP_ID};

/// Drives a dispatcher where request `fail_at` (if any) fails, resolving the
/// oldest request in flight each time. Returns the dispatcher, the highest
/// number of requests in flight seen, the ids started and the warm-ups sent.
fn drive(
    concurrency: usize,
    iterations: usize,
    warm_up_ok: bool,
    fail_at: Option<usize>,
) -> (Dispatcher, usize, Vec<usize>, usize) {
    let mut d = Dispatcher::new(concurrency, iterations);
    let mut max_in_flight = 0;
    let mut started = Vec::new();
    let mut pending = std::collections::VecDeque::new();
    let mut warm_ups = 0;
    loop {
        match d.next_action() {
            Action::SendWarmUp { id } => {
                assert_eq!(id, WARM_UP_ID);
                assert!(started.is_empty());
                warm_ups += 1;
                d.record_warm_up(warm_up_ok);
            }
            Action::Admit { id } => {
                started.push(id);
                pending.push_back(id);
                d.record_admit();
                max_in_flight = max_in_flight.max(d.in_flight());
            }
            Action::AwaitOne => {
                let id = pending.pop_front().unwrap();
                d.record_resolved(Some(id) != fail_at);
            }
            Action::Finish | Action::FailWarmUp | Action::FailBatch => break,
        }
    }
    (d, max_in_flight, started, warm_ups)
}

#[test]
fn ten_requests_three_at_a_time() {
    let (d, max_in_flight, started, warm_ups) = drive(3, 10, true, None);
    assert_eq!(warm_ups, 1);
    assert_eq!(max_in_flight, 3);
    assert_eq!(started, (0..10).collect::<Vec<usize>>());
    assert_eq!(d.progress(), 10);
    assert_eq!(d.phase(), Phase::Done);
    assert_eq!(d.next_action(), Action::Finish);
}

#[test]
fn one_failure_stops_the_batch_without_waiting() {
    let (d, _, started, warm_ups) = drive(3, 10, true, Some(4));
    assert_eq!(warm_ups, 1);
    assert_eq!(d.phase(), Phase::BatchFailed);
    assert_eq!(d.next_action(), Action::FailBatch);
    assert!(d.in_flight() > 0);
    assert!(started.len() < 10);
    assert!(d.progress() < 10);
    assert_eq!(d.progress(), 5);
    assert_eq!(BATCH_ERROR_CONTEXT, "error sending request");
}

#[test]
fn failed_warm_up_issues_no_batch_request() {
    let (d, _, started, warm_ups) = drive(3, 10, false, None);
    assert_eq!(warm_ups, 1);
    assert!(started.is_empty());
    assert_eq!(d.phase(), Phase::WarmUpFailed);
    assert_eq!(d.next_action(), Action::FailWarmUp);
    assert_eq!(d.progress(), 0);
}

#[test]
fn warm_up_comes_before_everything() {
    let d = Dispatcher::new(4, 7);
    assert_eq!(d.next_action(), Action::SendWarmUp { id: usize::MAX });
    assert_eq!(d.phase(), Phase::WarmUp);
}

#[test]
fn zero_iterations_only_warm_up() {
    let (d, max_in_flight, started, warm_ups) = drive(2, 0, true, None);
    assert_eq!(warm_ups, 1);
    assert_eq!(max_in_flight, 0);
    assert!(started.is_empty());
    assert_eq!(d.phase(), Phase::Done);
    assert_eq!(d.progress(), 0);
}

#[test]
fn ceiling_of_one_serializes_requests() {
    let (d, max_in_flight, _, _) = drive(1, 5, true, None);
    assert_eq!(max_in_flight, 1);
    assert_eq!(d.progress(), 5);
}

#[test]
fn ceiling_above_iterations_admits_all() {
    let (d, max_in_flight, _, _) = drive(50, 6, true, None);
    assert_eq!(max_in_flight, 6);
    assert_eq!(d.progress(), 6);
}

#[test]
fn last_request_failing_counts_every_resolution() {
    let (d, _, _, _) = drive(3, 10, true, Some(9));
    assert_eq!(d.phase(), Phase::BatchFailed);
    assert_eq!(d.progress(), 10);
}

#[test]
fn progress_counts_each_resolution() {
    let mut d = Dispatcher::new(2, 3);
    d.record_warm_up(true);
    assert_eq!(d.next_action(), Action::Admit { id: 0 });
    d.record_admit();
    assert_eq!(d.next_action(), Action::Admit { id: 1 });
    d.record_admit();
    assert_eq!(d.next_action(), Action::AwaitOne);
    d.record_resolved(true);
    assert_eq!(d.progress(), 1);
    assert_eq!(d.next_action(), Action::Admit { id: 2 });
    d.record_admit();
    d.record_resolved(true);
    assert_eq!(d.progress(), 2);
    d.record_resolved(true);
    assert_eq!(d.progress(), 3);
    assert_eq!(d.next_action(), Action::Finish);
}
