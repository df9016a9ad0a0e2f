use loadgen::cli::build_request;
use loadgen::load::{split_iterations, Coordinator, WORKER_COUNT};

#[test]
fn worker_count_is_four() {
    assert_eq!(WORKER_COUNT, 4);
}

#[test]
fn split_even_total() {
    // times = 8: each of 4 workers gets 2 iterations, all 8 execute.
    assert_eq!(split_iterations(8, 4), (2, 8));
}

#[test]
fn split_drops_the_remainder() {
    // times = 7: shares truncate to 1, only 4 iterations execute.
    assert_eq!(split_iterations(7, 4), (1, 4));
}

#[test]
fn split_small_totals() {
    assert_eq!(split_iterations(0, 4), (0, 0));
    assert_eq!(split_iterations(3, 4), (0, 0));
    assert_eq!(split_iterations(4, 4), (1, 4));
}

#[test]
fn split_large_total() {
    let (share, executed) = split_iterations(u64::MAX, 4);
    assert_eq!(share, u64::MAX / 4);
    assert_eq!(executed, (u64::MAX / 4) * 4);
}

#[test]
fn coordinator_aggregates_a_run() {
    let mut c = Coordinator::new(8, WORKER_COUNT);
    assert_eq!(c.awaiting(), 4);
    assert!(!c.is_complete());
    c.record_result(10);
    c.record_result(20);
    c.record_result(30);
    c.record_result(40);
    assert!(c.is_complete());
    let rep = c.report();
    assert_eq!(rep.total_iterations_executed, 8);
    assert_eq!(rep.total_cost_nanos, 100);
    assert_eq!(rep.average_cost_nanos, 12);
}

#[test]
fn no_report_before_every_worker_reports() {
    let mut c = Coordinator::new(8, WORKER_COUNT);
    assert!(c.try_report().is_none());
    c.record_result(1);
    c.record_result(2);
    c.record_result(3);
    assert!(c.try_report().is_none());
    c.record_result(4);
    let rep = c.try_report().unwrap();
    assert_eq!(rep.total_cost_nanos, 10);
}

#[test]
fn zero_executed_guards_the_average() {
    // times = 3 truncates to a share of 0; the average must come back 0
    // instead of faulting on the division.
    let mut c = Coordinator::new(3, WORKER_COUNT);
    for _ in 0..4 {
        c.record_result(0);
    }
    let rep = c.report();
    assert_eq!(rep.total_iterations_executed, 0);
    assert_eq!(rep.total_cost_nanos, 0);
    assert_eq!(rep.average_cost_nanos, 0);
}

#[test]
fn average_truncates() {
    let mut c = Coordinator::new(4, WORKER_COUNT);
    c.record_result(1);
    c.record_result(1);
    c.record_result(1);
    c.record_result(0);
    let rep = c.report();
    assert_eq!(rep.total_cost_nanos, 3);
    assert_eq!(rep.average_cost_nanos, 0);
}

#[test]
fn shares_clone_the_request() {
    let req = build_request("http://localhost/".to_string(), 8, true, Some("a=1".to_string()));
    let c = Coordinator::new(req.total_iterations, WORKER_COUNT);
    let s1 = c.worker_share(&req);
    let s2 = c.worker_share(&req);
    assert_eq!(s1.iterations, 2);
    assert_eq!(s2.iterations, 2);
    assert_eq!(s1.url, "http://localhost/".to_string());
    assert_eq!(s1.body, Some("a=1".to_string()));
    assert_eq!(s2.body, Some("a=1".to_string()));
}
