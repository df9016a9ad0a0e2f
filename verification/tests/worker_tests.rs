use loadgen::cli::build_request;
use loadgen::load::{Coordinator, WORKER_COUNT};
use loadgen::worker::{planned_requests, request_plan, Method, RequestPlan, WorkerLoop, WorkerShare};

fn get_share(iterations: u64) -> WorkerShare {
    WorkerShare {
        method: Method::Get,
        url: "http://localhost/".to_string(),
        body: None,
        iterations,
    }
}

fn drain(mut w: WorkerLoop) -> Vec<RequestPlan> {
    let mut plans = Vec::new();
    while let Some(p) = w.next_request() {
        plans.push(p);
    }
    plans
}

#[test]
fn get_worker_issues_its_share() {
    // times = 8 across 4 workers: each worker issues exactly 2 requests.
    let plans = drain(WorkerLoop::new(get_share(2)));
    assert_eq!(plans.len(), 2);
    for p in &plans {
        assert_eq!(p.method, Method::Get);
        assert!(p.body.is_none());
        assert!(!p.content_type_json);
        assert_eq!(p.url, "http://localhost/".to_string());
    }
}

#[test]
fn zero_share_finishes_immediately() {
    let mut w = WorkerLoop::new(get_share(0));
    assert!(w.next_request().is_none());
    assert!(w.next_request().is_none());
}

#[test]
fn unsupported_method_issues_nothing() {
    let share = WorkerShare {
        method: Method::Other,
        url: "http://localhost/".to_string(),
        body: None,
        iterations: 5,
    };
    assert_eq!(planned_requests(&share), 0);
    assert!(request_plan(&share).is_none());
    let mut w = WorkerLoop::new(share);
    assert!(w.next_request().is_none());
}

#[test]
fn post_plan_carries_body_and_content_type() {
    let share = WorkerShare {
        method: Method::Post,
        url: "http://localhost/".to_string(),
        body: Some("a=1".to_string()),
        iterations: 1,
    };
    let p = request_plan(&share).unwrap();
    assert_eq!(p.method, Method::Post);
    assert_eq!(p.body, Some("a=1".to_string()));
    assert!(p.content_type_json);
}

#[test]
fn post_run_issues_four_json_requests() {
    // `-p "a=1"` with times = 4: one POST per worker, each carrying the
    // body and the JSON content type.
    let req = build_request("http://localhost/".to_string(), 4, true, Some("a=1".to_string()));
    let c = Coordinator::new(req.total_iterations, WORKER_COUNT);
    let mut all_plans = Vec::new();
    for _ in 0..WORKER_COUNT {
        let share = c.worker_share(&req);
        assert_eq!(share.iterations, 1);
        all_plans.extend(drain(WorkerLoop::new(share)));
    }
    assert_eq!(all_plans.len(), 4);
    for p in &all_plans {
        assert_eq!(p.method, Method::Post);
        assert_eq!(p.body, Some("a=1".to_string()));
        assert!(p.content_type_json);
    }
}

#[test]
fn even_run_executes_every_iteration() {
    // times = 8: the 4 workers together issue exactly the executed total.
    let req = build_request("http://localhost/".to_string(), 8, false, None);
    let mut c = Coordinator::new(req.total_iterations, WORKER_COUNT);
    let mut issued: u64 = 0;
    for _ in 0..WORKER_COUNT {
        let share = c.worker_share(&req);
        issued += drain(WorkerLoop::new(share)).len() as u64;
        c.record_result(0);
    }
    let rep = c.report();
    assert_eq!(issued, 8);
    assert_eq!(rep.total_iterations_executed, 8);
}
