//! The load coordinator: work distribution and timing aggregation.
//!
//! A run splits a requested iteration total into equal worker shares
//! (the remainder of the integer division is dropped), hands one share
//! to each worker, collects one elapsed time per worker in arrival
//! order, and folds the times into a single [`LoadReport`].

use crate::worker::{Method, WorkerShare};
use vstd::prelude::*;

verus! {

/// The number of concurrent workers a run is split across.
pub const WORKER_COUNT: u64 = 4;

/// One load-generation job: a request to repeat against a target URL.
pub struct LoadRequest {
    pub method: Method,
    pub url: String,
    pub body: Option<String>,
    pub total_iterations: u64,
}

impl LoadRequest {
    /// A POST request always carries a body; the dispatch layer
    /// establishes this before a request is built.
    pub open spec fn wf(&self) -> bool {
        self.method == Method::Post ==> self.body is Some
    }
}

/// The aggregate outcome of one run. Costs are wall-clock
/// nanoseconds; the average is the integer quotient of total cost by
/// executed iterations, and zero when nothing was executed.
#[derive(Clone, Copy, Debug, PartialEq, Eq, Structural)]
pub struct LoadReport {
    pub total_iterations_executed: u64,
    pub total_cost_nanos: u128,
    pub average_cost_nanos: u128,
}

/// Each worker's share of a total iteration count: the truncating
/// integer quotient.
pub open spec fn spec_share(total: u64, worker_count: u64) -> int {
    total as int / worker_count as int
}

/// How many iterations a run actually executes: the per-worker share
/// times the worker count, so the division remainder is dropped.
pub open spec fn spec_executed(total: u64, worker_count: u64) -> int {
    worker_count * spec_share(total, worker_count)
}

/// The executed total is the worker count times the truncated
/// per-worker share, and it never exceeds the requested total.
pub proof fn lemma_executed_within_total(total: u64, worker_count: u64)
    requires
        1 <= worker_count,
    ensures
        spec_executed(total, worker_count) == worker_count * (total as int / worker_count as int),
        0 <= spec_executed(total, worker_count) <= total,
{
    vstd::arithmetic::div_mod::lemma_fundamental_div_mod(total as int, worker_count as int);
    vstd::arithmetic::div_mod::lemma_mod_bound(total as int, worker_count as int);
}

/// Split a total iteration count across `worker_count` workers,
/// returning the per-worker share and the executed total.
pub fn split_iterations(total: u64, worker_count: u64) -> (r: (u64, u64))
    requires
        1 <= worker_count,
    ensures
        r.0 == spec_share(total, worker_count),
        r.1 == spec_executed(total, worker_count),
        r.1 <= total,
{
    let share = total / worker_count;
    proof {
        lemma_executed_within_total(total, worker_count);
        vstd::arithmetic::mul::lemma_mul_is_commutative(share as int, worker_count as int);
    }
    let executed = share * worker_count;
    (share, executed)
}

/// Workers together cover exactly the executed total: when each of the
/// run's workers is given the run's share of a supported method, the
/// requests they issue add up to `executed()`, no more and no fewer.
pub proof fn lemma_workers_cover_executed(c: Coordinator, s: WorkerShare)
    requires
        c.wf(),
        crate::worker::supported(s.method),
        s.iterations == c.share(),
    ensures
        c.worker_count() * crate::worker::spec_planned_requests(s) == c.executed(),
{
}

/// The sum of a sequence of per-worker elapsed times.
pub open spec fn sum_nanos(s: Seq<u64>) -> int
    decreases s.len(),
{
    if s.len() == 0 {
        0
    } else {
        sum_nanos(s.drop_last()) + s.last()
    }
}

/// A sum of `n` elapsed times is at least zero and at most `n` times
/// the largest representable time.
pub proof fn lemma_sum_nanos_bound(s: Seq<u64>)
    ensures
        0 <= sum_nanos(s) <= s.len() * u64::MAX,
    decreases s.len(),
{
    if s.len() > 0 {
        lemma_sum_nanos_bound(s.drop_last());
    }
}

/// The coordinator of one run. It is created in the spawning state,
/// receives one elapsed time per worker in arrival order, and yields a
/// report once every worker has reported.
pub struct Coordinator {
    worker_count: u64,
    share: u64,
    total_iterations_executed: u64,
    received: Vec<u64>,
}

impl Coordinator {
    pub closed spec fn worker_count(&self) -> u64 {
        self.worker_count
    }

    /// The iteration count each worker is given.
    pub closed spec fn share(&self) -> u64 {
        self.share
    }

    /// The iteration total the run executes.
    pub closed spec fn executed(&self) -> u64 {
        self.total_iterations_executed
    }

    /// The per-worker elapsed times received so far, in arrival order.
    pub closed spec fn results(&self) -> Seq<u64> {
        self.received@
    }

    pub closed spec fn wf(&self) -> bool {
        &&& 1 <= self.worker_count
        &&& self.received@.len() <= self.worker_count
        &&& self.total_iterations_executed == self.worker_count * self.share
    }

    /// Start a run: split the requested total into equal shares and
    /// await one result per worker.
    pub fn new(total_iterations: u64, worker_count: u64) -> (c: Coordinator)
        requires
            1 <= worker_count,
        ensures
            c.wf(),
            c.worker_count() == worker_count,
            c.share() == spec_share(total_iterations, worker_count),
            c.executed() == spec_executed(total_iterations, worker_count),
            c.executed() <= total_iterations,
            c.results() == Seq::<u64>::empty(),
    {
        let (share, executed) = split_iterations(total_iterations, worker_count);
        let c = Coordinator {
            worker_count,
            share,
            total_iterations_executed: executed,
            received: Vec::new(),
        };
        proof {
            assert(c.results() =~= Seq::<u64>::empty());
        }
        c
    }

    /// The share handed to one worker: a clone of the request's
    /// method, URL and body, with this run's per-worker iteration
    /// count.
    pub fn worker_share(&self, req: &LoadRequest) -> (s: WorkerShare)
        requires
            self.wf(),
            req.wf(),
        ensures
            s.method == req.method,
            s.url@ == req.url@,
            s.iterations == self.share(),
            s.body is Some <==> req.body is Some,
            req.body matches Some(b) ==> s.body matches Some(sb) && sb@ == b@,
            s.wf(),
    {
        let body = match &req.body {
            Some(b) => Some(b.clone()),
            None => None,
        };
        WorkerShare { method: req.method, url: req.url.clone(), body, iterations: self.share }
    }

    /// How many workers have not yet reported.
    pub fn awaiting(&self) -> (n: u64)
        requires
            self.wf(),
        ensures
            n == self.worker_count() - self.results().len(),
    {
        self.worker_count - (self.received.len() as u64)
    }

    /// Whether every worker has reported.
    pub fn is_complete(&self) -> (b: bool)
        requires
            self.wf(),
        ensures
            b == (self.results().len() == self.worker_count()),
    {
        (self.received.len() as u64) == self.worker_count
    }

    /// Record one worker's elapsed time, received from the completion
    /// channel.
    pub fn record_result(&mut self, elapsed_nanos: u64)
        requires
            old(self).wf(),
            old(self).results().len() < old(self).worker_count(),
        ensures
            final(self).wf(),
            final(self).results() == old(self).results().push(elapsed_nanos),
            final(self).worker_count() == old(self).worker_count(),
            final(self).share() == old(self).share(),
            final(self).executed() == old(self).executed(),
    {
        self.received.push(elapsed_nanos);
    }

    /// Sum the received elapsed times. The sum of up to `usize::MAX`
    /// 64-bit times always fits in 128 bits.
    fn total_cost(&self) -> (t: u128)
        requires
            self.wf(),
        ensures
            t == sum_nanos(self.results()),
    {
        let mut total: u128 = 0;
        let n = self.received.len();
        for i in 0..n
            invariant
                n == self.received.len(),
                total == sum_nanos(self.received@.take(i as int)),
        {
            proof {
                lemma_sum_nanos_bound(self.received@.take(i as int));
                vstd::arithmetic::mul::lemma_mul_inequality(
                    i as int,
                    u64::MAX as int,
                    u64::MAX as int,
                );
                assert(self.received@.take(i + 1).drop_last() =~= self.received@.take(i as int));
            }
            total = total + (self.received[i] as u128);
        }
        proof {
            assert(self.received@.take(n as int) =~= self.received@);
        }
        total
    }

    /// Fold the received times into the final report: the total cost
    /// is the sum of exactly one elapsed time per worker, and the
    /// average is the total divided by the executed iteration count,
    /// guarded to zero when nothing was executed.
    pub fn report(&self) -> (r: LoadReport)
        requires
            self.wf(),
            self.results().len() == self.worker_count(),
        ensures
            r.total_iterations_executed == self.executed(),
            r.total_cost_nanos == sum_nanos(self.results()),
            self.executed() > 0 ==> r.average_cost_nanos == sum_nanos(self.results())
                / self.executed() as int,
            self.executed() == 0 ==> r.average_cost_nanos == 0,
    {
        let total_cost_nanos = self.total_cost();
        let average_cost_nanos: u128 = if self.total_iterations_executed == 0 {
            0
        } else {
            total_cost_nanos / (self.total_iterations_executed as u128)
        };
        LoadReport {
            total_iterations_executed: self.total_iterations_executed,
            total_cost_nanos,
            average_cost_nanos,
        }
    }

    /// The report, or nothing while workers are still outstanding: a
    /// run never yields a partial report.
    pub fn try_report(&self) -> (r: Option<LoadReport>)
        requires
            self.wf(),
        ensures
            r is Some <==> self.results().len() == self.worker_count(),
            r matches Some(rep) ==> {
                &&& rep.total_iterations_executed == self.executed()
                &&& rep.total_cost_nanos == sum_nanos(self.results())
                &&& self.executed() > 0 ==> rep.average_cost_nanos == sum_nanos(self.results())
                    / self.executed() as int
                &&& self.executed() == 0 ==> rep.average_cost_nanos == 0
            },
    {
        if self.is_complete() {
            Some(self.report())
        } else {
            None
        }
    }
}

} // verus!
