//! The worker loop: one worker's share of a run.
//!
//! A worker repeats a single request — described by a [`RequestPlan`] —
//! a fixed number of times. The loop state lives here and is stepped
//! one request at a time; the unverified binary performs each planned
//! request with its own HTTP client and measures the elapsed time
//! around the whole loop.

use vstd::prelude::*;

verus! {

/// The HTTP method of a run. `Other` stands for any method besides
/// GET and POST; a worker given one issues no requests (a defensive
/// default that the command line cannot reach).
#[derive(Clone, Copy, Debug, PartialEq, Eq, Structural)]
pub enum Method {
    Get,
    Post,
    Other,
}

/// Whether a worker can issue requests of this method.
pub open spec fn supported(m: Method) -> bool {
    m == Method::Get || m == Method::Post
}

/// One worker's slice of a load request: the shared method, URL and
/// body, plus the iteration count assigned to this worker.
pub struct WorkerShare {
    pub method: Method,
    pub url: String,
    pub body: Option<String>,
    pub iterations: u64,
}

impl WorkerShare {
    /// A POST share always carries a body.
    pub open spec fn wf(&self) -> bool {
        self.method == Method::Post ==> self.body is Some
    }
}

/// Everything one HTTP request needs: a GET carries no body and no
/// content type; a POST carries the share's body and the JSON content
/// type.
pub struct RequestPlan {
    pub method: Method,
    pub url: String,
    pub body: Option<String>,
    pub content_type_json: bool,
}

/// How a request plan reflects the worker's share: same method and
/// URL; a GET attaches no body and no content-type header; a POST
/// attaches the share's body and the `application/json` content type.
pub open spec fn plan_matches_share(p: RequestPlan, s: WorkerShare) -> bool {
    &&& p.method == s.method
    &&& p.url@ == s.url@
    &&& s.method == Method::Get ==> p.body is None && !p.content_type_json
    &&& s.method == Method::Post ==> p.content_type_json && (s.body matches Some(b)
        && p.body matches Some(pb) && pb@ == b@)
}

/// The number of requests a worker issues for a share: its iteration
/// count, or none at all for an unsupported method.
pub open spec fn spec_planned_requests(s: WorkerShare) -> u64 {
    if supported(s.method) {
        s.iterations
    } else {
        0
    }
}

/// How many requests a worker will issue for this share.
pub fn planned_requests(share: &WorkerShare) -> (n: u64)
    ensures
        n == spec_planned_requests(*share),
{
    match share.method {
        Method::Get => share.iterations,
        Method::Post => share.iterations,
        Method::Other => 0,
    }
}

/// The plan for one request of this share, or nothing for an
/// unsupported method.
pub fn request_plan(share: &WorkerShare) -> (r: Option<RequestPlan>)
    requires
        share.wf(),
    ensures
        r is Some <==> supported(share.method),
        r matches Some(p) ==> plan_matches_share(p, *share),
{
    match share.method {
        Method::Get => Some(
            RequestPlan {
                method: Method::Get,
                url: share.url.clone(),
                body: None,
                content_type_json: false,
            },
        ),
        Method::Post => {
            let body = match &share.body {
                Some(b) => Some(b.clone()),
                None => None,
            };
            Some(
                RequestPlan {
                    method: Method::Post,
                    url: share.url.clone(),
                    body,
                    content_type_json: true,
                },
            )
        },
        Method::Other => None,
    }
}

/// The request loop of one worker, stepped one request at a time.
pub struct WorkerLoop {
    share: WorkerShare,
    issued: u64,
}

impl WorkerLoop {
    /// The share this loop works through.
    pub closed spec fn share_spec(&self) -> WorkerShare {
        self.share
    }

    /// How many requests have been handed out so far.
    pub closed spec fn issued(&self) -> u64 {
        self.issued
    }

    pub closed spec fn wf(&self) -> bool {
        &&& self.share.wf()
        &&& self.issued <= spec_planned_requests(self.share)
    }

    /// Start a worker's loop over its share; no requests are issued
    /// yet.
    pub fn new(share: WorkerShare) -> (w: WorkerLoop)
        requires
            share.wf(),
        ensures
            w.wf(),
            w.share_spec() == share,
            w.issued() == 0,
    {
        WorkerLoop { share, issued: 0 }
    }

    /// The next request to issue, or nothing once the share is
    /// exhausted — immediately so for a zero share or an unsupported
    /// method.
    pub fn next_request(&mut self) -> (r: Option<RequestPlan>)
        requires
            old(self).wf(),
        ensures
            final(self).wf(),
            final(self).share_spec() == old(self).share_spec(),
            old(self).issued() < spec_planned_requests(old(self).share_spec()) ==> {
                &&& r matches Some(p) && plan_matches_share(p, old(self).share_spec())
                &&& final(self).issued() == old(self).issued() + 1
            },
            old(self).issued() >= spec_planned_requests(old(self).share_spec()) ==> {
                &&& r is None
                &&& final(self).issued() == old(self).issued()
            },
    {
        let planned = planned_requests(&self.share);
        if self.issued < planned {
            let plan = request_plan(&self.share);
            self.issued = self.issued + 1;
            plan
        } else {
            None
        }
    }
}

} // verus!
