//! The correlator: one session's pending requests, held permission requests
//! and queue of notifications, and the decision taken on each message read
//! from the subprocess.
use vstd::prelude::*;
use crate::approval::{
    answer, approval_request, describes, is_answer, params_read_as, reads_as, ApprovalKind, ApprovalPolicy, ApprovalRequest, Decision, Handling, PolicyRule,
    rule_for,
};
use crate::json::Json;
use crate::keyed::{
    has_key, keyed, lemma_keyed_at, lemma_keyed_domain, lemma_keyed_push, lemma_keyed_remove,
    unique_keys,
};
use crate::message::{IdKey, Message, Notification, Request, RequestId};

verus! {

/// A request that was sent and waits for its response or error.
pub struct PendingRequest {
    pub id: RequestId,
    pub method: String,
}

/// A permission request from the subprocess that waits for a decision.
pub struct PendingApproval {
    pub id: RequestId,
    pub kind: ApprovalKind,
}

pub open spec fn request_entries(v: Seq<PendingRequest>) -> Seq<(IdKey, Seq<char>)> {
    v.map_values(|p: PendingRequest| (p.id@, p.method@))
}

pub open spec fn approval_entries(v: Seq<PendingApproval>) -> Seq<(IdKey, ApprovalKind)> {
    v.map_values(|p: PendingApproval| (p.id@, p.kind))
}

/// A session as mathematical values.
pub struct SessionView {
    /// The method of each request that waits, by id.
    pub requests: Map<IdKey, Seq<char>>,
    /// The kind of each permission request that waits, by id.
    pub approvals: Map<IdKey, ApprovalKind>,
    /// Notifications read and not yet taken, oldest first.
    pub queue: Seq<Notification>,
    /// The policy table.
    pub rules: Seq<PolicyRule>,
    /// The connection has ended.
    pub closed: bool,
}

/// The state of one connection to the subprocess.
pub struct Session {
    requests: Vec<PendingRequest>,
    approvals: Vec<PendingApproval>,
    queue: Vec<Notification>,
    policy: ApprovalPolicy,
    closed: bool,
}

impl View for Session {
    type V = SessionView;

    closed spec fn view(&self) -> SessionView {
        SessionView {
            requests: keyed(request_entries(self.requests@)),
            approvals: keyed(approval_entries(self.approvals@)),
            queue: self.queue@,
            rules: self.policy.rules@,
            closed: self.closed,
        }
    }
}

/// What became of one message read from the subprocess.
pub enum Route {
    /// A response to the waiting request with this id.
    Completed(IdKey),
    /// An error for the waiting request with this id.
    Failed(IdKey),
    /// A response or error that no waiting request has the id of: dropped.
    Unmatched(IdKey),
    /// A notification, put at the end of the queue.
    Queued,
    /// A permission request decided by a fixed rule and answered at once.
    Answered(IdKey),
    /// A permission request held for a person's decision.
    Held(IdKey),
    /// A permission request whose id is already held: left alone.
    Repeated(IdKey),
    /// A request of a method that the policy table does not name.
    Unsupported(IdKey),
    /// A permission request whose parameters do not read as its kind: left
    /// alone.
    Rejected(IdKey),
}

/// The route that a message takes in state `s`.
pub open spec fn route(s: SessionView, m: Message) -> Route {
    match m {
        Message::Response { id, .. } => if s.requests.contains_key(id@) {
            Route::Completed(id@)
        } else {
            Route::Unmatched(id@)
        },
        Message::Error { id, .. } => if s.requests.contains_key(id@) {
            Route::Failed(id@)
        } else {
            Route::Unmatched(id@)
        },
        Message::Notification(_) => Route::Queued,
        Message::Request(req) => match rule_for(s.rules, req.method@) {
            Some((kind, handling)) => if !reads_as(kind, req.id@, req.params) {
                Route::Rejected(req.id@)
            } else {
                match handling {
                    Handling::Fixed(_) => Route::Answered(req.id@),
                    Handling::Ask => if s.approvals.contains_key(req.id@) {
                        Route::Repeated(req.id@)
                    } else {
                        Route::Held(req.id@)
                    },
                }
            },
            None => Route::Unsupported(req.id@),
        },
    }
}

/// The state after a message is read in state `s`.
pub open spec fn after(s: SessionView, m: Message) -> SessionView {
    match m {
        Message::Response { id, .. } | Message::Error { id, .. } => if s.requests.contains_key(id@) {
            SessionView { requests: s.requests.remove(id@), ..s }
        } else {
            s
        },
        Message::Notification(n) => SessionView { queue: s.queue.push(n), ..s },
        Message::Request(req) => match rule_for(s.rules, req.method@) {
            Some((kind, Handling::Ask)) => if s.approvals.contains_key(req.id@) || !reads_as(kind, req.id@, req.params) {
                s
            } else {
                SessionView { approvals: s.approvals.insert(req.id@, kind), ..s }
            },
            _ => s,
        },
    }
}

/// The result of reading one message, with what the caller acts on.
pub enum Routed {
    /// The waiting request `id` is answered with `result`.
    Completed { id: RequestId, method: String, result: Json },
    /// The waiting request `id` failed with `error`.
    Failed { id: RequestId, method: String, error: Json },
    /// Nothing waits for `id`; the message is dropped.
    Unmatched { id: RequestId },
    /// The notification was queued.
    Queued,
    /// This response is to be written back at once.
    Answered(Message),
    /// Permission request `id` waits for a person's decision; `request` is
    /// what to show them.
    Held { id: RequestId, request: ApprovalRequest },
    /// A permission request whose id is already held.
    Repeated(Request),
    /// A request that the policy table does not name.
    Unsupported(Request),
    /// A permission request whose parameters do not read as its kind.
    Rejected(Request),
}

/// `r` is the variant of `route`.
pub open spec fn routed_as(r: Routed, route: Route) -> bool {
    match route {
        Route::Completed(_) => r is Completed,
        Route::Failed(_) => r is Failed,
        Route::Unmatched(_) => r is Unmatched,
        Route::Queued => r is Queued,
        Route::Answered(_) => r is Answered,
        Route::Held(_) => r is Held,
        Route::Repeated(_) => r is Repeated,
        Route::Unsupported(_) => r is Unsupported,
        Route::Rejected(_) => r is Rejected,
    }
}

/// `r` carries what message `m` hands on in state `s`: the result or error
/// with the method of the request it answers, the answer to write back, or
/// the request to show to a person.
pub open spec fn hands_on(s: SessionView, m: Message, r: Routed) -> bool {
    match (m, r) {
        (Message::Response { id, result }, Routed::Completed { id: rid, method, result: out }) =>
            rid@ == id@ && method@ == s.requests[id@] && out == result,
        (Message::Error { id, error }, Routed::Failed { id: rid, method, error: out }) =>
            rid@ == id@ && method@ == s.requests[id@] && out == error,
        (Message::Response { id, .. }, Routed::Unmatched { id: rid }) => rid@ == id@,
        (Message::Error { id, .. }, Routed::Unmatched { id: rid }) => rid@ == id@,
        (Message::Notification(_), Routed::Queued) => true,
        (Message::Request(req), Routed::Answered(out)) => match (rule_for(s.rules, req.method@), out) {
            (Some((kind, Handling::Fixed(d))), Message::Response { id, result }) =>
                id@ == req.id@ && is_answer(kind, d, result),
            _ => false,
        },
        (Message::Request(req), Routed::Held { id, request }) => match rule_for(s.rules, req.method@) {
            Some((kind, Handling::Ask)) => id@ == req.id@ && describes(request, req.id@, kind, req.params),
            _ => false,
        },
        (Message::Request(req), Routed::Repeated(q)) => q == req,
        (Message::Request(req), Routed::Unsupported(q)) => q == req,
        (Message::Request(req), Routed::Rejected(q)) => q == req,
        _ => false,
    }
}

/// `m` is the response that answers permission request `id` of kind `kind`
/// with decision `d`.
pub open spec fn answers(m: Message, id: IdKey, kind: ApprovalKind, d: Decision) -> bool {
    match m {
        Message::Response { id: rid, result } => rid@ == id && is_answer(kind, d, result),
        _ => false,
    }
}

/// The id that a response or error answers.
pub open spec fn answered_id(m: Message) -> IdKey {
    match m {
        Message::Response { id, .. } => id@,
        Message::Error { id, .. } => id@,
        Message::Request(req) => req.id@,
        Message::Notification(_) => IdKey::Text(Seq::empty()),
    }
}

/// What is left when the connection ends: the requests that will get no
/// response, and the denial that answers each held permission request.
pub struct Teardown {
    pub failed: Vec<PendingRequest>,
    pub denials: Vec<Message>,
}

/// Why a request could not be sent.
#[derive(PartialEq, Eq, Structural, Clone, Copy, Debug)]
pub enum IssueError {
    /// The connection has ended.
    Closed,
    /// A request with the same id still waits.
    DuplicateId,
}

/// A decision named a permission request that is not waiting.
#[derive(PartialEq, Eq, Structural, Clone, Copy, Debug)]
pub enum ApprovalError {
    NotFound,
}

impl Session {
    /// Ids are distinct in both tables.
    pub closed spec fn wf(&self) -> bool {
        &&& unique_keys(request_entries(self.requests@))
        &&& unique_keys(approval_entries(self.approvals@))
    }

    /// A session with nothing pending, run by `policy`.
    pub fn new(policy: ApprovalPolicy) -> (r: Session)
        ensures
            r.wf(),
            r@.requests == Map::<IdKey, Seq<char>>::empty(),
            r@.approvals == Map::<IdKey, ApprovalKind>::empty(),
            r@.queue == Seq::<Notification>::empty(),
            r@.rules == policy.rules@,
            !r@.closed,
    {
        let r = Session { requests: Vec::new(), approvals: Vec::new(), queue: Vec::new(), policy, closed: false };
        assert(request_entries(r.requests@) =~= Seq::empty());
        assert(approval_entries(r.approvals@) =~= Seq::empty());
        r
    }

    fn find_request(&self, id: &RequestId) -> (r: Option<usize>)
        ensures
            match r {
                Some(i) => i < self.requests@.len() && self.requests@[i as int].id@ == id@,
                None => !has_key(request_entries(self.requests@), id@),
            },
    {
        let mut i: usize = 0;
        while i < self.requests.len()
            invariant
                i <= self.requests@.len(),
                forall|j: int| 0 <= j < i ==> (#[trigger] self.requests@[j]).id@ != id@,
            decreases self.requests@.len() - i,
        {
            if self.requests[i].id.same(id) {
                return Some(i);
            }
            i = i + 1;
        }
        proof {
            if has_key(request_entries(self.requests@), id@) {
                let j = choose|j: int| 0 <= j < request_entries(self.requests@).len()
                    && request_entries(self.requests@)[j].0 == id@;
                assert(self.requests@[j].id@ != id@);
            }
        }
        None
    }

    fn find_approval(&self, id: &RequestId) -> (r: Option<usize>)
        ensures
            match r {
                Some(i) => i < self.approvals@.len() && self.approvals@[i as int].id@ == id@,
                None => !has_key(approval_entries(self.approvals@), id@),
            },
    {
        let mut i: usize = 0;
        while i < self.approvals.len()
            invariant
                i <= self.approvals@.len(),
                forall|j: int| 0 <= j < i ==> (#[trigger] self.approvals@[j]).id@ != id@,
            decreases self.approvals@.len() - i,
        {
            if self.approvals[i].id.same(id) {
                return Some(i);
            }
            i = i + 1;
        }
        proof {
            if has_key(approval_entries(self.approvals@), id@) {
                let j = choose|j: int| 0 <= j < approval_entries(self.approvals@).len()
                    && approval_entries(self.approvals@)[j].0 == id@;
                assert(self.approvals@[j].id@ != id@);
            }
        }
        None
    }

    /// Takes out the waiting request at `i`.
    fn take_request(&mut self, i: usize) -> (r: PendingRequest)
        requires
            old(self).wf(),
            i < old(self).requests@.len(),
        ensures
            final(self).wf(),
            r == old(self).requests@[i as int],
            old(self)@.requests.contains_key(r.id@),
            old(self)@.requests[r.id@] == r.method@,
            final(self)@ == (SessionView { requests: old(self)@.requests.remove(r.id@), ..old(self)@ }),
    {
        let ghost e = request_entries(self.requests@);
        proof {
            lemma_keyed_at(e, i as int);
            lemma_keyed_remove(e, i as int);
        }
        let r = self.requests.remove(i);
        assert(request_entries(self.requests@) =~= e.remove(i as int));
        r
    }

    /// Takes out the held permission request at `i`.
    fn take_approval(&mut self, i: usize) -> (r: PendingApproval)
        requires
            old(self).wf(),
            i < old(self).approvals@.len(),
        ensures
            final(self).wf(),
            r == old(self).approvals@[i as int],
            old(self)@.approvals.contains_key(r.id@),
            old(self)@.approvals[r.id@] == r.kind,
            final(self)@ == (SessionView { approvals: old(self)@.approvals.remove(r.id@), ..old(self)@ }),
    {
        let ghost e = approval_entries(self.approvals@);
        proof {
            lemma_keyed_at(e, i as int);
            lemma_keyed_remove(e, i as int);
        }
        let r = self.approvals.remove(i);
        assert(approval_entries(self.approvals@) =~= e.remove(i as int));
        r
    }

    /// Registers request `id` and gives the message to write. Fails when
    /// the connection has ended or a request with this id still waits.
    pub fn issue(&mut self, id: RequestId, method: String, params: Json) -> (r: Result<Message, IssueError>)
        requires
            old(self).wf(),
        ensures
            final(self).wf(),
            old(self)@.closed ==> r == Err::<Message, IssueError>(IssueError::Closed) && final(self)@ == old(self)@,
            !old(self)@.closed && old(self)@.requests.contains_key(id@) ==> r == Err::<Message, IssueError>(
                IssueError::DuplicateId,
            ) && final(self)@ == old(self)@,
            !old(self)@.closed && !old(self)@.requests.contains_key(id@) ==> match r {
                Ok(Message::Request(req)) => {
                    &&& req.id@ == id@
                    &&& req.method == method
                    &&& req.params == params
                    &&& final(self)@ == (SessionView {
                        requests: old(self)@.requests.insert(id@, method@),
                        ..old(self)@
                    })
                },
                _ => false,
            },
    {
        if self.closed {
            return Err(IssueError::Closed);
        }
        let ghost e = request_entries(self.requests@);
        match self.find_request(&id) {
            Some(i) => {
                proof {
                    lemma_keyed_domain(e, id@);
                    assert(e[i as int].0 == id@);
                }
                Err(IssueError::DuplicateId)
            },
            None => {
                proof {
                    lemma_keyed_domain(e, id@);
                    lemma_keyed_push(e, id@, method@);
                }
                self.requests.push(PendingRequest { id: id.duplicate(), method: method.clone() });
                assert(request_entries(self.requests@) =~= e.push((id@, method@)));
                Ok(Message::Request(Request { id, method, params }))
            },
        }
    }

    /// Takes one message read from the subprocess: a response or error goes
    /// to the request with its id, or is dropped when none waits; a
    /// notification joins the queue; a permission request is answered by
    /// its rule or held for a decision.
    pub fn dispatch(&mut self, m: Message) -> (r: Routed)
        requires
            old(self).wf(),
        ensures
            final(self).wf(),
            final(self)@ == after(old(self)@, m),
            routed_as(r, route(old(self)@, m)),
            hands_on(old(self)@, m, r),
    {
        let ghost e = request_entries(self.requests@);
        let ghost a = approval_entries(self.approvals@);
        match m {
            Message::Response { id, result } => match self.find_request(&id) {
                Some(i) => {
                    let p = self.take_request(i);
                    Routed::Completed { id, method: p.method, result }
                },
                None => {
                    proof { lemma_keyed_domain(e, id@); }
                    Routed::Unmatched { id }
                },
            },
            Message::Error { id, error } => match self.find_request(&id) {
                Some(i) => {
                    let p = self.take_request(i);
                    Routed::Failed { id, method: p.method, error }
                },
                None => {
                    proof { lemma_keyed_domain(e, id@); }
                    Routed::Unmatched { id }
                },
            },
            Message::Notification(n) => {
                self.queue.push(n);
                Routed::Queued
            },
            Message::Request(req) => match self.policy.lookup(&req.method) {
                Some((kind, _)) if !params_read_as(kind, &req.id, &req.params) => Routed::Rejected(req),
                Some((kind, Handling::Fixed(d))) => {
                    let result = answer(kind, d);
                    Routed::Answered(Message::Response { id: req.id, result })
                },
                Some((kind, Handling::Ask)) => match self.find_approval(&req.id) {
                    Some(i) => {
                        proof {
                            lemma_keyed_domain(a, req.id@);
                            assert(a[i as int].0 == req.id@);
                        }
                        Routed::Repeated(req)
                    },
                    None => {
                        proof {
                            lemma_keyed_domain(a, req.id@);
                            lemma_keyed_push(a, req.id@, kind);
                        }
                        let shown = approval_request(&req.id, kind, &req.params);
                        let id = req.id.duplicate();
                        self.approvals.push(PendingApproval { id: req.id, kind });
                        assert(approval_entries(self.approvals@) =~= a.push((req.id@, kind)));
                        Routed::Held { id, request: shown }
                    },
                },
                None => Routed::Unsupported(req),
            },
        }
    }

    /// Answers the held permission request `id` with `decision`, and gives
    /// the response to write. Fails, changing nothing, when no request with
    /// this id is held.
    pub fn submit_approval_decision(&mut self, id: &RequestId, decision: Decision) -> (r: Result<Message, ApprovalError>)
        requires
            old(self).wf(),
        ensures
            final(self).wf(),
            old(self)@.approvals.contains_key(id@) ==> match r {
                Ok(m) => answers(m, id@, old(self)@.approvals[id@], decision)
                    && final(self)@ == (SessionView { approvals: old(self)@.approvals.remove(id@), ..old(self)@ }),
                Err(_) => false,
            },
            !old(self)@.approvals.contains_key(id@) ==> r == Err::<Message, ApprovalError>(ApprovalError::NotFound)
                && final(self)@ == old(self)@,
    {
        let ghost a = approval_entries(self.approvals@);
        match self.find_approval(id) {
            Some(i) => {
                let p = self.take_approval(i);
                let result = answer(p.kind, decision);
                Ok(Message::Response { id: p.id, result })
            },
            None => {
                proof { lemma_keyed_domain(a, id@); }
                Err(ApprovalError::NotFound)
            },
        }
    }

    /// The decision for the held permission request `id` will never come:
    /// it is denied.
    pub fn abandon_approval(&mut self, id: &RequestId) -> (r: Result<Message, ApprovalError>)
        requires
            old(self).wf(),
        ensures
            final(self).wf(),
            old(self)@.approvals.contains_key(id@) ==> match r {
                Ok(m) => answers(m, id@, old(self)@.approvals[id@], Decision::Denied)
                    && final(self)@ == (SessionView { approvals: old(self)@.approvals.remove(id@), ..old(self)@ }),
                Err(_) => false,
            },
            !old(self)@.approvals.contains_key(id@) ==> r == Err::<Message, ApprovalError>(ApprovalError::NotFound)
                && final(self)@ == old(self)@,
    {
        self.submit_approval_decision(id, Decision::Denied)
    }

    /// Takes the oldest queued notification.
    pub fn next_queued(&mut self) -> (r: Option<Notification>)
        requires
            old(self).wf(),
        ensures
            final(self).wf(),
            old(self)@.queue.len() == 0 ==> r.is_none() && final(self)@ == old(self)@,
            old(self)@.queue.len() > 0 ==> r == Some(old(self)@.queue[0])
                && final(self)@ == (SessionView { queue: old(self)@.queue.drop_first(), ..old(self)@ }),
    {
        if self.queue.len() == 0 {
            None
        } else {
            let n = self.queue.remove(0);
            assert(self.queue@ =~= old(self)@.queue.drop_first());
            Some(n)
        }
    }

    /// Ends the connection: every waiting request fails, every held
    /// permission request is denied.
    #[verifier::loop_isolation(false)]
    pub fn close(&mut self) -> (r: Teardown)
        requires
            old(self).wf(),
        ensures
            final(self).wf(),
            final(self)@ == (SessionView {
                requests: Map::empty(),
                approvals: Map::empty(),
                closed: true,
                ..old(self)@
            }),
            unique_keys(request_entries(r.failed@)),
            keyed(request_entries(r.failed@)) == old(self)@.requests,
            forall|k: IdKey| old(self)@.approvals.contains_key(k) ==> exists|i: int|
                0 <= i < r.denials@.len() && answers(#[trigger] r.denials@[i], k, old(self)@.approvals[k], Decision::Denied),
            forall|i: int| 0 <= i < r.denials@.len() ==> old(self)@.approvals.contains_key(answered_id(#[trigger] r.denials@[i]))
                && answers(r.denials@[i], answered_id(r.denials@[i]), old(self)@.approvals[answered_id(r.denials@[i])], Decision::Denied),
    {
        let mut failed: Vec<PendingRequest> = Vec::new();
        let mut held: Vec<PendingApproval> = Vec::new();
        core::mem::swap(&mut failed, &mut self.requests);
        core::mem::swap(&mut held, &mut self.approvals);
        self.closed = true;
        let ghost a = approval_entries(held@);
        let mut denials: Vec<Message> = Vec::new();
        let mut i: usize = 0;
        while i < held.len()
            invariant
                i <= held@.len(),
                denials@.len() == i,
                a == approval_entries(held@),
                forall|j: int| 0 <= j < i ==> answers(#[trigger] denials@[j], held@[j].id@, held@[j].kind, Decision::Denied),
            decreases held@.len() - i,
        {
            let result = answer(held[i].kind, Decision::Denied);
            denials.push(Message::Response { id: held[i].id.duplicate(), result });
            i = i + 1;
        }
        assert(request_entries(self.requests@) =~= Seq::empty());
        assert(approval_entries(self.approvals@) =~= Seq::empty());
        assert(keyed(request_entries(self.requests@)) =~= Map::empty());
        assert(keyed(approval_entries(self.approvals@)) =~= Map::empty());
        let r = Teardown { failed, denials };
        assert forall|k: IdKey| old(self)@.approvals.contains_key(k) implies exists|i: int|
            0 <= i < r.denials@.len() && answers(#[trigger] r.denials@[i], k, old(self)@.approvals[k], Decision::Denied) by {
            lemma_keyed_domain(a, k);
            let j = choose|j: int| 0 <= j < a.len() && a[j].0 == k;
            lemma_keyed_at(a, j);
            assert(old(self)@.approvals == keyed(a));
            assert(answers(r.denials@[j], k, old(self)@.approvals[k], Decision::Denied));
        }
        assert forall|i: int| 0 <= i < r.denials@.len() implies old(self)@.approvals.contains_key(answered_id(#[trigger] r.denials@[i]))
            && answers(r.denials@[i], answered_id(r.denials@[i]), old(self)@.approvals[answered_id(r.denials@[i])], Decision::Denied) by {
            lemma_keyed_at(a, i);
            assert(a[i].0 == held@[i].id@);
            assert(old(self)@.approvals == keyed(a));
            assert(answers(r.denials@[i], a[i].0, old(self)@.approvals[a[i].0], Decision::Denied));
        }
        r
    }

    /// The connection has ended.
    pub fn is_closed(&self) -> (r: bool)
        ensures
            r == self@.closed,
    {
        self.closed
    }

    /// A request with id `id` waits for its response.
    pub fn is_waiting(&self, id: &RequestId) -> (r: bool)
        requires
            self.wf(),
        ensures
            r == self@.requests.contains_key(id@),
    {
        proof { lemma_keyed_domain(request_entries(self.requests@), id@); }
        match self.find_request(id) {
            Some(i) => {
                assert(request_entries(self.requests@)[i as int].0 == id@);
                true
            },
            None => false,
        }
    }

    /// A permission request with id `id` waits for a decision.
    pub fn is_held(&self, id: &RequestId) -> (r: bool)
        requires
            self.wf(),
        ensures
            r == self@.approvals.contains_key(id@),
    {
        proof { lemma_keyed_domain(approval_entries(self.approvals@), id@); }
        match self.find_approval(id) {
            Some(i) => {
                assert(approval_entries(self.approvals@)[i as int].0 == id@);
                true
            },
            None => false,
        }
    }

    /// The kind of the held permission request `id`, if one is held.
    pub fn held_kind(&self, id: &RequestId) -> (r: Option<ApprovalKind>)
        requires
            self.wf(),
        ensures
            r == (if self@.approvals.contains_key(id@) { Some(self@.approvals[id@]) } else { None }),
    {
        let ghost a = approval_entries(self.approvals@);
        proof { lemma_keyed_domain(a, id@); }
        match self.find_approval(id) {
            Some(i) => {
                proof { lemma_keyed_at(a, i as int); }
                assert(a[i as int].0 == id@);
                Some(self.approvals[i].kind)
            },
            None => None,
        }
    }

    /// The number of queued notifications.
    pub fn queued(&self) -> (r: usize)
        ensures
            r == self@.queue.len(),
    {
        self.queue.len()
    }
}

} // verus!
