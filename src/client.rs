//! The session facade: fresh request ids, the initialize handshake, and
//! answers from the host application, on top of the correlator.
use vstd::prelude::*;
use vstd::string::StrSliceExecFns;
use crate::approval::{object_size, standard_rules, ApprovalPolicy, ApprovalKind, Decision};
use crate::json::{Json, from_value};
use crate::message::{IdKey, Message, RequestId};
use crate::session::{answers, ApprovalError, IssueError, Routed, Session, SessionView};
use crate::types::{decision_of, ApprovalResponse};
use codex_app_server_protocol::{ClientInfo, InitializeParams};

verus! {

/// Relies on `uuid::Uuid::new_v4` and its hyphenated text: a fresh random
/// id of 36 characters.
#[verifier::external_body]
fn fresh_request_id() -> (r: RequestId)
    ensures
        r is Text,
        r->Text_0@.len() == 36,
{
    RequestId::Text(uuid::Uuid::new_v4().to_string())
}

/// `j` is the parameters of `initialize`: one member `clientInfo` with the
/// client's `name`, `title` and `version`.
pub open spec fn initialize_params_of(j: Json, name: Seq<char>, title: Seq<char>, version: Seq<char>) -> bool {
    &&& j is Object
    &&& object_size(j) == 1
    &&& match j.field("clientInfo"@) {
        Some(info) => {
            &&& info is Object
            &&& object_size(info) == 3
            &&& info.text_field("name"@) == Some(name)
            &&& info.text_field("title"@) == Some(title)
            &&& info.text_field("version"@) == Some(version)
        },
        None => false,
    }
}

/// Relies on `serde_json::to_value` of `InitializeParams`: its one field
/// `clientInfo` holds the client's name, title and version, in camelCase.
#[verifier::external_body]
fn initialize_params(name: &str, title: &str, version: &str) -> (r: Json)
    ensures
        initialize_params_of(r, name@, title@, version@),
{
    let client_info = ClientInfo { name: name.to_string(), title: Some(title.to_string()), version: version.to_string() };
    from_value(serde_json::to_value(InitializeParams { client_info }).unwrap_or_default())
}

/// A white-space character, as Unicode's White_Space property lists them.
pub open spec fn is_space(c: char) -> bool {
    let u = c as u32;
    (9 <= u <= 13) || u == 32 || u == 0x85 || u == 0xA0 || u == 0x1680 || (0x2000 <= u <= 0x200A)
        || u == 0x2028 || u == 0x2029 || u == 0x202F || u == 0x205F || u == 0x3000
}

fn space(c: char) -> (r: bool)
    ensures
        r == is_space(c),
{
    let u = c as u32;
    (9 <= u && u <= 13) || u == 32 || u == 0x85 || u == 0xA0 || u == 0x1680 || (0x2000 <= u && u <= 0x200A)
        || u == 0x2028 || u == 0x2029 || u == 0x202F || u == 0x205F || u == 0x3000
}

/// A line that holds nothing but white space.
pub open spec fn blank(line: Seq<char>) -> bool {
    forall|i: int| 0 <= i < line.len() ==> is_space(#[trigger] line[i])
}

/// Whether a line read from the subprocess is blank, and so skipped.
pub fn is_blank(line: &str) -> (r: bool)
    ensures
        r == blank(line@),
{
    let n = line.unicode_len();
    let mut i: usize = 0;
    while i < n
        invariant
            n == line@.len(),
            i <= n,
            forall|j: int| 0 <= j < i ==> is_space(#[trigger] line@[j]),
        decreases n - i,
    {
        let c = line.get_char(i);
        if !space(c) {
            return false;
        }
        i = i + 1;
    }
    true
}

/// Whether a routed message ends the wait for request `awaited`: its
/// response or error has come.
pub fn settles(routed: &Routed, awaited: &RequestId) -> (r: bool)
    ensures
        r == match routed {
            Routed::Completed { id, .. } => id@ == awaited@,
            Routed::Failed { id, .. } => id@ == awaited@,
            _ => false,
        },
{
    match routed {
        Routed::Completed { id, .. } => id.same(awaited),
        Routed::Failed { id, .. } => id.same(awaited),
        _ => false,
    }
}

/// No waiting id has the shape of a freshly drawn one, so a fresh id cannot
/// clash.
pub open spec fn may_draw(s: SessionView) -> bool {
    forall|k: IdKey| #[trigger] s.requests.contains_key(k) ==> !(k is Text && k->Text_0.len() == 36)
}

/// `r` is the outcome of sending a request of method `method` with
/// parameters `params` under a fresh id, taking the session from `before`
/// to `now`.
pub open spec fn issued(before: SessionView, now: SessionView, r: Result<Message, IssueError>, method: Seq<char>, params: Json) -> bool {
    &&& (!before.closed && may_draw(before) ==> r is Ok)
    &&& match r {
        Ok(Message::Request(req)) => {
            &&& !before.closed
            &&& req.method@ == method
            &&& req.params == params
            &&& !before.requests.contains_key(req.id@)
            &&& now == (SessionView { requests: before.requests.insert(req.id@, method), ..before })
        },
        Ok(_) => false,
        Err(IssueError::Closed) => before.closed && now == before,
        Err(IssueError::DuplicateId) => !before.closed && now == before,
    }
}

/// A permission request of kind `kind` is held under `id`.
pub open spec fn held_as(s: SessionView, id: IdKey, kind: ApprovalKind) -> bool {
    s.approvals.contains_key(id) && s.approvals[id] == kind
}

/// The client of one agent subprocess.
pub struct CodexClientManager {
    pub session: Session,
    pub initialized: bool,
}

impl CodexClientManager {
    /// A client with nothing pending, run by the standard policy table.
    pub fn new() -> (r: CodexClientManager)
        ensures
            r.session.wf(),
            standard_rules(r.session@.rules),
            r.session@.requests == Map::<IdKey, Seq<char>>::empty(),
            r.session@.approvals == Map::<IdKey, ApprovalKind>::empty(),
            r.session@.queue.len() == 0,
            !r.session@.closed,
            !r.initialized,
    {
        CodexClientManager { session: Session::new(ApprovalPolicy::standard()), initialized: false }
    }

    /// Sends a request under a fresh id: gives the message to write, or
    /// fails as `Session::issue` does.
    pub fn request(&mut self, method: String, params: Json) -> (r: Result<Message, IssueError>)
        requires
            old(self).session.wf(),
        ensures
            final(self).session.wf(),
            final(self).initialized == old(self).initialized,
            !old(self).session@.closed && may_draw(old(self).session@) ==> r is Ok,
            match r {
                Ok(Message::Request(req)) => {
                    &&& !old(self).session@.closed
                    &&& req.method == method
                    &&& req.params == params
                    &&& !old(self).session@.requests.contains_key(req.id@)
                    &&& final(self).session@ == (SessionView {
                        requests: old(self).session@.requests.insert(req.id@, method@),
                        ..old(self).session@
                    })
                },
                Ok(_) => false,
                Err(IssueError::Closed) => old(self).session@.closed && final(self).session@ == old(self).session@,
                Err(IssueError::DuplicateId) => !old(self).session@.closed
                    && final(self).session@ == old(self).session@,
            },
    {
        let id = fresh_request_id();
        assert(!old(self).session@.closed && may_draw(old(self).session@) ==> !old(self).session@.requests.contains_key(id@));
        self.session.issue(id, method, params)
    }

    /// The `initialize` request, unless the handshake is done already.
    pub fn initialize(&mut self, version: &str) -> (r: Option<Result<Message, IssueError>>)
        requires
            old(self).session.wf(),
        ensures
            final(self).session.wf(),
            final(self).initialized == old(self).initialized,
            old(self).initialized ==> r.is_none() && final(self).session@ == old(self).session@,
            !old(self).initialized ==> match r {
                Some(sent) => exists|p: Json| #![auto]
                    initialize_params_of(p, "codexia-zen"@, "Codexia Zen"@, version@)
                    && issued(old(self).session@, final(self).session@, sent, "initialize"@, p),
                None => false,
            },
    {
        if self.initialized {
            return None;
        }
        let params = initialize_params("codexia-zen", "Codexia Zen", version);
        let sent = self.request(String::from_str("initialize"), params);
        assert(issued(old(self).session@, self.session@, sent, "initialize"@, params));
        Some(sent)
    }

    /// Records that the `initialize` handshake is done.
    pub fn mark_initialized(&mut self)
        ensures
            final(self).initialized,
            final(self).session == old(self).session,
    {
        self.initialized = true;
    }

    fn send_method(&mut self, method: &str, params: Json) -> (r: Result<Message, IssueError>)
        requires
            old(self).session.wf(),
        ensures
            final(self).session.wf(),
            final(self).initialized == old(self).initialized,
            issued(old(self).session@, final(self).session@, r, method@, params),
    {
        self.request(String::from_str(method), params)
    }

    /// Starts a thread (`thread/start`).
    pub fn thread_start(&mut self, params: Json) -> (r: Result<Message, IssueError>)
        requires
            old(self).session.wf(),
        ensures
            final(self).session.wf(),
            issued(old(self).session@, final(self).session@, r, "thread/start"@, params),
    {
        self.send_method("thread/start", params)
    }

    /// Resumes a thread (`thread/resume`).
    pub fn resume_thread(&mut self, params: Json) -> (r: Result<Message, IssueError>)
        requires
            old(self).session.wf(),
        ensures
            final(self).session.wf(),
            issued(old(self).session@, final(self).session@, r, "thread/resume"@, params),
    {
        self.send_method("thread/resume", params)
    }

    /// Lists threads (`thread/list`).
    pub fn list_threads(&mut self, params: Json) -> (r: Result<Message, IssueError>)
        requires
            old(self).session.wf(),
        ensures
            final(self).session.wf(),
            issued(old(self).session@, final(self).session@, r, "thread/list"@, params),
    {
        self.send_method("thread/list", params)
    }

    /// Starts a turn in a thread (`turn/start`).
    pub fn turn_start(&mut self, params: Json) -> (r: Result<Message, IssueError>)
        requires
            old(self).session.wf(),
        ensures
            final(self).session.wf(),
            issued(old(self).session@, final(self).session@, r, "turn/start"@, params),
    {
        self.send_method("turn/start", params)
    }

    /// Interrupts a turn (`turn/interrupt`).
    pub fn turn_interrupt(&mut self, params: Json) -> (r: Result<Message, IssueError>)
        requires
            old(self).session.wf(),
        ensures
            final(self).session.wf(),
            issued(old(self).session@, final(self).session@, r, "turn/interrupt"@, params),
    {
        self.send_method("turn/interrupt", params)
    }

    /// Opens a conversation (`newConversation`).
    pub fn new_conversation(&mut self, params: Json) -> (r: Result<Message, IssueError>)
        requires
            old(self).session.wf(),
        ensures
            final(self).session.wf(),
            issued(old(self).session@, final(self).session@, r, "newConversation"@, params),
    {
        self.send_method("newConversation", params)
    }

    /// Subscribes to a conversation's events (`addConversationListener`).
    pub fn add_conversation_listener(&mut self, params: Json) -> (r: Result<Message, IssueError>)
        requires
            old(self).session.wf(),
        ensures
            final(self).session.wf(),
            issued(old(self).session@, final(self).session@, r, "addConversationListener"@, params),
    {
        self.send_method("addConversationListener", params)
    }

    /// Sends a user message into a conversation (`sendUserMessage`).
    pub fn send_user_message(&mut self, params: Json) -> (r: Result<Message, IssueError>)
        requires
            old(self).session.wf(),
        ensures
            final(self).session.wf(),
            issued(old(self).session@, final(self).session@, r, "sendUserMessage"@, params),
    {
        self.send_method("sendUserMessage", params)
    }

    fn respond_of_kind(&mut self, kind: ApprovalKind, id: &RequestId, decision: Decision) -> (r: Result<Message, ApprovalError>)
        requires
            old(self).session.wf(),
        ensures
            final(self).session.wf(),
            final(self).initialized == old(self).initialized,
            held_as(old(self).session@, id@, kind) ==> match r {
                Ok(m) => answers(m, id@, kind, decision) && final(self).session@ == (SessionView {
                    approvals: old(self).session@.approvals.remove(id@),
                    ..old(self).session@
                }),
                Err(_) => false,
            },
            !held_as(old(self).session@, id@, kind) ==> r == Err::<Message, ApprovalError>(ApprovalError::NotFound)
                && final(self).session@ == old(self).session@,
    {
        match self.session.held_kind(id) {
            Some(k) => if k == kind {
                self.session.submit_approval_decision(id, decision)
            } else {
                Err(ApprovalError::NotFound)
            },
            None => Err(ApprovalError::NotFound),
        }
    }

    /// Decides a held command approval of a conversation; any other id is
    /// not found.
    pub fn respond_exec_approval(&mut self, id: &RequestId, decision: Decision) -> (r: Result<Message, ApprovalError>)
        requires
            old(self).session.wf(),
        ensures
            final(self).session.wf(),
            held_as(old(self).session@, id@, ApprovalKind::ExecCommand) ==> match r {
                Ok(m) => answers(m, id@, ApprovalKind::ExecCommand, decision) && final(self).session@ == (SessionView {
                    approvals: old(self).session@.approvals.remove(id@),
                    ..old(self).session@
                }),
                Err(_) => false,
            },
            !held_as(old(self).session@, id@, ApprovalKind::ExecCommand) ==> r == Err::<Message, ApprovalError>(
                ApprovalError::NotFound,
            ) && final(self).session@ == old(self).session@,
    {
        self.respond_of_kind(ApprovalKind::ExecCommand, id, decision)
    }

    /// Decides a held patch approval of a conversation; any other id is not
    /// found.
    pub fn respond_patch_approval(&mut self, id: &RequestId, decision: Decision) -> (r: Result<Message, ApprovalError>)
        requires
            old(self).session.wf(),
        ensures
            final(self).session.wf(),
            held_as(old(self).session@, id@, ApprovalKind::ApplyPatch) ==> match r {
                Ok(m) => answers(m, id@, ApprovalKind::ApplyPatch, decision) && final(self).session@ == (SessionView {
                    approvals: old(self).session@.approvals.remove(id@),
                    ..old(self).session@
                }),
                Err(_) => false,
            },
            !held_as(old(self).session@, id@, ApprovalKind::ApplyPatch) ==> r == Err::<Message, ApprovalError>(
                ApprovalError::NotFound,
            ) && final(self).session@ == old(self).session@,
    {
        self.respond_of_kind(ApprovalKind::ApplyPatch, id, decision)
    }

    /// Applies a person's answer to the held permission request it names.
    pub fn respond_to_approval(&mut self, response: &ApprovalResponse) -> (r: Result<Message, ApprovalError>)
        requires
            old(self).session.wf(),
        ensures
            final(self).session.wf(),
            final(self).initialized == old(self).initialized,
            ({
                let k = IdKey::Text(response.request_id@);
                &&& old(self).session@.approvals.contains_key(k) ==> match r {
                    Ok(m) => answers(m, k, old(self).session@.approvals[k], decision_of(response.decision))
                        && final(self).session@ == (SessionView {
                            approvals: old(self).session@.approvals.remove(k),
                            ..old(self).session@
                        }),
                    Err(_) => false,
                }
                &&& !old(self).session@.approvals.contains_key(k) ==> r == Err::<Message, ApprovalError>(
                    ApprovalError::NotFound,
                ) && final(self).session@ == old(self).session@
            }),
    {
        let id = response.id();
        let decision = response.decision();
        self.session.submit_approval_decision(&id, decision)
    }
}

} // verus!
