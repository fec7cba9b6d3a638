//! Server requests that ask permission: which are decided by a fixed rule
//! and which wait for a person, and the answer that each decision makes.
use vstd::prelude::*;
use vstd::string::StringExecFns;
use crate::json::{Json, from_value, to_value};
use codex_app_server_protocol::{
    ApplyPatchApprovalResponse, ApprovalDecision, CommandExecutionRequestAcceptSettings,
    CommandExecutionRequestApprovalResponse, ExecCommandApprovalResponse, FileChangeRequestApprovalResponse,
    JSONRPCRequest, ServerRequest,
};
use codex_protocol::protocol::ReviewDecision;
use crate::message::{IdKey, RequestId, id_text};

verus! {

/// A decision on a request for permission.
#[derive(PartialEq, Eq, Structural, Clone, Copy, Debug)]
pub enum Decision {
    Approved,
    ApprovedForSession,
    Denied,
    Abort,
}

/// The kinds of permission request that the subprocess sends. Each has its
/// own answer shape.
#[derive(PartialEq, Eq, Structural, Clone, Copy, Debug)]
pub enum ApprovalKind {
    /// A command inside a turn; answered with `decision` and
    /// `acceptSettings`.
    CommandExecution,
    /// A file change inside a turn; answered with `decision`.
    FileChange,
    /// A command in a conversation; answered with a review decision.
    ExecCommand,
    /// A patch in a conversation; answered with a review decision.
    ApplyPatch,
}

/// The method under which the protocol sends each kind of request.
pub open spec fn kind_method(kind: ApprovalKind) -> Seq<char> {
    match kind {
        ApprovalKind::CommandExecution => "item/commandExecution/requestApproval"@,
        ApprovalKind::FileChange => "item/fileChange/requestApproval"@,
        ApprovalKind::ExecCommand => "execCommandApproval"@,
        ApprovalKind::ApplyPatch => "applyPatchApproval"@,
    }
}

fn method_of(kind: ApprovalKind) -> (r: &'static str)
    ensures
        r@ == kind_method(kind),
{
    match kind {
        ApprovalKind::CommandExecution => "item/commandExecution/requestApproval",
        ApprovalKind::FileChange => "item/fileChange/requestApproval",
        ApprovalKind::ExecCommand => "execCommandApproval",
        ApprovalKind::ApplyPatch => "applyPatchApproval",
    }
}

/// The kind of permission request that the server's request types read
/// from an id, a method and parameters; nothing when they do not read.
pub uninterp spec fn server_request_kind(id: IdKey, method: Seq<char>, params: Json) -> Option<ApprovalKind>;

/// Relies on `ServerRequest::try_from(JSONRPCRequest)`: reads the request,
/// parameters included, as one of the server's permission requests.
#[verifier::external_body]
fn read_server_request(id: &RequestId, method: &str, params: &Json) -> (r: Option<ApprovalKind>)
    ensures
        r == server_request_kind(id@, method@, *params),
{
    let id = match id {
        RequestId::Text(s) => codex_app_server_protocol::RequestId::String(s.clone()),
        RequestId::Integer(i) => codex_app_server_protocol::RequestId::Integer(*i),
    };
    match ServerRequest::try_from(JSONRPCRequest { id, method: method.to_string(), params: Some(to_value(params)) }) {
        Ok(ServerRequest::CommandExecutionRequestApproval { .. }) => Some(ApprovalKind::CommandExecution),
        Ok(ServerRequest::FileChangeRequestApproval { .. }) => Some(ApprovalKind::FileChange),
        Ok(ServerRequest::ExecCommandApproval { .. }) => Some(ApprovalKind::ExecCommand),
        Ok(ServerRequest::ApplyPatchApproval { .. }) => Some(ApprovalKind::ApplyPatch),
        Err(_) => None,
    }
}

/// The parameters of request `id` read as a request of kind `kind`.
pub open spec fn reads_as(kind: ApprovalKind, id: IdKey, params: Json) -> bool {
    server_request_kind(id, kind_method(kind), params) == Some(kind)
}

/// Whether the parameters of request `id` read as a request of kind `kind`,
/// as the protocol's types read them under that kind's method.
pub fn params_read_as(kind: ApprovalKind, id: &RequestId, params: &Json) -> (r: bool)
    ensures
        r == reads_as(kind, id@, *params),
{
    match read_server_request(id, method_of(kind), params) {
        Some(k) => k == kind,
        None => false,
    }
}

/// How a kind of request is decided.
#[derive(PartialEq, Eq, Structural, Clone, Copy, Debug)]
pub enum Handling {
    /// Answered at once with this decision.
    Fixed(Decision),
    /// Held until a decision is submitted or abandoned.
    Ask,
}

/// One line of the policy table: requests with this method are of this
/// kind and handled so.
pub struct PolicyRule {
    pub method: String,
    pub kind: ApprovalKind,
    pub handling: Handling,
}

/// The table that says how each kind of permission request is decided.
pub struct ApprovalPolicy {
    pub rules: Vec<PolicyRule>,
}

/// The first rule for `method`.
pub open spec fn rule_for(rules: Seq<PolicyRule>, method: Seq<char>) -> Option<(ApprovalKind, Handling)>
    decreases rules.len(),
{
    if rules.len() == 0 {
        None
    } else if rules[0].method@ == method {
        Some((rules[0].kind, rules[0].handling))
    } else {
        rule_for(rules.drop_first(), method)
    }
}

/// The standard table: each kind under its protocol method, requests
/// inside a turn approved at once, requests in a conversation asked.
pub open spec fn standard_rules(rules: Seq<PolicyRule>) -> bool {
    &&& rules.len() == 4
    &&& rules[0].method@ == kind_method(ApprovalKind::CommandExecution)
    &&& rules[0].kind == ApprovalKind::CommandExecution
    &&& rules[0].handling == Handling::Fixed(Decision::Approved)
    &&& rules[1].method@ == kind_method(ApprovalKind::FileChange)
    &&& rules[1].kind == ApprovalKind::FileChange
    &&& rules[1].handling == Handling::Fixed(Decision::Approved)
    &&& rules[2].method@ == kind_method(ApprovalKind::ExecCommand)
    &&& rules[2].kind == ApprovalKind::ExecCommand
    &&& rules[2].handling == Handling::Ask
    &&& rules[3].method@ == kind_method(ApprovalKind::ApplyPatch)
    &&& rules[3].kind == ApprovalKind::ApplyPatch
    &&& rules[3].handling == Handling::Ask
}

impl ApprovalPolicy {
    pub open spec fn rule(self, method: Seq<char>) -> Option<(ApprovalKind, Handling)> {
        rule_for(self.rules@, method)
    }

    /// The rule for a method, if the table has one.
    pub fn lookup(&self, method: &String) -> (r: Option<(ApprovalKind, Handling)>)
        ensures
            r == self.rule(method@),
    {
        let mut i: usize = 0;
        assert(self.rules@.subrange(0, self.rules@.len() as int) =~= self.rules@);
        while i < self.rules.len()
            invariant
                i <= self.rules@.len(),
                self.rule(method@) == rule_for(self.rules@.subrange(i as int, self.rules@.len() as int), method@),
            decreases self.rules@.len() - i,
        {
            let ghost rest = self.rules@.subrange(i as int, self.rules@.len() as int);
            assert(rest.drop_first() =~= self.rules@.subrange(i + 1, self.rules@.len() as int));
            assert(rest[0] == self.rules@[i as int]);
            if self.rules[i].method == *method {
                return Some((self.rules[i].kind, self.rules[i].handling));
            }
            i = i + 1;
        }
        assert(self.rules@.subrange(i as int, self.rules@.len() as int) =~= Seq::<PolicyRule>::empty());
        None
    }

    /// The table this client runs with: requests inside a turn are
    /// approved at once, requests in a conversation wait for a person.
    pub fn standard() -> (r: ApprovalPolicy)
        ensures
            standard_rules(r.rules@),
    {
        let mut rules: Vec<PolicyRule> = Vec::new();
        rules.push(PolicyRule {
            method: String::from_str("item/commandExecution/requestApproval"),
            kind: ApprovalKind::CommandExecution,
            handling: Handling::Fixed(Decision::Approved),
        });
        rules.push(PolicyRule {
            method: String::from_str("item/fileChange/requestApproval"),
            kind: ApprovalKind::FileChange,
            handling: Handling::Fixed(Decision::Approved),
        });
        rules.push(PolicyRule {
            method: String::from_str("execCommandApproval"),
            kind: ApprovalKind::ExecCommand,
            handling: Handling::Ask,
        });
        rules.push(PolicyRule {
            method: String::from_str("applyPatchApproval"),
            kind: ApprovalKind::ApplyPatch,
            handling: Handling::Ask,
        });
        ApprovalPolicy { rules }
    }
}


/// A decision in the form that requests inside a turn are answered with.
#[derive(PartialEq, Eq, Structural, Clone, Copy, Debug)]
pub enum TurnDecision {
    Accept,
    Decline,
    Cancel,
}

/// How a decision is answered to a request inside a turn: approving for the
/// session is an acceptance that says so in its settings.
pub open spec fn turn_decision(d: Decision) -> TurnDecision {
    match d {
        Decision::Approved | Decision::ApprovedForSession => TurnDecision::Accept,
        Decision::Denied => TurnDecision::Decline,
        Decision::Abort => TurnDecision::Cancel,
    }
}

/// The wire word of a review decision.
pub open spec fn review_word(d: Decision) -> Seq<char> {
    match d {
        Decision::Approved => "approved"@,
        Decision::ApprovedForSession => "approved_for_session"@,
        Decision::Denied => "denied"@,
        Decision::Abort => "abort"@,
    }
}

/// The wire word of a decision inside a turn.
pub open spec fn turn_word(t: TurnDecision) -> Seq<char> {
    match t {
        TurnDecision::Accept => "accept"@,
        TurnDecision::Decline => "decline"@,
        TurnDecision::Cancel => "cancel"@,
    }
}

/// The number of members of an object.
pub open spec fn object_size(j: Json) -> nat {
    match j {
        Json::Object(fields) => fields@.len(),
        _ => 0,
    }
}

/// `j` is an object whose one member `decision` holds `word`.
pub open spec fn decision_object(j: Json, word: Seq<char>) -> bool {
    &&& j is Object
    &&& object_size(j) == 1
    &&& j.text_field("decision"@) == Some(word)
}

/// Relies on `serde_json::to_value` of `ExecCommandApprovalResponse`: its one
/// field `decision` is written as the snake_case name of the review decision.
#[verifier::external_body]
fn exec_command_answer(d: Decision) -> (r: Json)
    ensures
        decision_object(r, review_word(d)),
{
    let decision = match d {
        Decision::Approved => ReviewDecision::Approved,
        Decision::ApprovedForSession => ReviewDecision::ApprovedForSession,
        Decision::Denied => ReviewDecision::Denied,
        Decision::Abort => ReviewDecision::Abort,
    };
    from_value(serde_json::to_value(ExecCommandApprovalResponse { decision }).unwrap_or_default())
}

/// Relies on `serde_json::to_value` of `ApplyPatchApprovalResponse`: its one
/// field `decision` is written as the snake_case name of the review decision.
#[verifier::external_body]
fn apply_patch_answer(d: Decision) -> (r: Json)
    ensures
        decision_object(r, review_word(d)),
{
    let decision = match d {
        Decision::Approved => ReviewDecision::Approved,
        Decision::ApprovedForSession => ReviewDecision::ApprovedForSession,
        Decision::Denied => ReviewDecision::Denied,
        Decision::Abort => ReviewDecision::Abort,
    };
    from_value(serde_json::to_value(ApplyPatchApprovalResponse { decision }).unwrap_or_default())
}

/// Relies on `serde_json::to_value` of `FileChangeRequestApprovalResponse`:
/// its one field `decision` is written as the camelCase name of the decision.
#[verifier::external_body]
fn file_change_answer(t: TurnDecision) -> (r: Json)
    ensures
        decision_object(r, turn_word(t)),
{
    let decision = match t {
        TurnDecision::Accept => ApprovalDecision::Accept,
        TurnDecision::Decline => ApprovalDecision::Decline,
        TurnDecision::Cancel => ApprovalDecision::Cancel,
    };
    from_value(serde_json::to_value(FileChangeRequestApprovalResponse { decision }).unwrap_or_default())
}

/// `j` is the answer to a command inside a turn: `decision`, and
/// `acceptSettings` that is null or holds `forSession`.
pub open spec fn command_object(j: Json, t: TurnDecision, for_session: Option<bool>) -> bool {
    &&& j is Object
    &&& object_size(j) == 2
    &&& j.text_field("decision"@) == Some(turn_word(t))
    &&& match for_session {
        None => j.field("acceptSettings"@) == Some(Json::Null),
        Some(b) => match j.field("acceptSettings"@) {
            Some(settings) => settings is Object && object_size(settings) == 1
                && settings.field("forSession"@) == Some(Json::Bool(b)),
            None => false,
        },
    }
}

/// Relies on `serde_json::to_value` of `CommandExecutionRequestApprovalResponse`:
/// fields `decision` and `acceptSettings` (null when absent, else an object
/// with `forSession`), in camelCase.
#[verifier::external_body]
fn command_execution_answer(t: TurnDecision, for_session: Option<bool>) -> (r: Json)
    ensures
        command_object(r, t, for_session),
{
    let decision = match t {
        TurnDecision::Accept => ApprovalDecision::Accept,
        TurnDecision::Decline => ApprovalDecision::Decline,
        TurnDecision::Cancel => ApprovalDecision::Cancel,
    };
    let accept_settings = for_session.map(|b| CommandExecutionRequestAcceptSettings { for_session: b });
    let response = CommandExecutionRequestApprovalResponse { decision, accept_settings };
    from_value(serde_json::to_value(response).unwrap_or_default())
}

/// The `acceptSettings` that an answer to a command inside a turn carries:
/// present on acceptance only.
pub open spec fn session_setting(d: Decision) -> Option<bool> {
    match d {
        Decision::Approved => Some(false),
        Decision::ApprovedForSession => Some(true),
        _ => None,
    }
}

/// `j` is the result that answers a request of kind `kind` with decision `d`.
pub open spec fn is_answer(kind: ApprovalKind, d: Decision, j: Json) -> bool {
    match kind {
        ApprovalKind::CommandExecution => command_object(j, turn_decision(d), session_setting(d)),
        ApprovalKind::FileChange => decision_object(j, turn_word(turn_decision(d))),
        ApprovalKind::ExecCommand | ApprovalKind::ApplyPatch => decision_object(j, review_word(d)),
    }
}

/// The result that answers a request of kind `kind` with decision `d`.
pub fn answer(kind: ApprovalKind, d: Decision) -> (r: Json)
    ensures
        is_answer(kind, d, r),
{
    let t = match d {
        Decision::Approved | Decision::ApprovedForSession => TurnDecision::Accept,
        Decision::Denied => TurnDecision::Decline,
        Decision::Abort => TurnDecision::Cancel,
    };
    match kind {
        ApprovalKind::CommandExecution => {
            let settings = match d {
                Decision::Approved => Some(false),
                Decision::ApprovedForSession => Some(true),
                _ => None,
            };
            command_execution_answer(t, settings)
        },
        ApprovalKind::FileChange => file_change_answer(t),
        ApprovalKind::ExecCommand => exec_command_answer(d),
        ApprovalKind::ApplyPatch => apply_patch_answer(d),
    }
}


/// What a permission request asks, by kind.
pub enum ApprovalRequestKind {
    /// A command to run, with the amendment to the execution policy that the
    /// agent proposes, if any.
    CommandExecution { proposed_execpolicy_amendment: Option<Vec<String>> },
    /// Files to change, with the root under which writes are asked for.
    FileChange { grant_root: Option<String> },
}

/// A permission request as it is handed to the person who decides it.
pub struct ApprovalRequest {
    pub request_id: String,
    pub thread_id: String,
    pub turn_id: String,
    pub item_id: String,
    pub reason: Option<String>,
    pub kind: ApprovalRequestKind,
}

/// The text of the string member `key`, or the empty text.
pub open spec fn text_or_empty(params: Json, key: Seq<char>) -> Seq<char> {
    match params.text_field(key) {
        Some(t) => t,
        None => Seq::empty(),
    }
}

/// The texts of an array of strings.
pub open spec fn texts_of(value: Json) -> Option<Seq<Seq<char>>> {
    match value {
        Json::Array(items) => if forall|i: int| 0 <= i < items@.len() ==> (#[trigger] items@[i]) is Str {
            Some(items@.map_values(|x: Json| x->Str_0@))
        } else {
            None
        },
        _ => None,
    }
}

/// Requests inside a turn name thread, turn and item; requests in a
/// conversation name the conversation and a call.
pub open spec fn in_turn(kind: ApprovalKind) -> bool {
    kind == ApprovalKind::CommandExecution || kind == ApprovalKind::FileChange
}

pub open spec fn thread_key(kind: ApprovalKind) -> Seq<char> {
    if in_turn(kind) { "threadId"@ } else { "conversationId"@ }
}

pub open spec fn item_key(kind: ApprovalKind) -> Seq<char> {
    if in_turn(kind) { "itemId"@ } else { "callId"@ }
}

/// The member that holds a command request's proposed command.
pub open spec fn command_key(kind: ApprovalKind) -> Seq<char> {
    if in_turn(kind) { "proposedExecpolicyAmendment"@ } else { "command"@ }
}

pub open spec fn opt_text(o: Option<String>) -> Option<Seq<char>> {
    match o {
        Some(s) => Some(s@),
        None => None,
    }
}

pub open spec fn opt_texts(o: Option<Vec<String>>) -> Option<Seq<Seq<char>>> {
    match o {
        Some(v) => Some(v@.map_values(|s: String| s@)),
        None => None,
    }
}

/// The request handed to a person for an inbound request `id` of kind
/// `kind` with parameters `params`.
pub open spec fn describes(r: ApprovalRequest, id: IdKey, kind: ApprovalKind, params: Json) -> bool {
    &&& r.request_id@ == id_text(id)
    &&& r.thread_id@ == text_or_empty(params, thread_key(kind))
    &&& r.turn_id@ == (if in_turn(kind) { text_or_empty(params, "turnId"@) } else { Seq::empty() })
    &&& r.item_id@ == text_or_empty(params, item_key(kind))
    &&& opt_text(r.reason) == params.text_field("reason"@)
    &&& match r.kind {
        ApprovalRequestKind::CommandExecution { proposed_execpolicy_amendment } => {
            &&& (kind == ApprovalKind::CommandExecution || kind == ApprovalKind::ExecCommand)
            &&& opt_texts(proposed_execpolicy_amendment) == match params.field(command_key(kind)) {
                Some(v) => texts_of(v),
                None => None,
            }
        },
        ApprovalRequestKind::FileChange { grant_root } => {
            &&& (kind == ApprovalKind::FileChange || kind == ApprovalKind::ApplyPatch)
            &&& opt_text(grant_root) == params.text_field("grantRoot"@)
        },
    }
}

/// The texts of an array of strings.
#[verifier::loop_isolation(false)]
pub fn texts_from_json(value: &Json) -> (r: Option<Vec<String>>)
    ensures
        opt_texts(r) == texts_of(*value),
{
    match value {
        Json::Array(items) => {
            let mut out: Vec<String> = Vec::new();
            let mut i: usize = 0;
            while i < items.len()
                invariant
                    i <= items@.len(),
                    out@.len() == i,
                    forall|j: int| 0 <= j < i ==> (#[trigger] items@[j]) is Str && out@[j]@ == items@[j]->Str_0@,
                decreases items@.len() - i,
            {
                match &items[i] {
                    Json::Str(t) => out.push(t.clone()),
                    _ => {
                        assert(!(items@[i as int] is Str));
                        return None;
                    },
                }
                i = i + 1;
            }
            assert(out@.map_values(|s: String| s@) =~= items@.map_values(|x: Json| x->Str_0@));
            Some(out)
        },
        _ => None,
    }
}

fn text_member(params: &Json, key: &str) -> (r: String)
    ensures
        r@ == text_or_empty(*params, key@),
{
    match params.get_text(key) {
        Some(t) => t.clone(),
        None => String::new(),
    }
}

fn optional_text(params: &Json, key: &str) -> (r: Option<String>)
    ensures
        opt_text(r) == params.text_field(key@),
{
    match params.get_text(key) {
        Some(t) => Some(t.clone()),
        None => None,
    }
}

/// Builds the request handed to a person for an inbound permission request.
pub fn approval_request(id: &RequestId, kind: ApprovalKind, params: &Json) -> (r: ApprovalRequest)
    ensures
        describes(r, id@, kind, *params),
{
    let turn = matches!(kind, ApprovalKind::CommandExecution | ApprovalKind::FileChange);
    let thread_id = if turn { text_member(params, "threadId") } else { text_member(params, "conversationId") };
    let turn_id = if turn { text_member(params, "turnId") } else { String::new() };
    let item_id = if turn { text_member(params, "itemId") } else { text_member(params, "callId") };
    let reason = optional_text(params, "reason");
    let detail = match kind {
        ApprovalKind::CommandExecution | ApprovalKind::ExecCommand => {
            let member = if turn { params.get("proposedExecpolicyAmendment") } else { params.get("command") };
            let proposed = match member {
                Some(v) => texts_from_json(v),
                None => None,
            };
            ApprovalRequestKind::CommandExecution { proposed_execpolicy_amendment: proposed }
        },
        ApprovalKind::FileChange | ApprovalKind::ApplyPatch => {
            ApprovalRequestKind::FileChange { grant_root: optional_text(params, "grantRoot") }
        },
    };
    ApprovalRequest { request_id: id.text(), thread_id, turn_id, item_id, reason, kind: detail }
}

} // verus!
