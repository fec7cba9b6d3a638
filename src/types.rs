//! Plain records exchanged with the host application.
use vstd::prelude::*;
use crate::approval::Decision;
use crate::message::RequestId;

verus! {

/// The thread and turn that a started turn runs in.
pub struct TurnHandles {
    pub thread_id: String,
    pub turn_id: String,
}

/// An error as the host application shows it.
pub struct CodexError {
    pub message: String,
}

/// A decision as the host application sends it.
pub enum ApprovalDecisionType {
    Accept,
    AcceptForSession,
    AcceptWithExecpolicyAmendment { execpolicy_amendment: Vec<String> },
    Decline,
    Cancel,
}

/// A person's answer to a permission request.
pub struct ApprovalResponse {
    pub request_id: String,
    pub decision: ApprovalDecisionType,
    /// Whether the request was about a command. The session keeps the kind
    /// of every held request itself, so the answer's shape does not depend
    /// on this flag.
    pub is_command_execution: bool,
}

/// The decision that a decision type stands for. The protocol has no
/// amendment to the execution policy, so accepting with one accepts.
pub open spec fn decision_of(t: ApprovalDecisionType) -> Decision {
    match t {
        ApprovalDecisionType::Accept => Decision::Approved,
        ApprovalDecisionType::AcceptForSession => Decision::ApprovedForSession,
        ApprovalDecisionType::AcceptWithExecpolicyAmendment { .. } => Decision::Approved,
        ApprovalDecisionType::Decline => Decision::Denied,
        ApprovalDecisionType::Cancel => Decision::Abort,
    }
}

impl ApprovalResponse {
    /// The decision this answer makes.
    pub fn decision(&self) -> (r: Decision)
        ensures
            r == decision_of(self.decision),
    {
        match &self.decision {
            ApprovalDecisionType::Accept => Decision::Approved,
            ApprovalDecisionType::AcceptForSession => Decision::ApprovedForSession,
            ApprovalDecisionType::AcceptWithExecpolicyAmendment { .. } => Decision::Approved,
            ApprovalDecisionType::Decline => Decision::Denied,
            ApprovalDecisionType::Cancel => Decision::Abort,
        }
    }

    /// The id of the request this answers; the host names ids by text.
    pub fn id(&self) -> (r: RequestId)
        ensures
            r == RequestId::Text(self.request_id),
    {
        RequestId::Text(self.request_id.clone())
    }
}

/// A prompt for the chat session, with configuration overrides.
pub struct SendRequest {
    pub prompt: String,
    pub config_overrides: Option<Vec<String>>,
}

/// What the chat session answers to a prompt.
pub struct SendResponse {
    pub submission_id: String,
    pub timestamp: String,
}

/// Configuration overrides to keep for the chat session.
pub struct InitRequest {
    pub config_overrides: Option<Vec<String>>,
}

/// Configuration overrides to start the chat session with.
pub struct StartRequest {
    pub config_overrides: Option<Vec<String>>,
}

} // verus!
