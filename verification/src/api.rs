//! What the gateway answers: a status and a body for every outcome of the engine.
//!
//! Nothing here speaks HTTP. A `Reply` names the status by its number and holds the body as
//! plain values, for a transport to send as it sees fit.

use vstd::prelude::*;
use vstd::string::StringExecFns;
use crate::gate::Decision;
use crate::protocol::{ProtocolDescriptor, ProtocolDescriptorView};
use crate::report::RejectionReason;
use crate::store::ComplianceStore;

verus! {

/// The request was carried out.
pub const STATUS_OK: u16 = 200;

/// The request is well formed and its content falls short.
pub const STATUS_BAD_REQUEST: u16 = 400;

/// The sender may not do what it asked for.
pub const STATUS_FORBIDDEN: u16 = 403;

/// The sender has to report before it goes on.
pub const STATUS_TOO_MANY_REQUESTS: u16 = 429;

/// The body of every answer.
#[derive(Debug, Clone)]
pub struct ApiResponse {
    pub ok: bool,
    pub error: Option<String>,
    pub message: Option<String>,
}

/// A body as the contracts see it.
pub struct ApiResponseView {
    pub ok: bool,
    pub error: Option<Seq<char>>,
    pub message: Option<Seq<char>>,
}

/// The view of a text that may be absent.
pub open spec fn text_of(text: Option<String>) -> Option<Seq<char>> {
    match text {
        Some(text) => Some(text@),
        None => None,
    }
}

impl View for ApiResponse {
    type V = ApiResponseView;

    open spec fn view(&self) -> ApiResponseView {
        ApiResponseView {
            ok: self.ok,
            error: text_of(self.error),
            message: text_of(self.message),
        }
    }
}

impl ApiResponseView {
    /// The body of a success that has nothing to add.
    pub open spec fn success() -> ApiResponseView {
        ApiResponseView { ok: true, error: None, message: None }
    }

    /// The body of a success that says `message`.
    pub open spec fn success_with_message(message: Seq<char>) -> ApiResponseView {
        ApiResponseView { ok: true, error: None, message: Some(message) }
    }

    /// The body of a failure for the reason `error`.
    pub open spec fn error(error: Seq<char>) -> ApiResponseView {
        ApiResponseView { ok: false, error: Some(error), message: None }
    }
}

impl ApiResponse {
    /// The body of a success that has nothing to add.
    pub fn success() -> (body: ApiResponse)
        ensures
            body@ == ApiResponseView::success(),
    {
        ApiResponse { ok: true, error: None, message: None }
    }

    /// The body of a success that says `msg`.
    pub fn success_with_message(msg: &str) -> (body: ApiResponse)
        ensures
            body@ == ApiResponseView::success_with_message(msg@),
    {
        ApiResponse { ok: true, error: None, message: Some(String::from_str(msg)) }
    }

    /// The body of a failure for the reason `msg`.
    pub fn error(msg: &str) -> (body: ApiResponse)
        ensures
            body@ == ApiResponseView::error(msg@),
    {
        ApiResponse { ok: false, error: Some(String::from_str(msg)), message: None }
    }
}

/// An answer: a status and a body.
#[derive(Debug, Clone)]
pub struct Reply {
    pub status: u16,
    pub body: ApiResponse,
}

/// An answer as the contracts see it.
pub struct ReplyView {
    pub status: u16,
    pub body: ApiResponseView,
}

impl View for Reply {
    type V = ReplyView;

    open spec fn view(&self) -> ReplyView {
        ReplyView { status: self.status, body: self.body@ }
    }
}

/// An agent's request to register one protocol.
#[derive(Debug, Clone)]
pub struct RegisterProtocolRequest {
    pub agent_id: String,
    pub protocol: ProtocolDescriptor,
}

/// A registration as the contracts see it.
pub struct RegisterProtocolRequestView {
    pub agent_id: Seq<char>,
    pub protocol: ProtocolDescriptorView,
}

impl View for RegisterProtocolRequest {
    type V = RegisterProtocolRequestView;

    open spec fn view(&self) -> RegisterProtocolRequestView {
        RegisterProtocolRequestView { agent_id: self.agent_id@, protocol: self.protocol@ }
    }
}

/// The answer to a question after the gateway's health.
pub open spec fn health_answer() -> ReplyView {
    ReplyView {
        status: STATUS_OK,
        body: ApiResponseView::success_with_message("Gateway operational"@),
    }
}

/// The answer to a registration.
pub open spec fn registration_answer() -> ReplyView {
    ReplyView { status: STATUS_OK, body: ApiResponseView::success() }
}

/// The answer that tells a sender of the engine's `decision`.
pub open spec fn decision_answer(decision: Decision) -> ReplyView {
    match decision {
        Decision::Allow => ReplyView { status: STATUS_OK, body: ApiResponseView::success() },
        Decision::RejectMissingProtocol => ReplyView {
            status: STATUS_FORBIDDEN,
            body: ApiResponseView::error("Novel language requires protocol declaration"@),
        },
        Decision::RejectUnregistered => ReplyView {
            status: STATUS_FORBIDDEN,
            body: ApiResponseView::error("Protocol not registered"@),
        },
        Decision::RejectOverdue => ReplyView {
            status: STATUS_TOO_MANY_REQUESTS,
            body: ApiResponseView::error(
                "Report overdue: submit English report to continue novel-language messaging"@,
            ),
        },
    }
}

/// The words that tell of a coverage `actual` below the minimum `required`, both as the
/// caller chose to show them.
pub open spec fn coverage_error(actual: Seq<char>, required: Seq<char>) -> Seq<char> {
    "Coverage "@ + actual + " below minimum "@ + required
}

/// The answer that tells an author of the validator's `verdict`. `actual` and `required`
/// show the report's coverage and the minimum; they are read for a coverage too low only.
pub open spec fn verdict_answer(
    verdict: Result<(), RejectionReason>,
    actual: Seq<char>,
    required: Seq<char>,
) -> ReplyView {
    match verdict {
        Ok(_) => ReplyView { status: STATUS_OK, body: ApiResponseView::success() },
        Err(RejectionReason::ProtocolNotRegistered) => ReplyView {
            status: STATUS_FORBIDDEN,
            body: ApiResponseView::error("Protocol not registered"@),
        },
        Err(RejectionReason::CoverageTooLow { .. }) => ReplyView {
            status: STATUS_BAD_REQUEST,
            body: ApiResponseView::error(coverage_error(actual, required)),
        },
        Err(RejectionReason::SummaryTooShort) => ReplyView {
            status: STATUS_BAD_REQUEST,
            body: ApiResponseView::error("English summary must be at least 30 characters"@),
        },
    }
}

/// Answers a question after the gateway's health.
pub fn health() -> (reply: Reply)
    ensures
        reply@ == health_answer(),
{
    Reply { status: STATUS_OK, body: ApiResponse::success_with_message("Gateway operational") }
}

/// Registers the protocol of `request` for its agent, and answers. A registration never
/// fails: a protocol key that the agent had registered before gets the new descriptor.
pub fn register_protocol_for_agent(store: &mut ComplianceStore, request: RegisterProtocolRequest) -> (reply:
    Reply)
    requires
        old(store).wf(),
    ensures
        final(store).wf(),
        final(store)@ == old(store)@.register(request@.agent_id, request@.protocol),
        reply@ == registration_answer(),
{
    store.register(request.agent_id.as_str(), request.protocol);
    Reply { status: STATUS_OK, body: ApiResponse::success() }
}

/// Answers a sender with the engine's `decision`.
pub fn decision_reply(decision: Decision) -> (reply: Reply)
    ensures
        reply@ == decision_answer(decision),
{
    match decision {
        Decision::Allow => Reply { status: STATUS_OK, body: ApiResponse::success() },
        Decision::RejectMissingProtocol => Reply {
            status: STATUS_FORBIDDEN,
            body: ApiResponse::error("Novel language requires protocol declaration"),
        },
        Decision::RejectUnregistered => Reply {
            status: STATUS_FORBIDDEN,
            body: ApiResponse::error("Protocol not registered"),
        },
        Decision::RejectOverdue => Reply {
            status: STATUS_TOO_MANY_REQUESTS,
            body: ApiResponse::error(
                "Report overdue: submit English report to continue novel-language messaging",
            ),
        },
    }
}

/// Answers an author with the validator's `verdict`. `actual` and `required` show the
/// report's coverage and the minimum, in the form that the answer is to quote.
pub fn verdict_reply(verdict: &Result<(), RejectionReason>, actual: &str, required: &str) -> (reply:
    Reply)
    ensures
        reply@ == verdict_answer(*verdict, actual@, required@),
{
    match verdict {
        Ok(_) => Reply { status: STATUS_OK, body: ApiResponse::success() },
        Err(RejectionReason::ProtocolNotRegistered) => Reply {
            status: STATUS_FORBIDDEN,
            body: ApiResponse::error("Protocol not registered"),
        },
        Err(RejectionReason::CoverageTooLow { .. }) => {
            let mut words = String::from_str("Coverage ");
            words.append(actual);
            words.append(" below minimum ");
            words.append(required);
            Reply { status: STATUS_BAD_REQUEST, body: ApiResponse::error(words.as_str()) }
        },
        Err(RejectionReason::SummaryTooShort) => Reply {
            status: STATUS_BAD_REQUEST,
            body: ApiResponse::error("English summary must be at least 30 characters"),
        },
    }
}

} // verus!
