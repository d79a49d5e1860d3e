//! Session engine types: requests, handles, frames, and state.

use vstd::prelude::*;
use crate::ids::{MessageId, SessionId};
use crate::json::{JsonModel, JsonValue};
use crate::text::{clone_strings, strings_view};

verus! {

/// Runtime category that currently blocks a session.
#[derive(Clone, Copy, Debug, PartialEq, Eq, Structural)]
pub enum SessionBlockedKind {
    /// Waiting on a permission reply.
    Permission,
    /// Waiting on a question reply/reject.
    Question,
}

/// Runtime occupancy exposed to server handlers.
#[derive(Debug)]
pub enum SessionRuntimeStatus {
    /// No active run currently leased for this session.
    Idle,
    /// A run is currently active for this session.
    Busy,
    /// Session is paused waiting for user input.
    Blocked {
        /// Which interactive runtime owns the pending request.
        kind: SessionBlockedKind,
        /// Correlation id for the pending request.
        request_id: String,
    },
}

/// View of a runtime status.
pub enum StatusModel {
    Idle,
    Busy,
    Blocked { kind: SessionBlockedKind, request_id: Seq<char> },
}

impl View for SessionRuntimeStatus {
    type V = StatusModel;

    open spec fn view(&self) -> StatusModel {
        match self {
            SessionRuntimeStatus::Idle => StatusModel::Idle,
            SessionRuntimeStatus::Busy => StatusModel::Busy,
            SessionRuntimeStatus::Blocked { kind, request_id } => StatusModel::Blocked {
                kind: *kind,
                request_id: request_id@,
            },
        }
    }
}

impl SessionRuntimeStatus {
    /// A copy of the status.
    pub fn copy(&self) -> (r: SessionRuntimeStatus)
        ensures
            r@ == self@,
    {
        match self {
            SessionRuntimeStatus::Idle => SessionRuntimeStatus::Idle,
            SessionRuntimeStatus::Busy => SessionRuntimeStatus::Busy,
            SessionRuntimeStatus::Blocked { kind, request_id } => SessionRuntimeStatus::Blocked {
                kind: *kind,
                request_id: request_id.clone(),
            },
        }
    }
}

/// Optional message+tool call linkage for runtime prompts.
#[derive(Debug, PartialEq, Eq)]
pub struct RuntimeToolCallRef {
    /// Owning message id.
    pub message_id: MessageId,
    /// Tool call correlation id.
    pub call_id: String,
}

/// View of a tool linkage: message id and call id.
pub open spec fn tool_ref_view(t: Option<RuntimeToolCallRef>) -> Option<(MessageId, Seq<char>)> {
    match t {
        Some(t) => Some((t.message_id, t.call_id@)),
        None => None,
    }
}

/// A copy of an optional tool linkage.
pub fn copy_tool_ref(t: &Option<RuntimeToolCallRef>) -> (r: Option<RuntimeToolCallRef>)
    ensures
        tool_ref_view(r) == tool_ref_view(*t),
{
    match t {
        Some(t) => Some(RuntimeToolCallRef { message_id: t.message_id, call_id: t.call_id.clone() }),
        None => None,
    }
}

/// Pending permission request surfaced to server routes and events.
#[derive(Debug, PartialEq)]
pub struct PermissionRequest {
    /// Runtime request id.
    pub id: String,
    /// Session id waiting on this permission.
    pub session_id: SessionId,
    /// Permission name, e.g. `bash`.
    pub permission: String,
    /// Requested permission patterns.
    pub patterns: Vec<String>,
    /// Arbitrary metadata associated with the ask.
    pub metadata: JsonValue,
    /// Patterns that can be persisted when user selects `always`.
    pub always: Vec<String>,
    /// Optional tool linkage.
    pub tool: Option<RuntimeToolCallRef>,
}

/// View of a permission request.
pub struct PermissionRequestModel {
    pub id: Seq<char>,
    pub session_id: SessionId,
    pub permission: Seq<char>,
    pub patterns: Seq<Seq<char>>,
    pub metadata: JsonModel,
    pub always: Seq<Seq<char>>,
    pub tool: Option<(MessageId, Seq<char>)>,
}

impl View for PermissionRequest {
    type V = PermissionRequestModel;

    open spec fn view(&self) -> PermissionRequestModel {
        PermissionRequestModel {
            id: self.id@,
            session_id: self.session_id,
            permission: self.permission@,
            patterns: strings_view(self.patterns@),
            metadata: self.metadata@,
            always: strings_view(self.always@),
            tool: tool_ref_view(self.tool),
        }
    }
}

impl PermissionRequest {
    /// A copy of the request.
    pub fn copy(&self) -> (r: PermissionRequest)
        ensures
            r@ == self@,
    {
        PermissionRequest {
            id: self.id.clone(),
            session_id: self.session_id,
            permission: self.permission.clone(),
            patterns: clone_strings(&self.patterns),
            metadata: self.metadata.deep_clone(),
            always: clone_strings(&self.always),
            tool: copy_tool_ref(&self.tool),
        }
    }
}

/// Client reply mode for a pending permission request.
#[derive(Clone, Copy, Debug, PartialEq, Eq, Structural)]
pub enum PermissionReplyKind {
    /// Approve this request once.
    Once,
    /// Approve and persist for future matching requests.
    Always,
    /// Reject the request.
    Reject,
}

/// Reply payload submitted by clients for permission asks.
#[derive(Debug, PartialEq, Eq)]
pub struct PermissionReply {
    /// Session id owning the pending request.
    pub session_id: SessionId,
    /// Permission request id.
    pub request_id: String,
    /// Reply behavior.
    pub reply: PermissionReplyKind,
}

/// Multiple-choice option for runtime questions.
#[derive(Debug, PartialEq, Eq)]
pub struct QuestionOption {
    /// Display label for the option.
    pub label: String,
    /// Human-readable option description.
    pub description: String,
}

/// Runtime question descriptor shown to clients.
#[derive(Debug, PartialEq, Eq)]
pub struct QuestionInfo {
    /// Complete user-visible question.
    pub question: String,
    /// Short prompt header.
    pub header: String,
    /// Available options.
    pub options: Vec<QuestionOption>,
    /// Whether multiple options can be selected.
    pub multiple: Option<bool>,
    /// Whether custom free-form answers are allowed.
    pub custom: Option<bool>,
}

/// View of a question option.
pub open spec fn option_view(o: QuestionOption) -> (Seq<char>, Seq<char>) {
    (o.label@, o.description@)
}

/// View of a question descriptor.
pub struct QuestionInfoModel {
    pub question: Seq<char>,
    pub header: Seq<char>,
    pub options: Seq<(Seq<char>, Seq<char>)>,
    pub multiple: Option<bool>,
    pub custom: Option<bool>,
}

impl View for QuestionInfo {
    type V = QuestionInfoModel;

    open spec fn view(&self) -> QuestionInfoModel {
        QuestionInfoModel {
            question: self.question@,
            header: self.header@,
            options: self.options@.map_values(|o: QuestionOption| option_view(o)),
            multiple: self.multiple,
            custom: self.custom,
        }
    }
}

/// Views of a list of question descriptors.
pub open spec fn infos_view(v: Seq<QuestionInfo>) -> Seq<QuestionInfoModel> {
    v.map_values(|q: QuestionInfo| q@)
}

impl QuestionInfo {
    /// A copy of the descriptor.
    pub fn copy(&self) -> (r: QuestionInfo)
        ensures
            r@ == self@,
    {
        let mut options: Vec<QuestionOption> = Vec::new();
        let mut i: usize = 0;
        while i < self.options.len()
            invariant
                i <= self.options.len(),
                options@.map_values(|o: QuestionOption| option_view(o)) == self.options@.take(
                    i as int,
                ).map_values(|o: QuestionOption| option_view(o)),
            decreases self.options.len() - i,
        {
            let o = QuestionOption {
                label: self.options[i].label.clone(),
                description: self.options[i].description.clone(),
            };
            let ghost before = options@;
            options.push(o);
            assert(options@.map_values(|o: QuestionOption| option_view(o)) =~= before.map_values(
                |o: QuestionOption| option_view(o),
            ).push(option_view(self.options@[i as int])));
            assert(self.options@.take(i + 1).map_values(|o: QuestionOption| option_view(o))
                =~= self.options@.take(i as int).map_values(|o: QuestionOption| option_view(o)).push(
                option_view(self.options@[i as int]),
            ));
            i = i + 1;
        }
        assert(self.options@.take(self.options.len() as int) =~= self.options@);
        QuestionInfo {
            question: self.question.clone(),
            header: self.header.clone(),
            options,
            multiple: self.multiple,
            custom: self.custom,
        }
    }
}

/// A copy of a list of question descriptors.
pub fn copy_infos(v: &Vec<QuestionInfo>) -> (r: Vec<QuestionInfo>)
    ensures
        infos_view(r@) == infos_view(v@),
{
    let mut out: Vec<QuestionInfo> = Vec::new();
    let mut i: usize = 0;
    while i < v.len()
        invariant
            i <= v.len(),
            infos_view(out@) == infos_view(v@.take(i as int)),
        decreases v.len() - i,
    {
        let q = v[i].copy();
        let ghost before = out@;
        out.push(q);
        assert(infos_view(out@) =~= infos_view(before).push(v@[i as int]@));
        assert(infos_view(v@.take(i + 1)) =~= infos_view(v@.take(i as int)).push(v@[i as int]@));
        i = i + 1;
    }
    assert(v@.take(v.len() as int) =~= v@);
    out
}

/// Pending runtime question request surfaced to server routes and events.
#[derive(Debug, PartialEq, Eq)]
pub struct QuestionRequest {
    /// Runtime request id.
    pub id: String,
    /// Session id waiting on this question.
    pub session_id: SessionId,
    /// Ordered questions for the user.
    pub questions: Vec<QuestionInfo>,
    /// Optional tool linkage.
    pub tool: Option<RuntimeToolCallRef>,
}

/// View of a question request.
pub struct QuestionRequestModel {
    pub id: Seq<char>,
    pub session_id: SessionId,
    pub questions: Seq<QuestionInfoModel>,
    pub tool: Option<(MessageId, Seq<char>)>,
}

impl View for QuestionRequest {
    type V = QuestionRequestModel;

    open spec fn view(&self) -> QuestionRequestModel {
        QuestionRequestModel {
            id: self.id@,
            session_id: self.session_id,
            questions: infos_view(self.questions@),
            tool: tool_ref_view(self.tool),
        }
    }
}

impl QuestionRequest {
    /// A copy of the request.
    pub fn copy(&self) -> (r: QuestionRequest)
        ensures
            r@ == self@,
    {
        QuestionRequest {
            id: self.id.clone(),
            session_id: self.session_id,
            questions: copy_infos(&self.questions),
            tool: copy_tool_ref(&self.tool),
        }
    }
}

/// Client reply payload for a pending question request.
#[derive(Debug, PartialEq, Eq)]
pub struct QuestionReply {
    /// Session id owning the pending question.
    pub session_id: SessionId,
    /// Question request id.
    pub request_id: String,
    /// Answers in the same order as `QuestionRequest::questions`.
    pub answers: Vec<Vec<String>>,
}

/// A request to begin a new prompt turn in a session.
#[derive(Debug)]
pub struct SessionPrompt {
    /// Session to prompt into.
    pub session_id: SessionId,
    /// User message text.
    pub text: String,
    /// Optional model override for this turn.
    pub model: Option<String>,
    /// Run in plan-only mode (no write tools).
    pub plan_mode: bool,
}

/// An opaque handle returned when a prompt is submitted.
#[derive(Debug)]
pub struct SessionHandle {
    /// The session this handle belongs to.
    pub session_id: SessionId,
    /// Assistant message id allocated for this turn, when available.
    pub assistant_message_id: Option<MessageId>,
    /// Optional model actually selected for this turn.
    pub resolved_model: Option<String>,
}

/// Detached prompt acceptance metadata returned immediately to HTTP callers.
#[derive(Debug)]
pub struct DetachedPromptAccepted {
    /// Session that accepted detached execution.
    pub session_id: SessionId,
    /// Assistant message id allocated for this turn when available.
    pub assistant_message_id: Option<MessageId>,
    /// Optional resolved model selected for this run.
    pub resolved_model: Option<String>,
}

impl From<SessionHandle> for DetachedPromptAccepted {
    fn from(handle: SessionHandle) -> (r: Self) {
        DetachedPromptAccepted {
            session_id: handle.session_id,
            assistant_message_id: handle.assistant_message_id,
            resolved_model: handle.resolved_model,
        }
    }
}

impl vstd::std_specs::convert::FromSpecImpl<SessionHandle> for DetachedPromptAccepted {
    open spec fn obeys_from_spec() -> bool {
        true
    }

    open spec fn from_spec(handle: SessionHandle) -> Self {
        DetachedPromptAccepted {
            session_id: handle.session_id,
            assistant_message_id: handle.assistant_message_id,
            resolved_model: handle.resolved_model,
        }
    }
}

impl SessionHandle {
    /// Create a new handle with empty metadata.
    pub fn new(session_id: SessionId) -> (r: Self)
        ensures
            r.session_id == session_id,
            r.assistant_message_id is None,
            r.resolved_model is None,
    {
        SessionHandle { session_id, assistant_message_id: None, resolved_model: None }
    }

    /// Attach assistant message id metadata.
    pub fn with_assistant_message_id(self, message_id: MessageId) -> (r: Self)
        ensures
            r.session_id == self.session_id,
            r.assistant_message_id == Some(message_id),
            r.resolved_model == self.resolved_model,
    {
        SessionHandle { assistant_message_id: Some(message_id), ..self }
    }

    /// Attach resolved model metadata.
    pub fn with_resolved_model(self, model: String) -> (r: Self)
        ensures
            r.session_id == self.session_id,
            r.assistant_message_id == self.assistant_message_id,
            r.resolved_model == Some(model),
    {
        SessionHandle { resolved_model: Some(model), ..self }
    }
}

/// A streamed frame of output from the agent loop.
#[derive(Debug)]
pub enum SessionFrame {
    /// A text delta from the LLM.
    TextDelta {
        /// The appended text.
        delta: String,
    },
    /// A tool call was dispatched.
    ToolCall {
        /// Tool name.
        tool: String,
        /// Correlation id.
        call_id: String,
    },
    /// A tool call completed.
    ToolResult {
        /// Correlation id.
        call_id: String,
        /// Whether it succeeded.
        ok: bool,
    },
    /// The turn is complete.
    Done {
        /// Total input tokens used in this turn.
        input_tokens: u32,
        /// Total output tokens generated in this turn.
        output_tokens: u32,
    },
}

} // verus!
