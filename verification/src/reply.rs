//! The loop that answers a conversation: what the agent does next, given what
//! the provider, the tools and the session store reported.
use crate::base::{self, Duplicate, Same};
use crate::extension_manager_extension::MANAGE_EXTENSIONS_TOOL_NAME;
use crate::fresh;
use crate::message::{
    Message, MessageContentView, MessageView, Role, ToolResponse, ToolResponseView,
};
use crate::permission_judge::{PermissionCheckResult, PermissionCheckView};
use crate::text;
use crate::tool::{
    self, ToolCall, ToolCallView, ToolRequest, ToolRequestView, ToolResult,
};
use vstd::prelude::*;
use vstd::string::*;

verus! {

/// What the agent reports to whoever listens to a reply.
#[derive(Debug, PartialEq)]
pub enum AgentEvent {
    Message(Message),
    /// A notification of an extension: the request that it belongs to, and the
    /// number under which the caller keeps it.
    McpNotification(String, u64),
    ModelChange { model: String, mode: String },
    HistoryReplaced(Vec<Message>),
}

pub enum AgentEventView {
    Message(MessageView),
    McpNotification(Seq<char>, u64),
    ModelChange { model: Seq<char>, mode: Seq<char> },
    HistoryReplaced(Seq<MessageView>),
}

impl DeepView for AgentEvent {
    type V = AgentEventView;

    open spec fn deep_view(&self) -> AgentEventView {
        match self {
            AgentEvent::Message(m) => AgentEventView::Message(m.deep_view()),
            AgentEvent::McpNotification(id, h) => AgentEventView::McpNotification(id@, *h),
            AgentEvent::ModelChange { model, mode } => AgentEventView::ModelChange {
                model: model@,
                mode: mode@,
            },
            AgentEvent::HistoryReplaced(c) => AgentEventView::HistoryReplaced(c.deep_view()),
        }
    }
}

/// The requests of a response, sorted by who executes them, and the response
/// as it is shown.
#[derive(Debug, PartialEq)]
pub struct ToolCategorizeResult {
    pub frontend_requests: Vec<ToolRequest>,
    pub remaining_requests: Vec<ToolRequest>,
    pub filtered_response: Message,
}

pub struct ToolCategorizeView {
    pub frontend_requests: Seq<ToolRequestView>,
    pub remaining_requests: Seq<ToolRequestView>,
    pub filtered_response: MessageView,
}

impl DeepView for ToolCategorizeResult {
    type V = ToolCategorizeView;

    open spec fn deep_view(&self) -> ToolCategorizeView {
        ToolCategorizeView {
            frontend_requests: self.frontend_requests.deep_view(),
            remaining_requests: self.remaining_requests.deep_view(),
            filtered_response: self.filtered_response.deep_view(),
        }
    }
}

/// Where a recipe asks for a final output: whether the tool exists, and
/// whether it has been called.
#[derive(Debug, PartialEq)]
pub enum FinalOutput {
    NoTool,
    Pending,
    Ready(String),
}

pub enum FinalOutputView {
    NoTool,
    Pending,
    Ready(Seq<char>),
}

impl DeepView for FinalOutput {
    type V = FinalOutputView;

    open spec fn deep_view(&self) -> FinalOutputView {
        match self {
            FinalOutput::NoTool => FinalOutputView::NoTool,
            FinalOutput::Pending => FinalOutputView::Pending,
            FinalOutput::Ready(s) => FinalOutputView::Ready(s@),
        }
    }
}

/// The outcome of the retry logic.
#[derive(Debug, Clone, Copy, PartialEq, Eq, Structural)]
pub enum RetryResult {
    Skipped,
    MaxAttemptsReached,
    SuccessChecksPassed,
    Retried,
}

/// Fixed texts of a reply.
#[derive(Debug, PartialEq)]
pub struct ReplyTexts {
    /// Answer to a tool request that the user declined.
    pub declined: String,
    /// Answer to a tool request in chat mode.
    pub chat_skipped: String,
    /// Reminder to call the final output tool.
    pub final_output_continuation: String,
}

pub struct ReplyTextsView {
    pub declined: Seq<char>,
    pub chat_skipped: Seq<char>,
    pub final_output_continuation: Seq<char>,
}

impl DeepView for ReplyTexts {
    type V = ReplyTextsView;

    open spec fn deep_view(&self) -> ReplyTextsView {
        ReplyTextsView {
            declined: self.declined@,
            chat_skipped: self.chat_skipped@,
            final_output_continuation: self.final_output_continuation@,
        }
    }
}

/// One item of the provider's stream.
#[derive(Debug, PartialEq)]
pub enum StreamItem {
    /// Part of an answer: the two models of a lead-worker provider, the model
    /// that the usage names, and a message.
    Reply {
        lead_worker: Option<(String, String)>,
        usage_model: Option<String>,
        response: Option<Message>,
    },
    ContextLengthExceeded,
    Error(String),
}

pub enum StreamItemView {
    Reply {
        lead_worker: Option<(Seq<char>, Seq<char>)>,
        usage_model: Option<Seq<char>>,
        response: Option<MessageView>,
    },
    ContextLengthExceeded,
    Error(Seq<char>),
}

impl DeepView for StreamItem {
    type V = StreamItemView;

    open spec fn deep_view(&self) -> StreamItemView {
        match self {
            StreamItem::Reply { lead_worker, usage_model, response } => StreamItemView::Reply {
                lead_worker: lead_worker.deep_view(),
                usage_model: usage_model.deep_view(),
                response: response.deep_view(),
            },
            StreamItem::ContextLengthExceeded => StreamItemView::ContextLengthExceeded,
            StreamItem::Error(e) => StreamItemView::Error(e@),
        }
    }
}

/// One item of a running tool call.
#[derive(Debug, PartialEq)]
pub enum ToolStreamItem {
    Message(u64),
    Result(ToolResult),
}

pub enum ToolStreamItemView {
    Message(u64),
    Result(Result<Seq<tool::ContentView>, tool::ErrorDataView>),
}

impl DeepView for ToolStreamItem {
    type V = ToolStreamItemView;

    open spec fn deep_view(&self) -> ToolStreamItemView {
        match self {
            ToolStreamItem::Message(h) => ToolStreamItemView::Message(*h),
            ToolStreamItem::Result(r) => ToolStreamItemView::Result(tool::tool_result_view(*r)),
        }
    }
}

/// What the outside reports to the loop.
#[derive(Debug, PartialEq)]
pub enum ReplyEvent {
    TurnChecked { cancelled: bool, final_output: FinalOutput },
    /// The role and the model that the agent switched to, if it did.
    SwitchChecked(Option<(String, String)>),
    StreamOpened,
    StreamItem { cancelled: bool, item: StreamItem },
    StreamEnded,
    /// What was asked for has been done.
    Done,
    /// What was asked for failed, and the reply fails with it.
    Failed,
    Categorized(ToolCategorizeResult),
    FrontendMessage(Message),
    FrontendDone(Vec<ToolResponse>),
    Inspected(Option<PermissionCheckResult>),
    ApprovalMessage(Message),
    ApprovalDone(Vec<ToolResponse>),
    ToolItem { cancelled: bool, request_id: String, output: ToolStreamItem },
    ToolItemsEnded,
    Compacted(Vec<Message>),
    CompactionFailed(String),
    FinalOutputChecked(FinalOutput),
    RetryDone { result: RetryResult, conversation: Vec<Message> },
    RetryFailed { error: String, conversation: Vec<Message> },
}

pub enum ReplyEventView {
    TurnChecked { cancelled: bool, final_output: FinalOutputView },
    SwitchChecked(Option<(Seq<char>, Seq<char>)>),
    StreamOpened,
    StreamItem { cancelled: bool, item: StreamItemView },
    StreamEnded,
    Done,
    Failed,
    Categorized(ToolCategorizeView),
    FrontendMessage(MessageView),
    FrontendDone(Seq<ToolResponseView>),
    Inspected(Option<PermissionCheckView>),
    ApprovalMessage(MessageView),
    ApprovalDone(Seq<ToolResponseView>),
    ToolItem { cancelled: bool, request_id: Seq<char>, output: ToolStreamItemView },
    ToolItemsEnded,
    Compacted(Seq<MessageView>),
    CompactionFailed(Seq<char>),
    FinalOutputChecked(FinalOutputView),
    RetryDone { result: RetryResult, conversation: Seq<MessageView> },
    RetryFailed { error: Seq<char>, conversation: Seq<MessageView> },
}

impl DeepView for ReplyEvent {
    type V = ReplyEventView;

    open spec fn deep_view(&self) -> ReplyEventView {
        match self {
            ReplyEvent::TurnChecked { cancelled, final_output } => ReplyEventView::TurnChecked {
                cancelled: *cancelled,
                final_output: final_output.deep_view(),
            },
            ReplyEvent::SwitchChecked(s) => ReplyEventView::SwitchChecked(s.deep_view()),
            ReplyEvent::StreamOpened => ReplyEventView::StreamOpened,
            ReplyEvent::StreamItem { cancelled, item } => ReplyEventView::StreamItem {
                cancelled: *cancelled,
                item: item.deep_view(),
            },
            ReplyEvent::StreamEnded => ReplyEventView::StreamEnded,
            ReplyEvent::Done => ReplyEventView::Done,
            ReplyEvent::Failed => ReplyEventView::Failed,
            ReplyEvent::Categorized(c) => ReplyEventView::Categorized(c.deep_view()),
            ReplyEvent::FrontendMessage(m) => ReplyEventView::FrontendMessage(m.deep_view()),
            ReplyEvent::FrontendDone(a) => ReplyEventView::FrontendDone(a.deep_view()),
            ReplyEvent::Inspected(p) => ReplyEventView::Inspected(p.deep_view()),
            ReplyEvent::ApprovalMessage(m) => ReplyEventView::ApprovalMessage(m.deep_view()),
            ReplyEvent::ApprovalDone(a) => ReplyEventView::ApprovalDone(a.deep_view()),
            ReplyEvent::ToolItem { cancelled, request_id, output } => ReplyEventView::ToolItem {
                cancelled: *cancelled,
                request_id: request_id@,
                output: output.deep_view(),
            },
            ReplyEvent::ToolItemsEnded => ReplyEventView::ToolItemsEnded,
            ReplyEvent::Compacted(c) => ReplyEventView::Compacted(c.deep_view()),
            ReplyEvent::CompactionFailed(e) => ReplyEventView::CompactionFailed(e@),
            ReplyEvent::FinalOutputChecked(f) => ReplyEventView::FinalOutputChecked(f.deep_view()),
            ReplyEvent::RetryDone { result, conversation } => ReplyEventView::RetryDone {
                result: *result,
                conversation: conversation.deep_view(),
            },
            ReplyEvent::RetryFailed { error, conversation } => ReplyEventView::RetryFailed {
                error: error@,
                conversation: conversation.deep_view(),
            },
        }
    }
}

/// What the loop asks the outside to do. Of a list of actions, all are
/// performed in order, and the last one is answered by an event.
#[derive(Debug, PartialEq)]
pub enum ReplyAction {
    Yield(AgentEvent),
    CheckTurn,
    CheckSwitch,
    OpenStream,
    NextItem,
    RecordUsage,
    Categorize(Message),
    RecordToolRequests(Vec<ToolRequest>),
    RunFrontendTools(Vec<ToolRequest>),
    InspectTools(Vec<ToolRequest>),
    Dispatch { request_id: String, call: ToolCall },
    RequestApproval(Vec<ToolRequest>),
    NextToolItem,
    SaveExtensionState,
    Compact,
    StoreConversation(Vec<Message>),
    PrepareTools,
    CheckFinalOutput,
    Retry,
    AddMessages(Vec<Message>),
    Fail,
    Stop,
}

pub enum ReplyActionView {
    Yield(AgentEventView),
    CheckTurn,
    CheckSwitch,
    OpenStream,
    NextItem,
    RecordUsage,
    Categorize(MessageView),
    RecordToolRequests(Seq<ToolRequestView>),
    RunFrontendTools(Seq<ToolRequestView>),
    InspectTools(Seq<ToolRequestView>),
    Dispatch { request_id: Seq<char>, call: ToolCallView },
    RequestApproval(Seq<ToolRequestView>),
    NextToolItem,
    SaveExtensionState,
    Compact,
    StoreConversation(Seq<MessageView>),
    PrepareTools,
    CheckFinalOutput,
    Retry,
    AddMessages(Seq<MessageView>),
    Fail,
    Stop,
}

impl DeepView for ReplyAction {
    type V = ReplyActionView;

    open spec fn deep_view(&self) -> ReplyActionView {
        match self {
            ReplyAction::Yield(e) => ReplyActionView::Yield(e.deep_view()),
            ReplyAction::CheckTurn => ReplyActionView::CheckTurn,
            ReplyAction::CheckSwitch => ReplyActionView::CheckSwitch,
            ReplyAction::OpenStream => ReplyActionView::OpenStream,
            ReplyAction::NextItem => ReplyActionView::NextItem,
            ReplyAction::RecordUsage => ReplyActionView::RecordUsage,
            ReplyAction::Categorize(m) => ReplyActionView::Categorize(m.deep_view()),
            ReplyAction::RecordToolRequests(q) => ReplyActionView::RecordToolRequests(
                q.deep_view(),
            ),
            ReplyAction::RunFrontendTools(q) => ReplyActionView::RunFrontendTools(q.deep_view()),
            ReplyAction::InspectTools(q) => ReplyActionView::InspectTools(q.deep_view()),
            ReplyAction::Dispatch { request_id, call } => ReplyActionView::Dispatch {
                request_id: request_id@,
                call: call.deep_view(),
            },
            ReplyAction::RequestApproval(q) => ReplyActionView::RequestApproval(q.deep_view()),
            ReplyAction::NextToolItem => ReplyActionView::NextToolItem,
            ReplyAction::SaveExtensionState => ReplyActionView::SaveExtensionState,
            ReplyAction::Compact => ReplyActionView::Compact,
            ReplyAction::StoreConversation(c) => ReplyActionView::StoreConversation(c.deep_view()),
            ReplyAction::PrepareTools => ReplyActionView::PrepareTools,
            ReplyAction::CheckFinalOutput => ReplyActionView::CheckFinalOutput,
            ReplyAction::Retry => ReplyActionView::Retry,
            ReplyAction::AddMessages(c) => ReplyActionView::AddMessages(c.deep_view()),
            ReplyAction::Fail => ReplyActionView::Fail,
            ReplyAction::Stop => ReplyActionView::Stop,
        }
    }
}

/// What the loop waits for.
#[derive(Debug, Clone, Copy, PartialEq, Eq, Structural)]
pub enum ReplyPhase {
    TurnStart,
    SwitchCheck,
    StreamOpening,
    Streaming,
    UsageRecording,
    Categorizing,
    FrontendRunning,
    Inspecting,
    Approving,
    ToolsRunning,
    ExtensionSaving,
    Compacting,
    HistoryStoring,
    ToolsPreparing,
    Concluding,
    Retrying,
    Persisting,
    Finished,
}

/// The state of a reply.
#[derive(Debug, PartialEq)]
pub struct ReplyLoop {
    pub has_session: bool,
    pub goose_mode: String,
    pub max_turns: u32,
    pub texts: ReplyTexts,
    pub conversation: Vec<Message>,
    pub turns_taken: u32,
    pub phase: ReplyPhase,
    /// Whether this turn has called no tool so far.
    pub no_tools_called: bool,
    /// Whether this turn has changed the set of tools.
    pub tools_updated: bool,
    /// Whether this turn has compacted the conversation after an overflow.
    pub recovered: bool,
    /// The messages of this turn.
    pub messages_to_add: Vec<Message>,
    /// A message that waits until usage has been recorded.
    pub pending_response: Option<Message>,
    /// The requests that the current response makes of extensions.
    pub remaining: Vec<ToolRequest>,
    /// The answers to the requests of the current response.
    pub tool_message: Message,
    /// Requests that manage extensions.
    pub extension_request_ids: Vec<String>,
    pub installs_succeeded: bool,
    /// Whether the reply ends with this turn.
    pub exit_chat: bool,
}

#[verifier::ext_equal]
pub struct ReplyView {
    pub has_session: bool,
    pub goose_mode: Seq<char>,
    pub max_turns: u32,
    pub texts: ReplyTextsView,
    pub conversation: Seq<MessageView>,
    pub turns_taken: u32,
    pub phase: ReplyPhase,
    pub no_tools_called: bool,
    pub tools_updated: bool,
    pub recovered: bool,
    pub messages_to_add: Seq<MessageView>,
    pub pending_response: Option<MessageView>,
    pub remaining: Seq<ToolRequestView>,
    pub tool_message: MessageView,
    pub extension_request_ids: Seq<Seq<char>>,
    pub installs_succeeded: bool,
    pub exit_chat: bool,
}

impl DeepView for ReplyLoop {
    type V = ReplyView;

    open spec fn deep_view(&self) -> ReplyView {
        ReplyView {
            has_session: self.has_session,
            goose_mode: self.goose_mode@,
            max_turns: self.max_turns,
            texts: self.texts.deep_view(),
            conversation: self.conversation.deep_view(),
            turns_taken: self.turns_taken,
            phase: self.phase,
            no_tools_called: self.no_tools_called,
            tools_updated: self.tools_updated,
            recovered: self.recovered,
            messages_to_add: self.messages_to_add.deep_view(),
            pending_response: self.pending_response.deep_view(),
            remaining: self.remaining.deep_view(),
            tool_message: self.tool_message.deep_view(),
            extension_request_ids: self.extension_request_ids.deep_view(),
            installs_succeeded: self.installs_succeeded,
            exit_chat: self.exit_chat,
        }
    }
}

/// A state and the actions that lead on from it.
pub type ReplyStep = (ReplyView, Seq<ReplyActionView>);

/// What the agent says when it has used up its turns.
pub open spec fn max_turns_text() -> Seq<char> {
    "I've reached the maximum number of actions I can do without user input. Would you like me to continue?"@
}

/// What the agent says when the provider failed.
pub open spec fn provider_error_text(e: Seq<char>) -> Seq<char> {
    "Ran into this error: "@ + e
        + ".\n\nPlease retry if you think this is a transient or recoverable error."@
}

/// What the agent says when the conversation could not be compacted.
pub open spec fn compaction_error_text(e: Seq<char>) -> Seq<char> {
    "Ran into this error trying to compact: "@ + e
        + ".\n\nPlease retry if you think this is a transient or recoverable error."@
}

/// What the agent says when it has compacted the conversation.
pub open spec fn recovered_text() -> Seq<char> {
    "Context limit reached. Conversation has been automatically compacted to continue."@
}

/// Goes to a phase, with an action that is answered in it.
pub open spec fn wait(
    s: ReplyView,
    a: Seq<ReplyActionView>,
    phase: ReplyPhase,
    action: ReplyActionView,
) -> ReplyStep {
    (ReplyView { phase, ..s }, a.push(action))
}

pub open spec fn say(a: Seq<ReplyActionView>, m: MessageView) -> Seq<ReplyActionView> {
    a.push(ReplyActionView::Yield(AgentEventView::Message(m)))
}

pub open spec fn stop(s: ReplyView, a: Seq<ReplyActionView>) -> ReplyStep {
    wait(s, a, ReplyPhase::Finished, ReplyActionView::Stop)
}

pub open spec fn next_item(s: ReplyView, a: Seq<ReplyActionView>) -> ReplyStep {
    wait(s, a, ReplyPhase::Streaming, ReplyActionView::NextItem)
}

/// The start of a turn: nothing more is done once the reply is cancelled, the
/// final output is there, or the turns are used up.
pub open spec fn turn_checked(
    s: ReplyView,
    cancelled: bool,
    final_output: FinalOutputView,
    now: i64,
) -> ReplyStep {
    let none = Seq::<ReplyActionView>::empty();
    if cancelled {
        stop(s, none)
    } else if let FinalOutputView::Ready(t) = final_output {
        stop(s, say(none, MessageView::assistant_text(now, t)))
    } else if s.turns_taken >= s.max_turns {
        stop(s, say(none, MessageView::assistant_text(now, max_turns_text())))
    } else {
        wait(
            ReplyView { turns_taken: (s.turns_taken + 1) as u32, ..s },
            none,
            ReplyPhase::SwitchCheck,
            ReplyActionView::CheckSwitch,
        )
    }
}

/// A switch of the model is reported before the stream is opened.
pub open spec fn switch_checked(
    s: ReplyView,
    switched: Option<(Seq<char>, Seq<char>)>,
) -> ReplyStep {
    let a = match switched {
        Some((role, model)) => seq![
            ReplyActionView::Yield(
                AgentEventView::ModelChange { model, mode: "autopilot:"@ + role },
            ),
        ],
        None => Seq::empty(),
    };
    wait(s, a, ReplyPhase::StreamOpening, ReplyActionView::OpenStream)
}

/// A new stream starts with nothing collected.
pub open spec fn stream_opened(s: ReplyView) -> ReplyStep {
    next_item(
        ReplyView {
            no_tools_called: true,
            tools_updated: false,
            recovered: false,
            messages_to_add: Seq::empty(),
            ..s
        },
        Seq::empty(),
    )
}

/// Which of the two models of a lead-worker provider is at work.
pub open spec fn model_role(active: Seq<char>, lead: Seq<char>, worker: Seq<char>) -> Seq<char> {
    if active == lead {
        "lead"@
    } else if active == worker {
        "worker"@
    } else {
        "unknown"@
    }
}

pub open spec fn model_change(
    lead_worker: Option<(Seq<char>, Seq<char>)>,
    usage_model: Option<Seq<char>>,
) -> Seq<ReplyActionView> {
    match (lead_worker, usage_model) {
        (Some((lead, worker)), Some(model)) => seq![
            ReplyActionView::Yield(
                AgentEventView::ModelChange { model, mode: model_role(model, lead, worker) },
            ),
        ],
        _ => Seq::empty(),
    }
}

/// A message of the provider is kept and its tool requests are sorted.
pub open spec fn respond(
    s: ReplyView,
    a: Seq<ReplyActionView>,
    response: Option<MessageView>,
) -> ReplyStep {
    match response {
        Some(m) => wait(
            ReplyView { messages_to_add: s.messages_to_add.push(m), ..s },
            a,
            ReplyPhase::Categorizing,
            ReplyActionView::Categorize(m),
        ),
        None => next_item(s, a),
    }
}

pub open spec fn stream_item(
    s: ReplyView,
    cancelled: bool,
    item: StreamItemView,
    now: i64,
) -> ReplyStep {
    let none = Seq::<ReplyActionView>::empty();
    if cancelled {
        after_stream(s, none)
    } else {
        match item {
            StreamItemView::Reply { lead_worker, usage_model, response } => {
                let a = model_change(lead_worker, usage_model);
                if s.has_session && usage_model is Some {
                    wait(
                        ReplyView { pending_response: response, ..s },
                        a,
                        ReplyPhase::UsageRecording,
                        ReplyActionView::RecordUsage,
                    )
                } else {
                    respond(s, a, response)
                }
            },
            StreamItemView::ContextLengthExceeded => wait(
                s,
                none,
                ReplyPhase::Compacting,
                ReplyActionView::Compact,
            ),
            StreamItemView::Error(e) => after_stream(
                s,
                say(none, MessageView::assistant_text(now, provider_error_text(e))),
            ),
        }
    }
}

/// All requests are recorded and the response is shown. With no request the
/// stream goes on, otherwise the frontend's tools come first.
pub open spec fn categorized(
    s: ReplyView,
    c: ToolCategorizeView,
    now: i64,
    uuid: Seq<char>,
) -> ReplyStep {
    let a = say(
        seq![ReplyActionView::RecordToolRequests(c.frontend_requests + c.remaining_requests)],
        c.filtered_response,
    );
    if c.frontend_requests.len() == 0 && c.remaining_requests.len() == 0 {
        next_item(s, a)
    } else {
        wait(
            ReplyView {
                remaining: c.remaining_requests,
                tool_message: MessageView {
                    id: Some("msg_"@ + uuid),
                    role: Role::User,
                    created: now,
                    content: Seq::empty(),
                },
                ..s
            },
            a,
            ReplyPhase::FrontendRunning,
            ReplyActionView::RunFrontendTools(c.frontend_requests),
        )
    }
}

/// One answer of the same text for each request.
pub open spec fn answers_with(
    requests: Seq<ToolRequestView>,
    answer: Seq<char>,
) -> Seq<ToolResponseView> {
    requests.map_values(
        |q: ToolRequestView| ToolResponseView { id: q.id, result: tool::text_outcome(answer) },
    )
}

/// In chat mode every remaining request is skipped; otherwise they are
/// inspected.
pub open spec fn frontend_done(s: ReplyView, answers: Seq<ToolResponseView>) -> ReplyStep {
    let answered = s.tool_message.answering_all(answers);
    if s.goose_mode == "chat"@ {
        finish_tools(
            ReplyView {
                tool_message: answered.answering_all(
                    answers_with(s.remaining, s.texts.chat_skipped),
                ),
                ..s
            },
        )
    } else {
        wait(
            ReplyView { tool_message: answered, ..s },
            Seq::empty(),
            ReplyPhase::Inspecting,
            ReplyActionView::InspectTools(s.remaining),
        )
    }
}

/// The ids of the requests that manage extensions.
pub open spec fn managing_ids(requests: Seq<ToolRequestView>) -> Seq<Seq<char>>
    decreases requests.len(),
{
    if requests.len() == 0 {
        Seq::empty()
    } else {
        let rest = managing_ids(requests.drop_last());
        match requests.last().tool_call {
            Ok(call) => if call.name == MANAGE_EXTENSIONS_TOOL_NAME@ {
                rest.push(requests.last().id)
            } else {
                rest
            },
            Err(_) => rest,
        }
    }
}

/// One dispatch for each request that could be read.
pub open spec fn dispatches(requests: Seq<ToolRequestView>) -> Seq<ReplyActionView>
    decreases requests.len(),
{
    if requests.len() == 0 {
        Seq::empty()
    } else {
        let rest = dispatches(requests.drop_last());
        match requests.last().tool_call {
            Ok(call) => rest.push(
                ReplyActionView::Dispatch { request_id: requests.last().id, call },
            ),
            Err(_) => rest,
        }
    }
}

/// Without a verdict every request needs an approval.
pub open spec fn verdict(
    p: Option<PermissionCheckView>,
    remaining: Seq<ToolRequestView>,
) -> PermissionCheckView {
    match p {
        Some(p) => p,
        None => PermissionCheckView {
            approved: Seq::empty(),
            needs_approval: remaining,
            denied: Seq::empty(),
        },
    }
}

/// Approved requests are dispatched, denied ones are answered at once, and the
/// others go to the user.
pub open spec fn inspected(s: ReplyView, p: Option<PermissionCheckView>) -> ReplyStep {
    let v = verdict(p, s.remaining);
    wait(
        ReplyView {
            extension_request_ids: managing_ids(s.remaining),
            tool_message: s.tool_message.answering_all(answers_with(v.denied, s.texts.declined)),
            ..s
        },
        dispatches(v.approved),
        ReplyPhase::Approving,
        ReplyActionView::RequestApproval(v.needs_approval),
    )
}

pub open spec fn approval_done(s: ReplyView, answers: Seq<ToolResponseView>) -> ReplyStep {
    wait(
        ReplyView {
            tool_message: s.tool_message.answering_all(answers),
            installs_succeeded: true,
            ..s
        },
        Seq::empty(),
        ReplyPhase::ToolsRunning,
        ReplyActionView::NextToolItem,
    )
}

pub open spec fn tool_item(
    s: ReplyView,
    cancelled: bool,
    request_id: Seq<char>,
    item: ToolStreamItemView,
) -> ReplyStep {
    if cancelled {
        tools_done(s)
    } else {
        match item {
            ToolStreamItemView::Message(h) => wait(
                s,
                seq![ReplyActionView::Yield(AgentEventView::McpNotification(request_id, h))],
                ReplyPhase::ToolsRunning,
                ReplyActionView::NextToolItem,
            ),
            ToolStreamItemView::Result(r) => wait(
                ReplyView {
                    installs_succeeded: s.installs_succeeded && !(
                    s.extension_request_ids.contains(request_id) && r is Err),
                    tool_message: s.tool_message.answering(request_id, r),
                    ..s
                },
                Seq::empty(),
                ReplyPhase::ToolsRunning,
                ReplyActionView::NextToolItem,
            ),
        }
    }
}

/// The set of tools has changed if extensions were managed and none of those
/// requests failed.
pub open spec fn tools_done(s: ReplyView) -> ReplyStep {
    if s.installs_succeeded && s.extension_request_ids.len() > 0 {
        let changed = ReplyView { tools_updated: true, ..s };
        if s.has_session {
            wait(
                changed,
                Seq::empty(),
                ReplyPhase::ExtensionSaving,
                ReplyActionView::SaveExtensionState,
            )
        } else {
            finish_tools(changed)
        }
    } else {
        finish_tools(s)
    }
}

/// The answers are shown and kept, and the stream goes on.
pub open spec fn finish_tools(s: ReplyView) -> ReplyStep {
    next_item(
        ReplyView {
            no_tools_called: false,
            messages_to_add: s.messages_to_add.push(s.tool_message),
            ..s
        },
        say(Seq::empty(), s.tool_message),
    )
}

pub open spec fn compacted(s: ReplyView, conversation: Seq<MessageView>, now: i64) -> ReplyStep {
    let a = say(Seq::empty(), MessageView::compacted(now, recovered_text())).push(
        ReplyActionView::Yield(AgentEventView::HistoryReplaced(conversation)),
    );
    let replaced = ReplyView { conversation, recovered: true, ..s };
    if s.has_session {
        wait(
            replaced,
            a,
            ReplyPhase::HistoryStoring,
            ReplyActionView::StoreConversation(conversation),
        )
    } else {
        next_item(replaced, a)
    }
}

/// After the stream the tools are prepared anew where they changed.
pub open spec fn after_stream(s: ReplyView, a: Seq<ReplyActionView>) -> ReplyStep {
    if s.tools_updated {
        wait(s, a, ReplyPhase::ToolsPreparing, ReplyActionView::PrepareTools)
    } else {
        conclude(s, a)
    }
}

/// A turn without tools may be the last one.
pub open spec fn conclude(s: ReplyView, a: Seq<ReplyActionView>) -> ReplyStep {
    if s.no_tools_called {
        wait(s, a, ReplyPhase::Concluding, ReplyActionView::CheckFinalOutput)
    } else {
        persist(s, a, false)
    }
}

pub open spec fn final_output_checked(
    s: ReplyView,
    final_output: FinalOutputView,
    now: i64,
) -> ReplyStep {
    let none = Seq::<ReplyActionView>::empty();
    match final_output {
        FinalOutputView::Pending => {
            let m = MessageView::user_text(now, s.texts.final_output_continuation);
            persist(
                ReplyView { messages_to_add: s.messages_to_add.push(m), ..s },
                say(none, m),
                false,
            )
        },
        FinalOutputView::Ready(t) => {
            let m = MessageView::assistant_text(now, t);
            persist(
                ReplyView { messages_to_add: s.messages_to_add.push(m), ..s },
                say(none, m),
                true,
            )
        },
        FinalOutputView::NoTool => if s.recovered {
            persist(s, none, false)
        } else {
            wait(s, none, ReplyPhase::Retrying, ReplyActionView::Retry)
        },
    }
}

/// Whether the loop goes round again after the retry logic.
pub open spec fn retried(result: RetryResult) -> bool {
    result == RetryResult::Retried
}

pub open spec fn persist(s: ReplyView, a: Seq<ReplyActionView>, exit: bool) -> ReplyStep {
    let t = ReplyView { exit_chat: exit, ..s };
    if s.has_session {
        wait(t, a, ReplyPhase::Persisting, ReplyActionView::AddMessages(s.messages_to_add))
    } else {
        close_turn(t, a)
    }
}

/// The messages of the turn join the conversation.
pub open spec fn close_turn(s: ReplyView, a: Seq<ReplyActionView>) -> ReplyStep {
    let t = ReplyView {
        conversation: s.conversation + s.messages_to_add,
        messages_to_add: Seq::empty(),
        ..s
    };
    if s.exit_chat {
        stop(t, a)
    } else {
        wait(t, a, ReplyPhase::TurnStart, ReplyActionView::CheckTurn)
    }
}

pub open spec fn fail(s: ReplyView) -> ReplyStep {
    wait(s, Seq::empty(), ReplyPhase::Finished, ReplyActionView::Fail)
}

/// The step that the loop takes at the time `now`, where `uuid` is a fresh
/// identifier. An event that the phase does not wait for
/// changes nothing.
pub open spec fn reply_step(
    s: ReplyView,
    e: ReplyEventView,
    now: i64,
    uuid: Seq<char>,
) -> ReplyStep {
    let none = Seq::<ReplyActionView>::empty();
    match (s.phase, e) {
        (
            ReplyPhase::TurnStart,
            ReplyEventView::TurnChecked { cancelled, final_output },
        ) => turn_checked(s, cancelled, final_output, now),
        (ReplyPhase::SwitchCheck, ReplyEventView::SwitchChecked(w)) => switch_checked(s, w),
        (ReplyPhase::SwitchCheck, ReplyEventView::Failed) => fail(s),
        (ReplyPhase::StreamOpening, ReplyEventView::StreamOpened) => stream_opened(s),
        (ReplyPhase::StreamOpening, ReplyEventView::Failed) => fail(s),
        (ReplyPhase::Streaming, ReplyEventView::StreamItem { cancelled, item }) => stream_item(
            s,
            cancelled,
            item,
            now,
        ),
        (ReplyPhase::Streaming, ReplyEventView::StreamEnded) => after_stream(s, none),
        (ReplyPhase::Streaming, ReplyEventView::Failed) => fail(s),
        (ReplyPhase::UsageRecording, ReplyEventView::Done) => respond(
            ReplyView { pending_response: None, ..s },
            none,
            s.pending_response,
        ),
        (ReplyPhase::UsageRecording, ReplyEventView::Failed) => fail(s),
        (ReplyPhase::Categorizing, ReplyEventView::Categorized(c)) => categorized(s, c, now, uuid),
        (ReplyPhase::FrontendRunning, ReplyEventView::FrontendMessage(m)) => (s, say(none, m)),
        (ReplyPhase::FrontendRunning, ReplyEventView::FrontendDone(answers)) => frontend_done(
            s,
            answers,
        ),
        (ReplyPhase::FrontendRunning, ReplyEventView::Failed) => fail(s),
        (ReplyPhase::Inspecting, ReplyEventView::Inspected(p)) => inspected(s, p),
        (ReplyPhase::Inspecting, ReplyEventView::Failed) => fail(s),
        (ReplyPhase::Approving, ReplyEventView::ApprovalMessage(m)) => (s, say(none, m)),
        (ReplyPhase::Approving, ReplyEventView::ApprovalDone(answers)) => approval_done(
            s,
            answers,
        ),
        (ReplyPhase::Approving, ReplyEventView::Failed) => fail(s),
        (
            ReplyPhase::ToolsRunning,
            ReplyEventView::ToolItem { cancelled, request_id, output },
        ) => tool_item(s, cancelled, request_id, output),
        (ReplyPhase::ToolsRunning, ReplyEventView::ToolItemsEnded) => tools_done(s),
        (ReplyPhase::ExtensionSaving, ReplyEventView::Done) => finish_tools(s),
        (ReplyPhase::ExtensionSaving, ReplyEventView::Failed) => finish_tools(s),
        (ReplyPhase::Compacting, ReplyEventView::Compacted(c)) => compacted(s, c, now),
        (ReplyPhase::Compacting, ReplyEventView::CompactionFailed(e)) => after_stream(
            s,
            say(none, MessageView::assistant_text(now, compaction_error_text(e))),
        ),
        (ReplyPhase::HistoryStoring, ReplyEventView::Done) => next_item(s, none),
        (ReplyPhase::HistoryStoring, ReplyEventView::Failed) => fail(s),
        (ReplyPhase::ToolsPreparing, ReplyEventView::Done) => conclude(s, none),
        (ReplyPhase::ToolsPreparing, ReplyEventView::Failed) => fail(s),
        (ReplyPhase::Concluding, ReplyEventView::FinalOutputChecked(f)) => final_output_checked(
            s,
            f,
            now,
        ),
        (ReplyPhase::Retrying, ReplyEventView::RetryDone { result, conversation }) => persist(
            ReplyView { conversation, ..s },
            none,
            !retried(result),
        ),
        (ReplyPhase::Retrying, ReplyEventView::RetryFailed { error, conversation }) => persist(
            ReplyView { conversation, ..s },
            say(
                none,
                MessageView::assistant_text(
                    now,
                    "Retry logic encountered an error: "@ + error,
                ),
            ),
            true,
        ),
        (ReplyPhase::Persisting, ReplyEventView::Done) => close_turn(s, none),
        (ReplyPhase::Persisting, ReplyEventView::Failed) => fail(s),
        _ => (s, none),
    }
}

/// One answer of the same text for each request.
fn answers(requests: &Vec<ToolRequest>, answer: &String) -> (r: Vec<ToolResponse>)
    ensures
        r.deep_view() == answers_with(requests.deep_view(), answer@),
{
    let mut out: Vec<ToolResponse> = Vec::new();
    let mut i: usize = 0;
    while i < requests.len()
        invariant
            i <= requests@.len(),
            out.deep_view() == answers_with(requests.deep_view(), answer@).take(i as int),
        decreases requests@.len() - i,
    {
        base::push(
            &mut out,
            ToolResponse {
                id: requests[i].id.clone(),
                result: tool::text_result(answer.clone()),
            },
        );
        assert(out.deep_view() =~= answers_with(requests.deep_view(), answer@).take(i + 1));
        i = i + 1;
    }
    assert(out.deep_view() =~= answers_with(requests.deep_view(), answer@));
    out
}

/// The ids of the requests that manage extensions.
fn ids_of_managing(requests: &Vec<ToolRequest>) -> (r: Vec<String>)
    ensures
        r.deep_view() == managing_ids(requests.deep_view()),
{
    let mut out: Vec<String> = Vec::new();
    let mut i: usize = 0;
    let ghost all = requests.deep_view();
    assert(out.deep_view() =~= managing_ids(all.take(0)));
    while i < requests.len()
        invariant
            i <= requests@.len(),
            all == requests.deep_view(),
            out.deep_view() == managing_ids(all.take(i as int)),
        decreases requests@.len() - i,
    {
        assert(all.take(i + 1).drop_last() =~= all.take(i as int));
        assert(all.take(i + 1).last() == requests@[i as int].deep_view());
        if let Ok(call) = &requests[i].tool_call {
            if text::str_eq(&call.name, MANAGE_EXTENSIONS_TOOL_NAME) {
                base::push(&mut out, requests[i].id.clone());
            }
        }
        i = i + 1;
    }
    assert(all.take(requests@.len() as int) =~= all);
    out
}

/// Adds one dispatch for each request that could be read.
fn dispatch_all(out: &mut Vec<ReplyAction>, requests: &Vec<ToolRequest>)
    requires
        old(out)@.len() == 0,
    ensures
        final(out).deep_view() == dispatches(requests.deep_view()),
{
    let mut i: usize = 0;
    let ghost all = requests.deep_view();
    assert(out.deep_view() =~= dispatches(all.take(0)));
    while i < requests.len()
        invariant
            i <= requests@.len(),
            all == requests.deep_view(),
            out.deep_view() == dispatches(all.take(i as int)),
        decreases requests@.len() - i,
    {
        assert(all.take(i + 1).drop_last() =~= all.take(i as int));
        assert(all.take(i + 1).last() == requests@[i as int].deep_view());
        if let Ok(call) = &requests[i].tool_call {
            base::push(
                out,
                ReplyAction::Dispatch {
                    request_id: requests[i].id.clone(),
                    call: call.duplicate(),
                },
            );
        }
        i = i + 1;
    }
    assert(all.take(requests@.len() as int) =~= all);
}

/// Adds the report of a message.
fn push_message(out: &mut Vec<ReplyAction>, m: Message)
    ensures
        final(out).deep_view() == say(old(out).deep_view(), m.deep_view()),
{
    base::push(out, ReplyAction::Yield(AgentEvent::Message(m)));
}

/// An empty list of actions.
fn no_actions() -> (r: Vec<ReplyAction>)
    ensures
        r@.len() == 0,
        r.deep_view() == Seq::<ReplyActionView>::empty(),
{
    let out: Vec<ReplyAction> = Vec::new();
    assert(out.deep_view() =~= Seq::<ReplyActionView>::empty());
    out
}

impl ReplyLoop {
    /// Goes to a phase, with an action that is answered in it.
    fn wait(&mut self, mut out: Vec<ReplyAction>, phase: ReplyPhase, action: ReplyAction) -> (r:
        Vec<ReplyAction>)
        ensures
            (final(self).deep_view(), r.deep_view()) == wait(
                old(self).deep_view(),
                out.deep_view(),
                phase,
                action.deep_view(),
            ),
    {
        self.phase = phase;
        base::push(&mut out, action);
        out
    }

    fn stop(&mut self, out: Vec<ReplyAction>) -> (r: Vec<ReplyAction>)
        ensures
            (final(self).deep_view(), r.deep_view()) == stop(
                old(self).deep_view(),
                out.deep_view(),
            ),
    {
        self.wait(out, ReplyPhase::Finished, ReplyAction::Stop)
    }

    fn fail(&mut self) -> (r: Vec<ReplyAction>)
        ensures
            (final(self).deep_view(), r.deep_view()) == fail(old(self).deep_view()),
    {
        self.wait(no_actions(), ReplyPhase::Finished, ReplyAction::Fail)
    }

    fn next_item(&mut self, out: Vec<ReplyAction>) -> (r: Vec<ReplyAction>)
        ensures
            (final(self).deep_view(), r.deep_view()) == next_item(
                old(self).deep_view(),
                out.deep_view(),
            ),
    {
        self.wait(out, ReplyPhase::Streaming, ReplyAction::NextItem)
    }

    fn turn_checked(&mut self, cancelled: bool, final_output: FinalOutput, now: i64) -> (r: Vec<
        ReplyAction,
    >)
        ensures
            (final(self).deep_view(), r.deep_view()) == turn_checked(
                old(self).deep_view(),
                cancelled,
                final_output.deep_view(),
                now,
            ),
    {
        let mut out = no_actions();
        if cancelled {
            return self.stop(out);
        }
        if let FinalOutput::Ready(t) = final_output {
            push_message(&mut out, Message::assistant_text(now, t));
            return self.stop(out);
        }
        if self.turns_taken >= self.max_turns {
            let t = text::owned(
                "I've reached the maximum number of actions I can do without user input. Would you like me to continue?",
            );
            push_message(&mut out, Message::assistant_text(now, t));
            return self.stop(out);
        }
        self.turns_taken = self.turns_taken + 1;
        self.wait(out, ReplyPhase::SwitchCheck, ReplyAction::CheckSwitch)
    }

    fn switch_checked(&mut self, switched: Option<(String, String)>) -> (r: Vec<ReplyAction>)
        ensures
            (final(self).deep_view(), r.deep_view()) == switch_checked(
                old(self).deep_view(),
                switched.deep_view(),
            ),
    {
        let mut out = no_actions();
        if let Some((role, model)) = switched {
            let mode = text::cat("autopilot:", &role);
            base::push(&mut out, ReplyAction::Yield(AgentEvent::ModelChange { model, mode }));
            assert(out.deep_view() =~= seq![
                ReplyActionView::Yield(
                    AgentEventView::ModelChange { model: model@, mode: "autopilot:"@ + role@ },
                ),
            ]);
        }
        self.wait(out, ReplyPhase::StreamOpening, ReplyAction::OpenStream)
    }

    fn stream_opened(&mut self) -> (r: Vec<ReplyAction>)
        ensures
            (final(self).deep_view(), r.deep_view()) == stream_opened(old(self).deep_view()),
    {
        self.no_tools_called = true;
        self.tools_updated = false;
        self.recovered = false;
        self.messages_to_add = Vec::new();
        assert(self.messages_to_add.deep_view() =~= Seq::<MessageView>::empty());
        self.next_item(no_actions())
    }

    fn respond(&mut self, out: Vec<ReplyAction>, response: Option<Message>) -> (r: Vec<
        ReplyAction,
    >)
        ensures
            (final(self).deep_view(), r.deep_view()) == respond(
                old(self).deep_view(),
                out.deep_view(),
                response.deep_view(),
            ),
    {
        match response {
            Some(m) => {
                base::push(&mut self.messages_to_add, m.duplicate());
                self.wait(out, ReplyPhase::Categorizing, ReplyAction::Categorize(m))
            },
            None => self.next_item(out),
        }
    }

    fn stream_item(&mut self, cancelled: bool, item: StreamItem, now: i64) -> (r: Vec<ReplyAction>)
        ensures
            (final(self).deep_view(), r.deep_view()) == stream_item(
                old(self).deep_view(),
                cancelled,
                item.deep_view(),
                now,
            ),
    {
        let mut out = no_actions();
        if cancelled {
            return self.after_stream(out);
        }
        match item {
            StreamItem::Reply { lead_worker, usage_model, response } => {
                let has_usage = usage_model.is_some();
                let ghost changes = model_change(lead_worker.deep_view(), usage_model.deep_view());
                if let (Some((lead, worker)), Some(model)) = (lead_worker, usage_model) {
                    let mode = if text::str_eq(&model, &lead) {
                        text::owned("lead")
                    } else if text::str_eq(&model, &worker) {
                        text::owned("worker")
                    } else {
                        text::owned("unknown")
                    };
                    base::push(
                        &mut out,
                        ReplyAction::Yield(AgentEvent::ModelChange { model, mode }),
                    );
                }
                assert(out.deep_view() =~= changes);
                if self.has_session && has_usage {
                    self.pending_response = response;
                    self.wait(out, ReplyPhase::UsageRecording, ReplyAction::RecordUsage)
                } else {
                    self.respond(out, response)
                }
            },
            StreamItem::ContextLengthExceeded => self.wait(
                out,
                ReplyPhase::Compacting,
                ReplyAction::Compact,
            ),
            StreamItem::Error(e) => {
                let t = text::cat3(
                    "Ran into this error: ",
                    &e,
                    ".\n\nPlease retry if you think this is a transient or recoverable error.",
                );
                push_message(&mut out, Message::assistant_text(now, t));
                self.after_stream(out)
            },
        }
    }

    fn categorized(&mut self, c: ToolCategorizeResult, now: i64, uuid: &str) -> (r: Vec<
        ReplyAction,
    >)
        ensures
            (final(self).deep_view(), r.deep_view()) == categorized(
                old(self).deep_view(),
                c.deep_view(),
                now,
                uuid@,
            ),
    {
        let mut out = no_actions();
        let mut all = c.frontend_requests.duplicate();
        base::extend(&mut all, &c.remaining_requests);
        base::push(&mut out, ReplyAction::RecordToolRequests(all));
        assert(out.deep_view() =~= seq![ReplyActionView::RecordToolRequests(all.deep_view())]);
        push_message(&mut out, c.filtered_response);
        if c.frontend_requests.len() == 0 && c.remaining_requests.len() == 0 {
            return self.next_item(out);
        }
        self.remaining = c.remaining_requests;
        let content = Vec::new();
        self.tool_message =
        Message { id: Some(text::cat("msg_", uuid)), role: Role::User, created: now, content };
        assert(self.tool_message.content.deep_view() =~= Seq::<MessageContentView>::empty());
        self.wait(
            out,
            ReplyPhase::FrontendRunning,
            ReplyAction::RunFrontendTools(c.frontend_requests),
        )
    }

    fn frontend_done(&mut self, list: Vec<ToolResponse>) -> (r: Vec<ReplyAction>)
        ensures
            (final(self).deep_view(), r.deep_view()) == frontend_done(
                old(self).deep_view(),
                list.deep_view(),
            ),
    {
        self.tool_message.answer_all(&list);
        if text::str_eq(&self.goose_mode, "chat") {
            let skipped = answers(&self.remaining, &self.texts.chat_skipped);
            self.tool_message.answer_all(&skipped);
            self.finish_tools()
        } else {
            let requests = self.remaining.duplicate();
            self.wait(no_actions(), ReplyPhase::Inspecting, ReplyAction::InspectTools(requests))
        }
    }

    fn inspected(&mut self, p: Option<PermissionCheckResult>) -> (r: Vec<ReplyAction>)
        ensures
            (final(self).deep_view(), r.deep_view()) == inspected(
                old(self).deep_view(),
                p.deep_view(),
            ),
    {
        let v = match p {
            Some(v) => v,
            None => {
                let approved = Vec::new();
                let denied = Vec::new();
                let v = PermissionCheckResult {
                    approved,
                    needs_approval: self.remaining.duplicate(),
                    denied,
                };
                assert(v.approved.deep_view() =~= Seq::<ToolRequestView>::empty());
                assert(v.denied.deep_view() =~= Seq::<ToolRequestView>::empty());
                v
            },
        };
        self.extension_request_ids = ids_of_managing(&self.remaining);
        let declined = answers(&v.denied, &self.texts.declined);
        self.tool_message.answer_all(&declined);
        let mut out = no_actions();
        dispatch_all(&mut out, &v.approved);
        self.wait(out, ReplyPhase::Approving, ReplyAction::RequestApproval(v.needs_approval))
    }

    fn approval_done(&mut self, list: Vec<ToolResponse>) -> (r: Vec<ReplyAction>)
        ensures
            (final(self).deep_view(), r.deep_view()) == approval_done(
                old(self).deep_view(),
                list.deep_view(),
            ),
    {
        self.tool_message.answer_all(&list);
        self.installs_succeeded = true;
        self.wait(no_actions(), ReplyPhase::ToolsRunning, ReplyAction::NextToolItem)
    }

    fn tool_item(&mut self, cancelled: bool, request_id: String, item: ToolStreamItem) -> (r: Vec<
        ReplyAction,
    >)
        ensures
            (final(self).deep_view(), r.deep_view()) == tool_item(
                old(self).deep_view(),
                cancelled,
                request_id@,
                item.deep_view(),
            ),
    {
        if cancelled {
            return self.tools_done();
        }
        let mut out = no_actions();
        match item {
            ToolStreamItem::Message(h) => {
                base::push(
                    &mut out,
                    ReplyAction::Yield(AgentEvent::McpNotification(request_id, h)),
                );
                assert(out.deep_view() =~= seq![
                    ReplyActionView::Yield(AgentEventView::McpNotification(request_id@, h)),
                ]);
            },
            ToolStreamItem::Result(result) => {
                assert(text::texts(self.extension_request_ids@)
                    =~= self.extension_request_ids.deep_view());
                if text::list_contains(&self.extension_request_ids, &request_id)
                    && result.is_err() {
                    self.installs_succeeded = false;
                }
                self.tool_message.answer(request_id, result);
            },
        }
        self.wait(out, ReplyPhase::ToolsRunning, ReplyAction::NextToolItem)
    }

    fn tools_done(&mut self) -> (r: Vec<ReplyAction>)
        ensures
            (final(self).deep_view(), r.deep_view()) == tools_done(old(self).deep_view()),
    {
        if self.installs_succeeded && self.extension_request_ids.len() > 0 {
            self.tools_updated = true;
            if self.has_session {
                return self.wait(
                    no_actions(),
                    ReplyPhase::ExtensionSaving,
                    ReplyAction::SaveExtensionState,
                );
            }
        }
        self.finish_tools()
    }

    fn finish_tools(&mut self) -> (r: Vec<ReplyAction>)
        ensures
            (final(self).deep_view(), r.deep_view()) == finish_tools(old(self).deep_view()),
    {
        let mut out = no_actions();
        push_message(&mut out, self.tool_message.duplicate());
        let kept = self.tool_message.duplicate();
        base::push(&mut self.messages_to_add, kept);
        self.no_tools_called = false;
        self.next_item(out)
    }

    fn compacted(&mut self, conversation: Vec<Message>, now: i64) -> (r: Vec<ReplyAction>)
        ensures
            (final(self).deep_view(), r.deep_view()) == compacted(
                old(self).deep_view(),
                conversation.deep_view(),
                now,
            ),
    {
        let mut out = no_actions();
        let t = text::owned(
            "Context limit reached. Conversation has been automatically compacted to continue.",
        );
        push_message(&mut out, Message::compacted(now, t));
        base::push(
            &mut out,
            ReplyAction::Yield(AgentEvent::HistoryReplaced(conversation.duplicate())),
        );
        self.conversation = conversation;
        self.recovered = true;
        if self.has_session {
            let stored = self.conversation.duplicate();
            self.wait(out, ReplyPhase::HistoryStoring, ReplyAction::StoreConversation(stored))
        } else {
            self.next_item(out)
        }
    }

    fn compaction_failed(&mut self, error: String, now: i64) -> (r: Vec<ReplyAction>)
        ensures
            (final(self).deep_view(), r.deep_view()) == after_stream(
                old(self).deep_view(),
                say(
                    Seq::empty(),
                    MessageView::assistant_text(now, compaction_error_text(error@)),
                ),
            ),
    {
        let mut out = no_actions();
        let t = text::cat3(
            "Ran into this error trying to compact: ",
            &error,
            ".\n\nPlease retry if you think this is a transient or recoverable error.",
        );
        push_message(&mut out, Message::assistant_text(now, t));
        self.after_stream(out)
    }

    fn after_stream(&mut self, out: Vec<ReplyAction>) -> (r: Vec<ReplyAction>)
        ensures
            (final(self).deep_view(), r.deep_view()) == after_stream(
                old(self).deep_view(),
                out.deep_view(),
            ),
    {
        if self.tools_updated {
            self.wait(out, ReplyPhase::ToolsPreparing, ReplyAction::PrepareTools)
        } else {
            self.conclude(out)
        }
    }

    fn conclude(&mut self, out: Vec<ReplyAction>) -> (r: Vec<ReplyAction>)
        ensures
            (final(self).deep_view(), r.deep_view()) == conclude(
                old(self).deep_view(),
                out.deep_view(),
            ),
    {
        if self.no_tools_called {
            self.wait(out, ReplyPhase::Concluding, ReplyAction::CheckFinalOutput)
        } else {
            self.persist(out, false)
        }
    }

    fn final_output_checked(&mut self, final_output: FinalOutput, now: i64) -> (r: Vec<
        ReplyAction,
    >)
        ensures
            (final(self).deep_view(), r.deep_view()) == final_output_checked(
                old(self).deep_view(),
                final_output.deep_view(),
                now,
            ),
    {
        let mut out = no_actions();
        match final_output {
            FinalOutput::Pending => {
                let t = self.texts.final_output_continuation.clone();
                let m = Message::user_text(now, t);
                base::push(&mut self.messages_to_add, m.duplicate());
                push_message(&mut out, m);
                self.persist(out, false)
            },
            FinalOutput::Ready(t) => {
                let m = Message::assistant_text(now, t);
                base::push(&mut self.messages_to_add, m.duplicate());
                push_message(&mut out, m);
                self.persist(out, true)
            },
            FinalOutput::NoTool => {
                if self.recovered {
                    self.persist(out, false)
                } else {
                    self.wait(out, ReplyPhase::Retrying, ReplyAction::Retry)
                }
            },
        }
    }

    fn retry_failed(&mut self, error: String, conversation: Vec<Message>, now: i64) -> (r: Vec<
        ReplyAction,
    >)
        ensures
            (final(self).deep_view(), r.deep_view()) == persist(
                ReplyView { conversation: conversation.deep_view(), ..old(self).deep_view() },
                say(
                    Seq::empty(),
                    MessageView::assistant_text(
                        now,
                        "Retry logic encountered an error: "@ + error@,
                    ),
                ),
                true,
            ),
    {
        let mut out = no_actions();
        let t = text::cat("Retry logic encountered an error: ", &error);
        push_message(&mut out, Message::assistant_text(now, t));
        self.conversation = conversation;
        self.persist(out, true)
    }

    fn persist(&mut self, out: Vec<ReplyAction>, exit: bool) -> (r: Vec<ReplyAction>)
        ensures
            (final(self).deep_view(), r.deep_view()) == persist(
                old(self).deep_view(),
                out.deep_view(),
                exit,
            ),
    {
        self.exit_chat = exit;
        if self.has_session {
            let added = self.messages_to_add.duplicate();
            self.wait(out, ReplyPhase::Persisting, ReplyAction::AddMessages(added))
        } else {
            self.close_turn(out)
        }
    }

    fn close_turn(&mut self, out: Vec<ReplyAction>) -> (r: Vec<ReplyAction>)
        ensures
            (final(self).deep_view(), r.deep_view()) == close_turn(
                old(self).deep_view(),
                out.deep_view(),
            ),
    {
        base::extend(&mut self.conversation, &self.messages_to_add);
        self.messages_to_add = Vec::new();
        assert(self.messages_to_add.deep_view() =~= Seq::<MessageView>::empty());
        if self.exit_chat {
            self.stop(out)
        } else {
            self.wait(out, ReplyPhase::TurnStart, ReplyAction::CheckTurn)
        }
    }

    /// Takes the step that an event leads to, at the time `now`; `uuid` is a
    /// fresh identifier.
    pub fn step(&mut self, event: ReplyEvent, now: i64, uuid: &str) -> (r: Vec<ReplyAction>)
        ensures
            (final(self).deep_view(), r.deep_view()) == reply_step(
                old(self).deep_view(),
                event.deep_view(),
                now,
                uuid@,
            ),
    {
        match (self.phase, event) {
            (ReplyPhase::TurnStart, ReplyEvent::TurnChecked { cancelled, final_output }) => {
                self.turn_checked(cancelled, final_output, now)
            },
            (ReplyPhase::SwitchCheck, ReplyEvent::SwitchChecked(w)) => self.switch_checked(w),
            (ReplyPhase::SwitchCheck, ReplyEvent::Failed) => self.fail(),
            (ReplyPhase::StreamOpening, ReplyEvent::StreamOpened) => self.stream_opened(),
            (ReplyPhase::StreamOpening, ReplyEvent::Failed) => self.fail(),
            (ReplyPhase::Streaming, ReplyEvent::StreamItem { cancelled, item }) => {
                self.stream_item(cancelled, item, now)
            },
            (ReplyPhase::Streaming, ReplyEvent::StreamEnded) => self.after_stream(no_actions()),
            (ReplyPhase::Streaming, ReplyEvent::Failed) => self.fail(),
            (ReplyPhase::UsageRecording, ReplyEvent::Done) => {
                let response = self.pending_response.take();
                self.respond(no_actions(), response)
            },
            (ReplyPhase::UsageRecording, ReplyEvent::Failed) => self.fail(),
            (ReplyPhase::Categorizing, ReplyEvent::Categorized(c)) => {
                self.categorized(c, now, uuid)
            },
            (ReplyPhase::FrontendRunning, ReplyEvent::FrontendMessage(m)) => {
                let mut out = no_actions();
                push_message(&mut out, m);
                out
            },
            (ReplyPhase::FrontendRunning, ReplyEvent::FrontendDone(list)) => {
                self.frontend_done(list)
            },
            (ReplyPhase::FrontendRunning, ReplyEvent::Failed) => self.fail(),
            (ReplyPhase::Inspecting, ReplyEvent::Inspected(p)) => self.inspected(p),
            (ReplyPhase::Inspecting, ReplyEvent::Failed) => self.fail(),
            (ReplyPhase::Approving, ReplyEvent::ApprovalMessage(m)) => {
                let mut out = no_actions();
                push_message(&mut out, m);
                out
            },
            (ReplyPhase::Approving, ReplyEvent::ApprovalDone(list)) => self.approval_done(list),
            (ReplyPhase::Approving, ReplyEvent::Failed) => self.fail(),
            (ReplyPhase::ToolsRunning, ReplyEvent::ToolItem { cancelled, request_id, output }) => {
                self.tool_item(cancelled, request_id, output)
            },
            (ReplyPhase::ToolsRunning, ReplyEvent::ToolItemsEnded) => self.tools_done(),
            (ReplyPhase::ExtensionSaving, ReplyEvent::Done) => self.finish_tools(),
            (ReplyPhase::ExtensionSaving, ReplyEvent::Failed) => self.finish_tools(),
            (ReplyPhase::Compacting, ReplyEvent::Compacted(c)) => self.compacted(c, now),
            (ReplyPhase::Compacting, ReplyEvent::CompactionFailed(e)) => {
                self.compaction_failed(e, now)
            },
            (ReplyPhase::HistoryStoring, ReplyEvent::Done) => self.next_item(no_actions()),
            (ReplyPhase::HistoryStoring, ReplyEvent::Failed) => self.fail(),
            (ReplyPhase::ToolsPreparing, ReplyEvent::Done) => self.conclude(no_actions()),
            (ReplyPhase::ToolsPreparing, ReplyEvent::Failed) => self.fail(),
            (ReplyPhase::Concluding, ReplyEvent::FinalOutputChecked(f)) => {
                self.final_output_checked(f, now)
            },
            (ReplyPhase::Retrying, ReplyEvent::RetryDone { result, conversation }) => {
                self.conversation = conversation;
                let again = should_retry(result);
                self.persist(no_actions(), !again)
            },
            (ReplyPhase::Retrying, ReplyEvent::RetryFailed { error, conversation }) => {
                self.retry_failed(error, conversation, now)
            },
            (ReplyPhase::Persisting, ReplyEvent::Done) => self.close_turn(no_actions()),
            (ReplyPhase::Persisting, ReplyEvent::Failed) => self.fail(),
            _ => no_actions(),
        }
    }
}

/// Whether the loop goes round again after the retry logic.
pub fn should_retry(result: RetryResult) -> (r: bool)
    ensures
        r == retried(result),
{
    match result {
        RetryResult::Retried => true,
        RetryResult::Skipped
        | RetryResult::MaxAttemptsReached
        | RetryResult::SuccessChecksPassed => false,
    }
}

impl ReplyLoop {
    /// Takes the step that an event leads to, with the time and an identifier
    /// of its own.
    pub fn advance(&mut self, event: ReplyEvent) -> (r: Vec<ReplyAction>)
        ensures
            exists|now: i64, uuid: Seq<char>|
                now >= 0 && fresh::uuid_text(uuid) && (final(self).deep_view(), r.deep_view())
                    == #[trigger] reply_step(
                    old(self).deep_view(),
                    event.deep_view(),
                    now,
                    uuid,
                ),
    {
        let now = fresh::now_timestamp();
        let uuid = fresh::new_uuid();
        self.step(event, now, &uuid)
    }

    /// The start of a reply.
    pub fn new(
        has_session: bool,
        goose_mode: String,
        max_turns: u32,
        texts: ReplyTexts,
        conversation: Vec<Message>,
    ) -> (r: Self)
        ensures
            r.deep_view() == reply_start(
                has_session,
                goose_mode@,
                max_turns,
                texts.deep_view(),
                conversation.deep_view(),
            ),
    {
        let messages_to_add = Vec::new();
        let remaining = Vec::new();
        let extension_request_ids = Vec::new();
        let content = Vec::new();
        let r = ReplyLoop {
            has_session,
            goose_mode,
            max_turns,
            texts,
            conversation,
            turns_taken: 0,
            phase: ReplyPhase::TurnStart,
            no_tools_called: true,
            tools_updated: false,
            recovered: false,
            messages_to_add,
            pending_response: None,
            remaining,
            tool_message: Message { id: None, role: Role::User, created: 0, content },
            extension_request_ids,
            installs_succeeded: true,
            exit_chat: false,
        };
        assert(r.deep_view() =~= reply_start(
            has_session,
            goose_mode@,
            max_turns,
            texts.deep_view(),
            conversation.deep_view(),
        ));
        r
    }
}

/// The start of a reply: no turn taken, nothing collected.
pub open spec fn reply_start(
    has_session: bool,
    goose_mode: Seq<char>,
    max_turns: u32,
    texts: ReplyTextsView,
    conversation: Seq<MessageView>,
) -> ReplyView {
    ReplyView {
        has_session,
        goose_mode,
        max_turns,
        texts,
        conversation,
        turns_taken: 0,
        phase: ReplyPhase::TurnStart,
        no_tools_called: true,
        tools_updated: false,
        recovered: false,
        messages_to_add: Seq::empty(),
        pending_response: None,
        remaining: Seq::empty(),
        tool_message: MessageView {
            id: None,
            role: Role::User,
            created: 0,
            content: Seq::empty(),
        },
        extension_request_ids: Seq::empty(),
        installs_succeeded: true,
        exit_chat: false,
    }
}

/// The number of turns where neither the session nor the configuration sets it.
pub const DEFAULT_MAX_TURNS: u32 = 1000;

/// The number of turns that a reply may take: the session's, else the
/// configuration's, else the default.
pub open spec fn turn_limit(session: Option<u32>, config: Option<u32>) -> u32 {
    match (session, config) {
        (Some(n), _) => n,
        (None, Some(n)) => n,
        (None, None) => DEFAULT_MAX_TURNS,
    }
}

/// The number of turns that a reply may take.
pub fn resolve_max_turns(session: Option<u32>, config: Option<u32>) -> (r: u32)
    ensures
        r == turn_limit(session, config),
{
    match session {
        Some(n) => n,
        None => match config {
            Some(n) => n,
            None => DEFAULT_MAX_TURNS,
        },
    }
}

/// The mode of a reply: a session in the foreground chats, one in the
/// background runs by itself, and for any other the configuration decides.
pub open spec fn goose_mode(
    execution_mode: Option<Seq<char>>,
    config_mode: Option<Seq<char>>,
) -> Seq<char> {
    if execution_mode == Some("foreground"@) {
        "chat"@
    } else if execution_mode == Some("background"@) {
        "auto"@
    } else {
        match config_mode {
            Some(m) => m,
            None => "auto"@,
        }
    }
}

/// The mode of a reply, from the session's execution mode and the
/// configuration's `GOOSE_MODE`.
pub fn determine_goose_mode(execution_mode: Option<&str>, config_mode: Option<&str>) -> (r: String)
    ensures
        r@ == goose_mode(execution_mode.deep_view(), config_mode.deep_view()),
{
    if let Some(mode) = execution_mode {
        if text::str_eq(mode, "foreground") {
            return text::owned("chat");
        }
        if text::str_eq(mode, "background") {
            return text::owned("auto");
        }
    }
    match config_mode {
        Some(mode) => text::owned(mode),
        None => text::owned("auto"),
    }
}

/// What is done with the stored conversation before a reply.
#[derive(Debug, PartialEq)]
pub enum SessionSync {
    Keep,
    Append(Message),
    Replace,
}

pub enum SessionSyncView {
    Keep,
    Append(MessageView),
    Replace,
}

impl DeepView for SessionSync {
    type V = SessionSyncView;

    open spec fn deep_view(&self) -> SessionSyncView {
        match self {
            SessionSync::Keep => SessionSyncView::Keep,
            SessionSync::Append(m) => SessionSyncView::Append(m.deep_view()),
            SessionSync::Replace => SessionSyncView::Replace,
        }
    }
}

/// An equal conversation is kept, one with a single new message is extended by
/// it, and any other is replaced.
pub open spec fn session_sync(
    incoming: Seq<MessageView>,
    stored: Seq<MessageView>,
) -> SessionSyncView {
    if incoming == stored {
        SessionSyncView::Keep
    } else if incoming.len() == stored.len() + 1 {
        SessionSyncView::Append(incoming.last())
    } else {
        SessionSyncView::Replace
    }
}

/// What is done with the stored conversation before a reply. A session without
/// a conversation is an error, as which its message comes.
pub fn sync_session(
    session_id: &str,
    incoming: &Vec<Message>,
    stored: Option<&Vec<Message>>,
) -> (r: Result<SessionSync, String>)
    ensures
        match (stored, r) {
            (Some(stored), Ok(sync)) => sync.deep_view() == session_sync(
                incoming.deep_view(),
                stored.deep_view(),
            ),
            (None, Err(e)) => e@ == "Session "@ + session_id@ + " has no conversation"@,
            _ => false,
        },
{
    match stored {
        None => Err(text::cat3("Session ", session_id, " has no conversation")),
        Some(stored) => {
            if incoming.same(stored) {
                return Ok(SessionSync::Keep);
            }
            if stored.len() < incoming.len() && incoming.len() - stored.len() == 1 {
                return Ok(SessionSync::Append(incoming[incoming.len() - 1].duplicate()));
            }
            Ok(SessionSync::Replace)
        },
    }
}

/// How a reply begins.
#[derive(Debug, PartialEq)]
pub enum ReplyOpening {
    /// The events come first, then the conversation is stored where there is a
    /// session, and the reply goes on from it.
    Compacted { events: Vec<AgentEvent>, conversation: Vec<Message> },
    /// The events are all there is.
    Refused { events: Vec<AgentEvent> },
    /// The reply starts with the conversation as it came.
    Plain,
}

pub enum ReplyOpeningView {
    Compacted { events: Seq<AgentEventView>, conversation: Seq<MessageView> },
    Refused { events: Seq<AgentEventView> },
    Plain,
}

impl DeepView for ReplyOpening {
    type V = ReplyOpeningView;

    open spec fn deep_view(&self) -> ReplyOpeningView {
        match self {
            ReplyOpening::Compacted { events, conversation } => ReplyOpeningView::Compacted {
                events: events.deep_view(),
                conversation: conversation.deep_view(),
            },
            ReplyOpening::Refused { events } => ReplyOpeningView::Refused {
                events: events.deep_view(),
            },
            ReplyOpening::Plain => ReplyOpeningView::Plain,
        }
    }
}

/// The outcome of the check whether the conversation has to be compacted: the
/// compacted conversation, none where it was short enough, or an error.
pub open spec fn reply_opening(
    compaction: Result<Option<Seq<MessageView>>, Seq<char>>,
    threshold_percentage: u32,
    now: i64,
) -> ReplyOpeningView {
    match compaction {
        Ok(Some(conversation)) => ReplyOpeningView::Compacted {
            events: seq![
                AgentEventView::Message(
                    MessageView::compacted(
                        now,
                        "Exceeded auto-compact threshold of "@ + text::decimal(
                            threshold_percentage as nat,
                        ) + "%. Context has been summarized and reduced.\n\n"@,
                    ),
                ),
                AgentEventView::HistoryReplaced(conversation),
            ],
            conversation,
        },
        Ok(None) => ReplyOpeningView::Plain,
        Err(e) => ReplyOpeningView::Refused {
            events: seq![
                AgentEventView::Message(
                    MessageView::assistant_text(
                        now,
                        "Ran into this error trying to auto-compact: "@ + e
                            + ".\n\nPlease try again or create a new session"@,
                    ),
                ),
            ],
        },
    }
}

pub open spec fn compaction_view(c: Result<Option<Vec<Message>>, String>) -> Result<
    Option<Seq<MessageView>>,
    Seq<char>,
> {
    match c {
        Ok(m) => Ok(m.deep_view()),
        Err(e) => Err(e@),
    }
}

/// How a reply begins, given the outcome of the check whether the conversation
/// has to be compacted.
pub fn open_reply(
    compaction: Result<Option<Vec<Message>>, String>,
    threshold_percentage: u32,
    now: i64,
) -> (r: ReplyOpening)
    ensures
        r.deep_view() == reply_opening(compaction_view(compaction), threshold_percentage, now),
{
    let mut events: Vec<AgentEvent> = Vec::new();
    match compaction {
        Ok(Some(conversation)) => {
            let t = text::cat3(
                "Exceeded auto-compact threshold of ",
                &text::to_decimal(threshold_percentage as u64),
                "%. Context has been summarized and reduced.\n\n",
            );
            base::push(&mut events, AgentEvent::Message(Message::compacted(now, t)));
            base::push(&mut events, AgentEvent::HistoryReplaced(conversation.duplicate()));
            let r = ReplyOpening::Compacted { events, conversation };
            assert(r.deep_view()->Compacted_events =~= reply_opening(
                compaction_view(compaction),
                threshold_percentage,
                now,
            )->Compacted_events);
            r
        },
        Ok(None) => ReplyOpening::Plain,
        Err(e) => {
            let t = text::cat3(
                "Ran into this error trying to auto-compact: ",
                &e,
                ".\n\nPlease try again or create a new session",
            );
            base::push(&mut events, AgentEvent::Message(Message::assistant_text(now, t)));
            let r = ReplyOpening::Refused { events };
            assert(r.deep_view()->Refused_events =~= reply_opening(
                compaction_view(compaction),
                threshold_percentage,
                now,
            )->Refused_events);
            r
        },
    }
}

} // verus!
