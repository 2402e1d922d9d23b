//! What a reply does at each of the turning points of a turn.
use crate::message::{MessageContentView, MessageView, Role, ToolResponseView};
use crate::permission_judge::PermissionCheckView;
use crate::reply::{
    dispatches, goose_mode, managing_ids, reply_opening, reply_step, turn_limit, AgentEventView,
    FinalOutputView, ReplyActionView, ReplyEventView, ReplyOpeningView, ReplyPhase, ReplyStep,
    ReplyView, RetryResult, StreamItemView, ToolCategorizeView, ToolStreamItemView,
};
use crate::reply_turns::text_message;
use crate::text;
use crate::tool::{ContentView, ErrorDataView, ToolRequestView};
use vstd::prelude::*;

verus! {

/// What is shown to the user.
pub open spec fn shows(m: MessageView) -> ReplyActionView {
    ReplyActionView::Yield(AgentEventView::Message(m))
}

/// The step that follows once the messages of a turn are stored, where there is a
/// session to store them in.
pub open spec fn stored(s: ReplyStep, now: i64, uuid: Seq<char>) -> ReplyStep {
    if s.0.has_session {
        reply_step(s.0, ReplyEventView::Done, now, uuid)
    } else {
        s
    }
}

/// A turn that closes: what is shown on the way, the messages that the session
/// stores, the conversation that comes of it, and whether the reply ends there.
pub open spec fn closes(
    step: ReplyStep,
    shown: Seq<ReplyActionView>,
    joins: Seq<MessageView>,
    conversation: Seq<MessageView>,
    ends: bool,
    now: i64,
    uuid: Seq<char>,
) -> bool {
    let last = if ends {
        ReplyActionView::Stop
    } else {
        ReplyActionView::CheckTurn
    };
    let after = stored(step, now, uuid);
    &&& step.0.has_session ==> step.1 == shown.push(ReplyActionView::AddMessages(joins)) && after.1
        == seq![last]
    &&& !step.0.has_session ==> step.1 == shown.push(last)
    &&& after.0.conversation == conversation
    &&& after.0.phase == if ends {
        ReplyPhase::Finished
    } else {
        ReplyPhase::TurnStart
    }
}

/// A final output that is there ends the reply at the next turn: it is shown as a
/// message of the assistant, and the provider is not asked again.
pub proof fn law_ready_output_is_shown(s: ReplyView, t: Seq<char>, now: i64, uuid: Seq<char>)
    requires
        s.phase == ReplyPhase::TurnStart,
    ensures
        ({
            let step = reply_step(
                s,
                ReplyEventView::TurnChecked {
                    cancelled: false,
                    final_output: FinalOutputView::Ready(t),
                },
                now,
                uuid,
            );
            &&& step.1 == seq![
                shows(text_message(Role::Assistant, now, t)),
                ReplyActionView::Stop,
            ]
            &&& step.0.phase == ReplyPhase::Finished
            &&& step.0.conversation == s.conversation
        }),
{
    let step = reply_step(
        s,
        ReplyEventView::TurnChecked { cancelled: false, final_output: FinalOutputView::Ready(t) },
        now,
        uuid,
    );
    assert(step.1 =~= seq![
        shows(text_message(Role::Assistant, now, t)),
        ReplyActionView::Stop,
    ]);
}

/// A turn that is left is taken: the provider is asked, after a word on the model
/// and the role where the model was switched, and its answer is read.
pub proof fn law_turn_asks_the_provider(
    s: ReplyView,
    f: FinalOutputView,
    switched: Option<(Seq<char>, Seq<char>)>,
    now: i64,
    uuid: Seq<char>,
)
    requires
        s.phase == ReplyPhase::TurnStart,
        s.turns_taken < s.max_turns,
        !(f is Ready),
    ensures
        ({
            let a = reply_step(
                s,
                ReplyEventView::TurnChecked { cancelled: false, final_output: f },
                now,
                uuid,
            );
            let b = reply_step(a.0, ReplyEventView::SwitchChecked(switched), now, uuid);
            let c = reply_step(b.0, ReplyEventView::StreamOpened, now, uuid);
            &&& a.1 == seq![ReplyActionView::CheckSwitch]
            &&& switched is None ==> b.1 == seq![ReplyActionView::OpenStream]
            &&& switched is Some ==> b.1 == seq![
                ReplyActionView::Yield(
                    AgentEventView::ModelChange {
                        model: (switched->0).1,
                        mode: "autopilot:"@ + (switched->0).0,
                    },
                ),
                ReplyActionView::OpenStream,
            ]
            &&& c.1 == seq![ReplyActionView::NextItem]
            &&& c.0.phase == ReplyPhase::Streaming
            &&& c.0.turns_taken == s.turns_taken + 1
            &&& c.0.conversation == s.conversation
            &&& c.0.messages_to_add.len() == 0
            &&& c.0.no_tools_called && !c.0.tools_updated && !c.0.recovered
        }),
{
    let a = reply_step(
        s,
        ReplyEventView::TurnChecked { cancelled: false, final_output: f },
        now,
        uuid,
    );
    let b = reply_step(a.0, ReplyEventView::SwitchChecked(switched), now, uuid);
    let c = reply_step(b.0, ReplyEventView::StreamOpened, now, uuid);
    assert(a.1 =~= seq![ReplyActionView::CheckSwitch]);
    assert(c.1 =~= seq![ReplyActionView::NextItem]);
    if switched is None {
        assert(b.1 =~= seq![ReplyActionView::OpenStream]);
    } else {
        assert(b.1 =~= seq![
            ReplyActionView::Yield(
                AgentEventView::ModelChange {
                    model: (switched->0).1,
                    mode: "autopilot:"@ + (switched->0).0,
                },
            ),
            ReplyActionView::OpenStream,
        ]);
    }
}

/// What the provider says is read in full: its usage is recorded where there is a
/// session to record it in, its message is kept and goes to be sorted, and a piece
/// without a message asks for the next one. Of a pair of models the one at work is
/// named, as the lead before the worker.
pub proof fn law_said_is_read(
    s: ReplyView,
    pair: Option<(Seq<char>, Seq<char>)>,
    usage_model: Option<Seq<char>>,
    response: Option<MessageView>,
    now: i64,
    uuid: Seq<char>,
)
    requires
        s.phase == ReplyPhase::Streaming,
    ensures
        ({
            let a = reply_step(
                s,
                ReplyEventView::StreamItem {
                    cancelled: false,
                    item: StreamItemView::Reply { lead_worker: pair, usage_model, response },
                },
                now,
                uuid,
            );
            let named = if pair is Some && usage_model is Some {
                1
            } else {
                0int
            };
            let counted = s.has_session && usage_model is Some;
            let b = if counted {
                reply_step(a.0, ReplyEventView::Done, now, uuid)
            } else {
                a
            };
            &&& named == 1 ==> {
                &&& a.1[0] matches ReplyActionView::Yield(
                    AgentEventView::ModelChange { model, mode },
                ) && model == usage_model->0 && {
                    &&& model == (pair->0).0 ==> mode == "lead"@
                    &&& model != (pair->0).0 && model == (pair->0).1 ==> mode == "worker"@
                    &&& model != (pair->0).0 && model != (pair->0).1 ==> mode == "unknown"@
                }
            }
            &&& a.1.len() == named + 1
            &&& counted ==> a.1.last() == ReplyActionView::RecordUsage && b.1.len() == 1
            &&& response is Some ==> {
                &&& b.1.last() == ReplyActionView::Categorize(response->0)
                &&& b.0.phase == ReplyPhase::Categorizing
                &&& b.0.messages_to_add == s.messages_to_add + seq![response->0]
            }
            &&& response is None ==> {
                &&& b.1.last() == ReplyActionView::NextItem
                &&& b.0.phase == ReplyPhase::Streaming
                &&& b.0.messages_to_add == s.messages_to_add
            }
            &&& b.0.conversation == s.conversation
            &&& b.0.turns_taken == s.turns_taken
        }),
{
    if response is Some {
        assert(s.messages_to_add.push(response->0) =~= s.messages_to_add + seq![response->0]);
    }
}

/// All requests of a message are recorded, those of the frontend first, and the
/// message is shown. Where it has none the stream goes on; else the frontend runs
/// its own, and then the others, just these, are inspected.
pub proof fn law_requests_go_their_way(
    s: ReplyView,
    c: ToolCategorizeView,
    f: Seq<ToolResponseView>,
    now: i64,
    uuid: Seq<char>,
)
    requires
        s.phase == ReplyPhase::Categorizing,
        s.goose_mode != "chat"@,
    ensures
        ({
            let a = reply_step(s, ReplyEventView::Categorized(c), now, uuid);
            let b = reply_step(a.0, ReplyEventView::FrontendDone(f), now, uuid);
            let none = c.frontend_requests.len() + c.remaining_requests.len() == 0;
            &&& a.1 == seq![
                ReplyActionView::RecordToolRequests(c.frontend_requests + c.remaining_requests),
                shows(c.filtered_response),
                if none {
                    ReplyActionView::NextItem
                } else {
                    ReplyActionView::RunFrontendTools(c.frontend_requests)
                },
            ]
            &&& none ==> a.0 == (ReplyView { phase: ReplyPhase::Streaming, ..s })
            &&& !none ==> b.1 == seq![ReplyActionView::InspectTools(c.remaining_requests)]
        }),
{
    let a = reply_step(s, ReplyEventView::Categorized(c), now, uuid);
    let b = reply_step(a.0, ReplyEventView::FrontendDone(f), now, uuid);
    let none = c.frontend_requests.len() + c.remaining_requests.len() == 0;
    assert(a.1 =~= seq![
        ReplyActionView::RecordToolRequests(c.frontend_requests + c.remaining_requests),
        shows(c.filtered_response),
        if none {
            ReplyActionView::NextItem
        } else {
            ReplyActionView::RunFrontendTools(c.frontend_requests)
        },
    ]);
    if !none {
        assert(b.1 =~= seq![ReplyActionView::InspectTools(c.remaining_requests)]);
    }
}

/// In chat mode no tool runs: one message answers what the frontend ran and skips
/// each other request under its id, is shown, and joins the conversation.
pub proof fn law_chat_skips_each_request(
    s: ReplyView,
    c: ToolCategorizeView,
    f: Seq<ToolResponseView>,
    now: i64,
    uuid: Seq<char>,
)
    requires
        s.phase == ReplyPhase::Categorizing,
        s.goose_mode == "chat"@,
        c.frontend_requests.len() + c.remaining_requests.len() > 0,
    ensures
        ({
            let a = reply_step(s, ReplyEventView::Categorized(c), now, uuid);
            let b = reply_step(a.0, ReplyEventView::FrontendDone(f), now, uuid);
            let m = MessageView {
                id: Some("msg_"@ + uuid),
                role: Role::User,
                created: now,
                content: f.map_values(|x: ToolResponseView| MessageContentView::ToolResponse(x))
                    + c.remaining_requests.map_values(
                    |q: ToolRequestView|
                        MessageContentView::ToolResponse(
                            ToolResponseView {
                                id: q.id,
                                result: Ok(seq![ContentView::Text(s.texts.chat_skipped)]),
                            },
                        ),
                ),
            };
            &&& b.1 == seq![shows(m), ReplyActionView::NextItem]
            &&& b.0.messages_to_add == s.messages_to_add + seq![m]
            &&& b.0.conversation == s.conversation
            &&& b.0.phase == ReplyPhase::Streaming
            &&& !b.0.no_tools_called
        }),
{
    let a = reply_step(s, ReplyEventView::Categorized(c), now, uuid);
    let b = reply_step(a.0, ReplyEventView::FrontendDone(f), now, uuid);
    let m = MessageView {
        id: Some("msg_"@ + uuid),
        role: Role::User,
        created: now,
        content: f.map_values(|x: ToolResponseView| MessageContentView::ToolResponse(x))
            + c.remaining_requests.map_values(
            |q: ToolRequestView|
                MessageContentView::ToolResponse(
                    ToolResponseView {
                        id: q.id,
                        result: Ok(seq![ContentView::Text(s.texts.chat_skipped)]),
                    },
                ),
        ),
    };
    assert(b.0.tool_message =~= m);
    assert(b.1 =~= seq![shows(m), ReplyActionView::NextItem]);
    assert(b.0.messages_to_add =~= s.messages_to_add + seq![m]);
}

/// The dispatches of a list are those of its parts, one after the other.
pub proof fn law_dispatches_of_parts(x: Seq<ToolRequestView>, y: Seq<ToolRequestView>)
    ensures
        dispatches(x + y) == dispatches(x) + dispatches(y),
        managing_ids(x + y) == managing_ids(x) + managing_ids(y),
    decreases y.len(),
{
    if y.len() == 0 {
        assert(x + y =~= x);
        assert(dispatches(x) + dispatches(y) =~= dispatches(x));
        assert(managing_ids(x) + managing_ids(y) =~= managing_ids(x));
    } else {
        assert((x + y).drop_last() =~= x + y.drop_last());
        law_dispatches_of_parts(x, y.drop_last());
        assert(dispatches(x + y) =~= dispatches(x) + dispatches(y));
        assert(managing_ids(x + y) =~= managing_ids(x) + managing_ids(y));
    }
}

/// A request that could be read is dispatched under its own id with its own call,
/// any other is not; it manages extensions just where its call is of that tool.
pub proof fn law_dispatch_of_one(q: ToolRequestView)
    ensures
        q.tool_call is Ok ==> dispatches(seq![q]) == seq![
            ReplyActionView::Dispatch { request_id: q.id, call: q.tool_call->Ok_0 },
        ],
        q.tool_call is Err ==> dispatches(seq![q]).len() == 0,
        q.tool_call is Ok && q.tool_call->Ok_0.name == "manage_extensions"@
            ==> managing_ids(seq![q]) == seq![q.id],
        q.tool_call is Err || q.tool_call->Ok_0.name != "manage_extensions"@
            ==> managing_ids(seq![q]).len() == 0,
{
    assert(seq![q].drop_last() =~= Seq::empty());
    assert(dispatches(Seq::empty()) =~= Seq::empty());
    assert(managing_ids(Seq::empty()) =~= Seq::empty());
    if q.tool_call is Ok {
        assert(Seq::empty().push(
            ReplyActionView::Dispatch { request_id: q.id, call: q.tool_call->Ok_0 },
        ) =~= seq![ReplyActionView::Dispatch { request_id: q.id, call: q.tool_call->Ok_0 }]);
        assert(Seq::empty().push(q.id) =~= seq![q.id]);
    }
}

/// After the inspection the approved requests run and the user is asked for those
/// that need it; without a verdict none runs and the user is asked for all.
pub proof fn law_inspection_is_obeyed(
    s: ReplyView,
    p: Option<PermissionCheckView>,
    now: i64,
    uuid: Seq<char>,
)
    requires
        s.phase == ReplyPhase::Inspecting,
    ensures
        ({
            let a = reply_step(s, ReplyEventView::Inspected(p), now, uuid);
            &&& p is Some ==> a.1 == dispatches(p->0.approved) + seq![
                ReplyActionView::RequestApproval(p->0.needs_approval),
            ]
            &&& p is None ==> a.1 == seq![ReplyActionView::RequestApproval(s.remaining)]
            &&& p is None ==> a.0.tool_message == s.tool_message
            &&& a.0.phase == ReplyPhase::Approving
            &&& a.0.extension_request_ids == managing_ids(s.remaining)
        }),
{
    let a = reply_step(s, ReplyEventView::Inspected(p), now, uuid);
    if p is Some {
        assert(a.1 =~= dispatches(p->0.approved) + seq![
            ReplyActionView::RequestApproval(p->0.needs_approval),
        ]);
    } else {
        assert(a.1 =~= seq![ReplyActionView::RequestApproval(s.remaining)]);
        assert(a.0.tool_message =~= s.tool_message);
    }
}

/// What the frontend, the user or a running tool has to say on the way is shown as
/// it is, and changes nothing.
pub proof fn law_messages_pass_through(
    s: ReplyView,
    m: MessageView,
    id: Seq<char>,
    h: u64,
    now: i64,
    uuid: Seq<char>,
)
    ensures
        s.phase == ReplyPhase::FrontendRunning ==> reply_step(
            s,
            ReplyEventView::FrontendMessage(m),
            now,
            uuid,
        ) == (s, seq![shows(m)]),
        s.phase == ReplyPhase::Approving ==> reply_step(
            s,
            ReplyEventView::ApprovalMessage(m),
            now,
            uuid,
        ) == (s, seq![shows(m)]),
        s.phase == ReplyPhase::ToolsRunning ==> reply_step(
            s,
            ReplyEventView::ToolItem {
                cancelled: false,
                request_id: id,
                output: ToolStreamItemView::Message(h),
            },
            now,
            uuid,
        ) == (
            s,
            seq![
                ReplyActionView::Yield(AgentEventView::McpNotification(id, h)),
                ReplyActionView::NextToolItem,
            ],
        ),
{
    assert(Seq::empty().push(shows(m)) =~= seq![shows(m)]);
    let n = ReplyActionView::Yield(AgentEventView::McpNotification(id, h));
    assert(seq![n].push(ReplyActionView::NextToolItem) =~= seq![n, ReplyActionView::NextToolItem]);
}

/// Tools that have managed extensions without a failure are followed by new tools:
/// the state of the extensions is saved in the session where there is one, the
/// answers are shown whether or not that worked, and the tools are prepared once
/// the stream has ended.
pub proof fn law_new_extensions_bring_new_tools(
    s: ReplyView,
    saved: ReplyEventView,
    now: i64,
    uuid: Seq<char>,
)
    requires
        s.phase == ReplyPhase::ToolsRunning,
        s.installs_succeeded,
        s.extension_request_ids.len() > 0,
        saved is Done || saved is Failed,
    ensures
        ({
            let a = reply_step(s, ReplyEventView::ToolItemsEnded, now, uuid);
            let b = if s.has_session {
                reply_step(a.0, saved, now, uuid)
            } else {
                a
            };
            let c = reply_step(b.0, ReplyEventView::StreamEnded, now, uuid);
            let d = reply_step(c.0, ReplyEventView::Done, now, uuid);
            &&& s.has_session ==> a.1 == seq![ReplyActionView::SaveExtensionState]
            &&& b.1 == seq![shows(s.tool_message), ReplyActionView::NextItem]
            &&& c.1 == seq![ReplyActionView::PrepareTools]
            &&& c.0.messages_to_add == s.messages_to_add + seq![s.tool_message]
            &&& closes(
                d,
                Seq::empty(),
                c.0.messages_to_add,
                s.conversation + c.0.messages_to_add,
                false,
                now,
                uuid,
            )
        }),
{
    let a = reply_step(s, ReplyEventView::ToolItemsEnded, now, uuid);
    let b = if s.has_session {
        reply_step(a.0, saved, now, uuid)
    } else {
        a
    };
    let c = reply_step(b.0, ReplyEventView::StreamEnded, now, uuid);
    let d = reply_step(c.0, ReplyEventView::Done, now, uuid);
    if s.has_session {
        assert(a.1 =~= seq![ReplyActionView::SaveExtensionState]);
    }
    assert(b.1 =~= seq![shows(s.tool_message), ReplyActionView::NextItem]);
    assert(c.1 =~= seq![ReplyActionView::PrepareTools]);
    assert(c.0.messages_to_add =~= s.messages_to_add + seq![s.tool_message]);
    assert(stored(d, now, uuid).1 =~= seq![ReplyActionView::CheckTurn]);
}

/// A request to manage extensions that failed leaves the tools as they are.
pub proof fn law_failed_extension_keeps_tools(
    s: ReplyView,
    id: Seq<char>,
    e: ErrorDataView,
    now: i64,
    uuid: Seq<char>,
)
    requires
        s.phase == ReplyPhase::ToolsRunning,
        s.extension_request_ids.contains(id),
        !s.tools_updated,
    ensures
        ({
            let a = reply_step(
                s,
                ReplyEventView::ToolItem {
                    cancelled: false,
                    request_id: id,
                    output: ToolStreamItemView::Result(Err(e)),
                },
                now,
                uuid,
            );
            let b = reply_step(a.0, ReplyEventView::ToolItemsEnded, now, uuid);
            let c = reply_step(b.0, ReplyEventView::StreamEnded, now, uuid);
            &&& b.1 == seq![shows(a.0.tool_message), ReplyActionView::NextItem]
            &&& closes(
                c,
                Seq::empty(),
                s.messages_to_add + seq![a.0.tool_message],
                s.conversation + s.messages_to_add + seq![a.0.tool_message],
                false,
                now,
                uuid,
            )
        }),
{
    let a = reply_step(
        s,
        ReplyEventView::ToolItem {
            cancelled: false,
            request_id: id,
            output: ToolStreamItemView::Result(Err(e)),
        },
        now,
        uuid,
    );
    let b = reply_step(a.0, ReplyEventView::ToolItemsEnded, now, uuid);
    let c = reply_step(b.0, ReplyEventView::StreamEnded, now, uuid);
    assert(b.1 =~= seq![shows(a.0.tool_message), ReplyActionView::NextItem]);
    assert(b.0.messages_to_add =~= s.messages_to_add + seq![a.0.tool_message]);
    assert(stored(c, now, uuid).0.conversation =~= s.conversation + s.messages_to_add + seq![
        a.0.tool_message,
    ]);
    assert(stored(c, now, uuid).1 =~= seq![ReplyActionView::CheckTurn]);
}

/// A conversation that grew too long is compacted: the compacted one is shown and
/// stored in place of the old one, and the reply goes on with it in a further turn.
pub proof fn law_compaction_replaces_the_conversation(
    s: ReplyView,
    c: Seq<MessageView>,
    now: i64,
    uuid: Seq<char>,
)
    requires
        s.phase == ReplyPhase::Streaming,
        s.no_tools_called,
        !s.tools_updated,
    ensures
        ({
            let a = reply_step(
                s,
                ReplyEventView::StreamItem {
                    cancelled: false,
                    item: StreamItemView::ContextLengthExceeded,
                },
                now,
                uuid,
            );
            let b = reply_step(a.0, ReplyEventView::Compacted(c), now, uuid);
            let b2 = stored(b, now, uuid);
            let d = reply_step(b2.0, ReplyEventView::StreamEnded, now, uuid);
            let f = reply_step(
                d.0,
                ReplyEventView::FinalOutputChecked(FinalOutputView::NoTool),
                now,
                uuid,
            );
            &&& a.1 == seq![ReplyActionView::Compact]
            &&& b.1 == seq![
                shows(
                    MessageView {
                        id: None,
                        role: Role::Assistant,
                        created: now,
                        content: seq![
                            MessageContentView::ConversationCompacted(
                                "Context limit reached. Conversation has been automatically compacted to continue."@,
                            ),
                        ],
                    },
                ),
                ReplyActionView::Yield(AgentEventView::HistoryReplaced(c)),
                if s.has_session {
                    ReplyActionView::StoreConversation(c)
                } else {
                    ReplyActionView::NextItem
                },
            ]
            &&& s.has_session ==> b2.1 == seq![ReplyActionView::NextItem]
            &&& d.1 == seq![ReplyActionView::CheckFinalOutput]
            &&& closes(
                f,
                Seq::empty(),
                s.messages_to_add,
                c + s.messages_to_add,
                false,
                now,
                uuid,
            )
        }),
{
    let a = reply_step(
        s,
        ReplyEventView::StreamItem {
            cancelled: false,
            item: StreamItemView::ContextLengthExceeded,
        },
        now,
        uuid,
    );
    let b = reply_step(a.0, ReplyEventView::Compacted(c), now, uuid);
    let b2 = stored(b, now, uuid);
    let d = reply_step(b2.0, ReplyEventView::StreamEnded, now, uuid);
    let f = reply_step(
        d.0,
        ReplyEventView::FinalOutputChecked(FinalOutputView::NoTool),
        now,
        uuid,
    );
    assert(a.1 =~= seq![ReplyActionView::Compact]);
    assert(b2.0.phase == ReplyPhase::Streaming);
    assert(s.has_session ==> b2.1 =~= seq![ReplyActionView::NextItem]);
    assert(d.1 =~= seq![ReplyActionView::CheckFinalOutput]);
    assert(b.1.len() == 3);
    assert(b.1 =~= seq![b.1[0], b.1[1], b.1[2]]);
    assert(stored(f, now, uuid).1 =~= seq![ReplyActionView::CheckTurn]);
}

/// What went wrong with the provider or with the compaction is told by the
/// assistant, but is no part of the conversation; the turn is then concluded.
pub proof fn law_errors_are_told(
    s: ReplyView,
    e: Seq<char>,
    now: i64,
    uuid: Seq<char>,
)
    requires
        s.phase == ReplyPhase::Streaming || s.phase == ReplyPhase::Compacting,
        s.no_tools_called,
        !s.tools_updated,
    ensures
        ({
            let a = if s.phase == ReplyPhase::Streaming {
                reply_step(
                    s,
                    ReplyEventView::StreamItem { cancelled: false, item: StreamItemView::Error(e) },
                    now,
                    uuid,
                )
            } else {
                reply_step(s, ReplyEventView::CompactionFailed(e), now, uuid)
            };
            let start = if s.phase == ReplyPhase::Streaming {
                "Ran into this error: "@
            } else {
                "Ran into this error trying to compact: "@
            };
            &&& a.1 == seq![
                shows(
                    text_message(
                        Role::Assistant,
                        now,
                        start + e
                            + ".\n\nPlease retry if you think this is a transient or recoverable error."@,
                    ),
                ),
                ReplyActionView::CheckFinalOutput,
            ]
            &&& a.0 == (ReplyView { phase: ReplyPhase::Concluding, ..s })
        }),
{
    let a = if s.phase == ReplyPhase::Streaming {
        reply_step(
            s,
            ReplyEventView::StreamItem { cancelled: false, item: StreamItemView::Error(e) },
            now,
            uuid,
        )
    } else {
        reply_step(s, ReplyEventView::CompactionFailed(e), now, uuid)
    };
    assert(a.1 =~= seq![a.1[0], a.1[1]]);
}

/// A turn without tools ends by the final output: while it is pending the assistant
/// is told to go on, in a further turn; once it is there it is shown and ends the
/// reply; both join the conversation. Without such a tool the answer is tried
/// against what a retry asks for, unless the conversation was just compacted.
pub proof fn law_final_output_decides(
    s: ReplyView,
    f: FinalOutputView,
    now: i64,
    uuid: Seq<char>,
)
    requires
        s.phase == ReplyPhase::Concluding,
    ensures
        ({
            let a = reply_step(s, ReplyEventView::FinalOutputChecked(f), now, uuid);
            let continuing = text_message(Role::User, now, s.texts.final_output_continuation);
            let ready = text_message(Role::Assistant, now, f->Ready_0);
            &&& f is Pending ==> closes(
                a,
                seq![shows(continuing)],
                s.messages_to_add + seq![continuing],
                s.conversation + s.messages_to_add + seq![continuing],
                false,
                now,
                uuid,
            )
            &&& f is Ready ==> closes(
                a,
                seq![shows(ready)],
                s.messages_to_add + seq![ready],
                s.conversation + s.messages_to_add + seq![ready],
                true,
                now,
                uuid,
            )
            &&& f is NoTool && !s.recovered ==> a == (
                ReplyView { phase: ReplyPhase::Retrying, ..s },
                seq![ReplyActionView::Retry],
            )
            &&& f is NoTool && s.recovered ==> closes(
                a,
                Seq::empty(),
                s.messages_to_add,
                s.conversation + s.messages_to_add,
                false,
                now,
                uuid,
            )
        }),
{
    let a = reply_step(s, ReplyEventView::FinalOutputChecked(f), now, uuid);
    let b = stored(a, now, uuid);
    match f {
        FinalOutputView::Pending => {
            let m = text_message(Role::User, now, s.texts.final_output_continuation);
            assert(s.messages_to_add.push(m) =~= s.messages_to_add + seq![m]);
            assert(b.0.conversation =~= s.conversation + s.messages_to_add + seq![m]);
            assert(a.1 =~= seq![shows(m)].push(a.1.last()));
            assert(b.1.last() == ReplyActionView::CheckTurn);
            assert(s.has_session ==> b.1 =~= seq![ReplyActionView::CheckTurn]);
        },
        FinalOutputView::Ready(t) => {
            let m = text_message(Role::Assistant, now, t);
            assert(s.messages_to_add.push(m) =~= s.messages_to_add + seq![m]);
            assert(b.0.conversation =~= s.conversation + s.messages_to_add + seq![m]);
            assert(a.1 =~= seq![shows(m)].push(a.1.last()));
            assert(s.has_session ==> b.1 =~= seq![ReplyActionView::Stop]);
        },
        FinalOutputView::NoTool => {
            assert(a.1 =~= Seq::empty().push(a.1.last()));
            if !s.recovered {
                assert(a.1 =~= seq![ReplyActionView::Retry]);
            } else {
                assert(s.has_session ==> b.1 =~= seq![ReplyActionView::CheckTurn]);
            }
        },
    }
}

/// The reply goes round again just where the answer was retried; whatever the retry
/// made of the conversation stands, with the messages of the turn after it. An
/// error of the retry is told and ends the reply.
pub proof fn law_retry_decides(
    s: ReplyView,
    result: RetryResult,
    error: Seq<char>,
    c: Seq<MessageView>,
    now: i64,
    uuid: Seq<char>,
)
    requires
        s.phase == ReplyPhase::Retrying,
    ensures
        closes(
            reply_step(s, ReplyEventView::RetryDone { result, conversation: c }, now, uuid),
            Seq::empty(),
            s.messages_to_add,
            c + s.messages_to_add,
            !(result is Retried),
            now,
            uuid,
        ),
        closes(
            reply_step(s, ReplyEventView::RetryFailed { error, conversation: c }, now, uuid),
            seq![
                shows(
                    text_message(
                        Role::Assistant,
                        now,
                        "Retry logic encountered an error: "@ + error,
                    ),
                ),
            ],
            s.messages_to_add,
            c + s.messages_to_add,
            true,
            now,
            uuid,
        ),
{
    let a = reply_step(s, ReplyEventView::RetryDone { result, conversation: c }, now, uuid);
    let b = reply_step(s, ReplyEventView::RetryFailed { error, conversation: c }, now, uuid);
    let a2 = stored(a, now, uuid);
    let b2 = stored(b, now, uuid);
    assert(a.1 =~= Seq::empty().push(a.1[0]));
    assert(b.1 =~= seq![b.1[0]].push(b.1[1]));
    assert(s.has_session ==> a2.1 =~= seq![a2.1[0]]);
    assert(s.has_session ==> b2.1 =~= seq![ReplyActionView::Stop]);
}

/// A failure of what the reply waits for ends it, but for a failure to save the state
/// of the extensions.
pub proof fn law_failure_ends_the_reply(s: ReplyView, now: i64, uuid: Seq<char>)
    ensures
        ({
            let p = s.phase;
            let a = reply_step(s, ReplyEventView::Failed, now, uuid);
            &&& p is SwitchCheck || p is StreamOpening || p is Streaming || p is UsageRecording
                || p is FrontendRunning || p is Inspecting || p is Approving || p is HistoryStoring
                || p is ToolsPreparing || p is Persisting ==> a == (
                ReplyView { phase: ReplyPhase::Finished, ..s },
                seq![ReplyActionView::Fail],
            )
        }),
{
    let a = reply_step(s, ReplyEventView::Failed, now, uuid);
    if a.1.len() == 1 {
        assert(a.1 =~= seq![a.1[0]]);
    }
}

/// A stream that is cancelled counts as ended, and so do tools that are.
pub proof fn law_cancelled_stream_has_ended(
    s: ReplyView,
    item: StreamItemView,
    id: Seq<char>,
    output: ToolStreamItemView,
    now: i64,
    uuid: Seq<char>,
)
    ensures
        s.phase == ReplyPhase::Streaming ==> reply_step(
            s,
            ReplyEventView::StreamItem { cancelled: true, item },
            now,
            uuid,
        ) == reply_step(s, ReplyEventView::StreamEnded, now, uuid),
        s.phase == ReplyPhase::ToolsRunning ==> reply_step(
            s,
            ReplyEventView::ToolItem { cancelled: true, request_id: id, output },
            now,
            uuid,
        ) == reply_step(s, ReplyEventView::ToolItemsEnded, now, uuid),
{
}

/// A reply begins with the conversation as it came unless that is too long. A
/// compacted conversation is shown, after a word on the threshold, and is the one
/// that the reply goes on with; where it could not be compacted only that is told.
pub proof fn law_reply_opens(
    compaction: Result<Option<Seq<MessageView>>, Seq<char>>,
    percentage: u32,
    now: i64,
)
    ensures
        match compaction {
            Ok(Some(c)) => reply_opening(compaction, percentage, now)
                == (ReplyOpeningView::Compacted {
                events: seq![
                    AgentEventView::Message(
                        MessageView {
                            id: None,
                            role: Role::Assistant,
                            created: now,
                            content: seq![
                                MessageContentView::ConversationCompacted(
                                    "Exceeded auto-compact threshold of "@ + text::decimal(
                                        percentage as nat,
                                    ) + "%. Context has been summarized and reduced.\n\n"@,
                                ),
                            ],
                        },
                    ),
                    AgentEventView::HistoryReplaced(c),
                ],
                conversation: c,
            }),
            Ok(None) => reply_opening(compaction, percentage, now) is Plain,
            Err(e) => reply_opening(compaction, percentage, now) == (ReplyOpeningView::Refused {
                events: seq![
                    AgentEventView::Message(
                        text_message(
                            Role::Assistant,
                            now,
                            "Ran into this error trying to auto-compact: "@ + e
                                + ".\n\nPlease try again or create a new session"@,
                        ),
                    ),
                ],
            }),
        },
{
}

/// Failures of an earlier round do not count: once the user was asked, requests that
/// manage extensions change the tools unless one of them fails from then on.
pub proof fn law_each_round_counts_anew(
    s: ReplyView,
    a: Seq<ToolResponseView>,
    now: i64,
    uuid: Seq<char>,
)
    requires
        s.phase == ReplyPhase::Approving,
        s.extension_request_ids.len() > 0,
    ensures
        ({
            let b = reply_step(s, ReplyEventView::ApprovalDone(a), now, uuid);
            let c = reply_step(b.0, ReplyEventView::ToolItemsEnded, now, uuid);
            &&& b.1 == seq![ReplyActionView::NextToolItem]
            &&& c.0.tools_updated
            &&& s.has_session ==> c.1 == seq![ReplyActionView::SaveExtensionState]
            &&& !s.has_session ==> c.1 == seq![
                shows(b.0.tool_message),
                ReplyActionView::NextItem,
            ]
        }),
{
    let b = reply_step(s, ReplyEventView::ApprovalDone(a), now, uuid);
    let c = reply_step(b.0, ReplyEventView::ToolItemsEnded, now, uuid);
    assert(b.1 =~= seq![ReplyActionView::NextToolItem]);
    if s.has_session {
        assert(c.1 =~= seq![ReplyActionView::SaveExtensionState]);
    } else {
        assert(c.1 =~= seq![shows(b.0.tool_message), ReplyActionView::NextItem]);
    }
}

/// A result is kept under its id and the next one is waited for; whether extensions were
/// managed well is changed only by a failure of a request that manages them.
pub proof fn law_result_is_collected(
    s: ReplyView,
    id: Seq<char>,
    r: Result<Seq<ContentView>, ErrorDataView>,
    now: i64,
    uuid: Seq<char>,
)
    requires
        s.phase == ReplyPhase::ToolsRunning,
    ensures
        ({
            let a = reply_step(
                s,
                ReplyEventView::ToolItem {
                    cancelled: false,
                    request_id: id,
                    output: ToolStreamItemView::Result(r),
                },
                now,
                uuid,
            );
            &&& a.1 == seq![ReplyActionView::NextToolItem]
            &&& a.0.tool_message == (MessageView {
                content: s.tool_message.content + seq![
                    MessageContentView::ToolResponse(ToolResponseView { id, result: r }),
                ],
                ..s.tool_message
            })
            &&& a.0 == (ReplyView {
                tool_message: a.0.tool_message,
                installs_succeeded: a.0.installs_succeeded,
                ..s
            })
            &&& r is Ok || !s.extension_request_ids.contains(id) ==> a.0.installs_succeeded
                == s.installs_succeeded
            &&& r is Err && s.extension_request_ids.contains(id) ==> !a.0.installs_succeeded
        }),
{
    let a = reply_step(
        s,
        ReplyEventView::ToolItem {
            cancelled: false,
            request_id: id,
            output: ToolStreamItemView::Result(r),
        },
        now,
        uuid,
    );
    assert(a.1 =~= seq![ReplyActionView::NextToolItem]);
    assert(a.0.tool_message.content =~= s.tool_message.content + seq![
        MessageContentView::ToolResponse(ToolResponseView { id, result: r }),
    ]);
}

/// The events that a phase waits for.
pub open spec fn waits_for(p: ReplyPhase, e: ReplyEventView) -> bool {
    match p {
        ReplyPhase::TurnStart => e is TurnChecked,
        ReplyPhase::SwitchCheck => e is SwitchChecked || e is Failed,
        ReplyPhase::StreamOpening => e is StreamOpened || e is Failed,
        ReplyPhase::Streaming => e is StreamItem || e is StreamEnded || e is Failed,
        ReplyPhase::UsageRecording => e is Done || e is Failed,
        ReplyPhase::Categorizing => e is Categorized,
        ReplyPhase::FrontendRunning => e is FrontendMessage || e is FrontendDone || e is Failed,
        ReplyPhase::Inspecting => e is Inspected || e is Failed,
        ReplyPhase::Approving => e is ApprovalMessage || e is ApprovalDone || e is Failed,
        ReplyPhase::ToolsRunning => e is ToolItem || e is ToolItemsEnded,
        ReplyPhase::ExtensionSaving => e is Done || e is Failed,
        ReplyPhase::Compacting => e is Compacted || e is CompactionFailed,
        ReplyPhase::HistoryStoring => e is Done || e is Failed,
        ReplyPhase::ToolsPreparing => e is Done || e is Failed,
        ReplyPhase::Concluding => e is FinalOutputChecked,
        ReplyPhase::Retrying => e is RetryDone || e is RetryFailed,
        ReplyPhase::Persisting => e is Done || e is Failed,
        ReplyPhase::Finished => false,
    }
}

/// What is not waited for changes nothing, and what is waited for is never passed over.
#[verifier::spinoff_prover]
#[verifier::rlimit(80)]
pub proof fn law_only_awaited_events_count(
    s: ReplyView,
    e: ReplyEventView,
    now: i64,
    uuid: Seq<char>,
)
    ensures
        !waits_for(s.phase, e) ==> reply_step(s, e, now, uuid) == (
            s,
            Seq::<ReplyActionView>::empty(),
        ),
        waits_for(s.phase, e) ==> reply_step(s, e, now, uuid).1.len() > 0,
{
}

/// What a reply never changes: the session, the mode, the limit and the fixed texts.
#[verifier::spinoff_prover]
#[verifier::rlimit(80)]
pub proof fn law_terms_of_a_reply_stay(s: ReplyView, e: ReplyEventView, now: i64, uuid: Seq<char>)
    ensures
        ({
            let t = reply_step(s, e, now, uuid).0;
            &&& t.has_session == s.has_session
            &&& t.goose_mode == s.goose_mode
            &&& t.max_turns == s.max_turns
            &&& t.texts == s.texts
            &&& t.turns_taken == s.turns_taken || (s.phase == ReplyPhase::TurnStart
                && t.turns_taken == s.turns_taken + 1)
        }),
{
}

/// The limit on turns is that of the session, else that of the configuration, else a
/// thousand.
pub proof fn law_limit_of_a_reply(n: u32, m: Option<u32>)
    ensures
        turn_limit(Some(n), m) == n,
        turn_limit(None, Some(n)) == n,
        turn_limit(None, None) == 1000,
{
}

/// A session in the foreground only chats and one in the background runs by itself; any
/// other takes the configured mode as it is, or runs by itself.
pub proof fn law_mode_of_a_reply(
    execution: Option<Seq<char>>,
    mode: Seq<char>,
    configured: Option<Seq<char>>,
)
    ensures
        execution == Some("foreground"@) ==> goose_mode(execution, configured) == "chat"@,
        execution == Some("background"@) ==> goose_mode(execution, configured) == "auto"@,
        execution != Some("foreground"@) && execution != Some("background"@) ==> goose_mode(
            execution,
            Some(mode),
        ) == mode,
        execution != Some("foreground"@) && execution != Some("background"@) ==> goose_mode(
            execution,
            None,
        ) == "auto"@,
{
    reveal_strlit("foreground");
    reveal_strlit("background");
    assert("foreground"@[0] != "background"@[0]);
}

} // verus!
