//! What a turn of a reply makes of what the provider, the tools and the user say.
use crate::message::{MessageContentView, MessageView, Role, ToolResponseView};
use crate::permission_judge::PermissionCheckView;
use crate::reply::{
    reply_start, reply_step, AgentEventView, FinalOutputView, ReplyActionView, ReplyEventView,
    ReplyPhase, ReplyView, StreamItemView, ToolCategorizeView, ToolStreamItemView,
};
use crate::reply_laws::{replaces_conversation, run, TimedEvent};
use crate::tool::{ContentView, ErrorDataView, ToolRequestView};
use vstd::prelude::*;

verus! {

/// A message of one text, without an id.
pub open spec fn text_message(role: Role, created: i64, t: Seq<char>) -> MessageView {
    MessageView { id: None, role, created, content: seq![MessageContentView::Text(t)] }
}

/// What a tool is said to have returned.
pub struct ReportedResult {
    pub id: Seq<char>,
    pub result: Result<Seq<ContentView>, ErrorDataView>,
    pub now: i64,
    pub uuid: Seq<char>,
}

/// The events by which results are reported.
pub open spec fn reports(results: Seq<ReportedResult>) -> Seq<TimedEvent> {
    results.map_values(
        |r: ReportedResult|
            TimedEvent {
                event: ReplyEventView::ToolItem {
                    cancelled: false,
                    request_id: r.id,
                    output: ToolStreamItemView::Result(r.result),
                },
                now: r.now,
                uuid: r.uuid,
            },
    )
}

/// The answers that a turn holds: those of the frontend, a refusal for each denied
/// request, those that came while the user was asked, and the reported results.
pub open spec fn turn_answers(
    frontend: Seq<ToolResponseView>,
    denied: Seq<ToolRequestView>,
    declined: Seq<char>,
    approval: Seq<ToolResponseView>,
    results: Seq<ReportedResult>,
) -> Seq<MessageContentView> {
    frontend.map_values(|a: ToolResponseView| MessageContentView::ToolResponse(a))
        + denied.map_values(
        |q: ToolRequestView|
            MessageContentView::ToolResponse(
                ToolResponseView { id: q.id, result: Ok(seq![ContentView::Text(declined)]) },
            ),
    ) + approval.map_values(|a: ToolResponseView| MessageContentView::ToolResponse(a))
        + results.map_values(
        |r: ReportedResult|
            MessageContentView::ToolResponse(ToolResponseView { id: r.id, result: r.result }),
    )
}

proof fn lemma_reports(s: ReplyView, results: Seq<ReportedResult>)
    requires
        s.phase == ReplyPhase::ToolsRunning,
        s.extension_request_ids.len() == 0,
    ensures
        ({
            let t = run(s, reports(results)).0;
            t == (ReplyView {
                installs_succeeded: t.installs_succeeded,
                tool_message: MessageView {
                    content: s.tool_message.content + results.map_values(
                        |r: ReportedResult|
                            MessageContentView::ToolResponse(
                                ToolResponseView { id: r.id, result: r.result },
                            ),
                    ),
                    ..s.tool_message
                },
                ..s
            })
        }),
    decreases results.len(),
{
    let answers = |r: ReportedResult|
        MessageContentView::ToolResponse(ToolResponseView { id: r.id, result: r.result });
    if results.len() == 0 {
        assert(s.tool_message.content + results.map_values(answers) =~= s.tool_message.content);
    } else {
        let rest = results.drop_last();
        lemma_reports(s, rest);
        assert(reports(results).drop_last() =~= reports(rest));
        assert(reports(results).last() == reports(results)[results.len() - 1]);
        let before = run(s, reports(rest)).0;
        let t = run(s, reports(results)).0;
        assert(s.tool_message.content + results.map_values(answers) =~= (s.tool_message.content
            + rest.map_values(answers)).push(answers(results.last())));
        assert(t.tool_message.content =~= s.tool_message.content + results.map_values(answers));
    }
}

/// No request manages extensions.
pub open spec fn manages_nothing(requests: Seq<ToolRequestView>) -> bool {
    forall|i: int|
        0 <= i < requests.len() && (#[trigger] requests[i]).tool_call is Ok
            ==> requests[i].tool_call->Ok_0.name != "manage_extensions"@
}

proof fn lemma_manages_nothing(requests: Seq<ToolRequestView>)
    requires
        manages_nothing(requests),
    ensures
        crate::reply::managing_ids(requests).len() == 0,
    decreases requests.len(),
{
    if requests.len() > 0 {
        assert forall|i: int|
            0 <= i < requests.drop_last().len() && (
            #[trigger] requests.drop_last()[i]).tool_call is Ok implies requests.drop_last()[i].tool_call->Ok_0.name
            != "manage_extensions"@ by {
            assert(requests.drop_last()[i] == requests[i]);
        }
        lemma_manages_nothing(requests.drop_last());
        assert(requests.last() == requests[requests.len() - 1]);
    }
}

/// One answer of the provider, with everything that comes of it.
pub struct Turn {
    pub response: MessageView,
    pub sorted: ToolCategorizeView,
    pub frontend: Seq<ToolResponseView>,
    pub verdict: PermissionCheckView,
    pub approval: Seq<ToolResponseView>,
    pub results: Seq<ReportedResult>,
    pub now: i64,
    pub uuid: Seq<char>,
}

/// The state while tools run, after the answer of a turn.
pub open spec fn tools_at_work(s: ReplyView, t: Turn) -> ReplyView {
    let a = reply_step(
        s,
        ReplyEventView::TurnChecked { cancelled: false, final_output: FinalOutputView::NoTool },
        t.now,
        t.uuid,
    ).0;
    let b = reply_step(a, ReplyEventView::SwitchChecked(None), t.now, t.uuid).0;
    let c = reply_step(b, ReplyEventView::StreamOpened, t.now, t.uuid).0;
    let d = reply_step(
        c,
        ReplyEventView::StreamItem {
            cancelled: false,
            item: StreamItemView::Reply {
                lead_worker: None,
                usage_model: None,
                response: Some(t.response),
            },
        },
        t.now,
        t.uuid,
    ).0;
    let e = reply_step(d, ReplyEventView::Categorized(t.sorted), t.now, t.uuid).0;
    let f = reply_step(e, ReplyEventView::FrontendDone(t.frontend), t.now, t.uuid).0;
    let g = reply_step(f, ReplyEventView::Inspected(Some(t.verdict)), t.now, t.uuid).0;
    reply_step(g, ReplyEventView::ApprovalDone(t.approval), t.now, t.uuid).0
}

/// The message with which the answers of a turn go back to the provider.
pub open spec fn answer_message(t: Turn, declined: Seq<char>) -> MessageView {
    MessageView {
        id: Some("msg_"@ + t.uuid),
        role: Role::User,
        created: t.now,
        content: turn_answers(t.frontend, t.verdict.denied, declined, t.approval, t.results),
    }
}

/// A turn that can be taken, with an answer that asks for tools.
pub open spec fn can_take(s: ReplyView, t: Turn) -> bool {
    &&& s.phase == ReplyPhase::TurnStart
    &&& s.turns_taken < s.max_turns
    &&& s.goose_mode != "chat"@
    &&& t.sorted.frontend_requests.len() + t.sorted.remaining_requests.len() > 0
    &&& manages_nothing(t.sorted.remaining_requests)
}

proof fn lemma_at_work(s: ReplyView, t: Turn)
    requires
        can_take(s, t),
    ensures
        ({
            let w = tools_at_work(s, t);
            &&& w.phase == ReplyPhase::ToolsRunning
            &&& w.conversation == s.conversation
            &&& w.has_session == s.has_session
            &&& w.messages_to_add == seq![t.response]
            &&& w.extension_request_ids.len() == 0
            &&& !w.tools_updated
            &&& w.tool_message == (MessageView {
                content: turn_answers(
                    t.frontend,
                    t.verdict.denied,
                    s.texts.declined,
                    t.approval,
                    Seq::empty(),
                ),
                ..answer_message(t, s.texts.declined)
            })
        }),
{
    lemma_manages_nothing(t.sorted.remaining_requests);
    let w = tools_at_work(s, t);
    assert(w.messages_to_add =~= seq![t.response]);
    assert(w.tool_message.content =~= turn_answers(
        t.frontend,
        t.verdict.denied,
        s.texts.declined,
        t.approval,
        Seq::empty(),
    ));
}

/// The answers to the tool calls of a turn go back to the provider: what the turn
/// shows in the end is one message with an answer for each request, the reported
/// results under their ids, and the conversation of the next turn is the earlier one,
/// the answer of the provider, and that message. Where there is a session, just these
/// two are stored.
pub proof fn law_answers_are_fed_back(s: ReplyView, t: Turn)
    requires
        can_take(s, t),
    ensures
        ({
            let m = answer_message(t, s.texts.declined);
            let worked = run(tools_at_work(s, t), reports(t.results)).0;
            let shown = reply_step(worked, ReplyEventView::ToolItemsEnded, t.now, t.uuid);
            let ended = reply_step(shown.0, ReplyEventView::StreamEnded, t.now, t.uuid);
            let next = if s.has_session {
                reply_step(ended.0, ReplyEventView::Done, t.now, t.uuid)
            } else {
                ended
            };
            &&& shown.1 == seq![
                ReplyActionView::Yield(AgentEventView::Message(m)),
                ReplyActionView::NextItem,
            ]
            &&& s.has_session ==> ended.1 == seq![ReplyActionView::AddMessages(seq![t.response, m])]
            &&& next.0.phase == ReplyPhase::TurnStart
            &&& next.1 == seq![ReplyActionView::CheckTurn]
            &&& next.0.conversation == s.conversation + seq![t.response, m]
        }),
{
    lemma_at_work(s, t);
    let work = tools_at_work(s, t);
    lemma_reports(work, t.results);
    let m = answer_message(t, s.texts.declined);
    let worked = run(work, reports(t.results)).0;
    assert(worked.tool_message.content =~= m.content);
    let shown = reply_step(worked, ReplyEventView::ToolItemsEnded, t.now, t.uuid);
    assert(shown.1 =~= seq![
        ReplyActionView::Yield(AgentEventView::Message(m)),
        ReplyActionView::NextItem,
    ]);
    assert(shown.0.messages_to_add =~= seq![t.response, m]);
    let ended = reply_step(shown.0, ReplyEventView::StreamEnded, t.now, t.uuid);
    if s.has_session {
        assert(ended.1 =~= seq![ReplyActionView::AddMessages(seq![t.response, m])]);
        let next = reply_step(ended.0, ReplyEventView::Done, t.now, t.uuid);
        assert(next.1 =~= seq![ReplyActionView::CheckTurn]);
    } else {
        assert(ended.1 =~= seq![ReplyActionView::CheckTurn]);
    }
}

/// Whether an answer to a tool request stands in a message.
pub open spec fn answers(m: MessageView, a: ToolResponseView) -> bool {
    m.content.contains(MessageContentView::ToolResponse(a))
}

/// Whether an answer to a tool request stands in a conversation.
pub open spec fn answered(messages: Seq<MessageView>, a: ToolResponseView) -> bool {
    exists|i: int| 0 <= i < messages.len() && answers(#[trigger] messages[i], a)
}

/// An event that reports an answer to a tool request, where it is waited for.
pub open spec fn reports_answer(s: ReplyView, e: ReplyEventView, a: ToolResponseView) -> bool {
    match (s.phase, e) {
        (ReplyPhase::FrontendRunning, ReplyEventView::FrontendDone(l)) => l.contains(a),
        (ReplyPhase::Approving, ReplyEventView::ApprovalDone(l)) => l.contains(a),
        (
            ReplyPhase::ToolsRunning,
            ReplyEventView::ToolItem {
                cancelled: false,
                request_id,
                output: ToolStreamItemView::Result(r),
            },
        ) => a == (ToolResponseView { id: request_id, result: r }),
        _ => false,
    }
}

/// The phases in which the answers of a turn are collected.
pub open spec fn collecting(p: ReplyPhase) -> bool {
    p is FrontendRunning || p is Inspecting || p is Approving || p is ToolsRunning
        || p is ExtensionSaving
}

/// Nothing is left over from an earlier turn when one begins.
pub open spec fn nothing_left(s: ReplyView) -> bool {
    s.phase is TurnStart || s.phase is SwitchCheck || s.phase is StreamOpening
        ==> s.messages_to_add.len() == 0
}

/// An answer is on its way into the conversation.
pub open spec fn answer_kept(s: ReplyView, a: ToolResponseView) -> bool {
    ||| answered(s.conversation, a)
    ||| answered(s.messages_to_add, a)
    ||| collecting(s.phase) && answers(s.tool_message, a)
    ||| s.phase is Finished
}

proof fn lemma_answered_add(x: Seq<MessageView>, y: Seq<MessageView>, a: ToolResponseView)
    ensures
        answered(x + y, a) <==> answered(x, a) || answered(y, a),
{
    if answered(x, a) {
        let i = choose|i: int| 0 <= i < x.len() && answers(#[trigger] x[i], a);
        assert((x + y)[i] == x[i]);
    }
    if answered(y, a) {
        let i = choose|i: int| 0 <= i < y.len() && answers(#[trigger] y[i], a);
        assert((x + y)[i + x.len()] == y[i]);
    }
    if answered(x + y, a) {
        let i = choose|i: int| 0 <= i < (x + y).len() && answers(#[trigger] (x + y)[i], a);
        if i < x.len() {
            assert(x[i] == (x + y)[i]);
        } else {
            assert(y[i - x.len()] == (x + y)[i]);
        }
    }
}

broadcast proof fn lemma_answered_push(x: Seq<MessageView>, m: MessageView, a: ToolResponseView)
    ensures
        #[trigger] answered(x.push(m), a) <==> answered(x, a) || answers(m, a),
{
    lemma_answered_add(x, seq![m], a);
    assert(x + seq![m] =~= x.push(m));
    if answers(m, a) {
        assert(seq![m][0] == m);
    }
}

broadcast proof fn lemma_answering(
    m: MessageView,
    l: Seq<ToolResponseView>,
    a: ToolResponseView,
)
    ensures
        answers(m, a) || l.contains(a) ==> #[trigger] answers(m.answering_all(l), a),
{
    let c = MessageContentView::ToolResponse(a);
    let to = m.answering_all(l).content;
    if answers(m, a) {
        let i = choose|i: int| 0 <= i < m.content.len() && m.content[i] == c;
        assert(to[i] == c);
    }
    if l.contains(a) {
        let i = choose|i: int| 0 <= i < l.len() && l[i] == a;
        assert(to[i + m.content.len()] == c);
    }
}

broadcast proof fn lemma_answering_one(
    m: MessageView,
    id: Seq<char>,
    r: Result<Seq<ContentView>, ErrorDataView>,
    a: ToolResponseView,
)
    ensures
        answers(m, a) || a == (ToolResponseView { id, result: r })
            ==> #[trigger] answers(m.answering(id, r), a),
{
    let c = MessageContentView::ToolResponse(a);
    let to = m.answering(id, r).content;
    if answers(m, a) {
        let i = choose|i: int| 0 <= i < m.content.len() && m.content[i] == c;
        assert(to[i] == c);
    }
    if a == (ToolResponseView { id, result: r }) {
        assert(to[m.content.len() as int] == c);
    }
}

#[verifier::spinoff_prover]
#[verifier::rlimit(80)]
proof fn lemma_nothing_left(s: ReplyView, e: ReplyEventView, now: i64, uuid: Seq<char>)
    requires
        nothing_left(s),
    ensures
        nothing_left(reply_step(s, e, now, uuid).0),
{
}

#[verifier::spinoff_prover]
#[verifier::rlimit(80)]
proof fn lemma_answer_kept(
    s: ReplyView,
    e: ReplyEventView,
    now: i64,
    uuid: Seq<char>,
    a: ToolResponseView,
)
    requires
        nothing_left(s),
        answer_kept(s, a) || reports_answer(s, e, a),
        !replaces_conversation(e),
    ensures
        answer_kept(reply_step(s, e, now, uuid).0, a),
{
    broadcast use {lemma_answered_push, lemma_answering, lemma_answering_one};

    lemma_answered_add(s.conversation, s.messages_to_add, a);
    let t = reply_step(s, e, now, uuid).0;
    match (s.phase, e) {
        (ReplyPhase::Concluding, ReplyEventView::FinalOutputChecked(f)) => {
            match f {
                FinalOutputView::Pending => {
                    let m = MessageView::user_text(now, s.texts.final_output_continuation);
                    lemma_answered_add(s.conversation, s.messages_to_add.push(m), a);
                },
                FinalOutputView::Ready(text) => {
                    let m = MessageView::assistant_text(now, text);
                    lemma_answered_add(s.conversation, s.messages_to_add.push(m), a);
                },
                FinalOutputView::NoTool => {},
            }
        },
        _ => {},
    }
}

proof fn lemma_run_nothing_left(s: ReplyView, events: Seq<TimedEvent>)
    requires
        nothing_left(s),
    ensures
        nothing_left(run(s, events).0),
    decreases events.len(),
{
    if events.len() > 0 {
        lemma_run_nothing_left(s, events.drop_last());
        let e = events.last();
        lemma_nothing_left(run(s, events.drop_last()).0, e.event, e.now, e.uuid);
    }
}

proof fn lemma_run_keeps_answer(s: ReplyView, events: Seq<TimedEvent>, a: ToolResponseView)
    requires
        nothing_left(s),
        answer_kept(s, a),
        forall|i: int|
            0 <= i < events.len() ==> !replaces_conversation((#[trigger] events[i]).event),
    ensures
        answer_kept(run(s, events).0, a),
    decreases events.len(),
{
    if events.len() > 0 {
        let rest = events.drop_last();
        assert forall|i: int| 0 <= i < rest.len() implies !replaces_conversation(
            (#[trigger] rest[i]).event,
        ) by {
            assert(rest[i] == events[i]);
        }
        lemma_run_keeps_answer(s, rest, a);
        lemma_run_nothing_left(s, rest);
        let e = events.last();
        assert(e == events[events.len() - 1]);
        lemma_answer_kept(run(s, rest).0, e.event, e.now, e.uuid, a);
    }
}

/// No answer to a tool request is lost: whatever comes before and after, what the
/// frontend, the user or a tool answered stands in the conversation, under the id
/// of its request, at the start of every later turn.
pub proof fn law_no_answer_is_lost(
    start: ReplyView,
    before: Seq<TimedEvent>,
    e: TimedEvent,
    after: Seq<TimedEvent>,
    a: ToolResponseView,
)
    requires
        start == reply_start(
            start.has_session,
            start.goose_mode,
            start.max_turns,
            start.texts,
            start.conversation,
        ),
        reports_answer(run(start, before).0, e.event, a),
        forall|i: int|
            0 <= i < after.len() ==> !replaces_conversation((#[trigger] after[i]).event),
    ensures
        ({
            let s = run(run(start, before.push(e)).0, after).0;
            s.phase is TurnStart ==> answered(s.conversation, a)
        }),
{
    lemma_run_nothing_left(start, before);
    let s = run(start, before).0;
    assert(before.push(e).drop_last() =~= before);
    lemma_answer_kept(s, e.event, e.now, e.uuid, a);
    lemma_run_nothing_left(start, before.push(e));
    let t = run(start, before.push(e)).0;
    lemma_run_keeps_answer(t, after, a);
    lemma_run_nothing_left(t, after);
}

/// The provider said a message, where one was waited for.
pub open spec fn says(s: ReplyView, e: ReplyEventView, m: MessageView) -> bool {
    &&& s.phase is Streaming
    &&& e matches ReplyEventView::StreamItem { cancelled, item } && !cancelled && (
    item matches StreamItemView::Reply { lead_worker, usage_model, response } && response
        == Some(m))
}

/// A message of the provider is on its way into the conversation.
pub open spec fn saying_kept(s: ReplyView, m: MessageView) -> bool {
    ||| s.conversation.contains(m)
    ||| s.messages_to_add.contains(m)
    ||| s.phase is UsageRecording && s.pending_response == Some(m)
    ||| s.phase is Finished
}

proof fn lemma_contains_add(x: Seq<MessageView>, y: Seq<MessageView>, m: MessageView)
    ensures
        (x + y).contains(m) <==> x.contains(m) || y.contains(m),
{
    if x.contains(m) {
        let i = choose|i: int| 0 <= i < x.len() && x[i] == m;
        assert((x + y)[i] == m);
    }
    if y.contains(m) {
        let i = choose|i: int| 0 <= i < y.len() && y[i] == m;
        assert((x + y)[i + x.len()] == m);
    }
}

broadcast proof fn lemma_contains_push(x: Seq<MessageView>, y: MessageView, m: MessageView)
    ensures
        #[trigger] x.push(y).contains(m) <==> x.contains(m) || y == m,
{
    lemma_contains_add(x, seq![y], m);
    assert(x + seq![y] =~= x.push(y));
    if y == m {
        assert(seq![y][0] == m);
    }
}

#[verifier::spinoff_prover]
#[verifier::rlimit(80)]
proof fn lemma_saying_kept(
    s: ReplyView,
    e: ReplyEventView,
    now: i64,
    uuid: Seq<char>,
    m: MessageView,
)
    requires
        nothing_left(s),
        saying_kept(s, m) || says(s, e, m),
        !replaces_conversation(e),
    ensures
        saying_kept(reply_step(s, e, now, uuid).0, m),
{
    broadcast use lemma_contains_push;

    lemma_contains_add(s.conversation, s.messages_to_add, m);
    match (s.phase, e) {
        (ReplyPhase::Concluding, ReplyEventView::FinalOutputChecked(f)) => {
            match f {
                FinalOutputView::Pending => {
                    let x = MessageView::user_text(now, s.texts.final_output_continuation);
                    lemma_contains_add(s.conversation, s.messages_to_add.push(x), m);
                },
                FinalOutputView::Ready(text) => {
                    let x = MessageView::assistant_text(now, text);
                    lemma_contains_add(s.conversation, s.messages_to_add.push(x), m);
                },
                FinalOutputView::NoTool => {},
            }
        },
        _ => {},
    }
}

proof fn lemma_run_keeps_saying(s: ReplyView, events: Seq<TimedEvent>, m: MessageView)
    requires
        nothing_left(s),
        saying_kept(s, m),
        forall|i: int|
            0 <= i < events.len() ==> !replaces_conversation((#[trigger] events[i]).event),
    ensures
        saying_kept(run(s, events).0, m),
    decreases events.len(),
{
    if events.len() > 0 {
        let rest = events.drop_last();
        assert forall|i: int| 0 <= i < rest.len() implies !replaces_conversation(
            (#[trigger] rest[i]).event,
        ) by {
            assert(rest[i] == events[i]);
        }
        lemma_run_keeps_saying(s, rest, m);
        lemma_run_nothing_left(s, rest);
        let e = events.last();
        assert(e == events[events.len() - 1]);
        lemma_saying_kept(run(s, rest).0, e.event, e.now, e.uuid, m);
    }
}

/// Nothing that the provider said is lost: each of its messages stands in the
/// conversation, unchanged, at the start of every later turn.
pub proof fn law_no_response_is_lost(
    start: ReplyView,
    before: Seq<TimedEvent>,
    e: TimedEvent,
    after: Seq<TimedEvent>,
    m: MessageView,
)
    requires
        start == reply_start(
            start.has_session,
            start.goose_mode,
            start.max_turns,
            start.texts,
            start.conversation,
        ),
        says(run(start, before).0, e.event, m),
        forall|i: int|
            0 <= i < after.len() ==> !replaces_conversation((#[trigger] after[i]).event),
    ensures
        ({
            let s = run(run(start, before.push(e)).0, after).0;
            s.phase is TurnStart ==> s.conversation.contains(m)
        }),
{
    lemma_run_nothing_left(start, before);
    let s = run(start, before).0;
    assert(before.push(e).drop_last() =~= before);
    lemma_saying_kept(s, e.event, e.now, e.uuid, m);
    lemma_run_nothing_left(start, before.push(e));
    let t = run(start, before.push(e)).0;
    lemma_run_keeps_saying(t, after, m);
    lemma_run_nothing_left(t, after);
}

} // verus!
