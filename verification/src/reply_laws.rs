//! What holds of every run of the reply loop.
use crate::message::MessageView;
use crate::reply::{
    dispatches, max_turns_text, reply_start, reply_step, session_sync, AgentEventView,
    ReplyActionView, ReplyEventView, ReplyPhase, ReplyStep, ReplyTextsView, ReplyView,
    SessionSyncView,
};
use crate::tool::ToolRequestView;
use vstd::prelude::*;

verus! {

/// An event with the time and the identifier that go with it.
pub struct TimedEvent {
    pub event: ReplyEventView,
    pub now: i64,
    pub uuid: Seq<char>,
}

/// The state and all actions after a list of events.
pub open spec fn run(s: ReplyView, events: Seq<TimedEvent>) -> ReplyStep
    decreases events.len(),
{
    if events.len() == 0 {
        (s, Seq::empty())
    } else {
        let before = run(s, events.drop_last());
        let e = events.last();
        let after = reply_step(before.0, e.event, e.now, e.uuid);
        (after.0, before.1 + after.1)
    }
}

/// How often the provider is asked.
pub open spec fn streams_opened(a: Seq<ReplyActionView>) -> nat
    decreases a.len(),
{
    if a.len() == 0 {
        0
    } else {
        streams_opened(a.drop_last()) + if a.last() is OpenStream {
            1nat
        } else {
            0nat
        }
    }
}

broadcast proof fn lemma_streams_opened_push(a: Seq<ReplyActionView>, x: ReplyActionView)
    ensures
        #[trigger] streams_opened(a.push(x)) == streams_opened(a) + if x is OpenStream {
            1nat
        } else {
            0nat
        },
{
    assert(a.push(x).drop_last() =~= a);
}

proof fn lemma_streams_opened_add(a: Seq<ReplyActionView>, b: Seq<ReplyActionView>)
    ensures
        streams_opened(a + b) == streams_opened(a) + streams_opened(b),
    decreases b.len(),
{
    if b.len() == 0 {
        assert(a + b =~= a);
    } else {
        assert((a + b).drop_last() =~= a + b.drop_last());
        lemma_streams_opened_add(a, b.drop_last());
    }
}

proof fn lemma_dispatches_open_no_stream(q: Seq<ToolRequestView>)
    ensures
        streams_opened(dispatches(q)) == 0,
    decreases q.len(),
{
    if q.len() > 0 {
        lemma_dispatches_open_no_stream(q.drop_last());
        let rest = dispatches(q.drop_last());
        match q.last().tool_call {
            Ok(call) => {
                assert(dispatches(q).drop_last() =~= rest);
            },
            Err(_) => {},
        }
    }
}

/// One step asks the provider only out of a counted turn.
#[verifier::rlimit(60)]
proof fn lemma_step_counts(s: ReplyView, e: ReplyEventView, now: i64, uuid: Seq<char>)
    requires
        s.turns_taken <= s.max_turns,
    ensures
        ({
            let t = reply_step(s, e, now, uuid);
            let waiting = |v: ReplyView|
                if v.phase == ReplyPhase::SwitchCheck {
                    1int
                } else {
                    0int
                };
            &&& t.0.max_turns == s.max_turns
            &&& t.0.turns_taken <= t.0.max_turns
            &&& streams_opened(t.1) + s.turns_taken - waiting(s) <= t.0.turns_taken - waiting(t.0)
        }),
{
    broadcast use lemma_streams_opened_push;

    match (s.phase, e) {
        (ReplyPhase::Inspecting, ReplyEventView::Inspected(p)) => {
            lemma_dispatches_open_no_stream(crate::reply::verdict(p, s.remaining).approved);
        },
        _ => {},
    }
}

proof fn lemma_run_counts(s: ReplyView, events: Seq<TimedEvent>)
    requires
        s.turns_taken == 0,
        s.phase == ReplyPhase::TurnStart,
    ensures
        ({
            let t = run(s, events);
            &&& t.0.max_turns == s.max_turns
            &&& t.0.turns_taken <= t.0.max_turns
            &&& streams_opened(t.1) <= t.0.turns_taken - if t.0.phase == ReplyPhase::SwitchCheck {
                1int
            } else {
                0int
            }
        }),
    decreases events.len(),
{
    if events.len() > 0 {
        lemma_run_counts(s, events.drop_last());
        let before = run(s, events.drop_last());
        let e = events.last();
        lemma_step_counts(before.0, e.event, e.now, e.uuid);
        lemma_streams_opened_add(
            before.1,
            reply_step(before.0, e.event, e.now, e.uuid).1,
        );
    }
}

/// Whatever happens during a reply, it asks the provider at most as often as
/// the limit of turns allows.
pub proof fn law_turn_limit(
    has_session: bool,
    goose_mode: Seq<char>,
    max_turns: u32,
    texts: ReplyTextsView,
    conversation: Seq<MessageView>,
    events: Seq<TimedEvent>,
)
    ensures
        streams_opened(
            run(
                reply_start(has_session, goose_mode, max_turns, texts, conversation),
                events,
            ).1,
        ) <= max_turns,
{
    lemma_run_counts(reply_start(has_session, goose_mode, max_turns, texts, conversation), events);
}

/// An event of a reply that nothing interrupts and in which every answer asks for a
/// tool: nothing is cancelled or fails, no final output is there, and a stream does
/// not end before an answer with a request has been worked off.
pub open spec fn busy(s: ReplyView, e: ReplyEventView) -> bool {
    match e {
        ReplyEventView::TurnChecked { cancelled, final_output } => !cancelled && !(
        final_output is Ready),
        ReplyEventView::StreamItem { cancelled, item } => !cancelled && item is Reply,
        ReplyEventView::Categorized(c) => c.frontend_requests.len() + c.remaining_requests.len()
            > 0,
        ReplyEventView::ToolItem { cancelled, .. } => !cancelled,
        ReplyEventView::StreamEnded => s.phase == ReplyPhase::Streaming ==> !s.no_tools_called,
        ReplyEventView::Failed => s.phase == ReplyPhase::ExtensionSaving,
        _ => true,
    }
}

/// Every event of a run is one of a busy reply.
pub open spec fn busy_run(s: ReplyView, events: Seq<TimedEvent>) -> bool
    decreases events.len(),
{
    events.len() > 0 ==> busy_run(s, events.drop_last()) && busy(
        run(s, events.drop_last()).0,
        events.last().event,
    )
}

/// What holds of the state of a busy reply.
spec fn busy_state(s: ReplyView) -> bool {
    &&& s.phase != ReplyPhase::Concluding && s.phase != ReplyPhase::Retrying
    &&& s.phase != ReplyPhase::Compacting && s.phase != ReplyPhase::HistoryStoring
    &&& s.phase == ReplyPhase::Persisting ==> !s.exit_chat
    &&& s.phase == ReplyPhase::ToolsPreparing ==> !s.no_tools_called
    &&& s.turns_taken <= s.max_turns
    &&& s.phase == ReplyPhase::Finished ==> s.turns_taken == s.max_turns
}

/// The words at the limit, and the end.
pub open spec fn ends_at_limit(a: Seq<ReplyActionView>) -> bool {
    &&& a.len() >= 2
    &&& a[a.len() - 1] is Stop
    &&& a[a.len() - 2] matches ReplyActionView::Yield(AgentEventView::Message(m)) && m
        == MessageView::assistant_text(m.created, max_turns_text())
}

#[verifier::spinoff_prover]
#[verifier::rlimit(80)]
proof fn lemma_busy_step(s: ReplyView, e: ReplyEventView, now: i64, uuid: Seq<char>)
    requires
        busy_state(s),
        busy(s, e),
    ensures
        ({
            let t = reply_step(s, e, now, uuid);
            let waiting = |v: ReplyView|
                if v.phase == ReplyPhase::SwitchCheck {
                    1int
                } else {
                    0int
                };
            &&& busy_state(t.0)
            &&& t.0.max_turns == s.max_turns
            &&& streams_opened(t.1) + s.turns_taken - waiting(s) == t.0.turns_taken - waiting(t.0)
            &&& s.phase != ReplyPhase::Finished && t.0.phase == ReplyPhase::Finished
                ==> ends_at_limit(t.1)
        }),
{
    broadcast use lemma_streams_opened_push;

    match (s.phase, e) {
        (ReplyPhase::Inspecting, ReplyEventView::Inspected(p)) => {
            lemma_dispatches_open_no_stream(crate::reply::verdict(p, s.remaining).approved);
        },
        _ => {},
    }
}

proof fn lemma_busy_run(s: ReplyView, events: Seq<TimedEvent>)
    requires
        s.turns_taken == 0,
        s.phase == ReplyPhase::TurnStart,
        busy_run(s, events),
    ensures
        ({
            let t = run(s, events);
            &&& busy_state(t.0)
            &&& t.0.max_turns == s.max_turns
            &&& streams_opened(t.1) == t.0.turns_taken - if t.0.phase == ReplyPhase::SwitchCheck {
                1int
            } else {
                0int
            }
            &&& t.0.phase == ReplyPhase::Finished ==> ends_at_limit(t.1)
        }),
    decreases events.len(),
{
    if events.len() > 0 {
        lemma_busy_run(s, events.drop_last());
        let before = run(s, events.drop_last());
        let e = events.last();
        lemma_busy_step(before.0, e.event, e.now, e.uuid);
        let after = reply_step(before.0, e.event, e.now, e.uuid);
        lemma_streams_opened_add(before.1, after.1);
        if before.0.phase == ReplyPhase::Finished {
            law_finished_is_final(before.0, e.event, e.now, e.uuid);
            assert(before.1 + after.1 =~= before.1);
        } else if after.0.phase == ReplyPhase::Finished {
            let n = before.1.len() + after.1.len();
            assert((before.1 + after.1)[n - 1] == after.1[after.1.len() - 1]);
            assert((before.1 + after.1)[n - 2] == after.1[after.1.len() - 2]);
        }
    }
}

/// A reply in which every answer asks for a tool, and that nothing interrupts, stops
/// only after it has asked the provider as often as the limit of turns allows, and
/// its last message says so.
pub proof fn law_busy_reply_ends_at_limit(
    has_session: bool,
    goose_mode: Seq<char>,
    max_turns: u32,
    texts: ReplyTextsView,
    conversation: Seq<MessageView>,
    events: Seq<TimedEvent>,
)
    requires
        busy_run(reply_start(has_session, goose_mode, max_turns, texts, conversation), events),
    ensures
        ({
            let t = run(
                reply_start(has_session, goose_mode, max_turns, texts, conversation),
                events,
            );
            t.0.phase == ReplyPhase::Finished ==> streams_opened(t.1) == max_turns && ends_at_limit(
                t.1,
            )
        }),
{
    lemma_busy_run(reply_start(has_session, goose_mode, max_turns, texts, conversation), events);
}

/// A finished reply stays as it is and does nothing more.
pub proof fn law_finished_is_final(s: ReplyView, e: ReplyEventView, now: i64, uuid: Seq<char>)
    requires
        s.phase == ReplyPhase::Finished,
    ensures
        reply_step(s, e, now, uuid) == (s, Seq::<ReplyActionView>::empty()),
{
}

/// A phase in which requests are on their way to extensions.
pub open spec fn running_tools(p: ReplyPhase) -> bool {
    p == ReplyPhase::Inspecting || p == ReplyPhase::Approving || p == ReplyPhase::ToolsRunning || p
        == ReplyPhase::ExtensionSaving
}

/// An action that brings a request closer to an extension.
pub open spec fn runs_tool(a: ReplyActionView) -> bool {
    a is InspectTools || a is Dispatch || a is RequestApproval || a is NextToolItem
}

/// None of a list of actions brings a request closer to an extension.
pub open spec fn quiet(a: Seq<ReplyActionView>) -> bool {
    forall|i: int| 0 <= i < a.len() ==> !runs_tool(#[trigger] a[i])
}

broadcast proof fn lemma_quiet_push(a: Seq<ReplyActionView>, x: ReplyActionView)
    requires
        quiet(a),
        !runs_tool(x),
    ensures
        #[trigger] quiet(a.push(x)),
{
}

#[verifier::rlimit(60)]
proof fn lemma_chat_step(s: ReplyView, e: ReplyEventView, now: i64, uuid: Seq<char>)
    requires
        s.goose_mode == "chat"@,
        !running_tools(s.phase),
    ensures
        reply_step(s, e, now, uuid).0.goose_mode == "chat"@,
        !running_tools(reply_step(s, e, now, uuid).0.phase),
        quiet(reply_step(s, e, now, uuid).1),
{
    broadcast use lemma_quiet_push;

}

/// In chat mode no request ever reaches an extension.
pub proof fn law_chat_runs_no_tool(
    has_session: bool,
    max_turns: u32,
    texts: ReplyTextsView,
    conversation: Seq<MessageView>,
    events: Seq<TimedEvent>,
)
    ensures
        quiet(
            run(reply_start(has_session, "chat"@, max_turns, texts, conversation), events).1,
        ),
{
    lemma_chat_run(reply_start(has_session, "chat"@, max_turns, texts, conversation), events);
}

proof fn lemma_chat_run(s: ReplyView, events: Seq<TimedEvent>)
    requires
        s.goose_mode == "chat"@,
        !running_tools(s.phase),
    ensures
        run(s, events).0.goose_mode == "chat"@,
        !running_tools(run(s, events).0.phase),
        quiet(run(s, events).1),
    decreases events.len(),
{
    if events.len() > 0 {
        lemma_chat_run(s, events.drop_last());
        let before = run(s, events.drop_last());
        let e = events.last();
        lemma_chat_step(before.0, e.event, e.now, e.uuid);
        let after = reply_step(before.0, e.event, e.now, e.uuid);
        assert(quiet(before.1 + after.1));
    }
}

proof fn lemma_dispatched(q: Seq<ToolRequestView>)
    ensures
        forall|i: int|
            0 <= i < dispatches(q).len() ==> exists|j: int|
                0 <= j < q.len() && q[j].tool_call is Ok && #[trigger] dispatches(q)[i] == (
                ReplyActionView::Dispatch {
                    request_id: (#[trigger] q[j]).id,
                    call: q[j].tool_call->Ok_0,
                }),
    decreases q.len(),
{
    if q.len() > 0 {
        lemma_dispatched(q.drop_last());
        let rest = dispatches(q.drop_last());
        assert forall|i: int| 0 <= i < dispatches(q).len() implies exists|j: int|
            0 <= j < q.len() && q[j].tool_call is Ok && #[trigger] dispatches(q)[i] == (
            ReplyActionView::Dispatch {
                request_id: (#[trigger] q[j]).id,
                call: q[j].tool_call->Ok_0,
            }) by {
            if i < rest.len() {
                assert(dispatches(q)[i] == rest[i]);
                let j = choose|j: int|
                    0 <= j < q.drop_last().len() && q.drop_last()[j].tool_call is Ok && rest[i]
                        == (ReplyActionView::Dispatch {
                        request_id: (#[trigger] q.drop_last()[j]).id,
                        call: q.drop_last()[j].tool_call->Ok_0,
                    });
                assert(q[j] == q.drop_last()[j]);
            } else {
                assert(q[q.len() - 1] == q.last());
            }
        }
    }
}

/// Only a request that was approved is dispatched, and what is dispatched is
/// the call that it made.
pub proof fn law_only_approved_run(
    s: ReplyView,
    e: ReplyEventView,
    now: i64,
    uuid: Seq<char>,
    i: int,
)
    requires
        0 <= i < reply_step(s, e, now, uuid).1.len(),
        reply_step(s, e, now, uuid).1[i] is Dispatch,
    ensures
        e matches ReplyEventView::Inspected(Some(p)) && exists|j: int|
            0 <= j < p.approved.len() && (#[trigger] p.approved[j]).tool_call is Ok && reply_step(
                s,
                e,
                now,
                uuid,
            ).1[i] == (ReplyActionView::Dispatch {
                request_id: p.approved[j].id,
                call: p.approved[j].tool_call->Ok_0,
            }),
{
    match (s.phase, e) {
        (ReplyPhase::Inspecting, ReplyEventView::Inspected(p)) => {
            let v = crate::reply::verdict(p, s.remaining);
            lemma_dispatched(v.approved);
            assert(reply_step(s, e, now, uuid).1[i] == dispatches(v.approved)[i]);
        },
        _ => {},
    }
}

/// The events that bring a conversation of their own.
pub open spec fn replaces_conversation(e: ReplyEventView) -> bool {
    e is Compacted || e is RetryDone || e is RetryFailed
}

/// A conversation only grows, but for the events that bring one of their own.
#[verifier::spinoff_prover]
#[verifier::rlimit(80)]
pub proof fn law_conversation_grows(s: ReplyView, e: ReplyEventView, now: i64, uuid: Seq<char>)
    requires
        !replaces_conversation(e),
    ensures
        s.conversation.is_prefix_of(reply_step(s, e, now, uuid).0.conversation),
{
    let c = reply_step(s, e, now, uuid).0.conversation;
    if c.len() > s.conversation.len() {
        assert(c.take(s.conversation.len() as int) =~= s.conversation);
    }
}

/// The tools are prepared anew only after requests that manage extensions of which
/// none failed.
#[verifier::spinoff_prover]
#[verifier::rlimit(80)]
pub proof fn law_tools_change_with_extensions(
    s: ReplyView,
    e: ReplyEventView,
    now: i64,
    uuid: Seq<char>,
)
    requires
        !s.tools_updated,
        reply_step(s, e, now, uuid).0.tools_updated,
    ensures
        s.phase == ReplyPhase::ToolsRunning,
        s.installs_succeeded,
        s.extension_request_ids.len() > 0,
{
}

/// A cancelled reply ends before the next turn, without another word.
pub proof fn law_cancelled_turn_stops(
    s: ReplyView,
    f: crate::reply::FinalOutputView,
    now: i64,
    uuid: Seq<char>,
)
    requires
        s.phase == ReplyPhase::TurnStart,
    ensures
        ({
            let t = reply_step(
                s,
                ReplyEventView::TurnChecked { cancelled: true, final_output: f },
                now,
                uuid,
            );
            t.0.phase == ReplyPhase::Finished && t.1 == seq![ReplyActionView::Stop]
        }),
{
    let t = reply_step(
        s,
        ReplyEventView::TurnChecked { cancelled: true, final_output: f },
        now,
        uuid,
    );
    assert(t.1 =~= seq![ReplyActionView::Stop]);
}

/// The stored conversation after what `session_sync` asks for.
pub open spec fn synced(incoming: Seq<MessageView>, stored: Seq<MessageView>) -> Seq<MessageView> {
    match session_sync(incoming, stored) {
        SessionSyncView::Keep => stored,
        SessionSyncView::Append(m) => stored.push(m),
        SessionSyncView::Replace => incoming,
    }
}

/// Where the incoming conversation is the stored one, or the stored one with
/// one message more, or has any other length, the stored conversation ends up
/// as the incoming one.
pub proof fn law_session_synced(incoming: Seq<MessageView>, stored: Seq<MessageView>)
    requires
        incoming.len() == stored.len() + 1 ==> incoming.drop_last() == stored,
    ensures
        synced(incoming, stored) == incoming,
{
    if incoming.len() == stored.len() + 1 {
        assert(stored.push(incoming.last()) =~= incoming);
    }
}

} // verus!
