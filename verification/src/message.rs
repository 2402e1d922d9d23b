//! Messages of a conversation.
use crate::base::{self, Duplicate, Same};
use crate::tool::{self, ContentView, ErrorDataView, ToolRequest, ToolRequestView, ToolResult};
use crate::text;
use vstd::prelude::*;
use vstd::string::*;

verus! {

/// Who speaks.
#[derive(Debug, Clone, Copy, PartialEq, Eq, Structural)]
pub enum Role {
    User,
    Assistant,
}

/// The answer to a tool request.
#[derive(Debug, PartialEq)]
pub struct ToolResponse {
    pub id: String,
    pub result: ToolResult,
}

pub struct ToolResponseView {
    pub id: Seq<char>,
    pub result: Result<Seq<ContentView>, ErrorDataView>,
}

impl DeepView for ToolResponse {
    type V = ToolResponseView;

    open spec fn deep_view(&self) -> ToolResponseView {
        ToolResponseView { id: self.id@, result: tool::tool_result_view(self.result) }
    }
}

impl Duplicate for ToolResponse {
    fn duplicate(&self) -> (r: Self) {
        ToolResponse { id: self.id.clone(), result: tool::duplicate_result(&self.result) }
    }
}

/// One piece of a message. Anything that the agent only passes on is known by a
/// number under which the caller finds it again.
#[derive(Debug, PartialEq)]
pub enum MessageContent {
    Text(String),
    ToolRequest(ToolRequest),
    ToolResponse(ToolResponse),
    FrontendToolRequest(ToolRequest),
    ConversationCompacted(String),
    Opaque(u64),
}

pub enum MessageContentView {
    Text(Seq<char>),
    ToolRequest(ToolRequestView),
    ToolResponse(ToolResponseView),
    FrontendToolRequest(ToolRequestView),
    ConversationCompacted(Seq<char>),
    Opaque(u64),
}

impl DeepView for MessageContent {
    type V = MessageContentView;

    open spec fn deep_view(&self) -> MessageContentView {
        match self {
            MessageContent::Text(s) => MessageContentView::Text(s@),
            MessageContent::ToolRequest(q) => MessageContentView::ToolRequest(q.deep_view()),
            MessageContent::ToolResponse(a) => MessageContentView::ToolResponse(a.deep_view()),
            MessageContent::FrontendToolRequest(q) => MessageContentView::FrontendToolRequest(
                q.deep_view(),
            ),
            MessageContent::ConversationCompacted(s) => MessageContentView::ConversationCompacted(
                s@,
            ),
            MessageContent::Opaque(h) => MessageContentView::Opaque(*h),
        }
    }
}

impl Duplicate for MessageContent {
    fn duplicate(&self) -> (r: Self) {
        match self {
            MessageContent::Text(s) => MessageContent::Text(s.clone()),
            MessageContent::ToolRequest(q) => MessageContent::ToolRequest(q.duplicate()),
            MessageContent::ToolResponse(a) => MessageContent::ToolResponse(a.duplicate()),
            MessageContent::FrontendToolRequest(q) => MessageContent::FrontendToolRequest(
                q.duplicate(),
            ),
            MessageContent::ConversationCompacted(s) => MessageContent::ConversationCompacted(
                s.clone(),
            ),
            MessageContent::Opaque(h) => MessageContent::Opaque(*h),
        }
    }
}

/// A message: who spoke, when (in seconds since 1970), and what.
#[derive(Debug, PartialEq)]
pub struct Message {
    pub id: Option<String>,
    pub role: Role,
    pub created: i64,
    pub content: Vec<MessageContent>,
}

#[verifier::ext_equal]
pub struct MessageView {
    pub id: Option<Seq<char>>,
    pub role: Role,
    pub created: i64,
    pub content: Seq<MessageContentView>,
}

impl DeepView for Message {
    type V = MessageView;

    open spec fn deep_view(&self) -> MessageView {
        MessageView {
            id: self.id.deep_view(),
            role: self.role,
            created: self.created,
            content: self.content.deep_view(),
        }
    }
}

impl Duplicate for Message {
    fn duplicate(&self) -> (r: Self) {
        Message {
            id: self.id.duplicate(),
            role: self.role,
            created: self.created,
            content: self.content.duplicate(),
        }
    }
}

impl Same for ToolResponse {
    fn same(&self, other: &Self) -> (r: bool) {
        let same_result = match (&self.result, &other.result) {
            (Ok(a), Ok(b)) => a.same(b),
            (Err(a), Err(b)) => a.same(b),
            _ => false,
        };
        same_result && text::str_eq(&self.id, &other.id)
    }
}

impl Same for MessageContent {
    fn same(&self, other: &Self) -> (r: bool) {
        match (self, other) {
            (MessageContent::Text(a), MessageContent::Text(b)) => text::str_eq(a, b),
            (MessageContent::ToolRequest(a), MessageContent::ToolRequest(b)) => a.same(b),
            (MessageContent::ToolResponse(a), MessageContent::ToolResponse(b)) => a.same(b),
            (MessageContent::FrontendToolRequest(a), MessageContent::FrontendToolRequest(b)) => {
                a.same(b)
            },
            (
                MessageContent::ConversationCompacted(a),
                MessageContent::ConversationCompacted(b),
            ) => text::str_eq(a, b),
            (MessageContent::Opaque(a), MessageContent::Opaque(b)) => *a == *b,
            _ => false,
        }
    }
}

impl Same for Message {
    fn same(&self, other: &Self) -> (r: bool) {
        self.id.same(&other.id) && self.role == other.role && self.created == other.created
            && self.content.same(&other.content)
    }
}

impl MessageView {
    /// A message of one piece, without an id.
    pub open spec fn of(role: Role, created: i64, piece: MessageContentView) -> MessageView {
        MessageView { id: None, role, created, content: seq![piece] }
    }

    /// A text of the assistant.
    pub open spec fn assistant_text(created: i64, s: Seq<char>) -> MessageView {
        MessageView::of(Role::Assistant, created, MessageContentView::Text(s))
    }

    /// A text of the user.
    pub open spec fn user_text(created: i64, s: Seq<char>) -> MessageView {
        MessageView::of(Role::User, created, MessageContentView::Text(s))
    }

    /// The assistant's note that the conversation has been compacted.
    pub open spec fn compacted(created: i64, s: Seq<char>) -> MessageView {
        MessageView::of(Role::Assistant, created, MessageContentView::ConversationCompacted(s))
    }

    /// The message with one more answer to a tool request.
    pub open spec fn answering(
        self,
        id: Seq<char>,
        result: Result<Seq<ContentView>, ErrorDataView>,
    ) -> MessageView {
        MessageView {
            content: self.content.push(
                MessageContentView::ToolResponse(ToolResponseView { id, result }),
            ),
            ..self
        }
    }

    /// The message with one more answer for each of a list.
    pub open spec fn answering_all(self, answers: Seq<ToolResponseView>) -> MessageView {
        MessageView {
            content: self.content + answers.map_values(
                |a: ToolResponseView| MessageContentView::ToolResponse(a),
            ),
            ..self
        }
    }
}

impl Message {
    /// A message of one piece, without an id.
    pub fn of(role: Role, created: i64, piece: MessageContent) -> (r: Self)
        ensures
            r.deep_view() == MessageView::of(role, created, piece.deep_view()),
    {
        Message { id: None, role, created, content: base::single(piece) }
    }

    /// A text of the assistant.
    pub fn assistant_text(created: i64, s: String) -> (r: Self)
        ensures
            r.deep_view() == MessageView::assistant_text(created, s@),
    {
        Message::of(Role::Assistant, created, MessageContent::Text(s))
    }

    /// A text of the user.
    pub fn user_text(created: i64, s: String) -> (r: Self)
        ensures
            r.deep_view() == MessageView::user_text(created, s@),
    {
        Message::of(Role::User, created, MessageContent::Text(s))
    }

    /// The assistant's note that the conversation has been compacted.
    pub fn compacted(created: i64, s: String) -> (r: Self)
        ensures
            r.deep_view() == MessageView::compacted(created, s@),
    {
        Message::of(Role::Assistant, created, MessageContent::ConversationCompacted(s))
    }

    /// Adds an answer to a tool request.
    pub fn answer(&mut self, id: String, result: ToolResult)
        ensures
            final(self).deep_view() == old(self).deep_view().answering(
                id@,
                tool::tool_result_view(result),
            ),
    {
        base::push(
            &mut self.content,
            MessageContent::ToolResponse(ToolResponse { id, result }),
        );
    }

    /// Adds an answer for each of a list.
    pub fn answer_all(&mut self, answers: &Vec<ToolResponse>)
        ensures
            final(self).deep_view() == old(self).deep_view().answering_all(answers.deep_view()),
    {
        let ghost before = self.deep_view();
        let ghost list = answers.deep_view();
        assert(before.answering_all(list.take(0)) =~= before);
        let mut i: usize = 0;
        while i < answers.len()
            invariant
                i <= answers@.len(),
                list == answers.deep_view(),
                self.deep_view() == before.answering_all(list.take(i as int)),
            decreases answers@.len() - i,
        {
            self.answer(answers[i].id.clone(), tool::duplicate_result(&answers[i].result));
            assert(before.answering_all(list.take(i as int)).answering(
                list[i as int].id,
                list[i as int].result,
            ) =~= before.answering_all(list.take(i + 1)));
            i = i + 1;
        }
        assert(list.take(answers@.len() as int) =~= list);
    }
}

} // verus!
