//! Requests of extensions to use the model, which the user approves or not.
use crate::base::{self, Duplicate};
use crate::fresh;
use crate::message::Role;
use crate::text;
use crate::text_list::{self, without_text};
use vstd::prelude::*;
use vstd::string::*;

verus! {

/// One message of a request.
#[derive(Debug, PartialEq)]
pub struct SamplingMessageContent {
    pub role: String,
    pub content: String,
}

#[verifier::ext_equal]
pub struct SamplingMessageContentView {
    pub role: Seq<char>,
    pub content: Seq<char>,
}

impl DeepView for SamplingMessageContent {
    type V = SamplingMessageContentView;

    open spec fn deep_view(&self) -> SamplingMessageContentView {
        SamplingMessageContentView {
            role: self.role@,
            content: self.content@,
        }
    }
}

impl Duplicate for SamplingMessageContent {
    fn duplicate(&self) -> (r: Self) {
        SamplingMessageContent {
            role: self.role.clone(),
            content: self.content.clone(),
        }
    }
}

/// A request of an extension to use the model.
#[derive(Debug, PartialEq)]
pub struct SamplingRequest {
    pub request_id: String,
    pub extension_name: String,
    pub messages: Vec<SamplingMessageContent>,
    pub system_prompt: Option<String>,
    pub max_tokens: u32,
}

#[verifier::ext_equal]
pub struct SamplingRequestView {
    pub request_id: Seq<char>,
    pub extension_name: Seq<char>,
    pub messages: Seq<SamplingMessageContentView>,
    pub system_prompt: Option<Seq<char>>,
    pub max_tokens: u32,
}

impl DeepView for SamplingRequest {
    type V = SamplingRequestView;

    open spec fn deep_view(&self) -> SamplingRequestView {
        SamplingRequestView {
            request_id: self.request_id@,
            extension_name: self.extension_name@,
            messages: self.messages.deep_view(),
            system_prompt: self.system_prompt.deep_view(),
            max_tokens: self.max_tokens,
        }
    }
}

impl Duplicate for SamplingRequest {
    fn duplicate(&self) -> (r: Self) {
        SamplingRequest {
            request_id: self.request_id.clone(),
            extension_name: self.extension_name.clone(),
            messages: self.messages.duplicate(),
            system_prompt: self.system_prompt.duplicate(),
            max_tokens: self.max_tokens,
        }
    }
}

/// The user's answer to a request.
#[derive(Debug, PartialEq)]
pub struct SamplingResponse {
    pub request_id: String,
    pub approved: bool,
}

#[verifier::ext_equal]
pub struct SamplingResponseView {
    pub request_id: Seq<char>,
    pub approved: bool,
}

impl DeepView for SamplingResponse {
    type V = SamplingResponseView;

    open spec fn deep_view(&self) -> SamplingResponseView {
        SamplingResponseView {
            request_id: self.request_id@,
            approved: self.approved,
        }
    }
}

impl Duplicate for SamplingResponse {
    fn duplicate(&self) -> (r: Self) {
        SamplingResponse {
            request_id: self.request_id.clone(),
            approved: self.approved,
        }
    }
}

/// The requests that wait for an answer, and those who are told of new requests,
/// each known by a number.
#[derive(Debug, PartialEq)]
pub struct SamplingApprovalState {
    pub pending: Vec<String>,
    pub subscribers: Vec<u64>,
}

#[verifier::ext_equal]
pub struct ApprovalView {
    pub pending: Seq<Seq<char>>,
    pub subscribers: Seq<u64>,
}

impl DeepView for SamplingApprovalState {
    type V = ApprovalView;

    open spec fn deep_view(&self) -> ApprovalView {
        ApprovalView {
            pending: self.pending.deep_view(),
            subscribers: self.subscribers.deep_view(),
        }
    }
}

/// How long a request waits for an answer, in seconds.
pub const APPROVAL_TIMEOUT_SECS: u64 = 300;

/// How a request ended.
#[derive(Debug, Clone, Copy, PartialEq, Eq, Structural)]
pub enum ApprovalEnd {
    Answered(bool),
    ChannelClosed,
    TimedOut,
}

/// The requests after one more waits: an identifier stands once.
pub open spec fn with_pending(list: Seq<Seq<char>>, id: Seq<char>) -> Seq<Seq<char>> {
    without_text(list, id).push(id)
}

/// A message of a stream of events.
pub open spec fn sse_message(json: Seq<char>) -> Seq<char> {
    "data: "@ + json + "\n\n"@
}

/// Frames a JSON text as a message of a stream of events.
pub fn frame_sse(json: &str) -> (r: String)
    ensures
        r@ == sse_message(json@),
{
    text::cat3("data: ", json, "\n\n")
}

/// The name of a role in a request.
pub open spec fn role_name(role: Role) -> Seq<char> {
    match role {
        Role::User => "user"@,
        Role::Assistant => "assistant"@,
    }
}

/// A message of a request: its text, or where it has none, a rendering for a
/// developer.
pub fn sampling_message(role: Role, content: Option<String>, rendering: String) -> (r:
    SamplingMessageContent)
    ensures
        r.deep_view() == (SamplingMessageContentView {
            role: role_name(role),
            content: match content {
                Some(t) => t@,
                None => rendering@,
            },
        }),
{
    let name = match role {
        Role::User => text::owned("user"),
        Role::Assistant => text::owned("assistant"),
    };
    let content = match content {
        Some(t) => t,
        None => rendering,
    };
    SamplingMessageContent { role: name, content }
}

impl SamplingApprovalState {
    /// No request waits, and nobody is told of new ones.
    pub fn new() -> (r: Self)
        ensures
            r.deep_view() == (ApprovalView { pending: Seq::empty(), subscribers: Seq::empty() }),
    {
        let pending = Vec::new();
        let subscribers = Vec::new();
        let r = SamplingApprovalState { pending, subscribers };
        assert(r.pending.deep_view() =~= Seq::<Seq<char>>::empty());
        assert(r.subscribers.deep_view() =~= Seq::<u64>::empty());
        r
    }

    /// Tells one more of new requests.
    pub fn subscribe(&mut self, subscriber: u64)
        ensures
            final(self).deep_view() == (ApprovalView {
                subscribers: old(self).deep_view().subscribers.push(subscriber),
                ..old(self).deep_view()
            }),
    {
        base::push(&mut self.subscribers, subscriber);
    }

    /// Lets a request with an identifier wait for an answer.
    pub fn request_approval_as(
        &mut self,
        request_id: String,
        extension_name: String,
        messages: Vec<SamplingMessageContent>,
        system_prompt: Option<String>,
        max_tokens: u32,
    ) -> (r: SamplingRequest)
        ensures
            r.deep_view() == (SamplingRequestView {
                request_id: request_id@,
                extension_name: extension_name@,
                messages: messages.deep_view(),
                system_prompt: system_prompt.deep_view(),
                max_tokens,
            }),
            final(self).deep_view() == (ApprovalView {
                pending: with_pending(old(self).deep_view().pending, request_id@),
                ..old(self).deep_view()
            }),
    {
        let mut rest = text_list::remove_text(&self.pending, &request_id);
        base::push(&mut rest, request_id.clone());
        self.pending = rest;
        SamplingRequest { request_id, extension_name, messages, system_prompt, max_tokens }
    }

    /// Lets a request with a fresh identifier wait for an answer.
    pub fn request_approval(
        &mut self,
        extension_name: String,
        messages: Vec<SamplingMessageContent>,
        system_prompt: Option<String>,
        max_tokens: u32,
    ) -> (r: SamplingRequest)
        ensures
            fresh::uuid_text(r.deep_view().request_id),
            r.deep_view() == (SamplingRequestView {
                request_id: r.deep_view().request_id,
                extension_name: extension_name@,
                messages: messages.deep_view(),
                system_prompt: system_prompt.deep_view(),
                max_tokens,
            }),
            final(self).deep_view() == (ApprovalView {
                pending: with_pending(old(self).deep_view().pending, r.deep_view().request_id),
                ..old(self).deep_view()
            }),
    {
        let request_id = fresh::new_uuid();
        self.request_approval_as(request_id, extension_name, messages, system_prompt, max_tokens)
    }

    /// The answer to a request, or why there is none. One that waited too long
    /// waits no more.
    pub fn finish(&mut self, request_id: &str, end: ApprovalEnd) -> (r: Result<bool, String>)
        ensures
            final(self).deep_view() == match end {
                ApprovalEnd::TimedOut => ApprovalView {
                    pending: without_text(old(self).deep_view().pending, request_id@),
                    ..old(self).deep_view()
                },
                _ => old(self).deep_view(),
            },
            match (end, r) {
                (ApprovalEnd::Answered(a), Ok(b)) => a == b,
                (ApprovalEnd::ChannelClosed, Err(e)) => e@ == "Response channel closed"@,
                (ApprovalEnd::TimedOut, Err(e)) => e@ == "Approval request timed out"@,
                _ => false,
            },
    {
        match end {
            ApprovalEnd::Answered(approved) => Ok(approved),
            ApprovalEnd::ChannelClosed => Err(text::owned("Response channel closed")),
            ApprovalEnd::TimedOut => {
                self.pending = text_list::remove_text(&self.pending, request_id);
                Err(text::owned("Approval request timed out"))
            },
        }
    }

    /// Takes a request out in order to answer it, if it waits.
    pub fn submit_response(&mut self, request_id: &str) -> (r: Result<(), String>)
        ensures
            final(self).deep_view() == (ApprovalView {
                pending: without_text(old(self).deep_view().pending, request_id@),
                ..old(self).deep_view()
            }),
            match r {
                Ok(_) => old(self).deep_view().pending.contains(request_id@),
                Err(e) => !old(self).deep_view().pending.contains(request_id@) && e@
                    == "Request not found or already responded"@,
            },
    {
        assert(text::texts(self.pending@) =~= self.pending.deep_view());
        let waits = text::list_contains(&self.pending, request_id);
        self.pending = text_list::remove_text(&self.pending, request_id);
        if waits {
            Ok(())
        } else {
            Err(text::owned("Request not found or already responded"))
        }
    }
}

/// Whether an answer reached the one who asked.
pub fn delivery_result(delivered: bool) -> (r: Result<(), String>)
    ensures
        match r {
            Ok(_) => delivered,
            Err(e) => !delivered && e@ == "Failed to send response"@,
        },
{
    if delivered {
        Ok(())
    } else {
        Err(text::owned("Failed to send response"))
    }
}

proof fn lemma_without_text(list: Seq<Seq<char>>, s: Seq<char>, other: Seq<char>)
    ensures
        !without_text(list, s).contains(s),
        other != s ==> without_text(list, s).contains(other) == list.contains(other),
    decreases list.len(),
{
    if list.len() > 0 {
        let rest = list.drop_last();
        lemma_without_text(rest, s, other);
        let w = without_text(rest, s);
        if list.last() != s {
            assert(!w.push(list.last()).contains(s)) by {
                if w.push(list.last()).contains(s) {
                    let i = choose|i: int|
                        0 <= i < w.push(list.last()).len() && w.push(list.last())[i] == s;
                    assert(i < w.len());
                    assert(w[i] == s);
                }
            }
        }
        if other != s {
            if list.contains(other) {
                let i = choose|i: int| 0 <= i < list.len() && list[i] == other;
                if i < rest.len() {
                    assert(rest[i] == other);
                    assert(w.contains(other));
                    let j = choose|j: int| 0 <= j < w.len() && w[j] == other;
                    assert(w.push(list.last())[j] == other);
                } else {
                    assert(w.push(list.last())[w.len() as int] == other);
                }
            }
            if without_text(list, s).contains(other) {
                let v = without_text(list, s);
                let i = choose|i: int| 0 <= i < v.len() && v[i] == other;
                if i < w.len() {
                    assert(w[i] == other);
                    assert(rest.contains(other));
                    let j = choose|j: int| 0 <= j < rest.len() && rest[j] == other;
                    assert(list[j] == other);
                } else {
                    assert(list[list.len() - 1] == other);
                }
            }
        }
    }
}

/// A request can be answered once: it waits after it was made, no longer after it
/// was answered or timed out, and the others wait as before.
pub proof fn law_answered_once(pending: Seq<Seq<char>>, id: Seq<char>, other: Seq<char>)
    ensures
        with_pending(pending, id).contains(id),
        !without_text(pending, id).contains(id),
        other != id ==> with_pending(pending, id).contains(other) == pending.contains(other),
        other != id ==> without_text(pending, id).contains(other) == pending.contains(other),
{
    lemma_without_text(pending, id, other);
    let w = without_text(pending, id);
    let p = with_pending(pending, id);
    assert(p[w.len() as int] == id);
    if other != id {
        if p.contains(other) {
            let i = choose|i: int| 0 <= i < p.len() && p[i] == other;
            assert(w[i] == other);
        }
        if w.contains(other) {
            let i = choose|i: int| 0 <= i < w.len() && w[i] == other;
            assert(p[i] == other);
        }
    }
}

} // verus!
