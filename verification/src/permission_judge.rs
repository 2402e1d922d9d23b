//! Which tool requests may run, which need a confirmation and which may not.
use crate::assoc::{self, lookup, put};
use crate::base::{self, Duplicate};
use crate::extension::PermissionLevel;
use crate::extension_manager_extension::MANAGE_EXTENSIONS_TOOL_NAME;
use crate::fresh;
use crate::json::{self, Json, JsonView};
use crate::message::{Message, MessageContent, MessageContentView, MessageView};
use crate::text;
use crate::tool::{Tool, ToolRequest, ToolRequestView, ToolView};
use vstd::multiset::*;
use vstd::prelude::*;
use vstd::string::*;

verus! {

/// The name of the tool by which a model tells which tools only read.
pub const READ_ONLY_TOOL_NAME: &'static str = "platform__tool_by_tool_permission";

/// The instructions where the template cannot be read.
pub const FALLBACK_SYSTEM_PROMPT: &'static str =
    "You are a good analyst and can detect operations whether they have read-only operations.";

/// What the tool by which a model tells which tools only read is for.
pub open spec fn read_only_description() -> Seq<char> {
    "Analyze the tool requests and determine which ones perform read-only operations.\n\nWhat constitutes a read-only operation:\n- A read-only operation retrieves information without modifying any data or state.\n- Examples include:\n    - Reading a file without writing to it.\n    - Querying a database without making updates.\n    - Retrieving information from APIs without performing POST, PUT, or DELETE operations.\n\nExamples of read vs. write operations:\n- Read Operations:\n    - `SELECT` query in SQL.\n    - Reading file metadata or content.\n    - Listing directory contents.\n- Write Operations:\n    - `INSERT`, `UPDATE`, or `DELETE` in SQL.\n    - Writing or appending to a file.\n    - Modifying system configurations.\n    - Sending messages to Slack channel.\n\nHow to analyze tool requests:\n- Inspect each tool request to identify its purpose based on its name and arguments.\n- Categorize the operation as read-only if it does not involve any state or data modification.\n- Return a list of tool names that are strictly read-only. If you cannot make the decision, then it is not read-only.\n\nUse this analysis to generate the list of tools performing read-only operations from the provided tool requests.\n"@
}

/// The parameters of that tool: a list of names.
pub open spec fn read_only_schema() -> Seq<(Seq<char>, JsonView)> {
    let list = JsonView::Object(
        seq![
            ("type"@, JsonView::Text("array"@)),
            ("items"@, JsonView::Object(seq![("type"@, JsonView::Text("string"@))])),
            (
                "description"@,
                JsonView::Text(
                    "Optional list of tool names which has read-only operations."@,
                ),
            ),
        ],
    );
    seq![
        ("type"@, JsonView::Text("object"@)),
        ("properties"@, JsonView::Object(seq![("read_only_tools"@, list)])),
        ("required"@, JsonView::Array(Seq::empty())),
    ]
}

/// The tool by which a model tells which tools only read.
pub fn create_read_only_tool() -> (r: Tool)
    ensures
        r.deep_view() == ToolView::described(
            READ_ONLY_TOOL_NAME@,
            read_only_description(),
            read_only_schema(),
            "Check tool operation"@,
            true,
        ),
{
    let mut item: Vec<(String, Json)> = Vec::new();
    json::add_field(&mut item, "type", json::text_value("string"));
    assert(item.deep_view() =~= seq![("type"@, JsonView::Text("string"@))]);
    let mut list: Vec<(String, Json)> = Vec::new();
    json::add_field(&mut list, "type", json::text_value("array"));
    json::add_field(&mut list, "items", json::object_value(item));
    json::add_field(
        &mut list,
        "description",
        json::text_value("Optional list of tool names which has read-only operations."),
    );
    assert(list.deep_view() =~= seq![
        ("type"@, JsonView::Text("array"@)),
        ("items"@, JsonView::Object(seq![("type"@, JsonView::Text("string"@))])),
        (
            "description"@,
            JsonView::Text("Optional list of tool names which has read-only operations."@),
        ),
    ]);
    let ghost list_view = list.deep_view();
    let mut properties: Vec<(String, Json)> = Vec::new();
    json::add_field(&mut properties, "read_only_tools", json::object_value(list));
    assert(properties.deep_view() =~= seq![("read_only_tools"@, JsonView::Object(list_view))]);
    let required: Vec<Json> = Vec::new();
    assert(required.deep_view() =~= Seq::<JsonView>::empty());
    let mut schema: Vec<(String, Json)> = Vec::new();
    json::add_field(&mut schema, "type", json::text_value("object"));
    json::add_field(&mut schema, "properties", json::object_value(properties));
    json::add_field(&mut schema, "required", json::array_value(required));
    assert(schema.deep_view() =~= read_only_schema());
    Tool::described(
        READ_ONLY_TOOL_NAME,
        "Analyze the tool requests and determine which ones perform read-only operations.\n\nWhat constitutes a read-only operation:\n- A read-only operation retrieves information without modifying any data or state.\n- Examples include:\n    - Reading a file without writing to it.\n    - Querying a database without making updates.\n    - Retrieving information from APIs without performing POST, PUT, or DELETE operations.\n\nExamples of read vs. write operations:\n- Read Operations:\n    - `SELECT` query in SQL.\n    - Reading file metadata or content.\n    - Listing directory contents.\n- Write Operations:\n    - `INSERT`, `UPDATE`, or `DELETE` in SQL.\n    - Writing or appending to a file.\n    - Modifying system configurations.\n    - Sending messages to Slack channel.\n\nHow to analyze tool requests:\n- Inspect each tool request to identify its purpose based on its name and arguments.\n- Categorize the operation as read-only if it does not involve any state or data modification.\n- Return a list of tool names that are strictly read-only. If you cannot make the decision, then it is not read-only.\n\nUse this analysis to generate the list of tools performing read-only operations from the provided tool requests.\n",
        schema,
        "Check tool operation",
        true,
    )
}

/// The names of the tools of the requests that could be read.
pub open spec fn called_names(requests: Seq<ToolRequestView>) -> Seq<Seq<char>>
    decreases requests.len(),
{
    if requests.len() == 0 {
        Seq::empty()
    } else {
        let rest = called_names(requests.drop_last());
        match requests.last().tool_call {
            Ok(call) => rest.push(call.name),
            Err(_) => rest,
        }
    }
}

/// What a model is asked about tool requests.
pub open spec fn check_text(requests: Seq<ToolRequestView>) -> Seq<char> {
    "Here are the tool requests: "@ + text::quoted(
        text::joined(called_names(requests), ", "@),
    )
        + "\n\nAnalyze the tool requests and list the tools that perform read-only operations. \n\nGuidelines for Read-Only Operations: \n- Read-only operations do not modify any data or state. \n- Examples include file reading, SELECT queries in SQL, and directory listing. \n- Write operations include INSERT, UPDATE, DELETE, and file writing. \n\nPlease provide a list of tool names that qualify as read-only:"@
}

/// The conversation in which a model is asked about tool requests, at the time
/// `now`.
pub fn create_check_messages_at(requests: &Vec<ToolRequest>, now: i64) -> (r: Vec<Message>)
    ensures
        r.deep_view() == seq![MessageView::user_text(now, check_text(requests.deep_view()))],
{
    let mut names: Vec<String> = Vec::new();
    let ghost all = requests.deep_view();
    let mut i: usize = 0;
    assert(text::texts(names@) =~= called_names(all.take(0)));
    while i < requests.len()
        invariant
            i <= requests@.len(),
            all == requests.deep_view(),
            text::texts(names@) == called_names(all.take(i as int)),
        decreases requests@.len() - i,
    {
        assert(all.take(i + 1).drop_last() =~= all.take(i as int));
        if let Ok(call) = &requests[i].tool_call {
            proof {
                text::lemma_texts_push(names@, call.name);
            }
            names.push(call.name.clone());
        }
        i = i + 1;
    }
    assert(all.take(requests@.len() as int) =~= all);
    let t = text::cat3(
        "Here are the tool requests: ",
        &text::debug_text(&text::join(&names, ", ")),
        "\n\nAnalyze the tool requests and list the tools that perform read-only operations. \n\nGuidelines for Read-Only Operations: \n- Read-only operations do not modify any data or state. \n- Examples include file reading, SELECT queries in SQL, and directory listing. \n- Write operations include INSERT, UPDATE, DELETE, and file writing. \n\nPlease provide a list of tool names that qualify as read-only:",
    );
    base::single(Message::user_text(now, t))
}

/// The conversation in which a model is asked about tool requests.
pub fn create_check_messages(requests: &Vec<ToolRequest>) -> (r: Vec<Message>)
    ensures
        exists|now: i64|
            now >= 0 && r.deep_view() == seq![
                #[trigger] MessageView::user_text(now, check_text(requests.deep_view())),
            ],
{
    let now = fresh::now_timestamp();
    create_check_messages_at(requests, now)
}

/// The texts of a list of JSON values.
pub open spec fn only_texts(items: Seq<JsonView>) -> Seq<Seq<char>>
    decreases items.len(),
{
    if items.len() == 0 {
        Seq::empty()
    } else {
        let rest = only_texts(items.drop_last());
        match items.last() {
            JsonView::Text(s) => rest.push(s),
            _ => rest,
        }
    }
}

/// The list that a call of the read-only tool hands over.
pub open spec fn handed_over(c: MessageContentView) -> Option<Seq<Seq<char>>> {
    match c {
        MessageContentView::ToolRequest(q) => match q.tool_call {
            Ok(call) => if call.name == READ_ONLY_TOOL_NAME@ {
                match call.arguments {
                    Some(args) => match lookup(args, "read_only_tools"@) {
                        Some(JsonView::Array(items)) => Some(only_texts(items)),
                        _ => None,
                    },
                    None => None,
                }
            } else {
                None
            },
            Err(_) => None,
        },
        _ => None,
    }
}

/// The list of the first call that hands one over.
pub open spec fn first_handed_over(content: Seq<MessageContentView>) -> Option<Seq<Seq<char>>>
    decreases content.len(),
{
    if content.len() == 0 {
        None
    } else if handed_over(content[0]) is Some {
        handed_over(content[0])
    } else {
        first_handed_over(content.drop_first())
    }
}

pub fn texts_of(items: &Vec<Json>) -> (r: Vec<String>)
    ensures
        r.deep_view() == only_texts(items.deep_view()),
{
    let mut out: Vec<String> = Vec::new();
    let ghost all = items.deep_view();
    let mut i: usize = 0;
    assert(out.deep_view() =~= only_texts(all.take(0)));
    while i < items.len()
        invariant
            i <= items@.len(),
            all == items.deep_view(),
            out.deep_view() == only_texts(all.take(i as int)),
        decreases items@.len() - i,
    {
        assert(all.take(i + 1).drop_last() =~= all.take(i as int));
        if let Json::Text(s) = &items[i] {
            base::push(&mut out, s.clone());
        }
        i = i + 1;
    }
    assert(all.take(items@.len() as int) =~= all);
    out
}

fn list_in(c: &MessageContent) -> (r: Option<Vec<String>>)
    ensures
        r.deep_view() == handed_over(c.deep_view()),
{
    if let MessageContent::ToolRequest(q) = c {
        if let Ok(call) = &q.tool_call {
            if text::str_eq(&call.name, READ_ONLY_TOOL_NAME) {
                if let Some(args) = &call.arguments {
                    if let Some(v) = assoc::get(args, "read_only_tools") {
                        if let Some(items) = v.as_array() {
                            return Some(texts_of(items));
                        }
                    }
                }
            }
        }
    }
    None
}

/// The tools that a model says only read.
pub fn extract_read_only_tools(response: &Message) -> (r: Option<Vec<String>>)
    ensures
        r.deep_view() == first_handed_over(response.deep_view().content),
{
    let ghost all = response.content.deep_view();
    let mut i: usize = 0;
    assert(all.skip(0) =~= all);
    while i < response.content.len()
        invariant
            i <= response.content@.len(),
            all == response.content.deep_view(),
            first_handed_over(all) == first_handed_over(all.skip(i as int)),
        decreases response.content@.len() - i,
    {
        assert(all.skip(i as int).drop_first() =~= all.skip(i + 1));
        let list = list_in(&response.content[i]);
        if list.is_some() {
            return list;
        }
        i = i + 1;
    }
    None
}

/// What a model is asked in order to tell which tools only read: nothing where
/// there is no request.
#[derive(Debug, PartialEq)]
pub struct Detection {
    pub messages: Vec<Message>,
    pub tool: Tool,
}

/// What a model is asked in order to tell which tools only read, at the time
/// `now`.
pub fn detection_at(requests: &Vec<ToolRequest>, now: i64) -> (r: Option<Detection>)
    ensures
        match r {
            None => requests@.len() == 0,
            Some(d) => requests@.len() > 0 && d.messages.deep_view() == seq![
                MessageView::user_text(now, check_text(requests.deep_view())),
            ] && d.tool.deep_view() == ToolView::described(
                READ_ONLY_TOOL_NAME@,
                read_only_description(),
                read_only_schema(),
                "Check tool operation"@,
                true,
            ),
        },
{
    if requests.len() == 0 {
        return None;
    }
    Some(
        Detection {
            messages: create_check_messages_at(requests, now),
            tool: create_read_only_tool(),
        },
    )
}

/// The tools that a model says only read, or none where it gave no answer.
pub open spec fn detected(answer: Option<MessageView>) -> Seq<Seq<char>> {
    match answer {
        Some(m) => match first_handed_over(m.content) {
            Some(list) => list,
            None => Seq::empty(),
        },
        None => Seq::empty(),
    }
}

/// The tools that a model says only read, or none where it gave no answer.
pub fn detect_read_only_tools(answer: Option<&Message>) -> (r: Vec<String>)
    ensures
        r.deep_view() == detected(answer.deep_view()),
{
    if let Some(m) = answer {
        if let Some(list) = extract_read_only_tools(m) {
            return list;
        }
    }
    let none: Vec<String> = Vec::new();
    assert(none.deep_view() =~= Seq::<Seq<char>>::empty());
    none
}

/// The requests of a response, sorted by what may be done with them.
#[derive(Debug, PartialEq)]
pub struct PermissionCheckResult {
    pub approved: Vec<ToolRequest>,
    pub needs_approval: Vec<ToolRequest>,
    pub denied: Vec<ToolRequest>,
}

#[verifier::ext_equal]
pub struct PermissionCheckView {
    pub approved: Seq<ToolRequestView>,
    pub needs_approval: Seq<ToolRequestView>,
    pub denied: Seq<ToolRequestView>,
}

impl DeepView for PermissionCheckResult {
    type V = PermissionCheckView;

    open spec fn deep_view(&self) -> PermissionCheckView {
        PermissionCheckView {
            approved: self.approved.deep_view(),
            needs_approval: self.needs_approval.deep_view(),
            denied: self.denied.deep_view(),
        }
    }
}

/// The permissions of tools: those that the user gave, and those that were found
/// out.
#[derive(Debug, PartialEq)]
pub struct PermissionManager {
    pub user: Vec<(String, PermissionLevel)>,
    pub smart_approve: Vec<(String, PermissionLevel)>,
}

#[verifier::ext_equal]
pub struct PermissionsView {
    pub user: Seq<(Seq<char>, PermissionLevel)>,
    pub smart_approve: Seq<(Seq<char>, PermissionLevel)>,
}

impl DeepView for PermissionManager {
    type V = PermissionsView;

    open spec fn deep_view(&self) -> PermissionsView {
        PermissionsView {
            user: self.user.deep_view(),
            smart_approve: self.smart_approve.deep_view(),
        }
    }
}

impl PermissionManager {
    /// No tool has a permission.
    pub fn new() -> (r: Self)
        ensures
            r.deep_view().user.len() == 0,
            r.deep_view().smart_approve.len() == 0,
    {
        let user = Vec::new();
        let smart_approve = Vec::new();
        PermissionManager { user, smart_approve }
    }

    /// The permission that the user gave.
    pub fn get_user_permission(&self, name: &str) -> (r: Option<PermissionLevel>)
        ensures
            r == lookup(self.deep_view().user, name@),
    {
        match assoc::get(&self.user, name) {
            Some(level) => Some(*level),
            None => None,
        }
    }

    /// The permission that was found out.
    pub fn get_smart_approve_permission(&self, name: &str) -> (r: Option<PermissionLevel>)
        ensures
            r == lookup(self.deep_view().smart_approve, name@),
    {
        match assoc::get(&self.smart_approve, name) {
            Some(level) => Some(*level),
            None => None,
        }
    }

    /// Keeps the permission that the user gives.
    pub fn update_user_permission(&mut self, name: &str, level: PermissionLevel)
        ensures
            final(self).deep_view() == (PermissionsView {
                user: put(old(self).deep_view().user, name@, level),
                ..old(self).deep_view()
            }),
    {
        assoc::insert(&mut self.user, text::owned(name), level);
    }

    /// Keeps the permission that was found out.
    pub fn update_smart_approve_permission(&mut self, name: &str, level: PermissionLevel)
        ensures
            final(self).deep_view() == (PermissionsView {
                smart_approve: put(old(self).deep_view().smart_approve, name@, level),
                ..old(self).deep_view()
            }),
    {
        assoc::insert(&mut self.smart_approve, text::owned(name), level);
    }
}

/// What is done with a request.
#[derive(Debug, Clone, Copy, PartialEq, Eq, Structural)]
pub enum Verdict {
    /// It is in no list.
    Skip,
    Approve,
    Ask,
    Deny,
    /// A model is asked whether the tool only reads.
    Detect,
}

pub open spec fn level_verdict(level: PermissionLevel) -> Verdict {
    match level {
        PermissionLevel::AlwaysAllow => Verdict::Approve,
        PermissionLevel::AskBefore => Verdict::Ask,
        PermissionLevel::NeverAllow => Verdict::Deny,
    }
}

/// The tools whose annotations say that they only read, and those without
/// annotations.
pub struct Annotations {
    pub read_only: Seq<Seq<char>>,
    pub without: Seq<Seq<char>>,
}

/// What is done with a request. The user's permission goes first, then, in the
/// mode that approves by itself, what was found out, then the annotations.
pub open spec fn verdict(
    q: ToolRequestView,
    mode: Seq<char>,
    notes: Annotations,
    p: PermissionsView,
) -> Verdict {
    match q.tool_call {
        Err(_) => Verdict::Skip,
        Ok(call) => if mode == "chat"@ {
            Verdict::Skip
        } else if mode == "auto"@ {
            Verdict::Approve
        } else if let Some(level) = lookup(p.user, call.name) {
            level_verdict(level)
        } else if mode == "smart_approve"@ {
            if let Some(level) = lookup(p.smart_approve, call.name) {
                level_verdict(level)
            } else if notes.read_only.contains(call.name) {
                Verdict::Approve
            } else if notes.without.contains(call.name) {
                Verdict::Detect
            } else {
                Verdict::Ask
            }
        } else {
            Verdict::Ask
        },
    }
}

/// The requests with a verdict, in their order.
pub open spec fn with_verdict(
    requests: Seq<ToolRequestView>,
    mode: Seq<char>,
    notes: Annotations,
    p: PermissionsView,
    v: Verdict,
) -> Seq<ToolRequestView>
    decreases requests.len(),
{
    if requests.len() == 0 {
        Seq::empty()
    } else {
        let rest = with_verdict(requests.drop_last(), mode, notes, p, v);
        if verdict(requests.last(), mode, notes, p) == v {
            rest.push(requests.last())
        } else {
            rest
        }
    }
}

/// The ids of the requests that manage extensions, in the modes in which
/// permissions count.
pub open spec fn extension_ids(requests: Seq<ToolRequestView>, mode: Seq<char>) -> Seq<Seq<char>>
    decreases requests.len(),
{
    if requests.len() == 0 {
        Seq::empty()
    } else {
        let rest = extension_ids(requests.drop_last(), mode);
        match requests.last().tool_call {
            Ok(call) => if mode != "chat"@ && mode != "auto"@ && call.name
                == MANAGE_EXTENSIONS_TOOL_NAME@ {
                rest.push(requests.last().id)
            } else {
                rest
            },
            Err(_) => rest,
        }
    }
}

/// The requests after the first look: some may have to wait until a model has
/// told whether their tools only read.
#[derive(Debug, PartialEq)]
pub struct Sorting {
    pub result: PermissionCheckResult,
    pub candidates: Vec<ToolRequest>,
    pub extension_request_ids: Vec<String>,
}

fn verdict_of(
    q: &ToolRequest,
    mode: &str,
    read_only: &Vec<String>,
    without: &Vec<String>,
    p: &PermissionManager,
) -> (r: Verdict)
    ensures
        r == verdict(
            q.deep_view(),
            mode@,
            (Annotations { read_only: read_only.deep_view(), without: without.deep_view() }),
            p.deep_view(),
        ),
{
    assert(text::texts(read_only@) =~= read_only.deep_view());
    assert(text::texts(without@) =~= without.deep_view());
    let call = match &q.tool_call {
        Ok(call) => call,
        Err(_) => {
            return Verdict::Skip;
        },
    };
    if text::str_eq(mode, "chat") {
        return Verdict::Skip;
    }
    if text::str_eq(mode, "auto") {
        return Verdict::Approve;
    }
    if let Some(level) = p.get_user_permission(&call.name) {
        return verdict_for(level);
    }
    if !text::str_eq(mode, "smart_approve") {
        return Verdict::Ask;
    }
    if let Some(level) = p.get_smart_approve_permission(&call.name) {
        return verdict_for(level);
    }
    if text::list_contains(read_only, &call.name) {
        Verdict::Approve
    } else if text::list_contains(without, &call.name) {
        Verdict::Detect
    } else {
        Verdict::Ask
    }
}

fn verdict_for(level: PermissionLevel) -> (r: Verdict)
    ensures
        r == level_verdict(level),
{
    match level {
        PermissionLevel::AlwaysAllow => Verdict::Approve,
        PermissionLevel::AskBefore => Verdict::Ask,
        PermissionLevel::NeverAllow => Verdict::Deny,
    }
}

/// Sorts requests by what may be done with them, as far as permissions and
/// annotations tell.
pub fn sort_requests(
    candidate_requests: &Vec<ToolRequest>,
    mode: &str,
    tools_with_readonly_annotation: &Vec<String>,
    tools_without_annotation: &Vec<String>,
    permissions: &PermissionManager,
) -> (r: Sorting)
    ensures
        ({
            let requests = candidate_requests.deep_view();
            let notes = Annotations {
                read_only: tools_with_readonly_annotation.deep_view(),
                without: tools_without_annotation.deep_view(),
            };
            let p = permissions.deep_view();
            &&& r.result.deep_view() == PermissionCheckView {
                approved: with_verdict(requests, mode@, notes, p, Verdict::Approve),
                needs_approval: with_verdict(requests, mode@, notes, p, Verdict::Ask),
                denied: with_verdict(requests, mode@, notes, p, Verdict::Deny),
            }
            &&& r.candidates.deep_view() == with_verdict(requests, mode@, notes, p, Verdict::Detect)
            &&& r.extension_request_ids.deep_view() == extension_ids(requests, mode@)
        }),
{
    let ghost all = candidate_requests.deep_view();
    let ghost notes = Annotations {
        read_only: tools_with_readonly_annotation.deep_view(),
        without: tools_without_annotation.deep_view(),
    };
    let ghost p = permissions.deep_view();
    let mut approved: Vec<ToolRequest> = Vec::new();
    let mut needs_approval: Vec<ToolRequest> = Vec::new();
    let mut denied: Vec<ToolRequest> = Vec::new();
    let mut candidates: Vec<ToolRequest> = Vec::new();
    let mut extension_request_ids: Vec<String> = Vec::new();
    let counts = !text::str_eq(mode, "chat") && !text::str_eq(mode, "auto");
    let mut i: usize = 0;
    proof {
        assert(all.take(0) =~= Seq::empty());
        assert(approved.deep_view() =~= Seq::<ToolRequestView>::empty());
        assert(needs_approval.deep_view() =~= Seq::<ToolRequestView>::empty());
        assert(denied.deep_view() =~= Seq::<ToolRequestView>::empty());
        assert(candidates.deep_view() =~= Seq::<ToolRequestView>::empty());
        assert(extension_request_ids.deep_view() =~= Seq::<Seq<char>>::empty());
    }
    while i < candidate_requests.len()
        invariant
            i <= candidate_requests@.len(),
            all == candidate_requests.deep_view(),
            notes == (Annotations {
                read_only: tools_with_readonly_annotation.deep_view(),
                without: tools_without_annotation.deep_view(),
            }),
            p == permissions.deep_view(),
            counts == (mode@ != "chat"@ && mode@ != "auto"@),
            approved.deep_view() == with_verdict(
                all.take(i as int),
                mode@,
                notes,
                p,
                Verdict::Approve,
            ),
            needs_approval.deep_view() == with_verdict(
                all.take(i as int),
                mode@,
                notes,
                p,
                Verdict::Ask,
            ),
            denied.deep_view() == with_verdict(
                all.take(i as int),
                mode@,
                notes,
                p,
                Verdict::Deny,
            ),
            candidates.deep_view() == with_verdict(
                all.take(i as int),
                mode@,
                notes,
                p,
                Verdict::Detect,
            ),
            extension_request_ids.deep_view() == extension_ids(all.take(i as int), mode@),
        decreases candidate_requests@.len() - i,
    {
        assert(all.take(i + 1).drop_last() =~= all.take(i as int));
        assert(all.take(i + 1).last() == candidate_requests@[i as int].deep_view());
        let q = &candidate_requests[i];
        if let Ok(call) = &q.tool_call {
            if counts && text::str_eq(&call.name, MANAGE_EXTENSIONS_TOOL_NAME) {
                base::push(&mut extension_request_ids, q.id.clone());
            }
        }
        match verdict_of(
            q,
            mode,
            tools_with_readonly_annotation,
            tools_without_annotation,
            permissions,
        ) {
            Verdict::Skip => {},
            Verdict::Approve => base::push(&mut approved, q.duplicate()),
            Verdict::Ask => base::push(&mut needs_approval, q.duplicate()),
            Verdict::Deny => base::push(&mut denied, q.duplicate()),
            Verdict::Detect => base::push(&mut candidates, q.duplicate()),
        }
        i = i + 1;
    }
    assert(all.take(all.len() as int) =~= all);
    Sorting {
        result: PermissionCheckResult { approved, needs_approval, denied },
        candidates,
        extension_request_ids,
    }
}

/// The candidates whose tools are, or are not, in a list of names.
pub open spec fn in_names(
    candidates: Seq<ToolRequestView>,
    names: Seq<Seq<char>>,
    inside: bool,
) -> Seq<ToolRequestView>
    decreases candidates.len(),
{
    if candidates.len() == 0 {
        Seq::empty()
    } else {
        let rest = in_names(candidates.drop_last(), names, inside);
        match candidates.last().tool_call {
            Ok(call) => if names.contains(call.name) == inside {
                rest.push(candidates.last())
            } else {
                rest
            },
            Err(_) => rest,
        }
    }
}

/// What was found out, with what a model told of the candidates.
pub open spec fn learned(
    known: Seq<(Seq<char>, PermissionLevel)>,
    candidates: Seq<ToolRequestView>,
    names: Seq<Seq<char>>,
) -> Seq<(Seq<char>, PermissionLevel)>
    decreases candidates.len(),
{
    if candidates.len() == 0 {
        known
    } else {
        let rest = learned(known, candidates.drop_last(), names);
        match candidates.last().tool_call {
            Ok(call) => put(
                rest,
                call.name,
                if names.contains(call.name) {
                    PermissionLevel::AlwaysAllow
                } else {
                    PermissionLevel::AskBefore
                },
            ),
            Err(_) => rest,
        }
    }
}

/// Sorts the candidates by what a model told of their tools, and keeps that for
/// the next time.
pub fn apply_detection(
    sorting: Sorting,
    detected_readonly_tools: &Vec<String>,
    permissions: &mut PermissionManager,
) -> (r: (PermissionCheckResult, Vec<String>))
    ensures
        ({
            let before = sorting.result.deep_view();
            let candidates = sorting.candidates.deep_view();
            let names = detected_readonly_tools.deep_view();
            &&& r.0.deep_view() == PermissionCheckView {
                approved: before.approved + in_names(candidates, names, true),
                needs_approval: before.needs_approval + in_names(candidates, names, false),
                denied: before.denied,
            }
            &&& r.1.deep_view() == sorting.extension_request_ids.deep_view()
            &&& final(permissions).deep_view() == PermissionsView {
                smart_approve: learned(
                    old(permissions).deep_view().smart_approve,
                    candidates,
                    names,
                ),
                ..old(permissions).deep_view()
            }
        }),
{
    let Sorting { result, candidates, extension_request_ids } = sorting;
    let PermissionCheckResult { approved, needs_approval, denied } = result;
    let mut approved = approved;
    let mut needs_approval = needs_approval;
    let ghost all = candidates.deep_view();
    let ghost names = detected_readonly_tools.deep_view();
    let ghost a0 = approved.deep_view();
    let ghost n0 = needs_approval.deep_view();
    let ghost p0 = permissions.deep_view();
    let mut i: usize = 0;
    proof {
        assert(all.take(0) =~= Seq::empty());
        assert(text::texts(detected_readonly_tools@) =~= names);
        assert(a0 + Seq::<ToolRequestView>::empty() =~= a0);
        assert(n0 + Seq::<ToolRequestView>::empty() =~= n0);
    }
    while i < candidates.len()
        invariant
            i <= candidates@.len(),
            all == candidates.deep_view(),
            names == detected_readonly_tools.deep_view(),
            names == text::texts(detected_readonly_tools@),
            p0 == old(permissions).deep_view(),
            approved.deep_view() == a0 + in_names(all.take(i as int), names, true),
            needs_approval.deep_view() == n0 + in_names(all.take(i as int), names, false),
            permissions.deep_view() == (PermissionsView {
                smart_approve: learned(p0.smart_approve, all.take(i as int), names),
                ..p0
            }),
        decreases candidates@.len() - i,
    {
        assert(all.take(i + 1).drop_last() =~= all.take(i as int));
        assert(all.take(i + 1).last() == candidates@[i as int].deep_view());
        let q = &candidates[i];
        if let Ok(call) = &q.tool_call {
            if text::list_contains(detected_readonly_tools, &call.name) {
                base::push(&mut approved, q.duplicate());
                permissions.update_smart_approve_permission(
                    &call.name,
                    PermissionLevel::AlwaysAllow,
                );
            } else {
                base::push(&mut needs_approval, q.duplicate());
                permissions.update_smart_approve_permission(
                    &call.name,
                    PermissionLevel::AskBefore,
                );
            }
        }
        assert(approved.deep_view() =~= a0 + in_names(all.take(i + 1), names, true));
        assert(needs_approval.deep_view() =~= n0 + in_names(all.take(i + 1), names, false));
        i = i + 1;
    }
    assert(all.take(all.len() as int) =~= all);
    (PermissionCheckResult { approved, needs_approval, denied }, extension_request_ids)
}

/// What may be done with the requests, once a model has told which of `names`
/// only read.
pub open spec fn permission_check(
    requests: Seq<ToolRequestView>,
    mode: Seq<char>,
    notes: Annotations,
    p: PermissionsView,
    names: Seq<Seq<char>>,
) -> PermissionCheckView {
    let candidates = with_verdict(requests, mode, notes, p, Verdict::Detect);
    PermissionCheckView {
        approved: with_verdict(requests, mode, notes, p, Verdict::Approve) + in_names(
            candidates,
            names,
            true,
        ),
        needs_approval: with_verdict(requests, mode, notes, p, Verdict::Ask) + in_names(
            candidates,
            names,
            false,
        ),
        denied: with_verdict(requests, mode, notes, p, Verdict::Deny),
    }
}

/// What may be done with the requests, where `names` are the tools of which a
/// model has told that they only read.
pub fn check_tool_permissions(
    candidate_requests: &Vec<ToolRequest>,
    mode: &str,
    tools_with_readonly_annotation: &Vec<String>,
    tools_without_annotation: &Vec<String>,
    permissions: &mut PermissionManager,
    names: &Vec<String>,
) -> (r: (PermissionCheckResult, Vec<String>))
    ensures
        ({
            let requests = candidate_requests.deep_view();
            let notes = Annotations {
                read_only: tools_with_readonly_annotation.deep_view(),
                without: tools_without_annotation.deep_view(),
            };
            let p = old(permissions).deep_view();
            &&& r.0.deep_view() == permission_check(requests, mode@, notes, p, names.deep_view())
            &&& r.1.deep_view() == extension_ids(requests, mode@)
            &&& final(permissions).deep_view() == PermissionsView {
                smart_approve: learned(
                    p.smart_approve,
                    with_verdict(requests, mode@, notes, p, Verdict::Detect),
                    names.deep_view(),
                ),
                ..p
            }
        }),
{
    let sorting = sort_requests(
        candidate_requests,
        mode,
        tools_with_readonly_annotation,
        tools_without_annotation,
        permissions,
    );
    apply_detection(sorting, names, permissions)
}

/// The requests that count: all that could be read, but for the mode that only
/// chats.
pub open spec fn counted(requests: Seq<ToolRequestView>, mode: Seq<char>) -> Seq<ToolRequestView>
    decreases requests.len(),
{
    if requests.len() == 0 {
        Seq::empty()
    } else {
        let rest = counted(requests.drop_last(), mode);
        if requests.last().tool_call is Ok && mode != "chat"@ {
            rest.push(requests.last())
        } else {
            rest
        }
    }
}

proof fn lemma_verdicts_partition(
    requests: Seq<ToolRequestView>,
    mode: Seq<char>,
    notes: Annotations,
    p: PermissionsView,
)
    ensures
        ({
            let of = |v: Verdict| with_verdict(requests, mode, notes, p, v).to_multiset();
            of(Verdict::Approve).add(of(Verdict::Ask)).add(of(Verdict::Deny)).add(
                of(Verdict::Detect),
            ) =~= counted(requests, mode).to_multiset()
        }),
        forall|i: int|
            0 <= i < with_verdict(requests, mode, notes, p, Verdict::Detect).len() ==> (
            #[trigger] with_verdict(
                requests,
                mode,
                notes,
                p,
                Verdict::Detect,
            )[i]).tool_call is Ok,
    decreases requests.len(),
{
    broadcast use vstd::seq_lib::to_multiset_build;

    if requests.len() > 0 {
        let rest = requests.drop_last();
        lemma_verdicts_partition(rest, mode, notes, p);
        let d0 = with_verdict(rest, mode, notes, p, Verdict::Detect);
        let d = with_verdict(requests, mode, notes, p, Verdict::Detect);
        assert forall|i: int| 0 <= i < d.len() implies (#[trigger] d[i]).tool_call is Ok by {
            if i < d0.len() {
                assert(d[i] == d0[i]);
            }
        }
    } else {
        assert(Seq::<ToolRequestView>::empty().to_multiset() =~= Multiset::<
            ToolRequestView,
        >::empty()) by {
            broadcast use vstd::seq_lib::group_to_multiset_ensures;

            assert(Seq::<ToolRequestView>::empty().to_multiset().len() == 0);
        }
    }
}

proof fn lemma_detection_partition(candidates: Seq<ToolRequestView>, names: Seq<Seq<char>>)
    requires
        forall|i: int| 0 <= i < candidates.len() ==> (#[trigger] candidates[i]).tool_call is Ok,
    ensures
        in_names(candidates, names, true).to_multiset().add(
            in_names(candidates, names, false).to_multiset(),
        ) =~= candidates.to_multiset(),
    decreases candidates.len(),
{
    broadcast use vstd::seq_lib::to_multiset_build;

    if candidates.len() > 0 {
        let rest = candidates.drop_last();
        assert forall|i: int| 0 <= i < rest.len() implies (#[trigger] rest[i]).tool_call is Ok by {
            assert(candidates[i].tool_call is Ok);
        }
        lemma_detection_partition(rest, names);
        assert(candidates =~= rest.push(candidates.last()));
        assert(candidates[candidates.len() - 1].tool_call is Ok);
    } else {
        assert(candidates =~= Seq::<ToolRequestView>::empty());
        assert(Seq::<ToolRequestView>::empty().to_multiset() =~= Multiset::<
            ToolRequestView,
        >::empty()) by {
            broadcast use vstd::seq_lib::group_to_multiset_ensures;

            assert(Seq::<ToolRequestView>::empty().to_multiset().len() == 0);
        }
    }
}

/// Every request that counts ends up in exactly one of the three lists, as often
/// as it came.
pub proof fn law_every_request_once(
    requests: Seq<ToolRequestView>,
    mode: Seq<char>,
    notes: Annotations,
    p: PermissionsView,
    names: Seq<Seq<char>>,
)
    ensures
        ({
            let r = permission_check(requests, mode, notes, p, names);
            r.approved.to_multiset().add(r.needs_approval.to_multiset()).add(
                r.denied.to_multiset(),
            ) =~= counted(requests, mode).to_multiset()
        }),
{
    lemma_verdicts_partition(requests, mode, notes, p);
    let candidates = with_verdict(requests, mode, notes, p, Verdict::Detect);
    lemma_detection_partition(candidates, names);
    vstd::seq_lib::lemma_multiset_commutative(
        with_verdict(requests, mode, notes, p, Verdict::Approve),
        in_names(candidates, names, true),
    );
    vstd::seq_lib::lemma_multiset_commutative(
        with_verdict(requests, mode, notes, p, Verdict::Ask),
        in_names(candidates, names, false),
    );
}

proof fn lemma_with_verdict(
    requests: Seq<ToolRequestView>,
    mode: Seq<char>,
    notes: Annotations,
    p: PermissionsView,
    v: Verdict,
)
    ensures
        forall|i: int|
            0 <= i < with_verdict(requests, mode, notes, p, v).len() ==> verdict(
                #[trigger] with_verdict(requests, mode, notes, p, v)[i],
                mode,
                notes,
                p,
            ) == v,
    decreases requests.len(),
{
    if requests.len() > 0 {
        lemma_with_verdict(requests.drop_last(), mode, notes, p, v);
        let rest = with_verdict(requests.drop_last(), mode, notes, p, v);
        let now = with_verdict(requests, mode, notes, p, v);
        assert forall|i: int| 0 <= i < now.len() implies verdict(
            #[trigger] now[i],
            mode,
            notes,
            p,
        ) == v by {
            if i < rest.len() {
                assert(now[i] == rest[i]);
            }
        }
    }
}

proof fn lemma_in_names(candidates: Seq<ToolRequestView>, names: Seq<Seq<char>>, inside: bool)
    ensures
        forall|i: int|
            0 <= i < in_names(candidates, names, inside).len() ==> candidates.contains(
                #[trigger] in_names(candidates, names, inside)[i],
            ),
    decreases candidates.len(),
{
    if candidates.len() > 0 {
        lemma_in_names(candidates.drop_last(), names, inside);
        let rest = in_names(candidates.drop_last(), names, inside);
        let now = in_names(candidates, names, inside);
        assert forall|i: int| 0 <= i < now.len() implies candidates.contains(
            #[trigger] now[i],
        ) by {
            if i < rest.len() {
                assert(now[i] == rest[i]);
                assert(candidates.drop_last().contains(rest[i]));
                let j = choose|j: int|
                    0 <= j < candidates.drop_last().len() && candidates.drop_last()[j] == rest[i];
                assert(candidates[j] == now[i]);
            } else {
                assert(candidates[candidates.len() - 1] == now[i]);
            }
        }
    }
}

/// A tool that the user never allows is not approved, whatever a model says,
/// unless the mode approves everything.
pub proof fn law_never_allowed_is_not_approved(
    requests: Seq<ToolRequestView>,
    mode: Seq<char>,
    notes: Annotations,
    p: PermissionsView,
    names: Seq<Seq<char>>,
    i: int,
)
    requires
        mode != "auto"@,
        0 <= i < permission_check(requests, mode, notes, p, names).approved.len(),
    ensures
        permission_check(requests, mode, notes, p, names).approved[i].tool_call matches Ok(call)
            && lookup(p.user, call.name) != Some(PermissionLevel::NeverAllow),
{
    let a = with_verdict(requests, mode, notes, p, Verdict::Approve);
    let candidates = with_verdict(requests, mode, notes, p, Verdict::Detect);
    let b = in_names(candidates, names, true);
    lemma_with_verdict(requests, mode, notes, p, Verdict::Approve);
    lemma_with_verdict(requests, mode, notes, p, Verdict::Detect);
    lemma_in_names(candidates, names, true);
    let x = permission_check(requests, mode, notes, p, names).approved[i];
    if i < a.len() {
        assert(x == a[i]);
    } else {
        assert(x == b[i - a.len()]);
        assert(candidates.contains(b[i - a.len()]));
        let j = choose|j: int| 0 <= j < candidates.len() && candidates[j] == x;
        assert(verdict(candidates[j], mode, notes, p) == Verdict::Detect);
    }
}

/// In the mode that only chats nothing is approved, asked for or denied; in the
/// mode that approves everything, every request that could be read is approved.
pub proof fn law_chat_and_auto(
    requests: Seq<ToolRequestView>,
    notes: Annotations,
    p: PermissionsView,
    names: Seq<Seq<char>>,
)
    ensures
        ({
            let chat = permission_check(requests, "chat"@, notes, p, names);
            chat.approved.len() == 0 && chat.needs_approval.len() == 0 && chat.denied.len() == 0
        }),
        permission_check(requests, "auto"@, notes, p, names).approved == counted(
            requests,
            "auto"@,
        ),
    decreases requests.len(),
{
    reveal_strlit("chat");
    reveal_strlit("auto");
    assert("chat"@[0] != "auto"@[0]);
    if requests.len() > 0 {
        law_chat_and_auto(requests.drop_last(), notes, p, names);
        lemma_no_candidates(requests, notes, p);
        lemma_no_candidates(requests.drop_last(), notes, p);
    }
    lemma_no_candidates(requests, notes, p);
    let none = Seq::<ToolRequestView>::empty();
    assert(in_names(none, names, true) =~= none);
    let a = with_verdict(requests, "auto"@, notes, p, Verdict::Approve);
    assert(a + none =~= a);
    if requests.len() > 0 {
        let a0 = with_verdict(requests.drop_last(), "auto"@, notes, p, Verdict::Approve);
        assert(a0 + none =~= a0);
    }
}

proof fn lemma_no_candidates(
    requests: Seq<ToolRequestView>,
    notes: Annotations,
    p: PermissionsView,
)
    ensures
        with_verdict(requests, "chat"@, notes, p, Verdict::Detect) == Seq::<
            ToolRequestView,
        >::empty(),
        with_verdict(requests, "auto"@, notes, p, Verdict::Detect) == Seq::<
            ToolRequestView,
        >::empty(),
    decreases requests.len(),
{
    if requests.len() > 0 {
        lemma_no_candidates(requests.drop_last(), notes, p);
    }
}

proof fn lemma_joined_holds(list: Seq<Seq<char>>, sep: Seq<char>, i: int)
    requires
        0 <= i < list.len(),
    ensures
        text::occurs_in(text::joined(list, sep), list[i]),
    decreases list.len(),
{
    let all = text::joined(list, sep);
    if list.len() == 1 {
        assert(all.subrange(0, list[i].len() as int) =~= list[i]);
        assert(text::occurs_at(all, list[i], 0));
    } else {
        let rest = text::joined(list.drop_last(), sep);
        if i < list.len() - 1 {
            lemma_joined_holds(list.drop_last(), sep, i);
            assert(list.drop_last()[i] == list[i]);
            let k = choose|k: int| text::occurs_at(rest, list[i], k);
            assert(all.subrange(k, k + list[i].len()) =~= rest.subrange(k, k + list[i].len()));
            assert(text::occurs_at(all, list[i], k));
        } else {
            let k = (rest + sep).len() as int;
            assert(all.subrange(k, k + list[i].len()) =~= list[i]);
            assert(text::occurs_at(all, list[i], k));
        }
    }
}

proof fn lemma_joined_plain(list: Seq<Seq<char>>, sep: Seq<char>)
    requires
        forall|i: int| 0 <= i < list.len() ==> text::plain_text(#[trigger] list[i]),
        text::plain_text(sep),
    ensures
        text::plain_text(text::joined(list, sep)),
    decreases list.len(),
{
    if list.len() > 1 {
        let rest = text::joined(list.drop_last(), sep);
        assert forall|i: int| 0 <= i < list.drop_last().len() implies text::plain_text(
            #[trigger] list.drop_last()[i],
        ) by {
            assert(list.drop_last()[i] == list[i]);
        }
        lemma_joined_plain(list.drop_last(), sep);
        let last = list[list.len() - 1];
        assert(text::plain_text(last));
        let all = text::joined(list, sep);
        assert(all == rest + sep + last);
        assert forall|i: int| 0 <= i < all.len() implies {
            let c = #[trigger] all[i];
            ('a' <= c && c <= 'z') || ('A' <= c && c <= 'Z') || ('0' <= c && c <= '9') || c == ' '
                || c == ',' || c == '_'
        } by {
            if i < rest.len() {
                assert(all[i] == rest[i]);
            } else if i < rest.len() + sep.len() {
                assert(all[i] == sep[i - rest.len()]);
            } else {
                assert(all[i] == last[i - rest.len() - sep.len()]);
            }
        }
    } else if list.len() == 1 {
        assert(text::plain_text(list[0]));
    }
}

proof fn lemma_called(requests: Seq<ToolRequestView>, i: int)
    requires
        0 <= i < requests.len(),
        requests[i].tool_call is Ok,
    ensures
        called_names(requests).contains(requests[i].tool_call->Ok_0.name),
    decreases requests.len(),
{
    let names = called_names(requests);
    let rest = called_names(requests.drop_last());
    let name = requests[i].tool_call->Ok_0.name;
    if i < requests.len() - 1 {
        lemma_called(requests.drop_last(), i);
        let k = choose|k: int| 0 <= k < rest.len() && rest[k] == name;
        assert(names[k] == name);
    } else {
        assert(names == rest.push(name));
        assert(names[rest.len() as int] == name);
    }
}

/// What a model is asked names every tool that is requested, where the names are
/// made of ASCII letters, digits and underscores.
pub proof fn law_every_tool_is_named(requests: Seq<ToolRequestView>, i: int)
    requires
        0 <= i < requests.len(),
        requests[i].tool_call is Ok,
        forall|k: int|
            0 <= k < called_names(requests).len() ==> text::plain_text(
                #[trigger] called_names(requests)[k],
            ),
    ensures
        text::occurs_in(check_text(requests), requests[i].tool_call->Ok_0.name),
{
    let names = called_names(requests);
    let name = requests[i].tool_call->Ok_0.name;
    reveal_strlit(", ");
    lemma_called(requests, i);
    let k = choose|k: int| 0 <= k < names.len() && names[k] == name;
    lemma_joined_holds(names, ", "@, k);
    lemma_joined_plain(names, ", "@);
    let list = text::joined(names, ", "@);
    let at = choose|at: int| text::occurs_at(list, name, at);
    let all = check_text(requests);
    let from = "Here are the tool requests: "@.len() + 1 + at;
    assert(all.subrange(from, from + name.len()) =~= list.subrange(at, at + name.len()));
    assert(text::occurs_at(all, name, from));
}

} // verus!
