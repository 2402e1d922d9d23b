//! Tools, tool calls and their errors.
use crate::base::{self, Duplicate, Same};
use crate::json::{Json, JsonView};
use crate::text;
use vstd::prelude::*;
use vstd::string::*;

verus! {

/// Error code: the parameters of a call are not valid.
pub const INVALID_PARAMS: i32 = -32602;

/// Error code: the call failed inside the callee.
pub const INTERNAL_ERROR: i32 = -32603;

/// Error code: what the call names does not exist.
pub const RESOURCE_NOT_FOUND: i32 = -32002;

/// An error of a tool call.
#[derive(Debug, PartialEq)]
pub struct ErrorData {
    pub code: i32,
    pub message: String,
}

pub struct ErrorDataView {
    pub code: i32,
    pub message: Seq<char>,
}

impl DeepView for ErrorData {
    type V = ErrorDataView;

    open spec fn deep_view(&self) -> ErrorDataView {
        ErrorDataView { code: self.code, message: self.message@ }
    }
}

impl Duplicate for ErrorData {
    fn duplicate(&self) -> (r: Self) {
        ErrorData { code: self.code, message: self.message.clone() }
    }
}

/// Hints about what a tool does.
#[derive(Debug, PartialEq)]
pub struct ToolAnnotations {
    pub title: Option<String>,
    pub read_only_hint: Option<bool>,
    pub destructive_hint: Option<bool>,
    pub idempotent_hint: Option<bool>,
    pub open_world_hint: Option<bool>,
}

pub struct ToolAnnotationsView {
    pub title: Option<Seq<char>>,
    pub read_only_hint: Option<bool>,
    pub destructive_hint: Option<bool>,
    pub idempotent_hint: Option<bool>,
    pub open_world_hint: Option<bool>,
}

impl DeepView for ToolAnnotations {
    type V = ToolAnnotationsView;

    open spec fn deep_view(&self) -> ToolAnnotationsView {
        ToolAnnotationsView {
            title: self.title.deep_view(),
            read_only_hint: self.read_only_hint,
            destructive_hint: self.destructive_hint,
            idempotent_hint: self.idempotent_hint,
            open_world_hint: self.open_world_hint,
        }
    }
}

impl Duplicate for ToolAnnotations {
    fn duplicate(&self) -> (r: Self) {
        ToolAnnotations {
            title: self.title.duplicate(),
            read_only_hint: self.read_only_hint,
            destructive_hint: self.destructive_hint,
            idempotent_hint: self.idempotent_hint,
            open_world_hint: self.open_world_hint,
        }
    }
}

/// A tool that can be offered to a model.
#[derive(Debug, PartialEq)]
pub struct Tool {
    pub name: String,
    pub title: Option<String>,
    pub description: Option<String>,
    pub input_schema: Vec<(String, Json)>,
    pub output_schema: Option<Vec<(String, Json)>>,
    pub annotations: Option<ToolAnnotations>,
    pub icons: Option<Json>,
}

pub struct ToolView {
    pub name: Seq<char>,
    pub title: Option<Seq<char>>,
    pub description: Option<Seq<char>>,
    pub input_schema: Seq<(Seq<char>, JsonView)>,
    pub output_schema: Option<Seq<(Seq<char>, JsonView)>>,
    pub annotations: Option<ToolAnnotationsView>,
    pub icons: Option<JsonView>,
}

impl DeepView for Tool {
    type V = ToolView;

    open spec fn deep_view(&self) -> ToolView {
        ToolView {
            name: self.name@,
            title: self.title.deep_view(),
            description: self.description.deep_view(),
            input_schema: self.input_schema.deep_view(),
            output_schema: self.output_schema.deep_view(),
            annotations: self.annotations.deep_view(),
            icons: self.icons.deep_view(),
        }
    }
}

impl Duplicate for Tool {
    fn duplicate(&self) -> (r: Self) {
        Tool {
            name: self.name.clone(),
            title: self.title.duplicate(),
            description: self.description.duplicate(),
            input_schema: self.input_schema.duplicate(),
            output_schema: self.output_schema.duplicate(),
            annotations: self.annotations.duplicate(),
            icons: self.icons.duplicate(),
        }
    }
}

/// A call of a tool by its name.
#[derive(Debug, PartialEq)]
pub struct ToolCall {
    pub name: String,
    pub arguments: Option<Vec<(String, Json)>>,
}

pub struct ToolCallView {
    pub name: Seq<char>,
    pub arguments: Option<Seq<(Seq<char>, JsonView)>>,
}

impl DeepView for ToolCall {
    type V = ToolCallView;

    open spec fn deep_view(&self) -> ToolCallView {
        ToolCallView { name: self.name@, arguments: self.arguments.deep_view() }
    }
}

impl Duplicate for ToolCall {
    fn duplicate(&self) -> (r: Self) {
        ToolCall { name: self.name.clone(), arguments: self.arguments.duplicate() }
    }
}

/// A request of the model to call a tool; an error stands for a call that
/// could not be read.
#[derive(Debug, PartialEq)]
pub struct ToolRequest {
    pub id: String,
    pub tool_call: Result<ToolCall, ErrorData>,
}

pub struct ToolRequestView {
    pub id: Seq<char>,
    pub tool_call: Result<ToolCallView, ErrorDataView>,
}

impl DeepView for ToolRequest {
    type V = ToolRequestView;

    open spec fn deep_view(&self) -> ToolRequestView {
        ToolRequestView {
            id: self.id@,
            tool_call: match self.tool_call {
                Ok(c) => Ok(c.deep_view()),
                Err(e) => Err(e.deep_view()),
            },
        }
    }
}

impl Duplicate for ToolRequest {
    fn duplicate(&self) -> (r: Self) {
        ToolRequest {
            id: self.id.clone(),
            tool_call: match &self.tool_call {
                Ok(c) => Ok(c.duplicate()),
                Err(e) => Err(e.duplicate()),
            },
        }
    }
}

/// One piece of what a tool returns. Anything that is not a text is known only
/// by a number under which the caller finds it again.
#[derive(Debug, PartialEq)]
pub enum Content {
    Text(String),
    Opaque(u64),
}

pub enum ContentView {
    Text(Seq<char>),
    Opaque(u64),
}

impl DeepView for Content {
    type V = ContentView;

    open spec fn deep_view(&self) -> ContentView {
        match self {
            Content::Text(s) => ContentView::Text(s@),
            Content::Opaque(h) => ContentView::Opaque(*h),
        }
    }
}

impl Duplicate for Content {
    fn duplicate(&self) -> (r: Self) {
        match self {
            Content::Text(s) => Content::Text(s.clone()),
            Content::Opaque(h) => Content::Opaque(*h),
        }
    }
}

impl Same for ErrorData {
    fn same(&self, other: &Self) -> (r: bool) {
        self.code == other.code && text::str_eq(&self.message, &other.message)
    }
}

impl Same for ToolCall {
    fn same(&self, other: &Self) -> (r: bool) {
        text::str_eq(&self.name, &other.name) && self.arguments.same(&other.arguments)
    }
}

impl Same for ToolRequest {
    fn same(&self, other: &Self) -> (r: bool) {
        let same_call = match (&self.tool_call, &other.tool_call) {
            (Ok(a), Ok(b)) => a.same(b),
            (Err(a), Err(b)) => a.same(b),
            _ => false,
        };
        same_call && text::str_eq(&self.id, &other.id)
    }
}

impl Same for Content {
    fn same(&self, other: &Self) -> (r: bool) {
        match (self, other) {
            (Content::Text(a), Content::Text(b)) => text::str_eq(a, b),
            (Content::Opaque(a), Content::Opaque(b)) => *a == *b,
            _ => false,
        }
    }
}

/// The outcome of a tool call.
pub type ToolResult = Result<Vec<Content>, ErrorData>;

pub open spec fn tool_result_view(r: ToolResult) -> Result<Seq<ContentView>, ErrorDataView> {
    match r {
        Ok(c) => Ok(c.deep_view()),
        Err(e) => Err(e.deep_view()),
    }
}

/// A copy of the outcome of a tool call.
pub fn duplicate_result(r: &ToolResult) -> (out: ToolResult)
    ensures
        tool_result_view(out) == tool_result_view(*r),
{
    match r {
        Ok(c) => Ok(c.duplicate()),
        Err(e) => Err(e.duplicate()),
    }
}

/// The successful outcome that holds one text.
pub open spec fn text_outcome(s: Seq<char>) -> Result<Seq<ContentView>, ErrorDataView> {
    Ok(seq![ContentView::Text(s)])
}

/// The successful outcome that holds one text.
pub fn text_result(s: String) -> (r: ToolResult)
    ensures
        tool_result_view(r) == text_outcome(s@),
{
    let list = base::single(Content::Text(s));
    Ok(list)
}

/// The outcome that fails with a code and a message.
pub open spec fn failure(code: i32, message: Seq<char>) -> Result<
    Seq<ContentView>,
    ErrorDataView,
> {
    Err(ErrorDataView { code, message })
}

impl ToolView {
    /// A tool with a description, an input schema and hints: none of its
    /// operations is destructive, idempotent or reaches out.
    pub open spec fn described(
        name: Seq<char>,
        description: Seq<char>,
        input_schema: Seq<(Seq<char>, JsonView)>,
        title: Seq<char>,
        read_only: bool,
    ) -> ToolView {
        ToolView {
            name,
            title: None,
            description: Some(description),
            input_schema,
            output_schema: None,
            annotations: Some(
                ToolAnnotationsView {
                    title: Some(title),
                    read_only_hint: Some(read_only),
                    destructive_hint: Some(false),
                    idempotent_hint: Some(false),
                    open_world_hint: Some(false),
                },
            ),
            icons: None,
        }
    }
}

impl Tool {
    /// A tool with a description, an input schema and hints.
    pub fn described(
        name: &str,
        description: &str,
        input_schema: Vec<(String, Json)>,
        title: &str,
        read_only: bool,
    ) -> (r: Self)
        ensures
            r.deep_view() == ToolView::described(
                name@,
                description@,
                input_schema.deep_view(),
                title@,
                read_only,
            ),
    {
        Tool {
            name: text::owned(name),
            title: None,
            description: Some(text::owned(description)),
            input_schema,
            output_schema: None,
            annotations: Some(
                ToolAnnotations {
                    title: Some(text::owned(title)),
                    read_only_hint: Some(read_only),
                    destructive_hint: Some(false),
                    idempotent_hint: Some(false),
                    open_world_hint: Some(false),
                },
            ),
            icons: None,
        }
    }
}

} // verus!
