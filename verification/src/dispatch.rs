//! Where a tool call goes, and which tools the agent lists.
use crate::assoc::{self, lookup, put};
use crate::base::{self, Duplicate};
use crate::extension::{ExtensionConfig, ExtensionConfigView, ExtensionError, ExtensionErrorView};
use crate::extension::{ToolInfo, ToolInfoView};
use crate::extension_manager::{self, parameter_names};
use crate::extension_manager_extension::{self, params_of};
use crate::json::{Json, JsonView};
use crate::permission_judge::{PermissionManager, PermissionsView};
use crate::recipe::all_texts;
use crate::router_tools::ROUTER_LLM_SEARCH_TOOL_NAME;
use crate::text;
use crate::tool::{
    ErrorData, ErrorDataView, Tool, ToolCall, ToolCallView, ToolView, INTERNAL_ERROR,
    INVALID_PARAMS,
};
use vstd::prelude::*;
use vstd::string::*;

verus! {

/// The names of the tools that the agent answers itself.
#[derive(Debug, PartialEq)]
pub struct ToolNames {
    pub manage_schedule: String,
    pub final_output: String,
    pub subagent_execute_task: String,
    pub create_dynamic_task: String,
}

#[verifier::ext_equal]
pub struct ToolNamesView {
    pub manage_schedule: Seq<char>,
    pub final_output: Seq<char>,
    pub subagent_execute_task: Seq<char>,
    pub create_dynamic_task: Seq<char>,
}

impl DeepView for ToolNames {
    type V = ToolNamesView;

    open spec fn deep_view(&self) -> ToolNamesView {
        ToolNamesView {
            manage_schedule: self.manage_schedule@,
            final_output: self.final_output@,
            subagent_execute_task: self.subagent_execute_task@,
            create_dynamic_task: self.create_dynamic_task@,
        }
    }
}

/// A tool that the frontend executes.
#[derive(Debug, PartialEq)]
pub struct FrontendTool {
    pub name: String,
    pub tool: Tool,
}

#[verifier::ext_equal]
pub struct FrontendToolView {
    pub name: Seq<char>,
    pub tool: ToolView,
}

impl DeepView for FrontendTool {
    type V = FrontendToolView;

    open spec fn deep_view(&self) -> FrontendToolView {
        FrontendToolView {
            name: self.name@,
            tool: self.tool.deep_view(),
        }
    }
}

impl Duplicate for FrontendTool {
    fn duplicate(&self) -> (r: Self) {
        FrontendTool {
            name: self.name.clone(),
            tool: self.tool.duplicate(),
        }
    }
}

/// What the agent has at hand when a tool is called.
#[derive(Debug, PartialEq)]
pub struct DispatchContext {
    pub names: ToolNames,
    /// A recipe asks for a final output.
    pub has_final_output: bool,
    /// The tool is one of a sub-recipe.
    pub is_sub_recipe: bool,
    pub has_provider: bool,
    pub has_session: bool,
    pub frontend_tools: Vec<(String, FrontendTool)>,
}

#[verifier::ext_equal]
pub struct DispatchContextView {
    pub names: ToolNamesView,
    pub has_final_output: bool,
    pub is_sub_recipe: bool,
    pub has_provider: bool,
    pub has_session: bool,
    pub frontend_tools: Seq<(Seq<char>, FrontendToolView)>,
}

impl DeepView for DispatchContext {
    type V = DispatchContextView;

    open spec fn deep_view(&self) -> DispatchContextView {
        DispatchContextView {
            names: self.names.deep_view(),
            has_final_output: self.has_final_output,
            is_sub_recipe: self.is_sub_recipe,
            has_provider: self.has_provider,
            has_session: self.has_session,
            frontend_tools: self.frontend_tools.deep_view(),
        }
    }
}

/// Where a tool call goes.
#[derive(Debug, PartialEq)]
pub enum DispatchRoute {
    /// To the scheduler.
    Schedule(Json),
    /// To the tool for the final output.
    FinalOutput,
    SubRecipe { name: String, arguments: Json },
    /// To subagents. A mode that is missing or unknown stands for one task after the
    /// other.
    RunTasks { task_ids: Vec<String>, execution_mode: Option<Json> },
    CreateTask(Json),
    /// To the search for tools.
    RouterSearch(Vec<(String, Json)>),
    /// To the extensions.
    Extension(ToolCall),
    /// Nowhere: the outcome of the call is an error.
    Answered(ErrorData),
    /// Nowhere: the call itself is refused.
    Refused(ErrorData),
}

#[verifier::ext_equal]
pub enum DispatchRouteView {
    Schedule(JsonView),
    FinalOutput,
    SubRecipe { name: Seq<char>, arguments: JsonView },
    RunTasks { task_ids: Seq<Seq<char>>, execution_mode: Option<JsonView> },
    CreateTask(JsonView),
    RouterSearch(Seq<(Seq<char>, JsonView)>),
    Extension(ToolCallView),
    Answered(ErrorDataView),
    Refused(ErrorDataView),
}

impl DeepView for DispatchRoute {
    type V = DispatchRouteView;

    open spec fn deep_view(&self) -> DispatchRouteView {
        match self {
            DispatchRoute::Schedule(x) => DispatchRouteView::Schedule(x.deep_view()),
            DispatchRoute::FinalOutput => DispatchRouteView::FinalOutput,
            DispatchRoute::SubRecipe { name, arguments } => DispatchRouteView::SubRecipe {
                name: name@,
                arguments: arguments.deep_view(),
            },
            DispatchRoute::RunTasks { task_ids, execution_mode } => DispatchRouteView::RunTasks {
                task_ids: task_ids.deep_view(),
                execution_mode: execution_mode.deep_view(),
            },
            DispatchRoute::CreateTask(x) => DispatchRouteView::CreateTask(x.deep_view()),
            DispatchRoute::RouterSearch(x) => DispatchRouteView::RouterSearch(x.deep_view()),
            DispatchRoute::Extension(x) => DispatchRouteView::Extension(x.deep_view()),
            DispatchRoute::Answered(x) => DispatchRouteView::Answered(x.deep_view()),
            DispatchRoute::Refused(x) => DispatchRouteView::Refused(x.deep_view()),
        }
    }
}

pub open spec fn internal(message: Seq<char>) -> ErrorDataView {
    ErrorDataView { code: INTERNAL_ERROR, message }
}

pub open spec fn invalid(message: Seq<char>) -> ErrorDataView {
    ErrorDataView { code: INVALID_PARAMS, message }
}

/// Tasks are run for a provider and a session, and the call has to name them.
pub open spec fn task_route(call: ToolCallView, c: DispatchContextView) -> DispatchRouteView {
    if !c.has_provider {
        DispatchRouteView::Refused(internal("Provider is required"@))
    } else if !c.has_session {
        DispatchRouteView::Refused(internal("Session is required"@))
    } else {
        match call.arguments {
            None => DispatchRouteView::Refused(invalid("Tool call arguments are required"@)),
            Some(args) => match lookup(args, "task_ids"@) {
                None => DispatchRouteView::Refused(invalid("task_ids parameter is required"@)),
                Some(JsonView::Array(items)) => if all_texts(items) {
                    DispatchRouteView::RunTasks {
                        task_ids: items.map_values(|v: JsonView| v->Text_0),
                        execution_mode: lookup(args, "execution_mode"@),
                    }
                } else {
                    DispatchRouteView::Refused(invalid("Invalid task_ids format"@))
                },
                Some(_) => DispatchRouteView::Refused(invalid("Invalid task_ids format"@)),
            },
        }
    }
}

/// Where a tool call goes. What the agent answers itself goes before the
/// frontend's tools, and those before the extensions.
pub open spec fn dispatch_route(call: ToolCallView, c: DispatchContextView) -> DispatchRouteView {
    if call.name == c.names.manage_schedule {
        DispatchRouteView::Schedule(params_of(call.arguments))
    } else if call.name == c.names.final_output {
        if c.has_final_output {
            DispatchRouteView::FinalOutput
        } else {
            DispatchRouteView::Refused(internal("Final output tool not defined"@))
        }
    } else if c.is_sub_recipe {
        DispatchRouteView::SubRecipe { name: call.name, arguments: params_of(call.arguments) }
    } else if call.name == c.names.subagent_execute_task {
        task_route(call, c)
    } else if call.name == c.names.create_dynamic_task {
        DispatchRouteView::CreateTask(params_of(call.arguments))
    } else if lookup(c.frontend_tools, call.name) is Some {
        DispatchRouteView::Answered(internal("Frontend tool execution required"@))
    } else if call.name == ROUTER_LLM_SEARCH_TOOL_NAME@ {
        DispatchRouteView::RouterSearch(
            match call.arguments {
                Some(args) => args,
                None => Seq::empty(),
            },
        )
    } else {
        DispatchRouteView::Extension(call)
    }
}

fn refuse(code: i32, message: &str) -> (r: DispatchRoute)
    ensures
        r.deep_view() == DispatchRouteView::Refused(ErrorDataView { code, message: message@ }),
{
    DispatchRoute::Refused(ErrorData { code, message: text::owned(message) })
}

/// The texts of a list of JSON values, where all are texts.
pub fn texts_only(items: &Vec<Json>) -> (r: Option<Vec<String>>)
    ensures
        match r {
            Some(list) => all_texts(items.deep_view()) && list.deep_view()
                == items.deep_view().map_values(|v: JsonView| v->Text_0),
            None => !all_texts(items.deep_view()),
        },
{
    let ghost all = items.deep_view();
    let mut out: Vec<String> = Vec::new();
    let mut i: usize = 0;
    while i < items.len()
        invariant
            i <= items@.len(),
            all == items.deep_view(),
            forall|k: int| 0 <= k < i ==> (#[trigger] all[k]) is Text,
            out.deep_view() == all.map_values(|v: JsonView| v->Text_0).take(i as int),
        decreases items@.len() - i,
    {
        match &items[i] {
            Json::Text(s) => {
                assert(all[i as int] == JsonView::Text(s@));
                base::push(&mut out, s.clone());
                assert(out.deep_view() =~= all.map_values(|v: JsonView| v->Text_0).take(i + 1));
            },
            _ => {
                assert(!(all[i as int] is Text));
                return None;
            },
        }
        i = i + 1;
    }
    assert(out.deep_view() =~= all.map_values(|v: JsonView| v->Text_0));
    Some(out)
}

fn route_tasks(call: &ToolCall, c: &DispatchContext) -> (r: DispatchRoute)
    ensures
        r.deep_view() == task_route(call.deep_view(), c.deep_view()),
{
    if !c.has_provider {
        return refuse(INTERNAL_ERROR, "Provider is required");
    }
    if !c.has_session {
        return refuse(INTERNAL_ERROR, "Session is required");
    }
    let args = match &call.arguments {
        Some(args) => args,
        None => {
            return refuse(INVALID_PARAMS, "Tool call arguments are required");
        },
    };
    let ids = match assoc::get(args, "task_ids") {
        Some(v) => v,
        None => {
            return refuse(INVALID_PARAMS, "task_ids parameter is required");
        },
    };
    let items = match ids.as_array() {
        Some(items) => items,
        None => {
            return refuse(INVALID_PARAMS, "Invalid task_ids format");
        },
    };
    let task_ids = match texts_only(items) {
        Some(list) => list,
        None => {
            return refuse(INVALID_PARAMS, "Invalid task_ids format");
        },
    };
    let execution_mode = match assoc::get(args, "execution_mode") {
        Some(v) => Some(v.duplicate()),
        None => None,
    };
    DispatchRoute::RunTasks { task_ids, execution_mode }
}

fn arguments_of(call: &ToolCall) -> (r: Json)
    ensures
        r.deep_view() == params_of(call.deep_view().arguments),
{
    match &call.arguments {
        Some(args) => extension_manager_extension::arguments_object(Some(args)),
        None => extension_manager_extension::arguments_object(None),
    }
}

/// Where a tool call goes.
pub fn dispatch_tool_call(call: &ToolCall, c: &DispatchContext) -> (r: DispatchRoute)
    ensures
        r.deep_view() == dispatch_route(call.deep_view(), c.deep_view()),
{
    if text::str_eq(&call.name, &c.names.manage_schedule) {
        return DispatchRoute::Schedule(arguments_of(call));
    }
    if text::str_eq(&call.name, &c.names.final_output) {
        return if c.has_final_output {
            DispatchRoute::FinalOutput
        } else {
            refuse(INTERNAL_ERROR, "Final output tool not defined")
        };
    }
    if c.is_sub_recipe {
        return DispatchRoute::SubRecipe {
            name: call.name.clone(),
            arguments: arguments_of(call),
        };
    }
    if text::str_eq(&call.name, &c.names.subagent_execute_task) {
        return route_tasks(call, c);
    }
    if text::str_eq(&call.name, &c.names.create_dynamic_task) {
        return DispatchRoute::CreateTask(arguments_of(call));
    }
    if assoc::contains_key(&c.frontend_tools, &call.name) {
        return DispatchRoute::Answered(
            ErrorData {
                code: INTERNAL_ERROR,
                message: text::owned("Frontend tool execution required"),
            },
        );
    }
    if text::str_eq(&call.name, ROUTER_LLM_SEARCH_TOOL_NAME) {
        let args = match &call.arguments {
            Some(args) => args.duplicate(),
            None => {
                let none: Vec<(String, Json)> = Vec::new();
                assert(none.deep_view() =~= Seq::<(Seq<char>, JsonView)>::empty());
                none
            },
        };
        return DispatchRoute::RouterSearch(args);
    }
    DispatchRoute::Extension(call.duplicate())
}

/// The outcome where the extensions refuse a call: an internal error with the
/// text of the refusal.
pub fn extension_error(cause: String) -> (r: ErrorData)
    ensures
        r.deep_view() == internal(cause@),
{
    ErrorData { code: INTERNAL_ERROR, message: cause }
}

/// What the frontend's tools are said to be where nothing is said of them.
pub open spec fn default_frontend_instructions() -> Seq<char> {
    "The following tools are provided directly by the frontend and will be executed by the frontend when called."@
}

/// The tools that the frontend executes, and what is said of them.
#[derive(Debug, PartialEq)]
pub struct FrontendState {
    pub tools: Vec<(String, FrontendTool)>,
    pub instructions: Option<String>,
}

#[verifier::ext_equal]
pub struct FrontendStateView {
    pub tools: Seq<(Seq<char>, FrontendToolView)>,
    pub instructions: Option<Seq<char>>,
}

impl DeepView for FrontendState {
    type V = FrontendStateView;

    open spec fn deep_view(&self) -> FrontendStateView {
        FrontendStateView {
            tools: self.tools.deep_view(),
            instructions: self.instructions.deep_view(),
        }
    }
}

/// The frontend's tools with more of them, each under its name.
pub open spec fn with_frontend_tools(
    known: Seq<(Seq<char>, FrontendToolView)>,
    tools: Seq<ToolView>,
) -> Seq<(Seq<char>, FrontendToolView)>
    decreases tools.len(),
{
    if tools.len() == 0 {
        known
    } else {
        let t = tools.last();
        put(
            with_frontend_tools(known, tools.drop_last()),
            t.name,
            FrontendToolView { name: t.name, tool: t },
        )
    }
}

/// What the agent itself does with a new extension: the tools of the frontend
/// are kept.
pub open spec fn frontend_added(
    s: FrontendStateView,
    config: ExtensionConfigView,
) -> FrontendStateView {
    match config {
        ExtensionConfigView::Frontend { tools, instructions, .. } => FrontendStateView {
            tools: with_frontend_tools(s.tools, tools),
            instructions: match instructions {
                Some(t) => Some(t),
                None => Some(default_frontend_instructions()),
            },
        },
        _ => s,
    }
}

impl FrontendState {
    /// No tool is the frontend's.
    pub fn new() -> (r: Self)
        ensures
            r.deep_view() == (FrontendStateView { tools: Seq::empty(), instructions: None }),
    {
        let tools = Vec::new();
        let r = FrontendState { tools, instructions: None };
        assert(r.tools.deep_view() =~= Seq::<(Seq<char>, FrontendToolView)>::empty());
        r
    }

    /// Keeps the tools of the frontend. Returns whether the extension is one of
    /// the frontend; any other one is for the extension manager.
    pub fn add_extension(&mut self, extension: &ExtensionConfig) -> (r: bool)
        ensures
            final(self).deep_view() == frontend_added(
                old(self).deep_view(),
                extension.deep_view(),
            ),
            r == (extension.deep_view() is Frontend),
    {
        if let ExtensionConfig::Frontend { tools, instructions, .. } = extension {
            let ghost all = tools.deep_view();
            let ghost known = self.tools.deep_view();
            let mut i: usize = 0;
            assert(all.take(0) =~= Seq::empty());
            while i < tools.len()
                invariant
                    i <= tools@.len(),
                    all == tools.deep_view(),
                    self.tools.deep_view() == with_frontend_tools(known, all.take(i as int)),
                decreases tools@.len() - i,
            {
                assert(all.take(i + 1).drop_last() =~= all.take(i as int));
                let t = &tools[i];
                assoc::insert(
                    &mut self.tools,
                    t.name.clone(),
                    FrontendTool { name: t.name.clone(), tool: t.duplicate() },
                );
                i = i + 1;
            }
            assert(all.take(tools@.len() as int) =~= all);
            self.instructions =
            match instructions {
                Some(t) => Some(t.clone()),
                None => Some(
                    text::owned(
                        "The following tools are provided directly by the frontend and will be executed by the frontend when called.",
                    ),
                ),
            };
            return true;
        }
        false
    }

    /// Whether a tool is the frontend's.
    pub fn is_frontend_tool(&self, name: &str) -> (r: bool)
        ensures
            r == (lookup(self.deep_view().tools, name@) is Some),
    {
        assoc::contains_key(&self.tools, name)
    }

    /// A tool of the frontend.
    pub fn get_frontend_tool(&self, name: &str) -> (r: Option<FrontendTool>)
        ensures
            r.deep_view() == lookup(self.deep_view().tools, name@),
    {
        match assoc::get(&self.tools, name) {
            Some(t) => Some(t.duplicate()),
            None => None,
        }
    }
}

/// The error where the tools of a new extension cannot be indexed.
pub fn indexing_failed(extension_name: &str, cause: &str) -> (r: ExtensionError)
    ensures
        r.deep_view() == ExtensionErrorView::SetupError(
            "Failed to index tools for extension "@ + extension_name@ + ": "@ + cause@,
        ),
{
    let mut e = text::cat3("Failed to index tools for extension ", extension_name, ": ");
    e.append(cause);
    ExtensionError::SetupError(e)
}

/// The tools that the agent lists besides those of the extensions.
#[derive(Debug, PartialEq)]
pub struct AgentTools {
    pub manage_schedule: Tool,
    pub create_dynamic_task: Tool,
    pub sub_recipes: Vec<Tool>,
    pub final_output: Option<Tool>,
    pub subagent_execute_task: Tool,
}

#[verifier::ext_equal]
pub struct AgentToolsView {
    pub manage_schedule: ToolView,
    pub create_dynamic_task: ToolView,
    pub sub_recipes: Seq<ToolView>,
    pub final_output: Option<ToolView>,
    pub subagent_execute_task: ToolView,
}

impl DeepView for AgentTools {
    type V = AgentToolsView;

    open spec fn deep_view(&self) -> AgentToolsView {
        AgentToolsView {
            manage_schedule: self.manage_schedule.deep_view(),
            create_dynamic_task: self.create_dynamic_task.deep_view(),
            sub_recipes: self.sub_recipes.deep_view(),
            final_output: self.final_output.deep_view(),
            subagent_execute_task: self.subagent_execute_task.deep_view(),
        }
    }
}

/// The tools that the agent lists: those of the extensions first. The agent's own
/// belong to the extension `platform`, and some of them come only with all.
pub open spec fn listed_tools(
    prefixed: Seq<ToolView>,
    extension_name: Option<Seq<char>>,
    own: AgentToolsView,
) -> Seq<ToolView> {
    let platform = if extension_name is None || extension_name == Some("platform"@) {
        seq![own.manage_schedule, own.create_dynamic_task]
    } else {
        Seq::empty()
    };
    let rest = if extension_name is None {
        own.sub_recipes + (match own.final_output {
            Some(t) => seq![t],
            None => Seq::empty(),
        }) + seq![own.subagent_execute_task]
    } else {
        Seq::empty()
    };
    prefixed + platform + rest
}

/// The tools that the agent lists.
pub fn list_tools(prefixed: Vec<Tool>, extension_name: Option<&str>, own: AgentTools) -> (r: Vec<
    Tool,
>)
    ensures
        r.deep_view() == listed_tools(
            prefixed.deep_view(),
            extension_name.deep_view(),
            own.deep_view(),
        ),
{
    let ghost p = prefixed.deep_view();
    let ghost o = own.deep_view();
    let AgentTools {
        manage_schedule,
        create_dynamic_task,
        sub_recipes,
        final_output,
        subagent_execute_task,
    } = own;
    let mut tools = prefixed;
    let with_platform = match extension_name {
        None => true,
        Some(name) => text::str_eq(name, "platform"),
    };
    if with_platform {
        base::push(&mut tools, manage_schedule);
        base::push(&mut tools, create_dynamic_task);
    }
    if extension_name.is_none() {
        base::extend(&mut tools, &sub_recipes);
        if let Some(t) = final_output {
            base::push(&mut tools, t);
        }
        base::push(&mut tools, subagent_execute_task);
    }
    assert(tools.deep_view() =~= listed_tools(p, extension_name.deep_view(), o));
    tools
}

/// What is told of a tool: its permission only where the user's are known.
pub open spec fn tool_info(t: ToolView, p: Option<PermissionsView>) -> ToolInfoView {
    ToolInfoView {
        name: t.name,
        description: match t.description {
            Some(d) => d,
            None => Seq::empty(),
        },
        parameters: parameter_names(t.input_schema),
        permission: match p {
            Some(p) => lookup(p.user, t.name),
            None => None,
        },
    }
}

pub open spec fn tool_infos(tools: Seq<ToolView>, p: Option<PermissionsView>) -> Seq<
    ToolInfoView,
> {
    tools.map_values(|t: ToolView| tool_info(t, p))
}

/// What is told of the tools.
pub fn describe_tools(tools: &Vec<Tool>, permissions: Option<&PermissionManager>) -> (r: Vec<
    ToolInfo,
>)
    ensures
        r.deep_view() == tool_infos(tools.deep_view(), permissions.deep_view()),
{
    let ghost p = permissions.deep_view();
    let mut out: Vec<ToolInfo> = Vec::new();
    let mut i: usize = 0;
    while i < tools.len()
        invariant
            i <= tools@.len(),
            p == permissions.deep_view(),
            out.deep_view() == tool_infos(tools.deep_view(), p).take(i as int),
        decreases tools@.len() - i,
    {
        let t = &tools[i];
        let description = match &t.description {
            Some(d) => d.clone(),
            None => String::new(),
        };
        let permission = match permissions {
            Some(m) => m.get_user_permission(&t.name),
            None => None,
        };
        let info = ToolInfo {
            name: t.name.clone(),
            description,
            parameters: extension_manager::get_parameter_names(t),
            permission,
        };
        assert(info.deep_view() =~= tool_info(t.deep_view(), p));
        base::push(&mut out, info);
        assert(out.deep_view() =~= tool_infos(tools.deep_view(), p).take(i + 1));
        i = i + 1;
    }
    assert(out.deep_view() =~= tool_infos(tools.deep_view(), p));
    out
}

/// How often a reply has been tried again.
#[derive(Debug, PartialEq)]
pub struct RetryAttempts {
    pub attempts: u32,
}

impl RetryAttempts {
    /// No attempt has been made.
    pub fn new() -> (r: Self)
        ensures
            r.attempts == 0,
    {
        RetryAttempts { attempts: 0 }
    }

    /// Forgets the attempts.
    pub fn reset_retry_attempts(&mut self)
        ensures
            final(self).attempts == 0,
    {
        self.attempts = 0;
    }

    /// Counts one more attempt and returns how many there are.
    pub fn increment_retry_attempts(&mut self) -> (r: u32)
        requires
            old(self).attempts < u32::MAX,
        ensures
            final(self).attempts == old(self).attempts + 1,
            r == final(self).attempts,
    {
        self.attempts = self.attempts + 1;
        self.attempts
    }

    /// How many attempts there are.
    pub fn get_retry_attempts(&self) -> (r: u32)
        ensures
            r == self.attempts,
    {
        self.attempts
    }
}

/// A tool of the frontend is answered by the agent only with the error that the
/// frontend has to execute it, and never reaches an extension.
pub proof fn law_frontend_tools_stay(call: ToolCallView, c: DispatchContextView)
    requires
        lookup(c.frontend_tools, call.name) is Some,
    ensures
        !(dispatch_route(call, c) is Extension),
        !(dispatch_route(call, c) is RouterSearch),
{
}

/// A tool that was kept for the frontend is found under its name.
pub proof fn law_frontend_tools_found(
    known: Seq<(Seq<char>, FrontendToolView)>,
    tools: Seq<ToolView>,
    i: int,
)
    requires
        0 <= i < tools.len(),
    ensures
        lookup(with_frontend_tools(known, tools), tools[i].name) is Some,
    decreases tools.len(),
{
    let t = tools.last();
    assoc::lemma_lookup_put(
        with_frontend_tools(known, tools.drop_last()),
        t.name,
        FrontendToolView { name: t.name, tool: t },
        tools[i].name,
    );
    if i < tools.len() - 1 {
        law_frontend_tools_found(known, tools.drop_last(), i);
    }
}

/// The inspectors that every agent has, in the order in which they look at a tool
/// request: security goes first.
pub open spec fn inspectors() -> Seq<Seq<char>> {
    seq!["security"@, "permission"@, "repetition"@]
}

/// The inspectors that every agent has, in the order in which they look at a tool
/// request.
pub fn default_inspectors() -> (r: Vec<String>)
    ensures
        r.deep_view() == inspectors(),
{
    let mut out: Vec<String> = Vec::new();
    base::push(&mut out, text::owned("security"));
    base::push(&mut out, text::owned("permission"));
    base::push(&mut out, text::owned("repetition"));
    assert(out.deep_view() =~= inspectors());
    out
}

} // verus!
