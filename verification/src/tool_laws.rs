//! Where a tool call goes, what is told of tools, and what the tools for extensions do.
use crate::assoc::{self, lookup};
use crate::dispatch::{
    dispatch_route, frontend_added, inspectors, listed_tools, tool_infos, with_frontend_tools,
    AgentToolsView, DispatchContextView, DispatchRouteView, FrontendStateView, FrontendToolView,
};
use crate::extension::ExtensionConfigView;
use crate::extension_manager::{available, parameter_names, Connected};
use crate::extension_manager_extension::{
    client_result, client_route, managed, offered_tools, CallToolResultView, ClientRouteView,
    ToolErrorView,
};
use crate::extension_resources::{
    clients, has_prompt, listed_prompts, listing_plan, prompt_owner, read_answered, read_next,
    read_start, resource_lines, resource_texts, successes, with_resources, PromptView, ReadStepView,
    ResourceListingView, ResourceReadView,
};
use crate::json::JsonView;
use crate::manage_extensions::{
    manage_start, manage_step, removal, ManageActionView, ManageEventView, ManagePhase,
};
use crate::permission_judge::PermissionsView;
use crate::text;
use crate::tool::{ContentView, ErrorDataView, ToolAnnotationsView, ToolCallView, ToolView};
use crate::tool_router_index_manager::{index_change, index_step, IndexChange, IndexStepView};
use vstd::prelude::*;

verus! {

/// An internal error with a message.
pub open spec fn internal_error(message: Seq<char>) -> ErrorDataView {
    ErrorDataView { code: (-32603int) as i32, message }
}

/// An error over the parameters of a call.
pub open spec fn parameter_error(message: Seq<char>) -> ErrorDataView {
    ErrorDataView { code: (-32602int) as i32, message }
}

/// The arguments of a call as an object, which is empty where there are none.
pub open spec fn object_of(arguments: Option<Seq<(Seq<char>, JsonView)>>) -> JsonView {
    JsonView::Object(
        if arguments is Some {
            arguments->0
        } else {
            Seq::empty()
        },
    )
}

/// A name that the agent answers itself.
pub open spec fn own_name(call: ToolCallView, c: DispatchContextView) -> bool {
    ||| call.name == c.names.manage_schedule
    ||| call.name == c.names.final_output
    ||| c.is_sub_recipe
    ||| call.name == c.names.subagent_execute_task
    ||| call.name == c.names.create_dynamic_task
}

/// A call that nobody else answers goes to the extensions as it is, whoever asks.
pub proof fn law_other_calls_go_to_extensions(call: ToolCallView, c: DispatchContextView)
    ensures
        dispatch_route(call, c) is Extension <==> !own_name(call, c) && lookup(
            c.frontend_tools,
            call.name,
        ) is None && call.name != "router__llm_search"@,
        dispatch_route(call, c) is Extension ==> dispatch_route(call, c)
            == DispatchRouteView::Extension(call),
        !own_name(call, c) && lookup(c.frontend_tools, call.name) is None && call.name
            == "router__llm_search"@ ==> dispatch_route(call, c) == DispatchRouteView::RouterSearch(
            object_of(call.arguments)->Object_0,
        ),
        !own_name(call, c) && lookup(c.frontend_tools, call.name) is Some ==> dispatch_route(
            call,
            c,
        ) == DispatchRouteView::Answered(internal_error("Frontend tool execution required"@)),
{
}

/// Each tool of the agent's own gets the call: the scheduler and the maker of tasks its
/// arguments, the final output where a recipe wants one, and a sub-recipe its name and
/// its arguments.
pub proof fn law_own_tools_get_their_calls(call: ToolCallView, c: DispatchContextView)
    requires
        c.names.manage_schedule != c.names.final_output,
        c.names.manage_schedule != c.names.create_dynamic_task,
        c.names.final_output != c.names.create_dynamic_task,
        c.names.subagent_execute_task != c.names.create_dynamic_task,
    ensures
        call.name == c.names.manage_schedule ==> dispatch_route(call, c)
            == DispatchRouteView::Schedule(object_of(call.arguments)),
        call.name == c.names.final_output && c.has_final_output ==> dispatch_route(call, c)
            is FinalOutput,
        call.name == c.names.final_output && !c.has_final_output ==> dispatch_route(call, c)
            == DispatchRouteView::Refused(internal_error("Final output tool not defined"@)),
        call.name == c.names.create_dynamic_task && !c.is_sub_recipe ==> dispatch_route(call, c)
            == DispatchRouteView::CreateTask(object_of(call.arguments)),
        c.is_sub_recipe && call.name != c.names.manage_schedule && call.name
            != c.names.final_output ==> dispatch_route(call, c) == (DispatchRouteView::SubRecipe {
            name: call.name,
            arguments: object_of(call.arguments),
        }),
{
}

/// Tasks run for a provider and a session: all of those that the call names, in their
/// order, in the way it names. Anything that is lacking is told, the first first.
pub proof fn law_tasks_run(call: ToolCallView, c: DispatchContextView, ids: Seq<Seq<char>>)
    requires
        call.name == c.names.subagent_execute_task,
        call.name != c.names.manage_schedule,
        call.name != c.names.final_output,
        !c.is_sub_recipe,
    ensures
        ({
            let r = dispatch_route(call, c);
            let ready = c.has_provider && c.has_session;
            let named = lookup(call.arguments->0, "task_ids"@);
            &&& !c.has_provider ==> r == DispatchRouteView::Refused(
                internal_error("Provider is required"@),
            )
            &&& c.has_provider && !c.has_session ==> r == DispatchRouteView::Refused(
                internal_error("Session is required"@),
            )
            &&& ready && call.arguments is None ==> r == DispatchRouteView::Refused(
                parameter_error("Tool call arguments are required"@),
            )
            &&& ready && call.arguments is Some && named is None ==> r
                == DispatchRouteView::Refused(parameter_error("task_ids parameter is required"@))
            &&& ready && call.arguments is Some && named == Some(
                JsonView::Array(ids.map_values(|s: Seq<char>| JsonView::Text(s))),
            ) ==> r == (DispatchRouteView::RunTasks {
                task_ids: ids,
                execution_mode: lookup(call.arguments->0, "execution_mode"@),
            })
            &&& ready && call.arguments is Some && named is Some && (!(named->0 is Array)
                || exists|i: int|
                0 <= i < named->0->Array_0.len() && !((#[trigger] named->0->Array_0[i])
                    is Text)) ==> r == DispatchRouteView::Refused(
                parameter_error("Invalid task_ids format"@),
            )
        }),
{
    let items = ids.map_values(|s: Seq<char>| JsonView::Text(s));
    assert(items.map_values(|v: JsonView| v->Text_0) =~= ids);
}

/// The last tool of a name that the frontend brought is the one that is kept, whole;
/// the tools of other names stay.
pub proof fn law_frontend_keeps_the_last(
    known: Seq<(Seq<char>, FrontendToolView)>,
    tools: Seq<ToolView>,
    i: int,
    other: Seq<char>,
)
    requires
        0 <= i < tools.len(),
        forall|j: int| i < j < tools.len() ==> (#[trigger] tools[j]).name != tools[i].name,
        forall|j: int| 0 <= j < tools.len() ==> (#[trigger] tools[j]).name != other,
    ensures
        lookup(with_frontend_tools(known, tools), tools[i].name) == Some(
            FrontendToolView { name: tools[i].name, tool: tools[i] },
        ),
        lookup(with_frontend_tools(known, tools), other) == lookup(known, other),
    decreases tools.len(),
{
    let t = tools.last();
    assert(t == tools[tools.len() - 1]);
    let before = tools.drop_last();
    let f = FrontendToolView { name: t.name, tool: t };
    assoc::lemma_lookup_put(with_frontend_tools(known, before), t.name, f, tools[i].name);
    assoc::lemma_lookup_put(with_frontend_tools(known, before), t.name, f, other);
    assert forall|j: int| 0 <= j < before.len() implies (#[trigger] before[j]).name != other by {
        assert(before[j] == tools[j]);
    }
    if i < before.len() {
        assert(before[i] == tools[i]);
        assert forall|j: int| i < j < before.len() implies (#[trigger] before[j]).name
            != before[i].name by {
            assert(before[j] == tools[j]);
        }
        law_frontend_keeps_the_last(known, before, i, other);
    } else {
        lemma_frontend_others(known, before, other);
    }
}

proof fn lemma_frontend_others(
    known: Seq<(Seq<char>, FrontendToolView)>,
    tools: Seq<ToolView>,
    other: Seq<char>,
)
    requires
        forall|j: int| 0 <= j < tools.len() ==> (#[trigger] tools[j]).name != other,
    ensures
        lookup(with_frontend_tools(known, tools), other) == lookup(known, other),
    decreases tools.len(),
{
    if tools.len() > 0 {
        let before = tools.drop_last();
        let t = tools.last();
        assert(t == tools[tools.len() - 1]);
        assert forall|j: int| 0 <= j < before.len() implies (#[trigger] before[j]).name
            != other by {
            assert(before[j] == tools[j]);
        }
        lemma_frontend_others(known, before, other);
        assoc::lemma_lookup_put(
            with_frontend_tools(known, before),
            t.name,
            FrontendToolView { name: t.name, tool: t },
            other,
        );
    }
}

/// Only an extension of the frontend changes what the frontend has: its tools are added
/// and its instructions are the ones that hold, or fixed ones where it gives none.
pub proof fn law_frontend_extension(
    s: FrontendStateView,
    config: ExtensionConfigView,
)
    ensures
        match config {
            ExtensionConfigView::Frontend { tools, instructions, .. } => {
                let t = frontend_added(s, config);
                &&& t.tools == with_frontend_tools(s.tools, tools)
                &&& instructions is Some ==> t.instructions == instructions
                &&& instructions is None ==> t.instructions == Some(
                    "The following tools are provided directly by the frontend and will be executed by the frontend when called."@,
                )
            },
            _ => frontend_added(s, config) == s,
        },
{
}

/// The tools of the extensions come first, then the agent's own: those of the platform
/// with all tools and where the platform is asked for, the others with all tools only.
pub proof fn law_listed_tools(
    prefixed: Seq<ToolView>,
    extension_name: Option<Seq<char>>,
    own: AgentToolsView,
)
    ensures
        extension_name is Some && extension_name->0 != "platform"@ ==> listed_tools(
            prefixed,
            extension_name,
            own,
        ) == prefixed,
        extension_name is Some && extension_name->0 == "platform"@ ==> listed_tools(
            prefixed,
            extension_name,
            own,
        ) == prefixed + seq![own.manage_schedule, own.create_dynamic_task],
        extension_name is None && own.final_output is None ==> listed_tools(
            prefixed,
            extension_name,
            own,
        ) == prefixed + seq![own.manage_schedule, own.create_dynamic_task] + own.sub_recipes
            + seq![own.subagent_execute_task],
        extension_name is None && own.final_output is Some ==> listed_tools(
            prefixed,
            extension_name,
            own,
        ) == prefixed + seq![own.manage_schedule, own.create_dynamic_task] + own.sub_recipes
            + seq![own.final_output->0, own.subagent_execute_task],
{
    let r = listed_tools(prefixed, extension_name, own);
    if extension_name is Some {
        if extension_name->0 == "platform"@ {
            assert(r =~= prefixed + seq![own.manage_schedule, own.create_dynamic_task]);
        } else {
            assert(r =~= prefixed);
        }
    } else if own.final_output is None {
        assert(r =~= prefixed + seq![own.manage_schedule, own.create_dynamic_task]
            + own.sub_recipes + seq![own.subagent_execute_task]);
    } else {
        assert(r =~= prefixed + seq![own.manage_schedule, own.create_dynamic_task]
            + own.sub_recipes + seq![own.final_output->0, own.subagent_execute_task]);
    }
}

/// What is told of tools: one entry for each, in its place, with its own name, its
/// description or none, the names of its parameters, and the permission that the user
/// gave it where permissions are known.
pub proof fn law_tools_are_described(tools: Seq<ToolView>, p: Option<PermissionsView>, i: int)
    requires
        0 <= i < tools.len(),
    ensures
        tool_infos(tools, p).len() == tools.len(),
        ({
            let t = tools[i];
            let info = tool_infos(tools, p)[i];
            &&& info.name == t.name
            &&& t.description is Some ==> info.description == t.description->0
            &&& t.description is None ==> info.description.len() == 0
            &&& info.parameters == parameter_names(t.input_schema)
            &&& p is Some ==> info.permission == lookup(p->0.user, t.name)
            &&& p is None ==> info.permission is None
        }),
{
}

/// Security looks at a request before permissions do, and repetition comes last.
pub proof fn law_security_goes_first()
    ensures
        inspectors().len() == 3,
        inspectors()[0] == seq!['s', 'e', 'c', 'u', 'r', 'i', 't', 'y'],
        inspectors()[1] == seq!['p', 'e', 'r', 'm', 'i', 's', 's', 'i', 'o', 'n'],
        inspectors()[2] == seq!['r', 'e', 'p', 'e', 't', 'i', 't', 'i', 'o', 'n'],
{
    reveal_strlit("security");
    reveal_strlit("permission");
    reveal_strlit("repetition");
    assert(inspectors()[0] =~= seq!['s', 'e', 'c', 'u', 'r', 'i', 't', 'y']);
    assert(inspectors()[1] =~= seq!['p', 'e', 'r', 'm', 'i', 's', 's', 'i', 'o', 'n']);
    assert(inspectors()[2] =~= seq!['r', 'e', 'p', 'e', 't', 'i', 't', 'i', 'o', 'n']);
}

/// The outcome of managing an extension.
pub open spec fn ends(a: ManageActionView, r: Result<Seq<ContentView>, ErrorDataView>) -> bool {
    a == ManageActionView::Done(r)
}

/// To disable an extension: its tools leave the index first, where there is one, then
/// the extension is taken out by its name, and that is told. What fails on the way ends
/// it with the cause.
pub proof fn law_disabling(name: Seq<char>, e: Seq<char>)
    ensures
        ({
            let a = manage_start("disable"@, name, true);
            let b = manage_step(a.0, ManageEventView::Router(true));
            let c = manage_step(b.0, ManageEventView::IndexUpdated(None));
            let d = manage_step(c.0, ManageEventView::Removed(None));
            &&& a.1 == ManageActionView::CheckRouter
            &&& b.1 == (ManageActionView::UpdateIndex {
                extension_name: name,
                change: IndexChange::Remove,
            })
            &&& ends(
                manage_step(b.0, ManageEventView::IndexUpdated(Some(e))).1,
                Err(internal_error("Failed to update LLM index: "@ + e)),
            )
            &&& c.1 == ManageActionView::RemoveExtension(name)
            &&& manage_step(a.0, ManageEventView::Router(false)) == c
            &&& ends(
                d.1,
                Ok(
                    seq![
                        ContentView::Text(
                            "The extension '"@ + name + "' has been disabled successfully"@,
                        ),
                    ],
                ),
            )
            &&& ends(
                manage_step(c.0, ManageEventView::Removed(Some(e))).1,
                Err(internal_error(e)),
            )
        }),
{
}

/// To enable an extension: its configuration is looked up by its name and added as it
/// is, its tools join the index, where there is one, and that is told. What fails on the
/// way ends it with the cause.
pub proof fn law_enabling(
    action: Seq<char>,
    name: Seq<char>,
    config: ExtensionConfigView,
    e: Seq<char>,
)
    requires
        action != "disable"@,
    ensures
        ({
            let a = manage_start(action, name, true);
            let b = manage_step(a.0, ManageEventView::Router(true));
            let c = manage_step(b.0, ManageEventView::IndexUpdated(None));
            let d = manage_step(c.0, ManageEventView::Config(Ok(Some(config))));
            let f = manage_step(d.0, ManageEventView::Added(None));
            let g = manage_step(f.0, ManageEventView::Router(true));
            let done = Ok::<Seq<ContentView>, ErrorDataView>(
                seq![
                    ContentView::Text(
                        "The extension '"@ + name + "' has been installed successfully"@,
                    ),
                ],
            );
            &&& a.1 == ManageActionView::CheckRouter
            &&& b.1 == (ManageActionView::UpdateIndex {
                extension_name: name,
                change: IndexChange::Add,
            })
            &&& c.1 == ManageActionView::FindConfig(name)
            &&& manage_step(a.0, ManageEventView::Router(false)) == c
            &&& d.1 == ManageActionView::AddExtension(config)
            &&& ends(
                manage_step(c.0, ManageEventView::Config(Ok(None))).1,
                Err(
                    ErrorDataView {
                        code: (-32002int) as i32,
                        message: "Extension '"@ + name
                            + "' not found. Please check the extension name and try again."@,
                    },
                ),
            )
            &&& ends(
                manage_step(c.0, ManageEventView::Config(Err(e))).1,
                Err(internal_error("Failed to get extension config: "@ + e)),
            )
            &&& f.1 == ManageActionView::CheckRouter
            &&& ends(
                manage_step(d.0, ManageEventView::Added(Some(e))).1,
                Err(internal_error(e)),
            )
            &&& g.1 == (ManageActionView::UpdateIndex {
                extension_name: name,
                change: IndexChange::Add,
            })
            &&& ends(manage_step(f.0, ManageEventView::Router(false)).1, done)
            &&& ends(manage_step(g.0, ManageEventView::IndexUpdated(None)).1, done)
            &&& ends(
                manage_step(g.0, ManageEventView::IndexUpdated(Some(e))).1,
                Err(internal_error("Failed to update LLM index: "@ + e)),
            )
        }),
{
}

/// Without the extension manager nothing is enabled or disabled.
pub proof fn law_managing_needs_the_manager(action: Seq<char>, name: Seq<char>)
    ensures
        ends(
            manage_start(action, name, false).1,
            Err(internal_error("Extension manager is no longer available"@)),
        ),
        manage_start(action, name, false).0.phase == ManagePhase::Closed,
{
}

/// An extension is taken out last, after its tools have left the index, where there is
/// one.
pub proof fn law_removal(name: Seq<char>)
    ensures
        removal(false, name) == seq![ManageActionView::RemoveExtension(name)],
        removal(true, name) == seq![
            ManageActionView::UpdateIndex { extension_name: name, change: IndexChange::Remove },
            ManageActionView::RemoveExtension(name),
        ],
{
}

/// Two words change the index. Taking in is for all tools at once, where there are any,
/// taking out is by the names of the tools.
pub proof fn law_index_follows_the_tools(action: Seq<char>, tools: Seq<ToolView>)
    ensures
        index_change(action) == Some(IndexChange::Add) <==> action == seq!['a', 'd', 'd'],
        index_change(action) == Some(IndexChange::Remove) <==> action == seq![
            'r',
            'e',
            'm',
            'o',
            'v',
            'e',
        ],
        tools.len() > 0 ==> index_step(IndexChange::Add, tools) == IndexStepView::IndexAll(tools),
        tools.len() == 0 ==> index_step(IndexChange::Add, tools) is Nothing,
        index_step(IndexChange::Remove, tools) == IndexStepView::RemoveEach(
            Seq::new(tools.len(), |i: int| tools[i].name),
        ),
{
    reveal_strlit("add");
    reveal_strlit("remove");
    assert("add"@ =~= seq!['a', 'd', 'd']);
    assert("remove"@ =~= seq!['r', 'e', 'm', 'o', 'v', 'e']);
    assert("add"@.len() != "remove"@.len());
    assert(tools.map_values(|t: ToolView| t.name) =~= Seq::new(
        tools.len(),
        |i: int| tools[i].name,
    ));
}

/// A call of the managing tool is read as it is: the action and the extension are the
/// texts under these names. The first thing that is lacking or wrong is told.
pub proof fn law_managing_call_is_read(
    args: Seq<(Seq<char>, JsonView)>,
    action: Seq<char>,
    name: Seq<char>,
)
    ensures
        lookup(args, "action"@) == Some(JsonView::Text(action)) && lookup(
            args,
            "extension_name"@,
        ) == Some(JsonView::Text(name)) && (action == "enable"@ || action == "disable"@)
            ==> managed(Some(args)) == Ok::<_, ToolErrorView>((action, name)),
        lookup(args, "action"@) == Some(JsonView::Text(action)) && lookup(
            args,
            "extension_name"@,
        ) == Some(JsonView::Text(name)) && action != "enable"@ && action != "disable"@ ==> managed(
            Some(args),
        ) == Err::<(Seq<char>, Seq<char>), _>(ToolErrorView::InvalidAction { action }),
        !(lookup(args, "action"@) matches Some(JsonView::Text(_))) ==> managed(Some(args)) == Err::<
            (Seq<char>, Seq<char>),
            _,
        >(ToolErrorView::MissingParameter { param_name: "action"@ }),
        lookup(args, "action"@) == Some(JsonView::Text(action)) && !(lookup(
            args,
            "extension_name"@,
        ) matches Some(JsonView::Text(_))) ==> managed(Some(args)) == Err::<
            (Seq<char>, Seq<char>),
            _,
        >(ToolErrorView::MissingParameter { param_name: "extension_name"@ }),
        managed(None) == Err::<(Seq<char>, Seq<char>), _>(
            ToolErrorView::MissingParameter { param_name: "arguments"@ },
        ),
{
}

/// Each tool of the extension leads to what it is named after, with the arguments of the
/// call; only the managing one does without the extension manager at first.
pub proof fn law_tools_lead_where_they_say(
    name: Seq<char>,
    arguments: Option<Seq<(Seq<char>, JsonView)>>,
)
    ensures
        client_route("search_available_extensions"@, arguments, true) is Search,
        client_route("list_resources"@, arguments, true) == ClientRouteView::ListResources(
            object_of(arguments),
        ),
        client_route("read_resource"@, arguments, true) == ClientRouteView::ReadResource(
            object_of(arguments),
        ),
        managed(arguments) matches Ok((action, extension_name)) ==> forall|available: bool|
            #[trigger] client_route("manage_extensions"@, arguments, available)
                == (ClientRouteView::Manage { action, extension_name }),
        managed(arguments) matches Err(e) ==> forall|available: bool|
            #[trigger] client_route("manage_extensions"@, arguments, available)
                == ClientRouteView::Refused(ToolErrorView::OperationFailed { message: e.text() }),
        name == "search_available_extensions"@ || name == "list_resources"@ || name
            == "read_resource"@ ==> client_route(name, arguments, false)
            == ClientRouteView::Refused(
            ToolErrorView::OperationFailed { message: "Extension manager not available"@ },
        ),
        name != "search_available_extensions"@ && name != "list_resources"@ && name
            != "read_resource"@ && name != "manage_extensions"@ ==> forall|available: bool|
            #[trigger] client_route(name, arguments, available) == ClientRouteView::Refused(
                ToolErrorView::UnknownTool { tool_name: name },
            ),
{
    reveal_strlit("search_available_extensions");
    reveal_strlit("list_resources");
    reveal_strlit("read_resource");
    reveal_strlit("manage_extensions");
    assert("search_available_extensions"@[0] == 's');
    assert("list_resources"@[0] == 'l');
    assert("read_resource"@[0] == 'r');
    assert("manage_extensions"@[0] == 'm');
}

/// A call gives the content of what it led to, or one text that tells what failed, and
/// where.
pub proof fn law_result_of_a_call(
    route: ClientRouteView,
    content: Seq<ContentView>,
    e: ErrorDataView,
)
    ensures
        !(route is Refused) ==> client_result(route, Ok(content)) == (CallToolResultView {
            content,
            is_error: Some(false),
        }),
        route is Search ==> client_result(route, Err(e)).content == seq![
            ContentView::Text(
                "Extension operation failed: "@ + ("Extension operation failed: "@ + (
                "Failed to search available extensions: "@ + e.message)),
            ),
        ],
        route is ListResources ==> client_result(route, Err(e)).content == seq![
            ContentView::Text(
                "Extension operation failed: "@ + ("Extension operation failed: "@ + (
                "Failed to list resources: "@ + e.message)),
            ),
        ],
        route is ReadResource ==> client_result(route, Err(e)).content == seq![
            ContentView::Text(
                "Extension operation failed: "@ + ("Extension operation failed: "@ + (
                "Failed to read resource: "@ + e.message)),
            ),
        ],
        route is Manage ==> client_result(route, Err(e)).content == seq![
            ContentView::Text(
                "Extension operation failed: "@ + ("Extension operation failed: "@ + e.message),
            ),
        ],
        route is Refused ==> client_result(route, Ok(content)).content == seq![
            ContentView::Text(route->Refused_0.text()),
        ],
{
    assert(Seq::<char>::empty() + e.message =~= e.message);
}

/// What the errors of the tools say names what is wrong.
pub proof fn law_errors_name_what_is_wrong(x: Seq<char>)
    ensures
        (ToolErrorView::UnknownTool { tool_name: x }).text() == "Unknown tool: "@ + x,
        ToolErrorView::ManagerUnavailable.text() == "Extension manager not available"@,
        (ToolErrorView::MissingParameter { param_name: x }).text()
            == "Missing required parameter: "@ + x,
        (ToolErrorView::InvalidAction { action: x }).text() == "Invalid action: "@ + x
            + ". Must be 'enable' or 'disable'"@,
        (ToolErrorView::OperationFailed { message: x }).text() == "Extension operation failed: "@
            + x,
{
}

/// The tools for resources come only with resources; each tool says by its hints
/// whether it only reads, which all but the managing one do.
pub proof fn law_offered_tools(resources: bool, i: int)
    requires
        0 <= i < offered_tools(resources).len(),
    ensures
        offered_tools(resources).len() == if resources {
            4int
        } else {
            2int
        },
        offered_tools(resources)[0].name == "search_available_extensions"@,
        offered_tools(resources)[1].name == "manage_extensions"@,
        resources ==> offered_tools(resources)[2].name == "list_resources"@
            && offered_tools(resources)[3].name == "read_resource"@,
        offered_tools(resources)[i].annotations is Some,
        offered_tools(resources)[i].annotations->0.read_only_hint == Some(i != 1),
        offered_tools(resources)[i].annotations->0.destructive_hint == Some(false),
        offered_tools(resources)[i].description is Some,
{
}

/// Which client is asked for a resource: that of the extension that is named, or one
/// after the other; and what the resource is. A wrong name is told with the right ones.
pub proof fn law_reading_starts(m: Connected, params: JsonView, uri: Seq<char>, name: Seq<char>)
    requires
        params.field("uri"@) == Some(JsonView::Text(uri)),
    ensures
        params.text_field("extension_name"@) == Some(name) && lookup(m, name) is Some
            ==> read_start(m, params) == Ok::<_, ErrorDataView>(
            ResourceReadView {
                uri,
                single: true,
                targets: seq![lookup(m, name)->0.client],
                next: 0,
                available: available(m),
            },
        ),
        params.text_field("extension_name"@) == Some(name) && lookup(m, name) is None
            ==> read_start(m, params) == Err::<ResourceReadView, _>(
            parameter_error(
                "Extension '"@ + name + "' not found. Here are the available extensions: "@
                    + text::joined(Seq::new(m.len(), |i: int| m[i].0), ", "@),
            ),
        ),
        params.text_field("extension_name"@) is None ==> read_start(m, params) == Ok::<
            _,
            ErrorDataView,
        >(
            ResourceReadView {
                uri,
                single: false,
                targets: Seq::new(m.len(), |i: int| m[i].1.client),
                next: 0,
                available: text::joined(Seq::new(m.len(), |i: int| m[i].0), ", "@),
            },
        ),
{
    assert(assoc::keys(m) =~= Seq::new(m.len(), |i: int| m[i].0));
    assert(clients(m) =~= Seq::new(m.len(), |i: int| m[i].1.client));
}

/// The first client is asked first; a resource that no client has is told to be
/// missing, with its address.
pub proof fn law_reading_goes_on(s: ResourceReadView, contents: Seq<Option<Seq<char>>>)
    ensures
        s.next < s.targets.len() ==> read_next(s) == ReadStepView::Read(s.targets[s.next as int]),
        s.next >= s.targets.len() ==> read_next(s) == ReadStepView::Done(
            Err(
                ErrorDataView {
                    code: (-32002int) as i32,
                    message: "Resource with uri '"@ + s.uri
                        + "' not found. Here are the available extensions: "@ + s.available,
                },
            ),
        ),
        read_answered(s, Some(contents)) == (
            s,
            ReadStepView::Done(Ok(resource_texts(s.uri, contents))),
        ),
        s.single ==> read_answered(s, None) == (
            s,
            ReadStepView::Done(
                Err(internal_error("Could not read resource with uri: "@ + s.uri)),
            ),
        ),
{
}

/// The texts of a resource are those of its parts; each text comes behind the address.
pub proof fn law_resource_texts(
    uri: Seq<char>,
    x: Seq<Option<Seq<char>>>,
    y: Seq<Option<Seq<char>>>,
    t: Seq<char>,
)
    ensures
        resource_texts(uri, x + y) == resource_texts(uri, x) + resource_texts(uri, y),
        resource_texts(uri, seq![Some(t)]) == seq![ContentView::Text(uri + "\n\n"@ + t)],
        resource_texts(uri, seq![None]).len() == 0,
    decreases y.len(),
{
    if y.len() == 0 {
        assert(x + y =~= x);
    } else {
        assert((x + y).drop_last() =~= x + y.drop_last());
        law_resource_texts(uri, x, y.drop_last(), t);
    }
    assert(resource_texts(uri, x + y) =~= resource_texts(uri, x) + resource_texts(uri, y));
    let none = Seq::<Option<Seq<char>>>::empty();
    assert(resource_texts(uri, none) =~= Seq::empty());
    assert(seq![Some(t)].drop_last() =~= none);
    assert(seq![None::<Seq<char>>].drop_last() =~= none);
    assert(resource_texts(uri, seq![Some(t)]) =~= seq![ContentView::Text(uri + "\n\n"@ + t)]);
}

/// The extensions with resources are those of the parts, each with its key and client.
pub proof fn law_extensions_with_resources(x: Connected, y: Connected)
    ensures
        with_resources(x + y) == with_resources(x) + with_resources(y),
        y.len() == 1 && y[0].1.server_info is Some && y[0].1.server_info->0.has_resources
            ==> with_resources(y) == seq![(y[0].0, y[0].1.client)],
        y.len() == 1 && (y[0].1.server_info is None || !y[0].1.server_info->0.has_resources)
            ==> with_resources(y).len() == 0,
    decreases y.len(),
{
    if y.len() == 0 {
        assert(x + y =~= x);
    } else {
        assert((x + y).drop_last() =~= x + y.drop_last());
        law_extensions_with_resources(x, y.drop_last());
    }
    assert(with_resources(x + y) =~= with_resources(x) + with_resources(y));
    if y.len() == 1 {
        assert(y.drop_last() =~= Seq::empty());
        assert(y.last() == y[0]);
        assert(with_resources(Seq::empty()) =~= Seq::empty());
        if y[0].1.server_info is Some && y[0].1.server_info->0.has_resources {
            assert(with_resources(y) =~= seq![(y[0].0, y[0].1.client)]);
        }
    }
}

/// Without a name all extensions with resources are listed; a name that is not connected
/// is told.
pub proof fn law_listing_plan(m: Connected, params: JsonView, name: Seq<char>)
    ensures
        params.text_field("extension_name"@) is None ==> listing_plan(m, params) == Ok::<
            _,
            ErrorDataView,
        >(ResourceListingView { single: false, targets: with_resources(m) }),
        params.text_field("extension_name"@) == Some(name) && lookup(m, name) is None
            ==> listing_plan(m, params) == Err::<ResourceListingView, _>(
            parameter_error("Extension "@ + name + " is not valid"@),
        ),
{
}

/// Each resource has one line, with the extension, its name and its address, in order.
pub proof fn law_resource_lines(name: Seq<char>, resources: Seq<(Seq<char>, Seq<char>)>)
    ensures
        resource_lines(name, resources) == text::joined(
            Seq::new(
                resources.len(),
                |i: int|
                    name + " - "@ + resources[i].0 + ", uri: ("@ + resources[i].1 + ")"@,
            ),
            "\n"@,
        ),
{
    assert(resources.map_values(
        |r: (Seq<char>, Seq<char>)| name + " - "@ + r.0 + ", uri: ("@ + r.1 + ")"@,
    ) =~= Seq::new(
        resources.len(),
        |i: int| name + " - "@ + resources[i].0 + ", uri: ("@ + resources[i].1 + ")"@,
    ));
}

/// What several listings hold together is what the successful ones hold, in order.
pub proof fn law_successes(
    x: Seq<Result<Seq<ContentView>, ErrorDataView>>,
    y: Seq<Result<Seq<ContentView>, ErrorDataView>>,
    c: Seq<ContentView>,
    e: ErrorDataView,
)
    ensures
        successes(x + y) == successes(x) + successes(y),
        successes(seq![Ok(c)]) == c,
        successes(seq![Err(e)]).len() == 0,
    decreases y.len(),
{
    if y.len() == 0 {
        assert(x + y =~= x);
    } else {
        assert((x + y).drop_last() =~= x + y.drop_last());
        law_successes(x, y.drop_last(), c, e);
    }
    assert(successes(x + y) =~= successes(x) + successes(y));
    let none = Seq::<Result<Seq<ContentView>, ErrorDataView>>::empty();
    let ok: Seq<Result<Seq<ContentView>, ErrorDataView>> = seq![Ok(c)];
    let bad: Seq<Result<Seq<ContentView>, ErrorDataView>> = seq![Err(e)];
    assert(ok.drop_last() =~= none);
    assert(bad.drop_last() =~= none);
    assert(successes(none) =~= Seq::empty());
    assert(successes(ok) =~= c);
}

/// The prompts of an extension are those that it listed last; an extension that could
/// not list any has none.
pub proof fn law_listed_prompts(list: Seq<(Seq<char>, Option<Seq<PromptView>>)>, i: int)
    requires
        0 <= i < list.len(),
        list[i].1 is Some,
        forall|j: int|
            i < j < list.len() ==> (#[trigger] list[j]).0 != list[i].0 || list[j].1 is None,
    ensures
        lookup(listed_prompts(list), list[i].0) == list[i].1,
    decreases list.len(),
{
    let before = list.drop_last();
    let last = list.last();
    assert(last == list[list.len() - 1]);
    if last.1 is Some {
        assoc::lemma_lookup_put(listed_prompts(before), last.0, last.1->0, list[i].0);
    }
    if i < before.len() {
        assert(before[i] == list[i]);
        assert forall|j: int| i < j < before.len() implies (#[trigger] before[j]).0 != before[i].0
            || before[j].1 is None by {
            assert(before[j] == list[j]);
        }
        law_listed_prompts(before, i);
    }
}

/// A prompt belongs to the first extension that has one of its name.
pub proof fn law_prompt_owner(prompts: Seq<(Seq<char>, Seq<PromptView>)>, name: Seq<char>, i: int)
    requires
        0 <= i <= prompts.len(),
        forall|j: int| 0 <= j < i ==> !has_prompt((#[trigger] prompts[j]).1, name),
        i < prompts.len() ==> exists|k: int|
            0 <= k < prompts[i].1.len() && (#[trigger] prompts[i].1[k]).name == name,
    ensures
        i < prompts.len() ==> prompt_owner(prompts, name) == Some(prompts[i].0),
        i == prompts.len() ==> prompt_owner(prompts, name) is None,
    decreases prompts.len(),
{
    if i > 0 {
        let rest = prompts.drop_first();
        assert(!has_prompt(prompts[0].1, name));
        assert forall|j: int| 0 <= j < i - 1 implies !has_prompt((#[trigger] rest[j]).1, name) by {
            assert(rest[j] == prompts[j + 1]);
        }
        if i < prompts.len() {
            assert(rest[i - 1] == prompts[i]);
        }
        law_prompt_owner(rest, name, i - 1);
    } else if prompts.len() > 0 {
        assert(has_prompt(prompts[0].1, name));
    }
}

/// The parameter of a schema that has a name.
pub open spec fn parameter(
    schema: Seq<(Seq<char>, JsonView)>,
    name: Seq<char>,
) -> Option<JsonView> {
    match lookup(schema, "properties"@) {
        Some(properties) => properties.field(name),
        None => None,
    }
}

/// A parameter of a schema that takes a text.
pub open spec fn takes_text(schema: Seq<(Seq<char>, JsonView)>, name: Seq<char>) -> bool {
    parameter(schema, name) matches Some(p) && p.field("type"@) == Some(JsonView::Text("string"@))
}

/// A parameter that a schema requires.
pub open spec fn asks_for(schema: Seq<(Seq<char>, JsonView)>, name: Seq<char>) -> bool {
    lookup(schema, "required"@) matches Some(JsonView::Array(names)) && names.contains(
        JsonView::Text(name),
    )
}

proof fn lemma_names()
    ensures
        "type"@ != "required"@,
        "type"@ != "properties"@,
        "required"@ != "properties"@,
        "action"@ != "extension_name"@,
        "uri"@ != "extension_name"@,
        "query"@ != "extension_name"@,
        "type"@ != "description"@,
{
    reveal_strlit("type");
    reveal_strlit("required");
    reveal_strlit("properties");
    reveal_strlit("action");
    reveal_strlit("extension_name");
    reveal_strlit("uri");
    reveal_strlit("query");
    reveal_strlit("description");
    assert("type"@.len() == 4);
    assert("required"@.len() == 8);
    assert("properties"@.len() == 10);
    assert("action"@.len() == 6);
    assert("extension_name"@.len() == 14);
    assert("uri"@.len() == 3);
    assert("query"@.len() == 5);
    assert("description"@.len() == 11);
}

/// The tools ask for what their calls are read for: to manage an extension takes an action
/// and a name, to read a resource takes its address, and the name of an extension is
/// otherwise optional.
pub proof fn law_tools_ask_for_what_is_read()
    ensures
        ({
            let manage = offered_tools(true)[1].input_schema;
            let list = offered_tools(true)[2].input_schema;
            let read = offered_tools(true)[3].input_schema;
            &&& takes_text(manage, "action"@) && asks_for(manage, "action"@)
            &&& takes_text(manage, "extension_name"@) && asks_for(manage, "extension_name"@)
            &&& takes_text(list, "extension_name"@) && lookup(list, "required"@) is None
            &&& takes_text(read, "uri"@) && asks_for(read, "uri"@)
            &&& takes_text(read, "extension_name"@) && !asks_for(read, "extension_name"@)
        }),
{
    lemma_names();
    let manage = offered_tools(true)[1].input_schema;
    assoc::lemma_lookup_at(manage, "required"@, 1);
    assoc::lemma_lookup_at(manage, "properties"@, 2);
    let p = manage[2].1->Object_0;
    assoc::lemma_lookup_at(p, "action"@, 0);
    assoc::lemma_lookup_at(p, "extension_name"@, 1);
    assoc::lemma_lookup_at(p[0].1->Object_0, "type"@, 0);
    assoc::lemma_lookup_at(p[1].1->Object_0, "type"@, 0);
    let r = manage[1].1->Array_0;
    assert(r[0] == JsonView::Text("action"@));
    assert(r[1] == JsonView::Text("extension_name"@));
    let list = offered_tools(true)[2].input_schema;
    assoc::lemma_lookup_at(list, "properties"@, 1);
    assoc::lemma_lookup_is_some(list, "required"@);
    let q = list[1].1->Object_0;
    assoc::lemma_lookup_at(q, "extension_name"@, 0);
    assoc::lemma_lookup_at(q[0].1->Object_0, "type"@, 0);
    let read = offered_tools(true)[3].input_schema;
    assoc::lemma_lookup_at(read, "required"@, 1);
    assoc::lemma_lookup_at(read, "properties"@, 2);
    let u = read[2].1->Object_0;
    assoc::lemma_lookup_at(u, "uri"@, 0);
    assoc::lemma_lookup_at(u, "extension_name"@, 1);
    assoc::lemma_lookup_at(u[0].1->Object_0, "type"@, 0);
    assoc::lemma_lookup_at(u[1].1->Object_0, "type"@, 0);
    let n = read[1].1->Array_0;
    assert(n[0] == JsonView::Text("uri"@));
    assert(n.len() == 1);
}

/// A search for tools takes what is looked for and the extension to look in, and needs
/// both; it only reads.
pub proof fn law_search_takes_a_query()
    ensures
        ({
            let t = crate::router_tools::search_tool();
            &&& t.name == "router__llm_search"@
            &&& takes_text(t.input_schema, "query"@) && asks_for(t.input_schema, "query"@)
            &&& takes_text(t.input_schema, "extension_name"@) && asks_for(
                t.input_schema,
                "extension_name"@,
            )
            &&& t.annotations is Some && t.annotations->0.read_only_hint == Some(true)
        }),
{
    lemma_names();
    let s = crate::router_tools::search_tool().input_schema;
    assoc::lemma_lookup_at(s, "required"@, 1);
    assoc::lemma_lookup_at(s, "properties"@, 2);
    let p = s[2].1->Object_0;
    assoc::lemma_lookup_at(p, "extension_name"@, 0);
    assoc::lemma_lookup_at(p, "query"@, 1);
    assoc::lemma_lookup_at(p[0].1->Object_0, "type"@, 0);
    assoc::lemma_lookup_at(p[1].1->Object_0, "type"@, 0);
    let r = s[1].1->Array_0;
    assert(r[0] == JsonView::Text("query"@));
    assert(r[1] == JsonView::Text("extension_name"@));
}

/// A tool of the agent's own tells what it is named, described and called, and by its
/// hints whether it only reads; it neither destroys nor reaches out.
pub proof fn law_described_tool(
    name: Seq<char>,
    description: Seq<char>,
    schema: Seq<(Seq<char>, JsonView)>,
    title: Seq<char>,
    read_only: bool,
)
    ensures
        ToolView::described(name, description, schema, title, read_only) == (ToolView {
            name,
            title: None,
            description: Some(description),
            input_schema: schema,
            output_schema: None,
            annotations: Some(
                ToolAnnotationsView {
                    title: Some(title),
                    read_only_hint: Some(read_only),
                    destructive_hint: Some(false),
                    idempotent_hint: Some(false),
                    open_world_hint: Some(false),
                },
            ),
            icons: None,
        }),
{
}

} // verus!
