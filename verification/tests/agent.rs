use goose_core::add_extension::{AddAction, AddEvent, AddExtension};
use goose_core::base::Duplicate;
use goose_core::config_extensions::{
    get_all_extensions, get_extension_by_name, get_extensions_map, ExtensionEntry, ExtensionsMap,
};
use goose_core::dispatch::{
    default_inspectors, describe_tools, dispatch_tool_call, extension_error, indexing_failed, list_tools, texts_only,
    AgentTools, DispatchContext, DispatchRoute, FrontendState, RetryAttempts, ToolNames,
};
use goose_core::extension::{
    ExtensionConfig, ExtensionError, PermissionLevel, PlatformExtensionDef,
};
use goose_core::extension_manager::{
    call_outcome, collect_tools, normalize, ExtensionManager, ToolListing,
};
use goose_core::extension_manager_extension::{
    call_tool, describe_server, finish_call, get_tools, handle_manage_extensions, CallToolResult,
    ClientRoute,
    ExtensionManagerToolError, EXTENSION_NAME, LIST_RESOURCES_TOOL_NAME,
    MANAGE_EXTENSIONS_TOOL_NAME, READ_RESOURCE_TOOL_NAME, SEARCH_AVAILABLE_EXTENSIONS_TOOL_NAME,
};
use goose_core::json::{parse, Json};
use goose_core::manage_extensions::{
    removal_actions, ManageAction, ManageEvent, ManageExtension,
};
use goose_core::message::{Message, MessageContent, Role};
use goose_core::permission_judge::{
    check_tool_permissions, PermissionCheckResult, PermissionManager,
};
use goose_core::reply::{
    determine_goose_mode, open_reply, resolve_max_turns, should_retry, sync_session, AgentEvent,
    FinalOutput, ReplyAction, ReplyEvent, ReplyLoop, ReplyOpening, ReplyPhase, ReplyTexts,
    RetryResult, SessionSync, StreamItem, ToolCategorizeResult, ToolStreamItem,
};
use goose_core::router_tools::{llm_search_tool, llm_search_tool_prompt, ROUTER_LLM_SEARCH_TOOL_NAME};
use goose_core::tool::{
    Content, ErrorData, Tool, ToolCall, ToolRequest, ToolResult, INTERNAL_ERROR, INVALID_PARAMS,
};
use goose_core::tool_router_index_manager::{IndexChange, IndexStep, ToolRouterIndexManager};
use std::collections::VecDeque;

fn s(t: &str) -> String {
    t.to_string()
}

fn object(t: &str) -> Vec<(String, Json)> {
    match parse(t) {
        Some(Json::Object(fields)) => fields,
        _ => panic!("object expected"),
    }
}

fn tool(name: &str) -> Tool {
    Tool {
        name: s(name),
        title: None,
        description: Some(s("does things. many things")),
        input_schema: object(r#"{"properties": {"p": {}}}"#),
        output_schema: None,
        annotations: None,
        icons: None,
    }
}

fn texts() -> ReplyTexts {
    ReplyTexts {
        declined: s("declined"),
        chat_skipped: s("skipped"),
        final_output_continuation: s("continue"),
    }
}

fn reply(mode: &str, max_turns: u32) -> ReplyLoop {
    ReplyLoop::new(false, s(mode), max_turns, texts(), vec![Message::user_text(1, s("Hello"))])
}

fn turn() -> ReplyEvent {
    ReplyEvent::TurnChecked { cancelled: false, final_output: FinalOutput::NoTool }
}

fn item(m: Message) -> ReplyEvent {
    ReplyEvent::StreamItem {
        cancelled: false,
        item: StreamItem::Reply { lead_worker: None, usage_model: None, response: Some(m) },
    }
}

fn request(id: &str, name: &str) -> ToolRequest {
    ToolRequest { id: s(id), tool_call: Ok(ToolCall { name: s(name), arguments: None }) }
}

fn yielded(a: &[ReplyAction]) -> Vec<String> {
    a.iter()
        .filter_map(|x| match x {
            ReplyAction::Yield(AgentEvent::Message(m)) => match &m.content[0] {
                MessageContent::Text(t) => Some(t.clone()),
                _ => None,
            },
            _ => None,
        })
        .collect()
}

fn to_stream(r: &mut ReplyLoop) {
    assert_eq!(r.step(turn(), 5, "u"), vec![ReplyAction::CheckSwitch]);
    assert_eq!(r.step(ReplyEvent::SwitchChecked(None), 5, "u"), vec![ReplyAction::OpenStream]);
    assert_eq!(r.step(ReplyEvent::StreamOpened, 5, "u"), vec![ReplyAction::NextItem]);
}

#[test]
fn approved_tools_run_and_denied_ones_are_answered() {
    let mut r = reply("approve", 10);
    to_stream(&mut r);
    let m = Message::assistant_text(5, s("calling"));
    r.step(item(m), 5, "u");
    let c = ToolCategorizeResult {
        frontend_requests: vec![],
        remaining_requests: vec![request("1", "a"), request("2", "b")],
        filtered_response: Message::assistant_text(5, s("calling")),
    };
    let a = r.step(ReplyEvent::Categorized(c), 5, "uu");
    assert_eq!(a.last(), Some(&ReplyAction::RunFrontendTools(vec![])));
    assert_eq!(r.tool_message.id, Some(s("msg_uu")));
    let a = r.step(ReplyEvent::FrontendDone(vec![]), 5, "u");
    assert_eq!(
        a,
        vec![ReplyAction::InspectTools(vec![request("1", "a"), request("2", "b")])]
    );
    let p = PermissionCheckResult {
        approved: vec![request("1", "a")],
        needs_approval: vec![],
        denied: vec![request("2", "b")],
    };
    let a = r.step(ReplyEvent::Inspected(Some(p)), 5, "u");
    assert_eq!(
        a[0],
        ReplyAction::Dispatch {
            request_id: s("1"),
            call: ToolCall { name: s("a"), arguments: None },
        }
    );
    assert_eq!(a.last(), Some(&ReplyAction::RequestApproval(vec![])));
    assert_eq!(r.step(ReplyEvent::ApprovalDone(vec![]), 5, "u"), vec![ReplyAction::NextToolItem]);
    let a = r.step(
        ReplyEvent::ToolItem {
            cancelled: false,
            request_id: s("1"),
            output: ToolStreamItem::Result(Ok(vec![Content::Text(s("done"))])),
        },
        5,
        "u",
    );
    assert_eq!(a, vec![ReplyAction::NextToolItem]);
    let a = r.step(ReplyEvent::ToolItemsEnded, 5, "u");
    let Some(ReplyAction::Yield(AgentEvent::Message(m))) = a.first() else {
        panic!("a message expected")
    };
    assert_eq!(m.role, Role::User);
    assert_eq!(m.content.len(), 2);
    assert!(m.content.iter().any(|c| match c {
        MessageContent::ToolResponse(x) =>
            x.id == "2" && x.result == Ok(vec![Content::Text(s("declined"))]),
        _ => false,
    }));
}

#[test]
fn chat_mode_skips_tools() {
    let mut r = reply("chat", 10);
    to_stream(&mut r);
    r.step(item(Message::assistant_text(5, s("calling"))), 5, "u");
    let c = ToolCategorizeResult {
        frontend_requests: vec![],
        remaining_requests: vec![request("1", "a")],
        filtered_response: Message::assistant_text(5, s("calling")),
    };
    r.step(ReplyEvent::Categorized(c), 5, "u");
    let a = r.step(ReplyEvent::FrontendDone(vec![]), 5, "u");
    assert!(!a.iter().any(|x| matches!(x, ReplyAction::InspectTools(_))));
    assert!(r.tool_message.content.iter().any(|c| match c {
        MessageContent::ToolResponse(x) => x.result == Ok(vec![Content::Text(s("skipped"))]),
        _ => false,
    }));
}

#[test]
fn provider_errors_are_told() {
    let mut r = reply("auto", 10);
    to_stream(&mut r);
    let a = r.advance(ReplyEvent::StreamItem {
        cancelled: false,
        item: StreamItem::Error(s("boom")),
    });
    assert_eq!(
        yielded(&a),
        vec![s("Ran into this error: boom.\n\nPlease retry if you think this is a transient or recoverable error.")]
    );
    let Some(ReplyAction::Yield(AgentEvent::Message(m))) = a.first() else {
        panic!("a message expected")
    };
    assert!((m.created - chrono::Utc::now().timestamp()).abs() <= 60);
}

#[test]
fn a_fresh_identifier_names_the_tool_message() {
    let mut r = reply("auto", 10);
    to_stream(&mut r);
    r.advance(item(Message::assistant_text(5, s("calling"))));
    let c = ToolCategorizeResult {
        frontend_requests: vec![request("1", "a")],
        remaining_requests: vec![],
        filtered_response: Message::assistant_text(5, s("calling")),
    };
    r.advance(ReplyEvent::Categorized(c));
    let id = r.tool_message.id.clone().unwrap();
    let rest = id.strip_prefix("msg_").unwrap();
    assert!(uuid::Uuid::parse_str(rest).is_ok());
    assert_eq!(rest.len(), 36);
}

#[test]
fn an_overflowing_context_is_compacted() {
    let mut r = reply("auto", 10);
    to_stream(&mut r);
    let a = r.step(
        ReplyEvent::StreamItem { cancelled: false, item: StreamItem::ContextLengthExceeded },
        5,
        "u",
    );
    assert_eq!(a, vec![ReplyAction::Compact]);
    let shorter = vec![Message::user_text(1, s("short"))];
    r.step(ReplyEvent::Compacted(shorter), 5, "u");
    assert_eq!(r.conversation, vec![Message::user_text(1, s("short"))]);
    let mut r = reply("auto", 10);
    to_stream(&mut r);
    r.step(
        ReplyEvent::StreamItem { cancelled: false, item: StreamItem::ContextLengthExceeded },
        5,
        "u",
    );
    let a = r.step(ReplyEvent::CompactionFailed(s("e")), 5, "u");
    assert_eq!(
        yielded(&a),
        vec![s("Ran into this error trying to compact: e.\n\nPlease retry if you think this is a transient or recoverable error.")]
    );
}

#[test]
fn a_cancelled_turn_stops() {
    let mut r = reply("auto", 10);
    let a = r.step(
        ReplyEvent::TurnChecked { cancelled: true, final_output: FinalOutput::NoTool },
        5,
        "u",
    );
    assert_eq!(a, vec![ReplyAction::Stop]);
}

#[test]
fn limits_and_modes_are_resolved() {
    assert_eq!(resolve_max_turns(Some(3), Some(4)), 3);
    assert_eq!(resolve_max_turns(None, Some(4)), 4);
    assert_eq!(resolve_max_turns(None, None), 1000);
    assert_eq!(determine_goose_mode(Some("foreground"), Some("auto")), "chat");
    assert_eq!(determine_goose_mode(Some("background"), Some("chat")), "auto");
    assert_eq!(determine_goose_mode(Some("else"), Some("approve")), "approve");
    assert_eq!(determine_goose_mode(None, None), "auto");
    assert!(should_retry(RetryResult::Retried));
    assert!(!should_retry(RetryResult::Skipped));
}

#[test]
fn the_stored_conversation_follows() {
    let one = Message::user_text(1, s("a"));
    let two = Message::assistant_text(2, s("b"));
    let stored = vec![Message::user_text(1, s("a"))];
    assert_eq!(
        sync_session("id", &vec![one, two], Some(&stored)),
        Ok(SessionSync::Append(Message::assistant_text(2, s("b"))))
    );
    assert_eq!(
        sync_session("id", &vec![Message::user_text(1, s("a"))], Some(&stored)),
        Ok(SessionSync::Keep)
    );
    assert_eq!(sync_session("id", &vec![], Some(&stored)), Ok(SessionSync::Replace));
    assert!(sync_session("id", &vec![], None).unwrap_err().contains("id"));
}

#[test]
fn a_long_conversation_is_compacted_first() {
    let ReplyOpening::Compacted { events, conversation } =
        open_reply(Ok(Some(vec![Message::user_text(1, s("x"))])), 80, 9)
    else {
        panic!("compaction expected")
    };
    assert_eq!(conversation.len(), 1);
    assert_eq!(
        events[0],
        AgentEvent::Message(Message::compacted(
            9,
            s("Exceeded auto-compact threshold of 80%. Context has been summarized and reduced.\n\n")
        ))
    );
    assert_eq!(open_reply(Ok(None), 80, 9), ReplyOpening::Plain);
    let ReplyOpening::Refused { events } = open_reply(Err(s("e")), 80, 9) else {
        panic!("refusal expected")
    };
    assert_eq!(
        events,
        vec![AgentEvent::Message(Message::assistant_text(
            9,
            s("Ran into this error trying to auto-compact: e.\n\nPlease try again or create a new session")
        ))]
    );
}

#[test]
fn test_retry_attempts_counter_reset() {
    let mut agent = RetryAttempts::new();

    agent.reset_retry_attempts();
    let initial_attempts = agent.get_retry_attempts();
    assert_eq!(initial_attempts, 0);

    let new_attempts = agent.increment_retry_attempts();
    assert_eq!(new_attempts, 1);

    agent.reset_retry_attempts();
    let reset_attempts = agent.get_retry_attempts();
    assert_eq!(reset_attempts, 0);
}

fn context() -> DispatchContext {
    DispatchContext {
        names: ToolNames {
            manage_schedule: s("platform__manage_schedule"),
            final_output: s("recipe__final_output"),
            subagent_execute_task: s("subagent__execute_task"),
            create_dynamic_task: s("dynamic_task__create_task"),
        },
        has_final_output: false,
        is_sub_recipe: false,
        has_provider: true,
        has_session: true,
        frontend_tools: vec![],
    }
}

fn route(name: &str, args: Option<&str>, c: &DispatchContext) -> DispatchRoute {
    dispatch_tool_call(&ToolCall { name: s(name), arguments: args.map(object) }, c)
}

fn refused(code: i32, message: &str) -> DispatchRoute {
    DispatchRoute::Refused(ErrorData { code, message: s(message) })
}

#[test]
fn calls_are_routed_by_name() {
    let mut c = context();
    assert_eq!(
        route("platform__manage_schedule", None, &c),
        DispatchRoute::Schedule(Json::Object(vec![]))
    );
    assert_eq!(
        route("recipe__final_output", None, &c),
        refused(INTERNAL_ERROR, "Final output tool not defined")
    );
    c.has_final_output = true;
    assert_eq!(route("recipe__final_output", None, &c), DispatchRoute::FinalOutput);
    assert_eq!(
        route("dynamic_task__create_task", Some("{\"a\": 1}"), &c),
        DispatchRoute::CreateTask(parse("{\"a\": 1}").unwrap())
    );
    assert_eq!(
        route(ROUTER_LLM_SEARCH_TOOL_NAME, None, &c),
        DispatchRoute::RouterSearch(vec![])
    );
    assert_eq!(
        route("x__y", None, &c),
        DispatchRoute::Extension(ToolCall { name: s("x__y"), arguments: None })
    );
    c.is_sub_recipe = true;
    assert_eq!(
        route("x__y", None, &c),
        DispatchRoute::SubRecipe { name: s("x__y"), arguments: Json::Object(vec![]) }
    );
}

#[test]
fn tasks_need_a_provider_a_session_and_names() {
    let mut c = context();
    let name = "subagent__execute_task";
    assert_eq!(
        route(name, None, &c),
        refused(INVALID_PARAMS, "Tool call arguments are required")
    );
    assert_eq!(
        route(name, Some("{}"), &c),
        refused(INVALID_PARAMS, "task_ids parameter is required")
    );
    for bad in ["{\"task_ids\": 1}", "{\"task_ids\": [\"a\", 1]}"] {
        assert_eq!(
            route(name, Some(bad), &c),
            refused(INVALID_PARAMS, "Invalid task_ids format")
        );
    }
    assert_eq!(
        route(name, Some("{\"task_ids\": [\"a\", \"b\"], \"execution_mode\": \"parallel\"}"), &c),
        DispatchRoute::RunTasks {
            task_ids: vec![s("a"), s("b")],
            execution_mode: Some(Json::Text(s("parallel"))),
        }
    );
    c.has_session = false;
    assert_eq!(route(name, None, &c), refused(INTERNAL_ERROR, "Session is required"));
    c.has_provider = false;
    assert_eq!(route(name, None, &c), refused(INTERNAL_ERROR, "Provider is required"));
    assert_eq!(texts_only(&vec![]), Some(vec![]));
    assert_eq!(extension_error(s("x")).code, INTERNAL_ERROR);
}

#[test]
fn frontend_tools_stay_with_the_frontend() {
    let mut f = FrontendState::new();
    let ext = ExtensionConfig::Frontend {
        name: s("ui"),
        description: s(""),
        tools: vec![tool("ui__click")],
        instructions: None,
        bundled: None,
        available_tools: vec![],
    };
    assert!(f.add_extension(&ext));
    assert!(f.is_frontend_tool("ui__click"));
    assert!(!f.is_frontend_tool("click"));
    assert_eq!(f.get_frontend_tool("ui__click").unwrap().tool, tool("ui__click"));
    assert!(f.instructions.is_some());
    let mut c = context();
    c.frontend_tools = f.tools;
    assert_eq!(
        route("ui__click", None, &c),
        DispatchRoute::Answered(ErrorData {
            code: INTERNAL_ERROR,
            message: s("Frontend tool execution required"),
        })
    );
    let other = ExtensionConfig::Builtin {
        name: s("b"),
        display_name: None,
        description: s(""),
        timeout: None,
        bundled: None,
        available_tools: vec![],
    };
    let mut f = FrontendState::new();
    assert!(!f.add_extension(&other));
    assert!(f.tools.is_empty());
}

#[test]
fn the_agent_lists_its_own_tools() {
    let own = || AgentTools {
        manage_schedule: tool("platform__manage_schedule"),
        create_dynamic_task: tool("dynamic_task__create_task"),
        sub_recipes: vec![tool("sub")],
        final_output: Some(tool("recipe__final_output")),
        subagent_execute_task: tool("subagent__execute_task"),
    };
    let names = |l: Vec<Tool>| l.into_iter().map(|t| t.name).collect::<Vec<_>>();
    let all = names(list_tools(vec![tool("x__y")], None, own()));
    for n in [
        "x__y",
        "platform__manage_schedule",
        "dynamic_task__create_task",
        "sub",
        "recipe__final_output",
        "subagent__execute_task",
    ] {
        assert!(all.contains(&s(n)), "{n}");
    }
    let platform = names(list_tools(vec![], Some("platform"), own()));
    assert!(platform.contains(&s("platform__manage_schedule")));
    assert_eq!(names(list_tools(vec![tool("x__y")], Some("x"), own())), vec![s("x__y")]);
}

#[test]
fn tools_are_described_with_their_permission() {
    let mut p = PermissionManager::new();
    p.update_user_permission("a", PermissionLevel::NeverAllow);
    let infos = describe_tools(&vec![tool("a"), tool("b")], Some(&p));
    assert_eq!(infos[0].permission, Some(PermissionLevel::NeverAllow));
    assert_eq!(infos[1].permission, None);
    assert_eq!(infos[0].parameters, vec![s("p")]);
    assert_eq!(describe_tools(&vec![tool("a")], None)[0].permission, None);
    let ExtensionError::SetupError(t) = indexing_failed("ext", "boom") else {
        panic!("a setup error expected")
    };
    assert!(t.contains("ext") && t.contains("boom"));
}

#[test]
fn managing_fails_with_its_cause() {
    let (mut m, _) = ManageExtension::start("disable", s("x"), true);
    m.step(ManageEvent::Router(true));
    let ManageAction::Done(Err(e)) = m.step(ManageEvent::IndexUpdated(Some(s("idx")))) else {
        panic!("an error expected")
    };
    assert_eq!(e.message, "Failed to update LLM index: idx");
    let (mut m, _) = ManageExtension::start("enable", s("x"), true);
    m.step(ManageEvent::Router(false));
    let ManageAction::Done(Err(e)) = m.step(ManageEvent::Config(Err(s("cfg")))) else {
        panic!("an error expected")
    };
    assert_eq!(e.message, "Failed to get extension config: cfg");
    let (_, a) = ManageExtension::start("enable", s("x"), false);
    assert!(matches!(a, ManageAction::Done(Err(_))));
}

#[test]
fn calls_of_the_extension_are_routed_and_finished() {
    assert_eq!(
        call_tool(SEARCH_AVAILABLE_EXTENSIONS_TOOL_NAME, None, true),
        ClientRoute::Search
    );
    assert_eq!(
        call_tool(LIST_RESOURCES_TOOL_NAME, None, true),
        ClientRoute::ListResources(Json::Object(vec![]))
    );
    assert_eq!(
        call_tool("other", None, true),
        ClientRoute::Refused(ExtensionManagerToolError::UnknownTool { tool_name: s("other") })
    );
    assert!(matches!(
        call_tool(READ_RESOURCE_TOOL_NAME, None, false),
        ClientRoute::Refused(ExtensionManagerToolError::OperationFailed { .. })
    ));
    let r = finish_call(&ClientRoute::Search, Ok(vec![Content::Text(s("ok"))]));
    assert_eq!(r.is_error, Some(false));
    let r = finish_call(
        &ClientRoute::Search,
        Err(ErrorData { code: 1, message: s("bad") }),
    );
    let Content::Text(t) = &r.content[0] else { panic!("text expected") };
    assert!(t.contains("Failed to search available extensions: bad"));
}

#[test]
fn tool_errors_have_messages() {
    assert_eq!(
        ExtensionManagerToolError::UnknownTool { tool_name: s("t") }.message(),
        "Unknown tool: t"
    );
    assert_eq!(
        ExtensionManagerToolError::ManagerUnavailable.message(),
        "Extension manager not available"
    );
    assert_eq!(
        ExtensionManagerToolError::MissingParameter { param_name: s("p") }.message(),
        "Missing required parameter: p"
    );
    assert_eq!(
        ExtensionManagerToolError::InvalidAction { action: s("a") }.message(),
        "Invalid action: a. Must be 'enable' or 'disable'"
    );
    assert_eq!(
        ExtensionManagerToolError::OperationFailed { message: s("m") }.message(),
        "Extension operation failed: m"
    );
}

#[test]
fn the_index_is_kept_up_to_date() {
    assert_eq!(ToolRouterIndexManager::parse_action("add"), Ok(IndexChange::Add));
    assert_eq!(ToolRouterIndexManager::parse_action("remove"), Ok(IndexChange::Remove));
    assert_eq!(
        ToolRouterIndexManager::parse_action("x"),
        Err(s("Invalid action: x"))
    );
    assert_eq!(
        ToolRouterIndexManager::update_extension_tools(IndexChange::Remove, vec![tool("e__a")]),
        IndexStep::RemoveEach(vec![s("e__a")])
    );
    assert_eq!(
        ToolRouterIndexManager::update_extension_tools(IndexChange::Add, vec![tool("e__a")]),
        IndexStep::IndexAll(vec![tool("e__a")])
    );
    assert_eq!(
        ToolRouterIndexManager::update_extension_tools(IndexChange::Add, vec![]),
        IndexStep::Nothing
    );
    assert!(ToolRouterIndexManager::index_error("e", "c").contains("c"));
    assert!(ToolRouterIndexManager::remove_error("t", "e", "c").contains("t"));
}

#[test]
fn the_search_tool_is_described() {
    let t = llm_search_tool();
    assert_eq!(t.name, "router__llm_search");
    assert!(t.description.unwrap().contains("Searches for relevant tools"));
    let p = llm_search_tool_prompt();
    assert!(p.starts_with("# LLM Tool Selection Instructions\n    Important: "));
    assert!(p.ends_with(
        "    - search_available_extensions\n    - manage_extensions\n    - read_resource\n    - list_resources\n    "
    ));
}

/// An agent whose only extension is the one that manages extensions, with the
/// outside played by the test.
struct TestAgent {
    manager: ExtensionManager,
    configured: ExtensionsMap,
    next_client: u64,
}

fn platform(name: &str, display_name: &str) -> ExtensionConfig {
    ExtensionConfig::Platform {
        name: s(name),
        display_name: Some(s(display_name)),
        description: s(display_name),
        bundled: Some(true),
        available_tools: vec![],
    }
}

impl TestAgent {
    fn add_extension(&mut self, config: ExtensionConfig) -> Result<(), ExtensionError> {
        let kept = config.duplicate();
        let known = vec![s(EXTENSION_NAME), s("extension manager"), s("todo")];
        let (mut adding, first) = AddExtension::start(config, &known);
        match first {
            AddAction::CreatePlatform { .. } => {}
            AddAction::Fail(e) => return Err(e),
            other => panic!("unexpected action: {other:?}"),
        }
        let client = self.next_client;
        self.next_client += 1;
        match adding.step(AddEvent::Connected { client, info: None }) {
            AddAction::Keep { name, client, info } => {
                self.manager.add_client(name, kept, client, info);
                Ok(())
            }
            other => panic!("unexpected action: {other:?}"),
        }
    }

    fn own_tools() -> AgentTools {
        AgentTools {
            manage_schedule: tool("platform__manage_schedule"),
            create_dynamic_task: tool("dynamic_task__create_task"),
            sub_recipes: vec![],
            final_output: None,
            subagent_execute_task: tool("subagent__execute_task"),
        }
    }

    fn list_tools(&self, extension_name: Option<&str>) -> Vec<Tool> {
        let results = self
            .manager
            .get_prefixed_tools(extension_name)
            .into_iter()
            .map(|(name, e)| {
                let mut listing = ToolListing { name, config: e.config, tools: vec![] };
                let page = if e.client == 0 {
                    get_tools(self.manager.supports_resources())
                } else {
                    vec![]
                };
                assert_eq!(listing.add_page(&page, None), None);
                Ok(listing.tools)
            })
            .collect();
        list_tools(collect_tools(results).unwrap(), extension_name, Self::own_tools())
    }

    fn manage(&mut self, action: &str, extension_name: &str) -> ToolResult {
        let (mut managing, mut step) = ManageExtension::start(action, s(extension_name), true);
        loop {
            let event = match step {
                ManageAction::Done(result) => return result,
                ManageAction::CheckRouter => ManageEvent::Router(false),
                ManageAction::RemoveExtension(name) => {
                    self.manager.remove_extension(&name);
                    ManageEvent::Removed(None)
                }
                ManageAction::FindConfig(name) => {
                    ManageEvent::Config(Ok(get_extension_by_name(&self.configured, &name)))
                }
                ManageAction::AddExtension(config) => {
                    ManageEvent::Added(self.add_extension(config).err().map(|e| format!("{e:?}")))
                }
                other => panic!("unexpected action: {other:?}"),
            };
            step = managing.step(event);
        }
    }

    /// Plays the client of the extension that manages extensions.
    fn call_client(&mut self, name: &str, arguments: Option<Vec<(String, Json)>>) -> CallToolResult {
        let route = call_tool(name, arguments.as_ref(), true);
        let outcome = match &route {
            ClientRoute::Search => {
                let entries = get_all_extensions(&self.configured);
                Ok(self.manager.search_available_extensions(&entries))
            }
            ClientRoute::Manage { action, extension_name } => self.manage(action, extension_name),
            _ => Ok(vec![]),
        };
        finish_call(&route, outcome)
    }

    fn dispatch_tool_call(
        &mut self,
        call: ToolCall,
        request_id: &str,
    ) -> (String, Result<ToolResult, ErrorData>) {
        let result = match dispatch_tool_call(&call, &context()) {
            DispatchRoute::Extension(call) => match self.manager.dispatch_tool_call(&call) {
                Ok(resolved) if resolved.client == 0 => {
                    let r = self.call_client(&resolved.tool_name, resolved.arguments);
                    Ok(call_outcome(Ok(r.content)))
                }
                Ok(_) => Ok(call_outcome(Err(s("Transport closed")))),
                Err(e) => Ok(Err(extension_error(e.message))),
            },
            DispatchRoute::Answered(e) => Ok(Err(e)),
            DispatchRoute::Refused(e) => Err(e),
            other => panic!("unexpected route: {other:?}"),
        };
        (s(request_id), result)
    }
}

fn setup_agent_with_extension_manager() -> TestAgent {
    let mut agent =
        TestAgent { manager: ExtensionManager::new(), configured: vec![], next_client: 0 };
    let defs = vec![(
        s("todo"),
        PlatformExtensionDef { name: s("todo"), display_name: s("Todo"), description: s("tasks") },
    )];
    let entry = ExtensionEntry { enabled: false, config: platform("other", "Other") };
    agent.configured = get_extensions_map(&vec![(s("other"), Some(entry))], &defs);
    agent
        .add_extension(platform(EXTENSION_NAME, "Extension Manager"))
        .expect("Failed to add extension manager");
    agent
}

fn first_text(result: (String, Result<ToolResult, ErrorData>)) -> String {
    assert!(result.1.is_ok(), "Tool call should return a result");
    let call_result = result.1.unwrap();
    assert!(call_result.is_ok(), "Tool execution should return an error result");
    let content = call_result.unwrap();
    match content.first().unwrap() {
        Content::Text(t) => t.clone(),
        other => panic!("text expected: {other:?}"),
    }
}

#[test]
fn test_extension_manager_tools_available() {
    let agent = setup_agent_with_extension_manager();
    let tools = agent.list_tools(None);

    let search_tool = tools.iter().find(|tool| {
        tool.name == format!("{EXTENSION_NAME}__{SEARCH_AVAILABLE_EXTENSIONS_TOOL_NAME}")
    });
    assert!(search_tool.is_some(), "search_available_extensions tool should be available");

    let manage_tool = tools
        .iter()
        .find(|tool| tool.name == format!("{EXTENSION_NAME}__{MANAGE_EXTENSIONS_TOOL_NAME}"));
    assert!(manage_tool.is_some(), "manage_extensions tool should be available");
}

#[test]
fn test_search_available_extensions_tool_call() {
    let mut agent = setup_agent_with_extension_manager();
    let tool_call = ToolCall {
        name: format!("{EXTENSION_NAME}__{SEARCH_AVAILABLE_EXTENSIONS_TOOL_NAME}"),
        arguments: Some(vec![]),
    };
    let (_, result) = agent.dispatch_tool_call(tool_call, "request_1");
    assert!(result.is_ok(), "search_available_extensions should succeed");
    let call_result = result.unwrap();
    assert!(call_result.is_ok(), "search_available_extensions execution should succeed");
    let content = call_result.unwrap();
    assert!(!content.is_empty(), "Should return some content");
    let Content::Text(text) = content.first().unwrap() else { panic!("text expected") };
    assert!(
        text.contains("Extensions available to enable:"),
        "Content should contain 'Extensions available to enable:'"
    );
}

#[test]
fn test_manage_extensions_enable_disable_success() {
    let mut agent = setup_agent_with_extension_manager();
    let enable_call = ToolCall {
        name: format!("{EXTENSION_NAME}__{MANAGE_EXTENSIONS_TOOL_NAME}"),
        arguments: Some(object(r#"{"action": "enable", "extension_name": "todo"}"#)),
    };
    let text = first_text(agent.dispatch_tool_call(enable_call, "request_3a"));
    assert!(
        text.contains("todo") && text.contains("installed successfully"),
        "Response should indicate success, got: {}",
        text
    );
    assert!(agent.manager.list_extensions().contains(&s("todo")));

    let disable_call = ToolCall {
        name: format!("{EXTENSION_NAME}__{MANAGE_EXTENSIONS_TOOL_NAME}"),
        arguments: Some(object(r#"{"action": "disable", "extension_name": "todo"}"#)),
    };
    let text = first_text(agent.dispatch_tool_call(disable_call, "request_3b"));
    assert!(
        text.contains("successfully") || text.contains("disabled"),
        "Response should indicate success, got: {}",
        text
    );
    assert!(!agent.manager.list_extensions().contains(&s("todo")));
}

#[test]
fn test_manage_extensions_missing_parameters() {
    let mut agent = setup_agent_with_extension_manager();
    let tool_call = ToolCall {
        name: format!("{EXTENSION_NAME}__{MANAGE_EXTENSIONS_TOOL_NAME}"),
        arguments: Some(object(r#"{"extension_name": "todo"}"#)),
    };
    let text = first_text(agent.dispatch_tool_call(tool_call, "request_4"));
    assert!(
        text.contains("action") || text.contains("parameter"),
        "Error should mention missing action parameter"
    );
    assert_eq!(
        text,
        "Extension operation failed: Missing required parameter: action"
    );
}

#[test]
fn test_manage_extensions_invalid_action() {
    let mut agent = setup_agent_with_extension_manager();
    let tool_call = ToolCall {
        name: format!("{EXTENSION_NAME}__{MANAGE_EXTENSIONS_TOOL_NAME}"),
        arguments: Some(object(r#"{"action": "invalid_action", "extension_name": "todo"}"#)),
    };
    let result = agent.dispatch_tool_call(tool_call, "request_6");
    assert_eq!(result.0, "request_6");
    let text = first_text(result);
    assert!(
        text.contains("Invalid action") || text.contains("enable") || text.contains("disable"),
        "Error should mention invalid action, got: {}",
        text
    );
    assert!(text.contains("Invalid action"));
}

#[test]
fn test_manage_extensions_extension_not_found() {
    let mut agent = setup_agent_with_extension_manager();
    let tool_call = ToolCall {
        name: format!("{EXTENSION_NAME}__{MANAGE_EXTENSIONS_TOOL_NAME}"),
        arguments: Some(object(
            r#"{"action": "enable", "extension_name": "nonexistent_extension_12345"}"#,
        )),
    };
    let text = first_text(agent.dispatch_tool_call(tool_call, "request_7"));
    assert!(
        text.contains("not found") || text.contains("Extension"),
        "Error should mention extension not found, got: {}",
        text
    );
    assert!(text.contains(
        "Extension 'nonexistent_extension_12345' not found. Please check the extension name and try again."
    ));
}

#[test]
fn an_extension_is_called_by_its_own_name() {
    let mut agent =
        TestAgent { manager: ExtensionManager::new(), configured: vec![], next_client: 0 };
    agent.add_extension(platform("extension manager", "Extension Manager")).unwrap();
    assert_eq!(agent.manager.list_extensions(), vec![s("extensionmanager")]);
    let tool_call = ToolCall {
        name: s("extension manager__manage_extensions"),
        arguments: Some(object(r#"{"action": "invalid_action", "extension_name": "todo"}"#)),
    };
    let result = agent.dispatch_tool_call(tool_call, "request_6");
    assert_eq!(result.0, "request_6");
    assert!(first_text(result).contains("Invalid action"));
}

#[test]
fn a_call_without_its_action_names_it() {
    assert_eq!(
        handle_manage_extensions(None),
        Err(ExtensionManagerToolError::MissingParameter { param_name: s("arguments") })
    );
    let args = object(r#"{"action": "enable"}"#);
    assert_eq!(
        handle_manage_extensions(Some(&args)),
        Err(ExtensionManagerToolError::MissingParameter { param_name: s("extension_name") })
    );
    assert_eq!(get_tools(false).len(), 2);
    assert_eq!(get_tools(true).len(), 4);
    assert_eq!(describe_server().title, "Extension Manager");
    assert_eq!(describe_server().name, normalize(s(EXTENSION_NAME)));
}

#[test]
fn the_index_is_updated_while_managing() {
    let (mut m, a) = ManageExtension::start("enable", s("todo"), true);
    assert_eq!(a, ManageAction::CheckRouter);
    assert_eq!(m.step(ManageEvent::Router(false)), ManageAction::FindConfig(s("todo")));
    assert_eq!(
        m.step(ManageEvent::Config(Ok(Some(platform("todo", "Todo"))))),
        ManageAction::AddExtension(platform("todo", "Todo"))
    );
    assert_eq!(m.step(ManageEvent::Added(None)), ManageAction::CheckRouter);
    assert_eq!(
        m.step(ManageEvent::Router(true)),
        ManageAction::UpdateIndex { extension_name: s("todo"), change: IndexChange::Add }
    );
    assert_eq!(
        m.step(ManageEvent::IndexUpdated(None)),
        ManageAction::Done(Ok(vec![Content::Text(s(
            "The extension 'todo' has been installed successfully"
        ))]))
    );
    assert_eq!(m.step(ManageEvent::Removed(None)), ManageAction::Wait);
    assert_eq!(
        removal_actions(true, "todo"),
        vec![
            ManageAction::UpdateIndex { extension_name: s("todo"), change: IndexChange::Remove },
            ManageAction::RemoveExtension(s("todo")),
        ]
    );
    assert_eq!(
        removal_actions(false, "todo"),
        vec![ManageAction::RemoveExtension(s("todo"))]
    );
}

#[test]
fn test_tool_inspection_manager_has_all_inspectors() {
    let inspector_names = default_inspectors();
    assert!(
        inspector_names.contains(&s("repetition")),
        "Tool inspection manager should contain repetition inspector"
    );
    assert!(
        inspector_names.contains(&s("permission")),
        "Tool inspection manager should contain permission inspector"
    );
    assert!(
        inspector_names.contains(&s("security")),
        "Tool inspection manager should contain security inspector"
    );
    assert_eq!(inspector_names, ["security", "permission", "repetition"].map(s).to_vec());
}

/// Plays the outside of a reply: a provider that answers each turn with a list of
/// messages, tools that run through an agent, and a final output.
struct TestReply {
    agent: TestAgent,
    state: ReplyLoop,
    actions: VecDeque<ReplyAction>,
    final_output: fn() -> FinalOutput,
    answers: fn(usize) -> Vec<Message>,
    rounds: usize,
    seen: Vec<Message>,
    stream: VecDeque<Message>,
    results: VecDeque<(String, ToolResult)>,
}

impl TestReply {
    fn new(
        conversation: Vec<Message>,
        max_turns: u32,
        final_output: fn() -> FinalOutput,
        answers: fn(usize) -> Vec<Message>,
    ) -> Self {
        Self {
            agent: TestAgent { manager: ExtensionManager::new(), configured: vec![], next_client: 0 },
            state: ReplyLoop::new(false, s("auto"), max_turns, texts(), conversation),
            actions: VecDeque::from(vec![ReplyAction::CheckTurn]),
            final_output,
            answers,
            rounds: 0,
            seen: vec![],
            stream: VecDeque::new(),
            results: VecDeque::new(),
        }
    }

    fn event(&mut self, action: ReplyAction) -> Option<ReplyEvent> {
        Some(match action {
            ReplyAction::CheckTurn => {
                ReplyEvent::TurnChecked { cancelled: false, final_output: (self.final_output)() }
            }
            ReplyAction::CheckSwitch => ReplyEvent::SwitchChecked(None),
            ReplyAction::OpenStream => {
                self.rounds += 1;
                if let Some(m) = self.state.conversation.last() {
                    self.seen.push(m.duplicate());
                }
                self.stream = (self.answers)(self.rounds).into();
                ReplyEvent::StreamOpened
            }
            ReplyAction::NextItem => match self.stream.pop_front() {
                Some(m) => item(m),
                None => ReplyEvent::StreamEnded,
            },
            ReplyAction::Categorize(m) => {
                let remaining_requests = m
                    .content
                    .iter()
                    .filter_map(|c| match c {
                        MessageContent::ToolRequest(q) => Some(q.duplicate()),
                        _ => None,
                    })
                    .collect();
                ReplyEvent::Categorized(ToolCategorizeResult {
                    frontend_requests: vec![],
                    remaining_requests,
                    filtered_response: m,
                })
            }
            ReplyAction::RunFrontendTools(_) => ReplyEvent::FrontendDone(vec![]),
            ReplyAction::InspectTools(requests) => {
                let mut permissions = PermissionManager::new();
                let (result, _) = check_tool_permissions(
                    &requests,
                    "auto",
                    &vec![],
                    &vec![],
                    &mut permissions,
                    &vec![],
                );
                ReplyEvent::Inspected(Some(result))
            }
            ReplyAction::Dispatch { request_id, call } => {
                let (id, result) = self.agent.dispatch_tool_call(call, &request_id);
                self.results.push_back((id, result.unwrap_or_else(Err)));
                return None;
            }
            ReplyAction::RequestApproval(_) => ReplyEvent::ApprovalDone(vec![]),
            ReplyAction::NextToolItem => match self.results.pop_front() {
                Some((request_id, result)) => ReplyEvent::ToolItem {
                    cancelled: false,
                    request_id,
                    output: ToolStreamItem::Result(result),
                },
                None => ReplyEvent::ToolItemsEnded,
            },
            ReplyAction::CheckFinalOutput => ReplyEvent::FinalOutputChecked((self.final_output)()),
            ReplyAction::RecordToolRequests(_) => return None,
            other => panic!("unexpected action: {other:?}"),
        })
    }

    /// The next message of the reply.
    fn next(&mut self) -> Option<Message> {
        while let Some(action) = self.actions.pop_front() {
            match action {
                ReplyAction::Yield(AgentEvent::Message(m)) => return Some(m),
                ReplyAction::Yield(_) => {}
                ReplyAction::Stop => return None,
                action => {
                    if let Some(event) = self.event(action) {
                        self.actions.extend(self.state.step(event, 5, "u"));
                    }
                }
            }
        }
        None
    }
}

#[test]
fn test_max_turns_limit() {
    let mut reply = TestReply::new(
        vec![Message::user_text(1, s("Hello"))],
        resolve_max_turns(None, None),
        || FinalOutput::NoTool,
        |_| {
            vec![Message::of(
                Role::Assistant,
                1,
                MessageContent::ToolRequest(ToolRequest {
                    id: s("call_123"),
                    tool_call: Ok(ToolCall {
                        name: s("test_tool"),
                        arguments: Some(object(r#"{"param": "value"}"#)),
                    }),
                }),
            )]
        },
    );
    let mut responses = vec![];
    while let Some(m) = reply.next() {
        responses.push(m);
    }
    assert!(!responses.is_empty(), "Expected at least 1 response, got {}", responses.len());
    let last_response = responses.last().unwrap();
    let last_content = last_response.content.first().unwrap();
    if let MessageContent::Text(text) = last_content {
        assert!(text
            .contains("I've reached the maximum number of actions I can do without user input"));
    } else {
        panic!("Expected text content in last message");
    }
    assert_eq!(reply.rounds, 1000);
    assert_eq!(responses.len(), 2001);
    assert!(responses[1].content.iter().any(|c| match c {
        MessageContent::ToolResponse(r) => match &r.result {
            Err(e) => e.code == INTERNAL_ERROR,
            Ok(_) => false,
        },
        _ => false,
    }));
}

#[test]
fn test_final_output_assistant_message_in_reply() {
    let mut c = context();
    c.has_final_output = true;
    assert_eq!(
        route("recipe__final_output", Some(r#"{"result": "Test output"}"#), &c),
        DispatchRoute::FinalOutput
    );
    let mut reply = TestReply::new(
        vec![],
        resolve_max_turns(None, None),
        || FinalOutput::Ready(s(r#"{"result":"Test output"}"#)),
        |_| vec![Message::assistant_text(1, s("Task completed."))],
    );
    let mut responses = vec![];
    while let Some(m) = reply.next() {
        responses.push(m);
    }
    assert!(!responses.is_empty(), "Should have received responses");
    let last_message = responses.last().unwrap();
    assert_eq!(last_message.role, Role::Assistant);
    assert_eq!(
        last_message.content,
        vec![MessageContent::Text(s(r#"{"result":"Test output"}"#))]
    );
}

#[test]
fn test_when_final_output_not_called_in_reply() {
    let mut reply = TestReply::new(
        vec![],
        resolve_max_turns(None, None),
        || FinalOutput::Pending,
        |round| {
            if round == 1 {
                vec![
                    Message::assistant_text(1, s("Hello")),
                    Message::assistant_text(1, s("Hi!")),
                    Message::assistant_text(1, s("What is the final output?")),
                ]
            } else {
                vec![Message::assistant_text(1, s("Additional random delta"))]
            }
        },
    );
    let mut responses = vec![];
    while responses.len() < 4 {
        match reply.next() {
            Some(m) => responses.push(m),
            None => break,
        }
    }
    assert!(!responses.is_empty(), "Should have received responses");
    let continuation = texts().final_output_continuation;
    for (i, response) in responses.iter().take(3).enumerate() {
        assert_ne!(
            response.content,
            vec![MessageContent::Text(continuation.clone())],
            "Message {} should not be the continuation message",
            i + 1
        );
    }
    let last_message = responses.last().unwrap();
    assert_eq!(last_message.role, Role::User);
    assert_eq!(last_message.content, vec![MessageContent::Text(continuation.clone())]);
    reply.next();
    assert!(
        reply
            .seen
            .iter()
            .any(|m| m.content == vec![MessageContent::Text(continuation.clone())]),
        "Provider should have received the continuation message"
    );
}
