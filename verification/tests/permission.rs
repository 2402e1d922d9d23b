use goose_core::extension::PermissionLevel;
use goose_core::extension_manager_extension::MANAGE_EXTENSIONS_TOOL_NAME;
use goose_core::json::Json;
use goose_core::message::{Message, MessageContent, Role};
use goose_core::permission_judge::{
    apply_detection, check_tool_permissions, create_check_messages, create_check_messages_at,
    create_read_only_tool, detect_read_only_tools, detection_at, extract_read_only_tools,
    sort_requests, PermissionManager,
};
use goose_core::tool::{ErrorData, ToolCall, ToolRequest};

fn s(t: &str) -> String {
    t.to_string()
}

fn text(t: &str) -> Json {
    Json::Text(s(t))
}

fn request(id: &str, name: &str, args: &[(&str, &str)]) -> ToolRequest {
    ToolRequest {
        id: s(id),
        tool_call: Ok(ToolCall {
            name: s(name),
            arguments: Some(args.iter().map(|(k, v)| (s(k), text(v))).collect()),
        }),
    }
}

fn read_only_answer(id: &str, created: i64) -> Message {
    Message {
        id: None,
        role: Role::Assistant,
        created,
        content: vec![MessageContent::ToolRequest(ToolRequest {
            id: s(id),
            tool_call: Ok(ToolCall {
                name: s("platform__tool_by_tool_permission"),
                arguments: Some(vec![(
                    s("read_only_tools"),
                    Json::Array(vec![text("file_reader"), text("data_fetcher")]),
                )]),
            }),
        })],
    }
}

#[test]
fn test_create_read_only_tool() {
    let tool = create_read_only_tool();
    assert_eq!(tool.name, "platform__tool_by_tool_permission");
    assert!(tool.description.as_ref().is_some_and(|desc| desc.contains("read-only operation")));
}

#[test]
fn test_create_check_messages() {
    let tool_request = request("tool_1", "file_reader", &[("path", "/path/to/file")]);

    let messages = create_check_messages(&vec![tool_request]);
    assert_eq!(messages.len(), 1);
    let content = &messages.first().unwrap().content[0];
    if let MessageContent::Text(text_content) = content {
        assert!(text_content.contains("Analyze the tool requests and list the tools"));
        assert!(text_content.contains("file_reader"));
    } else {
        panic!("Expected text content");
    }
}

#[test]
fn test_extract_read_only_tools() {
    let message = read_only_answer("tool_2", chrono::Utc::now().timestamp());

    let result = extract_read_only_tools(&message);
    assert!(result.is_some());
    let tools = result.unwrap();
    assert_eq!(tools, vec!["file_reader", "data_fetcher"]);
}

#[test]
fn test_detect_read_only_tools() {
    let tool_request = request("tool_1", "file_reader", &[("path", "/path/to/file")]);
    assert!(detection_at(&vec![tool_request], 7).is_some());
    let answer = read_only_answer("mock_tool_request", 7);
    let result = detect_read_only_tools(Some(&answer));
    assert_eq!(result, vec!["file_reader", "data_fetcher"]);
}

#[test]
fn test_detect_read_only_tools_empty_requests() {
    assert!(detection_at(&vec![], 7).is_none());
    let result = detect_read_only_tools(None);
    assert!(result.is_empty());
}

#[test]
fn test_check_tool_permissions_smart_approve() {
    let mut permission_manager = PermissionManager::new();
    let tools_with_readonly_annotation = vec!["file_reader".to_string()];
    let tools_without_annotation = vec!["data_fetcher".to_string()];

    permission_manager.update_user_permission("file_reader", PermissionLevel::AlwaysAllow);
    permission_manager.update_smart_approve_permission("data_fetcher", PermissionLevel::AskBefore);

    let tool_request_1 = request("tool_1", "file_reader", &[("path", "/path/to/file")]);
    let tool_request_2 = request("tool_2", "data_fetcher", &[("url", "http://example.com")]);
    let enable_extension = request(
        "tool_3",
        MANAGE_EXTENSIONS_TOOL_NAME,
        &[("action", "enable"), ("extension_name", "data_fetcher")],
    );
    let candidate_requests = vec![tool_request_1, tool_request_2, enable_extension];

    let names = detect_read_only_tools(Some(&read_only_answer("mock_tool_request", 7)));
    let (result, enable_extension_request_ids) = check_tool_permissions(
        &candidate_requests,
        "smart_approve",
        &tools_with_readonly_annotation,
        &tools_without_annotation,
        &mut permission_manager,
        &names,
    );

    assert_eq!(result.approved.len(), 1);
    assert_eq!(result.needs_approval.len(), 2);
    assert_eq!(result.denied.len(), 0);
    assert_eq!(enable_extension_request_ids.len(), 1);

    assert!(result.approved.iter().any(|req| req.id == "tool_1"));
    assert!(result.needs_approval.iter().any(|req| req.id == "tool_2"));
    assert!(result.needs_approval.iter().any(|req| req.id == "tool_3"));
    assert!(enable_extension_request_ids.iter().any(|id| id == "tool_3"));
}

#[test]
fn test_check_tool_permissions_auto() {
    let mut permission_manager = PermissionManager::new();
    let tools_with_readonly_annotation = vec!["file_reader".to_string()];
    let tools_without_annotation = vec!["data_fetcher".to_string()];

    permission_manager.update_user_permission("file_reader", PermissionLevel::AlwaysAllow);
    permission_manager.update_smart_approve_permission("data_fetcher", PermissionLevel::AskBefore);

    let tool_request_1 = request("tool_1", "file_reader", &[("path", "/path/to/file")]);
    let tool_request_2 = request("tool_2", "data_fetcher", &[("url", "http://example.com")]);
    let candidate_requests = vec![tool_request_1, tool_request_2];

    let (result, _) = check_tool_permissions(
        &candidate_requests,
        "auto",
        &tools_with_readonly_annotation,
        &tools_without_annotation,
        &mut permission_manager,
        &vec![],
    );

    assert_eq!(result.approved.len(), 2);
    assert_eq!(result.needs_approval.len(), 0);
    assert_eq!(result.denied.len(), 0);
}

#[test]
fn detection_sorts_and_is_remembered() {
    let mut p = PermissionManager::new();
    let requests = vec![request("1", "file_reader", &[]), request("2", "shell", &[])];
    let sorting = sort_requests(
        &requests,
        "smart_approve",
        &vec![],
        &vec![s("file_reader"), s("shell")],
        &p,
    );
    assert_eq!(sorting.candidates.len(), 2);
    let (result, _) = apply_detection(sorting, &vec![s("file_reader")], &mut p);
    assert_eq!(result.approved, vec![request("1", "file_reader", &[])]);
    assert_eq!(result.needs_approval, vec![request("2", "shell", &[])]);
    assert_eq!(
        p.get_smart_approve_permission("file_reader"),
        Some(PermissionLevel::AlwaysAllow)
    );
    assert_eq!(p.get_smart_approve_permission("shell"), Some(PermissionLevel::AskBefore));
    assert_eq!(p.get_user_permission("shell"), None);
}

#[test]
fn a_forbidden_tool_is_denied() {
    let mut p = PermissionManager::new();
    p.update_user_permission("shell", PermissionLevel::NeverAllow);
    let requests = vec![request("1", "shell", &[])];
    let (result, _) = check_tool_permissions(
        &requests,
        "approve",
        &vec![],
        &vec![s("shell")],
        &mut p,
        &vec![s("shell")],
    );
    assert!(result.approved.is_empty());
    assert_eq!(result.denied, requests);
}

#[test]
fn chat_mode_sorts_nothing() {
    let mut p = PermissionManager::new();
    let requests = vec![request("1", "shell", &[])];
    let (result, ids) =
        check_tool_permissions(&requests, "chat", &vec![], &vec![], &mut p, &vec![]);
    assert!(result.approved.is_empty());
    assert!(result.needs_approval.is_empty());
    assert!(result.denied.is_empty());
    assert!(ids.is_empty());
}

#[test]
fn check_messages_carry_the_time_and_the_names() {
    let broken = ToolRequest {
        id: s("b"),
        tool_call: Err(ErrorData { code: -1, message: s("bad") }),
    };
    let m = create_check_messages_at(&vec![request("1", "a", &[]), broken, request("2", "b", &[])], 5);
    assert_eq!(m.len(), 1);
    assert_eq!(m[0].created, 5);
    assert_eq!(m[0].role, Role::User);
    let MessageContent::Text(t) = &m[0].content[0] else { panic!("text expected") };
    assert!(t.starts_with("Here are the tool requests: \"a, b\"\n\nAnalyze the tool requests"));
    let quoted = create_check_messages_at(&vec![request("1", "a\"b", &[])], 5);
    let MessageContent::Text(t) = &quoted[0].content[0] else { panic!("text expected") };
    assert!(t.starts_with("Here are the tool requests: \"a\\\"b\"\n"));
    let now = create_check_messages(&vec![request("1", "a", &[])])[0].created;
    assert!((now - chrono::Utc::now().timestamp()).abs() <= 60);
}
