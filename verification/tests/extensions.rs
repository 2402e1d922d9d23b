use goose_core::config_extensions::{
    describe, get_all_extension_names, get_all_extensions, get_enabled_extensions,
    get_extension_by_name, get_extensions_map, is_extension_enabled, list_extension_values,
    name_to_key, remove_extension, set_extension, set_extension_enabled, ExtensionEntry,
    DEFAULT_DISPLAY_NAME, DEFAULT_EXTENSION, DEFAULT_EXTENSION_DESCRIPTION,
    DEFAULT_EXTENSION_TIMEOUT,
};
use goose_core::extension::{ExtensionConfig, ExtensionError, PlatformExtensionDef};
use goose_core::extension_manager::{
    call_outcome, collect_tools, get_parameter_names, normalize, prefix_tools, require_str_parameter,
    ExtensionManager, ServerInfo, ToolListing,
};
use goose_core::extension_resources::{
    describe_resources, find_prompt, list_prompts, merge_listings, prompt_error, prompts_error,
    resources_error, Prompt, ReadStep,
};
use goose_core::json::{parse, Json};
use goose_core::tool::{
    Content, ErrorData, Tool, ToolCall, INTERNAL_ERROR, INVALID_PARAMS, RESOURCE_NOT_FOUND,
};

fn s(t: &str) -> String {
    t.to_string()
}

fn builtin(name: &str, tools: &[&str]) -> ExtensionConfig {
    ExtensionConfig::Builtin {
        name: s(name),
        display_name: Some(s(name)),
        description: s("built-in"),
        timeout: None,
        bundled: None,
        available_tools: tools.iter().map(|t| s(t)).collect(),
    }
}

fn tool(name: &str, description: &str) -> Tool {
    Tool {
        name: s(name),
        title: Some(s("title")),
        description: Some(s(description)),
        input_schema: vec![],
        output_schema: None,
        annotations: None,
        icons: None,
    }
}

fn mock_tools() -> Vec<Tool> {
    vec![
        tool("tool", "A basic tool"),
        tool("available_tool", "An available tool"),
        tool("hidden_tool", "hidden tool"),
    ]
}

fn add_mock_extension_with_tools(m: &mut ExtensionManager, name: &str, client: u64, tools: &[&str]) {
    m.add_client(normalize(s(name)), builtin(name, tools), client, None);
}

fn add_mock_extension(m: &mut ExtensionManager, name: &str, client: u64) {
    add_mock_extension_with_tools(m, name, client, &[]);
}

fn call(name: &str) -> ToolCall {
    ToolCall { name: s(name), arguments: Some(vec![]) }
}

fn prefixed(m: &ExtensionManager) -> Vec<String> {
    let results = m
        .get_prefixed_tools(None)
        .into_iter()
        .map(|(name, e)| {
            let mut listing = ToolListing { name, config: e.config, tools: vec![] };
            assert_eq!(listing.add_page(&mock_tools(), None), None);
            Ok(listing.tools)
        })
        .collect();
    collect_tools(results).unwrap().into_iter().map(|t| t.name).collect()
}

/// Plays a client that knows four tools.
fn mock_call(name: &str) -> Result<Vec<Content>, String> {
    match name {
        "tool" | "test__tool" | "available_tool" | "hidden_tool" => Ok(vec![]),
        _ => Err(s("Transport closed")),
    }
}

#[test]
fn test_get_client_for_tool() {
    let mut extension_manager = ExtensionManager::new();
    add_mock_extension(&mut extension_manager, "test_client", 1);
    add_mock_extension(&mut extension_manager, "__client", 2);
    add_mock_extension(&mut extension_manager, "__cli__ent__", 3);
    add_mock_extension(&mut extension_manager, "client 🚀", 4);

    assert!(extension_manager.get_client_for_tool("test_client__tool").is_some());
    assert!(extension_manager.get_client_for_tool("__client__tool").is_some());
    assert!(extension_manager.get_client_for_tool("__cli__ent____tool").is_some());
    assert!(extension_manager.get_client_for_tool("client___tool").is_some());
    assert_eq!(extension_manager.get_client_for_tool("client___tool"), Some((s("client_"), 4)));
    assert_eq!(extension_manager.get_client_for_tool("other__tool"), None);
}

#[test]
fn test_dispatch_tool_call() {
    let mut extension_manager = ExtensionManager::new();
    add_mock_extension(&mut extension_manager, "test_client", 1);
    add_mock_extension(&mut extension_manager, "__cli__ent__", 2);
    add_mock_extension(&mut extension_manager, "client 🚀", 3);

    assert!(extension_manager.dispatch_tool_call(&call("test_client__tool")).is_ok());
    assert!(extension_manager.dispatch_tool_call(&call("test_client__test__tool")).is_ok());
    assert!(extension_manager.dispatch_tool_call(&call("__cli__ent____tool")).is_ok());
    assert!(extension_manager.dispatch_tool_call(&call("client___tool")).is_ok());
    assert!(extension_manager.dispatch_tool_call(&call("client___test__tool")).is_ok());

    let resolved = extension_manager.dispatch_tool_call(&call("client___tools")).unwrap();
    assert_eq!(resolved.client, 3);
    assert_eq!(resolved.tool_name, "tools");
    let result = call_outcome(mock_call(&resolved.tool_name));
    assert!(matches!(result, Err(ErrorData { code: INTERNAL_ERROR, .. })));
    assert_eq!(
        result,
        Err(ErrorData { code: INTERNAL_ERROR, message: s("Transport closed") })
    );
    let resolved = extension_manager.dispatch_tool_call(&call("client___test__tool")).unwrap();
    assert_eq!(call_outcome(mock_call(&resolved.tool_name)), Ok(vec![]));

    let result = extension_manager.dispatch_tool_call(&call("_client__tools"));
    if let Err(err) = result {
        assert_eq!(err.code, RESOURCE_NOT_FOUND);
    } else {
        panic!("Expected ErrorData with ErrorCode::RESOURCE_NOT_FOUND");
    }
}

#[test]
fn test_tool_availability_filtering() {
    let mut extension_manager = ExtensionManager::new();
    add_mock_extension_with_tools(&mut extension_manager, "test_extension", 1, &["available_tool"]);

    let tool_names = prefixed(&extension_manager);
    assert!(!tool_names.iter().any(|name| name == "test_extension__tool"));
    assert!(tool_names.iter().any(|name| name == "test_extension__available_tool"));
    assert!(!tool_names.iter().any(|name| name == "test_extension__hidden_tool"));
    assert!(tool_names.len() == 1);
}

#[test]
fn test_tool_availability_defaults_to_available() {
    let mut extension_manager = ExtensionManager::new();
    add_mock_extension_with_tools(&mut extension_manager, "test_extension", 1, &[]);

    let tool_names = prefixed(&extension_manager);
    assert!(tool_names.iter().any(|name| name == "test_extension__tool"));
    assert!(tool_names.iter().any(|name| name == "test_extension__available_tool"));
    assert!(tool_names.iter().any(|name| name == "test_extension__hidden_tool"));
    assert!(tool_names.len() == 3);
}

#[test]
fn test_dispatch_unavailable_tool_returns_error() {
    let mut extension_manager = ExtensionManager::new();
    add_mock_extension_with_tools(&mut extension_manager, "test_extension", 1, &["available_tool"]);

    let result = extension_manager.dispatch_tool_call(&call("test_extension__tool"));
    if let Err(err) = result {
        assert_eq!(err.code, RESOURCE_NOT_FOUND);
        assert!(err.message.contains("is not available"));
    } else {
        panic!("Expected ErrorData with ErrorCode::RESOURCE_NOT_FOUND");
    }

    let result = extension_manager.dispatch_tool_call(&call("test_extension__available_tool"));
    assert!(result.is_ok());
}

#[test]
fn names_are_normalized() {
    assert_eq!(normalize(s("My Server!")), "myserver_");
    assert_eq!(normalize(s("client 🚀")), "client_");
    assert_eq!(normalize(s("a-b_C 1")), "a-b_c1");
    assert_eq!(normalize(normalize(s("Ä b\tc"))), normalize(s("Ä b\tc")));
    assert_eq!(normalize(s("ABC")), "abc");
}

#[test]
fn keys_are_dense_and_lower() {
    assert_eq!(name_to_key("My Server"), "myserver");
    assert_eq!(name_to_key(" A\u{a0}B\u{3000}c\n"), "abc");
    assert_eq!(name_to_key("ÄÖ ẞ"), "äöß");
    assert_eq!(name_to_key("Σ"), "Σ".to_lowercase());
    assert_eq!(name_to_key("İ"), "İ".to_lowercase());
}

#[test]
fn default_extension_constants() {
    assert_eq!(DEFAULT_EXTENSION, "developer");
    assert_eq!(DEFAULT_EXTENSION_TIMEOUT, 300);
    assert_eq!(DEFAULT_EXTENSION_DESCRIPTION, "");
    assert_eq!(DEFAULT_DISPLAY_NAME, "Developer");
}

#[test]
fn what_is_set_is_found_until_it_is_removed() {
    let mut m = vec![];
    set_extension(&mut m, ExtensionEntry { enabled: true, config: builtin("My Ext", &[]) });
    assert_eq!(get_all_extension_names(&m), vec![s("myext")]);
    assert!(is_extension_enabled(&m, "myext"));
    assert_eq!(get_extension_by_name(&m, "My Ext"), Some(builtin("My Ext", &[])));
    assert_eq!(get_extension_by_name(&m, "myext"), None);
    set_extension(&mut m, ExtensionEntry { enabled: false, config: builtin("MyExt", &["t"]) });
    assert_eq!(m.len(), 1);
    assert_eq!(get_enabled_extensions(&m), vec![]);
    assert!(set_extension_enabled(&mut m, "myext", true));
    assert!(!set_extension_enabled(&mut m, "nothing", true));
    assert_eq!(get_enabled_extensions(&m), vec![builtin("MyExt", &["t"])]);
    assert_eq!(get_all_extensions(&m).len(), 1);
    remove_extension(&mut m, "myext");
    assert!(m.is_empty());
    assert!(!is_extension_enabled(&m, "myext"));
}

#[test]
fn platform_extensions_join_a_map_that_is_not_empty() {
    let defs = vec![(
        s("todo"),
        PlatformExtensionDef {
            name: s("todo"),
            display_name: s("Todo"),
            description: s("tasks"),
        },
    )];
    assert!(get_extensions_map(&vec![], &defs).is_empty());
    assert!(get_extensions_map(&vec![(s("bad"), None)], &defs).is_empty());
    let list = vec![
        (s("bad"), None),
        (s("a"), Some(ExtensionEntry { enabled: false, config: builtin("a", &[]) })),
    ];
    let m = get_extensions_map(&list, &defs);
    assert_eq!(get_all_extension_names(&m), vec![s("a"), s("todo")]);
    assert_eq!(
        m[1].1,
        ExtensionEntry {
            enabled: true,
            config: ExtensionConfig::Platform {
                name: s("todo"),
                display_name: Some(s("Todo")),
                description: s("tasks"),
                bundled: Some(true),
                available_tools: vec![],
            },
        }
    );
}

#[test]
fn values_without_a_description_get_an_empty_one() {
    let raw = parse(r#"{"a": {"x": 1}, "b": {"description": null}, "c": {"description": "d"}, "e": 3}"#)
        .unwrap();
    let list = list_extension_values(Some(&raw));
    assert_eq!(list.len(), 4);
    assert_eq!(list[0].1.get_str("description"), Some(&s("")));
    assert_eq!(list[1].1.get_str("description"), Some(&s("")));
    assert_eq!(list[2].1.get_str("description"), Some(&s("d")));
    assert_eq!(list[3].1.get("description"), None);
    assert!(list_extension_values(None).is_empty());
    assert!(list_extension_values(Some(&Json::Bool(true))).is_empty());
    assert_eq!(describe(&Json::Null), Json::Null);
}

#[test]
fn prefixed_tools_lose_title_and_icons() {
    let out = prefix_tools("ext", &builtin("ext", &["tool"]), &mock_tools());
    assert_eq!(out.len(), 1);
    assert_eq!(out[0].name, "ext__tool");
    assert_eq!(out[0].title, None);
    assert_eq!(out[0].description, Some(s("A basic tool")));
}

#[test]
fn a_failed_listing_fails_the_collection() {
    let e = ExtensionError::SetupError(s("x"));
    assert_eq!(
        collect_tools(vec![Ok(vec![tool("a", "")]), Err(e)]),
        Err(ExtensionError::SetupError(s("x")))
    );
}

#[test]
fn parameters_are_named_by_the_schema() {
    let mut t = tool("t", "");
    assert_eq!(get_parameter_names(&t), Vec::<String>::new());
    let Some(Json::Object(fields)) =
        parse(r#"{"type": "object", "properties": {"b": {}, "a": {}}}"#)
    else {
        panic!("object expected")
    };
    t.input_schema = fields;
    let mut names = get_parameter_names(&t);
    names.sort();
    assert_eq!(names, vec![s("a"), s("b")]);
}

#[test]
fn required_parameters_are_texts() {
    let j = parse(r#"{"uri": "x", "n": 3}"#).unwrap();
    assert_eq!(require_str_parameter(&j, "uri"), Ok(&s("x")));
    assert_eq!(
        require_str_parameter(&j, "n"),
        Err(ErrorData { code: INVALID_PARAMS, message: s("The parameter n must be a string") })
    );
    assert_eq!(
        require_str_parameter(&j, "m"),
        Err(ErrorData { code: INVALID_PARAMS, message: s("The parameter m is required") })
    );
}

fn with_resources() -> ExtensionManager {
    let mut m = ExtensionManager::new();
    let info = ServerInfo { has_resources: true, instructions: Some(s("use me")) };
    m.add_client(s("one"), builtin("one", &[]), 1, Some(info));
    m.add_client(s("two"), builtin("two", &[]), 2, None);
    m
}

#[test]
fn connected_extensions_tell_of_themselves() {
    let mut m = with_resources();
    assert!(m.supports_resources());
    let info = m.get_extensions_info();
    assert_eq!(info.len(), 2);
    let one = info.iter().find(|i| i.name == "one").unwrap();
    assert_eq!(one.instructions, "use me");
    assert!(one.has_resources);
    let two = info.iter().find(|i| i.name == "two").unwrap();
    assert_eq!(two.instructions, "");
    assert!(!two.has_resources);
    assert_eq!(m.list_extensions().len(), 2);
    assert_eq!(m.get_extension_configs().len(), 2);
    assert_eq!(m.get_server_client("one"), Some(1));
    assert_eq!(m.get_server_client("three"), None);
    m.remove_extension("One ");
    assert_eq!(m.list_extensions(), vec![s("two")]);
    assert!(!m.supports_resources());
    assert_eq!(m.get_prefixed_tools(Some("two")).len(), 1);
    assert_eq!(m.get_prefixed_tools(Some("one")).len(), 0);
}

#[test]
fn many_extensions_are_suggested_to_be_disabled() {
    let mut m = ExtensionManager::new();
    assert_eq!(m.suggest_disable_extensions_prompt(0), "");
    for i in 0..6 {
        m.add_client(format!("e{i}"), builtin("e", &[]), i, None);
    }
    let t = m.suggest_disable_extensions_prompt(10);
    assert!(t.contains("6"));
    assert!(t.contains("10"));
    let few = ExtensionManager::new();
    assert!(few.suggest_disable_extensions_prompt(51).contains("51"));
}

#[test]
fn a_search_tells_what_can_be_enabled_and_disabled() {
    let mut m = ExtensionManager::new();
    m.add_client(s("on"), builtin("on", &[]), 1, None);
    let entries = vec![
        ExtensionEntry { enabled: true, config: builtin("on", &[]) },
        ExtensionEntry { enabled: false, config: builtin("off", &[]) },
    ];
    let out = m.search_available_extensions(&entries);
    let Content::Text(t) = &out[0] else { panic!("text expected") };
    assert!(t.starts_with("Extensions available to enable:\n"));
    assert!(t.contains("off"));
    assert!(t.contains("\n\nExtensions available to disable:\n"));
    assert_eq!(out.len(), 1);
    let none = ExtensionManager::new().search_available_extensions(&vec![]);
    let Content::Text(t) = &none[0] else { panic!("text expected") };
    assert!(t.starts_with("No extensions available to enable.\n"));
}

#[test]
fn a_resource_is_read_from_the_first_that_has_it() {
    let mut m = with_resources();
    let info = ServerInfo { has_resources: true, instructions: None };
    m.add_client(s("three"), builtin("three", &[]), 3, Some(info));
    let params = parse(r#"{"uri": "file:///a"}"#).unwrap();
    let mut read = m.read_resource(&params).unwrap();
    let ReadStep::Read(first) = read.next() else { panic!("a client expected") };
    let ReadStep::Read(second) = read.answered(None) else { panic!("a client expected") };
    assert_ne!(first, second);
    let ReadStep::Done(Ok(content)) = read.answered(Some(vec![Some(s("hello")), None])) else {
        panic!("content expected")
    };
    assert_eq!(content, vec![Content::Text(s("file:///a\n\nhello"))]);
}

#[test]
fn a_resource_that_nobody_has_is_an_error() {
    let m = with_resources();
    let params = parse(r#"{"uri": "file:///a"}"#).unwrap();
    let mut read = m.read_resource(&params).unwrap();
    let mut asked = vec![];
    let mut step = read.next();
    while let ReadStep::Read(client) = step {
        asked.push(client);
        step = read.answered(None);
    }
    assert!(asked.contains(&1));
    let ReadStep::Done(Err(e)) = step else { panic!("an error expected") };
    assert_eq!(e.code, RESOURCE_NOT_FOUND);
    assert!(e.message.contains("file:///a"));
    assert_eq!(m.read_resource(&parse("{}").unwrap()).unwrap_err().code, INVALID_PARAMS);
    let params = parse(r#"{"uri": "file:///a", "extension_name": "nine"}"#).unwrap();
    assert_eq!(m.read_resource(&params).unwrap_err().code, INVALID_PARAMS);
}

#[test]
fn resources_are_listed_line_by_line() {
    let list = vec![(s("a"), s("file:///a")), (s("b"), s("file:///b"))];
    let Ok(content) = describe_resources("one", &list) else { panic!("content expected") };
    let Content::Text(t) = &content[0] else { panic!("text expected") };
    assert!(t.contains("one - a, uri: (file:///a)"));
    let merged = merge_listings(&vec![
        Ok(vec![Content::Text(s("x"))]),
        Err(ErrorData { code: 1, message: s("no") }),
        Ok(vec![Content::Text(s("y"))]),
    ]);
    assert_eq!(merged, vec![Content::Text(s("x")), Content::Text(s("y"))]);
    assert_eq!(resources_error("one", "bad").code, INTERNAL_ERROR);
    assert!(prompts_error("one", "bad").message.contains("one"));
}

#[test]
fn prompts_are_found_in_the_extension_that_has_them() {
    let listed = list_prompts(&vec![
        (s("one"), Ok(vec![Prompt { name: s("p"), handle: 1 }])),
        (s("two"), Err(ErrorData { code: 1, message: s("no") })),
        (s("three"), Ok(vec![])),
    ]);
    assert_eq!(find_prompt(&listed, "p"), Ok(s("one")));
    assert_eq!(find_prompt(&listed, "q"), Err(s("Prompt 'q' not found")));
    assert_eq!(prompt_error("x"), "Failed to get prompt: x");
    let m = with_resources();
    assert_eq!(m.get_prompt("one"), Ok(1));
    assert!(m.get_prompt("nine").unwrap_err().contains("nine"));
}

#[test]
fn the_longest_key_owns_a_tool() {
    for order in [["test", "test_client", "test_client__sub"], ["test_client__sub", "test", "test_client"]] {
        let mut m = ExtensionManager::new();
        for name in order {
            m.add_client(s(name), builtin(name, &[]), name.len() as u64, None);
        }
        assert_eq!(m.get_client_for_tool("test_client__tool"), Some((s("test_client"), 11)));
        assert_eq!(m.get_client_for_tool("test__tool"), Some((s("test"), 4)));
        assert_eq!(m.get_client_for_tool("test_client__sub__x"), Some((s("test_client__sub"), 16)));
        assert_eq!(m.get_client_for_tool("test_client"), None);
        assert_eq!(m.get_client_for_tool("testing__tool"), None);
        let r = m.dispatch_tool_call(&call("test_client__tool")).unwrap();
        assert_eq!((r.client, r.tool_name), (11, s("tool")));
        let r = m.dispatch_tool_call(&call("Test Client__Tool")).unwrap_err();
        assert_eq!(r.message, "Test Client__Tool");
        assert_eq!(m.get_client_for_tool("Test _Client__Tool"), None);
    }
}

#[test]
fn a_named_extension_is_the_only_one_listed() {
    let mut m = ExtensionManager::new();
    let info = || Some(ServerInfo { has_resources: true, instructions: None });
    m.add_client(s("ext_a"), builtin("ext_a", &[]), 1, info());
    m.add_client(s("ext_b"), builtin("ext_b", &[]), 2, info());
    let plan = m.list_resources(&parse(r#"{"extension_name": "ext_a"}"#).unwrap()).unwrap();
    assert!(plan.single);
    assert_eq!(plan.targets, vec![(s("ext_a"), 1)]);
    let plan = m.list_resources(&parse("{}").unwrap()).unwrap();
    assert!(!plan.single);
    assert_eq!(plan.targets, vec![(s("ext_a"), 1), (s("ext_b"), 2)]);
    let e = m.list_resources(&parse(r#"{"extension_name": "nine"}"#).unwrap()).unwrap_err();
    assert_eq!(e, ErrorData { code: INVALID_PARAMS, message: s("Extension nine is not valid") });
}

#[test]
fn blanks_and_case_do_not_count_in_a_key() {
    assert_eq!(name_to_key("My Ext"), name_to_key("m yEX\tt"));
    let key = name_to_key("My Ext 2");
    assert_eq!(name_to_key(&key), key);
    assert!(!key.chars().any(char::is_whitespace));
    assert_eq!(key, key.to_lowercase());
}

#[test]
fn names_that_only_look_alike_are_not_found() {
    let mut m = ExtensionManager::new();
    m.add_client(s("test"), builtin("test", &[]), 1, None);
    add_mock_extension(&mut m, "client 🚀", 2);
    assert_eq!(m.list_extensions(), vec![s("test"), s("client_")]);
    for name in ["TEST__tool", "T e s t__tool", "client!__tool", "Client 🚀__tool", "test_tool"] {
        assert_eq!(m.get_client_for_tool(name), None, "{name}");
        assert_eq!(
            m.dispatch_tool_call(&call(name)),
            Err(ErrorData { code: RESOURCE_NOT_FOUND, message: s(name) })
        );
    }
    let r = m.dispatch_tool_call(&call("client 🚀__tool__x")).unwrap();
    assert_eq!((r.client_name, r.client, r.tool_name), (s("client_"), 2, s("tool__x")));
}
