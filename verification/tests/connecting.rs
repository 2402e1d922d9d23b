use goose_core::add_extension::{
    check_headers, python_command_args, AddAction, AddEvent, AddExtension, AddPhase,
};
use goose_core::extension::{ExtensionConfig, ExtensionError};
use goose_core::json::Json;

fn s(t: &str) -> String {
    t.to_string()
}

fn stdio(keys: &[&str]) -> ExtensionConfig {
    ExtensionConfig::Stdio {
        name: s("My Ext"),
        description: s(""),
        cmd: s("npx"),
        args: vec![s("-y")],
        envs: vec![(s("A"), s("1"))],
        env_keys: keys.iter().map(|k| s(k)).collect(),
        timeout: None,
        bundled: None,
        available_tools: vec![],
    }
}

fn http(headers: &[(&str, &str)]) -> ExtensionConfig {
    ExtensionConfig::StreamableHttp {
        name: s("web"),
        description: s(""),
        uri: s("https://x"),
        envs: vec![],
        env_keys: vec![],
        headers: headers.iter().map(|(k, v)| (s(k), s(v))).collect(),
        timeout: Some(5),
        bundled: None,
        available_tools: vec![],
    }
}

#[test]
fn a_command_gets_its_secrets() {
    let (mut a, first) = AddExtension::start(stdio(&["A", "B", "C"]), &vec![]);
    assert_eq!(first, AddAction::FetchSecret(s("B")));
    assert_eq!(
        a.step(AddEvent::Secret(Ok(Json::Text(s("2"))))),
        AddAction::FetchSecret(s("C"))
    );
    assert_eq!(
        a.step(AddEvent::Secret(Ok(Json::Bool(true)))),
        AddAction::CheckCommand { cmd: s("npx"), args: vec![s("-y")] }
    );
    assert_eq!(
        a.step(AddEvent::CommandAllowed),
        AddAction::Spawn {
            cmd: s("npx"),
            args: vec![s("-y")],
            envs: vec![(s("A"), s("1")), (s("B"), s("2"))],
            timeout: 300,
        }
    );
    assert_eq!(
        a.step(AddEvent::Connected { client: 9, info: None }),
        AddAction::Keep { name: s("myext"), client: 9, info: None }
    );
    assert_eq!(a.phase, AddPhase::Closed);
    assert_eq!(a.step(AddEvent::CommandAllowed), AddAction::Wait);
}

#[test]
fn a_missing_secret_fails() {
    let (mut a, _) = AddExtension::start(stdio(&["B"]), &vec![]);
    assert_eq!(
        a.step(AddEvent::Secret(Err(s("none")))),
        AddAction::Fail(ExtensionError::ConfigError(s(
            "Failed to fetch secret 'B' from config: none"
        )))
    );
}

#[test]
fn headers_are_checked() {
    assert_eq!(
        check_headers(&vec![(s("X-Key"), s("a")), (s("x-key"), s("b")), (s("Other"), s(""))]),
        Ok(vec![(s("x-key"), s("b")), (s("other"), s(""))])
    );
    assert_eq!(
        check_headers(&vec![(s("bad name"), s("a"))]),
        Err(ExtensionError::ConfigError(s("invalid header: bad name")))
    );
    assert_eq!(
        check_headers(&vec![(s("ok"), s("a\nb"))]),
        Err(ExtensionError::ConfigError(s("invalid header value: ok")))
    );
}

#[test]
fn a_server_may_ask_for_authorization() {
    let (mut a, first) = AddExtension::start(http(&[("Authorization", "Bearer x")]), &vec![]);
    assert_eq!(
        first,
        AddAction::ConnectHttp {
            uri: s("https://x"),
            headers: vec![(s("authorization"), s("Bearer x"))],
            timeout: 5,
        }
    );
    assert_eq!(
        a.step(AddEvent::AuthorizationRequired),
        AddAction::Authorize { uri: s("https://x"), name: s("web") }
    );
    assert_eq!(
        a.step(AddEvent::Authorized),
        AddAction::ConnectAuthorized { uri: s("https://x"), timeout: 5 }
    );
    let (mut a, _) = AddExtension::start(http(&[]), &vec![]);
    a.step(AddEvent::AuthorizationRequired);
    assert_eq!(
        a.step(AddEvent::AuthorizationFailed),
        AddAction::Fail(ExtensionError::SetupError(s("auth error")))
    );
    let (mut a, _) = AddExtension::start(http(&[]), &vec![]);
    assert_eq!(
        a.step(AddEvent::HttpClientUnavailable),
        AddAction::Fail(ExtensionError::ConfigError(s("could not construct http client")))
    );
    let (_, first) = AddExtension::start(http(&[("é", "x")]), &vec![]);
    assert_eq!(
        first,
        AddAction::Fail(ExtensionError::ConfigError(s("invalid header: é")))
    );
}

#[test]
fn platform_extensions_have_to_be_known() {
    let platform = || ExtensionConfig::Platform {
        name: s("todo"),
        display_name: None,
        description: s(""),
        bundled: None,
        available_tools: vec![],
    };
    let (_, first) = AddExtension::start(platform(), &vec![s("todo")]);
    assert_eq!(first, AddAction::CreatePlatform { name: s("todo") });
    let (_, first) = AddExtension::start(platform(), &vec![]);
    assert_eq!(
        first,
        AddAction::Fail(ExtensionError::ConfigError(s("Unknown platform extension: todo")))
    );
}

#[test]
fn other_kinds_start_in_their_way() {
    let builtin = ExtensionConfig::Builtin {
        name: s("memory"),
        display_name: None,
        description: s(""),
        timeout: Some(7),
        bundled: None,
        available_tools: vec![],
    };
    let (mut a, first) = AddExtension::start(builtin, &vec![]);
    assert_eq!(first, AddAction::ResolveExecutable);
    assert_eq!(
        a.step(AddEvent::Executable(Ok(s("/bin/goose")))),
        AddAction::Spawn {
            cmd: s("/bin/goose"),
            args: vec![s("mcp"), s("memory")],
            envs: vec![],
            timeout: 7,
        }
    );
    assert_eq!(
        a.step(AddEvent::Failed(ExtensionError::Other(s("x")))),
        AddAction::Fail(ExtensionError::Other(s("x")))
    );
    let python = ExtensionConfig::InlinePython {
        name: s("py"),
        description: s(""),
        code: s("print()"),
        timeout: None,
        dependencies: Some(vec![s("numpy")]),
        available_tools: vec![],
    };
    let (mut a, first) = AddExtension::start(python, &vec![]);
    assert_eq!(first, AddAction::WriteScript { file_name: s("py.py"), code: s("print()") });
    assert_eq!(
        a.step(AddEvent::Script(s("/tmp/py.py"))),
        AddAction::Spawn {
            cmd: s("uvx"),
            args: ["--with", "mcp", "--with", "numpy", "python", "/tmp/py.py"].map(s).to_vec(),
            envs: vec![],
            timeout: 300,
        }
    );
    assert_eq!(
        python_command_args(&None, s("f")),
        ["--with", "mcp", "python", "f"].map(s).to_vec()
    );
    let frontend = ExtensionConfig::Frontend {
        name: s("ui"),
        description: s(""),
        tools: vec![],
        instructions: None,
        bundled: None,
        available_tools: vec![],
    };
    let (_, first) = AddExtension::start(frontend, &vec![]);
    assert_eq!(
        first,
        AddAction::Fail(ExtensionError::ConfigError(s(
            "Invalid extension type: Frontend extensions cannot be added as server extensions"
        )))
    );
    let sse = ExtensionConfig::Sse {
        name: s("ev"),
        description: s(""),
        uri: s("http://e"),
        envs: vec![],
        env_keys: vec![],
        timeout: None,
        bundled: None,
        available_tools: vec![],
    };
    let (_, first) = AddExtension::start(sse, &vec![]);
    assert_eq!(first, AddAction::ConnectSse { uri: s("http://e"), timeout: 300 });
}
