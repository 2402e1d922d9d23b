use goose_core::config_extensions::{ExtensionEntry, ExtensionsMap};
use goose_core::configure::{
    configure_target, login_finished, manual_finished, setup_method, ConfigFailure,
    ConfigureTarget, Notice, NoticeLabel, Platform, SetupAction, SetupMethod, SetupOutcome,
};
use goose_core::configure_extensions::{
    builtin_extensions, check_description, check_name, check_target, check_timeout,
    extension_status, names_marked, removable_extensions, remove_extension_dialog, split_command,
    toggle_extensions_dialog, ConfigureExtensionsDialog, DialogAction, DialogAnswer,
    ExtensionKind, ExtensionQuestion, RemoveOffer,
};
use goose_core::configure_provider::{
    filter_models, offer_results, recommended_models, sample_tool, ConfigKey,
    ConfigureProviderDialog, ModelSelection, ProviderAction, ProviderEvent, ProviderMetadata,
    SelectAction, SelectPhase,
};
use goose_core::configure_settings::{
    configure_goose_mode_dialog, configure_goose_router_strategy_dialog,
    configure_max_turns_dialog, configure_recipe_dialog, configure_scheduler_dialog,
    configure_settings_dialog, configure_tool_output_dialog, current_max_turns, current_scheduler,
    default_recipe_repo, override_notice, parse_level, permission_label,
    toggle_experiments_dialog, PermissionAction, PermissionEvent, SettingKind,
    ToolPermissionsDialog,
};
use goose_core::extension::{ExtensionConfig, PermissionLevel};
use goose_core::menu::{find_item, Item, SettingValue};
use goose_core::permission_judge::PermissionManager;
use goose_core::provider_login::{
    add_provider, check_api_url, check_models, check_provider_name,
    configure_custom_provider_dialog, developer_extension, handle_oauth_configuration,
    oauth_notice, parse_models, provider_added, provider_removed, remove_provider,
    CustomProviderAction, LoginAction, LoginEvent, LoginService, OauthOutcome, ProviderLogin,
};
use goose_core::tool::Tool;

fn s(t: &str) -> String {
    t.to_string()
}

fn item(value: &str, label: &str, hint: &str) -> Item {
    Item { value: s(value), label: s(label), hint: s(hint) }
}

fn choice(t: &str) -> DialogAnswer {
    DialogAnswer::Choice(s(t))
}

fn answer(t: &str) -> DialogAnswer {
    DialogAnswer::Text(s(t))
}

fn ask(q: ExtensionQuestion) -> DialogAction {
    DialogAction::Ask(q)
}

#[test]
fn a_builtin_extension_is_enabled() {
    let mut d = ConfigureExtensionsDialog::new(vec![]);
    assert_eq!(d.step(choice("built-in")), ask(ExtensionQuestion::Builtin));
    assert_eq!(d.step(choice("developer")), ask(ExtensionQuestion::Timeout));
    assert_eq!(d.step(answer("soon")), DialogAction::Refuse(s("Please enter a valid timeout")));
    assert_eq!(
        d.step(answer("60")),
        DialogAction::Save {
            entry: ExtensionEntry {
                enabled: true,
                config: ExtensionConfig::Builtin {
                    name: s("developer"),
                    display_name: Some(s("Developer Tools")),
                    description: s("Code editing and shell access"),
                    timeout: Some(60),
                    bundled: Some(true),
                    available_tools: vec![],
                },
            },
            added: false,
        }
    );
    assert_eq!(d.step(answer("60")), DialogAction::Nothing);
    assert_eq!(builtin_extensions().len(), 6);
    assert_eq!(
        find_item(&builtin_extensions(), "memory"),
        Some(item("memory", "Memory", "Tools to save and retrieve durable memories"))
    );
}

#[test]
fn a_command_is_added_with_its_environment() {
    let mut d = ConfigureExtensionsDialog::new(vec![s("taken")]);
    assert_eq!(d.step(choice("stdio")), ask(ExtensionQuestion::Name));
    assert_eq!(d.step(answer("")), DialogAction::Refuse(s("Please enter a name")));
    assert_eq!(
        d.step(answer("taken")),
        DialogAction::Refuse(s("An extension with this name already exists"))
    );
    assert_eq!(d.step(answer("mine")), ask(ExtensionQuestion::Target));
    assert_eq!(d.step(answer("")), DialogAction::Refuse(s("Please enter a command")));
    assert_eq!(d.step(answer("npx -y  @block/gdrive")), ask(ExtensionQuestion::Timeout));
    assert_eq!(d.step(answer("300")), ask(ExtensionQuestion::Description));
    assert_eq!(d.step(answer("")), ask(ExtensionQuestion::AddEnvs));
    assert_eq!(d.step(DialogAnswer::Confirmed(true)), ask(ExtensionQuestion::EnvName));
    assert_eq!(d.step(answer("KEY")), ask(ExtensionQuestion::EnvValue));
    assert_eq!(
        d.step(answer("v1")),
        DialogAction::StoreSecret { key: s("KEY"), value: s("v1") }
    );
    assert_eq!(d.step(DialogAnswer::Stored(true)), ask(ExtensionQuestion::AnotherEnv));
    assert_eq!(d.step(DialogAnswer::Confirmed(true)), ask(ExtensionQuestion::EnvName));
    d.step(answer("OTHER"));
    d.step(answer("v2"));
    d.step(DialogAnswer::Stored(false));
    assert_eq!(
        d.step(DialogAnswer::Confirmed(false)),
        DialogAction::Save {
            entry: ExtensionEntry {
                enabled: true,
                config: ExtensionConfig::Stdio {
                    name: s("mine"),
                    description: s(""),
                    cmd: s("npx"),
                    args: vec![s("-y"), s("@block/gdrive")],
                    envs: vec![(s("OTHER"), s("v2"))],
                    env_keys: vec![s("KEY")],
                    timeout: Some(300),
                    bundled: None,
                    available_tools: vec![],
                },
            },
            added: true,
        }
    );
}

#[test]
fn a_streaming_server_is_added_with_headers() {
    let mut d = ConfigureExtensionsDialog::new(vec![]);
    d.step(choice("streamable_http"));
    d.step(answer("web"));
    assert_eq!(
        d.step(answer("httpx://a")),
        DialogAction::Refuse(s("URI should start with http:// or https://"))
    );
    d.step(answer("https://a"));
    d.step(answer("5"));
    assert_eq!(
        d.step(answer("  ")),
        DialogAction::Refuse(s("Please enter a valid description"))
    );
    assert_eq!(d.step(answer("d")), ask(ExtensionQuestion::AddHeaders));
    assert_eq!(d.step(DialogAnswer::Confirmed(true)), ask(ExtensionQuestion::HeaderName));
    d.step(answer("Authorization"));
    assert_eq!(d.step(answer("Bearer x")), ask(ExtensionQuestion::AnotherHeader));
    assert_eq!(
        d.step(DialogAnswer::Confirmed(false)),
        DialogAction::Save {
            entry: ExtensionEntry {
                enabled: true,
                config: ExtensionConfig::StreamableHttp {
                    name: s("web"),
                    description: s("d"),
                    uri: s("https://a"),
                    envs: vec![],
                    env_keys: vec![],
                    headers: vec![(s("Authorization"), s("Bearer x"))],
                    timeout: Some(5),
                    bundled: None,
                    available_tools: vec![],
                },
            },
            added: true,
        }
    );
}

#[test]
fn answers_are_checked() {
    assert_eq!(check_name("a", &vec![s("b")]), None);
    assert_eq!(check_target(ExtensionKind::Sse, ""), Some(s("Please enter a URI")));
    assert_eq!(
        check_target(ExtensionKind::Sse, "ftp://x"),
        Some(s("URI should start with http:// or https://"))
    );
    assert_eq!(check_target(ExtensionKind::Sse, "httpx"), None);
    assert_eq!(check_target(ExtensionKind::StreamableHttp, ""), Some(s("Please enter a URI")));
    assert_eq!(check_target(ExtensionKind::StreamableHttp, "http://x"), None);
    assert_eq!(check_timeout("-1"), Some(s("Please enter a valid timeout")));
    assert_eq!(check_timeout("1"), None);
    assert_eq!(check_description(ExtensionKind::Sse, ""), None);
    assert_eq!(split_command("  "), (s(""), vec![]));
    assert_eq!(split_command("a b c"), (s("a"), vec![s("b"), s("c")]));
    let mut d = ConfigureExtensionsDialog::new(vec![]);
    assert_eq!(d.step(choice("sse")), ask(ExtensionQuestion::Name));
    assert_eq!(d.step(choice("sse")), DialogAction::Nothing);
}

fn builtin(name: &str) -> ExtensionConfig {
    ExtensionConfig::Builtin {
        name: s(name),
        display_name: None,
        description: s(""),
        timeout: None,
        bundled: None,
        available_tools: vec![],
    }
}

fn entries(list: &[(&str, bool)]) -> Vec<ExtensionEntry> {
    list.iter().map(|(n, e)| ExtensionEntry { enabled: *e, config: builtin(n) }).collect()
}

fn map(list: &[(&str, bool)]) -> ExtensionsMap {
    list.iter()
        .map(|(n, e)| {
            (
                goose_core::config_extensions::name_to_key(n),
                ExtensionEntry { enabled: *e, config: builtin(n) },
            )
        })
        .collect()
}

#[test]
fn extensions_are_toggled() {
    let list = entries(&[("b", true), ("a", false), ("C d", true)]);
    let status = extension_status(&list);
    assert_eq!(status, vec![(s("C d"), true), (s("a"), false), (s("b"), true)]);
    assert_eq!(names_marked(&status, true), vec![s("C d"), s("b")]);
    let mut m = map(&[("b", true), ("a", false), ("C d", true), ("z", true)]);
    toggle_extensions_dialog(
        &mut m,
        &vec![s("C d"), s("a"), s("b")],
        &vec![s("a"), s("C d")],
    );
    assert_eq!(m, map(&[("b", false), ("a", true), ("C d", true), ("z", true)]));
}

#[test]
fn only_disabled_extensions_are_removed() {
    assert_eq!(removable_extensions(&vec![]), RemoveOffer::NoExtensions);
    assert_eq!(removable_extensions(&entries(&[("a", true)])), RemoveOffer::AllEnabled);
    assert_eq!(
        removable_extensions(&entries(&[("b", false), ("a", true), ("c", false)])),
        RemoveOffer::Disabled(vec![s("b"), s("c")])
    );
    let mut m = map(&[("My X", false), ("a", true)]);
    assert_eq!(remove_extension_dialog(&mut m, &vec![s("My X")]), vec![s("myx")]);
    assert_eq!(m, map(&[("a", true)]));
}

fn models(n: usize) -> Vec<String> {
    (0..n).map(|i| format!("Model-{i}")).collect()
}

#[test]
fn a_few_models_are_all_offered() {
    let (mut m, a) = ModelSelection::select_model_from_list(models(10), &vec![]);
    let SelectAction::Choose(items) = a else { panic!("a choice expected") };
    assert_eq!(items.len(), 10);
    assert_eq!(items[0], item("Model-0", "Model-0", ""));
    assert_eq!(m.step(s("search_all")), SelectAction::Take(s("search_all")));
    assert_eq!(m.step(s("x")), SelectAction::Nothing);
}

#[test]
fn many_models_are_searched() {
    let known = vec![s("Model-3"), s("unknown")];
    let (mut m, a) = ModelSelection::select_model_from_list(models(100), &known);
    assert_eq!(
        a,
        SelectAction::Choose(vec![
            item("search_all", "Search all models...", "Search complete model list"),
            item("Model-3", "Model-3", "Recommended"),
        ])
    );
    assert_eq!(
        m.step(s("search_all")),
        SelectAction::Search {
            warning: None,
            info: s("🔍 100 models available. Type to filter."),
            query: s(""),
        }
    );
    let SelectAction::Search { warning, query, .. } = m.step(s(" nothing ")) else {
        panic!("a search expected")
    };
    assert_eq!(warning, Some(s("No matching models. Try a different search.")));
    assert_eq!(query, "nothing");
    let SelectAction::Choose(items) = m.step(s("")) else { panic!("a choice expected") };
    assert_eq!(items.len(), 31);
    assert_eq!(
        items[0],
        item(
            "__refine__",
            "Refine search to see more (showing 30 of 100 results)",
            "Too many matches"
        )
    );
    m.step(s("__refine__"));
    let SelectAction::Choose(items) = m.step(s("MODEL-9 ")) else { panic!("a choice expected") };
    assert_eq!(items.len(), 12);
    assert_eq!(
        items[0],
        item("__new_search__", "Start a new search...", "Enter a different search term")
    );
    assert_eq!(items[1].value, "Model-9");
    let SelectAction::Search { query, .. } = m.step(s("__new_search__")) else {
        panic!("a search expected")
    };
    assert_eq!(query, "");
    m.step(s("model-99"));
    assert_eq!(m.step(s("Model-99")), SelectAction::Take(s("Model-99")));
    assert_eq!(m.phase, SelectPhase::Selected);
    let (_, a) = ModelSelection::select_model_from_list(models(11), &vec![]);
    assert!(matches!(a, SelectAction::Search { .. }));
    assert_eq!(filter_models(&vec![s("ÄB"), s("c")], "äb"), vec![s("ÄB")]);
    assert_eq!(recommended_models(&vec![s("b"), s("a")], &vec![s("a"), s("b")]), vec![s("b"), s("a")]);
    assert_eq!(offer_results(&models(30)).len(), 31);
}

fn key(name: &str, secret: bool, oauth: bool, required: bool) -> ConfigKey {
    ConfigKey {
        name: s(name),
        required,
        secret,
        default: Some(s("default")),
        oauth_flow: oauth,
    }
}

fn provider(name: &str, display: &str, keys: Vec<ConfigKey>) -> ProviderMetadata {
    ProviderMetadata {
        name: s(name),
        display_name: s(display),
        description: s("about"),
        default_model: s("dm"),
        known_models: vec![s("km")],
        config_keys: keys,
    }
}

fn dialog(keys: Vec<ConfigKey>) -> (ConfigureProviderDialog, Vec<ProviderAction>) {
    let list = vec![provider("zz", "Alpha", keys), provider("aa", "Beta", vec![])];
    let (mut d, a) = ConfigureProviderDialog::start(&list, Some(s("aa")));
    assert_eq!(
        a,
        vec![ProviderAction::ChooseProvider {
            items: vec![item("zz", "Alpha", "about"), item("aa", "Beta", "about")],
            initial: s("aa"),
        }]
    );
    let a = d.step(ProviderEvent::Chosen(s("zz")));
    (d, a)
}

#[test]
fn providers_are_offered_by_their_display_names() {
    let list = vec![provider("1", "b", vec![]), provider("2", "a", vec![])];
    let (_, a) = ConfigureProviderDialog::start(&list, None);
    let ProviderAction::ChooseProvider { items, initial } = &a[0] else {
        panic!("a choice expected")
    };
    assert_eq!(items[0].label, "a");
    assert_eq!(initial, "");
}

#[test]
fn required_values_are_entered() {
    let keys = vec![
        key("OPT", false, false, false),
        key("ENV", true, false, true),
        key("OLD", false, false, true),
        key("NEW", false, false, true),
        key("SECRET", true, false, true),
        key("OAUTH", false, true, true),
    ];
    let (mut d, a) = dialog(keys);
    assert_eq!(a, vec![ProviderAction::ReadEnv(s("ENV"))]);
    assert_eq!(
        d.step(ProviderEvent::Env(Some(s("v")))),
        vec![
            ProviderAction::Info(s("ENV is set via environment variable")),
            ProviderAction::ConfirmSave,
        ]
    );
    assert_eq!(
        d.step(ProviderEvent::Confirmed(true)),
        vec![ProviderAction::SaveValue { key: s("ENV"), content: s("v"), secret: true }]
    );
    assert_eq!(
        d.step(ProviderEvent::Done),
        vec![
            ProviderAction::Info(s("Saved ENV to config file")),
            ProviderAction::ReadEnv(s("OLD")),
        ]
    );
    assert_eq!(
        d.step(ProviderEvent::Env(None)),
        vec![ProviderAction::ReadStored { key: s("OLD"), secret: false }]
    );
    assert_eq!(
        d.step(ProviderEvent::Stored(true)),
        vec![
            ProviderAction::Info(s("OLD is already configured")),
            ProviderAction::ConfirmUpdate,
        ]
    );
    assert_eq!(
        d.step(ProviderEvent::Confirmed(true)),
        vec![ProviderAction::AskValue {
            prompt: s("Enter new value for OLD"),
            secret: false,
            default: Some(s("default")),
        }]
    );
    assert_eq!(
        d.step(ProviderEvent::Text(s("n"))),
        vec![ProviderAction::SaveValue { key: s("OLD"), content: s("n"), secret: false }]
    );
    assert_eq!(d.step(ProviderEvent::Done), vec![ProviderAction::ReadEnv(s("NEW"))]);
    d.step(ProviderEvent::Env(None));
    d.step(ProviderEvent::Stored(true));
    assert_eq!(
        d.step(ProviderEvent::Confirmed(false)),
        vec![ProviderAction::ReadEnv(s("SECRET"))]
    );
    d.step(ProviderEvent::Env(None));
    assert_eq!(
        d.step(ProviderEvent::Stored(false)),
        vec![ProviderAction::AskValue {
            prompt: s("Provider Alpha requires SECRET, please enter a value"),
            secret: true,
            default: None,
        }]
    );
    d.step(ProviderEvent::Text(s("x")));
    assert_eq!(d.step(ProviderEvent::Done), vec![ProviderAction::ReadEnv(s("OAUTH"))]);
    d.step(ProviderEvent::Env(None));
    assert_eq!(
        d.step(ProviderEvent::Stored(false)),
        vec![ProviderAction::SignIn { provider: s("zz"), key: s("OAUTH") }]
    );
    assert_eq!(
        d.step(ProviderEvent::Done),
        vec![ProviderAction::FetchModels { provider: s("zz"), model: s("dm") }]
    );
}

#[test]
fn a_tested_model_is_saved() {
    let (mut d, a) = dialog(vec![]);
    assert_eq!(a, vec![ProviderAction::FetchModels { provider: s("zz"), model: s("dm") }]);
    assert_eq!(
        d.step(ProviderEvent::Models { models: Some(vec![s("m")]), env_model: None }),
        vec![ProviderAction::SelectModel { models: vec![s("m")], known: vec![s("km")] }]
    );
    assert_eq!(
        d.step(ProviderEvent::ModelChosen {
            model: s("m"),
            toolshim: Some(s("0")),
            toolshim_model: None,
        }),
        vec![ProviderAction::TestModel {
            provider: s("zz"),
            model: s("m"),
            max_tokens: 50,
            toolshim: false,
            toolshim_model: None,
            tools: vec![sample_tool()],
        }]
    );
    assert_eq!(
        d.step(ProviderEvent::Done),
        vec![
            ProviderAction::SetParam { key: s("GOOSE_PROVIDER"), content: s("zz") },
            ProviderAction::SetParam { key: s("GOOSE_MODEL"), content: s("m") },
            ProviderAction::Outro(s("Configuration saved successfully")),
            ProviderAction::Finish(true),
        ]
    );
}

#[test]
fn a_failed_test_saves_nothing() {
    let (mut d, _) = dialog(vec![]);
    assert_eq!(
        d.step(ProviderEvent::Models { models: None, env_model: Some(s("em")) }),
        vec![ProviderAction::AskModel { default_model: s("em") }]
    );
    let a = d.step(ProviderEvent::ModelChosen {
        model: s("m"),
        toolshim: Some(s("TRUE")),
        toolshim_model: Some(s("o")),
    });
    assert_eq!(
        a,
        vec![ProviderAction::TestModel {
            provider: s("zz"),
            model: s("m"),
            max_tokens: 50,
            toolshim: true,
            toolshim_model: Some(s("o")),
            tools: vec![],
        }]
    );
    assert_eq!(
        d.step(ProviderEvent::TestFailed(s("e"))),
        vec![
            ProviderAction::ReportFailure(s("e")),
            ProviderAction::Outro(s("Failed to configure provider: init chat completion request with tool did not succeed.")),
            ProviderAction::Finish(false),
        ]
    );
    let (mut d, _) = dialog(vec![]);
    assert_eq!(
        d.step(ProviderEvent::FetchFailed(s("e"))),
        vec![ProviderAction::Outro(s("e")), ProviderAction::Finish(false)]
    );
}

#[test]
fn settings_are_chosen() {
    assert_eq!(configure_settings_dialog("goose_mode"), Some(SettingKind::GooseMode));
    assert_eq!(configure_settings_dialog("scheduler"), Some(SettingKind::Scheduler));
    assert_eq!(configure_settings_dialog("nothing"), None);
    let c = configure_goose_mode_dialog("smart_approve").unwrap();
    assert_eq!(c.key, "GOOSE_MODE");
    assert_eq!(c.value, SettingValue::Text(s("smart_approve")));
    assert_eq!(c.outro, "Set to Smart Approve Mode - modifications require approval");
    assert_eq!(configure_goose_mode_dialog("wild"), None);
    let c = configure_goose_router_strategy_dialog("true").unwrap();
    assert_eq!((c.key, c.value), (s("GOOSE_ENABLE_ROUTER"), SettingValue::Text(s("true"))));
    for (level, tenths) in [("high", 8), ("medium", 2), ("all", 0)] {
        let c = configure_tool_output_dialog(level).unwrap();
        assert_eq!(c.key, "GOOSE_CLI_MIN_PRIORITY");
        assert_eq!(c.value, SettingValue::Tenths(tenths));
    }
    assert_eq!(
        configure_scheduler_dialog("temporal").unwrap().outro,
        "Set to Temporal scheduler - advanced workflow engine for complex scheduling"
    );
    assert_eq!(current_scheduler(None), "legacy");
    assert_eq!(current_scheduler(Some(s("temporal"))), "temporal");
    assert_eq!(
        override_notice("GOOSE_MODE"),
        "Notice: GOOSE_MODE environment variable is set and will override the configuration here."
    );
}

#[test]
fn turns_and_repositories_are_checked() {
    let c = configure_max_turns_dialog("12").unwrap();
    assert_eq!((c.key, c.value), (s("GOOSE_MAX_TURNS"), SettingValue::Number(12)));
    assert_eq!(
        c.outro,
        "Set maximum turns to 12 - goose will ask for input after 12 consecutive actions"
    );
    assert_eq!(configure_max_turns_dialog("0"), Err(s("Value must be at least 1")));
    assert_eq!(configure_max_turns_dialog("4294967296"), Err(s("Please enter a valid number")));
    assert_eq!(current_max_turns(None), 1000);
    assert_eq!(current_max_turns(Some(3)), 3);
    assert_eq!(configure_recipe_dialog(s("  ")).value, SettingValue::Deleted);
    assert_eq!(configure_recipe_dialog(s(" o/r")).value, SettingValue::Text(s(" o/r")));
    assert_eq!(default_recipe_repo(Some(s("a")), Some(s("b"))), Some(s("a")));
    assert_eq!(default_recipe_repo(None, Some(s("b"))), Some(s("b")));
    assert_eq!(
        toggle_experiments_dialog(&vec![(s("x"), true), (s("y"), false)], &vec![s("y")]),
        vec![(s("x"), false), (s("y"), true)]
    );
}

fn tool(name: &str, description: Option<&str>) -> Tool {
    Tool {
        name: s(name),
        title: None,
        description: description.map(s),
        input_schema: vec![],
        output_schema: None,
        annotations: None,
        icons: None,
    }
}

#[test]
fn a_tool_is_given_a_permission() {
    let (mut d, a) = ToolPermissionsDialog::start(map(&[("zed", true), ("abc", true), ("off", false)]));
    assert_eq!(
        a,
        vec![PermissionAction::ChooseExtension(vec![
            item("abc", "abc", ""),
            item("platform", "platform", ""),
            item("zed", "zed", ""),
        ])]
    );
    assert_eq!(d.step(PermissionEvent::Chosen(s("abc"))), vec![PermissionAction::CreateAgent]);
    assert_eq!(
        d.step(PermissionEvent::Done(true)),
        vec![PermissionAction::AddExtension(builtin("abc"))]
    );
    assert_eq!(
        d.step(PermissionEvent::Done(false)),
        vec![
            PermissionAction::Complain(s("Failed to check extension: abc")),
            PermissionAction::ListTools(s("abc")),
        ]
    );
    let mut permissions = PermissionManager::new();
    permissions.update_user_permission("abc__b", PermissionLevel::AskBefore);
    assert_eq!(
        d.step(PermissionEvent::Tools {
            tools: vec![tool("abc__a", Some(" Reads. Much.")), tool("abc__b", None)],
            permissions,
        }),
        vec![PermissionAction::ChooseTool(vec![
            item("abc__a", "abc__a", "Reads"),
            item("abc__b", "abc__b", ""),
        ])]
    );
    assert_eq!(
        d.step(PermissionEvent::Chosen(s("abc__b"))),
        vec![PermissionAction::ChooseLevel(s(
            "Set permission level for tool abc__b, current permission level: Ask Before"
        ))]
    );
    assert_eq!(
        d.step(PermissionEvent::Chosen(s("never_allow"))),
        vec![
            PermissionAction::Update { tool: s("abc__b"), level: PermissionLevel::NeverAllow },
            PermissionAction::Outro(s(
                "Updated permission level for tool abc__b to Never Allow."
            )),
            PermissionAction::Finish,
        ]
    );
    let (mut d, _) = ToolPermissionsDialog::start(map(&[]));
    d.step(PermissionEvent::Chosen(s("platform")));
    assert_eq!(
        d.step(PermissionEvent::Done(true)),
        vec![
            PermissionAction::Warn(s("Configuration not found for extension: platform")),
            PermissionAction::Finish,
        ]
    );
    assert_eq!(parse_level("ask_before"), Some(PermissionLevel::AskBefore));
    assert_eq!(parse_level(""), None);
    assert_eq!(permission_label(None), "Not Set");
    assert_eq!(permission_label(Some(PermissionLevel::AlwaysAllow)), "Always Allow");
}

#[test]
fn a_login_sets_the_provider_up() {
    let (mut l, a) = ProviderLogin::start(LoginService::OpenRouter);
    assert_eq!(a, LoginAction::Authenticate);
    assert_eq!(
        l.step(LoginEvent::Done),
        vec![
            LoginAction::Print(s("\nAuthentication complete!")),
            LoginAction::Print(s("\nConfiguring OpenRouter...")),
            LoginAction::Configure,
        ]
    );
    assert_eq!(
        l.step(LoginEvent::Done),
        vec![
            LoginAction::Print(s("✓ OpenRouter configuration complete")),
            LoginAction::Print(s("✓ Models configured successfully")),
            LoginAction::Print(s("\nTesting configuration...")),
            LoginAction::ReadModel,
        ]
    );
    assert_eq!(l.step(LoginEvent::Model(s("m"))), vec![LoginAction::CreateModel(s("m"))]);
    assert_eq!(
        l.step(LoginEvent::Done),
        vec![LoginAction::CreateProvider(s("openrouter"))]
    );
    assert_eq!(
        l.step(LoginEvent::Done),
        vec![LoginAction::Complete {
            system: s("You are goose, an AI assistant."),
            prompt: s("Say 'Configuration test successful!'"),
        }]
    );
    assert_eq!(
        l.step(LoginEvent::Done),
        vec![
            LoginAction::Print(s("✓ Configuration test passed!")),
            LoginAction::ReadExtensions,
        ]
    );
    assert_eq!(
        l.step(LoginEvent::Extensions(entries(&[("developer", false)]))),
        vec![
            LoginAction::SetExtension(developer_extension()),
            LoginAction::Print(s("✓ Developer extension enabled")),
            LoginAction::Outro(s("OpenRouter setup complete! You can now use goose.")),
            LoginAction::Finish(None),
        ]
    );
}

#[test]
fn a_login_may_fail() {
    let (mut l, _) = ProviderLogin::start(LoginService::Tetrate);
    assert_eq!(
        l.step(LoginEvent::Failed(s("e"))),
        vec![
            LoginAction::PrintError(s("Authentication failed: e")),
            LoginAction::Finish(Some(s("e"))),
        ]
    );
    let (mut l, _) = ProviderLogin::start(LoginService::Tetrate);
    l.step(LoginEvent::Done);
    assert_eq!(
        l.step(LoginEvent::Failed(s("e"))),
        vec![
            LoginAction::PrintError(s("Failed to configure Tetrate Agent Router Service: e")),
            LoginAction::Finish(Some(s("e"))),
        ]
    );
    let after = [
        ("⚠️  Invalid model configuration: e", 0),
        ("⚠️  Failed to create provider for testing: e", 1),
        ("⚠️  Configuration test failed: e", 2),
    ];
    for (message, more) in after {
        let (mut l, _) = ProviderLogin::start(LoginService::Tetrate);
        l.step(LoginEvent::Done);
        l.step(LoginEvent::Done);
        l.step(LoginEvent::Model(s("m")));
        for _ in 0..more {
            l.step(LoginEvent::Done);
        }
        let a = l.step(LoginEvent::Failed(s("e")));
        assert_eq!(a[0], LoginAction::PrintError(s(message)));
        assert_eq!(a.last(), Some(&LoginAction::Finish(None)));
    }
    let (mut l, _) = ProviderLogin::start(LoginService::Tetrate);
    l.step(LoginEvent::Done);
    l.step(LoginEvent::Done);
    assert_eq!(l.step(LoginEvent::Failed(s("e"))), vec![LoginAction::Finish(Some(s("e")))]);
}

#[test]
fn signing_in_for_a_value_is_reported() {
    assert_eq!(oauth_notice("K"), "Configuring K using OAuth device code flow...");
    assert_eq!(
        handle_oauth_configuration("K", &OauthOutcome::Done),
        (s("OAuth authentication completed successfully!"), None)
    );
    assert_eq!(
        handle_oauth_configuration("K", &OauthOutcome::AuthFailed(s("e"))),
        (
            s("Failed to authenticate: e"),
            Some(s("OAuth authentication failed for K: e"))
        )
    );
    assert_eq!(
        handle_oauth_configuration("K", &OauthOutcome::CreateFailed(s("e"))),
        (
            s("Failed to create provider for OAuth: e"),
            Some(s("Failed to create provider for OAuth: e"))
        )
    );
}

#[test]
fn custom_providers_are_added_and_removed() {
    let p = add_provider("openai_compatible", "Mine", "https://a", "k", " a, b ,,c", true).unwrap();
    assert_eq!(p.models, vec![s("a"), s("b"), s("c")]);
    assert_eq!(p.supports_streaming, Some(true));
    assert_eq!(p.provider_type, "openai_compatible");
    assert_eq!(check_provider_name(""), Some(s("Please enter a name")));
    assert_eq!(
        check_api_url("ftp://a"),
        Some(s("URL must start with either http:// or https://"))
    );
    assert_eq!(check_models(" "), Some(s("Please enter at least one model name")));
    assert_eq!(add_provider("t", "", "x", "", "", false), Err(s("Please enter a name")));
    assert_eq!(parse_models(","), Vec::<String>::new());
    assert_eq!(remove_provider(&vec![]), None);
    assert_eq!(
        remove_provider(&vec![(s("id"), s("Name"))]),
        Some(vec![item("id", "Name", "Custom provider")])
    );
    assert_eq!(provider_added("Mine"), "Custom provider added: Mine");
    assert_eq!(provider_removed("id"), "Removed custom provider: id");
    assert_eq!(configure_custom_provider_dialog("add"), Some(CustomProviderAction::Add));
    assert_eq!(configure_custom_provider_dialog("remove"), Some(CustomProviderAction::Remove));
    assert_eq!(configure_custom_provider_dialog(""), None);
}

#[test]
fn the_first_setup_is_finished() {
    assert_eq!(setup_method("manual"), Some(SetupMethod::Manual));
    assert_eq!(setup_method("tetrate"), Some(SetupMethod::Tetrate));
    assert_eq!(setup_method(""), None);
    assert_eq!(configure_target("custom_providers"), Some(ConfigureTarget::CustomProviders));
    assert_eq!(configure_target("x"), None);
    assert_eq!(login_finished(SetupMethod::OpenRouter, None), vec![]);
    assert_eq!(
        login_finished(SetupMethod::OpenRouter, Some(s("e"))),
        vec![
            SetupAction::ClearConfig,
            SetupAction::Say(Notice {
                label: NoticeLabel::Error,
                before: s(" OpenRouter authentication failed: e \n  Please try again or use manual configuration"),
                after: None,
            }),
        ]
    );
    let saved = manual_finished(&SetupOutcome::Saved, Platform::Other, builtin("developer"));
    assert_eq!(
        saved[1],
        SetupAction::SetExtension(ExtensionEntry { enabled: true, config: builtin("developer") })
    );
    let unsaved = manual_finished(&SetupOutcome::NotSaved, Platform::Other, builtin("developer"));
    assert_eq!(unsaved[0], SetupAction::ClearConfig);
}

#[test]
fn failures_are_explained() {
    let cases = [
        (ConfigFailure::NotFound(s("K")), " Required configuration key 'K' not found \n  Please provide this value and run '", "' again"),
        (ConfigFailure::Deserialize(s("m")), " Invalid configuration value: m \n  Please check your input and run '", "' again"),
        (ConfigFailure::File(s("m")), " Failed to access config file: m \n  Please check file permissions and run '", "' again"),
        (ConfigFailure::Directory(s("m")), " Failed to access config directory: m \n  Please check directory permissions and run '", "' again"),
        (ConfigFailure::Keyring(s("m")), " Failed to access secure storage: m \n  Please check your system's secure storage and run '", "' again. \n  If your system is unable to use secure storage, please try setting secret key(s) via environment variables."),
        (ConfigFailure::Other(s("m")), " m \n  We did not save your config, inspect your credentials\n   and run '", "' again to ensure goose can connect"),
    ];
    for (f, before, after) in cases {
        let a = manual_finished(&SetupOutcome::Failed(f), Platform::Other, builtin("d"));
        assert_eq!(
            a,
            vec![
                SetupAction::ClearConfig,
                SetupAction::Say(Notice {
                    label: NoticeLabel::Error,
                    before: s(before),
                    after: Some(s(after)),
                }),
            ]
        );
    }
}
