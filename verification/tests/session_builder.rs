use goose_core::config_extensions::{ExtensionEntry, ExtensionsMap};
use goose_core::extension::ExtensionConfig;
use goose_core::session_builder::{
    debug_extension, debug_mode, debug_offer, debug_prompt, missing_extensions, parse_edit_mode,
    BuildAction, BuildEvent, BuildPhase, BuildSession, EditMode, ExtraKind,
    MissingSetting, SessionBuilderConfig, SessionSettings,
};

use goose_core::text_list::{once_list, sort_texts};

fn s(t: &str) -> String {
    t.to_string()
}

fn builtin(name: &str) -> ExtensionConfig {
    ExtensionConfig::Builtin {
        name: s(name),
        display_name: None,
        description: s(""),
        timeout: None,
        bundled: None,
        available_tools: vec![],
    }
}

fn map(list: &[(&str, bool)]) -> ExtensionsMap {
    list.iter()
        .map(|(n, e)| (s(n), ExtensionEntry { enabled: *e, config: builtin(n) }))
        .collect()
}

fn base_config() -> SessionBuilderConfig {
    SessionBuilderConfig {
        provider: Some(s("openai")),
        model: Some(s("gpt")),
        ..SessionBuilderConfig::default()
    }
}

#[test]
fn test_session_builder_config_creation() {
    let config = SessionBuilderConfig {
        session_id: Some("test".to_string()),
        resume: false,
        no_session: false,
        extensions: vec!["echo test".to_string()],
        remote_extensions: vec!["http://example.com".to_string()],
        streamable_http_extensions: vec!["http://example.com/streamable".to_string()],
        builtins: vec!["developer".to_string()],
        extensions_override: None,
        additional_system_prompt: Some("Test prompt".to_string()),
        settings: None,
        provider: None,
        model: None,
        debug: true,
        max_tool_repetitions: Some(5),
        max_turns: None,
        scheduled_job_id: None,
        interactive: true,
        quiet: false,
        sub_recipes: None,
        final_output_response: None,
        retry_config: None,
    };

    assert_eq!(config.extensions.len(), 1);
    assert_eq!(config.remote_extensions.len(), 1);
    assert_eq!(config.streamable_http_extensions.len(), 1);
    assert_eq!(config.builtins.len(), 1);
    assert!(config.debug);
    assert_eq!(config.max_tool_repetitions, Some(5));
    assert!(config.max_turns.is_none());
    assert!(config.scheduled_job_id.is_none());
    assert!(config.interactive);
    assert!(!config.quiet);
}

#[test]
fn test_session_builder_config_default() {
    let config = SessionBuilderConfig::default();

    assert!(config.session_id.is_none());
    assert!(!config.resume);
    assert!(!config.no_session);
    assert!(config.extensions.is_empty());
    assert!(config.remote_extensions.is_empty());
    assert!(config.streamable_http_extensions.is_empty());
    assert!(config.builtins.is_empty());
    assert!(config.extensions_override.is_none());
    assert!(config.additional_system_prompt.is_none());
    assert!(!config.debug);
    assert!(config.max_tool_repetitions.is_none());
    assert!(config.max_turns.is_none());
    assert!(config.scheduled_job_id.is_none());
    assert!(!config.interactive);
    assert!(!config.quiet);
    assert!(config.final_output_response.is_none());
}

#[test]
fn provider_and_model_have_to_be_known() {
    let none = SessionBuilderConfig::default();
    assert_eq!(BuildSession::start(none, None, Some(s("m"))).err(), Some(MissingSetting::Provider));
    let none = SessionBuilderConfig::default();
    assert_eq!(BuildSession::start(none, Some(s("p")), None).err(), Some(MissingSetting::Model));
}

#[test]
fn settings_go_before_the_configuration() {
    let config = SessionBuilderConfig {
        settings: Some(SessionSettings {
            goose_model: Some(s("m1")),
            goose_provider: None,
            temperature_bits: Some(0.5f32.to_bits()),
        }),
        ..SessionBuilderConfig::default()
    };
    let (b, a) = BuildSession::start(config, Some(s("p2")), Some(s("m2"))).unwrap();
    assert_eq!(b.provider_name, "p2");
    assert_eq!(
        a,
        vec![BuildAction::CreateModel {
            model_name: s("m1"),
            temperature_bits: Some(0.5f32.to_bits()),
        }]
    );
}

fn to_session(config: SessionBuilderConfig) -> (BuildSession, Vec<BuildAction>) {
    let (mut b, _) = BuildSession::start(config, None, None).unwrap();
    assert_eq!(
        b.step(BuildEvent::Done),
        vec![BuildAction::CreateProvider { provider_name: s("openai") }]
    );
    assert_eq!(b.step(BuildEvent::Done), vec![BuildAction::InitializeAgent]);
    let a = b.step(BuildEvent::Done);
    (b, a)
}

#[test]
fn a_new_session_runs_the_enabled_extensions() {
    let config = SessionBuilderConfig {
        builtins: vec![s("memory")],
        extensions: vec![s("npx x")],
        additional_system_prompt: Some(s("be kind")),
        ..base_config()
    };
    let (mut b, a) = to_session(config);
    assert_eq!(a, vec![BuildAction::CreateSession]);
    let a = b.step(BuildEvent::Created(s("id1")));
    assert_eq!(a, vec![BuildAction::SetContext(Some(s("id1"))), BuildAction::ReadExtensions]);
    let a = b.step(BuildEvent::Extensions(map(&[("z", true), ("y", false), ("a", true)])));
    assert_eq!(
        a,
        vec![
            BuildAction::ShowProgress(s("starting 2 extensions: a, z")),
            BuildAction::StartExtensions(vec![builtin("z"), builtin("a")]),
        ]
    );
    assert_eq!(
        b.step(BuildEvent::Started { name: s("z"), error: None }),
        vec![BuildAction::ShowProgress(s("starting 1 extensions: a"))]
    );
    assert_eq!(b.step(BuildEvent::Started { name: s("a"), error: Some(s("no")) }), vec![]);
    assert_eq!(
        b.step(BuildEvent::AllStarted),
        vec![BuildAction::AddExtra { kind: ExtraKind::Stdio, extension: s("npx x") }]
    );
    assert_eq!(
        b.step(BuildEvent::Failed(s("boom"))),
        vec![
            BuildAction::Warn(s(
                "Warning: Failed to start stdio extension 'npx x' (boom), continuing without it"
            )),
            BuildAction::AddExtra { kind: ExtraKind::Builtin, extension: s("memory") },
        ]
    );
    assert_eq!(b.step(BuildEvent::Done), vec![BuildAction::SaveState(s("id1"))]);
    assert_eq!(
        b.step(BuildEvent::Failed(s("disk"))),
        vec![BuildAction::Finish {
            session_id: Some(s("id1")),
            additional_prompt: Some(s("be kind")),
            show_info: true,
        }]
    );
    assert_eq!(b.phase, BuildPhase::Finished);
    assert_eq!(b.step(BuildEvent::Done), vec![]);
}

#[test]
fn failed_extensions_are_offered_for_debugging_to_a_user() {
    let config = SessionBuilderConfig {
        interactive: true,
        no_session: true,
        quiet: true,
        remote_extensions: vec![s("http://x")],
        streamable_http_extensions: vec![s("http://y")],
        extensions_override: Some(vec![builtin("one"), builtin("one")]),
        ..base_config()
    };
    let (mut b, a) = to_session(config);
    assert_eq!(
        a,
        vec![
            BuildAction::SetContext(None),
            BuildAction::DisableRouter,
            BuildAction::ShowProgress(s("starting 1 extensions: one")),
            BuildAction::StartExtensions(vec![builtin("one"), builtin("one")]),
        ]
    );
    assert_eq!(b.step(BuildEvent::Started { name: s("one"), error: Some(s("e1")) }), vec![]);
    assert_eq!(
        b.step(BuildEvent::AllStarted),
        vec![BuildAction::OfferDebug { name: s("one"), error: s("e1") }]
    );
    assert_eq!(
        b.step(BuildEvent::Done),
        vec![BuildAction::AddExtra { kind: ExtraKind::Remote, extension: s("http://x") }]
    );
    assert_eq!(
        b.step(BuildEvent::Failed(s("e2"))),
        vec![
            BuildAction::Warn(s(
                "Warning: Failed to start remote extension 'http://x' (e2), continuing without it"
            )),
            BuildAction::OfferDebug { name: s("http://x"), error: s("e2") },
        ]
    );
    assert_eq!(
        b.step(BuildEvent::Done),
        vec![BuildAction::AddExtra { kind: ExtraKind::StreamableHttp, extension: s("http://y") }]
    );
    assert_eq!(
        b.step(BuildEvent::Done),
        vec![BuildAction::Finish { session_id: None, additional_prompt: None, show_info: false }]
    );
}

#[test]
fn setup_errors_end_the_setup() {
    let (mut b, _) = BuildSession::start(base_config(), None, None).unwrap();
    assert_eq!(
        b.step(BuildEvent::Failed(s("bad"))),
        vec![BuildAction::Exit {
            message: s("Failed to create model configuration: bad"),
            code: 1,
        }]
    );
    let (mut b, _) = BuildSession::start(base_config(), None, None).unwrap();
    b.step(BuildEvent::Done);
    assert_eq!(
        b.step(BuildEvent::Failed(s("bad"))),
        vec![BuildAction::Exit {
            message: s("Error bad.\nPlease check your system keychain and run 'goose configure' again.\nIf your system is unable to use the keyring, please try setting secret key(s) via environment variables.\nFor more info, see: https://block.github.io/goose/docs/troubleshooting/#keychainkeyring-errors"),
            code: 1,
        }]
    );
    let (mut b, _) = BuildSession::start(base_config(), None, None).unwrap();
    b.step(BuildEvent::Done);
    b.step(BuildEvent::Done);
    assert_eq!(
        b.step(BuildEvent::Failed(s("bad"))),
        vec![BuildAction::Exit { message: s("Failed to initialize agent: bad"), code: 1 }]
    );
}

#[test]
fn an_unknown_session_cannot_be_resumed() {
    let config = SessionBuilderConfig {
        resume: true,
        session_id: Some(s("old")),
        ..base_config()
    };
    let (mut b, a) = to_session(config);
    assert_eq!(a, vec![BuildAction::FindSession(s("old"))]);
    assert_eq!(
        b.step(BuildEvent::Found(false)),
        vec![BuildAction::Exit {
            message: s("Cannot resume session old - no such session exists"),
            code: 1,
        }]
    );
    for list in [None, Some(vec![])] {
        let config = SessionBuilderConfig { resume: true, ..base_config() };
        let (mut b, a) = to_session(config);
        assert_eq!(a, vec![BuildAction::ListSessions]);
        assert_eq!(
            b.step(BuildEvent::Sessions(list)),
            vec![BuildAction::Exit {
                message: s("Cannot resume - no previous sessions found"),
                code: 1,
            }]
        );
    }
}

#[test]
fn a_resumed_session_goes_back_to_its_directory_and_extensions() {
    let config = SessionBuilderConfig { resume: true, ..base_config() };
    let (mut b, _) = to_session(config);
    let a = b.step(BuildEvent::Sessions(Some(vec![s("new"), s("old")])));
    assert_eq!(
        a,
        vec![BuildAction::SetContext(Some(s("new"))), BuildAction::ReadMetadata(s("new"))]
    );
    let a = b.step(BuildEvent::Metadata { current: s("/a"), original: s("/b") });
    assert_eq!(a, vec![BuildAction::ConfirmDirectory { current: s("/a"), original: s("/b") }]);
    assert_eq!(
        b.step(BuildEvent::Confirmed(true)),
        vec![BuildAction::SwitchDirectory(s("/b"))]
    );
    assert_eq!(
        b.step(BuildEvent::DirectoryMissing),
        vec![
            BuildAction::ReportError(s(
                "Cannot switch to original working directory - /b no longer exists"
            )),
            BuildAction::ReadSaved(s("new")),
        ]
    );
    let a = b.step(BuildEvent::Saved {
        saved: Some(vec![builtin("kept"), builtin("gone"), builtin("lost")]),
        configured: map(&[("kept", true)]),
    });
    assert_eq!(a, vec![BuildAction::ConfirmReadd(s("gone, lost"))]);
    let a = b.step(BuildEvent::Confirmed(true));
    assert_eq!(
        a,
        vec![
            BuildAction::SetExtensions(vec![
                ExtensionEntry { enabled: true, config: builtin("gone") },
                ExtensionEntry { enabled: true, config: builtin("lost") },
            ]),
            BuildAction::ShowProgress(s("starting 3 extensions: gone, kept, lost")),
            BuildAction::StartExtensions(vec![
                builtin("kept"),
                builtin("gone"),
                builtin("lost")
            ]),
        ]
    );
}

#[test]
fn a_refused_extension_cancels_the_resume() {
    let config = SessionBuilderConfig {
        resume: true,
        session_id: Some(s("old")),
        ..base_config()
    };
    let (mut b, _) = to_session(config);
    b.step(BuildEvent::Found(true));
    let a = b.step(BuildEvent::Metadata { current: s("/a"), original: s("/a") });
    assert_eq!(a, vec![BuildAction::ReadSaved(s("old"))]);
    b.step(BuildEvent::Saved { saved: Some(vec![builtin("gone")]), configured: vec![] });
    assert_eq!(
        b.step(BuildEvent::Confirmed(false)),
        vec![BuildAction::Exit { message: s("Resume cancelled."), code: 0 }]
    );
}

#[test]
fn metadata_and_directory_errors_are_told() {
    let config = SessionBuilderConfig {
        resume: true,
        session_id: Some(s("old")),
        ..base_config()
    };
    let (mut b, _) = to_session(config);
    b.step(BuildEvent::Found(true));
    assert_eq!(
        b.step(BuildEvent::Failed(s("db"))),
        vec![BuildAction::Exit { message: s("Failed to read session metadata: db"), code: 1 }]
    );
    let config = SessionBuilderConfig {
        resume: true,
        session_id: Some(s("old")),
        ..base_config()
    };
    let (mut b, _) = to_session(config);
    b.step(BuildEvent::Found(true));
    b.step(BuildEvent::Metadata { current: s("/a"), original: s("/b") });
    b.step(BuildEvent::Confirmed(true));
    assert_eq!(
        b.step(BuildEvent::Failed(s("denied"))),
        vec![
            BuildAction::ReportError(s("Failed to switch to original working directory: denied")),
            BuildAction::ReadSaved(s("old")),
        ]
    );
    let a = b.step(BuildEvent::Saved { saved: None, configured: map(&[("q", true)]) });
    assert_eq!(a[0], BuildAction::ShowProgress(s("starting 1 extensions: q")));
}

#[test]
fn edit_modes_are_named_in_any_case() {
    assert_eq!(parse_edit_mode(Some("EMACS")), (Some(EditMode::Emacs), false));
    assert_eq!(parse_edit_mode(Some("Vi")), (Some(EditMode::Vi), false));
    assert_eq!(parse_edit_mode(Some("nano")), (None, true));
    assert_eq!(parse_edit_mode(None), (None, false));
}

#[test]
fn debug_is_on_where_either_says_so() {
    let mut c = SessionBuilderConfig::default();
    assert!(!debug_mode(&c, None));
    assert!(debug_mode(&c, Some(true)));
    c.debug = true;
    assert!(debug_mode(&c, Some(false)));
}

#[test]
fn debugging_is_offered_with_the_error() {
    assert_eq!(debug_offer("x"), "Would you like me to help debug the 'x' extension failure?");
    let p = debug_prompt("x", "boom");
    assert!(p.starts_with(
        "I'm having trouble starting an extension called 'x'. Here's the error I encountered:\n\nboom\n\nCan you help"
    ));
    assert!(p.ends_with("- Path or environment variable problems"));
    let entries = vec![
        ExtensionEntry { enabled: false, config: builtin("developer") },
        ExtensionEntry { enabled: true, config: builtin("memory") },
        ExtensionEntry { enabled: true, config: builtin("developer") },
    ];
    assert_eq!(debug_extension(&entries), Some(builtin("developer")));
    assert_eq!(debug_extension(&entries[..2].iter().map(|_| ExtensionEntry {
        enabled: false,
        config: builtin("developer"),
    }).collect::<Vec<_>>()), None);
}

#[test]
fn missing_extensions_keep_their_order() {
    let saved = vec![builtin("b"), builtin("a"), builtin("c")];
    assert_eq!(
        missing_extensions(&saved, &map(&[("a", false)])),
        vec![builtin("b"), builtin("c")]
    );
    assert_eq!(once_list(&vec![s("b"), s("a"), s("b")]), vec![s("b"), s("a")]);
    assert_eq!(sort_texts(&vec![s("b"), s("a"), s("B")]), vec![s("B"), s("a"), s("b")]);
}

#[test]
fn a_limit_on_repetitions_reaches_the_agent() {
    let config = SessionBuilderConfig {
        max_tool_repetitions: Some(5),
        no_session: true,
        ..base_config()
    };
    let (_, a) = to_session(config);
    assert_eq!(
        a,
        vec![
            BuildAction::LimitRepetitions(5),
            BuildAction::SetContext(None),
            BuildAction::ReadExtensions,
        ]
    );
    let (_, a) = to_session(base_config());
    assert_eq!(a, vec![BuildAction::CreateSession]);
}
