//! How a session is set up: which provider, session and extensions it uses, one
//! step after the other.
use crate::base::{self, Duplicate};
use crate::config_extensions::{
    self, config_named, enabled_configs, ExtensionEntry, ExtensionEntryView, ExtensionsMap,
    ExtensionsView,
};
use crate::extension::{ExtensionConfig, ExtensionConfigView};
use crate::text;
use crate::text_list::{self, in_text_order, once, without_text};
use vstd::prelude::*;
use vstd::string::*;

verus! {

/// Settings that go before the configuration. The temperature is known by the bits
/// of a number of single precision.
#[derive(Debug, PartialEq)]
pub struct SessionSettings {
    pub goose_model: Option<String>,
    pub goose_provider: Option<String>,
    pub temperature_bits: Option<u32>,
}

#[verifier::ext_equal]
pub struct SessionSettingsView {
    pub goose_model: Option<Seq<char>>,
    pub goose_provider: Option<Seq<char>>,
    pub temperature_bits: Option<u32>,
}

impl DeepView for SessionSettings {
    type V = SessionSettingsView;

    open spec fn deep_view(&self) -> SessionSettingsView {
        SessionSettingsView {
            goose_model: self.goose_model.deep_view(),
            goose_provider: self.goose_provider.deep_view(),
            temperature_bits: self.temperature_bits.deep_view(),
        }
    }
}

impl Duplicate for SessionSettings {
    fn duplicate(&self) -> (r: Self) {
        SessionSettings {
            goose_model: self.goose_model.duplicate(),
            goose_provider: self.goose_provider.duplicate(),
            temperature_bits: self.temperature_bits.duplicate(),
        }
    }
}

/// What a session is set up with.
#[derive(Debug, PartialEq)]
pub struct SessionBuilderConfig {
    /// The identifier of the session.
    pub session_id: Option<String>,
    /// Whether an existing session goes on.
    pub resume: bool,
    /// Whether nothing is stored.
    pub no_session: bool,
    /// Commands of extensions to add.
    pub extensions: Vec<String>,
    /// Remote extensions to add.
    pub remote_extensions: Vec<String>,
    /// Streaming HTTP extensions to add.
    pub streamable_http_extensions: Vec<String>,
    /// Built-in extensions to add.
    pub builtins: Vec<String>,
    /// The only extensions to use.
    pub extensions_override: Option<Vec<ExtensionConfig>>,
    /// What is added to the system prompt.
    pub additional_system_prompt: Option<String>,
    /// Settings that go before the configuration.
    pub settings: Option<SessionSettings>,
    /// The provider that was asked for.
    pub provider: Option<String>,
    /// The model that was asked for.
    pub model: Option<String>,
    /// Whether debug output is shown.
    pub debug: bool,
    /// How often the same call may follow itself.
    pub max_tool_repetitions: Option<u32>,
    /// How many turns may be taken without the user.
    pub max_turns: Option<u32>,
    /// The scheduled job that started the session.
    pub scheduled_job_id: Option<String>,
    /// Whether a user is there.
    pub interactive: bool,
    /// Whether only responses are shown.
    pub quiet: bool,
    /// Sub-recipes, each known by a number.
    pub sub_recipes: Option<Vec<u64>>,
    /// The response that is expected in the end, known by a number.
    pub final_output_response: Option<u64>,
    /// How a reply is tried again, known by a number.
    pub retry_config: Option<u64>,
}

#[verifier::ext_equal]
pub struct SessionBuilderConfigView {
    pub session_id: Option<Seq<char>>,
    pub resume: bool,
    pub no_session: bool,
    pub extensions: Seq<Seq<char>>,
    pub remote_extensions: Seq<Seq<char>>,
    pub streamable_http_extensions: Seq<Seq<char>>,
    pub builtins: Seq<Seq<char>>,
    pub extensions_override: Option<Seq<ExtensionConfigView>>,
    pub additional_system_prompt: Option<Seq<char>>,
    pub settings: Option<SessionSettingsView>,
    pub provider: Option<Seq<char>>,
    pub model: Option<Seq<char>>,
    pub debug: bool,
    pub max_tool_repetitions: Option<u32>,
    pub max_turns: Option<u32>,
    pub scheduled_job_id: Option<Seq<char>>,
    pub interactive: bool,
    pub quiet: bool,
    pub sub_recipes: Option<Seq<u64>>,
    pub final_output_response: Option<u64>,
    pub retry_config: Option<u64>,
}

impl DeepView for SessionBuilderConfig {
    type V = SessionBuilderConfigView;

    open spec fn deep_view(&self) -> SessionBuilderConfigView {
        SessionBuilderConfigView {
            session_id: self.session_id.deep_view(),
            resume: self.resume,
            no_session: self.no_session,
            extensions: self.extensions.deep_view(),
            remote_extensions: self.remote_extensions.deep_view(),
            streamable_http_extensions: self.streamable_http_extensions.deep_view(),
            builtins: self.builtins.deep_view(),
            extensions_override: self.extensions_override.deep_view(),
            additional_system_prompt: self.additional_system_prompt.deep_view(),
            settings: self.settings.deep_view(),
            provider: self.provider.deep_view(),
            model: self.model.deep_view(),
            debug: self.debug,
            max_tool_repetitions: self.max_tool_repetitions.deep_view(),
            max_turns: self.max_turns.deep_view(),
            scheduled_job_id: self.scheduled_job_id.deep_view(),
            interactive: self.interactive,
            quiet: self.quiet,
            sub_recipes: self.sub_recipes.deep_view(),
            final_output_response: self.final_output_response.deep_view(),
            retry_config: self.retry_config.deep_view(),
        }
    }
}

impl Duplicate for SessionBuilderConfig {
    fn duplicate(&self) -> (r: Self) {
        SessionBuilderConfig {
            session_id: self.session_id.duplicate(),
            resume: self.resume,
            no_session: self.no_session,
            extensions: self.extensions.duplicate(),
            remote_extensions: self.remote_extensions.duplicate(),
            streamable_http_extensions: self.streamable_http_extensions.duplicate(),
            builtins: self.builtins.duplicate(),
            extensions_override: self.extensions_override.duplicate(),
            additional_system_prompt: self.additional_system_prompt.duplicate(),
            settings: self.settings.duplicate(),
            provider: self.provider.duplicate(),
            model: self.model.duplicate(),
            debug: self.debug,
            max_tool_repetitions: self.max_tool_repetitions.duplicate(),
            max_turns: self.max_turns.duplicate(),
            scheduled_job_id: self.scheduled_job_id.duplicate(),
            interactive: self.interactive,
            quiet: self.quiet,
            sub_recipes: self.sub_recipes.duplicate(),
            final_output_response: self.final_output_response.duplicate(),
            retry_config: self.retry_config.duplicate(),
        }
    }
}

impl Default for SessionBuilderConfig {
    fn default() -> (r: Self)
        ensures
            r.deep_view() == default_config(),
    {
        let r = SessionBuilderConfig {
            session_id: None,
            resume: false,
            no_session: false,
            extensions: Vec::new(),
            remote_extensions: Vec::new(),
            streamable_http_extensions: Vec::new(),
            builtins: Vec::new(),
            extensions_override: None,
            additional_system_prompt: None,
            settings: None,
            provider: None,
            model: None,
            debug: false,
            max_tool_repetitions: None,
            max_turns: None,
            scheduled_job_id: None,
            interactive: false,
            quiet: false,
            sub_recipes: None,
            final_output_response: None,
            retry_config: None,
        };
        assert(r.deep_view() =~= default_config());
        r
    }
}

/// Nothing is asked for.
pub open spec fn default_config() -> SessionBuilderConfigView {
    SessionBuilderConfigView {
        session_id: None,
        resume: false,
        no_session: false,
        extensions: Seq::empty(),
        remote_extensions: Seq::empty(),
        streamable_http_extensions: Seq::empty(),
        builtins: Seq::empty(),
        extensions_override: None,
        additional_system_prompt: None,
        settings: None,
        provider: None,
        model: None,
        debug: false,
        max_tool_repetitions: None,
        max_turns: None,
        scheduled_job_id: None,
        interactive: false,
        quiet: false,
        sub_recipes: None,
        final_output_response: None,
        retry_config: None,
    }
}

/// How lines are edited.
#[derive(Debug, Clone, Copy, PartialEq, Eq, Structural)]
pub enum EditMode {
    Emacs,
    Vi,
}

impl DeepView for EditMode {
    type V = EditMode;

    open spec fn deep_view(&self) -> EditMode {
        *self
    }
}

impl Duplicate for EditMode {
    fn duplicate(&self) -> (r: Self) {
        *self
    }
}

/// How an extension was asked for.
#[derive(Debug, Clone, Copy, PartialEq, Eq, Structural)]
pub enum ExtraKind {
    Stdio,
    Remote,
    StreamableHttp,
    Builtin,
}

impl DeepView for ExtraKind {
    type V = ExtraKind;

    open spec fn deep_view(&self) -> ExtraKind {
        *self
    }
}

impl Duplicate for ExtraKind {
    fn duplicate(&self) -> (r: Self) {
        *self
    }
}

/// What has to be configured first.
#[derive(Debug, Clone, Copy, PartialEq, Eq, Structural)]
pub enum MissingSetting {
    Provider,
    Model,
}

impl DeepView for MissingSetting {
    type V = MissingSetting;

    open spec fn deep_view(&self) -> MissingSetting {
        *self
    }
}

impl Duplicate for MissingSetting {
    fn duplicate(&self) -> (r: Self) {
        *self
    }
}

/// What setting up a session waits for.
#[derive(Debug, Clone, Copy, PartialEq, Eq, Structural)]
pub enum BuildPhase {
    ModelCreating,
    ProviderCreating,
    AgentInitializing,
    SessionFinding,
    SessionListing,
    SessionCreating,
    MetadataReading,
    DirectoryConfirming,
    DirectorySwitching,
    SavedReading,
    ExtensionsReading,
    ReaddConfirming,
    ExtensionsStarting,
    DebugOffering,
    ExtraAdding,
    ExtraDebugOffering,
    StateSaving,
    Finished,
}

impl DeepView for BuildPhase {
    type V = BuildPhase;

    open spec fn deep_view(&self) -> BuildPhase {
        *self
    }
}

impl Duplicate for BuildPhase {
    fn duplicate(&self) -> (r: Self) {
        *self
    }
}

/// A session that is being set up.
#[derive(Debug, PartialEq)]
pub struct BuildSession {
    pub config: SessionBuilderConfig,
    pub provider_name: String,
    pub model_name: String,
    pub session_id: Option<String>,
    /// The directory in which the session was before.
    pub original_dir: String,
    /// The extensions of the session before.
    pub to_run: Vec<ExtensionConfig>,
    /// Those of them that are no longer configured.
    pub missing: Vec<ExtensionConfig>,
    /// The names of the extensions that have not started yet.
    pub waiting: Vec<String>,
    /// The extensions that did not start, and why.
    pub failed: Vec<(String, String)>,
    /// The extensions that were asked for on the way in.
    pub extras: Vec<(ExtraKind, String)>,
    pub phase: BuildPhase,
}

#[verifier::ext_equal]
pub struct BuildSessionView {
    pub config: SessionBuilderConfigView,
    pub provider_name: Seq<char>,
    pub model_name: Seq<char>,
    pub session_id: Option<Seq<char>>,
    pub original_dir: Seq<char>,
    pub to_run: Seq<ExtensionConfigView>,
    pub missing: Seq<ExtensionConfigView>,
    pub waiting: Seq<Seq<char>>,
    pub failed: Seq<(Seq<char>, Seq<char>)>,
    pub extras: Seq<(ExtraKind, Seq<char>)>,
    pub phase: BuildPhase,
}

impl DeepView for BuildSession {
    type V = BuildSessionView;

    open spec fn deep_view(&self) -> BuildSessionView {
        BuildSessionView {
            config: self.config.deep_view(),
            provider_name: self.provider_name@,
            model_name: self.model_name@,
            session_id: self.session_id.deep_view(),
            original_dir: self.original_dir@,
            to_run: self.to_run.deep_view(),
            missing: self.missing.deep_view(),
            waiting: self.waiting.deep_view(),
            failed: self.failed.deep_view(),
            extras: self.extras.deep_view(),
            phase: self.phase,
        }
    }
}

/// What setting up a session asks the outside to do. Of a list of actions, all are
/// performed in order, and the last one is answered by an event.
#[derive(Debug, PartialEq)]
pub enum BuildAction {
    CreateModel { model_name: String, temperature_bits: Option<u32> },
    CreateProvider { provider_name: String },
    InitializeAgent,
    /// Let the same tool call follow itself no more often than this.
    LimitRepetitions(u32),
    FindSession(String),
    ListSessions,
    CreateSession,
    SetContext(Option<String>),
    ReadMetadata(String),
    ConfirmDirectory { current: String, original: String },
    SwitchDirectory(String),
    ReportError(String),
    DisableRouter,
    /// Read the extensions of the session before, and the configured ones.
    ReadSaved(String),
    /// Read the configured extensions.
    ReadExtensions,
    ConfirmReadd(String),
    SetExtensions(Vec<ExtensionEntry>),
    ShowProgress(String),
    StartExtensions(Vec<ExtensionConfig>),
    OfferDebug { name: String, error: String },
    AddExtra { kind: ExtraKind, extension: String },
    Warn(String),
    SaveState(String),
    Finish { session_id: Option<String>, additional_prompt: Option<String>, show_info: bool },
    Exit { message: String, code: i32 },
}

#[verifier::ext_equal]
pub enum BuildActionView {
    CreateModel { model_name: Seq<char>, temperature_bits: Option<u32> },
    CreateProvider { provider_name: Seq<char> },
    InitializeAgent,
    LimitRepetitions(u32),
    FindSession(Seq<char>),
    ListSessions,
    CreateSession,
    SetContext(Option<Seq<char>>),
    ReadMetadata(Seq<char>),
    ConfirmDirectory { current: Seq<char>, original: Seq<char> },
    SwitchDirectory(Seq<char>),
    ReportError(Seq<char>),
    DisableRouter,
    ReadSaved(Seq<char>),
    ReadExtensions,
    ConfirmReadd(Seq<char>),
    SetExtensions(Seq<ExtensionEntryView>),
    ShowProgress(Seq<char>),
    StartExtensions(Seq<ExtensionConfigView>),
    OfferDebug { name: Seq<char>, error: Seq<char> },
    AddExtra { kind: ExtraKind, extension: Seq<char> },
    Warn(Seq<char>),
    SaveState(Seq<char>),
    Finish { session_id: Option<Seq<char>>, additional_prompt: Option<Seq<char>>, show_info: bool },
    Exit { message: Seq<char>, code: i32 },
}

impl DeepView for BuildAction {
    type V = BuildActionView;

    open spec fn deep_view(&self) -> BuildActionView {
        match self {
            BuildAction::CreateModel { model_name, temperature_bits } => BuildActionView::CreateModel {
                model_name: model_name@,
                temperature_bits: temperature_bits.deep_view(),
            },
            BuildAction::CreateProvider { provider_name } => BuildActionView::CreateProvider {
                provider_name: provider_name@,
            },
            BuildAction::InitializeAgent => BuildActionView::InitializeAgent,
            BuildAction::LimitRepetitions(n) => BuildActionView::LimitRepetitions(*n),
            BuildAction::FindSession(x) => BuildActionView::FindSession(x@),
            BuildAction::ListSessions => BuildActionView::ListSessions,
            BuildAction::CreateSession => BuildActionView::CreateSession,
            BuildAction::SetContext(x) => BuildActionView::SetContext(x.deep_view()),
            BuildAction::ReadMetadata(x) => BuildActionView::ReadMetadata(x@),
            BuildAction::ConfirmDirectory { current, original } => BuildActionView::ConfirmDirectory {
                current: current@,
                original: original@,
            },
            BuildAction::SwitchDirectory(x) => BuildActionView::SwitchDirectory(x@),
            BuildAction::ReportError(x) => BuildActionView::ReportError(x@),
            BuildAction::DisableRouter => BuildActionView::DisableRouter,
            BuildAction::ReadSaved(x) => BuildActionView::ReadSaved(x@),
            BuildAction::ReadExtensions => BuildActionView::ReadExtensions,
            BuildAction::ConfirmReadd(x) => BuildActionView::ConfirmReadd(x@),
            BuildAction::SetExtensions(x) => BuildActionView::SetExtensions(x.deep_view()),
            BuildAction::ShowProgress(x) => BuildActionView::ShowProgress(x@),
            BuildAction::StartExtensions(x) => BuildActionView::StartExtensions(x.deep_view()),
            BuildAction::OfferDebug { name, error } => BuildActionView::OfferDebug {
                name: name@,
                error: error@,
            },
            BuildAction::AddExtra { kind, extension } => BuildActionView::AddExtra {
                kind: *kind,
                extension: extension@,
            },
            BuildAction::Warn(x) => BuildActionView::Warn(x@),
            BuildAction::SaveState(x) => BuildActionView::SaveState(x@),
            BuildAction::Finish { session_id, additional_prompt, show_info } => BuildActionView::Finish {
                session_id: session_id.deep_view(),
                additional_prompt: additional_prompt.deep_view(),
                show_info: *show_info,
            },
            BuildAction::Exit { message, code } => BuildActionView::Exit {
                message: message@,
                code: *code,
            },
        }
    }
}

/// What the outside reports while a session is set up. An error comes by its
/// text.
#[derive(Debug, PartialEq)]
pub enum BuildEvent {
    Done,
    Failed(String),
    Found(bool),
    /// The sessions, the latest first, or nothing where they cannot be listed.
    Sessions(Option<Vec<String>>),
    Created(String),
    Metadata { current: String, original: String },
    Confirmed(bool),
    DirectoryMissing,
    Saved { saved: Option<Vec<ExtensionConfig>>, configured: ExtensionsMap },
    Extensions(ExtensionsMap),
    Started { name: String, error: Option<String> },
    AllStarted,
}

pub enum BuildEventView {
    Done,
    Failed(Seq<char>),
    Found(bool),
    Sessions(Option<Seq<Seq<char>>>),
    Created(Seq<char>),
    Metadata { current: Seq<char>, original: Seq<char> },
    Confirmed(bool),
    DirectoryMissing,
    Saved { saved: Option<Seq<ExtensionConfigView>>, configured: ExtensionsView },
    Extensions(ExtensionsView),
    Started { name: Seq<char>, error: Option<Seq<char>> },
    AllStarted,
}

impl DeepView for BuildEvent {
    type V = BuildEventView;

    open spec fn deep_view(&self) -> BuildEventView {
        match self {
            BuildEvent::Done => BuildEventView::Done,
            BuildEvent::Failed(e) => BuildEventView::Failed(e@),
            BuildEvent::Found(b) => BuildEventView::Found(*b),
            BuildEvent::Sessions(s) => BuildEventView::Sessions(s.deep_view()),
            BuildEvent::Created(id) => BuildEventView::Created(id@),
            BuildEvent::Metadata { current, original } => BuildEventView::Metadata {
                current: current@,
                original: original@,
            },
            BuildEvent::Confirmed(b) => BuildEventView::Confirmed(*b),
            BuildEvent::DirectoryMissing => BuildEventView::DirectoryMissing,
            BuildEvent::Saved { saved, configured } => BuildEventView::Saved {
                saved: saved.deep_view(),
                configured: configured.deep_view(),
            },
            BuildEvent::Extensions(m) => BuildEventView::Extensions(m.deep_view()),
            BuildEvent::Started { name, error } => BuildEventView::Started {
                name: name@,
                error: error.deep_view(),
            },
            BuildEvent::AllStarted => BuildEventView::AllStarted,
        }
    }
}

/// A state and the actions that lead on from it.
pub type BuildStep = (BuildSessionView, Seq<BuildActionView>);

/// The first of three that is there.
pub open spec fn first_of(
    a: Option<Seq<char>>,
    b: Option<Seq<char>>,
    c: Option<Seq<char>>,
) -> Option<Seq<char>> {
    if a is Some {
        a
    } else if b is Some {
        b
    } else {
        c
    }
}

/// The provider: the one that was asked for, else that of the settings, else
/// that of the configuration.
pub open spec fn provider_of(
    c: SessionBuilderConfigView,
    configured: Option<Seq<char>>,
) -> Option<Seq<char>> {
    first_of(
        c.provider,
        match c.settings {
            Some(s) => s.goose_provider,
            None => None,
        },
        configured,
    )
}

/// The model: the one that was asked for, else that of the settings, else that of
/// the configuration.
pub open spec fn model_of(
    c: SessionBuilderConfigView,
    configured: Option<Seq<char>>,
) -> Option<Seq<char>> {
    first_of(
        c.model,
        match c.settings {
            Some(s) => s.goose_model,
            None => None,
        },
        configured,
    )
}

pub open spec fn temperature_of(c: SessionBuilderConfigView) -> Option<u32> {
    match c.settings {
        Some(s) => s.temperature_bits,
        None => None,
    }
}

pub open spec fn kinds(kind: ExtraKind, list: Seq<Seq<char>>) -> Seq<(ExtraKind, Seq<char>)> {
    list.map_values(|s: Seq<char>| (kind, s))
}

/// The extensions that were asked for on the way in, in the order in which they
/// are added.
pub open spec fn extras_of(c: SessionBuilderConfigView) -> Seq<(ExtraKind, Seq<char>)> {
    kinds(ExtraKind::Stdio, c.extensions) + kinds(ExtraKind::Remote, c.remote_extensions) + kinds(
        ExtraKind::StreamableHttp,
        c.streamable_http_extensions,
    ) + kinds(ExtraKind::Builtin, c.builtins)
}

/// The start: a provider and a model have to be known.
pub open spec fn build_start(
    c: SessionBuilderConfigView,
    configured_provider: Option<Seq<char>>,
    configured_model: Option<Seq<char>>,
) -> Result<BuildStep, MissingSetting> {
    match (provider_of(c, configured_provider), model_of(c, configured_model)) {
        (None, _) => Err(MissingSetting::Provider),
        (_, None) => Err(MissingSetting::Model),
        (Some(provider_name), Some(model_name)) => Ok(
            (
                BuildSessionView {
                    config: c,
                    provider_name,
                    model_name,
                    session_id: None,
                    original_dir: Seq::empty(),
                    to_run: Seq::empty(),
                    missing: Seq::empty(),
                    waiting: Seq::empty(),
                    failed: Seq::empty(),
                    extras: extras_of(c),
                    phase: BuildPhase::ModelCreating,
                },
                seq![
                    BuildActionView::CreateModel {
                        model_name,
                        temperature_bits: temperature_of(c),
                    },
                ],
            ),
        ),
    }
}

pub open spec fn build_wait(
    s: BuildSessionView,
    a: Seq<BuildActionView>,
    phase: BuildPhase,
    action: BuildActionView,
) -> BuildStep {
    (BuildSessionView { phase, ..s }, a.push(action))
}

pub open spec fn build_exit(s: BuildSessionView, message: Seq<char>, code: i32) -> BuildStep {
    build_wait(
        s,
        Seq::empty(),
        BuildPhase::Finished,
        BuildActionView::Exit { message, code },
    )
}

/// What is said where the provider cannot be made.
pub open spec fn provider_failed_text(e: Seq<char>) -> Seq<char> {
    "Error "@ + e
        + ".\nPlease check your system keychain and run 'goose configure' again.\nIf your system is unable to use the keyring, please try setting secret key(s) via environment variables.\nFor more info, see: https://block.github.io/goose/docs/troubleshooting/#keychainkeyring-errors"@
}

/// The limit on repeated tool calls, where one is set.
pub open spec fn repetition_limit(c: SessionBuilderConfigView) -> Seq<BuildActionView> {
    match c.max_tool_repetitions {
        Some(n) => seq![BuildActionView::LimitRepetitions(n)],
        None => Seq::empty(),
    }
}

/// An agent that is ready gets its limit, and then its session.
pub open spec fn agent_ready(s: BuildSessionView) -> BuildStep {
    let next = resolve_session(s);
    (next.0, repetition_limit(s.config) + next.1)
}

/// The session: none, one that goes on, the latest, a given one or a new one.
pub open spec fn resolve_session(s: BuildSessionView) -> BuildStep {
    let none = Seq::<BuildActionView>::empty();
    if s.config.no_session {
        session_known(s, None)
    } else if s.config.resume {
        match s.config.session_id {
            Some(id) => build_wait(
                s,
                none,
                BuildPhase::SessionFinding,
                BuildActionView::FindSession(id),
            ),
            None => build_wait(s, none, BuildPhase::SessionListing, BuildActionView::ListSessions),
        }
    } else {
        match s.config.session_id {
            Some(id) => session_known(s, Some(id)),
            None => build_wait(
                s,
                none,
                BuildPhase::SessionCreating,
                BuildActionView::CreateSession,
            ),
        }
    }
}

/// A session that goes on may have been in another directory.
pub open spec fn session_known(s: BuildSessionView, id: Option<Seq<char>>) -> BuildStep {
    let a = seq![BuildActionView::SetContext(id)];
    let t = BuildSessionView { session_id: id, ..s };
    if s.config.resume && id is Some {
        build_wait(t, a, BuildPhase::MetadataReading, BuildActionView::ReadMetadata(id->0))
    } else {
        choose_extensions(t, a)
    }
}

/// The extensions: the only ones that were asked for, those of the session
/// before, or the enabled ones.
pub open spec fn choose_extensions(s: BuildSessionView, a: Seq<BuildActionView>) -> BuildStep {
    if let Some(list) = s.config.extensions_override {
        start_extensions(s, a.push(BuildActionView::DisableRouter), list)
    } else if s.config.resume && s.session_id is Some {
        build_wait(
            s,
            a,
            BuildPhase::SavedReading,
            BuildActionView::ReadSaved(s.session_id->0),
        )
    } else {
        build_wait(s, a, BuildPhase::ExtensionsReading, BuildActionView::ReadExtensions)
    }
}

/// The names of extensions.
pub open spec fn names_of(list: Seq<ExtensionConfigView>) -> Seq<Seq<char>> {
    list.map_values(|c: ExtensionConfigView| c.name())
}

/// What is said while extensions start.
pub open spec fn progress_text(waiting: Seq<Seq<char>>) -> Seq<char> {
    "starting "@ + text::decimal(waiting.len()) + " extensions: "@ + text::joined(
        in_text_order(waiting),
        ", "@,
    )
}

pub open spec fn start_extensions(
    s: BuildSessionView,
    a: Seq<BuildActionView>,
    list: Seq<ExtensionConfigView>,
) -> BuildStep {
    let waiting = once(names_of(list));
    build_wait(
        BuildSessionView { waiting, ..s },
        a.push(BuildActionView::ShowProgress(progress_text(waiting))),
        BuildPhase::ExtensionsStarting,
        BuildActionView::StartExtensions(list),
    )
}

/// The extensions that are no longer configured.
pub open spec fn missing_in(list: Seq<ExtensionConfigView>, configured: ExtensionsView) -> Seq<
    ExtensionConfigView,
>
    decreases list.len(),
{
    if list.len() == 0 {
        list
    } else {
        let rest = missing_in(list.drop_last(), configured);
        if config_named(configured, list.last().name()) is None {
            rest.push(list.last())
        } else {
            rest
        }
    }
}

/// The extensions of the session before go on; where some are no longer
/// configured, the user is asked first.
pub open spec fn saved_read(
    s: BuildSessionView,
    saved: Option<Seq<ExtensionConfigView>>,
    configured: ExtensionsView,
) -> BuildStep {
    let none = Seq::<BuildActionView>::empty();
    match saved {
        None => start_extensions(s, none, enabled_configs(configured)),
        Some(list) => {
            let missing = missing_in(list, configured);
            if missing.len() > 0 {
                build_wait(
                    BuildSessionView { to_run: list, missing, ..s },
                    none,
                    BuildPhase::ReaddConfirming,
                    BuildActionView::ConfirmReadd(text::joined(names_of(missing), ", "@)),
                )
            } else {
                start_extensions(s, none, list)
            }
        },
    }
}

pub open spec fn enabled_entries(list: Seq<ExtensionConfigView>) -> Seq<ExtensionEntryView> {
    list.map_values(|c: ExtensionConfigView| ExtensionEntryView { enabled: true, config: c })
}

/// Debugging is offered for one failed extension after the other, where a user is
/// there.
pub open spec fn next_debug(s: BuildSessionView) -> BuildStep {
    if s.config.interactive && s.failed.len() > 0 {
        build_wait(
            s,
            Seq::empty(),
            BuildPhase::DebugOffering,
            BuildActionView::OfferDebug { name: s.failed[0].0, error: s.failed[0].1 },
        )
    } else {
        next_extra(s)
    }
}

/// One more extension that was asked for is added, or the state is saved.
pub open spec fn next_extra(s: BuildSessionView) -> BuildStep {
    if s.extras.len() > 0 {
        build_wait(
            s,
            Seq::empty(),
            BuildPhase::ExtraAdding,
            BuildActionView::AddExtra { kind: s.extras[0].0, extension: s.extras[0].1 },
        )
    } else {
        match s.session_id {
            Some(id) => build_wait(
                s,
                Seq::empty(),
                BuildPhase::StateSaving,
                BuildActionView::SaveState(id),
            ),
            None => build_finish(s),
        }
    }
}

pub open spec fn build_finish(s: BuildSessionView) -> BuildStep {
    build_wait(
        s,
        Seq::empty(),
        BuildPhase::Finished,
        BuildActionView::Finish {
            session_id: s.session_id,
            additional_prompt: s.config.additional_system_prompt,
            show_info: !s.config.quiet,
        },
    )
}

/// How an extension that was asked for is called.
pub open spec fn kind_name(kind: ExtraKind) -> Seq<char> {
    match kind {
        ExtraKind::Stdio => "stdio"@,
        ExtraKind::Remote => "remote"@,
        ExtraKind::StreamableHttp => "streamable HTTP"@,
        ExtraKind::Builtin => "builtin"@,
    }
}

/// What is said where an extension that was asked for does not start.
pub open spec fn extra_warning(kind: ExtraKind, name: Seq<char>, e: Seq<char>) -> Seq<char> {
    "Warning: Failed to start "@ + kind_name(kind) + " extension '"@ + name + "' ("@ + e
        + "), continuing without it"@
}

pub open spec fn extra_failed(s: BuildSessionView, e: Seq<char>) -> BuildStep {
    let (kind, name) = s.extras[0];
    let a = seq![BuildActionView::Warn(extra_warning(kind, name, e))];
    if s.config.interactive {
        build_wait(
            s,
            a,
            BuildPhase::ExtraDebugOffering,
            BuildActionView::OfferDebug { name, error: e },
        )
    } else {
        let next = next_extra(BuildSessionView { extras: s.extras.drop_first(), ..s });
        (next.0, a + next.1)
    }
}

/// The step that an event leads to. An event that the phase does not wait for
/// changes nothing.
pub open spec fn build_step(s: BuildSessionView, e: BuildEventView) -> BuildStep {
    let none = Seq::<BuildActionView>::empty();
    match (s.phase, e) {
        (BuildPhase::ModelCreating, BuildEventView::Done) => build_wait(
            s,
            none,
            BuildPhase::ProviderCreating,
            BuildActionView::CreateProvider { provider_name: s.provider_name },
        ),
        (BuildPhase::ModelCreating, BuildEventView::Failed(e)) => build_exit(
            s,
            "Failed to create model configuration: "@ + e,
            1,
        ),
        (BuildPhase::ProviderCreating, BuildEventView::Done) => build_wait(
            s,
            none,
            BuildPhase::AgentInitializing,
            BuildActionView::InitializeAgent,
        ),
        (BuildPhase::ProviderCreating, BuildEventView::Failed(e)) => build_exit(
            s,
            provider_failed_text(e),
            1,
        ),
        (BuildPhase::AgentInitializing, BuildEventView::Done) => agent_ready(s),
        (BuildPhase::AgentInitializing, BuildEventView::Failed(e)) => build_exit(
            s,
            "Failed to initialize agent: "@ + e,
            1,
        ),
        (BuildPhase::SessionFinding, BuildEventView::Found(found)) => match s.config.session_id {
            Some(id) => if found {
                session_known(s, Some(id))
            } else {
                build_exit(
                    s,
                    "Cannot resume session "@ + id + " - no such session exists"@,
                    1,
                )
            },
            None => (s, none),
        },
        (BuildPhase::SessionListing, BuildEventView::Sessions(list)) => match list {
            Some(ids) => if ids.len() > 0 {
                session_known(s, Some(ids[0]))
            } else {
                build_exit(s, "Cannot resume - no previous sessions found"@, 1)
            },
            None => build_exit(s, "Cannot resume - no previous sessions found"@, 1),
        },
        (BuildPhase::SessionCreating, BuildEventView::Created(id)) => session_known(s, Some(id)),
        (BuildPhase::MetadataReading, BuildEventView::Metadata { current, original }) => if current
            == original {
            choose_extensions(s, none)
        } else {
            build_wait(
                BuildSessionView { original_dir: original, ..s },
                none,
                BuildPhase::DirectoryConfirming,
                BuildActionView::ConfirmDirectory { current, original },
            )
        },
        (BuildPhase::MetadataReading, BuildEventView::Failed(e)) => build_exit(
            s,
            "Failed to read session metadata: "@ + e,
            1,
        ),
        (BuildPhase::DirectoryConfirming, BuildEventView::Confirmed(yes)) => if yes {
            build_wait(
                s,
                none,
                BuildPhase::DirectorySwitching,
                BuildActionView::SwitchDirectory(s.original_dir),
            )
        } else {
            choose_extensions(s, none)
        },
        (BuildPhase::DirectorySwitching, BuildEventView::Done) => choose_extensions(s, none),
        (BuildPhase::DirectorySwitching, BuildEventView::DirectoryMissing) => choose_extensions(
            s,
            seq![
                BuildActionView::ReportError(
                    "Cannot switch to original working directory - "@ + s.original_dir
                        + " no longer exists"@,
                ),
            ],
        ),
        (BuildPhase::DirectorySwitching, BuildEventView::Failed(e)) => choose_extensions(
            s,
            seq![
                BuildActionView::ReportError(
                    "Failed to switch to original working directory: "@ + e,
                ),
            ],
        ),
        (BuildPhase::SavedReading, BuildEventView::Saved { saved, configured }) => saved_read(
            s,
            saved,
            configured,
        ),
        (BuildPhase::ExtensionsReading, BuildEventView::Extensions(m)) => start_extensions(
            s,
            none,
            enabled_configs(m),
        ),
        (BuildPhase::ReaddConfirming, BuildEventView::Confirmed(yes)) => if yes {
            start_extensions(
                s,
                seq![BuildActionView::SetExtensions(enabled_entries(s.missing))],
                s.to_run,
            )
        } else {
            build_exit(s, "Resume cancelled."@, 0)
        },
        (BuildPhase::ExtensionsStarting, BuildEventView::Started { name, error }) => match error {
            None => {
                let waiting = without_text(s.waiting, name);
                (
                    BuildSessionView { waiting, ..s },
                    none.push(BuildActionView::ShowProgress(progress_text(waiting))),
                )
            },
            Some(e) => (BuildSessionView { failed: s.failed.push((name, e)), ..s }, none),
        },
        (BuildPhase::ExtensionsStarting, BuildEventView::AllStarted) => next_debug(s),
        (BuildPhase::DebugOffering, BuildEventView::Done) => if s.failed.len() > 0 {
            next_debug(BuildSessionView { failed: s.failed.drop_first(), ..s })
        } else {
            (s, none)
        },
        (BuildPhase::ExtraAdding, BuildEventView::Done) => if s.extras.len() > 0 {
            next_extra(BuildSessionView { extras: s.extras.drop_first(), ..s })
        } else {
            (s, none)
        },
        (BuildPhase::ExtraAdding, BuildEventView::Failed(e)) => if s.extras.len() > 0 {
            extra_failed(s, e)
        } else {
            (s, none)
        },
        (BuildPhase::ExtraDebugOffering, BuildEventView::Done) => if s.extras.len() > 0 {
            next_extra(BuildSessionView { extras: s.extras.drop_first(), ..s })
        } else {
            (s, none)
        },
        (BuildPhase::StateSaving, BuildEventView::Done) => build_finish(s),
        (BuildPhase::StateSaving, BuildEventView::Failed(_)) => build_finish(s),
        _ => (s, none),
    }
}

fn pick(a: &Option<String>, b: Option<&String>, c: Option<String>) -> (r: Option<String>)
    ensures
        r.deep_view() == first_of(a.deep_view(), b.deep_view(), c.deep_view()),
{
    if a.is_some() {
        return a.duplicate();
    }
    match b {
        Some(s) => Some(s.clone()),
        None => c,
    }
}

fn push_kind(out: &mut Vec<(ExtraKind, String)>, kind: ExtraKind, list: &Vec<String>)
    ensures
        final(out).deep_view() == old(out).deep_view() + kinds(kind, list.deep_view()),
{
    let ghost before = out.deep_view();
    let ghost all = kinds(kind, list.deep_view());
    let mut i: usize = 0;
    assert(before + all.take(0) =~= before);
    while i < list.len()
        invariant
            i <= list@.len(),
            all == kinds(kind, list.deep_view()),
            out.deep_view() == before + all.take(i as int),
        decreases list@.len() - i,
    {
        base::push(out, (kind, list[i].clone()));
        assert(out.deep_view() =~= before + all.take(i + 1));
        i = i + 1;
    }
    assert(all.take(all.len() as int) =~= all);
}

/// The names of extensions.
pub fn names_list(list: &Vec<ExtensionConfig>) -> (r: Vec<String>)
    ensures
        r.deep_view() == names_of(list.deep_view()),
{
    let mut out: Vec<String> = Vec::new();
    let mut i: usize = 0;
    while i < list.len()
        invariant
            i <= list@.len(),
            out.deep_view() == names_of(list.deep_view()).take(i as int),
        decreases list@.len() - i,
    {
        base::push(&mut out, list[i].name().clone());
        assert(out.deep_view() =~= names_of(list.deep_view()).take(i + 1));
        i = i + 1;
    }
    assert(out.deep_view() =~= names_of(list.deep_view()));
    out
}

fn progress(waiting: &Vec<String>) -> (r: String)
    ensures
        r@ == progress_text(waiting.deep_view()),
{
    let names = text_list::sort_texts(waiting);
    assert(text::texts(names@) =~= names.deep_view());
    let count: usize = waiting.len();
    let mut t = text::cat3("starting ", &text::to_decimal(count as u64), " extensions: ");
    t.append(&text::join(&names, ", "));
    t
}

/// The extensions that are no longer configured.
pub fn missing_extensions(saved: &Vec<ExtensionConfig>, configured: &ExtensionsMap) -> (r: Vec<
    ExtensionConfig,
>)
    ensures
        r.deep_view() == missing_in(saved.deep_view(), configured.deep_view()),
{
    let mut out: Vec<ExtensionConfig> = Vec::new();
    let ghost all = saved.deep_view();
    let mut i: usize = 0;
    assert(out.deep_view() =~= missing_in(all.take(0), configured.deep_view()));
    while i < saved.len()
        invariant
            i <= saved@.len(),
            all == saved.deep_view(),
            out.deep_view() == missing_in(all.take(i as int), configured.deep_view()),
        decreases saved@.len() - i,
    {
        assert(all.take(i + 1).drop_last() =~= all.take(i as int));
        if config_extensions::get_extension_by_name(configured, saved[i].name()).is_none() {
            base::push(&mut out, saved[i].duplicate());
        }
        i = i + 1;
    }
    assert(all.take(all.len() as int) =~= all);
    out
}

fn entries_for(list: &Vec<ExtensionConfig>) -> (r: Vec<ExtensionEntry>)
    ensures
        r.deep_view() == enabled_entries(list.deep_view()),
{
    let mut out: Vec<ExtensionEntry> = Vec::new();
    let mut i: usize = 0;
    while i < list.len()
        invariant
            i <= list@.len(),
            out.deep_view() == enabled_entries(list.deep_view()).take(i as int),
        decreases list@.len() - i,
    {
        base::push(&mut out, ExtensionEntry { enabled: true, config: list[i].duplicate() });
        assert(out.deep_view() =~= enabled_entries(list.deep_view()).take(i + 1));
        i = i + 1;
    }
    assert(out.deep_view() =~= enabled_entries(list.deep_view()));
    out
}

fn nothing() -> (r: Vec<BuildAction>)
    ensures
        r.deep_view() == Seq::<BuildActionView>::empty(),
{
    let out: Vec<BuildAction> = Vec::new();
    assert(out.deep_view() =~= Seq::<BuildActionView>::empty());
    out
}

impl BuildSession {
    /// Starts to set up a session. `provider` and `model` are those of the
    /// configuration.
    pub fn start(config: SessionBuilderConfig, provider: Option<String>, model: Option<String>) -> (
    r: Result<(Self, Vec<BuildAction>), MissingSetting>)
        ensures
            match r {
                Ok(t) => build_start(
                    config.deep_view(),
                    provider.deep_view(),
                    model.deep_view(),
                ) == Ok::<BuildStep, MissingSetting>((t.0.deep_view(), t.1.deep_view())),
                Err(e) => build_start(
                    config.deep_view(),
                    provider.deep_view(),
                    model.deep_view(),
                ) == Err::<BuildStep, MissingSetting>(e),
            },
    {
        let (settings_provider, settings_model, temperature_bits) = match &config.settings {
            Some(s) => (s.goose_provider.as_ref(), s.goose_model.as_ref(), s.temperature_bits),
            None => (None, None, None),
        };
        let provider_name = match pick(&config.provider, settings_provider, provider) {
            Some(p) => p,
            None => {
                return Err(MissingSetting::Provider);
            },
        };
        let model_name = match pick(&config.model, settings_model, model) {
            Some(m) => m,
            None => {
                return Err(MissingSetting::Model);
            },
        };
        let mut extras: Vec<(ExtraKind, String)> = Vec::new();
        assert(extras.deep_view() =~= Seq::<(ExtraKind, Seq<char>)>::empty());
        push_kind(&mut extras, ExtraKind::Stdio, &config.extensions);
        push_kind(&mut extras, ExtraKind::Remote, &config.remote_extensions);
        push_kind(&mut extras, ExtraKind::StreamableHttp, &config.streamable_http_extensions);
        push_kind(&mut extras, ExtraKind::Builtin, &config.builtins);
        assert(extras.deep_view() =~= extras_of(config.deep_view()));
        let mut out = nothing();
        base::push(
            &mut out,
            BuildAction::CreateModel { model_name: model_name.clone(), temperature_bits },
        );
        assert(out.deep_view() =~= seq![
            BuildActionView::CreateModel {
                model_name: model_name@,
                temperature_bits: temperature_of(config.deep_view()),
            },
        ]);
        let s = BuildSession {
            config,
            provider_name,
            model_name,
            session_id: None,
            original_dir: String::new(),
            to_run: Vec::new(),
            missing: Vec::new(),
            waiting: Vec::new(),
            failed: Vec::new(),
            extras,
            phase: BuildPhase::ModelCreating,
        };
        assert(s.deep_view() =~= build_start(
            config.deep_view(),
            provider.deep_view(),
            model.deep_view(),
        )->Ok_0.0);
        Ok((s, out))
    }

    fn wait(&mut self, mut out: Vec<BuildAction>, phase: BuildPhase, action: BuildAction) -> (r:
        Vec<BuildAction>)
        ensures
            (final(self).deep_view(), r.deep_view()) == build_wait(
                old(self).deep_view(),
                out.deep_view(),
                phase,
                action.deep_view(),
            ),
    {
        self.phase = phase;
        base::push(&mut out, action);
        out
    }

    fn exit(&mut self, message: String, code: i32) -> (r: Vec<BuildAction>)
        ensures
            (final(self).deep_view(), r.deep_view()) == build_exit(
                old(self).deep_view(),
                message@,
                code,
            ),
    {
        self.wait(nothing(), BuildPhase::Finished, BuildAction::Exit { message, code })
    }

    fn agent_ready(&mut self) -> (r: Vec<BuildAction>)
        ensures
            (final(self).deep_view(), r.deep_view()) == agent_ready(old(self).deep_view()),
    {
        let mut out = nothing();
        if let Some(n) = self.config.max_tool_repetitions {
            base::push(&mut out, BuildAction::LimitRepetitions(n));
        }
        assert(out.deep_view() =~= repetition_limit(self.config.deep_view()));
        let mut next = self.resolve_session();
        let ghost o = out.deep_view();
        let ghost n = next.deep_view();
        out.append(&mut next);
        assert(out.deep_view() =~= o + n);
        out
    }

    fn resolve_session(&mut self) -> (r: Vec<BuildAction>)
        ensures
            (final(self).deep_view(), r.deep_view()) == resolve_session(old(self).deep_view()),
    {
        if self.config.no_session {
            return self.session_known(None);
        }
        let id = self.config.session_id.duplicate();
        match (self.config.resume, id) {
            (true, Some(id)) => self.wait(
                nothing(),
                BuildPhase::SessionFinding,
                BuildAction::FindSession(id),
            ),
            (true, None) => self.wait(
                nothing(),
                BuildPhase::SessionListing,
                BuildAction::ListSessions,
            ),
            (false, Some(id)) => self.session_known(Some(id)),
            (false, None) => self.wait(
                nothing(),
                BuildPhase::SessionCreating,
                BuildAction::CreateSession,
            ),
        }
    }

    fn session_known(&mut self, id: Option<String>) -> (r: Vec<BuildAction>)
        ensures
            (final(self).deep_view(), r.deep_view()) == session_known(
                old(self).deep_view(),
                id.deep_view(),
            ),
    {
        let mut out = nothing();
        base::push(&mut out, BuildAction::SetContext(id.duplicate()));
        assert(out.deep_view() =~= seq![BuildActionView::SetContext(id.deep_view())]);
        self.session_id = id.duplicate();
        if self.config.resume {
            if let Some(id) = id {
                return self.wait(out, BuildPhase::MetadataReading, BuildAction::ReadMetadata(id));
            }
        }
        self.choose_extensions(out)
    }

    fn choose_extensions(&mut self, mut out: Vec<BuildAction>) -> (r: Vec<BuildAction>)
        ensures
            (final(self).deep_view(), r.deep_view()) == choose_extensions(
                old(self).deep_view(),
                out.deep_view(),
            ),
    {
        let only = self.config.extensions_override.duplicate();
        if let Some(list) = only {
            base::push(&mut out, BuildAction::DisableRouter);
            return self.start_extensions(out, list);
        }
        if self.config.resume {
            let id = self.session_id.duplicate();
            if let Some(id) = id {
                return self.wait(out, BuildPhase::SavedReading, BuildAction::ReadSaved(id));
            }
        }
        self.wait(out, BuildPhase::ExtensionsReading, BuildAction::ReadExtensions)
    }

    fn start_extensions(&mut self, mut out: Vec<BuildAction>, list: Vec<ExtensionConfig>) -> (r:
        Vec<BuildAction>)
        ensures
            (final(self).deep_view(), r.deep_view()) == start_extensions(
                old(self).deep_view(),
                out.deep_view(),
                list.deep_view(),
            ),
    {
        self.waiting = text_list::once_list(&names_list(&list));
        base::push(&mut out, BuildAction::ShowProgress(progress(&self.waiting)));
        self.wait(out, BuildPhase::ExtensionsStarting, BuildAction::StartExtensions(list))
    }

    fn saved_read(&mut self, saved: Option<Vec<ExtensionConfig>>, configured: &ExtensionsMap) -> (r:
        Vec<BuildAction>)
        ensures
            (final(self).deep_view(), r.deep_view()) == saved_read(
                old(self).deep_view(),
                saved.deep_view(),
                configured.deep_view(),
            ),
    {
        match saved {
            None => {
                let list = config_extensions::get_enabled_extensions(configured);
                self.start_extensions(nothing(), list)
            },
            Some(list) => {
                let missing = missing_extensions(&list, configured);
                if missing.len() > 0 {
                    let names = names_list(&missing);
                    assert(text::texts(names@) =~= names.deep_view());
                    let joined = text::join(&names, ", ");
                    self.to_run = list;
                    self.missing = missing;
                    self.wait(
                        nothing(),
                        BuildPhase::ReaddConfirming,
                        BuildAction::ConfirmReadd(joined),
                    )
                } else {
                    self.start_extensions(nothing(), list)
                }
            },
        }
    }

    fn next_debug(&mut self) -> (r: Vec<BuildAction>)
        ensures
            (final(self).deep_view(), r.deep_view()) == next_debug(old(self).deep_view()),
    {
        if self.config.interactive && self.failed.len() > 0 {
            let a = BuildAction::OfferDebug {
                name: self.failed[0].0.clone(),
                error: self.failed[0].1.clone(),
            };
            self.wait(nothing(), BuildPhase::DebugOffering, a)
        } else {
            self.next_extra()
        }
    }

    fn next_extra(&mut self) -> (r: Vec<BuildAction>)
        ensures
            (final(self).deep_view(), r.deep_view()) == next_extra(old(self).deep_view()),
    {
        if self.extras.len() > 0 {
            let a = BuildAction::AddExtra {
                kind: self.extras[0].0,
                extension: self.extras[0].1.clone(),
            };
            return self.wait(nothing(), BuildPhase::ExtraAdding, a);
        }
        let id = self.session_id.duplicate();
        match id {
            Some(id) => self.wait(nothing(), BuildPhase::StateSaving, BuildAction::SaveState(id)),
            None => self.finish(),
        }
    }

    fn finish(&mut self) -> (r: Vec<BuildAction>)
        ensures
            (final(self).deep_view(), r.deep_view()) == build_finish(old(self).deep_view()),
    {
        let a = BuildAction::Finish {
            session_id: self.session_id.duplicate(),
            additional_prompt: self.config.additional_system_prompt.duplicate(),
            show_info: !self.config.quiet,
        };
        self.wait(nothing(), BuildPhase::Finished, a)
    }

    fn drop_extra(&mut self)
        requires
            old(self).extras@.len() > 0,
        ensures
            final(self).deep_view() == (BuildSessionView {
                extras: old(self).deep_view().extras.drop_first(),
                ..old(self).deep_view()
            }),
    {
        let ghost e = self.extras.deep_view();
        let _ = self.extras.remove(0);
        assert(self.extras.deep_view() =~= e.drop_first());
    }

    fn extra_failed(&mut self, e: String) -> (r: Vec<BuildAction>)
        requires
            old(self).extras@.len() > 0,
        ensures
            (final(self).deep_view(), r.deep_view()) == extra_failed(old(self).deep_view(), e@),
    {
        let kind = self.extras[0].0;
        let name = self.extras[0].1.clone();
        let kind_text = match kind {
            ExtraKind::Stdio => text::owned("stdio"),
            ExtraKind::Remote => text::owned("remote"),
            ExtraKind::StreamableHttp => text::owned("streamable HTTP"),
            ExtraKind::Builtin => text::owned("builtin"),
        };
        let mut warning = text::cat5(
            "Warning: Failed to start ",
            &kind_text,
            " extension '",
            &name,
            "' (",
        );
        warning.append(&e);
        warning.append("), continuing without it");
        let mut out = nothing();
        base::push(&mut out, BuildAction::Warn(warning));
        assert(out.deep_view() =~= seq![
            BuildActionView::Warn(extra_warning(kind, name@, e@)),
        ]);
        if self.config.interactive {
            let a = BuildAction::OfferDebug { name, error: e };
            return self.wait(out, BuildPhase::ExtraDebugOffering, a);
        }
        self.drop_extra();
        let mut next = self.next_extra();
        let ghost n = next.deep_view();
        let ghost o = out.deep_view();
        out.append(&mut next);
        assert(out.deep_view() =~= o + n);
        out
    }

    fn started(&mut self, name: String, error: Option<String>) -> (r: Vec<BuildAction>)
        requires
            old(self).phase == BuildPhase::ExtensionsStarting,
        ensures
            (final(self).deep_view(), r.deep_view()) == build_step(
                old(self).deep_view(),
                BuildEventView::Started { name: name@, error: error.deep_view() },
            ),
    {
        let mut out = nothing();
        match error {
            None => {
                self.waiting = text_list::remove_text(&self.waiting, &name);
                base::push(&mut out, BuildAction::ShowProgress(progress(&self.waiting)));
            },
            Some(e) => {
                base::push(&mut self.failed, (name, e));
            },
        }
        out
    }

    fn report(&mut self, message: String) -> (r: Vec<BuildAction>)
        ensures
            (final(self).deep_view(), r.deep_view()) == choose_extensions(
                old(self).deep_view(),
                seq![BuildActionView::ReportError(message@)],
            ),
    {
        let mut out = nothing();
        base::push(&mut out, BuildAction::ReportError(message));
        assert(out.deep_view() =~= seq![BuildActionView::ReportError(message@)]);
        self.choose_extensions(out)
    }

    /// Takes the step that an event leads to.
    pub fn step(&mut self, event: BuildEvent) -> (r: Vec<BuildAction>)
        ensures
            (final(self).deep_view(), r.deep_view()) == build_step(
                old(self).deep_view(),
                event.deep_view(),
            ),
    {
        match (self.phase, event) {
            (BuildPhase::ModelCreating, BuildEvent::Done) => {
                let a = BuildAction::CreateProvider { provider_name: self.provider_name.clone() };
                self.wait(nothing(), BuildPhase::ProviderCreating, a)
            },
            (BuildPhase::ModelCreating, BuildEvent::Failed(e)) => {
                self.exit(text::cat("Failed to create model configuration: ", &e), 1)
            },
            (BuildPhase::ProviderCreating, BuildEvent::Done) => {
                self.wait(nothing(), BuildPhase::AgentInitializing, BuildAction::InitializeAgent)
            },
            (BuildPhase::ProviderCreating, BuildEvent::Failed(e)) => {
                let message = text::cat3(
                    "Error ",
                    &e,
                    ".\nPlease check your system keychain and run 'goose configure' again.\nIf your system is unable to use the keyring, please try setting secret key(s) via environment variables.\nFor more info, see: https://block.github.io/goose/docs/troubleshooting/#keychainkeyring-errors",
                );
                self.exit(message, 1)
            },
            (BuildPhase::AgentInitializing, BuildEvent::Done) => self.agent_ready(),
            (BuildPhase::AgentInitializing, BuildEvent::Failed(e)) => {
                self.exit(text::cat("Failed to initialize agent: ", &e), 1)
            },
            (BuildPhase::SessionFinding, BuildEvent::Found(found)) => {
                let id = self.config.session_id.duplicate();
                match id {
                    Some(id) => {
                        if found {
                            self.session_known(Some(id))
                        } else {
                            let message = text::cat3(
                                "Cannot resume session ",
                                &id,
                                " - no such session exists",
                            );
                            self.exit(message, 1)
                        }
                    },
                    None => nothing(),
                }
            },
            (BuildPhase::SessionListing, BuildEvent::Sessions(list)) => {
                if let Some(ids) = list {
                    if ids.len() > 0 {
                        return self.session_known(Some(ids[0].clone()));
                    }
                }
                self.exit(text::owned("Cannot resume - no previous sessions found"), 1)
            },
            (BuildPhase::SessionCreating, BuildEvent::Created(id)) => {
                self.session_known(Some(id))
            },
            (BuildPhase::MetadataReading, BuildEvent::Metadata { current, original }) => {
                if text::str_eq(&current, &original) {
                    return self.choose_extensions(nothing());
                }
                self.original_dir = original.clone();
                let a = BuildAction::ConfirmDirectory { current, original };
                self.wait(nothing(), BuildPhase::DirectoryConfirming, a)
            },
            (BuildPhase::MetadataReading, BuildEvent::Failed(e)) => {
                self.exit(text::cat("Failed to read session metadata: ", &e), 1)
            },
            (BuildPhase::DirectoryConfirming, BuildEvent::Confirmed(yes)) => {
                if yes {
                    let a = BuildAction::SwitchDirectory(self.original_dir.clone());
                    self.wait(nothing(), BuildPhase::DirectorySwitching, a)
                } else {
                    self.choose_extensions(nothing())
                }
            },
            (BuildPhase::DirectorySwitching, BuildEvent::Done) => {
                self.choose_extensions(nothing())
            },
            (BuildPhase::DirectorySwitching, BuildEvent::DirectoryMissing) => {
                let message = text::cat3(
                    "Cannot switch to original working directory - ",
                    &self.original_dir,
                    " no longer exists",
                );
                self.report(message)
            },
            (BuildPhase::DirectorySwitching, BuildEvent::Failed(e)) => {
                self.report(text::cat("Failed to switch to original working directory: ", &e))
            },
            (BuildPhase::SavedReading, BuildEvent::Saved { saved, configured }) => {
                self.saved_read(saved, &configured)
            },
            (BuildPhase::ExtensionsReading, BuildEvent::Extensions(m)) => {
                let list = config_extensions::get_enabled_extensions(&m);
                self.start_extensions(nothing(), list)
            },
            (BuildPhase::ReaddConfirming, BuildEvent::Confirmed(yes)) => {
                if yes {
                    let mut out = nothing();
                    let entries = entries_for(&self.missing);
                    base::push(&mut out, BuildAction::SetExtensions(entries));
                    assert(out.deep_view() =~= seq![
                        BuildActionView::SetExtensions(entries.deep_view()),
                    ]);
                    let list = self.to_run.duplicate();
                    self.start_extensions(out, list)
                } else {
                    self.exit(text::owned("Resume cancelled."), 0)
                }
            },
            (BuildPhase::ExtensionsStarting, BuildEvent::Started { name, error }) => {
                self.started(name, error)
            },
            (BuildPhase::ExtensionsStarting, BuildEvent::AllStarted) => self.next_debug(),
            (BuildPhase::DebugOffering, BuildEvent::Done) => {
                if self.failed.len() == 0 {
                    return nothing();
                }
                let ghost f = self.failed.deep_view();
                let _ = self.failed.remove(0);
                assert(self.failed.deep_view() =~= f.drop_first());
                self.next_debug()
            },
            (BuildPhase::ExtraAdding, BuildEvent::Done) => {
                if self.extras.len() == 0 {
                    return nothing();
                }
                self.drop_extra();
                self.next_extra()
            },
            (BuildPhase::ExtraAdding, BuildEvent::Failed(e)) => {
                if self.extras.len() == 0 {
                    return nothing();
                }
                self.extra_failed(e)
            },
            (BuildPhase::ExtraDebugOffering, BuildEvent::Done) => {
                if self.extras.len() == 0 {
                    return nothing();
                }
                self.drop_extra();
                self.next_extra()
            },
            (BuildPhase::StateSaving, BuildEvent::Done) => self.finish(),
            (BuildPhase::StateSaving, BuildEvent::Failed(_)) => self.finish(),
            _ => nothing(),
        }
    }
}

/// The way lines are edited that a text names, whatever its case.
pub open spec fn edit_mode(setting: Option<Seq<char>>) -> Option<EditMode> {
    match setting {
        Some(s) => if text::lower(s) == "emacs"@ {
            Some(EditMode::Emacs)
        } else if text::lower(s) == "vi"@ {
            Some(EditMode::Vi)
        } else {
            None
        },
        None => None,
    }
}

/// The way lines are edited that a lower-case text names.
pub fn edit_mode_named(lower: &str) -> (r: Option<EditMode>)
    ensures
        r == if lower@ == "emacs"@ {
            Some(EditMode::Emacs)
        } else if lower@ == "vi"@ {
            Some(EditMode::Vi)
        } else {
            None
        },
{
    if text::str_eq(lower, "emacs") {
        Some(EditMode::Emacs)
    } else if text::str_eq(lower, "vi") {
        Some(EditMode::Vi)
    } else {
        None
    }
}

/// The way lines are edited that the setting `EDIT_MODE` names, whatever its case.
/// Where it is set and names none, a notice is due.
pub fn parse_edit_mode(setting: Option<&str>) -> (r: (Option<EditMode>, bool))
    ensures
        r.0 == edit_mode(setting.deep_view()),
        r.1 == (setting is Some && r.0 is None),
{
    match setting {
        Some(s) => {
            let mode = edit_mode_named(&text::to_lowercase(s));
            (mode, mode.is_none())
        },
        None => (None, false),
    }
}

/// Whether debug output is shown: asked for on the way in, or by the setting
/// `GOOSE_DEBUG`.
pub fn debug_mode(config: &SessionBuilderConfig, setting: Option<bool>) -> (r: bool)
    ensures
        r == (config.debug || setting == Some(true)),
{
    config.debug || match setting {
        Some(b) => b,
        None => false,
    }
}

/// What the user is asked where an extension did not start.
pub fn debug_offer(extension_name: &str) -> (r: String)
    ensures
        r@ == "Would you like me to help debug the '"@ + extension_name@ + "' extension failure?"@,
{
    text::cat3("Would you like me to help debug the '", extension_name, "' extension failure?")
}

/// What a model is asked where an extension did not start.
pub open spec fn debug_prompt_text(name: Seq<char>, error: Seq<char>) -> Seq<char> {
    "I'm having trouble starting an extension called '"@ + name
        + "'. Here's the error I encountered:\n\n"@ + error
        + "\n\nCan you help me diagnose what might be wrong and suggest how to fix it? Please consider common issues like:\n- Missing dependencies or tools\n- Configuration problems\n- Network connectivity (for remote extensions)\n- Permission issues\n- Path or environment variable problems"@
}

/// What a model is asked where an extension did not start.
pub fn debug_prompt(extension_name: &str, error_message: &str) -> (r: String)
    ensures
        r@ == debug_prompt_text(extension_name@, error_message@),
{
    text::cat5(
        "I'm having trouble starting an extension called '",
        extension_name,
        "'. Here's the error I encountered:\n\n",
        error_message,
        "\n\nCan you help me diagnose what might be wrong and suggest how to fix it? Please consider common issues like:\n- Missing dependencies or tools\n- Configuration problems\n- Network connectivity (for remote extensions)\n- Permission issues\n- Path or environment variable problems",
    )
}

/// The first entry that is enabled and is the one for developers.
pub open spec fn developer_in(entries: Seq<ExtensionEntryView>) -> Option<ExtensionConfigView>
    decreases entries.len(),
{
    if entries.len() == 0 {
        None
    } else if entries[0].enabled && entries[0].config.name() == "developer"@ {
        Some(entries[0].config)
    } else {
        developer_in(entries.drop_first())
    }
}

/// The extension that helps to debug: the enabled one for developers.
pub fn debug_extension(entries: &Vec<ExtensionEntry>) -> (r: Option<ExtensionConfig>)
    ensures
        r.deep_view() == developer_in(entries.deep_view()),
{
    let ghost all = entries.deep_view();
    let mut i: usize = 0;
    assert(all.skip(0) =~= all);
    while i < entries.len()
        invariant
            i <= entries@.len(),
            all == entries.deep_view(),
            developer_in(all) == developer_in(all.skip(i as int)),
        decreases entries@.len() - i,
    {
        assert(all.skip(i as int).drop_first() =~= all.skip(i + 1));
        if entries[i].enabled && text::str_eq(entries[i].config.name(), "developer") {
            return Some(entries[i].config.duplicate());
        }
        i = i + 1;
    }
    None
}

/// A finished session stays as it is, and nothing more is done.
pub proof fn law_finished_is_final(s: BuildSessionView, e: BuildEventView)
    requires
        s.phase == BuildPhase::Finished,
    ensures
        build_step(s, e) == (s, Seq::<BuildActionView>::empty()),
{
}

/// Without a session nothing is stored: no session is looked for or made, and no
/// state is saved.
#[verifier::spinoff_prover]
#[verifier::rlimit(60)]
pub proof fn law_no_session_stores_nothing(s: BuildSessionView, e: BuildEventView)
    requires
        s.config.no_session,
        s.session_id is None,
        no_store_phase(s.phase),
    ensures
        ({
            let t = build_step(s, e);
            &&& t.0.config == s.config && t.0.session_id is None && no_store_phase(t.0.phase)
            &&& forall|i: int| 0 <= i < t.1.len() ==> !stores(#[trigger] t.1[i])
        }),
{
}

pub open spec fn no_store_phase(p: BuildPhase) -> bool {
    p != BuildPhase::SessionFinding && p != BuildPhase::SessionListing && p
        != BuildPhase::SessionCreating && p != BuildPhase::StateSaving && p
        != BuildPhase::SavedReading && p != BuildPhase::MetadataReading && p
        != BuildPhase::DirectoryConfirming && p != BuildPhase::DirectorySwitching && p
        != BuildPhase::ReaddConfirming
}

pub open spec fn stores(a: BuildActionView) -> bool {
    a is FindSession || a is ListSessions || a is CreateSession || a is SaveState
}

/// No extension that was asked for is added.
pub open spec fn adds_no_extra(a: Seq<BuildActionView>) -> bool {
    forall|i: int| 0 <= i < a.len() ==> !((#[trigger] a[i]) is AddExtra)
}

proof fn lemma_choose_adds_none(s: BuildSessionView, a: Seq<BuildActionView>)
    requires
        adds_no_extra(a),
    ensures
        choose_extensions(s, a).0.extras == s.extras,
        adds_no_extra(choose_extensions(s, a).1),
{
}

proof fn lemma_known_adds_none(s: BuildSessionView, id: Option<Seq<char>>)
    ensures
        session_known(s, id).0.extras == s.extras,
        adds_no_extra(session_known(s, id).1),
{
    let a = seq![BuildActionView::SetContext(id)];
    lemma_choose_adds_none(BuildSessionView { session_id: id, ..s }, a);
}

proof fn lemma_ready_adds_none(s: BuildSessionView)
    ensures
        agent_ready(s).0.extras == s.extras,
        adds_no_extra(agent_ready(s).1),
{
    lemma_known_adds_none(s, None);
    lemma_known_adds_none(s, s.config.session_id);
    let limit = repetition_limit(s.config);
    let next = resolve_session(s).1;
    assert(adds_no_extra(next));
    assert forall|i: int| 0 <= i < (limit + next).len() implies !((#[trigger] (limit
        + next)[i]) is AddExtra) by {
        if i >= limit.len() {
            assert((limit + next)[i] == next[i - limit.len()]);
        }
    }
}

/// What is added is the first extension that is left.
pub open spec fn adds_first(t: BuildStep) -> bool {
    forall|i: int|
        0 <= i < t.1.len() && (#[trigger] t.1[i]) is AddExtra ==> t.0.extras.len() > 0 && t.1[i]
            == (BuildActionView::AddExtra { kind: t.0.extras[0].0, extension: t.0.extras[0].1 })
}

/// The extensions that were asked for are added one after the other: each is the
/// first that is left, and leaves the list before the next.
pub proof fn law_extras_in_order(s: BuildSessionView, e: BuildEventView)
    ensures
        adds_first(build_step(s, e)),
        build_step(s, e).0.extras == s.extras || (s.extras.len() > 0 && build_step(s, e).0.extras
            == s.extras.drop_first()),
{
    let none = Seq::<BuildActionView>::empty();
    match (s.phase, e) {
        (BuildPhase::AgentInitializing, BuildEventView::Done) => {
            lemma_ready_adds_none(s);
        },
        (BuildPhase::SessionFinding, BuildEventView::Found(_)) => {
            lemma_known_adds_none(s, s.config.session_id);
        },
        (BuildPhase::SessionListing, BuildEventView::Sessions(Some(ids))) => {
            if ids.len() > 0 {
                lemma_known_adds_none(s, Some(ids[0]));
            }
        },
        (BuildPhase::SessionCreating, BuildEventView::Created(id)) => {
            lemma_known_adds_none(s, Some(id));
        },
        (BuildPhase::MetadataReading, _) => {
            lemma_choose_adds_none(s, none);
        },
        (BuildPhase::DirectoryConfirming, _) => {
            lemma_choose_adds_none(s, none);
        },
        (BuildPhase::DirectorySwitching, BuildEventView::Done) => {
            lemma_choose_adds_none(s, none);
        },
        (BuildPhase::DirectorySwitching, BuildEventView::DirectoryMissing) => {
            lemma_choose_adds_none(
                s,
                seq![
                    BuildActionView::ReportError(
                        "Cannot switch to original working directory - "@ + s.original_dir
                            + " no longer exists"@,
                    ),
                ],
            );
        },
        (BuildPhase::DirectorySwitching, BuildEventView::Failed(m)) => {
            lemma_choose_adds_none(
                s,
                seq![
                    BuildActionView::ReportError(
                        "Failed to switch to original working directory: "@ + m,
                    ),
                ],
            );
        },
        _ => {},
    }
}

/// What is known of a session that was given the only extensions to use.
pub open spec fn override_phase(p: BuildPhase) -> bool {
    p != BuildPhase::SavedReading && p != BuildPhase::ExtensionsReading && p
        != BuildPhase::ReaddConfirming
}

/// A session that was given the only extensions to use starts these and no
/// others, whatever happens.
#[verifier::spinoff_prover]
#[verifier::rlimit(60)]
pub proof fn law_override_is_all(
    s: BuildSessionView,
    e: BuildEventView,
    only: Seq<ExtensionConfigView>,
    i: int,
)
    requires
        s.config.extensions_override == Some(only),
        override_phase(s.phase),
    ensures
        build_step(s, e).0.config == s.config,
        override_phase(build_step(s, e).0.phase),
        0 <= i < build_step(s, e).1.len() && build_step(s, e).1[i] is StartExtensions
            ==> build_step(s, e).1[i] == BuildActionView::StartExtensions(only),
{
}

/// The state and all actions after a list of events.
pub open spec fn build_run(s: BuildSessionView, events: Seq<BuildEventView>) -> BuildStep
    decreases events.len(),
{
    if events.len() == 0 {
        (s, Seq::empty())
    } else {
        let before = build_run(s, events.drop_last());
        let after = build_step(before.0, events.last());
        (after.0, before.1 + after.1)
    }
}

proof fn lemma_no_session_run(s: BuildSessionView, events: Seq<BuildEventView>)
    requires
        s.config.no_session,
        s.session_id is None,
        no_store_phase(s.phase),
    ensures
        ({
            let t = build_run(s, events);
            &&& t.0.config == s.config && t.0.session_id is None && no_store_phase(t.0.phase)
            &&& forall|i: int| 0 <= i < t.1.len() ==> !stores(#[trigger] t.1[i])
        }),
    decreases events.len(),
{
    if events.len() > 0 {
        lemma_no_session_run(s, events.drop_last());
        let before = build_run(s, events.drop_last());
        law_no_session_stores_nothing(before.0, events.last());
        let after = build_step(before.0, events.last());
        assert forall|i: int| 0 <= i < (before.1 + after.1).len() implies !stores(
            #[trigger] (before.1 + after.1)[i],
        ) by {
            if i >= before.1.len() {
                assert((before.1 + after.1)[i] == after.1[i - before.1.len()]);
            }
        }
    }
}

/// Whatever happens, setting up a run without a session neither looks for one nor
/// makes one, and saves no state.
pub proof fn law_run_without_session(
    c: SessionBuilderConfigView,
    provider: Option<Seq<char>>,
    model: Option<Seq<char>>,
    events: Seq<BuildEventView>,
)
    requires
        c.no_session,
    ensures
        build_start(c, provider, model) matches Ok(start) ==> forall|i: int|
            0 <= i < build_run(start.0, events).1.len() ==> !stores(
                #[trigger] build_run(start.0, events).1[i],
            ),
{
    if let Ok(start) = build_start(c, provider, model) {
        lemma_no_session_run(start.0, events);
    }
}

/// The agent is given a limit on repeated tool calls when it is ready, exactly where
/// one is configured and as it is configured, and at no other time.
#[verifier::spinoff_prover]
#[verifier::rlimit(60)]
pub proof fn law_repetitions_are_limited(s: BuildSessionView, e: BuildEventView, n: u32)
    ensures
        build_step(s, e).1.contains(BuildActionView::LimitRepetitions(n)) <==> {
            &&& s.phase == BuildPhase::AgentInitializing
            &&& e is Done
            &&& s.config.max_tool_repetitions == Some(n)
        },
{
    let t = build_step(s, e);
    if s.phase == BuildPhase::AgentInitializing && e is Done && s.config.max_tool_repetitions
        == Some(n) {
        assert(t.1[0] == BuildActionView::LimitRepetitions(n));
    }
    if t.1.contains(BuildActionView::LimitRepetitions(n)) {
        let i = choose|i: int| 0 <= i < t.1.len() && t.1[i] == BuildActionView::LimitRepetitions(n);
        assert(t.1[i] is LimitRepetitions);
    }
}

} // verus!
