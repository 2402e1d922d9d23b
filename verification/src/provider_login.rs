//! Signing in with a service that sets a provider up, and providers of the user's
//! own.
use crate::base::{self, Duplicate};
use crate::config_extensions::{
    ExtensionEntry, ExtensionEntryView, DEFAULT_DISPLAY_NAME, DEFAULT_EXTENSION_TIMEOUT,
};
use crate::extension::{ExtensionConfig, ExtensionConfigView};
use crate::menu::{self, item, Item, ItemView};
use crate::text::{self, begins, trimmed};
use crate::text_split::{self, pieces};
use vstd::prelude::*;
use vstd::string::*;

verus! {

/// The services that set a provider up.
#[derive(Debug, Clone, Copy, PartialEq, Eq, Structural)]
pub enum LoginService {
    OpenRouter,
    Tetrate,
}

impl DeepView for LoginService {
    type V = LoginService;

    open spec fn deep_view(&self) -> LoginService {
        *self
    }
}

impl Duplicate for LoginService {
    fn duplicate(&self) -> (r: Self) {
        *self
    }
}

/// What a login waits for.
#[derive(Debug, Clone, Copy, PartialEq, Eq, Structural)]
pub enum LoginPhase {
    Authenticating,
    Configuring,
    ModelReading,
    ModelCreating,
    ProviderCreating,
    Testing,
    ExtensionsReading,
    Finished,
}

impl DeepView for LoginPhase {
    type V = LoginPhase;

    open spec fn deep_view(&self) -> LoginPhase {
        *self
    }
}

impl Duplicate for LoginPhase {
    fn duplicate(&self) -> (r: Self) {
        *self
    }
}

/// A login with a service.
#[derive(Debug, PartialEq)]
pub struct ProviderLogin {
    pub service: LoginService,
    pub phase: LoginPhase,
}

#[verifier::ext_equal]
pub struct ProviderLoginView {
    pub service: LoginService,
    pub phase: LoginPhase,
}

impl DeepView for ProviderLogin {
    type V = ProviderLoginView;

    open spec fn deep_view(&self) -> ProviderLoginView {
        ProviderLoginView {
            service: self.service,
            phase: self.phase,
        }
    }
}

/// What the outside reports.
#[derive(Debug, PartialEq)]
pub enum LoginEvent {
    Done,
    Failed(String),
    /// The model that is configured.
    Model(String),
    Extensions(Vec<ExtensionEntry>),
}

#[verifier::ext_equal]
pub enum LoginEventView {
    Done,
    Failed(Seq<char>),
    Model(Seq<char>),
    Extensions(Seq<ExtensionEntryView>),
}

impl DeepView for LoginEvent {
    type V = LoginEventView;

    open spec fn deep_view(&self) -> LoginEventView {
        match self {
            LoginEvent::Done => LoginEventView::Done,
            LoginEvent::Failed(x) => LoginEventView::Failed(x@),
            LoginEvent::Model(x) => LoginEventView::Model(x@),
            LoginEvent::Extensions(x) => LoginEventView::Extensions(x.deep_view()),
        }
    }
}

/// What a login asks the outside to do. All actions of a list are performed in
/// order.
#[derive(Debug, PartialEq)]
pub enum LoginAction {
    Authenticate,
    /// Store what the service gave.
    Configure,
    Print(String),
    PrintError(String),
    ReadModel,
    CreateModel(String),
    CreateProvider(String),
    Complete { system: String, prompt: String },
    ReadExtensions,
    SetExtension(ExtensionEntry),
    Outro(String),
    /// The login is over, with an error or without.
    Finish(Option<String>),
}

#[verifier::ext_equal]
pub enum LoginActionView {
    Authenticate,
    Configure,
    Print(Seq<char>),
    PrintError(Seq<char>),
    ReadModel,
    CreateModel(Seq<char>),
    CreateProvider(Seq<char>),
    Complete { system: Seq<char>, prompt: Seq<char> },
    ReadExtensions,
    SetExtension(ExtensionEntryView),
    Outro(Seq<char>),
    Finish(Option<Seq<char>>),
}

impl DeepView for LoginAction {
    type V = LoginActionView;

    open spec fn deep_view(&self) -> LoginActionView {
        match self {
            LoginAction::Authenticate => LoginActionView::Authenticate,
            LoginAction::Configure => LoginActionView::Configure,
            LoginAction::Print(x) => LoginActionView::Print(x@),
            LoginAction::PrintError(x) => LoginActionView::PrintError(x@),
            LoginAction::ReadModel => LoginActionView::ReadModel,
            LoginAction::CreateModel(x) => LoginActionView::CreateModel(x@),
            LoginAction::CreateProvider(x) => LoginActionView::CreateProvider(x@),
            LoginAction::Complete { system, prompt } => LoginActionView::Complete {
                system: system@,
                prompt: prompt@,
            },
            LoginAction::ReadExtensions => LoginActionView::ReadExtensions,
            LoginAction::SetExtension(x) => LoginActionView::SetExtension(x.deep_view()),
            LoginAction::Outro(x) => LoginActionView::Outro(x@),
            LoginAction::Finish(x) => LoginActionView::Finish(x.deep_view()),
        }
    }
}

/// A state and the actions that lead on from it.
pub type LoginStep = (ProviderLoginView, Seq<LoginActionView>);

/// How a service is called.
pub open spec fn service_name(service: LoginService) -> Seq<char> {
    match service {
        LoginService::OpenRouter => "OpenRouter"@,
        LoginService::Tetrate => "Tetrate Agent Router Service"@,
    }
}

/// The provider of a service.
pub open spec fn service_provider(service: LoginService) -> Seq<char> {
    match service {
        LoginService::OpenRouter => "openrouter"@,
        LoginService::Tetrate => "tetrate"@,
    }
}

/// The extension for developers.
pub open spec fn developer_entry() -> ExtensionEntryView {
    ExtensionEntryView {
        enabled: true,
        config: ExtensionConfigView::Builtin {
            name: "developer"@,
            display_name: Some(DEFAULT_DISPLAY_NAME@),
            description: "Developer extension"@,
            timeout: Some(DEFAULT_EXTENSION_TIMEOUT),
            bundled: Some(true),
            available_tools: Seq::empty(),
        },
    }
}

/// Whether the extension for developers is enabled.
pub open spec fn has_developer(entries: Seq<ExtensionEntryView>) -> bool {
    exists|i: int|
        0 <= i < entries.len() && (#[trigger] entries[i]).enabled && entries[i].config.name()
            == "developer"@
}

/// A login ends with an error, or without one and with two lines that say what
/// went wrong after the settings were saved.
pub open spec fn login_end(s: ProviderLoginView, lines: Seq<LoginActionView>, e: Option<Seq<char>>)
    -> LoginStep {
    (
        ProviderLoginView { phase: LoginPhase::Finished, ..s },
        lines.push(LoginActionView::Finish(e)),
    )
}

pub open spec fn two_errors(a: Seq<char>, b: Seq<char>) -> Seq<LoginActionView> {
    seq![LoginActionView::PrintError(a), LoginActionView::PrintError(b)]
}

/// The step that an event leads to. An event that the phase does not wait for
/// changes nothing.
pub open spec fn login_step(s: ProviderLoginView, e: LoginEventView) -> LoginStep {
    let name = service_name(s.service);
    match (s.phase, e) {
        (LoginPhase::Authenticating, LoginEventView::Done) => (
            ProviderLoginView { phase: LoginPhase::Configuring, ..s },
            seq![
                LoginActionView::Print("\nAuthentication complete!"@),
                LoginActionView::Print("\nConfiguring "@ + name + "..."@),
                LoginActionView::Configure,
            ],
        ),
        (LoginPhase::Authenticating, LoginEventView::Failed(e)) => login_end(
            s,
            seq![LoginActionView::PrintError("Authentication failed: "@ + e)],
            Some(e),
        ),
        (LoginPhase::Configuring, LoginEventView::Done) => (
            ProviderLoginView { phase: LoginPhase::ModelReading, ..s },
            seq![
                LoginActionView::Print("✓ "@ + name + " configuration complete"@),
                LoginActionView::Print("✓ Models configured successfully"@),
                LoginActionView::Print("\nTesting configuration..."@),
                LoginActionView::ReadModel,
            ],
        ),
        (LoginPhase::Configuring, LoginEventView::Failed(e)) => login_end(
            s,
            seq![LoginActionView::PrintError("Failed to configure "@ + name + ": "@ + e)],
            Some(e),
        ),
        (LoginPhase::ModelReading, LoginEventView::Model(m)) => (
            ProviderLoginView { phase: LoginPhase::ModelCreating, ..s },
            seq![LoginActionView::CreateModel(m)],
        ),
        (LoginPhase::ModelReading, LoginEventView::Failed(e)) => login_end(
            s,
            Seq::empty(),
            Some(e),
        ),
        (LoginPhase::ModelCreating, LoginEventView::Done) => (
            ProviderLoginView { phase: LoginPhase::ProviderCreating, ..s },
            seq![LoginActionView::CreateProvider(service_provider(s.service))],
        ),
        (LoginPhase::ModelCreating, LoginEventView::Failed(e)) => login_end(
            s,
            two_errors(
                "⚠️  Invalid model configuration: "@ + e,
                "Your settings have been saved. Please check your model configuration."@,
            ),
            None,
        ),
        (LoginPhase::ProviderCreating, LoginEventView::Done) => (
            ProviderLoginView { phase: LoginPhase::Testing, ..s },
            seq![
                LoginActionView::Complete {
                    system: "You are goose, an AI assistant."@,
                    prompt: "Say 'Configuration test successful!'"@,
                },
            ],
        ),
        (LoginPhase::ProviderCreating, LoginEventView::Failed(e)) => login_end(
            s,
            two_errors(
                "⚠️  Failed to create provider for testing: "@ + e,
                "Your settings have been saved. Please check your configuration."@,
            ),
            None,
        ),
        (LoginPhase::Testing, LoginEventView::Done) => (
            ProviderLoginView { phase: LoginPhase::ExtensionsReading, ..s },
            seq![
                LoginActionView::Print("✓ Configuration test passed!"@),
                LoginActionView::ReadExtensions,
            ],
        ),
        (LoginPhase::Testing, LoginEventView::Failed(e)) => login_end(
            s,
            two_errors(
                "⚠️  Configuration test failed: "@ + e,
                "Your settings have been saved, but there may be an issue with the connection."@,
            ),
            None,
        ),
        (LoginPhase::ExtensionsReading, LoginEventView::Extensions(entries)) => login_end(
            s,
            (if has_developer(entries) {
                Seq::<LoginActionView>::empty()
            } else {
                seq![
                    LoginActionView::SetExtension(developer_entry()),
                    LoginActionView::Print("✓ Developer extension enabled"@),
                ]
            }).push(
                LoginActionView::Outro(name + " setup complete! You can now use goose."@),
            ),
            None,
        ),
        _ => (s, Seq::empty()),
    }
}

fn no_actions() -> (r: Vec<LoginAction>)
    ensures
        r.deep_view() == Seq::<LoginActionView>::empty(),
{
    let out: Vec<LoginAction> = Vec::new();
    assert(out.deep_view() =~= Seq::<LoginActionView>::empty());
    out
}

fn two(a: LoginAction, b: LoginAction) -> (r: Vec<LoginAction>)
    ensures
        r.deep_view() == seq![a.deep_view(), b.deep_view()],
{
    let mut out = base::single(a);
    base::push(&mut out, b);
    assert(out.deep_view() =~= seq![a.deep_view(), b.deep_view()]);
    out
}

fn one(a: LoginAction) -> (r: Vec<LoginAction>)
    ensures
        r.deep_view() == seq![a.deep_view()],
{
    let out = base::single(a);
    assert(out.deep_view() =~= seq![a.deep_view()]);
    out
}

/// Whether the extension for developers is enabled.
pub fn developer_enabled(entries: &Vec<ExtensionEntry>) -> (r: bool)
    ensures
        r == has_developer(entries.deep_view()),
{
    let ghost all = entries.deep_view();
    let mut i: usize = 0;
    while i < entries.len()
        invariant
            i <= entries@.len(),
            all == entries.deep_view(),
            forall|j: int|
                0 <= j < i ==> !((#[trigger] all[j]).enabled && all[j].config.name()
                    == "developer"@),
        decreases entries@.len() - i,
    {
        if entries[i].enabled && text::str_eq(entries[i].config.name(), "developer") {
            assert(all[i as int].enabled);
            return true;
        }
        assert(all[i as int] == entries[i as int].deep_view());
        i = i + 1;
    }
    false
}

/// The extension for developers.
pub fn developer_extension() -> (r: ExtensionEntry)
    ensures
        r.deep_view() == developer_entry(),
{
    let available_tools: Vec<String> = Vec::new();
    assert(available_tools.deep_view() =~= Seq::<Seq<char>>::empty());
    ExtensionEntry {
        enabled: true,
        config: ExtensionConfig::Builtin {
            name: text::owned("developer"),
            display_name: Some(text::owned(DEFAULT_DISPLAY_NAME)),
            description: text::owned("Developer extension"),
            timeout: Some(DEFAULT_EXTENSION_TIMEOUT),
            bundled: Some(true),
            available_tools,
        },
    }
}

impl ProviderLogin {
    /// Starts a login: the service is asked first.
    pub fn start(service: LoginService) -> (r: (Self, LoginAction))
        ensures
            r.0.deep_view() == (ProviderLoginView { service, phase: LoginPhase::Authenticating }),
            r.1.deep_view() == LoginActionView::Authenticate,
    {
        (
            ProviderLogin { service, phase: LoginPhase::Authenticating },
            LoginAction::Authenticate,
        )
    }

    fn name(&self) -> (r: String)
        ensures
            r@ == service_name(self.service),
    {
        match self.service {
            LoginService::OpenRouter => text::owned("OpenRouter"),
            LoginService::Tetrate => text::owned("Tetrate Agent Router Service"),
        }
    }

    fn end(&mut self, mut lines: Vec<LoginAction>, e: Option<String>) -> (r: Vec<LoginAction>)
        ensures
            (final(self).deep_view(), r.deep_view()) == login_end(
                old(self).deep_view(),
                lines.deep_view(),
                e.deep_view(),
            ),
    {
        self.phase = LoginPhase::Finished;
        base::push(&mut lines, LoginAction::Finish(e));
        lines
    }

    /// Ends a login after the settings were saved.
    fn end_saved(&mut self, what: &str, e: &str, hint: &str) -> (r: Vec<LoginAction>)
        ensures
            (final(self).deep_view(), r.deep_view()) == login_end(
                old(self).deep_view(),
                two_errors(what@ + e@, hint@),
                None,
            ),
    {
        let lines = two(
            LoginAction::PrintError(text::cat(what, e)),
            LoginAction::PrintError(text::owned(hint)),
        );
        self.end(lines, None)
    }

    fn extensions_read(&mut self, entries: &Vec<ExtensionEntry>) -> (r: Vec<LoginAction>)
        requires
            old(self).phase == LoginPhase::ExtensionsReading,
        ensures
            (final(self).deep_view(), r.deep_view()) == login_step(
                old(self).deep_view(),
                LoginEventView::Extensions(entries.deep_view()),
            ),
    {
        let mut out = if developer_enabled(entries) {
            no_actions()
        } else {
            two(
                LoginAction::SetExtension(developer_extension()),
                LoginAction::Print(text::owned("✓ Developer extension enabled")),
            )
        };
        base::push(
            &mut out,
            LoginAction::Outro(
                text::cat(&self.name(), " setup complete! You can now use goose."),
            ),
        );
        self.end(out, None)
    }

    fn failed(&mut self, e: String) -> (r: Vec<LoginAction>)
        ensures
            (final(self).deep_view(), r.deep_view()) == login_step(
                old(self).deep_view(),
                LoginEventView::Failed(e@),
            ),
    {
        match self.phase {
            LoginPhase::Authenticating => {
                let line = LoginAction::PrintError(text::cat("Authentication failed: ", &e));
                self.end(one(line), Some(e))
            },
            LoginPhase::Configuring => {
                let mut t = text::cat3("Failed to configure ", &self.name(), ": ");
                t.append(&e);
                self.end(one(LoginAction::PrintError(t)), Some(e))
            },
            LoginPhase::ModelReading => self.end(no_actions(), Some(e)),
            LoginPhase::ModelCreating => self.end_saved(
                "⚠️  Invalid model configuration: ",
                &e,
                "Your settings have been saved. Please check your model configuration.",
            ),
            LoginPhase::ProviderCreating => self.end_saved(
                "⚠️  Failed to create provider for testing: ",
                &e,
                "Your settings have been saved. Please check your configuration.",
            ),
            LoginPhase::Testing => self.end_saved(
                "⚠️  Configuration test failed: ",
                &e,
                "Your settings have been saved, but there may be an issue with the connection.",
            ),
            _ => no_actions(),
        }
    }

    fn done(&mut self) -> (r: Vec<LoginAction>)
        ensures
            (final(self).deep_view(), r.deep_view()) == login_step(
                old(self).deep_view(),
                LoginEventView::Done,
            ),
    {
        let ghost before = self.deep_view();
        match self.phase {
            LoginPhase::Authenticating => {
                self.phase = LoginPhase::Configuring;
                let mut out = two(
                    LoginAction::Print(text::owned("\nAuthentication complete!")),
                    LoginAction::Print(text::cat3("\nConfiguring ", &self.name(), "...")),
                );
                base::push(&mut out, LoginAction::Configure);
                assert(out.deep_view() =~= login_step(before, LoginEventView::Done).1);
                out
            },
            LoginPhase::Configuring => {
                self.phase = LoginPhase::ModelReading;
                let mut out = two(
                    LoginAction::Print(text::cat3("✓ ", &self.name(), " configuration complete")),
                    LoginAction::Print(text::owned("✓ Models configured successfully")),
                );
                base::push(&mut out, LoginAction::Print(text::owned("\nTesting configuration...")));
                base::push(&mut out, LoginAction::ReadModel);
                assert(out.deep_view() =~= login_step(before, LoginEventView::Done).1);
                out
            },
            LoginPhase::ModelCreating => {
                self.phase = LoginPhase::ProviderCreating;
                let provider = match self.service {
                    LoginService::OpenRouter => text::owned("openrouter"),
                    LoginService::Tetrate => text::owned("tetrate"),
                };
                one(LoginAction::CreateProvider(provider))
            },
            LoginPhase::ProviderCreating => {
                self.phase = LoginPhase::Testing;
                one(
                    LoginAction::Complete {
                        system: text::owned("You are goose, an AI assistant."),
                        prompt: text::owned("Say 'Configuration test successful!'"),
                    },
                )
            },
            LoginPhase::Testing => {
                self.phase = LoginPhase::ExtensionsReading;
                two(
                    LoginAction::Print(text::owned("✓ Configuration test passed!")),
                    LoginAction::ReadExtensions,
                )
            },
            _ => no_actions(),
        }
    }

    /// Takes the step that an event leads to.
    pub fn step(&mut self, event: LoginEvent) -> (r: Vec<LoginAction>)
        ensures
            (final(self).deep_view(), r.deep_view()) == login_step(
                old(self).deep_view(),
                event.deep_view(),
            ),
    {
        match (self.phase, event) {
            (_, LoginEvent::Done) => self.done(),
            (_, LoginEvent::Failed(e)) => self.failed(e),
            (LoginPhase::ModelReading, LoginEvent::Model(m)) => {
                self.phase = LoginPhase::ModelCreating;
                one(LoginAction::CreateModel(m))
            },
            (LoginPhase::ExtensionsReading, LoginEvent::Extensions(entries)) => {
                self.extensions_read(&entries)
            },
            _ => no_actions(),
        }
    }
}

/// A login fails only before the settings are saved and read back: after that,
/// whatever happens, it ends without an error.
pub proof fn law_saved_login_succeeds(s: ProviderLoginView, e: LoginEventView, i: int)
    requires
        s.phase == LoginPhase::ModelCreating || s.phase == LoginPhase::ProviderCreating || s.phase
            == LoginPhase::Testing || s.phase == LoginPhase::ExtensionsReading,
        0 <= i < login_step(s, e).1.len(),
    ensures
        login_step(s, e).1[i] matches LoginActionView::Finish(r) ==> r is None,
{
}

/// A finished login stays as it is.
pub proof fn law_finished_login_is_final(s: ProviderLoginView, e: LoginEventView)
    requires
        s.phase == LoginPhase::Finished,
    ensures
        login_step(s, e) == (s, Seq::<LoginActionView>::empty()),
{
}

/// How signing in for one value went.
#[derive(Debug, PartialEq)]
pub enum OauthOutcome {
    Done,
    /// The provider could not be made.
    CreateFailed(String),
    AuthFailed(String),
}

#[verifier::ext_equal]
pub enum OauthOutcomeView {
    Done,
    CreateFailed(Seq<char>),
    AuthFailed(Seq<char>),
}

impl DeepView for OauthOutcome {
    type V = OauthOutcomeView;

    open spec fn deep_view(&self) -> OauthOutcomeView {
        match self {
            OauthOutcome::Done => OauthOutcomeView::Done,
            OauthOutcome::CreateFailed(x) => OauthOutcomeView::CreateFailed(x@),
            OauthOutcome::AuthFailed(x) => OauthOutcomeView::AuthFailed(x@),
        }
    }
}

/// What is said first when a value is had by signing in.
pub fn oauth_notice(key_name: &str) -> (r: String)
    ensures
        r@ == "Configuring "@ + key_name@ + " using OAuth device code flow..."@,
{
    text::cat3("Configuring ", key_name, " using OAuth device code flow...")
}

/// What is shown after signing in, and the error, where there is one.
pub open spec fn oauth_result(key: Seq<char>, o: OauthOutcomeView) -> (
    Seq<char>,
    Option<Seq<char>>,
) {
    match o {
        OauthOutcomeView::Done => ("OAuth authentication completed successfully!"@, None),
        OauthOutcomeView::AuthFailed(e) => (
            "Failed to authenticate: "@ + e,
            Some("OAuth authentication failed for "@ + key + ": "@ + e),
        ),
        OauthOutcomeView::CreateFailed(e) => (
            "Failed to create provider for OAuth: "@ + e,
            Some("Failed to create provider for OAuth: "@ + e),
        ),
    }
}

/// What is shown after signing in, and the error, where there is one.
pub fn handle_oauth_configuration(key_name: &str, outcome: &OauthOutcome) -> (r: (
    String,
    Option<String>,
))
    ensures
        (r.0@, r.1.deep_view()) == oauth_result(key_name@, outcome.deep_view()),
{
    match outcome {
        OauthOutcome::Done => (text::owned("OAuth authentication completed successfully!"), None),
        OauthOutcome::AuthFailed(e) => {
            let mut t = text::cat3("OAuth authentication failed for ", key_name, ": ");
            t.append(e);
            (text::cat("Failed to authenticate: ", e), Some(t))
        },
        OauthOutcome::CreateFailed(e) => (
            text::cat("Failed to create provider for OAuth: ", e),
            Some(text::cat("Failed to create provider for OAuth: ", e)),
        ),
    }
}

/// A provider of the user's own.
#[derive(Debug, PartialEq)]
pub struct CustomProvider {
    pub provider_type: String,
    pub display_name: String,
    pub api_url: String,
    pub api_key: String,
    pub models: Vec<String>,
    pub supports_streaming: Option<bool>,
}

#[verifier::ext_equal]
pub struct CustomProviderView {
    pub provider_type: Seq<char>,
    pub display_name: Seq<char>,
    pub api_url: Seq<char>,
    pub api_key: Seq<char>,
    pub models: Seq<Seq<char>>,
    pub supports_streaming: Option<bool>,
}

impl DeepView for CustomProvider {
    type V = CustomProviderView;

    open spec fn deep_view(&self) -> CustomProviderView {
        CustomProviderView {
            provider_type: self.provider_type@,
            display_name: self.display_name@,
            api_url: self.api_url@,
            api_key: self.api_key@,
            models: self.models.deep_view(),
            supports_streaming: self.supports_streaming.deep_view(),
        }
    }
}

/// Why a provider's name cannot be taken.
pub open spec fn provider_name_refusal(input: Seq<char>) -> Option<Seq<char>> {
    if input.len() == 0 {
        Some("Please enter a name"@)
    } else {
        None
    }
}

/// Why a provider's name cannot be taken.
pub fn check_provider_name(input: &str) -> (r: Option<String>)
    ensures
        r.deep_view() == provider_name_refusal(input@),
{
    if text::is_empty(input) {
        Some(text::owned("Please enter a name"))
    } else {
        None
    }
}

/// Why a provider's address cannot be taken.
pub open spec fn api_url_refusal(input: Seq<char>) -> Option<Seq<char>> {
    if !begins(input, "http://"@) && !begins(input, "https://"@) {
        Some("URL must start with either http:// or https://"@)
    } else {
        None
    }
}

/// Why a provider's address cannot be taken.
pub fn check_api_url(input: &str) -> (r: Option<String>)
    ensures
        r.deep_view() == api_url_refusal(input@),
{
    if !text::starts_with(input, "http://") && !text::starts_with(input, "https://") {
        Some(text::owned("URL must start with either http:// or https://"))
    } else {
        None
    }
}

/// Why a list of models cannot be taken.
pub open spec fn models_refusal(input: Seq<char>) -> Option<Seq<char>> {
    if trimmed(input).len() == 0 {
        Some("Please enter at least one model name"@)
    } else {
        None
    }
}

/// Why a list of models cannot be taken.
pub fn check_models(input: &str) -> (r: Option<String>)
    ensures
        r.deep_view() == models_refusal(input@),
{
    if text::is_empty(&text::trim(input)) {
        Some(text::owned("Please enter at least one model name"))
    } else {
        None
    }
}

/// The trimmed texts that are not empty.
pub open spec fn trimmed_names(list: Seq<Seq<char>>) -> Seq<Seq<char>>
    decreases list.len(),
{
    if list.len() == 0 {
        list
    } else {
        let rest = trimmed_names(list.drop_last());
        if trimmed(list.last()).len() == 0 {
            rest
        } else {
            rest.push(trimmed(list.last()))
        }
    }
}

/// The models of a list in which commas stand between them.
pub open spec fn model_names(input: Seq<char>) -> Seq<Seq<char>> {
    trimmed_names(pieces(input, ','))
}

/// The models of a list in which commas stand between them.
pub fn parse_models(input: &str) -> (r: Vec<String>)
    ensures
        r.deep_view() == model_names(input@),
{
    let parts = text_split::split_char(input, ',');
    let mut out: Vec<String> = Vec::new();
    let ghost all = pieces(input@, ',');
    assert(text::texts(parts@) =~= parts.deep_view());
    let mut i: usize = 0;
    assert(out.deep_view() =~= trimmed_names(all.take(0)));
    while i < parts.len()
        invariant
            i <= parts@.len(),
            all == parts.deep_view(),
            out.deep_view() == trimmed_names(all.take(i as int)),
        decreases parts@.len() - i,
    {
        assert(all.take(i + 1).drop_last() =~= all.take(i as int));
        let name = text::trim(&parts[i]);
        if !text::is_empty(&name) {
            base::push(&mut out, name);
        }
        i = i + 1;
    }
    assert(all.take(all.len() as int) =~= all);
    out
}

/// The first refusal of what was entered for a provider.
pub open spec fn provider_refusal(name: Seq<char>, url: Seq<char>, models: Seq<char>) -> Option<
    Seq<char>,
> {
    if provider_name_refusal(name) is Some {
        provider_name_refusal(name)
    } else if api_url_refusal(url) is Some {
        api_url_refusal(url)
    } else {
        models_refusal(models)
    }
}

/// The provider that is made of what was entered, or why it is refused.
pub fn add_provider(
    provider_type: &str,
    display_name: &str,
    api_url: &str,
    api_key: &str,
    models_input: &str,
    supports_streaming: bool,
) -> (r: Result<CustomProvider, String>)
    ensures
        match r {
            Ok(p) => provider_refusal(display_name@, api_url@, models_input@) is None
                && p.deep_view() == (CustomProviderView {
                provider_type: provider_type@,
                display_name: display_name@,
                api_url: api_url@,
                api_key: api_key@,
                models: model_names(models_input@),
                supports_streaming: Some(supports_streaming),
            }),
            Err(e) => provider_refusal(display_name@, api_url@, models_input@) == Some(e@),
        },
{
    if let Some(e) = check_provider_name(display_name) {
        return Err(e);
    }
    if let Some(e) = check_api_url(api_url) {
        return Err(e);
    }
    if let Some(e) = check_models(models_input) {
        return Err(e);
    }
    Ok(
        CustomProvider {
            provider_type: text::owned(provider_type),
            display_name: text::owned(display_name),
            api_url: text::owned(api_url),
            api_key: text::owned(api_key),
            models: parse_models(models_input),
            supports_streaming: Some(supports_streaming),
        },
    )
}

/// Each model of a provider of the user's own has a name without blanks around it.
pub proof fn law_model_names_are_trimmed(input: Seq<char>, i: int)
    requires
        0 <= i < model_names(input).len(),
    ensures
        model_names(input)[i].len() > 0,
        exists|j: int|
            0 <= j < pieces(input, ',').len() && model_names(input)[i] == trimmed(
                #[trigger] pieces(input, ',')[j],
            ),
{
    lemma_trimmed_names(pieces(input, ','), i);
}

proof fn lemma_trimmed_names(list: Seq<Seq<char>>, i: int)
    requires
        0 <= i < trimmed_names(list).len(),
    ensures
        trimmed_names(list)[i].len() > 0,
        exists|j: int| 0 <= j < list.len() && trimmed_names(list)[i] == trimmed(#[trigger] list[j]),
    decreases list.len(),
{
    let rest = trimmed_names(list.drop_last());
    if i < rest.len() {
        lemma_trimmed_names(list.drop_last(), i);
        let j = choose|j: int|
            0 <= j < list.drop_last().len() && rest[i] == trimmed(#[trigger] list.drop_last()[j]);
        assert(list[j] == list.drop_last()[j]);
    } else {
        assert(list[list.len() - 1] == list.last());
    }
}

/// What a user can do with providers of their own.
#[derive(Debug, Clone, Copy, PartialEq, Eq, Structural)]
pub enum CustomProviderAction {
    Add,
    Remove,
}

/// What a choice names.
pub fn configure_custom_provider_dialog(choice: &str) -> (r: Option<CustomProviderAction>)
    ensures
        r == if choice@ == "add"@ {
            Some(CustomProviderAction::Add)
        } else if choice@ == "remove"@ {
            Some(CustomProviderAction::Remove)
        } else {
            None
        },
{
    if text::str_eq(choice, "add") {
        Some(CustomProviderAction::Add)
    } else if text::str_eq(choice, "remove") {
        Some(CustomProviderAction::Remove)
    } else {
        None
    }
}

/// Providers by their names and the names that are shown.
pub open spec fn custom_items(list: Seq<(Seq<char>, Seq<char>)>) -> Seq<ItemView> {
    list.map_values(|p: (Seq<char>, Seq<char>)| item(p.0, p.1, "Custom provider"@))
}

/// What a user who wants to remove a provider is offered: nothing where there is
/// none.
pub fn remove_provider(providers: &Vec<(String, String)>) -> (r: Option<Vec<Item>>)
    ensures
        r.deep_view() == if providers.deep_view().len() == 0 {
            None
        } else {
            Some(custom_items(providers.deep_view()))
        },
{
    if providers.len() == 0 {
        return None;
    }
    let mut items: Vec<Item> = Vec::new();
    let mut i: usize = 0;
    while i < providers.len()
        invariant
            i <= providers@.len(),
            items.deep_view() == custom_items(providers.deep_view()).take(i as int),
        decreases providers@.len() - i,
    {
        menu::offer(&mut items, &providers[i].0, &providers[i].1, "Custom provider");
        assert(items.deep_view() =~= custom_items(providers.deep_view()).take(i + 1));
        i = i + 1;
    }
    assert(items.deep_view() =~= custom_items(providers.deep_view()));
    Some(items)
}

/// What is said when a provider was added.
pub fn provider_added(display_name: &str) -> (r: String)
    ensures
        r@ == "Custom provider added: "@ + display_name@,
{
    text::cat("Custom provider added: ", display_name)
}

/// What is said when a provider was removed.
pub fn provider_removed(id: &str) -> (r: String)
    ensures
        r@ == "Removed custom provider: "@ + id@,
{
    text::cat("Removed custom provider: ", id)
}

} // verus!
