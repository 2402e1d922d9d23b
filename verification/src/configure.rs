//! The command that sets the program up: what is done first, and what is said when
//! it did not work.
use crate::base::{self, Duplicate};
use crate::config_extensions::{ExtensionEntry, ExtensionEntryView};
use crate::extension::{ExtensionConfig, ExtensionConfigView};
use crate::text;
use vstd::prelude::*;
use vstd::string::*;

verus! {

/// The systems whose secrets are spoken of in words of their own.
#[derive(Debug, Clone, Copy, PartialEq, Eq, Structural)]
pub enum Platform {
    MacOs,
    Windows,
    Other,
}

impl DeepView for Platform {
    type V = Platform;

    open spec fn deep_view(&self) -> Platform {
        *self
    }
}

impl Duplicate for Platform {
    fn duplicate(&self) -> (r: Self) {
        *self
    }
}

/// The ways to set up a provider for the first time.
#[derive(Debug, Clone, Copy, PartialEq, Eq, Structural)]
pub enum SetupMethod {
    OpenRouter,
    Tetrate,
    Manual,
}

impl DeepView for SetupMethod {
    type V = SetupMethod;

    open spec fn deep_view(&self) -> SetupMethod {
        *self
    }
}

impl Duplicate for SetupMethod {
    fn duplicate(&self) -> (r: Self) {
        *self
    }
}

/// What can be configured later.
#[derive(Debug, Clone, Copy, PartialEq, Eq, Structural)]
pub enum ConfigureTarget {
    Toggle,
    Add,
    Remove,
    Settings,
    Providers,
    CustomProviders,
}

impl DeepView for ConfigureTarget {
    type V = ConfigureTarget;

    open spec fn deep_view(&self) -> ConfigureTarget {
        *self
    }
}

impl Duplicate for ConfigureTarget {
    fn duplicate(&self) -> (r: Self) {
        *self
    }
}

/// What kind of notice it is.
#[derive(Debug, Clone, Copy, PartialEq, Eq, Structural)]
pub enum NoticeLabel {
    Tip,
    Warning,
    Error,
}

impl DeepView for NoticeLabel {
    type V = NoticeLabel;

    open spec fn deep_view(&self) -> NoticeLabel {
        *self
    }
}

impl Duplicate for NoticeLabel {
    fn duplicate(&self) -> (r: Self) {
        *self
    }
}

/// A notice. Where there is something behind it, the command that is named stands
/// between the two texts.
#[derive(Debug, PartialEq)]
pub struct Notice {
    pub label: NoticeLabel,
    pub before: String,
    pub after: Option<String>,
}

#[verifier::ext_equal]
pub struct NoticeView {
    pub label: NoticeLabel,
    pub before: Seq<char>,
    pub after: Option<Seq<char>>,
}

impl DeepView for Notice {
    type V = NoticeView;

    open spec fn deep_view(&self) -> NoticeView {
        NoticeView {
            label: self.label,
            before: self.before@,
            after: self.after.deep_view(),
        }
    }
}

/// Why setting up a provider failed.
#[derive(Debug, PartialEq)]
pub enum ConfigFailure {
    NotFound(String),
    Keyring(String),
    Deserialize(String),
    File(String),
    Directory(String),
    Other(String),
}

#[verifier::ext_equal]
pub enum ConfigFailureView {
    NotFound(Seq<char>),
    Keyring(Seq<char>),
    Deserialize(Seq<char>),
    File(Seq<char>),
    Directory(Seq<char>),
    Other(Seq<char>),
}

impl DeepView for ConfigFailure {
    type V = ConfigFailureView;

    open spec fn deep_view(&self) -> ConfigFailureView {
        match self {
            ConfigFailure::NotFound(x) => ConfigFailureView::NotFound(x@),
            ConfigFailure::Keyring(x) => ConfigFailureView::Keyring(x@),
            ConfigFailure::Deserialize(x) => ConfigFailureView::Deserialize(x@),
            ConfigFailure::File(x) => ConfigFailureView::File(x@),
            ConfigFailure::Directory(x) => ConfigFailureView::Directory(x@),
            ConfigFailure::Other(x) => ConfigFailureView::Other(x@),
        }
    }
}

/// How the first setup went.
#[derive(Debug, PartialEq)]
pub enum SetupOutcome {
    Saved,
    NotSaved,
    Failed(ConfigFailure),
}

#[verifier::ext_equal]
pub enum SetupOutcomeView {
    Saved,
    NotSaved,
    Failed(ConfigFailureView),
}

impl DeepView for SetupOutcome {
    type V = SetupOutcomeView;

    open spec fn deep_view(&self) -> SetupOutcomeView {
        match self {
            SetupOutcome::Saved => SetupOutcomeView::Saved,
            SetupOutcome::NotSaved => SetupOutcomeView::NotSaved,
            SetupOutcome::Failed(x) => SetupOutcomeView::Failed(x.deep_view()),
        }
    }
}

/// What is done after the first setup.
#[derive(Debug, PartialEq)]
pub enum SetupAction {
    ClearConfig,
    SetExtension(ExtensionEntry),
    Say(Notice),
}

#[verifier::ext_equal]
pub enum SetupActionView {
    ClearConfig,
    SetExtension(ExtensionEntryView),
    Say(NoticeView),
}

impl DeepView for SetupAction {
    type V = SetupActionView;

    open spec fn deep_view(&self) -> SetupActionView {
        match self {
            SetupAction::ClearConfig => SetupActionView::ClearConfig,
            SetupAction::SetExtension(x) => SetupActionView::SetExtension(x.deep_view()),
            SetupAction::Say(x) => SetupActionView::Say(x.deep_view()),
        }
    }
}

/// The way to set up a provider that a choice names.
pub fn setup_method(choice: &str) -> (r: Option<SetupMethod>)
    ensures
        r == if choice@ == "openrouter"@ {
            Some(SetupMethod::OpenRouter)
        } else if choice@ == "tetrate"@ {
            Some(SetupMethod::Tetrate)
        } else if choice@ == "manual"@ {
            Some(SetupMethod::Manual)
        } else {
            None
        },
{
    if text::str_eq(choice, "openrouter") {
        Some(SetupMethod::OpenRouter)
    } else if text::str_eq(choice, "tetrate") {
        Some(SetupMethod::Tetrate)
    } else if text::str_eq(choice, "manual") {
        Some(SetupMethod::Manual)
    } else {
        None
    }
}

/// What is configured by a choice.
pub fn configure_target(choice: &str) -> (r: Option<ConfigureTarget>)
    ensures
        r == if choice@ == "toggle"@ {
            Some(ConfigureTarget::Toggle)
        } else if choice@ == "add"@ {
            Some(ConfigureTarget::Add)
        } else if choice@ == "remove"@ {
            Some(ConfigureTarget::Remove)
        } else if choice@ == "settings"@ {
            Some(ConfigureTarget::Settings)
        } else if choice@ == "providers"@ {
            Some(ConfigureTarget::Providers)
        } else if choice@ == "custom_providers"@ {
            Some(ConfigureTarget::CustomProviders)
        } else {
            None
        },
{
    if text::str_eq(choice, "toggle") {
        Some(ConfigureTarget::Toggle)
    } else if text::str_eq(choice, "add") {
        Some(ConfigureTarget::Add)
    } else if text::str_eq(choice, "remove") {
        Some(ConfigureTarget::Remove)
    } else if text::str_eq(choice, "settings") {
        Some(ConfigureTarget::Settings)
    } else if text::str_eq(choice, "providers") {
        Some(ConfigureTarget::Providers)
    } else if text::str_eq(choice, "custom_providers") {
        Some(ConfigureTarget::CustomProviders)
    } else {
        None
    }
}

/// How a service is called where a login failed.
pub open spec fn login_name(method: SetupMethod) -> Seq<char> {
    match method {
        SetupMethod::OpenRouter => "OpenRouter"@,
        SetupMethod::Tetrate => "Tetrate Agent Router Service"@,
        SetupMethod::Manual => "Manual"@,
    }
}

/// What is said where a login failed.
pub open spec fn login_failed_text(method: SetupMethod, e: Seq<char>) -> Seq<char> {
    " "@ + login_name(method) + " authentication failed: "@ + e
        + " \n  Please try again or use manual configuration"@
}

/// What is done after a login: nothing, or the configuration is cleared and the
/// error is told.
pub fn login_finished(method: SetupMethod, error: Option<String>) -> (r: Vec<SetupAction>)
    ensures
        r.deep_view() == match error.deep_view() {
            None => Seq::<SetupActionView>::empty(),
            Some(e) => seq![
                SetupActionView::ClearConfig,
                SetupActionView::Say(
                    NoticeView {
                        label: NoticeLabel::Error,
                        before: login_failed_text(method, e),
                        after: None,
                    },
                ),
            ],
        },
{
    match error {
        None => {
            let out: Vec<SetupAction> = Vec::new();
            assert(out.deep_view() =~= Seq::<SetupActionView>::empty());
            out
        },
        Some(e) => {
            let name = match method {
                SetupMethod::OpenRouter => text::owned("OpenRouter"),
                SetupMethod::Tetrate => text::owned("Tetrate Agent Router Service"),
                SetupMethod::Manual => text::owned("Manual"),
            };
            let before = text::cat5(
                " ",
                &name,
                " authentication failed: ",
                &e,
                " \n  Please try again or use manual configuration",
            );
            two(
                SetupAction::ClearConfig,
                SetupAction::Say(Notice { label: NoticeLabel::Error, before, after: None }),
            )
        },
    }
}

fn two(a: SetupAction, b: SetupAction) -> (r: Vec<SetupAction>)
    ensures
        r.deep_view() == seq![a.deep_view(), b.deep_view()],
{
    let mut out = base::single(a);
    base::push(&mut out, b);
    assert(out.deep_view() =~= seq![a.deep_view(), b.deep_view()]);
    out
}

/// The two parts of what is said where setting up failed.
pub open spec fn failure_text(f: ConfigFailureView, platform: Platform) -> (Seq<char>, Seq<char>) {
    match f {
        ConfigFailureView::NotFound(key) => (
            " Required configuration key '"@ + key
                + "' not found \n  Please provide this value and run '"@,
            "' again"@,
        ),
        ConfigFailureView::Keyring(m) => match platform {
            Platform::MacOs => (
                " Failed to access secure storage (keyring): "@ + m
                    + " \n  Please check your system keychain and run '"@,
                "' again. \n  If your system is unable to use the keyring, please try setting secret key(s) via environment variables."@,
            ),
            Platform::Windows => (
                " Failed to access Windows Credential Manager: "@ + m
                    + " \n  Please check Windows Credential Manager and run '"@,
                "' again. \n  If your system is unable to use the Credential Manager, please try setting secret key(s) via environment variables."@,
            ),
            Platform::Other => (
                " Failed to access secure storage: "@ + m
                    + " \n  Please check your system's secure storage and run '"@,
                "' again. \n  If your system is unable to use secure storage, please try setting secret key(s) via environment variables."@,
            ),
        },
        ConfigFailureView::Deserialize(m) => (
            " Invalid configuration value: "@ + m + " \n  Please check your input and run '"@,
            "' again"@,
        ),
        ConfigFailureView::File(m) => (
            " Failed to access config file: "@ + m
                + " \n  Please check file permissions and run '"@,
            "' again"@,
        ),
        ConfigFailureView::Directory(m) => (
            " Failed to access config directory: "@ + m
                + " \n  Please check directory permissions and run '"@,
            "' again"@,
        ),
        ConfigFailureView::Other(m) => (
            " "@ + m
                + " \n  We did not save your config, inspect your credentials\n   and run '"@,
            "' again to ensure goose can connect"@,
        ),
    }
}

/// The two parts of what is said where setting up failed.
pub fn failure_notice(f: &ConfigFailure, platform: Platform) -> (r: (String, String))
    ensures
        (r.0@, r.1@) == failure_text(f.deep_view(), platform),
{
    match f {
        ConfigFailure::NotFound(key) => (
            text::cat3(
                " Required configuration key '",
                key,
                "' not found \n  Please provide this value and run '",
            ),
            text::owned("' again"),
        ),
        ConfigFailure::Keyring(m) => match platform {
            Platform::MacOs => (
                text::cat3(
                    " Failed to access secure storage (keyring): ",
                    m,
                    " \n  Please check your system keychain and run '",
                ),
                text::owned(
                    "' again. \n  If your system is unable to use the keyring, please try setting secret key(s) via environment variables.",
                ),
            ),
            Platform::Windows => (
                text::cat3(
                    " Failed to access Windows Credential Manager: ",
                    m,
                    " \n  Please check Windows Credential Manager and run '",
                ),
                text::owned(
                    "' again. \n  If your system is unable to use the Credential Manager, please try setting secret key(s) via environment variables.",
                ),
            ),
            Platform::Other => (
                text::cat3(
                    " Failed to access secure storage: ",
                    m,
                    " \n  Please check your system's secure storage and run '",
                ),
                text::owned(
                    "' again. \n  If your system is unable to use secure storage, please try setting secret key(s) via environment variables.",
                ),
            ),
        },
        ConfigFailure::Deserialize(m) => (
            text::cat3(
                " Invalid configuration value: ",
                m,
                " \n  Please check your input and run '",
            ),
            text::owned("' again"),
        ),
        ConfigFailure::File(m) => (
            text::cat3(
                " Failed to access config file: ",
                m,
                " \n  Please check file permissions and run '",
            ),
            text::owned("' again"),
        ),
        ConfigFailure::Directory(m) => (
            text::cat3(
                " Failed to access config directory: ",
                m,
                " \n  Please check directory permissions and run '",
            ),
            text::owned("' again"),
        ),
        ConfigFailure::Other(m) => (
            text::cat3(
                " ",
                m,
                " \n  We did not save your config, inspect your credentials\n   and run '",
            ),
            text::owned("' again to ensure goose can connect"),
        ),
    }
}

pub open spec fn say(label: NoticeLabel, before: Seq<char>, after: Seq<char>) -> SetupActionView {
    SetupActionView::Say(NoticeView { label, before, after: Some(after) })
}

/// What is done after a provider was set up by hand for the first time: a saved
/// one gets a first extension, otherwise the configuration is cleared.
pub open spec fn manual_finish(
    o: SetupOutcomeView,
    platform: Platform,
    first: ExtensionConfigView,
) -> Seq<SetupActionView> {
    match o {
        SetupOutcomeView::Saved => seq![
            say(
                NoticeLabel::Tip,
                ": Run '"@,
                "' again to adjust your config or add extensions"@,
            ),
            SetupActionView::SetExtension(
                ExtensionEntryView { enabled: true, config: first },
            ),
        ],
        SetupOutcomeView::NotSaved => seq![
            SetupActionView::ClearConfig,
            say(
                NoticeLabel::Warning,
                ": We did not save your config, inspect your credentials\n   and run '"@,
                "' again to ensure goose can connect"@,
            ),
        ],
        SetupOutcomeView::Failed(f) => seq![
            SetupActionView::ClearConfig,
            say(NoticeLabel::Error, failure_text(f, platform).0, failure_text(f, platform).1),
        ],
    }
}

/// What is done after a provider was set up by hand for the first time. `first` is
/// the extension that a new configuration begins with.
pub fn manual_finished(outcome: &SetupOutcome, platform: Platform, first: ExtensionConfig) -> (r:
    Vec<SetupAction>)
    ensures
        r.deep_view() == manual_finish(outcome.deep_view(), platform, first.deep_view()),
{
    match outcome {
        SetupOutcome::Saved => two(
            SetupAction::Say(
                Notice {
                    label: NoticeLabel::Tip,
                    before: text::owned(": Run '"),
                    after: Some(text::owned("' again to adjust your config or add extensions")),
                },
            ),
            SetupAction::SetExtension(ExtensionEntry { enabled: true, config: first }),
        ),
        SetupOutcome::NotSaved => two(
            SetupAction::ClearConfig,
            SetupAction::Say(
                Notice {
                    label: NoticeLabel::Warning,
                    before: text::owned(
                        ": We did not save your config, inspect your credentials\n   and run '",
                    ),
                    after: Some(text::owned("' again to ensure goose can connect")),
                },
            ),
        ),
        SetupOutcome::Failed(f) => {
            let (before, after) = failure_notice(f, platform);
            two(
                SetupAction::ClearConfig,
                SetupAction::Say(
                    Notice { label: NoticeLabel::Error, before, after: Some(after) },
                ),
            )
        },
    }
}

/// The configuration is cleared exactly where the first setup did not work.
pub proof fn law_cleared_unless_saved(
    o: SetupOutcomeView,
    platform: Platform,
    first: ExtensionConfigView,
)
    ensures
        manual_finish(o, platform, first).contains(SetupActionView::ClearConfig) <==> !(
        o is Saved),
{
    let a = manual_finish(o, platform, first);
    if !(o is Saved) {
        assert(a[0] == SetupActionView::ClearConfig);
    }
}

} // verus!
