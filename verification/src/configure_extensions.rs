//! How a user adds an extension, enables extensions and removes them.
use crate::assoc::{self, lookup, put};
use crate::base::{self, Duplicate};
use crate::config_extensions::{
    self, key_of, with_enabled, ExtensionEntry, ExtensionEntryView, ExtensionsMap, ExtensionsView,
};
use crate::extension::{ExtensionConfig, ExtensionConfigView};
use crate::menu::{self, item, item_for, Item, ItemView};
use crate::text::{self, trimmed};
use crate::text_split::{self, parsed_number, sorted, words};
use vstd::prelude::*;
use vstd::string::*;

verus! {

/// The kinds of extensions that can be added.
#[derive(Debug, Clone, Copy, PartialEq, Eq, Structural)]
pub enum ExtensionKind {
    Builtin,
    Stdio,
    Sse,
    StreamableHttp,
}

impl DeepView for ExtensionKind {
    type V = ExtensionKind;

    open spec fn deep_view(&self) -> ExtensionKind {
        *self
    }
}

impl Duplicate for ExtensionKind {
    fn duplicate(&self) -> (r: Self) {
        *self
    }
}

/// What the user is asked, or what is waited for.
#[derive(Debug, Clone, Copy, PartialEq, Eq, Structural)]
pub enum ExtensionQuestion {
    Kind,
    Builtin,
    Name,
    Target,
    Timeout,
    Description,
    AddHeaders,
    HeaderName,
    HeaderValue,
    AnotherHeader,
    AddEnvs,
    EnvName,
    EnvValue,
    Storing,
    AnotherEnv,
    Finished,
}

impl DeepView for ExtensionQuestion {
    type V = ExtensionQuestion;

    open spec fn deep_view(&self) -> ExtensionQuestion {
        *self
    }
}

impl Duplicate for ExtensionQuestion {
    fn duplicate(&self) -> (r: Self) {
        *self
    }
}

/// The dialog in which an extension is added.
#[derive(Debug, PartialEq)]
pub struct ConfigureExtensionsDialog {
    /// The extensions that are already there.
    pub names: Vec<String>,
    pub kind: ExtensionKind,
    pub name: String,
    /// The command or the address.
    pub target: String,
    pub timeout: u64,
    pub description: String,
    pub headers: Vec<(String, String)>,
    /// The variables that are kept with the extension.
    pub envs: Vec<(String, String)>,
    /// The variables that are kept as secrets.
    pub env_keys: Vec<String>,
    /// The name that was given last.
    pub key: String,
    /// The value that was given last.
    pub value: String,
    pub question: ExtensionQuestion,
}

#[verifier::ext_equal]
pub struct ConfigureExtensionsDialogView {
    pub names: Seq<Seq<char>>,
    pub kind: ExtensionKind,
    pub name: Seq<char>,
    pub target: Seq<char>,
    pub timeout: u64,
    pub description: Seq<char>,
    pub headers: Seq<(Seq<char>, Seq<char>)>,
    pub envs: Seq<(Seq<char>, Seq<char>)>,
    pub env_keys: Seq<Seq<char>>,
    pub key: Seq<char>,
    pub value: Seq<char>,
    pub question: ExtensionQuestion,
}

impl DeepView for ConfigureExtensionsDialog {
    type V = ConfigureExtensionsDialogView;

    open spec fn deep_view(&self) -> ConfigureExtensionsDialogView {
        ConfigureExtensionsDialogView {
            names: self.names.deep_view(),
            kind: self.kind,
            name: self.name@,
            target: self.target@,
            timeout: self.timeout,
            description: self.description@,
            headers: self.headers.deep_view(),
            envs: self.envs.deep_view(),
            env_keys: self.env_keys.deep_view(),
            key: self.key@,
            value: self.value@,
            question: self.question,
        }
    }
}

/// What the user answers, or how storing a secret went.
#[derive(Debug, PartialEq)]
pub enum DialogAnswer {
    Choice(String),
    Text(String),
    Confirmed(bool),
    Stored(bool),
}

#[verifier::ext_equal]
pub enum DialogAnswerView {
    Choice(Seq<char>),
    Text(Seq<char>),
    Confirmed(bool),
    Stored(bool),
}

impl DeepView for DialogAnswer {
    type V = DialogAnswerView;

    open spec fn deep_view(&self) -> DialogAnswerView {
        match self {
            DialogAnswer::Choice(x) => DialogAnswerView::Choice(x@),
            DialogAnswer::Text(x) => DialogAnswerView::Text(x@),
            DialogAnswer::Confirmed(x) => DialogAnswerView::Confirmed(*x),
            DialogAnswer::Stored(x) => DialogAnswerView::Stored(*x),
        }
    }
}

/// What the dialog asks the outside to do.
#[derive(Debug, PartialEq)]
pub enum DialogAction {
    Ask(ExtensionQuestion),
    /// Ask the same again, with a message.
    Refuse(String),
    StoreSecret { key: String, value: String },
    /// Save the extension: added, or only enabled.
    Save { entry: ExtensionEntry, added: bool },
    Nothing,
}

#[verifier::ext_equal]
pub enum DialogActionView {
    Ask(ExtensionQuestion),
    Refuse(Seq<char>),
    StoreSecret { key: Seq<char>, value: Seq<char> },
    Save { entry: ExtensionEntryView, added: bool },
    Nothing,
}

impl DeepView for DialogAction {
    type V = DialogActionView;

    open spec fn deep_view(&self) -> DialogActionView {
        match self {
            DialogAction::Ask(x) => DialogActionView::Ask(*x),
            DialogAction::Refuse(x) => DialogActionView::Refuse(x@),
            DialogAction::StoreSecret { key, value } => DialogActionView::StoreSecret {
                key: key@,
                value: value@,
            },
            DialogAction::Save { entry, added } => DialogActionView::Save {
                entry: entry.deep_view(),
                added: *added,
            },
            DialogAction::Nothing => DialogActionView::Nothing,
        }
    }
}

/// The extensions that come with the program.
pub open spec fn builtin_items() -> Seq<ItemView> {
    seq![
        item("autovisualiser"@, "Auto Visualiser"@, "Data visualisation and UI generation tools"@),
        item("computercontroller"@, "Computer Controller"@, "controls for webscraping, file caching, and automations"@),
        item("developer"@, "Developer Tools"@, "Code editing and shell access"@),
        item("jetbrains"@, "JetBrains"@, "Connect to jetbrains IDEs"@),
        item("memory"@, "Memory"@, "Tools to save and retrieve durable memories"@),
        item("tutorial"@, "Tutorial"@, "Access interactive tutorials and guides"@),
    ]
}

/// The extensions that come with the program.
pub fn builtin_extensions() -> (r: Vec<Item>)
    ensures
        r.deep_view() == builtin_items(),
{
    let mut items: Vec<Item> = Vec::new();
    menu::offer(&mut items, "autovisualiser", "Auto Visualiser", "Data visualisation and UI generation tools");
    menu::offer(&mut items, "computercontroller", "Computer Controller", "controls for webscraping, file caching, and automations");
    menu::offer(&mut items, "developer", "Developer Tools", "Code editing and shell access");
    menu::offer(&mut items, "jetbrains", "JetBrains", "Connect to jetbrains IDEs");
    menu::offer(&mut items, "memory", "Memory", "Tools to save and retrieve durable memories");
    menu::offer(&mut items, "tutorial", "Tutorial", "Access interactive tutorials and guides");
    assert(items.deep_view() =~= builtin_items());
    items
}

/// The kind that a choice names.
pub open spec fn kind_named(choice: Seq<char>) -> Option<ExtensionKind> {
    if choice == "built-in"@ {
        Some(ExtensionKind::Builtin)
    } else if choice == "stdio"@ {
        Some(ExtensionKind::Stdio)
    } else if choice == "sse"@ {
        Some(ExtensionKind::Sse)
    } else if choice == "streamable_http"@ {
        Some(ExtensionKind::StreamableHttp)
    } else {
        None
    }
}

/// Why a name cannot be taken.
pub open spec fn name_refusal(name: Seq<char>, names: Seq<Seq<char>>) -> Option<Seq<char>> {
    if name.len() == 0 {
        Some("Please enter a name"@)
    } else if names.contains(name) {
        Some("An extension with this name already exists"@)
    } else {
        None
    }
}

/// Why a name cannot be taken.
pub fn check_name(name: &str, names: &Vec<String>) -> (r: Option<String>)
    ensures
        r.deep_view() == name_refusal(name@, names.deep_view()),
{
    assert(text::texts(names@) =~= names.deep_view());
    if text::is_empty(name) {
        Some(text::owned("Please enter a name"))
    } else if text::list_contains(names, name) {
        Some(text::owned("An extension with this name already exists"))
    } else {
        None
    }
}

/// Why a command or an address cannot be taken. An address begins with `http`;
/// one for streaming begins with a whole scheme.
pub open spec fn target_refusal(kind: ExtensionKind, target: Seq<char>) -> Option<Seq<char>> {
    match kind {
        ExtensionKind::Sse => if target.len() == 0 {
            Some("Please enter a URI"@)
        } else if !text::begins(target, "http"@) {
            Some("URI should start with http:// or https://"@)
        } else {
            None
        },
        ExtensionKind::StreamableHttp => if target.len() == 0 {
            Some("Please enter a URI"@)
        } else if !(text::begins(target, "http://"@) || text::begins(target, "https://"@)) {
            Some("URI should start with http:// or https://"@)
        } else {
            None
        },
        _ => if target.len() == 0 {
            Some("Please enter a command"@)
        } else {
            None
        },
    }
}

/// Why a command or an address cannot be taken.
pub fn check_target(kind: ExtensionKind, target: &str) -> (r: Option<String>)
    ensures
        r.deep_view() == target_refusal(kind, target@),
{
    let empty = text::is_empty(target);
    match kind {
        ExtensionKind::Sse => {
            if empty {
                Some(text::owned("Please enter a URI"))
            } else if !text::starts_with(target, "http") {
                Some(text::owned("URI should start with http:// or https://"))
            } else {
                None
            }
        },
        ExtensionKind::StreamableHttp => {
            if empty {
                Some(text::owned("Please enter a URI"))
            } else if !(text::starts_with(target, "http://") || text::starts_with(
                target,
                "https://",
            )) {
                Some(text::owned("URI should start with http:// or https://"))
            } else {
                None
            }
        },
        _ => {
            if empty {
                Some(text::owned("Please enter a command"))
            } else {
                None
            }
        },
    }
}

/// Why a timeout cannot be taken.
pub fn check_timeout(input: &str) -> (r: Option<String>)
    ensures
        r.deep_view() == (if parsed_number(input@, u64::MAX as nat) is Some {
            None
        } else {
            Some("Please enter a valid timeout"@)
        }),
{
    match text_split::parse_u64(input) {
        Some(_) => None,
        None => Some(text::owned("Please enter a valid timeout")),
    }
}

/// Why a description cannot be taken. Only an extension that streams needs one.
pub open spec fn description_refusal(kind: ExtensionKind, description: Seq<char>) -> Option<
    Seq<char>,
> {
    if kind == ExtensionKind::StreamableHttp && trimmed(description).len() == 0 {
        Some("Please enter a valid description"@)
    } else {
        None
    }
}

/// Why a description cannot be taken.
pub fn check_description(kind: ExtensionKind, description: &str) -> (r: Option<String>)
    ensures
        r.deep_view() == description_refusal(kind, description@),
{
    if kind == ExtensionKind::StreamableHttp && text::is_empty(&text::trim(description)) {
        Some(text::owned("Please enter a valid description"))
    } else {
        None
    }
}

/// How a built-in extension is called, and what is said of it.
pub open spec fn builtin_labels(name: Seq<char>) -> (Seq<char>, Seq<char>) {
    match item_for(builtin_items(), name) {
        Some(i) => (i.label, i.hint),
        None => (name, name),
    }
}

/// The extension that a dialog adds.
pub open spec fn dialog_config(s: ConfigureExtensionsDialogView) -> ExtensionConfigView {
    match s.kind {
        ExtensionKind::Builtin => ExtensionConfigView::Builtin {
            name: s.name,
            display_name: Some(builtin_labels(s.name).0),
            description: builtin_labels(s.name).1,
            timeout: Some(s.timeout),
            bundled: Some(true),
            available_tools: Seq::empty(),
        },
        ExtensionKind::Stdio => ExtensionConfigView::Stdio {
            name: s.name,
            description: s.description,
            cmd: command_of(s.target),
            args: arguments_of(s.target),
            envs: s.envs,
            env_keys: s.env_keys,
            timeout: Some(s.timeout),
            bundled: None,
            available_tools: Seq::empty(),
        },
        ExtensionKind::Sse => ExtensionConfigView::Sse {
            name: s.name,
            description: s.description,
            uri: s.target,
            envs: s.envs,
            env_keys: s.env_keys,
            timeout: Some(s.timeout),
            bundled: None,
            available_tools: Seq::empty(),
        },
        ExtensionKind::StreamableHttp => ExtensionConfigView::StreamableHttp {
            name: s.name,
            description: s.description,
            uri: s.target,
            envs: s.envs,
            env_keys: s.env_keys,
            headers: s.headers,
            timeout: Some(s.timeout),
            bundled: None,
            available_tools: Seq::empty(),
        },
    }
}

/// The first word of a command line.
pub open spec fn command_of(line: Seq<char>) -> Seq<char> {
    if words(line).len() > 0 {
        words(line)[0]
    } else {
        Seq::empty()
    }
}

/// The words of a command line behind the first.
pub open spec fn arguments_of(line: Seq<char>) -> Seq<Seq<char>> {
    if words(line).len() > 0 {
        words(line).drop_first()
    } else {
        Seq::empty()
    }
}

/// The first word of a command line and those behind it.
pub fn split_command(line: &str) -> (r: (String, Vec<String>))
    ensures
        r.0@ == command_of(line@),
        r.1.deep_view() == arguments_of(line@),
{
    let mut parts = text_split::split_whitespace(line);
    let ghost all = words(line@);
    assert(text::texts(parts@) =~= parts.deep_view());
    if parts.len() > 0 {
        let cmd = parts.remove(0);
        assert(parts.deep_view() =~= all.drop_first());
        (cmd, parts)
    } else {
        assert(parts.deep_view() =~= Seq::<Seq<char>>::empty());
        let cmd = String::new();
        assert(cmd@ =~= Seq::<char>::empty());
        (cmd, parts)
    }
}

/// A state and what is done next.
pub type DialogStep = (ConfigureExtensionsDialogView, DialogActionView);

pub open spec fn dialog_ask(
    s: ConfigureExtensionsDialogView,
    question: ExtensionQuestion,
) -> DialogStep {
    (ConfigureExtensionsDialogView { question, ..s }, DialogActionView::Ask(question))
}

pub open spec fn dialog_save(s: ConfigureExtensionsDialogView) -> DialogStep {
    (
        ConfigureExtensionsDialogView { question: ExtensionQuestion::Finished, ..s },
        DialogActionView::Save {
            entry: ExtensionEntryView { enabled: true, config: dialog_config(s) },
            added: s.kind != ExtensionKind::Builtin,
        },
    )
}

/// The step that an answer leads to. An answer that does not fit the question
/// changes nothing.
pub open spec fn dialog_step(s: ConfigureExtensionsDialogView, a: DialogAnswerView) -> DialogStep {
    match (s.question, a) {
        (ExtensionQuestion::Kind, DialogAnswerView::Choice(c)) => match kind_named(c) {
            Some(kind) => dialog_ask(
                ConfigureExtensionsDialogView { kind, ..s },
                if kind == ExtensionKind::Builtin {
                    ExtensionQuestion::Builtin
                } else {
                    ExtensionQuestion::Name
                },
            ),
            None => (s, DialogActionView::Nothing),
        },
        (ExtensionQuestion::Builtin, DialogAnswerView::Choice(name)) => dialog_ask(
            ConfigureExtensionsDialogView { name, ..s },
            ExtensionQuestion::Timeout,
        ),
        (ExtensionQuestion::Name, DialogAnswerView::Text(name)) => match name_refusal(
            name,
            s.names,
        ) {
            Some(m) => (s, DialogActionView::Refuse(m)),
            None => dialog_ask(
                ConfigureExtensionsDialogView { name, ..s },
                ExtensionQuestion::Target,
            ),
        },
        (ExtensionQuestion::Target, DialogAnswerView::Text(target)) => match target_refusal(
            s.kind,
            target,
        ) {
            Some(m) => (s, DialogActionView::Refuse(m)),
            None => dialog_ask(
                ConfigureExtensionsDialogView { target, ..s },
                ExtensionQuestion::Timeout,
            ),
        },
        (ExtensionQuestion::Timeout, DialogAnswerView::Text(t)) => match parsed_number(
            t,
            u64::MAX as nat,
        ) {
            None => (s, DialogActionView::Refuse("Please enter a valid timeout"@)),
            Some(n) => {
                let next = ConfigureExtensionsDialogView { timeout: n as u64, ..s };
                if s.kind == ExtensionKind::Builtin {
                    dialog_save(next)
                } else {
                    dialog_ask(next, ExtensionQuestion::Description)
                }
            },
        },
        (ExtensionQuestion::Description, DialogAnswerView::Text(description)) => {
            match description_refusal(s.kind, description) {
                Some(m) => (s, DialogActionView::Refuse(m)),
                None => dialog_ask(
                    ConfigureExtensionsDialogView { description, ..s },
                    if s.kind == ExtensionKind::StreamableHttp {
                        ExtensionQuestion::AddHeaders
                    } else {
                        ExtensionQuestion::AddEnvs
                    },
                ),
            }
        },
        (ExtensionQuestion::AddHeaders, DialogAnswerView::Confirmed(yes)) => if yes {
            dialog_ask(s, ExtensionQuestion::HeaderName)
        } else {
            dialog_save(s)
        },
        (ExtensionQuestion::HeaderName, DialogAnswerView::Text(key)) => dialog_ask(
            ConfigureExtensionsDialogView { key, ..s },
            ExtensionQuestion::HeaderValue,
        ),
        (ExtensionQuestion::HeaderValue, DialogAnswerView::Text(v)) => dialog_ask(
            ConfigureExtensionsDialogView { headers: put(s.headers, s.key, v), ..s },
            ExtensionQuestion::AnotherHeader,
        ),
        (ExtensionQuestion::AnotherHeader, DialogAnswerView::Confirmed(yes)) => if yes {
            dialog_ask(s, ExtensionQuestion::HeaderName)
        } else {
            dialog_save(s)
        },
        (ExtensionQuestion::AddEnvs, DialogAnswerView::Confirmed(yes)) => if yes {
            dialog_ask(s, ExtensionQuestion::EnvName)
        } else {
            dialog_save(s)
        },
        (ExtensionQuestion::EnvName, DialogAnswerView::Text(key)) => dialog_ask(
            ConfigureExtensionsDialogView { key, ..s },
            ExtensionQuestion::EnvValue,
        ),
        (ExtensionQuestion::EnvValue, DialogAnswerView::Text(value)) => (
            ConfigureExtensionsDialogView { value, question: ExtensionQuestion::Storing, ..s },
            DialogActionView::StoreSecret { key: s.key, value },
        ),
        (ExtensionQuestion::Storing, DialogAnswerView::Stored(ok)) => dialog_ask(
            if ok {
                ConfigureExtensionsDialogView { env_keys: s.env_keys.push(s.key), ..s }
            } else {
                ConfigureExtensionsDialogView { envs: put(s.envs, s.key, s.value), ..s }
            },
            ExtensionQuestion::AnotherEnv,
        ),
        (ExtensionQuestion::AnotherEnv, DialogAnswerView::Confirmed(yes)) => if yes {
            dialog_ask(s, ExtensionQuestion::EnvName)
        } else {
            dialog_save(s)
        },
        _ => (s, DialogActionView::Nothing),
    }
}

/// A dialog in which nothing has been answered.
pub open spec fn dialog_start(names: Seq<Seq<char>>) -> ConfigureExtensionsDialogView {
    ConfigureExtensionsDialogView {
        names,
        kind: ExtensionKind::Builtin,
        name: Seq::empty(),
        target: Seq::empty(),
        timeout: 0,
        description: Seq::empty(),
        headers: Seq::empty(),
        envs: Seq::empty(),
        env_keys: Seq::empty(),
        key: Seq::empty(),
        value: Seq::empty(),
        question: ExtensionQuestion::Kind,
    }
}

impl ConfigureExtensionsDialog {
    /// A dialog that asks first for the kind of the extension. `names` are the
    /// extensions that are already there.
    pub fn new(names: Vec<String>) -> (r: Self)
        ensures
            r.deep_view() == dialog_start(names.deep_view()),
    {
        let r = ConfigureExtensionsDialog {
            names,
            kind: ExtensionKind::Builtin,
            name: String::new(),
            target: String::new(),
            timeout: 0,
            description: String::new(),
            headers: Vec::new(),
            envs: Vec::new(),
            env_keys: Vec::new(),
            key: String::new(),
            value: String::new(),
            question: ExtensionQuestion::Kind,
        };
        assert(r.deep_view() =~= dialog_start(names.deep_view()));
        r
    }

    fn ask(&mut self, question: ExtensionQuestion) -> (r: DialogAction)
        ensures
            (final(self).deep_view(), r.deep_view()) == dialog_ask(
                old(self).deep_view(),
                question,
            ),
    {
        self.question = question;
        DialogAction::Ask(question)
    }

    fn config(&self) -> (r: ExtensionConfig)
        ensures
            r.deep_view() == dialog_config(self.deep_view()),
    {
        let available_tools: Vec<String> = Vec::new();
        assert(available_tools.deep_view() =~= Seq::<Seq<char>>::empty());
        let name = self.name.clone();
        let description = self.description.clone();
        let envs = self.envs.duplicate();
        let env_keys = self.env_keys.duplicate();
        let timeout = Some(self.timeout);
        match self.kind {
            ExtensionKind::Builtin => {
                let (label, hint) = match menu::find_item(&builtin_extensions(), &self.name) {
                    Some(i) => (i.label, i.hint),
                    None => (self.name.clone(), self.name.clone()),
                };
                ExtensionConfig::Builtin {
                    name,
                    display_name: Some(label),
                    description: hint,
                    timeout,
                    bundled: Some(true),
                    available_tools,
                }
            },
            ExtensionKind::Stdio => {
                let (cmd, args) = split_command(&self.target);
                ExtensionConfig::Stdio {
                    name,
                    description,
                    cmd,
                    args,
                    envs,
                    env_keys,
                    timeout,
                    bundled: None,
                    available_tools,
                }
            },
            ExtensionKind::Sse => ExtensionConfig::Sse {
                name,
                description,
                uri: self.target.clone(),
                envs,
                env_keys,
                timeout,
                bundled: None,
                available_tools,
            },
            ExtensionKind::StreamableHttp => ExtensionConfig::StreamableHttp {
                name,
                description,
                uri: self.target.clone(),
                envs,
                env_keys,
                headers: self.headers.duplicate(),
                timeout,
                bundled: None,
                available_tools,
            },
        }
    }

    fn save(&mut self) -> (r: DialogAction)
        ensures
            (final(self).deep_view(), r.deep_view()) == dialog_save(old(self).deep_view()),
    {
        let config = self.config();
        self.question = ExtensionQuestion::Finished;
        let added = self.kind != ExtensionKind::Builtin;
        DialogAction::Save { entry: ExtensionEntry { enabled: true, config }, added }
    }

    fn choose_kind(&mut self, choice: &str) -> (r: DialogAction)
        requires
            old(self).question == ExtensionQuestion::Kind,
        ensures
            (final(self).deep_view(), r.deep_view()) == dialog_step(
                old(self).deep_view(),
                DialogAnswerView::Choice(choice@),
            ),
    {
        let kind = if text::str_eq(choice, "built-in") {
            ExtensionKind::Builtin
        } else if text::str_eq(choice, "stdio") {
            ExtensionKind::Stdio
        } else if text::str_eq(choice, "sse") {
            ExtensionKind::Sse
        } else if text::str_eq(choice, "streamable_http") {
            ExtensionKind::StreamableHttp
        } else {
            return DialogAction::Nothing;
        };
        self.kind = kind;
        if kind == ExtensionKind::Builtin {
            self.ask(ExtensionQuestion::Builtin)
        } else {
            self.ask(ExtensionQuestion::Name)
        }
    }

    fn take_text(&mut self, t: String) -> (r: DialogAction)
        ensures
            (final(self).deep_view(), r.deep_view()) == dialog_step(
                old(self).deep_view(),
                DialogAnswerView::Text(t@),
            ),
    {
        match self.question {
            ExtensionQuestion::Name => {
                match check_name(&t, &self.names) {
                    Some(m) => DialogAction::Refuse(m),
                    None => {
                        self.name = t;
                        self.ask(ExtensionQuestion::Target)
                    },
                }
            },
            ExtensionQuestion::Target => {
                match check_target(self.kind, &t) {
                    Some(m) => DialogAction::Refuse(m),
                    None => {
                        self.target = t;
                        self.ask(ExtensionQuestion::Timeout)
                    },
                }
            },
            ExtensionQuestion::Timeout => {
                match text_split::parse_u64(&t) {
                    None => DialogAction::Refuse(text::owned("Please enter a valid timeout")),
                    Some(n) => {
                        self.timeout = n;
                        if self.kind == ExtensionKind::Builtin {
                            self.save()
                        } else {
                            self.ask(ExtensionQuestion::Description)
                        }
                    },
                }
            },
            ExtensionQuestion::Description => {
                match check_description(self.kind, &t) {
                    Some(m) => DialogAction::Refuse(m),
                    None => {
                        self.description = t;
                        if self.kind == ExtensionKind::StreamableHttp {
                            self.ask(ExtensionQuestion::AddHeaders)
                        } else {
                            self.ask(ExtensionQuestion::AddEnvs)
                        }
                    },
                }
            },
            ExtensionQuestion::HeaderName => {
                self.key = t;
                self.ask(ExtensionQuestion::HeaderValue)
            },
            ExtensionQuestion::HeaderValue => {
                assoc::insert(&mut self.headers, self.key.clone(), t);
                self.ask(ExtensionQuestion::AnotherHeader)
            },
            ExtensionQuestion::EnvName => {
                self.key = t;
                self.ask(ExtensionQuestion::EnvValue)
            },
            ExtensionQuestion::EnvValue => {
                self.value = t.clone();
                self.question = ExtensionQuestion::Storing;
                DialogAction::StoreSecret { key: self.key.clone(), value: t }
            },
            _ => DialogAction::Nothing,
        }
    }

    fn confirmed(&mut self, yes: bool) -> (r: DialogAction)
        ensures
            (final(self).deep_view(), r.deep_view()) == dialog_step(
                old(self).deep_view(),
                DialogAnswerView::Confirmed(yes),
            ),
    {
        match self.question {
            ExtensionQuestion::AddHeaders | ExtensionQuestion::AnotherHeader => {
                if yes {
                    self.ask(ExtensionQuestion::HeaderName)
                } else {
                    self.save()
                }
            },
            ExtensionQuestion::AddEnvs | ExtensionQuestion::AnotherEnv => {
                if yes {
                    self.ask(ExtensionQuestion::EnvName)
                } else {
                    self.save()
                }
            },
            _ => DialogAction::Nothing,
        }
    }

    /// Takes the step that an answer leads to.
    pub fn step(&mut self, answer: DialogAnswer) -> (r: DialogAction)
        ensures
            (final(self).deep_view(), r.deep_view()) == dialog_step(
                old(self).deep_view(),
                answer.deep_view(),
            ),
    {
        match (self.question, answer) {
            (ExtensionQuestion::Kind, DialogAnswer::Choice(c)) => self.choose_kind(&c),
            (ExtensionQuestion::Builtin, DialogAnswer::Choice(name)) => {
                self.name = name;
                self.ask(ExtensionQuestion::Timeout)
            },
            (_, DialogAnswer::Text(t)) => self.take_text(t),
            (_, DialogAnswer::Confirmed(yes)) => self.confirmed(yes),
            (ExtensionQuestion::Storing, DialogAnswer::Stored(ok)) => {
                let key = self.key.clone();
                if ok {
                    base::push(&mut self.env_keys, key);
                } else {
                    let value = self.value.clone();
                    assoc::insert(&mut self.envs, key, value);
                }
                self.ask(ExtensionQuestion::AnotherEnv)
            },
            _ => DialogAction::Nothing,
        }
    }
}

/// What is known of the answers that were taken.
pub open spec fn dialog_valid(s: ConfigureExtensionsDialogView) -> bool {
    let named = s.question != ExtensionQuestion::Kind && s.question != ExtensionQuestion::Builtin
        && s.question != ExtensionQuestion::Name && s.kind != ExtensionKind::Builtin;
    let placed = named && s.question != ExtensionQuestion::Target;
    &&& (named ==> name_refusal(s.name, s.names) is None)
    &&& (placed ==> target_refusal(s.kind, s.target) is None)
    &&& (placed && s.question != ExtensionQuestion::Timeout && s.question
        != ExtensionQuestion::Description ==> description_refusal(s.kind, s.description) is None)
    &&& (s.question == ExtensionQuestion::Name || s.question == ExtensionQuestion::Target
        ==> s.kind != ExtensionKind::Builtin)
    &&& (s.question == ExtensionQuestion::Builtin ==> s.kind == ExtensionKind::Builtin)
}

/// Whatever is answered, an extension that is added has a name that is neither
/// empty nor taken, and a command or an address that is accepted.
pub proof fn law_added_extension_is_valid(
    s: ConfigureExtensionsDialogView,
    a: DialogAnswerView,
)
    requires
        dialog_valid(s),
        s.question != ExtensionQuestion::Finished,
    ensures
        ({
            let t = dialog_step(s, a);
            &&& dialog_valid(t.0) && t.0.names == s.names
            &&& t.1 matches DialogActionView::Save { entry, added } ==> entry.enabled && (added
                ==> name_refusal(entry.config.name(), s.names) is None && target_refusal(
                t.0.kind,
                t.0.target,
            ) is None)
        }),
{
}

/// The dialog and the last action after a list of answers.
pub open spec fn dialog_run(names: Seq<Seq<char>>, answers: Seq<DialogAnswerView>) -> DialogStep
    decreases answers.len(),
{
    if answers.len() == 0 {
        (dialog_start(names), DialogActionView::Ask(ExtensionQuestion::Kind))
    } else {
        dialog_step(dialog_run(names, answers.drop_last()).0, answers.last())
    }
}

/// Whatever is answered from the start on, a dialog that adds an extension gives it
/// a name that is neither empty nor taken.
pub proof fn law_dialog_adds_new_names(names: Seq<Seq<char>>, answers: Seq<DialogAnswerView>)
    ensures
        dialog_valid(dialog_run(names, answers).0),
        dialog_run(names, answers).0.names == names,
        dialog_run(names, answers).1 matches DialogActionView::Save { entry, added } ==> (added
            ==> name_refusal(entry.config.name(), names) is None),
    decreases answers.len(),
{
    if answers.len() > 0 {
        law_dialog_adds_new_names(names, answers.drop_last());
        let before = dialog_run(names, answers.drop_last()).0;
        if before.question != ExtensionQuestion::Finished {
            law_added_extension_is_valid(before, answers.last());
        }
    }
}

/// A finished dialog stays as it is.
pub proof fn law_saved_once(s: ConfigureExtensionsDialogView, a: DialogAnswerView)
    requires
        s.question == ExtensionQuestion::Finished,
    ensures
        dialog_step(s, a) == (s, DialogActionView::Nothing),
{
}

/// The extensions by their names, in order, and whether they are enabled.
pub open spec fn statuses(entries: Seq<ExtensionEntryView>) -> Seq<(Seq<char>, bool)> {
    sorted(status_list(entries))
}

pub open spec fn status_list(entries: Seq<ExtensionEntryView>) -> Seq<(Seq<char>, bool)> {
    entries.map_values(|e: ExtensionEntryView| (e.config.name(), e.enabled))
}

/// The extensions by their names, in order, and whether they are enabled.
pub fn extension_status(entries: &Vec<ExtensionEntry>) -> (r: Vec<(String, bool)>)
    ensures
        r.deep_view() == statuses(entries.deep_view()),
{
    let mut out: Vec<(String, bool)> = Vec::new();
    let mut i: usize = 0;
    while i < entries.len()
        invariant
            i <= entries@.len(),
            out.deep_view() == status_list(entries.deep_view()).take(i as int),
        decreases entries@.len() - i,
    {
        base::push(&mut out, (entries[i].config.name().clone(), entries[i].enabled));
        assert(out.deep_view() =~= status_list(entries.deep_view()).take(i + 1));
        i = i + 1;
    }
    assert(out.deep_view() =~= status_list(entries.deep_view()));
    text_split::sort_by_name(out)
}

/// The names that are marked as `enabled` says.
pub open spec fn marked(list: Seq<(Seq<char>, bool)>, enabled: bool) -> Seq<Seq<char>>
    decreases list.len(),
{
    if list.len() == 0 {
        Seq::empty()
    } else if list.last().1 == enabled {
        marked(list.drop_last(), enabled).push(list.last().0)
    } else {
        marked(list.drop_last(), enabled)
    }
}

/// The names that are marked as `enabled` says.
pub fn names_marked(list: &Vec<(String, bool)>, enabled: bool) -> (r: Vec<String>)
    ensures
        r.deep_view() == marked(list.deep_view(), enabled),
{
    let mut out: Vec<String> = Vec::new();
    let ghost all = list.deep_view();
    let mut i: usize = 0;
    assert(out.deep_view() =~= marked(all.take(0), enabled));
    while i < list.len()
        invariant
            i <= list@.len(),
            all == list.deep_view(),
            out.deep_view() == marked(all.take(i as int), enabled),
        decreases list@.len() - i,
    {
        assert(all.take(i + 1).drop_last() =~= all.take(i as int));
        if list[i].1 == enabled {
            base::push(&mut out, list[i].0.clone());
        }
        i = i + 1;
    }
    assert(all.take(all.len() as int) =~= all);
    out
}

/// The map in which each of some extensions is enabled if it was selected.
pub open spec fn toggled(
    m: ExtensionsView,
    names: Seq<Seq<char>>,
    selected: Seq<Seq<char>>,
) -> ExtensionsView
    decreases names.len(),
{
    if names.len() == 0 {
        m
    } else {
        with_enabled(
            toggled(m, names.drop_last(), selected),
            key_of(names.last()),
            selected.contains(names.last()),
        )
    }
}

/// Enables the extensions that were selected and disables the others. `names` are
/// those that were offered.
pub fn toggle_extensions_dialog(
    extensions: &mut ExtensionsMap,
    names: &Vec<String>,
    selected: &Vec<String>,
)
    ensures
        final(extensions).deep_view() == toggled(
            old(extensions).deep_view(),
            names.deep_view(),
            selected.deep_view(),
        ),
{
    let ghost before = extensions.deep_view();
    let ghost all = names.deep_view();
    let mut i: usize = 0;
    assert(text::texts(selected@) =~= selected.deep_view());
    while i < names.len()
        invariant
            i <= names@.len(),
            all == names.deep_view(),
            text::texts(selected@) == selected.deep_view(),
            extensions.deep_view() == toggled(before, all.take(i as int), selected.deep_view()),
        decreases names@.len() - i,
    {
        assert(all.take(i + 1).drop_last() =~= all.take(i as int));
        let key = config_extensions::name_to_key(&names[i]);
        let enabled = text::list_contains(selected, &names[i]);
        let _ = config_extensions::set_extension_enabled(extensions, &key, enabled);
        i = i + 1;
    }
    assert(all.take(all.len() as int) =~= all);
}

/// What a user who wants to remove extensions is offered.
#[derive(Debug, PartialEq)]
pub enum RemoveOffer {
    /// There are none.
    NoExtensions,
    /// Only a disabled extension can be removed.
    AllEnabled,
    /// The disabled ones, by name.
    Disabled(Vec<String>),
}

#[verifier::ext_equal]
pub enum RemoveOfferView {
    NoExtensions,
    AllEnabled,
    Disabled(Seq<Seq<char>>),
}

impl DeepView for RemoveOffer {
    type V = RemoveOfferView;

    open spec fn deep_view(&self) -> RemoveOfferView {
        match self {
            RemoveOffer::NoExtensions => RemoveOfferView::NoExtensions,
            RemoveOffer::AllEnabled => RemoveOfferView::AllEnabled,
            RemoveOffer::Disabled(l) => RemoveOfferView::Disabled(l.deep_view()),
        }
    }
}

/// What a user who wants to remove extensions is offered: the disabled ones.
pub open spec fn removable(entries: Seq<ExtensionEntryView>) -> RemoveOfferView {
    if entries.len() == 0 {
        RemoveOfferView::NoExtensions
    } else if marked(status_list(entries), false).len() == 0 {
        RemoveOfferView::AllEnabled
    } else {
        RemoveOfferView::Disabled(marked(status_list(entries), false))
    }
}

/// What a user who wants to remove extensions is offered.
pub fn removable_extensions(entries: &Vec<ExtensionEntry>) -> (r: RemoveOffer)
    ensures
        r.deep_view() == removable(entries.deep_view()),
{
    if entries.len() == 0 {
        return RemoveOffer::NoExtensions;
    }
    let mut disabled: Vec<String> = Vec::new();
    let ghost all = status_list(entries.deep_view());
    let mut i: usize = 0;
    assert(disabled.deep_view() =~= marked(all.take(0), false));
    while i < entries.len()
        invariant
            i <= entries@.len(),
            all == status_list(entries.deep_view()),
            disabled.deep_view() == marked(all.take(i as int), false),
        decreases entries@.len() - i,
    {
        assert(all.take(i + 1).drop_last() =~= all.take(i as int));
        if !entries[i].enabled {
            base::push(&mut disabled, entries[i].config.name().clone());
        }
        i = i + 1;
    }
    assert(all.take(all.len() as int) =~= all);
    if disabled.len() == 0 {
        RemoveOffer::AllEnabled
    } else {
        RemoveOffer::Disabled(disabled)
    }
}

/// The map without the extensions of some names.
pub open spec fn without_named(m: ExtensionsView, names: Seq<Seq<char>>) -> ExtensionsView
    decreases names.len(),
{
    if names.len() == 0 {
        m
    } else {
        assoc::without(without_named(m, names.drop_last()), key_of(names.last()))
    }
}

/// Removes the extensions that were selected. Returns their keys, under which
/// their permissions are dropped too.
pub fn remove_extension_dialog(extensions: &mut ExtensionsMap, selected: &Vec<String>) -> (r: Vec<
    String,
>)
    ensures
        final(extensions).deep_view() == without_named(
            old(extensions).deep_view(),
            selected.deep_view(),
        ),
        r.deep_view() == selected.deep_view().map_values(|n: Seq<char>| key_of(n)),
{
    let ghost before = extensions.deep_view();
    let ghost all = selected.deep_view();
    let ghost wanted = all.map_values(|n: Seq<char>| key_of(n));
    let mut keys: Vec<String> = Vec::new();
    let mut i: usize = 0;
    while i < selected.len()
        invariant
            i <= selected@.len(),
            all == selected.deep_view(),
            wanted == all.map_values(|n: Seq<char>| key_of(n)),
            extensions.deep_view() == without_named(before, all.take(i as int)),
            keys.deep_view() == wanted.take(i as int),
        decreases selected@.len() - i,
    {
        assert(all.take(i + 1).drop_last() =~= all.take(i as int));
        let key = config_extensions::name_to_key(&selected[i]);
        config_extensions::remove_extension(extensions, &key);
        base::push(&mut keys, key);
        assert(keys.deep_view() =~= wanted.take(i + 1));
        i = i + 1;
    }
    assert(all.take(all.len() as int) =~= all);
    assert(keys.deep_view() =~= wanted);
    keys
}

proof fn lemma_enable_keeps(m: ExtensionsView, key: Seq<char>, enabled: bool, other: Seq<char>)
    requires
        other != key,
    ensures
        lookup(with_enabled(m, key, enabled), other) == lookup(m, other),
{
    match lookup(m, key) {
        Some(e) => {
            assoc::lemma_lookup_put(m, key, ExtensionEntryView { enabled, ..e }, other);
        },
        None => {},
    }
}

/// Toggling keeps every extension with its configuration, and leaves those alone
/// that were not offered.
pub proof fn law_toggle_keeps_configs(
    m: ExtensionsView,
    names: Seq<Seq<char>>,
    selected: Seq<Seq<char>>,
    key: Seq<char>,
)
    ensures
        match lookup(m, key) {
            Some(e) => lookup(toggled(m, names, selected), key) matches Some(f) && f.config
                == e.config,
            None => lookup(toggled(m, names, selected), key) is None,
        },
        (forall|i: int| 0 <= i < names.len() ==> key_of(#[trigger] names[i]) != key) ==> lookup(
            toggled(m, names, selected),
            key,
        ) == lookup(m, key),
    decreases names.len(),
{
    if names.len() > 0 {
        let before = toggled(m, names.drop_last(), selected);
        law_toggle_keeps_configs(m, names.drop_last(), selected, key);
        let k = key_of(names.last());
        let on = selected.contains(names.last());
        if k == key {
            match lookup(before, k) {
                Some(e) => {
                    assoc::lemma_lookup_put(
                        before,
                        k,
                        ExtensionEntryView { enabled: on, ..e },
                        key,
                    );
                },
                None => {},
            }
        } else {
            lemma_enable_keeps(before, k, on, key);
            if forall|i: int| 0 <= i < names.len() ==> key_of(#[trigger] names[i]) != key {
                assert forall|i: int| 0 <= i < names.drop_last().len() implies key_of(
                    #[trigger] names.drop_last()[i],
                ) != key by {
                    assert(names.drop_last()[i] == names[i]);
                }
            }
        }
        assert(key_of(names[names.len() - 1]) == k);
    }
}

} // verus!
