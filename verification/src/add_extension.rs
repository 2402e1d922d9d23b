//! How an extension is connected: which secrets, commands and servers it takes
//! one after the other.
use crate::assoc::{self, lookup, put, unique_keys};
use crate::base::{self, Duplicate};
use crate::config_extensions::{self, key_of, DEFAULT_EXTENSION_TIMEOUT};
use crate::extension::{
    ExtensionConfig, ExtensionConfigView, ExtensionError, ExtensionErrorView,
};
use crate::extension_manager::{
    self, begins_name, normalized, prefixed, prefixed_tool, resolved, Connected, ExtensionView,
    ResolvedCallView, ServerInfo, ServerInfoView,
};
use crate::extension_manager_extension::EXTENSION_NAME;
use crate::json::{Json, JsonView};
use crate::text;
use crate::tool::{ErrorDataView, ToolCallView, ToolView};
use vstd::prelude::*;
use vstd::string::*;

verus! {

/// A character that the name of an HTTP header can have.
pub open spec fn header_char(c: char) -> bool {
    ('a' <= c && c <= 'z') || ('A' <= c && c <= 'Z') || ('0' <= c && c <= '9') || c == '!' || c
        == '#' || c == '$' || c == '%' || c == '&' || c == '\'' || c == '*' || c == '+' || c == '-'
        || c == '.' || c == '^' || c == '_' || c == '`' || c == '|' || c == '~'
}

/// The longest name that an HTTP header can have.
pub const MAX_HEADER_NAME_LEN: usize = 65535;

/// The name of an HTTP header in its usual form, in lower case, where it is one.
pub open spec fn header_name(s: Seq<char>) -> Option<Seq<char>> {
    if 0 < s.len() <= MAX_HEADER_NAME_LEN && forall|i: int|
        0 <= i < s.len() ==> header_char(#[trigger] s[i]) {
        Some(text::ascii_lowercase(s))
    } else {
        None
    }
}

/// A text that an HTTP header can have as its value: no control character but
/// the tab.
pub open spec fn header_value(s: Seq<char>) -> bool {
    forall|i: int|
        0 <= i < s.len() ==> {
            let c = #[trigger] s[i];
            (c >= ' ' && c != '\x7f') || c == '\t'
        }
}

/// `axum::http::HeaderName::try_from`, and the name as `HeaderName::as_str`
/// gives it: a name of one to 65535 token characters comes back in lower case,
/// and any other is refused.
#[verifier::external_body]
fn parse_header_name(s: &str) -> (r: Option<String>)
    ensures
        r.deep_view() == header_name(s@),
{
    axum::http::HeaderName::try_from(s).ok().map(|n| n.as_str().to_string())
}

/// `axum::http::HeaderValue` out of a text: whether it is accepted.
#[verifier::external_body]
fn accepts_header_value(s: &str) -> (r: bool)
    ensures
        r == header_value(s@),
{
    s.parse::<axum::http::HeaderValue>().is_ok()
}

/// The headers that are sent, each under its usual name, or the first of them
/// that cannot be sent.
pub open spec fn http_headers(list: Seq<(Seq<char>, Seq<char>)>) -> Result<
    Seq<(Seq<char>, Seq<char>)>,
    ExtensionErrorView,
>
    decreases list.len(),
{
    if list.len() == 0 {
        Ok(Seq::empty())
    } else {
        match http_headers(list.drop_last()) {
            Err(e) => Err(e),
            Ok(headers) => {
                let (key, value) = list.last();
                match header_name(key) {
                    None => Err(ExtensionErrorView::ConfigError("invalid header: "@ + key)),
                    Some(name) => if header_value(value) {
                        Ok(put(headers, name, value))
                    } else {
                        Err(ExtensionErrorView::ConfigError("invalid header value: "@ + key))
                    },
                }
            },
        }
    }
}

proof fn lemma_first_bad_header(
    list: Seq<(Seq<char>, Seq<char>)>,
    n: int,
    e: ExtensionErrorView,
)
    requires
        0 <= n <= list.len(),
        http_headers(list.take(n)) == Err::<Seq<(Seq<char>, Seq<char>)>, _>(e),
    ensures
        http_headers(list) == Err::<Seq<(Seq<char>, Seq<char>)>, _>(e),
    decreases list.len() - n,
{
    if n < list.len() {
        assert(list.take(n + 1).drop_last() =~= list.take(n));
        lemma_first_bad_header(list, n + 1, e);
    } else {
        assert(list.take(n) =~= list);
    }
}

/// The headers that are sent, each under its usual name, or the first of them
/// that cannot be sent.
pub fn check_headers(list: &Vec<(String, String)>) -> (r: Result<
    Vec<(String, String)>,
    ExtensionError,
>)
    ensures
        match r {
            Ok(h) => http_headers(list.deep_view()) == Ok::<_, ExtensionErrorView>(h.deep_view()),
            Err(e) => http_headers(list.deep_view()) == Err::<Seq<(Seq<char>, Seq<char>)>, _>(
                e.deep_view(),
            ),
        },
{
    let mut out: Vec<(String, String)> = Vec::new();
    let ghost all = list.deep_view();
    let mut i: usize = 0;
    assert(out.deep_view() =~= Seq::<(Seq<char>, Seq<char>)>::empty());
    assert(all.take(0) =~= Seq::empty());
    while i < list.len()
        invariant
            i <= list@.len(),
            all == list.deep_view(),
            http_headers(all.take(i as int)) == Ok::<_, ExtensionErrorView>(out.deep_view()),
        decreases list@.len() - i,
    {
        assert(all.take(i + 1).drop_last() =~= all.take(i as int));
        assert(all.take(i + 1).last() == list@[i as int].deep_view());
        let name = match parse_header_name(&list[i].0) {
            Some(name) => name,
            None => {
                let e = ExtensionError::ConfigError(text::cat("invalid header: ", &list[i].0));
                proof {
                    lemma_first_bad_header(all, i + 1, e.deep_view());
                }
                return Err(e);
            },
        };
        if !accepts_header_value(&list[i].1) {
            let e = ExtensionError::ConfigError(text::cat("invalid header value: ", &list[i].0));
            proof {
                lemma_first_bad_header(all, i + 1, e.deep_view());
            }
            return Err(e);
        }
        assoc::insert(&mut out, name, list[i].1.clone());
        i = i + 1;
    }
    assert(all.take(list@.len() as int) =~= all);
    Ok(out)
}

/// What connecting an extension waits for.
#[derive(Debug, Clone, Copy, PartialEq, Eq, Structural)]
pub enum AddPhase {
    SecretWanted,
    CommandChecked,
    ExecutableWanted,
    ScriptWanted,
    Connecting,
    HttpConnecting,
    Authorizing,
    Closed,
}

impl DeepView for AddPhase {
    type V = AddPhase;

    open spec fn deep_view(&self) -> AddPhase {
        *self
    }
}

impl Duplicate for AddPhase {
    fn duplicate(&self) -> (r: Self) {
        *self
    }
}

/// What connecting an extension asks the outside to do.
#[derive(Debug, PartialEq)]
pub enum AddAction {
    /// Look a secret up in the secret store.
    FetchSecret(String),
    /// Make sure that a command is not known to be malicious.
    CheckCommand { cmd: String, args: Vec<String> },
    /// Find the running program.
    ResolveExecutable,
    /// Write a script into a directory of its own.
    WriteScript { file_name: String, code: String },
    /// Start a command and connect to its standard streams.
    Spawn {
        cmd: String,
        args: Vec<String>,
        envs: Vec<(String, String)>,
        timeout: u64,
    },
    ConnectSse { uri: String, timeout: u64 },
    ConnectHttp { uri: String, headers: Vec<(String, String)>, timeout: u64 },
    /// Let the user authorize the agent.
    Authorize { uri: String, name: String },
    ConnectAuthorized { uri: String, timeout: u64 },
    CreatePlatform { name: String },
    /// The extension is connected and is kept under a name.
    Keep { name: String, client: u64, info: Option<ServerInfo> },
    Fail(ExtensionError),
    /// Nothing is to be done.
    Wait,
}

#[verifier::ext_equal]
pub enum AddActionView {
    FetchSecret(Seq<char>),
    CheckCommand { cmd: Seq<char>, args: Seq<Seq<char>> },
    ResolveExecutable,
    WriteScript { file_name: Seq<char>, code: Seq<char> },
    Spawn {
        cmd: Seq<char>,
        args: Seq<Seq<char>>,
        envs: Seq<(Seq<char>, Seq<char>)>,
        timeout: u64,
    },
    ConnectSse { uri: Seq<char>, timeout: u64 },
    ConnectHttp { uri: Seq<char>, headers: Seq<(Seq<char>, Seq<char>)>, timeout: u64 },
    Authorize { uri: Seq<char>, name: Seq<char> },
    ConnectAuthorized { uri: Seq<char>, timeout: u64 },
    CreatePlatform { name: Seq<char> },
    Keep { name: Seq<char>, client: u64, info: Option<ServerInfoView> },
    Fail(ExtensionErrorView),
    Wait,
}

impl DeepView for AddAction {
    type V = AddActionView;

    open spec fn deep_view(&self) -> AddActionView {
        match self {
            AddAction::FetchSecret(x) => AddActionView::FetchSecret(x@),
            AddAction::CheckCommand { cmd, args } => AddActionView::CheckCommand {
                cmd: cmd@,
                args: args.deep_view(),
            },
            AddAction::ResolveExecutable => AddActionView::ResolveExecutable,
            AddAction::WriteScript { file_name, code } => AddActionView::WriteScript {
                file_name: file_name@,
                code: code@,
            },
            AddAction::Spawn { cmd, args, envs, timeout } => AddActionView::Spawn {
                cmd: cmd@,
                args: args.deep_view(),
                envs: envs.deep_view(),
                timeout: *timeout,
            },
            AddAction::ConnectSse { uri, timeout } => AddActionView::ConnectSse {
                uri: uri@,
                timeout: *timeout,
            },
            AddAction::ConnectHttp { uri, headers, timeout } => AddActionView::ConnectHttp {
                uri: uri@,
                headers: headers.deep_view(),
                timeout: *timeout,
            },
            AddAction::Authorize { uri, name } => AddActionView::Authorize {
                uri: uri@,
                name: name@,
            },
            AddAction::ConnectAuthorized { uri, timeout } => AddActionView::ConnectAuthorized {
                uri: uri@,
                timeout: *timeout,
            },
            AddAction::CreatePlatform { name } => AddActionView::CreatePlatform {
                name: name@,
            },
            AddAction::Keep { name, client, info } => AddActionView::Keep {
                name: name@,
                client: *client,
                info: info.deep_view(),
            },
            AddAction::Fail(x) => AddActionView::Fail(x.deep_view()),
            AddAction::Wait => AddActionView::Wait,
        }
    }
}

/// What the outside reports while an extension is connected.
#[derive(Debug, PartialEq)]
pub enum AddEvent {
    /// The secret, or why it could not be looked up.
    Secret(Result<Json, String>),
    CommandAllowed,
    /// The path of the running program, or why it is not known.
    Executable(Result<String, String>),
    /// The path of the script.
    Script(String),
    Connected { client: u64, info: Option<ServerInfo> },
    HttpClientUnavailable,
    AuthorizationRequired,
    Authorized,
    AuthorizationFailed,
    Failed(ExtensionError),
}

pub enum AddEventView {
    Secret(Result<JsonView, Seq<char>>),
    CommandAllowed,
    Executable(Result<Seq<char>, Seq<char>>),
    Script(Seq<char>),
    Connected { client: u64, info: Option<ServerInfoView> },
    HttpClientUnavailable,
    AuthorizationRequired,
    Authorized,
    AuthorizationFailed,
    Failed(ExtensionErrorView),
}

impl DeepView for AddEvent {
    type V = AddEventView;

    open spec fn deep_view(&self) -> AddEventView {
        match self {
            AddEvent::Secret(r) => AddEventView::Secret(
                match r {
                    Ok(v) => Ok(v.deep_view()),
                    Err(e) => Err(e@),
                },
            ),
            AddEvent::CommandAllowed => AddEventView::CommandAllowed,
            AddEvent::Executable(r) => AddEventView::Executable(
                match r {
                    Ok(p) => Ok(p@),
                    Err(e) => Err(e@),
                },
            ),
            AddEvent::Script(p) => AddEventView::Script(p@),
            AddEvent::Connected { client, info } => AddEventView::Connected {
                client: *client,
                info: info.deep_view(),
            },
            AddEvent::HttpClientUnavailable => AddEventView::HttpClientUnavailable,
            AddEvent::AuthorizationRequired => AddEventView::AuthorizationRequired,
            AddEvent::Authorized => AddEventView::Authorized,
            AddEvent::AuthorizationFailed => AddEventView::AuthorizationFailed,
            AddEvent::Failed(e) => AddEventView::Failed(e.deep_view()),
        }
    }
}

/// An extension that is being connected.
#[derive(Debug, PartialEq)]
pub struct AddExtension {
    pub config: ExtensionConfig,
    /// The environment of a command, as far as it is known.
    pub envs: Vec<(String, String)>,
    /// The secrets that are still to be looked up.
    pub pending: Vec<String>,
    pub phase: AddPhase,
}

#[verifier::ext_equal]
pub struct AddExtensionView {
    pub config: ExtensionConfigView,
    pub envs: Seq<(Seq<char>, Seq<char>)>,
    pub pending: Seq<Seq<char>>,
    pub phase: AddPhase,
}

impl DeepView for AddExtension {
    type V = AddExtensionView;

    open spec fn deep_view(&self) -> AddExtensionView {
        AddExtensionView {
            config: self.config.deep_view(),
            envs: self.envs.deep_view(),
            pending: self.pending.deep_view(),
            phase: self.phase,
        }
    }
}

/// A state and the action that leads on from it.
pub type AddStep = (AddExtensionView, AddActionView);

pub open spec fn timeout_of(timeout: Option<u64>) -> u64 {
    match timeout {
        Some(t) => t,
        None => DEFAULT_EXTENSION_TIMEOUT,
    }
}

pub open spec fn add_wait(s: AddExtensionView, phase: AddPhase, a: AddActionView) -> AddStep {
    (AddExtensionView { phase, ..s }, a)
}

pub open spec fn add_fail(s: AddExtensionView, e: ExtensionErrorView) -> AddStep {
    add_wait(s, AddPhase::Closed, AddActionView::Fail(e))
}

/// The first secret that the environment does not hold yet is looked up; after
/// the last one the command is checked.
pub open spec fn next_secret(s: AddExtensionView) -> AddStep
    decreases s.pending.len(),
{
    if s.pending.len() > 0 {
        if lookup(s.envs, s.pending[0]) is Some {
            next_secret(AddExtensionView { pending: s.pending.drop_first(), ..s })
        } else {
            add_wait(s, AddPhase::SecretWanted, AddActionView::FetchSecret(s.pending[0]))
        }
    } else {
        match s.config {
            ExtensionConfigView::Stdio { cmd, args, .. } => add_wait(
                s,
                AddPhase::CommandChecked,
                AddActionView::CheckCommand { cmd, args },
            ),
            _ => (s, AddActionView::Wait),
        }
    }
}

/// A secret that is a text joins the environment, and any other value is passed
/// over.
pub open spec fn secret_found(s: AddExtensionView, v: JsonView) -> AddStep {
    let rest = AddExtensionView { pending: s.pending.drop_first(), ..s };
    match v {
        JsonView::Text(t) => next_secret(
            AddExtensionView { envs: put(s.envs, s.pending[0], t), ..rest },
        ),
        _ => next_secret(rest),
    }
}

/// The first step of connecting an extension. `known` holds the names of the
/// extensions inside the agent.
pub open spec fn add_start(config: ExtensionConfigView, known: Seq<Seq<char>>) -> AddStep {
    let s = AddExtensionView {
        config,
        envs: Seq::empty(),
        pending: Seq::empty(),
        phase: AddPhase::Closed,
    };
    match config {
        ExtensionConfigView::Sse { uri, timeout, .. } => add_wait(
            s,
            AddPhase::Connecting,
            AddActionView::ConnectSse { uri, timeout: timeout_of(timeout) },
        ),
        ExtensionConfigView::StreamableHttp { uri, timeout, headers, .. } => match http_headers(
            headers,
        ) {
            Ok(headers) => add_wait(
                s,
                AddPhase::HttpConnecting,
                AddActionView::ConnectHttp { uri, headers, timeout: timeout_of(timeout) },
            ),
            Err(e) => add_fail(s, e),
        },
        ExtensionConfigView::Stdio { envs, env_keys, .. } => next_secret(
            AddExtensionView { envs, pending: env_keys, ..s },
        ),
        ExtensionConfigView::Builtin { .. } => add_wait(
            s,
            AddPhase::ExecutableWanted,
            AddActionView::ResolveExecutable,
        ),
        ExtensionConfigView::Platform { name, .. } => if known.contains(name) {
            add_wait(s, AddPhase::Connecting, AddActionView::CreatePlatform { name })
        } else {
            add_fail(
                s,
                ExtensionErrorView::ConfigError("Unknown platform extension: "@ + name),
            )
        },
        ExtensionConfigView::InlinePython { name, code, .. } => add_wait(
            s,
            AddPhase::ScriptWanted,
            AddActionView::WriteScript { file_name: name + ".py"@, code },
        ),
        ExtensionConfigView::Frontend { .. } => add_fail(
            s,
            ExtensionErrorView::ConfigError(
                "Invalid extension type: Frontend extensions cannot be added as server extensions"@,
            ),
        ),
    }
}

/// The arguments with which a script and its dependencies are run.
pub open spec fn python_args(dependencies: Option<Seq<Seq<char>>>, path: Seq<char>) -> Seq<
    Seq<char>,
> {
    let deps = match dependencies {
        Some(d) => d,
        None => Seq::empty(),
    };
    with_args(seq!["--with"@, "mcp"@], deps).push("python"@).push(path)
}

/// `--with` before each of a list.
pub open spec fn with_args(start: Seq<Seq<char>>, deps: Seq<Seq<char>>) -> Seq<Seq<char>>
    decreases deps.len(),
{
    if deps.len() == 0 {
        start
    } else {
        with_args(start, deps.drop_last()).push("--with"@).push(deps.last())
    }
}

/// The name under which an extension is kept.
pub open spec fn kept_name(config: ExtensionConfigView) -> Seq<char> {
    normalized(key_of(config.name()))
}

/// The step that an event leads to. An event that the phase does not wait for
/// changes nothing.
pub open spec fn add_step(s: AddExtensionView, e: AddEventView) -> AddStep {
    match (s.phase, e, s.config) {
        (AddPhase::Closed, _, _) => (s, AddActionView::Wait),
        (_, AddEventView::Failed(e), _) => add_fail(s, e),
        (AddPhase::SecretWanted, AddEventView::Secret(Ok(v)), _) => secret_found(s, v),
        (AddPhase::SecretWanted, AddEventView::Secret(Err(e)), _) => add_fail(
            s,
            ExtensionErrorView::ConfigError(
                "Failed to fetch secret '"@ + s.pending[0] + "' from config: "@ + e,
            ),
        ),
        (
            AddPhase::CommandChecked,
            AddEventView::CommandAllowed,
            ExtensionConfigView::Stdio { cmd, args, timeout, .. },
        ) => add_wait(
            s,
            AddPhase::Connecting,
            AddActionView::Spawn { cmd, args, envs: s.envs, timeout: timeout_of(timeout) },
        ),
        (
            AddPhase::ExecutableWanted,
            AddEventView::Executable(Ok(cmd)),
            ExtensionConfigView::Builtin { name, timeout, .. },
        ) => add_wait(
            s,
            AddPhase::Connecting,
            AddActionView::Spawn {
                cmd,
                args: seq!["mcp"@, name],
                envs: Seq::empty(),
                timeout: timeout_of(timeout),
            },
        ),
        (AddPhase::ExecutableWanted, AddEventView::Executable(Err(e)), _) => add_fail(
            s,
            ExtensionErrorView::ConfigError("Failed to resolve executable path: "@ + e),
        ),
        (
            AddPhase::ScriptWanted,
            AddEventView::Script(path),
            ExtensionConfigView::InlinePython { timeout, dependencies, .. },
        ) => add_wait(
            s,
            AddPhase::Connecting,
            AddActionView::Spawn {
                cmd: "uvx"@,
                args: python_args(dependencies, path),
                envs: Seq::empty(),
                timeout: timeout_of(timeout),
            },
        ),
        (AddPhase::HttpConnecting, AddEventView::HttpClientUnavailable, _) => add_fail(
            s,
            ExtensionErrorView::ConfigError("could not construct http client"@),
        ),
        (
            AddPhase::HttpConnecting,
            AddEventView::AuthorizationRequired,
            ExtensionConfigView::StreamableHttp { uri, name, .. },
        ) => add_wait(s, AddPhase::Authorizing, AddActionView::Authorize { uri, name }),
        (
            AddPhase::Authorizing,
            AddEventView::Authorized,
            ExtensionConfigView::StreamableHttp { uri, timeout, .. },
        ) => add_wait(
            s,
            AddPhase::Connecting,
            AddActionView::ConnectAuthorized { uri, timeout: timeout_of(timeout) },
        ),
        (AddPhase::Authorizing, AddEventView::AuthorizationFailed, _) => add_fail(
            s,
            ExtensionErrorView::SetupError("auth error"@),
        ),
        (
            AddPhase::Connecting | AddPhase::HttpConnecting,
            AddEventView::Connected { client, info },
            _,
        ) => add_wait(
            s,
            AddPhase::Closed,
            AddActionView::Keep { name: kept_name(s.config), client, info },
        ),
        _ => (s, AddActionView::Wait),
    }
}

fn timeout_or_default(timeout: &Option<u64>) -> (r: u64)
    ensures
        r == timeout_of(*timeout),
{
    match timeout {
        Some(t) => *t,
        None => DEFAULT_EXTENSION_TIMEOUT,
    }
}

/// The arguments with which a script and its dependencies are run.
pub fn python_command_args(dependencies: &Option<Vec<String>>, path: String) -> (r: Vec<String>)
    ensures
        r.deep_view() == python_args(dependencies.deep_view(), path@),
{
    let mut out: Vec<String> = Vec::new();
    out.push(text::owned("--with"));
    out.push(text::owned("mcp"));
    let ghost start = seq!["--with"@, "mcp"@];
    assert(out.deep_view() =~= start);
    if let Some(deps) = dependencies {
        let ghost all = deps.deep_view();
        let mut i: usize = 0;
        assert(all.take(0) =~= Seq::empty());
        while i < deps.len()
            invariant
                i <= deps@.len(),
                all == deps.deep_view(),
                out.deep_view() == with_args(start, all.take(i as int)),
            decreases deps@.len() - i,
        {
            assert(all.take(i + 1).drop_last() =~= all.take(i as int));
            base::push(&mut out, text::owned("--with"));
            base::push(&mut out, deps[i].clone());
            i = i + 1;
        }
        assert(all.take(deps@.len() as int) =~= all);
    }
    base::push(&mut out, text::owned("python"));
    base::push(&mut out, path);
    out
}

impl AddExtension {
    fn wait(&mut self, phase: AddPhase, a: AddAction) -> (r: AddAction)
        ensures
            (final(self).deep_view(), r.deep_view()) == add_wait(
                old(self).deep_view(),
                phase,
                a.deep_view(),
            ),
    {
        self.phase = phase;
        a
    }

    fn fail(&mut self, e: ExtensionError) -> (r: AddAction)
        ensures
            (final(self).deep_view(), r.deep_view()) == add_fail(
                old(self).deep_view(),
                e.deep_view(),
            ),
    {
        self.wait(AddPhase::Closed, AddAction::Fail(e))
    }

    fn next_secret(&mut self) -> (r: AddAction)
        ensures
            (final(self).deep_view(), r.deep_view()) == next_secret(old(self).deep_view()),
    {
        let ghost before = self.deep_view();
        while self.pending.len() > 0
            invariant
                before == old(self).deep_view(),
                next_secret(self.deep_view()) == next_secret(before),
            decreases self.pending@.len(),
        {
            let key = self.pending[0].clone();
            if !assoc::contains_key(&self.envs, &key) {
                return self.wait(AddPhase::SecretWanted, AddAction::FetchSecret(key));
            }
            let ghost p = self.pending.deep_view();
            let _ = self.pending.remove(0);
            assert(self.pending.deep_view() =~= p.drop_first());
        }
        if let ExtensionConfig::Stdio { cmd, args, .. } = &self.config {
            let (cmd, args) = (cmd.clone(), args.duplicate());
            return self.wait(AddPhase::CommandChecked, AddAction::CheckCommand { cmd, args });
        }
        AddAction::Wait
    }

    fn secret_found(&mut self, v: &Json) -> (r: AddAction)
        requires
            old(self).pending@.len() > 0,
        ensures
            (final(self).deep_view(), r.deep_view()) == secret_found(
                old(self).deep_view(),
                v.deep_view(),
            ),
    {
        let ghost p = self.pending.deep_view();
        let key = self.pending.remove(0);
        assert(self.pending.deep_view() =~= p.drop_first());
        if let Json::Text(t) = v {
            assoc::insert(&mut self.envs, key, t.clone());
        }
        self.next_secret()
    }

    /// Starts to connect an extension. `known` holds the names of the extensions
    /// inside the agent.
    pub fn start(config: ExtensionConfig, known: &Vec<String>) -> (r: (Self, AddAction))
        ensures
            (r.0.deep_view(), r.1.deep_view()) == add_start(
                config.deep_view(),
                known.deep_view(),
            ),
            r.0.wf(),
    {
        let envs: Vec<(String, String)> = Vec::new();
        let pending: Vec<String> = Vec::new();
        assert(envs.deep_view() =~= Seq::<(Seq<char>, Seq<char>)>::empty());
        assert(pending.deep_view() =~= Seq::<Seq<char>>::empty());
        assert(text::texts(known@) =~= known.deep_view());
        let mut s = AddExtension { config, envs, pending, phase: AddPhase::Closed };
        let a = match &s.config {
            ExtensionConfig::Sse { uri, timeout, .. } => {
                let a = AddAction::ConnectSse {
                    uri: uri.clone(),
                    timeout: timeout_or_default(timeout),
                };
                s.wait(AddPhase::Connecting, a)
            },
            ExtensionConfig::StreamableHttp { uri, timeout, headers, .. } => {
                match check_headers(headers) {
                    Ok(headers) => {
                        let a = AddAction::ConnectHttp {
                            uri: uri.clone(),
                            headers,
                            timeout: timeout_or_default(timeout),
                        };
                        s.wait(AddPhase::HttpConnecting, a)
                    },
                    Err(e) => s.fail(e),
                }
            },
            ExtensionConfig::Stdio { envs, env_keys, .. } => {
                let (envs, env_keys) = (envs.duplicate(), env_keys.duplicate());
                s.envs = envs;
                s.pending = env_keys;
                s.next_secret()
            },
            ExtensionConfig::Builtin { .. } => s.wait(
                AddPhase::ExecutableWanted,
                AddAction::ResolveExecutable,
            ),
            ExtensionConfig::Platform { name, .. } => {
                let name = name.clone();
                if text::list_contains(known, &name) {
                    s.wait(AddPhase::Connecting, AddAction::CreatePlatform { name })
                } else {
                    let e = ExtensionError::ConfigError(
                        text::cat("Unknown platform extension: ", &name),
                    );
                    s.fail(e)
                }
            },
            ExtensionConfig::InlinePython { name, code, .. } => {
                let a = AddAction::WriteScript {
                    file_name: text::cat(name, ".py"),
                    code: code.clone(),
                };
                s.wait(AddPhase::ScriptWanted, a)
            },
            ExtensionConfig::Frontend { .. } => {
                let e = ExtensionError::ConfigError(
                    text::owned(
                        "Invalid extension type: Frontend extensions cannot be added as server extensions",
                    ),
                );
                s.fail(e)
            },
        };
        proof {
            lemma_start_wf(config.deep_view(), known.deep_view());
        }
        (s, a)
    }

    /// A secret is waited for, of a command, only while one is to be looked up
    /// that the environment lacks.
    pub open spec fn wf(&self) -> bool {
        add_wf(self.deep_view())
    }

    /// Takes the step that an event leads to.
    pub fn step(&mut self, event: AddEvent) -> (r: AddAction)
        requires
            old(self).wf(),
        ensures
            (final(self).deep_view(), r.deep_view()) == add_step(
                old(self).deep_view(),
                event.deep_view(),
            ),
            final(self).wf(),
    {
        proof {
            lemma_step_wf(self.deep_view(), event.deep_view());
        }
        match (self.phase, event) {
            (AddPhase::Closed, _) => AddAction::Wait,
            (_, AddEvent::Failed(e)) => self.fail(e),
            (AddPhase::SecretWanted, AddEvent::Secret(Ok(v))) => self.secret_found(&v),
            (AddPhase::SecretWanted, AddEvent::Secret(Err(e))) => {
                let mut message = text::cat3(
                    "Failed to fetch secret '",
                    &self.pending[0],
                    "' from config: ",
                );
                message.append(&e);
                self.fail(ExtensionError::ConfigError(message))
            },
            (AddPhase::CommandChecked, AddEvent::CommandAllowed) => {
                if let ExtensionConfig::Stdio { cmd, args, timeout, .. } = &self.config {
                    let a = AddAction::Spawn {
                        cmd: cmd.clone(),
                        args: args.duplicate(),
                        envs: self.envs.duplicate(),
                        timeout: timeout_or_default(timeout),
                    };
                    return self.wait(AddPhase::Connecting, a);
                }
                AddAction::Wait
            },
            (AddPhase::ExecutableWanted, AddEvent::Executable(Ok(cmd))) => {
                if let ExtensionConfig::Builtin { name, timeout, .. } = &self.config {
                    let mut args: Vec<String> = Vec::new();
                    args.push(text::owned("mcp"));
                    args.push(name.clone());
                    assert(args.deep_view() =~= seq!["mcp"@, name@]);
                    let envs: Vec<(String, String)> = Vec::new();
                    assert(envs.deep_view() =~= Seq::<(Seq<char>, Seq<char>)>::empty());
                    let a = AddAction::Spawn {
                        cmd,
                        args,
                        envs,
                        timeout: timeout_or_default(timeout),
                    };
                    return self.wait(AddPhase::Connecting, a);
                }
                AddAction::Wait
            },
            (AddPhase::ExecutableWanted, AddEvent::Executable(Err(e))) => {
                let message = text::cat("Failed to resolve executable path: ", &e);
                self.fail(ExtensionError::ConfigError(message))
            },
            (AddPhase::ScriptWanted, AddEvent::Script(path)) => {
                if let ExtensionConfig::InlinePython { timeout, dependencies, .. } = &self.config {
                    let args = python_command_args(dependencies, path);
                    let envs: Vec<(String, String)> = Vec::new();
                    assert(envs.deep_view() =~= Seq::<(Seq<char>, Seq<char>)>::empty());
                    let a = AddAction::Spawn {
                        cmd: text::owned("uvx"),
                        args,
                        envs,
                        timeout: timeout_or_default(timeout),
                    };
                    return self.wait(AddPhase::Connecting, a);
                }
                AddAction::Wait
            },
            (AddPhase::HttpConnecting, AddEvent::HttpClientUnavailable) => {
                let message = text::owned("could not construct http client");
                self.fail(ExtensionError::ConfigError(message))
            },
            (AddPhase::HttpConnecting, AddEvent::AuthorizationRequired) => {
                if let ExtensionConfig::StreamableHttp { uri, name, .. } = &self.config {
                    let a = AddAction::Authorize { uri: uri.clone(), name: name.clone() };
                    return self.wait(AddPhase::Authorizing, a);
                }
                AddAction::Wait
            },
            (AddPhase::Authorizing, AddEvent::Authorized) => {
                if let ExtensionConfig::StreamableHttp { uri, timeout, .. } = &self.config {
                    let a = AddAction::ConnectAuthorized {
                        uri: uri.clone(),
                        timeout: timeout_or_default(timeout),
                    };
                    return self.wait(AddPhase::Connecting, a);
                }
                AddAction::Wait
            },
            (AddPhase::Authorizing, AddEvent::AuthorizationFailed) => {
                self.fail(ExtensionError::SetupError(text::owned("auth error")))
            },
            (AddPhase::Connecting, AddEvent::Connected { client, info }) => {
                self.connected(client, info)
            },
            (AddPhase::HttpConnecting, AddEvent::Connected { client, info }) => {
                self.connected(client, info)
            },
            _ => AddAction::Wait,
        }
    }

    fn connected(&mut self, client: u64, info: Option<ServerInfo>) -> (r: AddAction)
        ensures
            (final(self).deep_view(), r.deep_view()) == add_wait(
                old(self).deep_view(),
                AddPhase::Closed,
                AddActionView::Keep {
                    name: kept_name(old(self).deep_view().config),
                    client,
                    info: info.deep_view(),
                },
            ),
    {
        let key = config_extensions::name_to_key(self.config.name());
        let name = extension_manager::normalize(key);
        self.wait(AddPhase::Closed, AddAction::Keep { name, client, info })
    }
}

proof fn lemma_step_wf(s: AddExtensionView, e: AddEventView)
    requires
        add_wf(s),
    ensures
        add_wf(add_step(s, e).0),
{
    if let (AddPhase::SecretWanted, AddEventView::Secret(Ok(v))) = (s.phase, e) {
        let rest = AddExtensionView { pending: s.pending.drop_first(), ..s };
        match v {
            JsonView::Text(t) => {
                lemma_next_secret_wf(
                    AddExtensionView { envs: put(s.envs, s.pending[0], t), ..rest },
                );
            },
            _ => {
                lemma_next_secret_wf(rest);
            },
        }
    }
}

/// A secret is waited for, of a command, only while one is to be looked up that
/// the environment lacks.
pub open spec fn add_wf(s: AddExtensionView) -> bool {
    s.phase == AddPhase::SecretWanted ==> s.pending.len() > 0 && s.config is Stdio && lookup(
        s.envs,
        s.pending[0],
    ) is None
}

proof fn lemma_next_secret_wf(s: AddExtensionView)
    requires
        s.config is Stdio,
    ensures
        add_wf(next_secret(s).0),
    decreases s.pending.len(),
{
    if s.pending.len() > 0 && lookup(s.envs, s.pending[0]) is Some {
        lemma_next_secret_wf(AddExtensionView { pending: s.pending.drop_first(), ..s });
    }
}

proof fn lemma_start_wf(config: ExtensionConfigView, known: Seq<Seq<char>>)
    ensures
        add_wf(add_start(config, known).0),
{
    if let ExtensionConfigView::Stdio { envs, env_keys, .. } = config {
        lemma_next_secret_wf(
            AddExtensionView { config, envs, pending: env_keys, phase: AddPhase::Closed },
        );
    }
}

/// Once an extension is connected or refused, nothing more is done.
pub proof fn law_closed_is_final(s: AddExtensionView, e: AddEventView)
    requires
        s.phase == AddPhase::Closed,
    ensures
        add_step(s, e) == (s, AddActionView::Wait),
{
}

/// A configured command is started only after it has been checked, and as it
/// was checked.
pub proof fn law_checked_before_started(s: AddExtensionView, e: AddEventView)
    requires
        s.config is Stdio,
        add_step(s, e).1 is Spawn,
    ensures
        s.phase == AddPhase::CommandChecked,
        e is CommandAllowed,
        add_step(s, e).1->Spawn_cmd == s.config->cmd,
        add_step(s, e).1->Spawn_args == s.config->args,
{
    if let (AddPhase::SecretWanted, AddEventView::Secret(Ok(v))) = (s.phase, e) {
        let rest = AddExtensionView { pending: s.pending.drop_first(), ..s };
        lemma_next_secret_keeps(rest);
        if let JsonView::Text(t) = v {
            lemma_next_secret_keeps(AddExtensionView { envs: put(s.envs, s.pending[0], t), ..rest });
        }
    }
}

proof fn lemma_next_secret_keeps(s: AddExtensionView)
    ensures
        next_secret(s).0.envs == s.envs,
        !(next_secret(s).1 is Spawn),
    decreases s.pending.len(),
{
    if s.pending.len() > 0 && lookup(s.envs, s.pending[0]) is Some {
        lemma_next_secret_keeps(AddExtensionView { pending: s.pending.drop_first(), ..s });
    }
}

/// A value that the environment holds is not replaced by a secret.
pub proof fn law_environment_wins(s: AddExtensionView, e: AddEventView, key: Seq<char>)
    requires
        add_wf(s),
        lookup(s.envs, key) is Some,
    ensures
        lookup(add_step(s, e).0.envs, key) == lookup(s.envs, key),
{
    if let (AddPhase::SecretWanted, AddEventView::Secret(Ok(v))) = (s.phase, e) {
        let rest = AddExtensionView { pending: s.pending.drop_first(), ..s };
        lemma_next_secret_keeps(rest);
        if let JsonView::Text(t) = v {
            lemma_next_secret_keeps(AddExtensionView { envs: put(s.envs, s.pending[0], t), ..rest });
            assoc::lemma_lookup_put(s.envs, s.pending[0], t, key);
        }
    }
}

/// The extension that manages extensions is kept under its name, so that its tools
/// are listed under that name, two underscores and the name of the tool.
pub proof fn law_manager_keeps_its_name(config: ExtensionConfigView, t: ToolView)
    requires
        config.name() == EXTENSION_NAME@,
    ensures
        kept_name(config) == EXTENSION_NAME@,
        prefixed_tool(kept_name(config), t).name == EXTENSION_NAME@ + "__"@ + t.name,
{
    reveal_strlit("extensionmanager");
    let name = EXTENSION_NAME@;
    extension_manager::law_key_normalizes_as_name(name);
    extension_manager::lemma_normalized_name(name);
}

/// Once the extension that manages extensions is connected, a call of one of its
/// tools under that name reaches it, where no longer key begins the name of the
/// tool.
pub proof fn law_manager_tools_resolve(
    m: Connected,
    e: ExtensionView,
    tool: Seq<char>,
    arguments: Option<Seq<(Seq<char>, JsonView)>>,
)
    requires
        unique_keys(m),
        e.config.name() == EXTENSION_NAME@,
        e.config.offers(tool),
        forall|j: int|
            0 <= j < m.len() && (#[trigger] m[j]).0.len() > EXTENSION_NAME@.len() ==> !begins_name(
                m[j].0,
                EXTENSION_NAME@ + "__"@ + tool,
            ),
    ensures
        ({
            let connected = put(m, kept_name(e.config), e);
            resolved(
                connected,
                ToolCallView { name: EXTENSION_NAME@ + "__"@ + tool, arguments },
            ) == Ok::<_, ErrorDataView>(
                ResolvedCallView {
                    client_name: EXTENSION_NAME@,
                    client: e.client,
                    tool_name: tool,
                    arguments,
                },
            )
        }),
{
    let name = EXTENSION_NAME@;
    let full = name + "__"@ + tool;
    law_manager_keeps_its_name(
        e.config,
        ToolView {
            name: tool,
            title: None,
            description: None,
            input_schema: Seq::empty(),
            output_schema: None,
            annotations: None,
            icons: None,
        },
    );
    let c = put(m, name, e);
    assoc::lemma_unique_put(m, name, e);
    assoc::lemma_lookup_put(m, name, e, name);
    assoc::lemma_lookup_is_some(c, name);
    let i = choose|i: int| 0 <= i < c.len() && (#[trigger] c[i]).0 == name;
    assert forall|j: int| 0 <= j < i implies (#[trigger] c[j]).0 != name by {
        assert(c[j].0 != c[i].0);
    }
    assoc::lemma_lookup_at(c, name, i);
    assert forall|j: int|
        0 <= j < c.len() && (#[trigger] c[j]).0.len() > c[i].0.len() implies !begins_name(
        c[j].0,
        prefixed(c[i].0, tool),
    ) by {
        let k = c[j].0;
        assoc::lemma_lookup_is_some(c, k);
        assoc::lemma_lookup_put(m, name, e, k);
        assoc::lemma_lookup_is_some(m, k);
        let q = choose|q: int| 0 <= q < m.len() && (#[trigger] m[q]).0 == k;
        assert(m[q].0.len() > name.len());
    }
    extension_manager::law_prefixed_call_resolves(c, i, tool, arguments);
}

} // verus!
