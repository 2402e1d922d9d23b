//! How each kind of extension is connected, from its configuration to the client.
use crate::add_extension::{
    add_start, add_step, http_headers, python_args, with_args, AddActionView, AddEventView,
    AddExtensionView, AddPhase,
};
use crate::assoc::{self, lookup};
use crate::config_extensions::key_of;
use crate::extension::{ExtensionConfigView, ExtensionErrorView};
use crate::extension_manager::{normalized, ServerInfoView};
use crate::json::JsonView;
use crate::text;
use vstd::prelude::*;

verus! {

/// The seconds that are waited for an extension: its own, or five minutes.
pub open spec fn patience(timeout: Option<u64>) -> u64 {
    if timeout is Some {
        timeout->0
    } else {
        300
    }
}

/// An attempt that ends with an error over the configuration.
pub open spec fn refused(a: AddActionView, message: Seq<char>) -> bool {
    a == AddActionView::Fail(ExtensionErrorView::ConfigError(message))
}

/// A remote extension is reached at its own address, for as long as it says.
pub proof fn law_remote_extensions_connect(config: ExtensionConfigView, known: Seq<Seq<char>>)
    ensures
        ({
            let a = add_start(config, known);
            match config {
                ExtensionConfigView::Sse { uri, timeout, .. } => a.1
                    == (AddActionView::ConnectSse { uri, timeout: patience(timeout) }),
                ExtensionConfigView::StreamableHttp { name, uri, headers, timeout, .. } => {
                    &&& http_headers(headers) matches Ok(h) ==> a.1 == (
                    AddActionView::ConnectHttp {
                        uri,
                        headers: h,
                        timeout: patience(timeout),
                    })
                    &&& http_headers(headers) matches Err(e) ==> a.1 == AddActionView::Fail(e)
                    &&& http_headers(headers) is Ok ==> ({
                        let b = add_step(a.0, AddEventView::AuthorizationRequired);
                        let c = add_step(b.0, AddEventView::Authorized);
                        &&& b.1 == (AddActionView::Authorize { uri, name })
                        &&& c.1 == (AddActionView::ConnectAuthorized {
                            uri,
                            timeout: patience(timeout),
                        })
                        &&& add_step(b.0, AddEventView::AuthorizationFailed).1
                            == AddActionView::Fail(ExtensionErrorView::SetupError("auth error"@))
                        &&& refused(
                            add_step(a.0, AddEventView::HttpClientUnavailable).1,
                            "could not construct http client"@,
                        )
                    })
                },
                _ => true,
            }
        }),
{
}

/// An extension inside the agent is made where the agent knows it; a built-in one runs
/// the program itself with its name; a script is written and run with what it depends
/// on; and what the frontend has cannot be connected.
pub proof fn law_local_extensions_start(
    config: ExtensionConfigView,
    known: Seq<Seq<char>>,
    program: Seq<char>,
    path: Seq<char>,
    e: Seq<char>,
)
    ensures
        ({
            let a = add_start(config, known);
            match config {
                ExtensionConfigView::Platform { name, .. } => {
                    &&& known.contains(name) ==> a.1 == (AddActionView::CreatePlatform { name })
                    &&& !known.contains(name) ==> refused(
                        a.1,
                        "Unknown platform extension: "@ + name,
                    )
                },
                ExtensionConfigView::Builtin { name, timeout, .. } => {
                    &&& a.1 == AddActionView::ResolveExecutable
                    &&& add_step(a.0, AddEventView::Executable(Ok(program))).1 == (
                    AddActionView::Spawn {
                        cmd: program,
                        args: seq!["mcp"@, name],
                        envs: Seq::empty(),
                        timeout: patience(timeout),
                    })
                    &&& refused(
                        add_step(a.0, AddEventView::Executable(Err(e))).1,
                        "Failed to resolve executable path: "@ + e,
                    )
                },
                ExtensionConfigView::InlinePython { name, code, dependencies, timeout, .. } => {
                    &&& a.1 == (AddActionView::WriteScript { file_name: name + ".py"@, code })
                    &&& add_step(a.0, AddEventView::Script(path)).1 == (AddActionView::Spawn {
                        cmd: "uvx"@,
                        args: python_args(dependencies, path),
                        envs: Seq::empty(),
                        timeout: patience(timeout),
                    })
                },
                ExtensionConfigView::Frontend { .. } => refused(
                    a.1,
                    "Invalid extension type: Frontend extensions cannot be added as server extensions"@,
                ),
                _ => true,
            }
        }),
{
}

/// A script is run by `python` with its path, and `--with` stands before `mcp` and before
/// each thing that it depends on, in order.
pub proof fn law_script_arguments(deps: Seq<Seq<char>>, path: Seq<char>)
    ensures
        python_args(None, path) == seq!["--with"@, "mcp"@, "python"@, path],
        python_args(Some(deps), path).len() == 2 * deps.len() + 4,
        python_args(Some(deps), path)[0] == "--with"@,
        python_args(Some(deps), path)[1] == "mcp"@,
        forall|i: int|
            0 <= i < deps.len() ==> #[trigger] deps[i] == python_args(Some(deps), path)[2 * i + 3]
                && python_args(Some(deps), path)[2 * i + 2] == "--with"@,
        python_args(Some(deps), path)[(2 * deps.len() + 2) as int] == "python"@,
        python_args(Some(deps), path).last() == path,
{
    let none = Seq::<Seq<char>>::empty();
    assert(with_args(seq!["--with"@, "mcp"@], none) == seq!["--with"@, "mcp"@]);
    assert(python_args(None, path) =~= seq!["--with"@, "mcp"@, "python"@, path]);
    lemma_with_args(seq!["--with"@, "mcp"@], deps);
}

proof fn lemma_with_args(start: Seq<Seq<char>>, deps: Seq<Seq<char>>)
    ensures
        ({
            let r = with_args(start, deps);
            &&& r.len() == start.len() + 2 * deps.len()
            &&& forall|i: int| 0 <= i < start.len() ==> r[i] == start[i]
            &&& forall|i: int|
                0 <= i < deps.len() ==> #[trigger] deps[i] == r[start.len() + 2 * i + 1]
                    && r[start.len() + 2 * i] == "--with"@
        }),
    decreases deps.len(),
{
    if deps.len() > 0 {
        let before = deps.drop_last();
        lemma_with_args(start, before);
        let r = with_args(start, deps);
        assert forall|i: int| 0 <= i < deps.len() implies #[trigger] deps[i] == r[start.len() + 2
            * i + 1] && r[start.len() + 2 * i] == "--with"@ by {
            if i < before.len() {
                assert(before[i] == deps[i]);
            }
        }
    }
}

/// A command runs with its own program and arguments, once that is allowed, in the
/// environment that its configuration and its secrets make.
pub proof fn law_command_runs(s: AddExtensionView)
    requires
        s.phase == AddPhase::CommandChecked,
    ensures
        s.config matches ExtensionConfigView::Stdio { cmd, args, timeout, .. } ==> add_step(
            s,
            AddEventView::CommandAllowed,
        ).1 == (AddActionView::Spawn { cmd, args, envs: s.envs, timeout: patience(timeout) }),
{
}

/// A command whose secrets are all in its environment is checked at once, with its
/// program and its arguments, and the environment is that of the configuration.
pub proof fn law_complete_environment_is_checked(
    config: ExtensionConfigView,
    known: Seq<Seq<char>>,
)
    ensures
        config matches ExtensionConfigView::Stdio { cmd, args, envs, env_keys, .. } ==> ({
            let a = add_start(config, known);
            (forall|i: int|
                0 <= i < env_keys.len() ==> lookup(envs, #[trigger] env_keys[i]) is Some) ==> a.1
                == (AddActionView::CheckCommand { cmd, args }) && a.0.envs == envs && a.0.phase
                == AddPhase::CommandChecked && a.0.config == config
        }),
{
    if let ExtensionConfigView::Stdio { cmd, args, envs, env_keys, .. } = config {
        if forall|i: int| 0 <= i < env_keys.len() ==> lookup(envs, #[trigger] env_keys[i]) is Some {
            lemma_nothing_pending(
                AddExtensionView { config, envs, pending: env_keys, phase: AddPhase::Closed },
            );
        }
    }
}

proof fn lemma_nothing_pending(s: AddExtensionView)
    requires
        forall|i: int|
            0 <= i < s.pending.len() ==> lookup(s.envs, #[trigger] s.pending[i]) is Some,
        s.config is Stdio,
    ensures
        ({
            let r = crate::add_extension::next_secret(s);
            &&& s.config matches ExtensionConfigView::Stdio { cmd, args, .. } && r.1 == (
            AddActionView::CheckCommand { cmd, args })
            &&& r.0.envs == s.envs
            &&& r.0.config == s.config
            &&& r.0.phase == AddPhase::CommandChecked
        }),
    decreases s.pending.len(),
{
    if s.pending.len() > 0 {
        let rest = s.pending.drop_first();
        assert(lookup(s.envs, s.pending[0]) is Some);
        assert forall|i: int| 0 <= i < rest.len() implies lookup(
            s.envs,
            #[trigger] rest[i],
        ) is Some by {
            assert(rest[i] == s.pending[i + 1]);
        }
        lemma_nothing_pending(AddExtensionView { pending: rest, ..s });
    }
}

proof fn lemma_first_secret(s: AddExtensionView, i: int)
    requires
        0 <= i < s.pending.len(),
        lookup(s.envs, s.pending[i]) is None,
        forall|j: int| 0 <= j < i ==> lookup(s.envs, #[trigger] s.pending[j]) is Some,
    ensures
        ({
            let r = crate::add_extension::next_secret(s);
            &&& r.1 == AddActionView::FetchSecret(s.pending[i])
            &&& r.0.phase == AddPhase::SecretWanted
            &&& r.0.envs == s.envs
            &&& r.0.pending == s.pending.skip(i)
            &&& r.0.config == s.config
        }),
    decreases s.pending.len(),
{
    if i > 0 {
        let rest = s.pending.drop_first();
        assert(lookup(s.envs, s.pending[0]) is Some);
        assert forall|j: int| 0 <= j < i - 1 implies lookup(
            s.envs,
            #[trigger] rest[j],
        ) is Some by {
            assert(rest[j] == s.pending[j + 1]);
        }
        lemma_first_secret(AddExtensionView { pending: rest, ..s }, i - 1);
        assert(rest.skip(i - 1) =~= s.pending.skip(i));
    } else {
        assert(s.pending.skip(0) =~= s.pending);
    }
}

/// The first secret that the environment of a command lacks is fetched first.
pub proof fn law_first_lacking_secret_is_fetched(
    config: ExtensionConfigView,
    known: Seq<Seq<char>>,
    i: int,
)
    ensures
        config matches ExtensionConfigView::Stdio { envs, env_keys, .. } ==> ({
            let a = add_start(config, known);
            0 <= i < env_keys.len() && lookup(envs, env_keys[i]) is None && (forall|j: int|
                0 <= j < i ==> lookup(envs, #[trigger] env_keys[j]) is Some) ==> a.1
                == AddActionView::FetchSecret(env_keys[i]) && a.0.envs == envs && a.0.pending
                == env_keys.skip(i)
        }),
{
    if let ExtensionConfigView::Stdio { cmd, args, envs, env_keys, .. } = config {
        if 0 <= i < env_keys.len() && lookup(envs, env_keys[i]) is None && (forall|j: int|
            0 <= j < i ==> lookup(envs, #[trigger] env_keys[j]) is Some) {
            lemma_first_secret(
                AddExtensionView { config, envs, pending: env_keys, phase: AddPhase::Closed },
                i,
            );
        }
    }
}

/// A secret that was found joins the environment under its own name, and what the
/// environment held stays; one that is no text adds nothing. A secret that could not be
/// fetched ends the attempt, by its name.
pub proof fn law_secret_joins_the_environment(
    s: AddExtensionView,
    t: Seq<char>,
    v: JsonView,
    e: Seq<char>,
    other: Seq<char>,
)
    requires
        s.phase == AddPhase::SecretWanted,
        s.pending.len() > 0,
        !(v is Text),
        other != s.pending[0],
    ensures
        ({
            let a = add_step(s, AddEventView::Secret(Ok(JsonView::Text(t)))).0;
            let b = add_step(s, AddEventView::Secret(Ok(v))).0;
            &&& lookup(a.envs, s.pending[0]) == Some(t)
            &&& lookup(a.envs, other) == lookup(s.envs, other)
            &&& b.envs == s.envs
            &&& a.config == s.config && b.config == s.config
            &&& a.pending.len() < s.pending.len() && b.pending.len() < s.pending.len()
            &&& refused(
                add_step(s, AddEventView::Secret(Err(e))).1,
                "Failed to fetch secret '"@ + s.pending[0] + "' from config: "@ + e,
            )
        }),
{
    assoc::lemma_lookup_put(s.envs, s.pending[0], t, s.pending[0]);
    assoc::lemma_lookup_put(s.envs, s.pending[0], t, other);
    let rest = AddExtensionView { pending: s.pending.drop_first(), ..s };
    lemma_next_keeps(rest);
    lemma_next_keeps(
        AddExtensionView { envs: assoc::put(s.envs, s.pending[0], t), ..rest },
    );
}

proof fn lemma_next_keeps(s: AddExtensionView)
    ensures
        ({
            let r = crate::add_extension::next_secret(s).0;
            r.envs == s.envs && r.config == s.config && r.pending.len() <= s.pending.len()
        }),
    decreases s.pending.len(),
{
    if s.pending.len() > 0 {
        lemma_next_keeps(AddExtensionView { pending: s.pending.drop_first(), ..s });
    }
}

/// A client that was reached is kept, with what its server tells, under the normalized
/// key of the extension's name; and any failure on the way ends the attempt as it came.
pub proof fn law_client_is_kept(
    s: AddExtensionView,
    client: u64,
    info: Option<ServerInfoView>,
    e: ExtensionErrorView,
)
    ensures
        s.phase == AddPhase::Connecting || s.phase == AddPhase::HttpConnecting ==> add_step(
            s,
            AddEventView::Connected { client, info },
        ) == (
            AddExtensionView { phase: AddPhase::Closed, ..s },
            AddActionView::Keep { name: normalized(key_of(s.config.name())), client, info },
        ),
        s.phase != AddPhase::Closed ==> add_step(s, AddEventView::Failed(e)) == (
            AddExtensionView { phase: AddPhase::Closed, ..s },
            AddActionView::Fail(e),
        ),
{
}

/// A character of a header's name.
pub open spec fn token_char(c: char) -> bool {
    ||| 'a' <= c <= 'z'
    ||| 'A' <= c <= 'Z'
    ||| '0' <= c <= '9'
    ||| seq![
        '!', '#', '$', '%', '&', '\'', '*', '+', '-', '.', '^', '_', '`', '|', '~',
    ].contains(c)
}

/// Headers are sent under their names in lower case with their own values; the last of
/// a name counts. The first one that cannot be sent is told by its name.
pub proof fn law_headers(
    before: Seq<(Seq<char>, Seq<char>)>,
    key: Seq<char>,
    value: Seq<char>,
    other: Seq<char>,
)
    ensures
        ({
            let list = before + seq![(key, value)];
            let r = http_headers(list);
            let named = 0 < key.len() <= 65535 && forall|i: int|
                0 <= i < key.len() ==> token_char(#[trigger] key[i]);
            let valued = forall|i: int|
                0 <= i < value.len() ==> (#[trigger] value[i]) == '\t' || (' ' <= value[i]
                    && value[i] != '\x7f');
            let lower = text::ascii_lowercase(key);
            &&& http_headers(Seq::empty()) == Ok::<_, ExtensionErrorView>(
                Seq::<(Seq<char>, Seq<char>)>::empty(),
            )
            &&& http_headers(before) is Err ==> r == http_headers(before)
            &&& http_headers(before) is Ok && !named ==> r == Err::<
                Seq<(Seq<char>, Seq<char>)>,
                _,
            >(ExtensionErrorView::ConfigError("invalid header: "@ + key))
            &&& http_headers(before) is Ok && named && !valued ==> r == Err::<
                Seq<(Seq<char>, Seq<char>)>,
                _,
            >(ExtensionErrorView::ConfigError("invalid header value: "@ + key))
            &&& http_headers(before) is Ok && named && valued ==> {
                &&& r is Ok
                &&& lookup(r->Ok_0, lower) == Some(value)
                &&& other != lower ==> lookup(r->Ok_0, other) == lookup(
                    http_headers(before)->Ok_0,
                    other,
                )
            }
        }),
{
    let list = before + seq![(key, value)];
    assert(list.drop_last() =~= before);
    assert(list.last() == (key, value));
    let marks = seq![
        '!', '#', '$', '%', '&', '\'', '*', '+', '-', '.', '^', '_', '`', '|', '~',
    ];
    assert forall|c: char| #[trigger] token_char(c) == crate::add_extension::header_char(c) by {
        assert(marks[0] == '!' && marks[1] == '#' && marks[2] == '$' && marks[3] == '%');
        assert(marks[4] == '&' && marks[5] == '\'' && marks[6] == '*' && marks[7] == '+');
        assert(marks[8] == '-' && marks[9] == '.' && marks[10] == '^' && marks[11] == '_');
        assert(marks[12] == '`' && marks[13] == '|' && marks[14] == '~');
    }
    let named = 0 < key.len() <= 65535 && forall|i: int|
        0 <= i < key.len() ==> token_char(#[trigger] key[i]);
    assert(named == (crate::add_extension::header_name(key) is Some)) by {
        if named {
            assert forall|i: int| 0 <= i < key.len() implies crate::add_extension::header_char(
                #[trigger] key[i],
            ) by {
                assert(token_char(key[i]));
            }
        } else if crate::add_extension::header_name(key) is Some {
            assert forall|i: int| 0 <= i < key.len() implies token_char(#[trigger] key[i]) by {
                assert(crate::add_extension::header_char(key[i]));
            }
        }
    }
    if http_headers(before) is Ok {
        let h = http_headers(before)->Ok_0;
        let lower = text::ascii_lowercase(key);
        assoc::lemma_lookup_put(h, lower, value, lower);
        assoc::lemma_lookup_put(h, lower, value, other);
    }
}

} // verus!
