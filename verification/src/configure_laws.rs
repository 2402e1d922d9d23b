//! What the dialogs make of what the user answers.
use crate::assoc::{self, lookup};
use crate::config_extensions::{
    config_named, enabled_configs, key_of, ExtensionEntryView, ExtensionsView,
};
use crate::configure::{
    failure_text, login_failed_text, manual_finish, ConfigFailureView, NoticeLabel, NoticeView,
    Platform, SetupActionView, SetupMethod, SetupOutcomeView,
};
use crate::configure_extensions::{
    dialog_start, dialog_step, kind_named, marked, removable, status_list, statuses, toggled,
    without_named, ConfigureExtensionsDialogView, DialogActionView, DialogAnswerView, DialogStep,
    ExtensionKind, ExtensionQuestion, RemoveOfferView,
};
use crate::configure_settings::{
    experiment_changes, info_named, level_label, level_named, max_turns_change, mode_change,
    output_change, permission_extensions, permission_start, permission_step, router_change,
    scheduler_change, setting_named, tool_items, PermissionActionView, PermissionEventView,
    PermissionPhase, SettingKind, ToolPermissionsDialogView,
};
use crate::dispatch::tool_infos;
use crate::extension::{ExtensionConfigView, PermissionLevel, ToolInfoView};
use crate::menu::{item_for, plain_items, ItemView, SettingChangeView, SettingValueView};
use crate::permission_judge::PermissionsView;
use crate::text;
use crate::text_list::in_text_order;
use crate::text_split::{in_order, law_sorted, parsed_number, pieces, words};
use crate::tool::ToolView;
use vstd::prelude::*;

verus! {

/// The dialog behind a question that took an answer.
pub open spec fn told(s: ConfigureExtensionsDialogView, t: Seq<char>) -> DialogStep {
    dialog_step(s, DialogAnswerView::Text(t))
}

pub open spec fn confirmed(s: ConfigureExtensionsDialogView, yes: bool) -> DialogStep {
    dialog_step(s, DialogAnswerView::Confirmed(yes))
}

/// A new enabled entry that is saved at the end of a dialog.
pub open spec fn saves(a: DialogActionView, config: ExtensionConfigView, added: bool) -> bool {
    a == (DialogActionView::Save {
        entry: ExtensionEntryView { enabled: true, config },
        added,
    })
}

/// The dialog for a kind of extension up to the question behind the description.
pub open spec fn answered_up_to_description(
    names: Seq<Seq<char>>,
    kind: Seq<char>,
    name: Seq<char>,
    target: Seq<char>,
    timeout: Seq<char>,
    description: Seq<char>,
) -> ConfigureExtensionsDialogView {
    let a = dialog_step(dialog_start(names), DialogAnswerView::Choice(kind)).0;
    let b = told(a, name).0;
    let c = told(b, target).0;
    let d = told(c, timeout).0;
    told(d, description).0
}

proof fn lemma_kinds()
    ensures
        kind_named("built-in"@) == Some(ExtensionKind::Builtin),
        kind_named("stdio"@) == Some(ExtensionKind::Stdio),
        kind_named("sse"@) == Some(ExtensionKind::Sse),
        kind_named("streamable_http"@) == Some(ExtensionKind::StreamableHttp),
{
    reveal_strlit("built-in");
    reveal_strlit("stdio");
    reveal_strlit("sse");
    reveal_strlit("streamable_http");
    assert("built-in"@.len() == 8);
    assert("stdio"@.len() == 5);
    assert("sse"@.len() == 3);
    assert("streamable_http"@.len() == 15);
}

/// A command that is added has the name, the description and the seconds that were
/// answered; the first word of the line is the program and the others are its
/// arguments.
pub proof fn law_answers_make_a_command(
    names: Seq<Seq<char>>,
    name: Seq<char>,
    line: Seq<char>,
    timeout: Seq<char>,
    seconds: u64,
    description: Seq<char>,
)
    requires
        name.len() > 0,
        !names.contains(name),
        line.len() > 0,
        words(line).len() > 0,
        parsed_number(timeout, u64::MAX as nat) == Some(seconds as nat),
    ensures
        ({
            let s = answered_up_to_description(
                names,
                "stdio"@,
                name,
                line,
                timeout,
                description,
            );
            saves(
                confirmed(s, false).1,
                ExtensionConfigView::Stdio {
                    name,
                    description,
                    cmd: words(line)[0],
                    args: words(line).skip(1),
                    envs: Seq::empty(),
                    env_keys: Seq::empty(),
                    timeout: Some(seconds),
                    bundled: None,
                    available_tools: Seq::empty(),
                },
                true,
            )
        }),
{
    lemma_kinds();
    assert(words(line).drop_first() =~= words(line).skip(1));
}

/// A remote extension that is added has the name, the address, the description and the
/// seconds that were answered.
pub proof fn law_answers_make_a_remote_extension(
    names: Seq<Seq<char>>,
    name: Seq<char>,
    uri: Seq<char>,
    timeout: Seq<char>,
    seconds: u64,
    description: Seq<char>,
)
    requires
        name.len() > 0,
        !names.contains(name),
        text::begins(uri, "http"@),
        parsed_number(timeout, u64::MAX as nat) == Some(seconds as nat),
    ensures
        ({
            let s = answered_up_to_description(names, "sse"@, name, uri, timeout, description);
            saves(
                confirmed(s, false).1,
                ExtensionConfigView::Sse {
                    name,
                    description,
                    uri,
                    envs: Seq::empty(),
                    env_keys: Seq::empty(),
                    timeout: Some(seconds),
                    bundled: None,
                    available_tools: Seq::empty(),
                },
                true,
            )
        }),
        ({
            let s = answered_up_to_description(
                names,
                "streamable_http"@,
                name,
                uri,
                timeout,
                description,
            );
            (text::begins(uri, "http://"@) || text::begins(uri, "https://"@)) && text::trimmed(
                description,
            ).len() > 0 ==> saves(
                confirmed(s, false).1,
                ExtensionConfigView::StreamableHttp {
                    name,
                    description,
                    uri,
                    envs: Seq::empty(),
                    env_keys: Seq::empty(),
                    headers: Seq::empty(),
                    timeout: Some(seconds),
                    bundled: None,
                    available_tools: Seq::empty(),
                },
                true,
            )
        }),
{
    lemma_kinds();
    reveal_strlit("http");
    assert("http"@.len() == 4);
    assert(uri.len() > 0);
}

/// A built-in extension is enabled under its own name, with its label, its hint as the
/// description, and the seconds that were answered.
pub proof fn law_answers_enable_a_builtin(
    names: Seq<Seq<char>>,
    name: Seq<char>,
    timeout: Seq<char>,
    seconds: u64,
)
    requires
        parsed_number(timeout, u64::MAX as nat) == Some(seconds as nat),
    ensures
        ({
            let a = dialog_step(dialog_start(names), DialogAnswerView::Choice("built-in"@)).0;
            let b = dialog_step(a, DialogAnswerView::Choice(name)).0;
            let known = item_for(crate::configure_extensions::builtin_items(), name);
            saves(
                told(b, timeout).1,
                ExtensionConfigView::Builtin {
                    name,
                    display_name: Some(
                        if known is Some {
                            known->0.label
                        } else {
                            name
                        },
                    ),
                    description: if known is Some {
                        known->0.hint
                    } else {
                        name
                    },
                    timeout: Some(seconds),
                    bundled: Some(true),
                    available_tools: Seq::empty(),
                },
                false,
            )
        }),
{
    lemma_kinds();
}

/// What cannot be taken is asked for again, with a word on what is wrong; nothing else
/// changes, and what can be taken leads on.
pub proof fn law_wrong_answers_are_asked_again(s: ConfigureExtensionsDialogView, t: Seq<char>)
    ensures
        ({
            let r = told(s, t);
            &&& s.question == ExtensionQuestion::Name && t.len() == 0 ==> r == (
                s,
                DialogActionView::Refuse("Please enter a name"@),
            )
            &&& s.question == ExtensionQuestion::Name && t.len() > 0 && s.names.contains(t) ==> r
                == (s, DialogActionView::Refuse("An extension with this name already exists"@))
            &&& s.question == ExtensionQuestion::Name && t.len() > 0 && !s.names.contains(t)
                ==> r.1 == DialogActionView::Ask(ExtensionQuestion::Target) && r.0.name == t
            &&& s.question == ExtensionQuestion::Target && t.len() == 0 && s.kind
                == ExtensionKind::Stdio ==> r == (
                s,
                DialogActionView::Refuse("Please enter a command"@),
            )
            &&& s.question == ExtensionQuestion::Target && t.len() == 0 && (s.kind
                == ExtensionKind::Sse || s.kind == ExtensionKind::StreamableHttp) ==> r == (
                s,
                DialogActionView::Refuse("Please enter a URI"@),
            )
            &&& s.question == ExtensionQuestion::Target && t.len() > 0 && (s.kind
                == ExtensionKind::Sse && !text::begins(t, "http"@) || s.kind
                == ExtensionKind::StreamableHttp && !text::begins(t, "http://"@)
                && !text::begins(t, "https://"@)) ==> r == (
                s,
                DialogActionView::Refuse("URI should start with http:// or https://"@),
            )
            &&& s.question == ExtensionQuestion::Timeout && parsed_number(
                t,
                u64::MAX as nat,
            ) is None ==> r == (s, DialogActionView::Refuse("Please enter a valid timeout"@))
            &&& s.question == ExtensionQuestion::Description && s.kind
                == ExtensionKind::StreamableHttp && text::trimmed(t).len() == 0 ==> r == (
                s,
                DialogActionView::Refuse("Please enter a valid description"@),
            )
        }),
{
}

/// A variable is kept as a secret under its name where it could be stored, and with the
/// extension, with its value, where it could not; never both. The user may then go on.
pub proof fn law_variables_are_kept(
    s: ConfigureExtensionsDialogView,
    key: Seq<char>,
    value: Seq<char>,
)
    requires
        s.question == ExtensionQuestion::AddEnvs || s.question == ExtensionQuestion::AnotherEnv,
    ensures
        ({
            let a = confirmed(s, true);
            let b = told(a.0, key);
            let c = told(b.0, value);
            let yes = dialog_step(c.0, DialogAnswerView::Stored(true));
            let no = dialog_step(c.0, DialogAnswerView::Stored(false));
            &&& a.1 == DialogActionView::Ask(ExtensionQuestion::EnvName)
            &&& b.1 == DialogActionView::Ask(ExtensionQuestion::EnvValue)
            &&& c.1 == (DialogActionView::StoreSecret { key, value })
            &&& yes.0.env_keys == s.env_keys + seq![key] && yes.0.envs == s.envs
            &&& no.0.env_keys == s.env_keys && no.0.envs == assoc::put(s.envs, key, value)
            &&& lookup(no.0.envs, key) == Some(value)
            &&& yes.1 == DialogActionView::Ask(ExtensionQuestion::AnotherEnv)
            &&& no.1 == yes.1
            &&& yes.0.name == s.name && yes.0.target == s.target && yes.0.description
                == s.description && yes.0.timeout == s.timeout && yes.0.headers == s.headers
                && yes.0.kind == s.kind
            &&& no.0.name == s.name && no.0.target == s.target && no.0.description == s.description
                && no.0.timeout == s.timeout && no.0.headers == s.headers && no.0.kind == s.kind
        }),
{
    assoc::lemma_lookup_put(s.envs, key, value, key);
    assert(s.env_keys.push(key) =~= s.env_keys + seq![key]);
}

/// A header is kept with its value under its name.
pub proof fn law_headers_are_kept(
    s: ConfigureExtensionsDialogView,
    key: Seq<char>,
    value: Seq<char>,
)
    requires
        s.question == ExtensionQuestion::AddHeaders || s.question
            == ExtensionQuestion::AnotherHeader,
    ensures
        ({
            let a = confirmed(s, true);
            let b = told(a.0, key);
            let c = told(b.0, value);
            &&& a.1 == DialogActionView::Ask(ExtensionQuestion::HeaderName)
            &&& b.1 == DialogActionView::Ask(ExtensionQuestion::HeaderValue)
            &&& c.1 == DialogActionView::Ask(ExtensionQuestion::AnotherHeader)
            &&& c.0.headers == assoc::put(s.headers, key, value)
            &&& lookup(c.0.headers, key) == Some(value)
            &&& c.0 == (ConfigureExtensionsDialogView {
                headers: c.0.headers,
                key,
                question: ExtensionQuestion::AnotherHeader,
                ..s
            })
        }),
{
    assoc::lemma_lookup_put(s.headers, key, value, key);
}

/// At the end the variables and headers that were collected are saved with the
/// extension.
pub proof fn law_collected_values_are_saved(s: ConfigureExtensionsDialogView)
    ensures
        s.question == ExtensionQuestion::AddEnvs || s.question == ExtensionQuestion::AnotherEnv
            || s.question == ExtensionQuestion::AddHeaders || s.question
            == ExtensionQuestion::AnotherHeader ==> ({
            let a = confirmed(s, false).1;
            &&& a matches DialogActionView::Save { entry, added } && entry.enabled && {
                &&& entry.config matches ExtensionConfigView::Stdio { envs, env_keys, .. }
                    ==> envs == s.envs && env_keys == s.env_keys
                &&& entry.config matches ExtensionConfigView::Sse { envs, env_keys, uri, .. }
                    ==> envs == s.envs && env_keys == s.env_keys && uri == s.target
                &&& entry.config matches ExtensionConfigView::StreamableHttp {
                    envs,
                    env_keys,
                    headers,
                    uri,
                    ..
                } ==> envs == s.envs && env_keys == s.env_keys && headers == s.headers && uri
                    == s.target
                &&& s.kind == ExtensionKind::Stdio ==> entry.config is Stdio
                &&& s.kind == ExtensionKind::Sse ==> entry.config is Sse
                &&& s.kind == ExtensionKind::StreamableHttp ==> entry.config is StreamableHttp
                &&& entry.config.name() == s.name
                &&& added == (s.kind != ExtensionKind::Builtin)
                &&& added ==> entry.config.description() == s.description
            }
        }),
{
}

/// The extensions are shown in the order of their names, each with whether it is
/// enabled.
pub proof fn law_statuses(entries: Seq<ExtensionEntryView>)
    ensures
        in_order(statuses(entries)),
        statuses(entries).to_multiset() == Seq::new(
            entries.len(),
            |i: int| (entries[i].config.name(), entries[i].enabled),
        ).to_multiset(),
{
    law_sorted(status_list(entries));
    assert(status_list(entries) =~= Seq::new(
        entries.len(),
        |i: int| (entries[i].config.name(), entries[i].enabled),
    ));
}

/// The marked names are those of the parts; one is marked just as it is said.
pub proof fn law_marked(
    x: Seq<(Seq<char>, bool)>,
    y: Seq<(Seq<char>, bool)>,
    name: Seq<char>,
    on: bool,
)
    ensures
        marked(x + y, on) == marked(x, on) + marked(y, on),
        marked(seq![(name, on)], on) == seq![name],
        marked(seq![(name, on)], !on).len() == 0,
    decreases y.len(),
{
    if y.len() == 0 {
        assert(x + y =~= x);
    } else {
        assert((x + y).drop_last() =~= x + y.drop_last());
        law_marked(x, y.drop_last(), name, on);
    }
    assert(marked(x + y, on) =~= marked(x, on) + marked(y, on));
    assert(seq![(name, on)].drop_last() =~= Seq::empty());
    assert(marked(Seq::empty(), on) =~= Seq::empty());
    assert(marked(Seq::empty(), !on) =~= Seq::empty());
    assert(marked(seq![(name, on)], on) =~= seq![name]);
}

/// Of the extensions that were offered, just the selected ones are enabled after the
/// user has chosen; where two names have one key, the last one counts.
pub proof fn law_selected_are_enabled(
    m: ExtensionsView,
    names: Seq<Seq<char>>,
    selected: Seq<Seq<char>>,
    i: int,
)
    requires
        0 <= i < names.len(),
        forall|j: int| i < j < names.len() ==> key_of(#[trigger] names[j]) != key_of(names[i]),
        lookup(m, key_of(names[i])) is Some,
    ensures
        lookup(toggled(m, names, selected), key_of(names[i])) == Some(
            ExtensionEntryView {
                enabled: selected.contains(names[i]),
                config: lookup(m, key_of(names[i]))->0.config,
            },
        ),
    decreases names.len(),
{
    let before = names.drop_last();
    let last = names.last();
    assert(last == names[names.len() - 1]);
    let b = toggled(m, before, selected);
    let on = selected.contains(last);
    let key = key_of(names[i]);
    crate::configure_extensions::law_toggle_keeps_configs(m, before, selected, key);
    if i < before.len() {
        assert(before[i] == names[i]);
        assert forall|j: int| i < j < before.len() implies key_of(#[trigger] before[j]) != key_of(
            before[i],
        ) by {
            assert(before[j] == names[j]);
        }
        law_selected_are_enabled(m, before, selected, i);
        if let Some(e) = lookup(b, key_of(last)) {
            assoc::lemma_lookup_put(
                b,
                key_of(last),
                ExtensionEntryView { enabled: on, ..e },
                key,
            );
        }
    } else {
        let e = lookup(b, key)->0;
        assoc::lemma_lookup_put(b, key, ExtensionEntryView { enabled: on, ..e }, key);
    }
}

/// What was selected to be removed is gone, and nothing else is.
pub proof fn law_selected_are_removed(m: ExtensionsView, names: Seq<Seq<char>>, key: Seq<char>)
    ensures
        (exists|i: int| 0 <= i < names.len() && key_of(#[trigger] names[i]) == key) ==> lookup(
            without_named(m, names),
            key,
        ) is None,
        (forall|i: int| 0 <= i < names.len() ==> key_of(#[trigger] names[i]) != key) ==> lookup(
            without_named(m, names),
            key,
        ) == lookup(m, key),
    decreases names.len(),
{
    if names.len() > 0 {
        let before = names.drop_last();
        law_selected_are_removed(m, before, key);
        assoc::lemma_lookup_without(without_named(m, before), key_of(names.last()), key);
        assert(names.last() == names[names.len() - 1]);
        if exists|i: int| 0 <= i < names.len() && key_of(#[trigger] names[i]) == key {
            let i = choose|i: int| 0 <= i < names.len() && key_of(#[trigger] names[i]) == key;
            if i < before.len() {
                assert(before[i] == names[i]);
                assert(key_of(before[i]) == key);
            }
        }
        if forall|i: int| 0 <= i < names.len() ==> key_of(#[trigger] names[i]) != key {
            assert forall|i: int| 0 <= i < before.len() implies key_of(#[trigger] before[i])
                != key by {
                assert(before[i] == names[i]);
            }
        }
    }
}

/// Only disabled extensions can be removed, all of them; without any, the reason is
/// told apart.
pub proof fn law_only_disabled_are_offered(entries: Seq<ExtensionEntryView>)
    ensures
        entries.len() == 0 <==> removable(entries) is NoExtensions,
        entries.len() > 0 && (forall|i: int|
            0 <= i < entries.len() ==> (#[trigger] entries[i]).enabled) ==> removable(entries)
            is AllEnabled,
        removable(entries) matches RemoveOfferView::Disabled(list) ==> list == marked(
            status_list(entries),
            false,
        ) && list.len() > 0,
{
    if forall|i: int| 0 <= i < entries.len() ==> (#[trigger] entries[i]).enabled {
        lemma_none_marked(entries);
    }
}

proof fn lemma_none_marked(entries: Seq<ExtensionEntryView>)
    requires
        forall|i: int| 0 <= i < entries.len() ==> (#[trigger] entries[i]).enabled,
    ensures
        marked(status_list(entries), false).len() == 0,
    decreases entries.len(),
{
    if entries.len() > 0 {
        let before = entries.drop_last();
        assert forall|i: int| 0 <= i < before.len() implies (#[trigger] before[i]).enabled by {
            assert(before[i] == entries[i]);
        }
        lemma_none_marked(before);
        assert(status_list(entries).drop_last() =~= status_list(before));
        assert(entries[entries.len() - 1].enabled);
    }
}

/// A choice that is kept as it is, under a key.
pub open spec fn keeps(c: Option<SettingChangeView>, key: Seq<char>, value: Seq<char>) -> bool {
    c matches Some(change) && change.key == key && change.value == SettingValueView::Text(value)
}

/// The mode, the router and the scheduler are set to the very choice, each under its own
/// key; nothing else can be chosen.
pub proof fn law_choices_are_kept(choice: Seq<char>)
    ensures
        choice == "auto"@ || choice == "approve"@ || choice == "smart_approve"@ || choice
            == "chat"@ ==> keeps(mode_change(choice), "GOOSE_MODE"@, choice),
        mode_change(choice) is Some ==> choice == "auto"@ || choice == "approve"@ || choice
            == "smart_approve"@ || choice == "chat"@,
        choice == "true"@ || choice == "false"@ ==> keeps(
            router_change(choice),
            "GOOSE_ENABLE_ROUTER"@,
            choice,
        ),
        router_change(choice) is Some ==> choice == "true"@ || choice == "false"@,
        choice == "legacy"@ || choice == "temporal"@ ==> keeps(
            scheduler_change(choice),
            "GOOSE_SCHEDULER_TYPE"@,
            choice,
        ),
        scheduler_change(choice) is Some ==> choice == "legacy"@ || choice == "temporal"@,
{
}

/// The more output is wanted, the lower is the priority from which it is shown: all of
/// it from zero on, medium from two tenths and high from eight tenths on.
pub proof fn law_output_priorities(choice: Seq<char>)
    ensures
        output_change(choice) matches Some(c) ==> c.key == "GOOSE_CLI_MIN_PRIORITY"@ && (choice
            == "all"@ ==> c.value == SettingValueView::Tenths(0)) && (choice == "medium"@
            ==> c.value == SettingValueView::Tenths(2)) && (choice == "high"@ ==> c.value
            == SettingValueView::Tenths(8)),
        output_change(choice) is Some <==> choice == "all"@ || choice == "medium"@ || choice
            == "high"@,
{
    reveal_strlit("all");
    reveal_strlit("medium");
    reveal_strlit("high");
    assert("all"@.len() == 3);
    assert("medium"@.len() == 6);
    assert("high"@.len() == 4);
}

/// The number of turns that was entered is the one that is set and told.
pub proof fn law_entered_turns_are_set(input: Seq<char>, n: u32)
    ensures
        parsed_number(input, u32::MAX as nat) == Some(n as nat) && n >= 1 ==> max_turns_change(
            input,
        ) == Ok::<_, Seq<char>>(
            SettingChangeView {
                key: "GOOSE_MAX_TURNS"@,
                value: SettingValueView::Number(n),
                outro: "Set maximum turns to "@ + text::decimal(n as nat)
                    + " - goose will ask for input after "@ + text::decimal(n as nat)
                    + " consecutive actions"@,
            },
        ),
        parsed_number(input, u32::MAX as nat) == Some(0nat) ==> max_turns_change(input) == Err::<
            SettingChangeView,
            _,
        >("Value must be at least 1"@),
        parsed_number(input, u32::MAX as nat) is None ==> max_turns_change(input) == Err::<
            SettingChangeView,
            _,
        >("Please enter a valid number"@),
{
}

/// Each experiment is set to whether it was selected, and keeps its place.
pub proof fn law_selected_experiments(
    experiments: Seq<(Seq<char>, bool)>,
    selected: Seq<Seq<char>>,
    i: int,
)
    requires
        0 <= i < experiments.len(),
    ensures
        experiment_changes(experiments, selected).len() == experiments.len(),
        experiment_changes(experiments, selected)[i].0 == experiments[i].0,
        experiment_changes(experiments, selected)[i].1 == selected.contains(experiments[i].0),
{
}

/// What the names of settings stand for.
pub proof fn law_settings_by_name(choice: Seq<char>)
    ensures
        setting_named(choice) == Some(SettingKind::GooseMode) <==> choice == "goose_mode"@,
        setting_named(choice) == Some(SettingKind::RouterStrategy) <==> choice
            == "goose_router_strategy"@,
        setting_named(choice) == Some(SettingKind::ToolPermission) <==> choice
            == "tool_permission"@,
        setting_named(choice) == Some(SettingKind::ToolOutput) <==> choice == "tool_output"@,
        setting_named(choice) == Some(SettingKind::MaxTurns) <==> choice == "max_turns"@,
        setting_named(choice) == Some(SettingKind::Experiment) <==> choice == "experiment"@,
        setting_named(choice) == Some(SettingKind::Recipe) <==> choice == "recipe"@,
        setting_named(choice) == Some(SettingKind::Scheduler) <==> choice == "scheduler"@,
{
    reveal_strlit("goose_mode");
    reveal_strlit("goose_router_strategy");
    reveal_strlit("tool_permission");
    reveal_strlit("tool_output");
    reveal_strlit("max_turns");
    reveal_strlit("experiment");
    reveal_strlit("recipe");
    reveal_strlit("scheduler");
    assert("goose_mode"@[0] == 'g' && "goose_mode"@.len() == 10);
    assert("goose_router_strategy"@.len() == 21);
    assert("tool_permission"@.len() == 15);
    assert("tool_output"@.len() == 11);
    assert("max_turns"@[0] == 'm' && "max_turns"@.len() == 9);
    assert("experiment"@[0] == 'e' && "experiment"@.len() == 10);
    assert("recipe"@.len() == 6);
    assert("scheduler"@[0] == 's' && "scheduler"@.len() == 9);
}

/// What the names of permissions stand for, and how they are shown.
pub proof fn law_levels_by_name(choice: Seq<char>)
    ensures
        level_named(choice) == Some(PermissionLevel::AlwaysAllow) <==> choice == "always_allow"@,
        level_named(choice) == Some(PermissionLevel::AskBefore) <==> choice == "ask_before"@,
        level_named(choice) == Some(PermissionLevel::NeverAllow) <==> choice == "never_allow"@,
        level_label(Some(PermissionLevel::AlwaysAllow)) == "Always Allow"@,
        level_label(Some(PermissionLevel::AskBefore)) == "Ask Before"@,
        level_label(Some(PermissionLevel::NeverAllow)) == "Never Allow"@,
        level_label(None) == "Not Set"@,
{
    reveal_strlit("always_allow");
    reveal_strlit("ask_before");
    reveal_strlit("never_allow");
    assert("always_allow"@.len() == 12);
    assert("ask_before"@.len() == 10);
    assert("never_allow"@.len() == 11);
}

/// A whole dialog over permissions: the extension that was chosen is looked up by its
/// name and added, its tools are listed, the tool that was chosen is the one whose
/// permission is asked for, with the one it has, and the level that was chosen is the one
/// that it is given.
pub proof fn law_permission_dialog(
    m: ExtensionsView,
    extension: Seq<char>,
    config: ExtensionConfigView,
    tools: Seq<ToolView>,
    permissions: PermissionsView,
    i: int,
    choice: Seq<char>,
    level: PermissionLevel,
)
    requires
        config_named(m, extension) == Some(config),
        0 <= i < tools.len(),
        forall|j: int| 0 <= j < i ==> (#[trigger] tools[j]).name != tools[i].name,
        level_named(choice) == Some(level),
    ensures
        ({
            let a = permission_start(m);
            let b = permission_step(a.0, PermissionEventView::Chosen(extension));
            let c = permission_step(b.0, PermissionEventView::Done(true));
            let d = permission_step(c.0, PermissionEventView::Done(true));
            let d2 = permission_step(c.0, PermissionEventView::Done(false));
            let e = permission_step(d.0, PermissionEventView::Tools { tools, permissions });
            let f = permission_step(e.0, PermissionEventView::Chosen(tools[i].name));
            let g = permission_step(f.0, PermissionEventView::Chosen(choice));
            &&& b.1 == seq![PermissionActionView::CreateAgent]
            &&& c.1 == seq![PermissionActionView::AddExtension(config)]
            &&& d.1 == seq![PermissionActionView::ListTools(extension)]
            &&& d2.1 == seq![
                PermissionActionView::Complain("Failed to check extension: "@ + extension),
                PermissionActionView::ListTools(extension),
            ]
            &&& e.1 == seq![PermissionActionView::ChooseTool(tool_items(e.0.tools))]
            &&& e.0.tools == tool_infos(tools, Some(permissions))
            &&& f.1 == seq![
                PermissionActionView::ChooseLevel(
                    "Set permission level for tool "@ + tools[i].name
                        + ", current permission level: "@ + level_label(
                        lookup(permissions.user, tools[i].name),
                    ),
                ),
            ]
            &&& g.1 == seq![
                PermissionActionView::Update { tool: tools[i].name, level },
                PermissionActionView::Outro(
                    "Updated permission level for tool "@ + tools[i].name + " to "@ + level_label(
                        Some(level),
                    ) + "."@,
                ),
                PermissionActionView::Finish,
            ]
        }),
{
    let a = permission_start(m);
    let b = permission_step(a.0, PermissionEventView::Chosen(extension));
    let c = permission_step(b.0, PermissionEventView::Done(true));
    let d = permission_step(c.0, PermissionEventView::Done(true));
    let d2 = permission_step(c.0, PermissionEventView::Done(false));
    assert(d.1 =~= seq![PermissionActionView::ListTools(extension)]);
    assert(d2.1 =~= seq![
        PermissionActionView::Complain("Failed to check extension: "@ + extension),
        PermissionActionView::ListTools(extension),
    ]);
    let infos = tool_infos(tools, Some(permissions));
    assert forall|j: int| 0 <= j < i implies (#[trigger] infos[j]).name != infos[i].name by {
        assert(tools[j].name != tools[i].name);
    }
    law_first_info(infos, infos[i].name, i);
}

/// An extension without a configuration is told, and ends the dialog.
pub proof fn law_unknown_extension_is_told(s: ToolPermissionsDialogView)
    requires
        s.phase == PermissionPhase::AgentCreating,
        config_named(s.extensions, s.extension) is None,
    ensures
        permission_step(s, PermissionEventView::Done(true)).1 == seq![
            PermissionActionView::Warn("Configuration not found for extension: "@ + s.extension),
            PermissionActionView::Finish,
        ],
{
}

/// The tool of a name is the first one that is called so.
pub proof fn law_first_info(tools: Seq<ToolInfoView>, name: Seq<char>, i: int)
    requires
        0 <= i <= tools.len(),
        forall|j: int| 0 <= j < i ==> (#[trigger] tools[j]).name != name,
        i < tools.len() ==> tools[i].name == name,
    ensures
        i < tools.len() ==> info_named(tools, name) == Some(tools[i]),
        i == tools.len() ==> info_named(tools, name) is None,
    decreases tools.len(),
{
    if i > 0 {
        assert(tools[0].name != name);
        let rest = tools.drop_first();
        assert forall|j: int| 0 <= j < i - 1 implies (#[trigger] rest[j]).name != name by {
            assert(rest[j] == tools[j + 1]);
        }
        law_first_info(rest, name, i - 1);
    }
}

/// Each tool is offered under its name, with the first sentence of its description.
pub proof fn law_tools_are_offered(tools: Seq<ToolInfoView>, i: int)
    requires
        0 <= i < tools.len(),
    ensures
        tool_items(tools).len() == tools.len(),
        tool_items(tools)[i] == (ItemView {
            value: tools[i].name,
            label: tools[i].name,
            hint: text::trimmed(pieces(tools[i].description, '.')[0]),
        }),
{
}

/// Permissions can be given to the tools of each enabled extension and of the platform,
/// which are offered in order under their names.
pub proof fn law_extensions_for_permissions(m: ExtensionsView, i: int)
    requires
        0 <= i < permission_extensions(m).len(),
    ensures
        permission_extensions(m) == in_text_order(
            Seq::new(enabled_configs(m).len(), |k: int| enabled_configs(m)[k].name()) + seq![
                "platform"@,
            ],
        ),
        permission_start(m).1.len() == 1,
        permission_start(m).1[0] matches PermissionActionView::ChooseExtension(items)
            && items.len() == permission_extensions(m).len() && items[i].value
            == permission_extensions(m)[i] && items[i].label == permission_extensions(m)[i],
{
    let list = enabled_configs(m);
    assert(crate::session_builder::names_of(list).push("platform"@) =~= Seq::new(
        list.len(),
        |k: int| list[k].name(),
    ) + seq!["platform"@]);
}

/// An item is found by the value that it stands for, the first one first.
pub proof fn law_first_item(items: Seq<ItemView>, value: Seq<char>, i: int)
    requires
        0 <= i <= items.len(),
        forall|j: int| 0 <= j < i ==> (#[trigger] items[j]).value != value,
        i < items.len() ==> items[i].value == value,
    ensures
        i < items.len() ==> item_for(items, value) == Some(items[i]),
        i == items.len() ==> item_for(items, value) is None,
    decreases items.len(),
{
    if i > 0 {
        assert(items[0].value != value);
        let rest = items.drop_first();
        assert forall|j: int| 0 <= j < i - 1 implies (#[trigger] rest[j]).value != value by {
            assert(rest[j] == items[j + 1]);
        }
        law_first_item(rest, value, i - 1);
    }
}

/// Plain items stand for the texts that they are called by, in order.
pub proof fn law_plain_items(list: Seq<Seq<char>>, hint: Seq<char>, i: int)
    requires
        0 <= i < list.len(),
    ensures
        plain_items(list, hint).len() == list.len(),
        plain_items(list, hint)[i] == (ItemView { value: list[i], label: list[i], hint }),
{
}

/// What is done after a first setup: a saved one gets the first extension, enabled; any
/// other one is cleared, and what was wrong is told, with the cause, on every platform.
pub proof fn law_first_setup(
    first: ExtensionConfigView,
    platform: Platform,
    f: ConfigFailureView,
)
    ensures
        manual_finish(SetupOutcomeView::Saved, platform, first).contains(
            SetupActionView::SetExtension(ExtensionEntryView { enabled: true, config: first }),
        ),
        manual_finish(SetupOutcomeView::NotSaved, platform, first)[0]
            == SetupActionView::ClearConfig,
        manual_finish(SetupOutcomeView::Failed(f), platform, first)[0]
            == SetupActionView::ClearConfig,
        manual_finish(SetupOutcomeView::Failed(f), platform, first)[1] == SetupActionView::Say(
            NoticeView {
                label: NoticeLabel::Error,
                before: failure_text(f, platform).0,
                after: Some(failure_text(f, platform).1),
            },
        ),
{
    assert(manual_finish(SetupOutcomeView::Saved, platform, first)[1]
        == SetupActionView::SetExtension(ExtensionEntryView { enabled: true, config: first }));
}

/// The cause of a failed setup stands in what is said of it, whatever failed and on
/// every platform.
pub proof fn law_cause_is_told(cause: Seq<char>, platform: Platform, method: SetupMethod)
    ensures
        text::occurs_in(failure_text(ConfigFailureView::NotFound(cause), platform).0, cause),
        text::occurs_in(failure_text(ConfigFailureView::Keyring(cause), platform).0, cause),
        text::occurs_in(failure_text(ConfigFailureView::Deserialize(cause), platform).0, cause),
        text::occurs_in(failure_text(ConfigFailureView::File(cause), platform).0, cause),
        text::occurs_in(failure_text(ConfigFailureView::Directory(cause), platform).0, cause),
        text::occurs_in(failure_text(ConfigFailureView::Other(cause), platform).0, cause),
        text::occurs_in(login_failed_text(method, cause), cause),
{
    lemma_middle(
        " Required configuration key '"@,
        cause,
        "' not found \n  Please provide this value and run '"@,
    );
    lemma_middle(
        " Failed to access secure storage (keyring): "@,
        cause,
        " \n  Please check your system keychain and run '"@,
    );
    lemma_middle(
        " Failed to access Windows Credential Manager: "@,
        cause,
        " \n  Please check Windows Credential Manager and run '"@,
    );
    lemma_middle(
        " Failed to access secure storage: "@,
        cause,
        " \n  Please check your system's secure storage and run '"@,
    );
    lemma_middle(
        " Invalid configuration value: "@,
        cause,
        " \n  Please check your input and run '"@,
    );
    lemma_middle(
        " Failed to access config file: "@,
        cause,
        " \n  Please check file permissions and run '"@,
    );
    lemma_middle(
        " Failed to access config directory: "@,
        cause,
        " \n  Please check directory permissions and run '"@,
    );
    lemma_middle(
        " "@,
        cause,
        " \n  We did not save your config, inspect your credentials\n   and run '"@,
    );
    lemma_middle(
        " "@ + crate::configure::login_name(method) + " authentication failed: "@,
        cause,
        " \n  Please try again or use manual configuration"@,
    );
}

proof fn lemma_middle(a: Seq<char>, b: Seq<char>, c: Seq<char>)
    ensures
        text::occurs_in(a + b + c, b),
{
    assert((a + b + c).subrange(a.len() as int, (a.len() + b.len()) as int) =~= b);
    assert(text::occurs_at(a + b + c, b, a.len() as int));
}

} // verus!
