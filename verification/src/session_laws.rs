//! What a session is built of: whose provider, which session, which extensions.
use crate::assoc::{self, lookup, unique_keys, without};
use crate::config_extensions::{enabled_configs, ExtensionEntryView, ExtensionsView};
use crate::execution_manager::{created, default_provider, session_capacity, used};
use crate::extension::ExtensionConfigView;
use crate::session_builder::{
    build_start, build_step, developer_in, edit_mode, missing_in, BuildActionView, BuildEventView,
    BuildPhase, BuildSessionView, BuildStep, EditMode, ExtraKind, MissingSetting,
    SessionBuilderConfigView,
};
use crate::text;
use crate::text_list::{in_text_order, once, without_text};
use vstd::prelude::*;

verus! {

/// The session starts with the provider and the model, makes the model first, with the
/// temperature that goes with it, and then the provider.
pub open spec fn starts_with(
    r: Result<BuildStep, MissingSetting>,
    provider: Seq<char>,
    model: Seq<char>,
    temperature_bits: Option<u32>,
) -> bool {
    &&& r is Ok
    &&& r->Ok_0.1 == seq![BuildActionView::CreateModel { model_name: model, temperature_bits }]
    &&& ({
        let made = build_step(r->Ok_0.0, BuildEventView::Done);
        let ready = build_step(made.0, BuildEventView::Done);
        &&& made.1 == seq![BuildActionView::CreateProvider { provider_name: provider }]
        &&& ready.1 == seq![BuildActionView::InitializeAgent]
        &&& ready.0.phase == BuildPhase::AgentInitializing
        &&& ready.0.config == r->Ok_0.0.config
    })
}

proof fn lemma_starts(
    c: SessionBuilderConfigView,
    configured_provider: Option<Seq<char>>,
    configured_model: Option<Seq<char>>,
    provider: Seq<char>,
    model: Seq<char>,
    temperature_bits: Option<u32>,
)
    requires
        ({
            let r = build_start(c, configured_provider, configured_model);
            &&& r is Ok
            &&& r->Ok_0.0.provider_name == provider
            &&& r->Ok_0.0.model_name == model
            &&& r->Ok_0.1[0] == (BuildActionView::CreateModel {
                model_name: model,
                temperature_bits,
            })
        }),
    ensures
        starts_with(
            build_start(c, configured_provider, configured_model),
            provider,
            model,
            temperature_bits,
        ),
{
    let r = build_start(c, configured_provider, configured_model)->Ok_0;
    let made = build_step(r.0, BuildEventView::Done);
    let ready = build_step(made.0, BuildEventView::Done);
    assert(made.1 =~= seq![BuildActionView::CreateProvider { provider_name: provider }]);
    assert(ready.1 =~= seq![BuildActionView::InitializeAgent]);
}

/// What the command line names is what the session starts with, whatever the settings
/// and the configuration say.
pub proof fn law_command_line_goes_first(
    c: SessionBuilderConfigView,
    configured_provider: Option<Seq<char>>,
    configured_model: Option<Seq<char>>,
    provider: Seq<char>,
    model: Seq<char>,
)
    requires
        c.provider == Some(provider),
        c.model == Some(model),
    ensures
        starts_with(
            build_start(c, configured_provider, configured_model),
            provider,
            model,
            if c.settings is Some {
                c.settings->0.temperature_bits
            } else {
                None
            },
        ),
{
    lemma_starts(
        c,
        configured_provider,
        configured_model,
        provider,
        model,
        if c.settings is Some {
            c.settings->0.temperature_bits
        } else {
            None
        },
    );
}

/// Each of the provider and the model comes from the command line where that names one,
/// else from the settings where they name one, and only else from the configuration.
pub proof fn law_where_provider_and_model_come_from(
    c: SessionBuilderConfigView,
    configured_provider: Option<Seq<char>>,
    configured_model: Option<Seq<char>>,
)
    ensures
        ({
            let r = build_start(c, configured_provider, configured_model);
            let no_setting_p = c.settings is None || c.settings->0.goose_provider is None;
            let no_setting_m = c.settings is None || c.settings->0.goose_model is None;
            &&& r is Ok && c.provider is Some ==> r->Ok_0.0.provider_name == c.provider->0
            &&& r is Ok && c.provider is None && !no_setting_p ==> r->Ok_0.0.provider_name
                == c.settings->0.goose_provider->0
            &&& r is Ok && c.provider is None && no_setting_p ==> configured_provider == Some(
                r->Ok_0.0.provider_name,
            )
            &&& r is Ok && c.model is Some ==> r->Ok_0.0.model_name == c.model->0
            &&& r is Ok && c.model is None && !no_setting_m ==> r->Ok_0.0.model_name
                == c.settings->0.goose_model->0
            &&& r is Ok && c.model is None && no_setting_m ==> configured_model == Some(
                r->Ok_0.0.model_name,
            )
            &&& r is Ok ==> starts_with(
                r,
                r->Ok_0.0.provider_name,
                r->Ok_0.0.model_name,
                if c.settings is Some {
                    c.settings->0.temperature_bits
                } else {
                    None
                },
            )
            &&& r == Err::<BuildStep, _>(MissingSetting::Provider) <==> c.provider is None
                && no_setting_p && configured_provider is None
            &&& r == Err::<BuildStep, _>(MissingSetting::Model) <==> !(c.provider is None
                && no_setting_p && configured_provider is None) && c.model is None && no_setting_m
                && configured_model is None
        }),
{
    let r = build_start(c, configured_provider, configured_model);
    if r is Ok {
        lemma_starts(
            c,
            configured_provider,
            configured_model,
            r->Ok_0.0.provider_name,
            r->Ok_0.0.model_name,
            if c.settings is Some {
                c.settings->0.temperature_bits
            } else {
                None
            },
        );
    }
}

/// What is asked for on the way in is all kept: first the commands, then the remote
/// extensions, the streaming ones and the built-in ones, each kind in its order.
pub proof fn law_extras_of_the_command_line(
    c: SessionBuilderConfigView,
    configured_provider: Option<Seq<char>>,
    configured_model: Option<Seq<char>>,
)
    requires
        build_start(c, configured_provider, configured_model) is Ok,
    ensures
        ({
            let s = build_start(c, configured_provider, configured_model)->Ok_0.0;
            let a = c.extensions.len() as int;
            let b = a + c.remote_extensions.len();
            let d = b + c.streamable_http_extensions.len();
            let e = d + c.builtins.len();
            &&& s.config == c
            &&& s.session_id is None
            &&& s.failed.len() == 0
            &&& s.extras.len() == e
            &&& forall|i: int|
                0 <= i < a ==> #[trigger] s.extras[i] == (ExtraKind::Stdio, c.extensions[i])
            &&& forall|i: int|
                a <= i < b ==> #[trigger] s.extras[i] == (
                    ExtraKind::Remote,
                    c.remote_extensions[i - a],
                )
            &&& forall|i: int|
                b <= i < d ==> #[trigger] s.extras[i] == (
                    ExtraKind::StreamableHttp,
                    c.streamable_http_extensions[i - b],
                )
            &&& forall|i: int|
                d <= i < e ==> #[trigger] s.extras[i] == (ExtraKind::Builtin, c.builtins[i - d])
        }),
{
}

/// The actions with which extensions start: how many there are and their names are
/// told, and then they are all started.
pub open spec fn starting(list: Seq<ExtensionConfigView>) -> Seq<BuildActionView> {
    let names = once(Seq::new(list.len(), |i: int| list[i].name()));
    seq![
        BuildActionView::ShowProgress(
            "starting "@ + text::decimal(names.len()) + " extensions: "@ + text::joined(
                in_text_order(names),
                ", "@,
            ),
        ),
        BuildActionView::StartExtensions(list),
    ]
}

/// The actions by which extensions are found: the only ones that were asked for are
/// started without the router; else those of a session that goes on are read, or the
/// enabled ones.
pub open spec fn finding(c: SessionBuilderConfigView, id: Option<Seq<char>>) -> Seq<
    BuildActionView,
> {
    if c.extensions_override is Some {
        seq![BuildActionView::DisableRouter] + starting(c.extensions_override->0)
    } else if c.resume && id is Some {
        seq![BuildActionView::ReadSaved(id->0)]
    } else {
        seq![BuildActionView::ReadExtensions]
    }
}

proof fn lemma_starting(list: Seq<ExtensionConfigView>)
    ensures
        crate::session_builder::names_of(list) == Seq::new(list.len(), |i: int| list[i].name()),
{
    assert(crate::session_builder::names_of(list) =~= Seq::new(
        list.len(),
        |i: int| list[i].name(),
    ));
}

/// Which session it is: none where nothing is to be stored; to resume, the one that
/// was named, if there is one, or the latest; else the one that was named, or a new
/// one. A limit on repeated calls is set before.
pub proof fn law_which_session(s: BuildSessionView)
    requires
        s.phase == BuildPhase::AgentInitializing,
    ensures
        ({
            let c = s.config;
            let r = build_step(s, BuildEventView::Done);
            let limit = if c.max_tool_repetitions is Some {
                seq![BuildActionView::LimitRepetitions(c.max_tool_repetitions->0)]
            } else {
                Seq::empty()
            };
            &&& c.no_session ==> r.1 == limit + seq![BuildActionView::SetContext(None)] + finding(
                c,
                None,
            ) && r.0.session_id is None
            &&& !c.no_session && c.resume && c.session_id is Some ==> r.1 == limit + seq![
                BuildActionView::FindSession(c.session_id->0),
            ]
            &&& !c.no_session && c.resume && c.session_id is None ==> r.1 == limit + seq![
                BuildActionView::ListSessions,
            ]
            &&& !c.no_session && !c.resume && c.session_id is Some ==> r.1 == limit + seq![
                BuildActionView::SetContext(c.session_id),
            ] + finding(c, c.session_id) && r.0.session_id == c.session_id
            &&& !c.no_session && !c.resume && c.session_id is None ==> r.1 == limit + seq![
                BuildActionView::CreateSession,
            ]
        }),
{
    let c = s.config;
    let r = build_step(s, BuildEventView::Done);
    let limit = if c.max_tool_repetitions is Some {
        seq![BuildActionView::LimitRepetitions(c.max_tool_repetitions->0)]
    } else {
        Seq::empty()
    };
    if c.extensions_override is Some {
        lemma_starting(c.extensions_override->0);
    }
    if c.no_session {
        assert(r.1 =~= limit + seq![BuildActionView::SetContext(None)] + finding(c, None));
    } else if c.resume {
        if c.session_id is Some {
            assert(r.1 =~= limit + seq![BuildActionView::FindSession(c.session_id->0)]);
        } else {
            assert(r.1 =~= limit + seq![BuildActionView::ListSessions]);
        }
    } else {
        if c.session_id is Some {
            assert(r.1 =~= limit + seq![BuildActionView::SetContext(c.session_id)] + finding(
                c,
                c.session_id,
            ));
        } else {
            assert(r.1 =~= limit + seq![BuildActionView::CreateSession]);
        }
    }
}

/// A step that leaves with a message and a code.
pub open spec fn leaves(r: BuildStep, message: Seq<char>, code: i32) -> bool {
    r.1 == seq![BuildActionView::Exit { message, code }] && r.0.phase == BuildPhase::Finished
}

/// A session that goes on is the very one that was found, or the first of the list;
/// its directory is read next. Where there is none, the way out is to say so. A new
/// session is the one that was created.
pub proof fn law_session_that_goes_on(
    s: BuildSessionView,
    id: Seq<char>,
    list: Option<Seq<Seq<char>>>,
)
    requires
        s.config.resume,
    ensures
        s.phase == BuildPhase::SessionFinding && s.config.session_id == Some(id) ==> ({
            let yes = build_step(s, BuildEventView::Found(true));
            &&& yes.1 == seq![
                BuildActionView::SetContext(Some(id)),
                BuildActionView::ReadMetadata(id),
            ]
            &&& yes.0.session_id == Some(id)
            &&& leaves(
                build_step(s, BuildEventView::Found(false)),
                "Cannot resume session "@ + id + " - no such session exists"@,
                1,
            )
        }),
        s.phase == BuildPhase::SessionListing ==> ({
            let r = build_step(s, BuildEventView::Sessions(list));
            if list is Some && list->0.len() > 0 {
                &&& r.1 == seq![
                    BuildActionView::SetContext(Some(list->0[0])),
                    BuildActionView::ReadMetadata(list->0[0]),
                ]
                &&& r.0.session_id == Some(list->0[0])
            } else {
                leaves(r, "Cannot resume - no previous sessions found"@, 1)
            }
        }),
{
    let yes = build_step(s, BuildEventView::Found(true));
    let no = build_step(s, BuildEventView::Found(false));
    let r = build_step(s, BuildEventView::Sessions(list));
    if s.phase == BuildPhase::SessionFinding && s.config.session_id == Some(id) {
        assert(yes.1 =~= seq![
            BuildActionView::SetContext(Some(id)),
            BuildActionView::ReadMetadata(id),
        ]);
        assert(no.1 =~= seq![no.1[0]]);
    }
    if s.phase == BuildPhase::SessionListing {
        if list is Some && list->0.len() > 0 {
            assert(r.1 =~= seq![
                BuildActionView::SetContext(Some(list->0[0])),
                BuildActionView::ReadMetadata(list->0[0]),
            ]);
        } else {
            assert(r.1 =~= seq![r.1[0]]);
        }
    }
}

/// A new session is the one that was created.
pub proof fn law_new_session(s: BuildSessionView, id: Seq<char>)
    requires
        s.phase == BuildPhase::SessionCreating,
        !s.config.resume,
    ensures
        ({
            let r = build_step(s, BuildEventView::Created(id));
            &&& r.1 == seq![BuildActionView::SetContext(Some(id))] + finding(s.config, Some(id))
            &&& r.0.session_id == Some(id)
        }),
{
    let r = build_step(s, BuildEventView::Created(id));
    if s.config.extensions_override is Some {
        lemma_starting(s.config.extensions_override->0);
    }
    assert(r.1 =~= seq![BuildActionView::SetContext(Some(id))] + finding(s.config, Some(id)));
}

/// A session that goes on in another directory asks before it switches to the one in
/// which it was; where that cannot be done this is told, and the session goes on.
pub proof fn law_directory_of_the_session(
    s: BuildSessionView,
    current: Seq<char>,
    original: Seq<char>,
    e: Seq<char>,
)
    requires
        s.phase == BuildPhase::MetadataReading,
    ensures
        ({
            let found = finding(s.config, s.session_id);
            let a = build_step(s, BuildEventView::Metadata { current, original });
            let b = build_step(a.0, BuildEventView::Confirmed(true));
            &&& current == original ==> a.1 == found
            &&& current != original ==> {
                &&& a.1 == seq![BuildActionView::ConfirmDirectory { current, original }]
                &&& build_step(a.0, BuildEventView::Confirmed(false)).1 == found
                &&& b.1 == seq![BuildActionView::SwitchDirectory(original)]
                &&& build_step(b.0, BuildEventView::Done).1 == found
                &&& build_step(b.0, BuildEventView::DirectoryMissing).1 == seq![
                    BuildActionView::ReportError(
                        "Cannot switch to original working directory - "@ + original
                            + " no longer exists"@,
                    ),
                ] + found
                &&& build_step(b.0, BuildEventView::Failed(e)).1 == seq![
                    BuildActionView::ReportError(
                        "Failed to switch to original working directory: "@ + e,
                    ),
                ] + found
            }
            &&& leaves(
                build_step(s, BuildEventView::Failed(e)),
                "Failed to read session metadata: "@ + e,
                1,
            )
        }),
{
    let found = finding(s.config, s.session_id);
    if s.config.extensions_override is Some {
        lemma_starting(s.config.extensions_override->0);
    }
    let a = build_step(s, BuildEventView::Metadata { current, original });
    let f = build_step(s, BuildEventView::Failed(e));
    assert(f.1 =~= seq![f.1[0]]);
    if current == original {
        assert(a.1 =~= found);
    } else {
        assert(a.1 =~= seq![BuildActionView::ConfirmDirectory { current, original }]);
        assert(build_step(a.0, BuildEventView::Confirmed(false)).1 =~= found);
        let b = build_step(a.0, BuildEventView::Confirmed(true));
        assert(b.1 =~= seq![BuildActionView::SwitchDirectory(original)]);
        assert(build_step(b.0, BuildEventView::Done).1 =~= found);
        let m = build_step(b.0, BuildEventView::DirectoryMissing);
        assert(m.1 =~= seq![m.1[0]] + found);
        let n = build_step(b.0, BuildEventView::Failed(e));
        assert(n.1 =~= seq![n.1[0]] + found);
    }
}

/// The extensions of a session that goes on are started as they were. Where some are no
/// longer configured the user is asked: if they agree the lacking ones are configured,
/// enabled, and all are started, else the session is left. Without extensions of a
/// session before, the enabled ones are started.
pub proof fn law_extensions_that_go_on(
    s: BuildSessionView,
    list: Seq<ExtensionConfigView>,
    configured: ExtensionsView,
)
    requires
        s.phase == BuildPhase::SavedReading,
    ensures
        ({
            let a = build_step(s, BuildEventView::Saved { saved: Some(list), configured });
            let none = build_step(s, BuildEventView::Saved { saved: None, configured });
            let lacking = missing_in(list, configured);
            let yes = build_step(a.0, BuildEventView::Confirmed(true));
            let no = build_step(a.0, BuildEventView::Confirmed(false));
            &&& none.1 == starting(enabled_configs(configured))
            &&& lacking.len() == 0 ==> a.1 == starting(list)
            &&& lacking.len() > 0 ==> {
                &&& a.1 == seq![
                    BuildActionView::ConfirmReadd(
                        text::joined(
                            Seq::new(lacking.len(), |i: int| lacking[i].name()),
                            ", "@,
                        ),
                    ),
                ]
                &&& yes.1 == seq![
                    BuildActionView::SetExtensions(
                        Seq::new(
                            lacking.len(),
                            |i: int| ExtensionEntryView { enabled: true, config: lacking[i] },
                        ),
                    ),
                ] + starting(list)
                &&& leaves(no, "Resume cancelled."@, 0)
            }
        }),
{
    let a = build_step(s, BuildEventView::Saved { saved: Some(list), configured });
    let none = build_step(s, BuildEventView::Saved { saved: None, configured });
    let lacking = missing_in(list, configured);
    let yes = build_step(a.0, BuildEventView::Confirmed(true));
    let no = build_step(a.0, BuildEventView::Confirmed(false));
    lemma_starting(list);
    lemma_starting(lacking);
    lemma_starting(enabled_configs(configured));
    assert(none.1 =~= starting(enabled_configs(configured)));
    if lacking.len() == 0 {
        assert(a.1 =~= starting(list));
    } else {
        assert(a.1 =~= seq![a.1[0]]);
        assert(crate::session_builder::enabled_entries(lacking) =~= Seq::new(
            lacking.len(),
            |i: int| ExtensionEntryView { enabled: true, config: lacking[i] },
        ));
        assert(yes.1 =~= seq![yes.1[0]] + starting(list));
        assert(no.1 =~= seq![no.1[0]]);
    }
}

/// The extensions that are lacking are those of the parts; one is lacking just where no
/// entry has its name.
pub proof fn law_lacking_parts(
    x: Seq<ExtensionConfigView>,
    y: Seq<ExtensionConfigView>,
    c: ExtensionConfigView,
    configured: ExtensionsView,
)
    ensures
        missing_in(x + y, configured) == missing_in(x, configured) + missing_in(y, configured),
        (exists|i: int|
            0 <= i < configured.len() && (#[trigger] configured[i]).1.config.name() == c.name())
            ==> missing_in(seq![c], configured).len() == 0,
        (forall|i: int|
            0 <= i < configured.len() ==> (#[trigger] configured[i]).1.config.name() != c.name())
            ==> missing_in(seq![c], configured) == seq![c],
    decreases y.len(),
{
    if y.len() == 0 {
        assert(x + y =~= x);
    } else {
        assert((x + y).drop_last() =~= x + y.drop_last());
        law_lacking_parts(x, y.drop_last(), c, configured);
    }
    assert(missing_in(x + y, configured) =~= missing_in(x, configured) + missing_in(
        y,
        configured,
    ));
    assert(seq![c].drop_last() =~= Seq::empty());
    assert(missing_in(Seq::empty(), configured) =~= Seq::empty());
    assert(Seq::empty().push(c) =~= seq![c]);
    lemma_named(configured, c.name());
}

proof fn lemma_named(m: ExtensionsView, name: Seq<char>)
    ensures
        crate::config_extensions::config_named(m, name) is Some <==> exists|i: int|
            0 <= i < m.len() && (#[trigger] m[i]).1.config.name() == name,
    decreases m.len(),
{
    if m.len() > 0 {
        let rest = m.drop_first();
        lemma_named(rest, name);
        if exists|i: int| 0 <= i < rest.len() && (#[trigger] rest[i]).1.config.name() == name {
            let i = choose|i: int|
                0 <= i < rest.len() && (#[trigger] rest[i]).1.config.name() == name;
            assert(m[i + 1].1.config.name() == name);
        }
        if exists|i: int| 0 <= i < m.len() && (#[trigger] m[i]).1.config.name() == name {
            let i = choose|i: int| 0 <= i < m.len() && (#[trigger] m[i]).1.config.name() == name;
            if i > 0 {
                assert(rest[i - 1].1.config.name() == name);
            } else {
                assert(m[0].1.config.name() == name);
            }
        }
    }
}

/// Where nothing else was asked for, the enabled extensions are started.
pub proof fn law_enabled_extensions_start(s: BuildSessionView, m: ExtensionsView)
    requires
        s.phase == BuildPhase::ExtensionsReading,
    ensures
        build_step(s, BuildEventView::Extensions(m)).1 == starting(enabled_configs(m)),
        build_step(s, BuildEventView::Extensions(m)).0.phase == BuildPhase::ExtensionsStarting,
{
    lemma_starting(enabled_configs(m));
    assert(build_step(s, BuildEventView::Extensions(m)).1 =~= starting(enabled_configs(m)));
}

/// The names that are waited for: each once; one that has started is waited for no
/// more, and the others stay in their order.
pub proof fn law_waiting_names(x: Seq<Seq<char>>, y: Seq<Seq<char>>, name: Seq<char>, s: Seq<char>)
    ensures
        without_text(x + y, name) == without_text(x, name) + without_text(y, name),
        s == name ==> without_text(seq![s], name).len() == 0,
        s != name ==> without_text(seq![s], name) == seq![s],
    decreases y.len(),
{
    if y.len() == 0 {
        assert(x + y =~= x);
    } else {
        assert((x + y).drop_last() =~= x + y.drop_last());
        law_waiting_names(x, y.drop_last(), name, s);
    }
    assert(without_text(x + y, name) =~= without_text(x, name) + without_text(y, name));
    assert(seq![s].drop_last() =~= Seq::empty());
    assert(without_text(Seq::empty(), name) =~= Seq::empty());
    assert(Seq::empty().push(s) =~= seq![s]);
}

/// An extension that has started is waited for no more, which is told; one that failed
/// is kept with its error, after those that failed before.
pub proof fn law_extension_has_started(
    s: BuildSessionView,
    name: Seq<char>,
    error: Seq<char>,
)
    requires
        s.phase == BuildPhase::ExtensionsStarting,
    ensures
        ({
            let ok = build_step(s, BuildEventView::Started { name, error: None });
            let failed = build_step(s, BuildEventView::Started { name, error: Some(error) });
            &&& ok.0 == (BuildSessionView { waiting: without_text(s.waiting, name), ..s })
            &&& ok.1 == seq![
                BuildActionView::ShowProgress(
                    "starting "@ + text::decimal(without_text(s.waiting, name).len())
                        + " extensions: "@ + text::joined(
                        in_text_order(without_text(s.waiting, name)),
                        ", "@,
                    ),
                ),
            ]
            &&& failed.0 == (BuildSessionView { failed: s.failed + seq![(name, error)], ..s })
            &&& failed.1.len() == 0
        }),
{
    let ok = build_step(s, BuildEventView::Started { name, error: None });
    assert(ok.1 =~= seq![ok.1[0]]);
    assert(s.failed.push((name, error)) =~= s.failed + seq![(name, error)]);
}

/// What follows once no failed extension is left to be debugged: the extensions that
/// were asked for, one by one, then the state of the session is saved where there is
/// one, and then all is done.
pub open spec fn carrying_on(s: BuildSessionView) -> BuildActionView {
    if s.extras.len() > 0 {
        BuildActionView::AddExtra { kind: s.extras[0].0, extension: s.extras[0].1 }
    } else if s.session_id is Some {
        BuildActionView::SaveState(s.session_id->0)
    } else {
        BuildActionView::Finish {
            session_id: None,
            additional_prompt: s.config.additional_system_prompt,
            show_info: !s.config.quiet,
        }
    }
}

/// Where a user is there, help is offered for each failed extension with its error, one
/// after the other, before the session goes on; without a user it goes on at once.
pub proof fn law_failed_extensions_are_debugged(s: BuildSessionView)
    requires
        s.phase == BuildPhase::ExtensionsStarting,
    ensures
        ({
            let a = build_step(s, BuildEventView::AllStarted);
            let b = build_step(a.0, BuildEventView::Done);
            &&& !s.config.interactive || s.failed.len() == 0 ==> a.1 == seq![carrying_on(s)]
            &&& s.config.interactive && s.failed.len() > 0 ==> {
                &&& a.1 == seq![
                    BuildActionView::OfferDebug { name: s.failed[0].0, error: s.failed[0].1 },
                ]
                &&& s.failed.len() == 1 ==> b.1 == seq![carrying_on(s)]
                &&& s.failed.len() > 1 ==> b.1 == seq![
                    BuildActionView::OfferDebug { name: s.failed[1].0, error: s.failed[1].1 },
                ] && b.0.phase == a.0.phase && b.0.failed == s.failed.skip(1)
            }
        }),
{
    let a = build_step(s, BuildEventView::AllStarted);
    let b = build_step(a.0, BuildEventView::Done);
    assert(a.1 =~= seq![a.1[0]]);
    if s.config.interactive && s.failed.len() > 0 {
        assert(b.1 =~= seq![b.1[0]]);
        if s.failed.len() > 1 {
            assert(b.0.failed =~= s.failed.skip(1));
        }
    }
}

/// One extension that was asked for follows the other, whether or not it started. A
/// failure is warned of with the kind, the name and the cause, and where a user is
/// there help is offered first.
pub proof fn law_extras_follow_one_another(s: BuildSessionView, e: Seq<char>)
    requires
        s.phase == BuildPhase::ExtraAdding,
        s.extras.len() > 0,
    ensures
        ({
            let kind = s.extras[0].0;
            let name = s.extras[0].1;
            let called = if kind is Stdio {
                "stdio"@
            } else if kind is Remote {
                "remote"@
            } else if kind is StreamableHttp {
                "streamable HTTP"@
            } else {
                "builtin"@
            };
            let warning = BuildActionView::Warn(
                "Warning: Failed to start "@ + called + " extension '"@ + name + "' ("@ + e
                    + "), continuing without it"@,
            );
            let next = BuildSessionView { extras: s.extras.skip(1), ..s };
            let done = build_step(s, BuildEventView::Done);
            let failed = build_step(s, BuildEventView::Failed(e));
            &&& done.1 == seq![carrying_on(next)]
            &&& done.0.extras == s.extras.skip(1)
            &&& !s.config.interactive ==> failed.1 == seq![warning, carrying_on(next)]
                && failed.0.extras == s.extras.skip(1)
            &&& s.config.interactive ==> {
                &&& failed.1 == seq![warning, BuildActionView::OfferDebug { name, error: e }]
                &&& build_step(failed.0, BuildEventView::Done).1 == seq![carrying_on(next)]
            }
        }),
{
    let done = build_step(s, BuildEventView::Done);
    let failed = build_step(s, BuildEventView::Failed(e));
    assert(s.extras.drop_first() =~= s.extras.skip(1));
    assert(done.1 =~= seq![done.1[0]]);
    assert(failed.1 =~= seq![failed.1[0], failed.1[1]]);
    if s.config.interactive {
        let b = build_step(failed.0, BuildEventView::Done);
        assert(b.1 =~= seq![b.1[0]]);
    }
}

/// Once the state is saved, or could not be, all is done: the session, what is added to
/// the prompt, and whether the session is shown are those that were asked for.
pub proof fn law_session_is_done(s: BuildSessionView, e: Seq<char>)
    requires
        s.phase == BuildPhase::StateSaving,
    ensures
        ({
            let a = build_step(s, BuildEventView::Done);
            &&& a.1 == seq![
                BuildActionView::Finish {
                    session_id: s.session_id,
                    additional_prompt: s.config.additional_system_prompt,
                    show_info: !s.config.quiet,
                },
            ]
            &&& a.0.phase == BuildPhase::Finished
            &&& build_step(s, BuildEventView::Failed(e)) == a
        }),
{
    let a = build_step(s, BuildEventView::Done);
    assert(a.1 =~= seq![a.1[0]]);
}

/// A model, a provider or an agent that cannot be made ends the session with a word on
/// the cause.
pub proof fn law_failures_are_told(s: BuildSessionView, e: Seq<char>)
    ensures
        ({
            let r = build_step(s, BuildEventView::Failed(e));
            &&& s.phase == BuildPhase::ModelCreating ==> leaves(
                r,
                "Failed to create model configuration: "@ + e,
                1,
            )
            &&& s.phase == BuildPhase::ProviderCreating ==> leaves(
                r,
                "Error "@ + e
                    + ".\nPlease check your system keychain and run 'goose configure' again.\nIf your system is unable to use the keyring, please try setting secret key(s) via environment variables.\nFor more info, see: https://block.github.io/goose/docs/troubleshooting/#keychainkeyring-errors"@,
                1,
            )
            &&& s.phase == BuildPhase::AgentInitializing ==> leaves(
                r,
                "Failed to initialize agent: "@ + e,
                1,
            )
        }),
{
    let r = build_step(s, BuildEventView::Failed(e));
    if r.1.len() == 1 {
        assert(r.1 =~= seq![r.1[0]]);
    }
}

/// The extension that helps to debug is the first enabled entry named `developer`.
pub proof fn law_developer_helps(entries: Seq<ExtensionEntryView>, i: int)
    requires
        0 <= i <= entries.len(),
        forall|j: int|
            0 <= j < i ==> !((#[trigger] entries[j]).enabled && entries[j].config.name()
                == "developer"@),
        i < entries.len() ==> entries[i].enabled && entries[i].config.name() == "developer"@,
    ensures
        i < entries.len() ==> developer_in(entries) == Some(entries[i].config),
        i == entries.len() ==> developer_in(entries) is None,
    decreases entries.len(),
{
    if i > 0 {
        let rest = entries.drop_first();
        assert(!(entries[0].enabled && entries[0].config.name() == "developer"@));
        assert forall|j: int| 0 <= j < i - 1 implies !((#[trigger] rest[j]).enabled
            && rest[j].config.name() == "developer"@) by {
            assert(rest[j] == entries[j + 1]);
        }
        law_developer_helps(rest, i - 1);
    }
}

/// A way to edit lines is named by its name, in whatever case, and by nothing else.
pub proof fn law_edit_modes(s: Seq<char>)
    ensures
        edit_mode(None) is None,
        edit_mode(Some(s)) == Some(EditMode::Emacs) <==> text::lower(s) == seq![
            'e',
            'm',
            'a',
            'c',
            's',
        ],
        edit_mode(Some(s)) == Some(EditMode::Vi) <==> text::lower(s) == seq!['v', 'i'],
{
    reveal_strlit("emacs");
    reveal_strlit("vi");
    assert("emacs"@ =~= seq!['e', 'm', 'a', 'c', 's']);
    assert("vi"@ =~= seq!['v', 'i']);
    assert("emacs"@.len() != "vi"@.len());
}

/// A session that is asked for becomes the most recently used one, and the others keep
/// their order; one that is not known changes nothing.
pub proof fn law_used_session_comes_first(
    before: Seq<(Seq<char>, u64)>,
    k: Seq<char>,
    agent: u64,
    after: Seq<(Seq<char>, u64)>,
)
    requires
        unique_keys(before + seq![(k, agent)] + after),
    ensures
        used(before + seq![(k, agent)] + after, k) == seq![(k, agent)] + before + after,
{
    let s = before + seq![(k, agent)] + after;
    let n = before.len() as int;
    assert(s[n] == (k, agent));
    assert forall|j: int| 0 <= j < n implies (#[trigger] s[j]).0 != k by {
        assert(s[j].0 != s[n].0);
    }
    assoc::lemma_lookup_at(s, k, n);
    crate::extension_laws::law_without_keeps_order(before + seq![(k, agent)], after, k, (k, agent));
    crate::extension_laws::law_without_keeps_order(before, seq![(k, agent)], k, (k, agent));
    assert forall|j: int| 0 <= j < before.len() implies (#[trigger] before[j]).0 != k by {
        assert(s[j] == before[j]);
    }
    assert forall|j: int| 0 <= j < after.len() implies (#[trigger] after[j]).0 != k by {
        assert(s[n + 1 + j] == after[j]);
        assert(s[n].0 != s[n + 1 + j].0);
    }
    lemma_without_absent(before, k);
    lemma_without_absent(after, k);
    assert(without(seq![(k, agent)], k) =~= Seq::empty());
    assert(used(s, k) =~= seq![(k, agent)] + before + after);
}

proof fn lemma_without_absent(s: Seq<(Seq<char>, u64)>, k: Seq<char>)
    requires
        forall|j: int| 0 <= j < s.len() ==> (#[trigger] s[j]).0 != k,
    ensures
        without(s, k) == s,
    decreases s.len(),
{
    if s.len() > 0 {
        let rest = s.drop_first();
        assert(s[0].0 != k);
        assert forall|j: int| 0 <= j < rest.len() implies (#[trigger] rest[j]).0 != k by {
            assert(rest[j] == s[j + 1]);
        }
        lemma_without_absent(rest, k);
        assert(without(s, k) =~= s);
    }
}

/// A new session comes first with its new agent; where there is no room left the one that
/// was used least recently goes, and only then. A known session only comes first.
pub proof fn law_new_session_comes_first(
    s: Seq<(Seq<char>, u64)>,
    limit: usize,
    k: Seq<char>,
    agent: u64,
)
    ensures
        lookup(s, k) is None && s.len() < limit ==> created(s, limit, k, agent) == seq![(k, agent)]
            + s,
        lookup(s, k) is None && s.len() == limit && limit > 0 ==> created(s, limit, k, agent)
            == seq![(k, agent)] + s.take(s.len() - 1),
        lookup(s, k) is Some ==> created(s, limit, k, agent) == used(s, k),
        lookup(s, k) is None ==> used(s, k) == s,
{
    if s.len() > 0 {
        assert(s.drop_last() =~= s.take(s.len() - 1));
    }
}

/// As many sessions are kept as is asked for; without a number, or with zero, a hundred.
pub proof fn law_session_capacity(n: usize)
    ensures
        session_capacity(None) == 100,
        session_capacity(Some(0)) == 100,
        n > 0 ==> session_capacity(Some(n)) == n,
{
}

/// A default provider needs a provider and a model; of each the first setting counts.
pub proof fn law_default_provider(
    provider: Option<Seq<char>>,
    provider_type: Option<Seq<char>>,
    model: Option<Seq<char>>,
    provider_model: Option<Seq<char>>,
)
    ensures
        ({
            let r = default_provider(provider, provider_type, model, provider_model);
            &&& r is None <==> (provider is None && provider_type is None) || (model is None
                && provider_model is None)
            &&& r is Some && provider is Some ==> (r->0).0 == provider->0
            &&& r is Some && provider is None ==> (r->0).0 == provider_type->0
            &&& r is Some && model is Some ==> (r->0).1 == model->0
            &&& r is Some && model is None ==> (r->0).1 == provider_model->0
        }),
{
}

} // verus!
