//! How a provider and its model are chosen, tested and kept.
use crate::config_extensions::ExtensionEntryView;
use crate::configure_provider::{
    matching, ordered_providers, provider_named, provider_start, provider_step, recommended,
    required_keys, select_start, select_step, weather_schema, ConfigKeyView,
    ConfigureProviderDialogView, ModelSelectionView, ProviderActionView, ProviderEventView,
    ProviderMetadataView, ProviderPhase, SelectActionView, SelectPhase,
};
use crate::extension::ExtensionConfigView;
use crate::menu::ItemView;
use crate::provider_login::{
    add_provider, custom_items, login_step, model_names, oauth_result, provider_refusal,
    trimmed_names, CustomProvider, LoginActionView, LoginEventView, LoginPhase, LoginService,
    OauthOutcomeView, ProviderLoginView,
};
use crate::text;
use crate::text_split::{law_sorted, pieces, sorted, text_le};
use vstd::prelude::*;

verus! {

/// A text as an item that stands for itself.
pub open spec fn plain(s: Seq<char>, hint: Seq<char>) -> ItemView {
    ItemView { value: s, label: s, hint }
}

/// The models that a search finds are those of the parts, in order; without a text to
/// search for all are found.
pub proof fn law_search_keeps_order(x: Seq<Seq<char>>, y: Seq<Seq<char>>, query: Seq<char>)
    ensures
        query.len() == 0 ==> matching(x, query) == x,
        query.len() > 0 ==> matching(x + y, query) == matching(x, query) + matching(y, query),
        query.len() > 0 && y.len() == 1 && text::occurs_in(text::lower(y[0]), text::lower(query))
            ==> matching(y, query) == y,
        query.len() > 0 && y.len() == 1 && !text::occurs_in(text::lower(y[0]), text::lower(query))
            ==> matching(y, query).len() == 0,
    decreases y.len(),
{
    if query.len() > 0 {
        if y.len() == 0 {
            assert(x + y =~= x);
            assert(matching(x, query) + matching(y, query) =~= matching(x, query));
        } else {
            assert((x + y).drop_last() =~= x + y.drop_last());
            law_search_keeps_order(x, y.drop_last(), query);
            assert(matching(x + y, query) =~= matching(x, query) + matching(y, query));
        }
        if y.len() == 1 {
            assert(y.drop_last() =~= Seq::empty());
            assert(matching(Seq::empty(), query) =~= Seq::empty());
            assert(y.last() == y[0]);
            assert(Seq::empty().push(y[0]) =~= y);
        }
    }
}

/// The recommended models are the known ones that the provider has, in the order in
/// which they are known.
pub proof fn law_recommended(x: Seq<Seq<char>>, y: Seq<Seq<char>>, models: Seq<Seq<char>>)
    ensures
        recommended(x + y, models) == recommended(x, models) + recommended(y, models),
        y.len() == 1 && models.contains(y[0]) ==> recommended(y, models) == y,
        y.len() == 1 && !models.contains(y[0]) ==> recommended(y, models).len() == 0,
    decreases y.len(),
{
    if y.len() == 0 {
        assert(x + y =~= x);
        assert(recommended(x, models) + recommended(y, models) =~= recommended(x, models));
    } else {
        assert((x + y).drop_last() =~= x + y.drop_last());
        law_recommended(x, y.drop_last(), models);
        assert(recommended(x + y, models) =~= recommended(x, models) + recommended(y, models));
    }
    if y.len() == 1 {
        assert(y.drop_last() =~= Seq::empty());
        assert(recommended(Seq::empty(), models) =~= Seq::empty());
        assert(y.last() == y[0]);
        assert(Seq::empty().push(y[0]) =~= y);
    }
}

/// Up to ten models are all offered, as they are. Of more, the recommended ones are
/// offered behind a way to search; without any the search comes at once.
pub proof fn law_models_are_offered(models: Seq<Seq<char>>, known: Seq<Seq<char>>, i: int)
    ensures
        ({
            let a = select_start(models, known);
            let r = recommended(known, models);
            let items = a.1->Choose_0;
            &&& models.len() <= 10 ==> a.1 is Choose && items.len() == models.len() && (0 <= i
                < models.len() ==> items[i] == plain(models[i], ""@))
            &&& models.len() > 10 && r.len() > 0 ==> a.1 is Choose && items.len() == r.len() + 1
                && items[0] == (ItemView {
                value: "search_all"@,
                label: "Search all models..."@,
                hint: "Search complete model list"@,
            }) && (0 <= i < r.len() ==> items[i + 1] == plain(r[i], "Recommended"@))
            &&& models.len() > 10 && r.len() == 0 ==> a.1 == (SelectActionView::Search {
                warning: None,
                info: "🔍 "@ + text::decimal(models.len())
                    + " models available. Type to filter."@,
                query: Seq::empty(),
            })
            &&& a.0.models == models
        }),
{
}

/// A model that is chosen out of those that are offered is taken as it is.
pub proof fn law_chosen_model_is_taken(s: ModelSelectionView, model: Seq<char>)
    requires
        s.phase == SelectPhase::Few || (s.phase == SelectPhase::Recommended && model
            != "search_all"@) || (s.phase == SelectPhase::Results && model != "__refine__"@
            && model != "__new_search__"@),
    ensures
        select_step(s, model).1 == SelectActionView::Take(model),
        select_step(s, model).0.phase == SelectPhase::Selected,
{
}

/// A search shows what it finds, up to thirty models behind a way to search on, and is
/// asked for again where it finds nothing. What was typed counts without white space at
/// its ends.
pub proof fn law_search_shows_what_it_finds(s: ModelSelectionView, typed: Seq<char>, i: int)
    requires
        s.phase == SelectPhase::Query,
    ensures
        ({
            let found = matching(s.models, text::trimmed(typed));
            let a = select_step(s, typed);
            let items = a.1->Choose_0;
            &&& a.0.query == text::trimmed(typed)
            &&& a.0.models == s.models
            &&& found.len() == 0 ==> a.1 == (SelectActionView::Search {
                warning: Some("No matching models. Try a different search."@),
                info: "🔍 "@ + text::decimal(s.models.len())
                    + " models available. Type to filter."@,
                query: text::trimmed(typed),
            })
            &&& 0 < found.len() <= 30 ==> a.1 is Choose && items.len() == found.len() + 1
                && items[0].value == "__new_search__"@ && (0 <= i < found.len() ==> items[i + 1]
                == plain(found[i], ""@))
            &&& found.len() > 30 ==> a.1 is Choose && items.len() == 31 && items[0].value == "__refine__"@ && items[0].label
                == "Refine search to see more (showing "@ + text::decimal(30) + " of "@
                + text::decimal(found.len()) + " results)"@ && (0 <= i < 30 ==> items[i + 1]
                == plain(found[i], ""@))
        }),
{
}

/// To search on keeps what was typed, and to search anew does not.
pub proof fn law_searching_again(s: ModelSelectionView)
    ensures
        s.phase == SelectPhase::Results ==> select_step(s, "__refine__"@).1 == (
        SelectActionView::Search {
            warning: None,
            info: "🔍 "@ + text::decimal(s.models.len()) + " models available. Type to filter."@,
            query: s.query,
        }),
        s.phase == SelectPhase::Results ==> select_step(s, "__new_search__"@).1 == (
        SelectActionView::Search {
            warning: None,
            info: "🔍 "@ + text::decimal(s.models.len()) + " models available. Type to filter."@,
            query: Seq::empty(),
        }),
        s.phase == SelectPhase::Recommended ==> select_step(s, "search_all"@).1 == (
        SelectActionView::Search {
            warning: None,
            info: "🔍 "@ + text::decimal(s.models.len()) + " models available. Type to filter."@,
            query: s.query,
        }),
{
    reveal_strlit("__refine__");
    reveal_strlit("__new_search__");
    assert("__refine__"@.len() != "__new_search__"@.len());
}

/// The providers are offered in the order of the names that are shown, each under its
/// own name, and the current one is the first choice.
pub proof fn law_providers_are_offered(
    list: Seq<ProviderMetadataView>,
    current: Option<Seq<char>>,
    i: int,
)
    requires
        0 <= i < ordered_providers(list).len(),
    ensures
        ({
            let p = ordered_providers(list);
            let a = provider_start(list, current);
            &&& a.0.providers == p
            &&& a.1.len() == 1
            &&& a.1[0] matches ProviderActionView::ChooseProvider { items, initial }
                && items.len() == p.len() && items[i] == (ItemView {
                value: p[i].name,
                label: p[i].display_name,
                hint: p[i].description,
            }) && (current is Some ==> initial == current->0) && (current is None
                ==> initial.len() == 0)
        }),
{
}

/// The order of the providers: each is there and nothing else is, and of two the first
/// one has the name that comes first.
pub proof fn law_providers_in_order(
    list: Seq<ProviderMetadataView>,
    p: ProviderMetadataView,
    i: int,
    j: int,
)
    ensures
        ordered_providers(list).len() == list.len(),
        ordered_providers(list).contains(p) <==> list.contains(p),
        0 <= i < j < ordered_providers(list).len() ==> text_le(
            ordered_providers(list)[i].display_name,
            ordered_providers(list)[j].display_name,
        ),
{
    broadcast use {vstd::seq_lib::to_multiset_contains, vstd::seq_lib::to_multiset_len};

    let named = list.map_values(|q: ProviderMetadataView| (q.display_name, q));
    law_sorted(named);
    let s = sorted(named);
    assert(named.to_multiset().len() == s.to_multiset().len());
    assert forall|k: int| 0 <= k < s.len() implies (#[trigger] s[k]).0 == s[k].1.display_name
        && list.contains(s[k].1) by {
        assert(s.contains(s[k]));
        assert(s.to_multiset().count(s[k]) > 0);
        assert(named.to_multiset().count(s[k]) > 0);
        assert(named.contains(s[k]));
        let n = choose|n: int| 0 <= n < named.len() && named[n] == s[k];
        assert(list[n] == s[k].1);
    }
    if list.contains(p) {
        let n = choose|n: int| 0 <= n < list.len() && list[n] == p;
        let x = (p.display_name, p);
        assert(named[n] == x);
        assert(named.contains(x));
        assert(named.to_multiset().count(x) > 0);
        assert(s.to_multiset().count(x) > 0);
        assert(s.contains(x));
        let k = choose|k: int| 0 <= k < s.len() && s[k] == x;
        assert(ordered_providers(list)[k] == p);
    }
    if ordered_providers(list).contains(p) {
        let k = choose|k: int|
            0 <= k < ordered_providers(list).len() && ordered_providers(list)[k] == p;
        assert(s[k].1 == p);
    }
    if 0 <= i < j < ordered_providers(list).len() {
        assert(text_le(s[i].0, s[j].0));
        assert(s[i].0 == s[i].1.display_name);
        assert(s[j].0 == s[j].1.display_name);
    }
}

/// The required values are those of the parts, each with all that is known of it.
pub proof fn law_required_values(x: Seq<ConfigKeyView>, y: Seq<ConfigKeyView>)
    ensures
        required_keys(x + y) == required_keys(x) + required_keys(y),
        y.len() == 1 && y[0].required ==> required_keys(y) == y,
        y.len() == 1 && !y[0].required ==> required_keys(y).len() == 0,
    decreases y.len(),
{
    if y.len() == 0 {
        assert(x + y =~= x);
        assert(required_keys(x) + required_keys(y) =~= required_keys(x));
    } else {
        assert((x + y).drop_last() =~= x + y.drop_last());
        law_required_values(x, y.drop_last());
        assert(required_keys(x + y) =~= required_keys(x) + required_keys(y));
    }
    if y.len() == 1 {
        assert(y.drop_last() =~= Seq::empty());
        assert(required_keys(Seq::empty()) =~= Seq::empty());
        assert(y.last() == y[0]);
        assert(Seq::empty().push(y[0]) =~= y);
    }
}

/// A provider is found by its name, the first one first.
pub proof fn law_provider_by_name(list: Seq<ProviderMetadataView>, name: Seq<char>, i: int)
    requires
        0 <= i <= list.len(),
        forall|j: int| 0 <= j < i ==> (#[trigger] list[j]).name != name,
        i < list.len() ==> list[i].name == name,
    ensures
        i < list.len() ==> provider_named(list, name) == Some(list[i]),
        i == list.len() ==> provider_named(list, name) is None,
    decreases list.len(),
{
    if i > 0 {
        assert(list[0].name != name);
        let rest = list.drop_first();
        assert forall|j: int| 0 <= j < i - 1 implies (#[trigger] rest[j]).name != name by {
            assert(rest[j] == list[j + 1]);
        }
        law_provider_by_name(rest, name, i - 1);
    }
}

/// What follows when a value is done with: the next one is looked for in the
/// environment, and after the last one the models of the provider are fetched.
pub open spec fn moving_on(
    s: ConfigureProviderDialogView,
    keys: Seq<ConfigKeyView>,
) -> ProviderActionView {
    if keys.len() > 0 {
        ProviderActionView::ReadEnv(keys[0].name)
    } else {
        ProviderActionView::FetchModels {
            provider: s.provider.name,
            model: s.provider.default_model,
        }
    }
}

/// The provider that is chosen is the one that is set up: its required values one after
/// the other, and then its models.
pub proof fn law_chosen_provider_is_set_up(s: ConfigureProviderDialogView, name: Seq<char>)
    requires
        s.phase == ProviderPhase::Choosing,
    ensures
        ({
            let a = provider_step(s, ProviderEventView::Chosen(name));
            &&& provider_named(s.providers, name) matches Some(p) ==> a.0.provider == p && a.0.keys
                == required_keys(p.config_keys) && a.1 == seq![moving_on(a.0, a.0.keys)]
            &&& provider_named(s.providers, name) is None ==> a == (
                s,
                Seq::<ProviderActionView>::empty(),
            )
        }),
{
    let a = provider_step(s, ProviderEventView::Chosen(name));
    if provider_named(s.providers, name) is Some {
        assert(a.1 =~= seq![a.1[0]]);
    }
}

/// A value that the environment has is saved as it is where the user agrees, and is left
/// alone where they do not; either way the next value follows.
pub proof fn law_value_of_the_environment(s: ConfigureProviderDialogView, v: Seq<char>)
    requires
        s.phase == ProviderPhase::EnvReading,
        s.keys.len() > 0,
    ensures
        ({
            let key = s.keys[0];
            let a = provider_step(s, ProviderEventView::Env(Some(v)));
            let b = provider_step(a.0, ProviderEventView::Confirmed(true));
            let c = provider_step(b.0, ProviderEventView::Done);
            let no = provider_step(a.0, ProviderEventView::Confirmed(false));
            &&& a.1 == seq![
                ProviderActionView::Info(key.name + " is set via environment variable"@),
                ProviderActionView::ConfirmSave,
            ]
            &&& b.1 == seq![
                ProviderActionView::SaveValue { key: key.name, content: v, secret: key.secret },
            ]
            &&& c.1 == seq![
                ProviderActionView::Info("Saved "@ + key.name + " to config file"@),
                moving_on(s, s.keys.skip(1)),
            ]
            &&& c.0.keys == s.keys.skip(1) && c.0.provider == s.provider
            &&& no.1 == seq![moving_on(s, s.keys.skip(1))]
            &&& no.0.keys == s.keys.skip(1) && no.0.provider == s.provider
        }),
{
    let key = s.keys[0];
    let a = provider_step(s, ProviderEventView::Env(Some(v)));
    let b = provider_step(a.0, ProviderEventView::Confirmed(true));
    let c = provider_step(b.0, ProviderEventView::Done);
    let no = provider_step(a.0, ProviderEventView::Confirmed(false));
    assert(s.keys.drop_first() =~= s.keys.skip(1));
    assert(a.1 =~= seq![a.1[0], a.1[1]]);
    assert(b.1 =~= seq![b.1[0]]);
    assert(c.1 =~= seq![c.1[0], c.1[1]]);
    assert(no.1 =~= seq![no.1[0]]);
}

/// How a value is had: by signing in to the provider for it, or by asking for it, a secret
/// in secret and any other with its default.
pub open spec fn entering(s: ConfigureProviderDialogView, prompt: Seq<char>) -> ProviderActionView {
    let key = s.keys[0];
    if key.oauth_flow {
        ProviderActionView::SignIn { provider: s.provider.name, key: key.name }
    } else if key.secret {
        ProviderActionView::AskValue { prompt, secret: true, default: None }
    } else {
        ProviderActionView::AskValue { prompt, secret: false, default: key.default }
    }
}

/// A value that the environment lacks is looked for in what is stored. One that is stored
/// stays unless the user wants another one, and one that is not has to be entered.
pub proof fn law_value_that_is_stored(s: ConfigureProviderDialogView)
    requires
        s.phase == ProviderPhase::EnvReading,
        s.keys.len() > 0,
    ensures
        ({
            let key = s.keys[0];
            let a = provider_step(s, ProviderEventView::Env(None));
            let b = provider_step(a.0, ProviderEventView::Stored(true));
            let lacking = provider_step(a.0, ProviderEventView::Stored(false));
            let yes = provider_step(b.0, ProviderEventView::Confirmed(true));
            let no = provider_step(b.0, ProviderEventView::Confirmed(false));
            &&& a.1 == seq![
                ProviderActionView::ReadStored { key: key.name, secret: key.secret },
            ]
            &&& b.1 == seq![
                ProviderActionView::Info(key.name + " is already configured"@),
                ProviderActionView::ConfirmUpdate,
            ]
            &&& no.1 == seq![moving_on(s, s.keys.skip(1))] && no.0.keys == s.keys.skip(1)
            &&& yes.1 == seq![entering(s, "Enter new value for "@ + key.name)]
            &&& lacking.1 == seq![
                entering(
                    s,
                    "Provider "@ + s.provider.display_name + " requires "@ + key.name
                        + ", please enter a value"@,
                ),
            ]
        }),
{
    let a = provider_step(s, ProviderEventView::Env(None));
    let b = provider_step(a.0, ProviderEventView::Stored(true));
    let lacking = provider_step(a.0, ProviderEventView::Stored(false));
    let yes = provider_step(b.0, ProviderEventView::Confirmed(true));
    let no = provider_step(b.0, ProviderEventView::Confirmed(false));
    assert(s.keys.drop_first() =~= s.keys.skip(1));
    assert(a.1 =~= seq![a.1[0]]);
    assert(b.1 =~= seq![b.1[0], b.1[1]]);
    assert(lacking.1 =~= seq![lacking.1[0]]);
    assert(yes.1 =~= seq![yes.1[0]]);
    assert(no.1 =~= seq![no.1[0]]);
}

/// What is entered is saved as it is, under the name of the value, as a secret just where
/// it is one, and the next value follows; so it does after signing in.
pub proof fn law_entered_value_is_saved(s: ConfigureProviderDialogView, v: Seq<char>)
    requires
        s.keys.len() > 0,
    ensures
        s.phase == ProviderPhase::ValueAsking ==> ({
            let a = provider_step(s, ProviderEventView::Text(v));
            let b = provider_step(a.0, ProviderEventView::Done);
            &&& a.1 == seq![
                ProviderActionView::SaveValue {
                    key: s.keys[0].name,
                    content: v,
                    secret: s.keys[0].secret,
                },
            ]
            &&& b.1 == seq![moving_on(s, s.keys.skip(1))]
            &&& b.0.keys == s.keys.skip(1) && b.0.provider == s.provider
        }),
        s.phase == ProviderPhase::SigningIn ==> ({
            let a = provider_step(s, ProviderEventView::Done);
            &&& a.1 == seq![moving_on(s, s.keys.skip(1))]
            &&& a.0.keys == s.keys.skip(1) && a.0.provider == s.provider
        }),
{
    assert(s.keys.drop_first() =~= s.keys.skip(1));
    if s.phase == ProviderPhase::ValueAsking {
        let a = provider_step(s, ProviderEventView::Text(v));
        let b = provider_step(a.0, ProviderEventView::Done);
        assert(a.1 =~= seq![a.1[0]]);
        assert(b.1 =~= seq![b.1[0]]);
    }
    if s.phase == ProviderPhase::SigningIn {
        let a = provider_step(s, ProviderEventView::Done);
        assert(a.1 =~= seq![a.1[0]]);
    }
}

/// The models that were fetched are offered with those that are known; without a list
/// the user types one, and is offered that of the environment before the default one. A
/// failure ends the dialog.
pub proof fn law_fetched_models_are_offered(
    s: ConfigureProviderDialogView,
    list: Seq<Seq<char>>,
    env_model: Option<Seq<char>>,
    e: Seq<char>,
)
    requires
        s.phase == ProviderPhase::ModelsFetching,
    ensures
        provider_step(s, ProviderEventView::Models { models: Some(list), env_model }).1 == seq![
            ProviderActionView::SelectModel { models: list, known: s.provider.known_models },
        ],
        provider_step(s, ProviderEventView::Models { models: None, env_model }).1 == seq![
            ProviderActionView::AskModel {
                default_model: if env_model is Some {
                    env_model->0
                } else {
                    s.provider.default_model
                },
            },
        ],
        provider_step(s, ProviderEventView::FetchFailed(e)).1 == seq![
            ProviderActionView::Outro(e),
            ProviderActionView::Finish(false),
        ],
{
    let a = provider_step(s, ProviderEventView::Models { models: Some(list), env_model });
    let b = provider_step(s, ProviderEventView::Models { models: None, env_model });
    let c = provider_step(s, ProviderEventView::FetchFailed(e));
    assert(a.1 =~= seq![a.1[0]]);
    assert(b.1 =~= seq![b.1[0]]);
    assert(c.1 =~= seq![c.1[0], c.1[1]]);
}

/// The model that was chosen is the one that is tested, at the chosen provider, with one
/// tool unless tools are made up for it; if it passes, just these two are kept.
pub proof fn law_chosen_model_is_tested_and_kept(
    s: ConfigureProviderDialogView,
    model: Seq<char>,
    toolshim: Option<Seq<char>>,
    toolshim_model: Option<Seq<char>>,
    e: Seq<char>,
)
    requires
        s.phase == ProviderPhase::ModelChoosing || s.phase == ProviderPhase::ModelTyping,
    ensures
        ({
            let on = toolshim is Some && (toolshim->0 == "1"@ || text::lower(toolshim->0)
                == "true"@);
            let a = provider_step(
                s,
                ProviderEventView::ModelChosen { model, toolshim, toolshim_model },
            );
            let b = provider_step(a.0, ProviderEventView::Done);
            let c = provider_step(a.0, ProviderEventView::TestFailed(e));
            &&& a.1.len() == 1
            &&& a.1[0] matches ProviderActionView::TestModel {
                provider,
                model: tested,
                max_tokens,
                toolshim: shim,
                toolshim_model: shim_model,
                tools,
            } && provider == s.provider.name && tested == model && max_tokens == 50 && shim == on
                && shim_model == toolshim_model && (on ==> tools.len() == 0) && (!on
                ==> tools.len() == 1 && tools[0].name == "get_weather"@ && tools[0].input_schema
                == weather_schema())
            &&& b.1 == seq![
                ProviderActionView::SetParam { key: "GOOSE_PROVIDER"@, content: s.provider.name },
                ProviderActionView::SetParam { key: "GOOSE_MODEL"@, content: model },
                ProviderActionView::Outro("Configuration saved successfully"@),
                ProviderActionView::Finish(true),
            ]
            &&& c.1 == seq![
                ProviderActionView::ReportFailure(e),
                ProviderActionView::Outro(
                    "Failed to configure provider: init chat completion request with tool did not succeed."@,
                ),
                ProviderActionView::Finish(false),
            ]
        }),
{
    let a = provider_step(s, ProviderEventView::ModelChosen { model, toolshim, toolshim_model });
    let b = provider_step(a.0, ProviderEventView::Done);
    let c = provider_step(a.0, ProviderEventView::TestFailed(e));
    assert(b.1 =~= seq![b.1[0], b.1[1], b.1[2], b.1[3]]);
    assert(c.1 =~= seq![c.1[0], c.1[1], c.1[2]]);
}

/// A whole login that works: the service is signed in to and configured, the model that
/// the configuration then names is tested with the provider of the service, and the
/// extension for developers is enabled where it is not.
pub proof fn law_login_that_works(
    service: LoginService,
    model: Seq<char>,
    entries: Seq<ExtensionEntryView>,
)
    ensures
        ({
            let s = ProviderLoginView { service, phase: LoginPhase::Authenticating };
            let name = if service is OpenRouter {
                "OpenRouter"@
            } else {
                "Tetrate Agent Router Service"@
            };
            let a = login_step(s, LoginEventView::Done);
            let b = login_step(a.0, LoginEventView::Done);
            let c = login_step(b.0, LoginEventView::Model(model));
            let d = login_step(c.0, LoginEventView::Done);
            let e = login_step(d.0, LoginEventView::Done);
            let f = login_step(e.0, LoginEventView::Done);
            let g = login_step(f.0, LoginEventView::Extensions(entries));
            let helped = exists|i: int|
                0 <= i < entries.len() && (#[trigger] entries[i]).enabled
                    && entries[i].config.name() == "developer"@;
            &&& a.1.last() == LoginActionView::Configure
            &&& b.1.last() == LoginActionView::ReadModel
            &&& c.1 == seq![LoginActionView::CreateModel(model)]
            &&& service is OpenRouter ==> d.1 == seq![
                LoginActionView::CreateProvider("openrouter"@),
            ]
            &&& service is Tetrate ==> d.1 == seq![LoginActionView::CreateProvider("tetrate"@)]
            &&& e.1.len() == 1 && e.1[0] is Complete
            &&& f.1.last() == LoginActionView::ReadExtensions
            &&& helped ==> g.1 == seq![
                LoginActionView::Outro(name + " setup complete! You can now use goose."@),
                LoginActionView::Finish(None),
            ]
            &&& !helped ==> g.1.len() == 4 && g.1[0] == LoginActionView::SetExtension(
                ExtensionEntryView {
                    enabled: true,
                    config: ExtensionConfigView::Builtin {
                        name: "developer"@,
                        display_name: Some("Developer"@),
                        description: "Developer extension"@,
                        timeout: Some(300),
                        bundled: Some(true),
                        available_tools: Seq::empty(),
                    },
                },
            ) && g.1[2] == LoginActionView::Outro(
                name + " setup complete! You can now use goose."@,
            ) && g.1[3] == LoginActionView::Finish(None)
        }),
{
    let s = ProviderLoginView { service, phase: LoginPhase::Authenticating };
    let a = login_step(s, LoginEventView::Done);
    let b = login_step(a.0, LoginEventView::Done);
    let c = login_step(b.0, LoginEventView::Model(model));
    let d = login_step(c.0, LoginEventView::Done);
    let e = login_step(d.0, LoginEventView::Done);
    let f = login_step(e.0, LoginEventView::Done);
    let g = login_step(f.0, LoginEventView::Extensions(entries));
    if g.1.len() == 2 {
        assert(g.1 =~= seq![g.1[0], g.1[1]]);
    }
}

/// A login that fails before the settings are saved ends with the cause; after that the
/// cause is told, but the login ends without an error.
pub proof fn law_login_that_fails(s: ProviderLoginView, e: Seq<char>)
    ensures
        ({
            let a = login_step(s, LoginEventView::Failed(e));
            let name = if s.service is OpenRouter {
                "OpenRouter"@
            } else {
                "Tetrate Agent Router Service"@
            };
            &&& s.phase == LoginPhase::Authenticating ==> a.1 == seq![
                LoginActionView::PrintError("Authentication failed: "@ + e),
                LoginActionView::Finish(Some(e)),
            ]
            &&& s.phase == LoginPhase::Configuring ==> a.1 == seq![
                LoginActionView::PrintError("Failed to configure "@ + name + ": "@ + e),
                LoginActionView::Finish(Some(e)),
            ]
            &&& s.phase == LoginPhase::ModelReading ==> a.1 == seq![
                LoginActionView::Finish(Some(e)),
            ]
            &&& s.phase == LoginPhase::ModelCreating ==> a.1.len() == 3 && a.1[0]
                == LoginActionView::PrintError("⚠️  Invalid model configuration: "@ + e) && a.1[2]
                == LoginActionView::Finish(None)
            &&& s.phase == LoginPhase::ProviderCreating ==> a.1.len() == 3 && a.1[0]
                == LoginActionView::PrintError(
                "⚠️  Failed to create provider for testing: "@ + e,
            ) && a.1[2] == LoginActionView::Finish(None)
            &&& s.phase == LoginPhase::Testing ==> a.1.len() == 3 && a.1[0]
                == LoginActionView::PrintError("⚠️  Configuration test failed: "@ + e) && a.1[2]
                == LoginActionView::Finish(None)
        }),
{
    let a = login_step(s, LoginEventView::Failed(e));
    if a.1.len() == 2 {
        assert(a.1 =~= seq![a.1[0], a.1[1]]);
    }
    if a.1.len() == 1 {
        assert(a.1 =~= seq![a.1[0]]);
    }
}

/// Signing in for a value fails with the value and the cause where it is the service that
/// fails, and with the cause where the provider cannot be made.
pub proof fn law_signing_in(key: Seq<char>, e: Seq<char>)
    ensures
        oauth_result(key, OauthOutcomeView::Done).1 is None,
        oauth_result(key, OauthOutcomeView::AuthFailed(e)) == (
            "Failed to authenticate: "@ + e,
            Some("OAuth authentication failed for "@ + key + ": "@ + e),
        ),
        oauth_result(key, OauthOutcomeView::CreateFailed(e)) == (
            "Failed to create provider for OAuth: "@ + e,
            Some("Failed to create provider for OAuth: "@ + e),
        ),
{
}

/// A provider of the user's own needs a name, an address with a scheme and at least one
/// model; the first that is lacking is told.
pub proof fn law_own_providers(name: Seq<char>, url: Seq<char>, models: Seq<char>)
    ensures
        ({
            let addressed = "http://"@.is_prefix_of(url) || "https://"@.is_prefix_of(url);
            let r = provider_refusal(name, url, models);
            &&& name.len() == 0 ==> r == Some("Please enter a name"@)
            &&& name.len() > 0 && !addressed ==> r == Some(
                "URL must start with either http:// or https://"@,
            )
            &&& name.len() > 0 && addressed && text::trimmed(models).len() == 0 ==> r == Some(
                "Please enter at least one model name"@,
            )
            &&& name.len() > 0 && addressed && text::trimmed(models).len() > 0 ==> r is None
        }),
{
}

/// The models of a list are those between its commas, without white space at their ends,
/// where anything is left, in order.
pub proof fn law_models_of_a_list(x: Seq<Seq<char>>, y: Seq<Seq<char>>, s: Seq<char>)
    ensures
        model_names(s) == trimmed_names(pieces(s, ',')),
        trimmed_names(x + y) == trimmed_names(x) + trimmed_names(y),
        text::trimmed(s).len() > 0 ==> trimmed_names(seq![s]) == seq![text::trimmed(s)],
        text::trimmed(s).len() == 0 ==> trimmed_names(seq![s]).len() == 0,
    decreases y.len(),
{
    if y.len() == 0 {
        assert(x + y =~= x);
        assert(trimmed_names(x) + trimmed_names(y) =~= trimmed_names(x));
    } else {
        assert((x + y).drop_last() =~= x + y.drop_last());
        law_models_of_a_list(x, y.drop_last(), s);
        assert(trimmed_names(x + y) =~= trimmed_names(x) + trimmed_names(y));
    }
    assert(seq![s].drop_last() =~= Seq::empty());
    assert(trimmed_names(Seq::empty()) =~= Seq::empty());
    assert(Seq::empty().push(text::trimmed(s)) =~= seq![text::trimmed(s)]);
}

/// Providers of the user's own are offered under the names that are shown, and stand for
/// their own names.
pub proof fn law_own_providers_are_offered(list: Seq<(Seq<char>, Seq<char>)>, i: int)
    requires
        0 <= i < list.len(),
    ensures
        custom_items(list).len() == list.len(),
        custom_items(list)[i].value == list[i].0,
        custom_items(list)[i].label == list[i].1,
{
}

/// A provider that is made holds what was entered, each under its own name.
pub proof fn law_made_provider_holds_what_was_entered(
    provider_type: &str,
    display_name: &str,
    api_url: &str,
    api_key: &str,
    models: &str,
    streaming: bool,
    p: CustomProvider,
)
    requires
        call_ensures(
            add_provider,
            (provider_type, display_name, api_url, api_key, models, streaming),
            Ok(p),
        ),
    ensures
        p.provider_type@ == provider_type@,
        p.display_name@ == display_name@,
        p.api_url@ == api_url@,
        p.api_key@ == api_key@,
        p.models.deep_view() == model_names(models@),
        p.supports_streaming == Some(streaming),
{
}

} // verus!
