//! How a user chooses a provider, enters what it needs and chooses a model.
use crate::base::{self, Duplicate};
use crate::json::{self, Json, JsonView};
use crate::menu::{self, item, plain_items, Item, ItemView};
use crate::text::{self, lower, occurs_in, trimmed};
use crate::text_split::{self, sorted};
use crate::tool::{Tool, ToolView};
use vstd::prelude::*;
use vstd::string::*;

verus! {

/// How many models are offered without a search.
pub const MAX_MODELS: usize = 10;

/// How many models that match are offered at once.
pub const MAX_VISIBLE: usize = 30;

/// A value that a provider needs.
#[derive(Debug, PartialEq)]
pub struct ConfigKey {
    pub name: String,
    pub required: bool,
    pub secret: bool,
    pub default: Option<String>,
    /// Whether it is had by signing in.
    pub oauth_flow: bool,
}

#[verifier::ext_equal]
pub struct ConfigKeyView {
    pub name: Seq<char>,
    pub required: bool,
    pub secret: bool,
    pub default: Option<Seq<char>>,
    pub oauth_flow: bool,
}

impl DeepView for ConfigKey {
    type V = ConfigKeyView;

    open spec fn deep_view(&self) -> ConfigKeyView {
        ConfigKeyView {
            name: self.name@,
            required: self.required,
            secret: self.secret,
            default: self.default.deep_view(),
            oauth_flow: self.oauth_flow,
        }
    }
}

impl Duplicate for ConfigKey {
    fn duplicate(&self) -> (r: Self) {
        ConfigKey {
            name: self.name.clone(),
            required: self.required,
            secret: self.secret,
            default: self.default.duplicate(),
            oauth_flow: self.oauth_flow,
        }
    }
}

/// What is known of a provider.
#[derive(Debug, PartialEq)]
pub struct ProviderMetadata {
    pub name: String,
    pub display_name: String,
    pub description: String,
    pub default_model: String,
    pub known_models: Vec<String>,
    pub config_keys: Vec<ConfigKey>,
}

#[verifier::ext_equal]
pub struct ProviderMetadataView {
    pub name: Seq<char>,
    pub display_name: Seq<char>,
    pub description: Seq<char>,
    pub default_model: Seq<char>,
    pub known_models: Seq<Seq<char>>,
    pub config_keys: Seq<ConfigKeyView>,
}

impl DeepView for ProviderMetadata {
    type V = ProviderMetadataView;

    open spec fn deep_view(&self) -> ProviderMetadataView {
        ProviderMetadataView {
            name: self.name@,
            display_name: self.display_name@,
            description: self.description@,
            default_model: self.default_model@,
            known_models: self.known_models.deep_view(),
            config_keys: self.config_keys.deep_view(),
        }
    }
}

impl Duplicate for ProviderMetadata {
    fn duplicate(&self) -> (r: Self) {
        ProviderMetadata {
            name: self.name.clone(),
            display_name: self.display_name.clone(),
            description: self.description.clone(),
            default_model: self.default_model.clone(),
            known_models: self.known_models.duplicate(),
            config_keys: self.config_keys.duplicate(),
        }
    }
}

/// What the choice of a model waits for.
#[derive(Debug, Clone, Copy, PartialEq, Eq, Structural)]
pub enum SelectPhase {
    Few,
    Recommended,
    Query,
    Results,
    Selected,
}

impl DeepView for SelectPhase {
    type V = SelectPhase;

    open spec fn deep_view(&self) -> SelectPhase {
        *self
    }
}

impl Duplicate for SelectPhase {
    fn duplicate(&self) -> (r: Self) {
        *self
    }
}

/// The choice of a model out of a list.
#[derive(Debug, PartialEq)]
pub struct ModelSelection {
    pub models: Vec<String>,
    pub query: String,
    pub phase: SelectPhase,
}

#[verifier::ext_equal]
pub struct ModelSelectionView {
    pub models: Seq<Seq<char>>,
    pub query: Seq<char>,
    pub phase: SelectPhase,
}

impl DeepView for ModelSelection {
    type V = ModelSelectionView;

    open spec fn deep_view(&self) -> ModelSelectionView {
        ModelSelectionView {
            models: self.models.deep_view(),
            query: self.query@,
            phase: self.phase,
        }
    }
}

/// What the choice of a model asks the outside to do.
#[derive(Debug, PartialEq)]
pub enum SelectAction {
    Choose(Vec<Item>),
    /// Ask for a text to search for, after a warning.
    Search { warning: Option<String>, info: String, query: String },
    /// The model is chosen.
    Take(String),
    Nothing,
}

#[verifier::ext_equal]
pub enum SelectActionView {
    Choose(Seq<ItemView>),
    Search { warning: Option<Seq<char>>, info: Seq<char>, query: Seq<char> },
    Take(Seq<char>),
    Nothing,
}

impl DeepView for SelectAction {
    type V = SelectActionView;

    open spec fn deep_view(&self) -> SelectActionView {
        match self {
            SelectAction::Choose(x) => SelectActionView::Choose(x.deep_view()),
            SelectAction::Search { warning, info, query } => SelectActionView::Search {
                warning: warning.deep_view(),
                info: info@,
                query: query@,
            },
            SelectAction::Take(x) => SelectActionView::Take(x@),
            SelectAction::Nothing => SelectActionView::Nothing,
        }
    }
}

/// A state and what is done next.
pub type SelectStep = (ModelSelectionView, SelectActionView);

/// The models whose name holds a text, whatever the case.
pub open spec fn matching(models: Seq<Seq<char>>, query: Seq<char>) -> Seq<Seq<char>>
    decreases models.len(),
{
    if query.len() == 0 || models.len() == 0 {
        models
    } else {
        let rest = matching(models.drop_last(), query);
        if occurs_in(lower(models.last()), lower(query)) {
            rest.push(models.last())
        } else {
            rest
        }
    }
}

/// The first models that match, behind an item that leads to another search.
pub open spec fn result_items(found: Seq<Seq<char>>) -> Seq<ItemView> {
    let shown = if found.len() > MAX_VISIBLE {
        found.take(MAX_VISIBLE as int)
    } else {
        found
    };
    seq![
        if found.len() > MAX_VISIBLE {
            item(
                "__refine__"@,
                "Refine search to see more (showing "@ + text::decimal(MAX_VISIBLE as nat) + " of "@
                    + text::decimal(found.len()) + " results)"@,
                "Too many matches"@,
            )
        } else {
            item(
                "__new_search__"@,
                "Start a new search..."@,
                "Enter a different search term"@,
            )
        },
    ] + plain_items(shown, ""@)
}

/// The known models of a provider that it supports.
pub open spec fn recommended(known: Seq<Seq<char>>, models: Seq<Seq<char>>) -> Seq<Seq<char>>
    decreases known.len(),
{
    if known.len() == 0 {
        known
    } else {
        let rest = recommended(known.drop_last(), models);
        if models.contains(known.last()) {
            rest.push(known.last())
        } else {
            rest
        }
    }
}

/// The recommended models, behind an item that leads to a search.
pub open spec fn recommended_items(list: Seq<Seq<char>>) -> Seq<ItemView> {
    seq![item("search_all"@, "Search all models..."@, "Search complete model list"@)]
        + plain_items(list, "Recommended"@)
}

pub open spec fn ask_query(s: ModelSelectionView, warning: Option<Seq<char>>) -> SelectStep {
    (
        ModelSelectionView { phase: SelectPhase::Query, ..s },
        SelectActionView::Search {
            warning,
            info: "🔍 "@ + text::decimal(s.models.len()) + " models available. Type to filter."@,
            query: s.query,
        },
    )
}

/// A few models are all offered; of many, the recommended ones, or a search.
pub open spec fn select_start(models: Seq<Seq<char>>, known: Seq<Seq<char>>) -> SelectStep {
    let s = ModelSelectionView { models, query: Seq::empty(), phase: SelectPhase::Few };
    let r = recommended(known, models);
    if models.len() <= MAX_MODELS {
        (s, SelectActionView::Choose(plain_items(models, ""@)))
    } else if r.len() > 0 {
        (
            ModelSelectionView { phase: SelectPhase::Recommended, ..s },
            SelectActionView::Choose(recommended_items(r)),
        )
    } else {
        ask_query(s, None)
    }
}

pub open spec fn select_take(s: ModelSelectionView, model: Seq<char>) -> SelectStep {
    (ModelSelectionView { phase: SelectPhase::Selected, ..s }, SelectActionView::Take(model))
}

/// The step that an answer leads to: an item's value, or a text to search for.
pub open spec fn select_step(s: ModelSelectionView, answer: Seq<char>) -> SelectStep {
    match s.phase {
        SelectPhase::Few => select_take(s, answer),
        SelectPhase::Recommended => if answer == "search_all"@ {
            ask_query(s, None)
        } else {
            select_take(s, answer)
        },
        SelectPhase::Query => {
            let t = ModelSelectionView { query: trimmed(answer), ..s };
            let found = matching(s.models, t.query);
            if found.len() == 0 {
                ask_query(t, Some("No matching models. Try a different search."@))
            } else {
                (
                    ModelSelectionView { phase: SelectPhase::Results, ..t },
                    SelectActionView::Choose(result_items(found)),
                )
            }
        },
        SelectPhase::Results => if answer == "__refine__"@ {
            ask_query(s, None)
        } else if answer == "__new_search__"@ {
            ask_query(ModelSelectionView { query: Seq::empty(), ..s }, None)
        } else {
            select_take(s, answer)
        },
        SelectPhase::Selected => (s, SelectActionView::Nothing),
    }
}

/// The models whose name holds a text, whatever the case.
pub fn filter_models(models: &Vec<String>, query: &str) -> (r: Vec<String>)
    ensures
        r.deep_view() == matching(models.deep_view(), query@),
{
    if text::is_empty(query) {
        return models.duplicate();
    }
    let q = text::to_lowercase(query);
    let mut out: Vec<String> = Vec::new();
    let ghost all = models.deep_view();
    let mut i: usize = 0;
    assert(out.deep_view() =~= matching(all.take(0), query@));
    while i < models.len()
        invariant
            i <= models@.len(),
            all == models.deep_view(),
            query@.len() > 0,
            q@ == lower(query@),
            out.deep_view() == matching(all.take(i as int), query@),
        decreases models@.len() - i,
    {
        assert(all.take(i + 1).drop_last() =~= all.take(i as int));
        if text::contains(&text::to_lowercase(&models[i]), &q) {
            base::push(&mut out, models[i].clone());
        }
        i = i + 1;
    }
    assert(all.take(all.len() as int) =~= all);
    out
}

/// The known models of a provider that it supports.
pub fn recommended_models(known: &Vec<String>, models: &Vec<String>) -> (r: Vec<String>)
    ensures
        r.deep_view() == recommended(known.deep_view(), models.deep_view()),
{
    let mut out: Vec<String> = Vec::new();
    let ghost all = known.deep_view();
    let mut i: usize = 0;
    assert(out.deep_view() =~= recommended(all.take(0), models.deep_view()));
    assert(text::texts(models@) =~= models.deep_view());
    while i < known.len()
        invariant
            i <= known@.len(),
            all == known.deep_view(),
            text::texts(models@) == models.deep_view(),
            out.deep_view() == recommended(all.take(i as int), models.deep_view()),
        decreases known@.len() - i,
    {
        assert(all.take(i + 1).drop_last() =~= all.take(i as int));
        if text::list_contains(models, &known[i]) {
            base::push(&mut out, known[i].clone());
        }
        i = i + 1;
    }
    assert(all.take(all.len() as int) =~= all);
    out
}

fn first_models(found: &Vec<String>) -> (r: Vec<String>)
    ensures
        r.deep_view() == if found.deep_view().len() > MAX_VISIBLE {
            found.deep_view().take(MAX_VISIBLE as int)
        } else {
            found.deep_view()
        },
{
    let mut out: Vec<String> = Vec::new();
    let mut i: usize = 0;
    while i < found.len() && i < MAX_VISIBLE
        invariant
            i <= found@.len(),
            i <= MAX_VISIBLE,
            out.deep_view() == found.deep_view().take(i as int),
        decreases found@.len() - i,
    {
        base::push(&mut out, found[i].clone());
        assert(out.deep_view() =~= found.deep_view().take(i + 1));
        i = i + 1;
    }
    assert(found.deep_view().take(found.deep_view().len() as int) =~= found.deep_view());
    out
}

/// The first models that match, behind an item that leads to another search.
pub fn offer_results(found: &Vec<String>) -> (r: Vec<Item>)
    ensures
        r.deep_view() == result_items(found.deep_view()),
{
    let mut items: Vec<Item> = Vec::new();
    assert(items.deep_view() =~= Seq::<ItemView>::empty());
    let shown = first_models(found);
    let count: usize = found.len();
    if count > MAX_VISIBLE {
        let label = text::cat5(
            "Refine search to see more (showing ",
            &text::to_decimal(MAX_VISIBLE as u64),
            " of ",
            &text::to_decimal(count as u64),
            " results)",
        );
        menu::offer(&mut items, "__refine__", &label, "Too many matches");
    } else {
        menu::offer(
            &mut items,
            "__new_search__",
            "Start a new search...",
            "Enter a different search term",
        );
    }
    menu::offer_all(&mut items, &shown, "");
    assert(items.deep_view() =~= result_items(found.deep_view()));
    items
}

impl ModelSelection {
    /// Starts the choice of a model. `known` are the provider's known models.
    pub fn select_model_from_list(models: Vec<String>, known: &Vec<String>) -> (r: (
        Self,
        SelectAction,
    ))
        ensures
            (r.0.deep_view(), r.1.deep_view()) == select_start(
                models.deep_view(),
                known.deep_view(),
            ),
    {
        let few = models.len() <= MAX_MODELS;
        let best = recommended_models(known, &models);
        let mut items: Vec<Item> = Vec::new();
        assert(items.deep_view() =~= Seq::<ItemView>::empty());
        let mut s = ModelSelection { models, query: String::new(), phase: SelectPhase::Few };
        assert(s.query@ =~= Seq::<char>::empty());
        if few {
            menu::offer_all(&mut items, &s.models, "");
            assert(items.deep_view() =~= plain_items(models.deep_view(), ""@));
            (s, SelectAction::Choose(items))
        } else if best.len() > 0 {
            s.phase = SelectPhase::Recommended;
            menu::offer(
                &mut items,
                "search_all",
                "Search all models...",
                "Search complete model list",
            );
            menu::offer_all(&mut items, &best, "Recommended");
            assert(items.deep_view() =~= recommended_items(best.deep_view()));
            (s, SelectAction::Choose(items))
        } else {
            let a = s.search(None);
            (s, a)
        }
    }

    fn search(&mut self, warning: Option<String>) -> (r: SelectAction)
        ensures
            (final(self).deep_view(), r.deep_view()) == ask_query(
                old(self).deep_view(),
                warning.deep_view(),
            ),
    {
        self.phase = SelectPhase::Query;
        let count: usize = self.models.len();
        let info = text::cat3(
            "🔍 ",
            &text::to_decimal(count as u64),
            " models available. Type to filter.",
        );
        SelectAction::Search { warning, info, query: self.query.clone() }
    }

    fn take(&mut self, model: String) -> (r: SelectAction)
        ensures
            (final(self).deep_view(), r.deep_view()) == select_take(old(self).deep_view(), model@),
    {
        self.phase = SelectPhase::Selected;
        SelectAction::Take(model)
    }

    /// Takes the step that an answer leads to.
    pub fn step(&mut self, answer: String) -> (r: SelectAction)
        ensures
            (final(self).deep_view(), r.deep_view()) == select_step(old(self).deep_view(), answer@),
    {
        match self.phase {
            SelectPhase::Few => self.take(answer),
            SelectPhase::Recommended => {
                if text::str_eq(&answer, "search_all") {
                    self.search(None)
                } else {
                    self.take(answer)
                }
            },
            SelectPhase::Query => {
                self.query = text::trim(&answer);
                let found = filter_models(&self.models, &self.query);
                if found.len() == 0 {
                    self.search(Some(text::owned("No matching models. Try a different search.")))
                } else {
                    self.phase = SelectPhase::Results;
                    SelectAction::Choose(offer_results(&found))
                }
            },
            SelectPhase::Results => {
                if text::str_eq(&answer, "__refine__") {
                    self.search(None)
                } else if text::str_eq(&answer, "__new_search__") {
                    let query = String::new();
                    assert(query@ =~= Seq::<char>::empty());
                    self.query = query;
                    self.search(None)
                } else {
                    self.take(answer)
                }
            },
            SelectPhase::Selected => SelectAction::Nothing,
        }
    }
}

proof fn lemma_matching(models: Seq<Seq<char>>, query: Seq<char>, m: Seq<char>)
    ensures
        matching(models, query).contains(m) <==> models.contains(m) && (query.len() == 0
            || occurs_in(lower(m), lower(query))),
    decreases models.len(),
{
    if query.len() > 0 && models.len() > 0 {
        let rest = matching(models.drop_last(), query);
        lemma_matching(models.drop_last(), query, m);
        let all = matching(models, query);
        assert(models.contains(m) <==> models.drop_last().contains(m) || models.last() == m) by {
            if models.contains(m) {
                let i = choose|i: int| 0 <= i < models.len() && models[i] == m;
                if i < models.len() - 1 {
                    assert(models.drop_last()[i] == m);
                }
            }
            if models.drop_last().contains(m) {
                let i = choose|i: int|
                    0 <= i < models.drop_last().len() && models.drop_last()[i] == m;
                assert(models[i] == m);
            }
            assert(models[models.len() - 1] == models.last());
        }
        if occurs_in(lower(models.last()), lower(query)) {
            assert(all == rest.push(models.last()));
            assert(all[rest.len() as int] == models.last());
            if rest.contains(m) {
                let i = choose|i: int| 0 <= i < rest.len() && rest[i] == m;
                assert(all[i] == m);
            }
            if all.contains(m) {
                let i = choose|i: int| 0 <= i < all.len() && all[i] == m;
                if i < rest.len() {
                    assert(rest[i] == m);
                }
            }
        }
    }
}

/// A search finds the models that match, all of them and nothing else.
pub proof fn law_search_finds_matches(
    models: Seq<Seq<char>>,
    query: Seq<char>,
    m: Seq<char>,
)
    ensures
        matching(models, query).contains(m) <==> models.contains(m) && (query.len() == 0
            || occurs_in(lower(m), lower(query))),
{
    lemma_matching(models, query, m);
}

/// What is offered after a search is, behind the first item, a model of the list.
pub proof fn law_results_are_models(models: Seq<Seq<char>>, query: Seq<char>, i: int)
    requires
        1 <= i < result_items(matching(models, query)).len(),
    ensures
        models.contains(result_items(matching(models, query))[i].value),
{
    let found = matching(models, query);
    let m = result_items(found)[i].value;
    assert(m == found[i - 1]);
    lemma_matching(models, query, m);
}

/// What the choice of a provider waits for.
#[derive(Debug, Clone, Copy, PartialEq, Eq, Structural)]
pub enum ProviderPhase {
    Choosing,
    EnvReading,
    EnvConfirming,
    EnvSaving,
    StoredReading,
    UpdateConfirming,
    SigningIn,
    ValueAsking,
    ValueSaving,
    ModelsFetching,
    ModelChoosing,
    ModelTyping,
    Testing,
    Finished,
}

impl DeepView for ProviderPhase {
    type V = ProviderPhase;

    open spec fn deep_view(&self) -> ProviderPhase {
        *self
    }
}

impl Duplicate for ProviderPhase {
    fn duplicate(&self) -> (r: Self) {
        *self
    }
}

/// The dialog in which a provider is chosen.
#[derive(Debug, PartialEq)]
pub struct ConfigureProviderDialog {
    pub providers: Vec<ProviderMetadata>,
    /// The one that was chosen.
    pub provider: ProviderMetadata,
    /// The values that are still to be looked at.
    pub keys: Vec<ConfigKey>,
    pub env_value: String,
    pub model: String,
    pub phase: ProviderPhase,
}

#[verifier::ext_equal]
pub struct ConfigureProviderDialogView {
    pub providers: Seq<ProviderMetadataView>,
    pub provider: ProviderMetadataView,
    pub keys: Seq<ConfigKeyView>,
    pub env_value: Seq<char>,
    pub model: Seq<char>,
    pub phase: ProviderPhase,
}

impl DeepView for ConfigureProviderDialog {
    type V = ConfigureProviderDialogView;

    open spec fn deep_view(&self) -> ConfigureProviderDialogView {
        ConfigureProviderDialogView {
            providers: self.providers.deep_view(),
            provider: self.provider.deep_view(),
            keys: self.keys.deep_view(),
            env_value: self.env_value@,
            model: self.model@,
            phase: self.phase,
        }
    }
}

/// What the outside reports.
#[derive(Debug, PartialEq)]
pub enum ProviderEvent {
    Chosen(String),
    /// What the environment holds.
    Env(Option<String>),
    /// Whether the configuration holds a value.
    Stored(bool),
    Confirmed(bool),
    Text(String),
    Done,
    Models { models: Option<Vec<String>>, env_model: Option<String> },
    FetchFailed(String),
    /// The model, and what the environment says of tools for models that have none.
    ModelChosen { model: String, toolshim: Option<String>, toolshim_model: Option<String> },
    TestFailed(String),
}

#[verifier::ext_equal]
pub enum ProviderEventView {
    Chosen(Seq<char>),
    Env(Option<Seq<char>>),
    Stored(bool),
    Confirmed(bool),
    Text(Seq<char>),
    Done,
    Models { models: Option<Seq<Seq<char>>>, env_model: Option<Seq<char>> },
    FetchFailed(Seq<char>),
    ModelChosen { model: Seq<char>, toolshim: Option<Seq<char>>, toolshim_model: Option<Seq<char>> },
    TestFailed(Seq<char>),
}

impl DeepView for ProviderEvent {
    type V = ProviderEventView;

    open spec fn deep_view(&self) -> ProviderEventView {
        match self {
            ProviderEvent::Chosen(x) => ProviderEventView::Chosen(x@),
            ProviderEvent::Env(x) => ProviderEventView::Env(x.deep_view()),
            ProviderEvent::Stored(x) => ProviderEventView::Stored(*x),
            ProviderEvent::Confirmed(x) => ProviderEventView::Confirmed(*x),
            ProviderEvent::Text(x) => ProviderEventView::Text(x@),
            ProviderEvent::Done => ProviderEventView::Done,
            ProviderEvent::Models { models, env_model } => ProviderEventView::Models {
                models: models.deep_view(),
                env_model: env_model.deep_view(),
            },
            ProviderEvent::FetchFailed(x) => ProviderEventView::FetchFailed(x@),
            ProviderEvent::ModelChosen { model, toolshim, toolshim_model } => ProviderEventView::ModelChosen {
                model: model@,
                toolshim: toolshim.deep_view(),
                toolshim_model: toolshim_model.deep_view(),
            },
            ProviderEvent::TestFailed(x) => ProviderEventView::TestFailed(x@),
        }
    }
}

/// What the dialog asks the outside to do. All actions of a list are performed in
/// order; one that fails ends the dialog with its error, but for fetching the models
/// and the test.
#[derive(Debug, PartialEq)]
pub enum ProviderAction {
    ChooseProvider { items: Vec<Item>, initial: String },
    ReadEnv(String),
    Info(String),
    ConfirmSave,
    ConfirmUpdate,
    SaveValue { key: String, content: String, secret: bool },
    ReadStored { key: String, secret: bool },
    SignIn { provider: String, key: String },
    AskValue { prompt: String, secret: bool, default: Option<String> },
    FetchModels { provider: String, model: String },
    SelectModel { models: Vec<String>, known: Vec<String> },
    AskModel { default_model: String },
    TestModel {
        provider: String,
        model: String,
        max_tokens: u32,
        toolshim: bool,
        toolshim_model: Option<String>,
        tools: Vec<Tool>,
    },
    SetParam { key: String, content: String },
    ReportFailure(String),
    Outro(String),
    Finish(bool),
}

#[verifier::ext_equal]
pub enum ProviderActionView {
    ChooseProvider { items: Seq<ItemView>, initial: Seq<char> },
    ReadEnv(Seq<char>),
    Info(Seq<char>),
    ConfirmSave,
    ConfirmUpdate,
    SaveValue { key: Seq<char>, content: Seq<char>, secret: bool },
    ReadStored { key: Seq<char>, secret: bool },
    SignIn { provider: Seq<char>, key: Seq<char> },
    AskValue { prompt: Seq<char>, secret: bool, default: Option<Seq<char>> },
    FetchModels { provider: Seq<char>, model: Seq<char> },
    SelectModel { models: Seq<Seq<char>>, known: Seq<Seq<char>> },
    AskModel { default_model: Seq<char> },
    TestModel {
        provider: Seq<char>,
        model: Seq<char>,
        max_tokens: u32,
        toolshim: bool,
        toolshim_model: Option<Seq<char>>,
        tools: Seq<ToolView>,
    },
    SetParam { key: Seq<char>, content: Seq<char> },
    ReportFailure(Seq<char>),
    Outro(Seq<char>),
    Finish(bool),
}

impl DeepView for ProviderAction {
    type V = ProviderActionView;

    open spec fn deep_view(&self) -> ProviderActionView {
        match self {
            ProviderAction::ChooseProvider { items, initial } => ProviderActionView::ChooseProvider {
                items: items.deep_view(),
                initial: initial@,
            },
            ProviderAction::ReadEnv(x) => ProviderActionView::ReadEnv(x@),
            ProviderAction::Info(x) => ProviderActionView::Info(x@),
            ProviderAction::ConfirmSave => ProviderActionView::ConfirmSave,
            ProviderAction::ConfirmUpdate => ProviderActionView::ConfirmUpdate,
            ProviderAction::SaveValue { key, content, secret } => ProviderActionView::SaveValue {
                key: key@,
                content: content@,
                secret: *secret,
            },
            ProviderAction::ReadStored { key, secret } => ProviderActionView::ReadStored {
                key: key@,
                secret: *secret,
            },
            ProviderAction::SignIn { provider, key } => ProviderActionView::SignIn {
                provider: provider@,
                key: key@,
            },
            ProviderAction::AskValue { prompt, secret, default } => ProviderActionView::AskValue {
                prompt: prompt@,
                secret: *secret,
                default: default.deep_view(),
            },
            ProviderAction::FetchModels { provider, model } => ProviderActionView::FetchModels {
                provider: provider@,
                model: model@,
            },
            ProviderAction::SelectModel { models, known } => ProviderActionView::SelectModel {
                models: models.deep_view(),
                known: known.deep_view(),
            },
            ProviderAction::AskModel { default_model } => ProviderActionView::AskModel {
                default_model: default_model@,
            },
            ProviderAction::TestModel { provider, model, max_tokens, toolshim, toolshim_model, tools } => ProviderActionView::TestModel {
                provider: provider@,
                model: model@,
                max_tokens: *max_tokens,
                toolshim: *toolshim,
                toolshim_model: toolshim_model.deep_view(),
                tools: tools.deep_view(),
            },
            ProviderAction::SetParam { key, content } => ProviderActionView::SetParam {
                key: key@,
                content: content@,
            },
            ProviderAction::ReportFailure(x) => ProviderActionView::ReportFailure(x@),
            ProviderAction::Outro(x) => ProviderActionView::Outro(x@),
            ProviderAction::Finish(x) => ProviderActionView::Finish(*x),
        }
    }
}

/// A state and the actions that lead on from it.
pub type ProviderStep = (ConfigureProviderDialogView, Seq<ProviderActionView>);

/// The providers, by the names that are shown.
pub open spec fn named_providers(list: Seq<ProviderMetadataView>) -> Seq<
    (Seq<char>, ProviderMetadataView),
> {
    list.map_values(|p: ProviderMetadataView| (p.display_name, p))
}

/// The providers in the order of the names that are shown.
pub open spec fn ordered_providers(list: Seq<ProviderMetadataView>) -> Seq<ProviderMetadataView> {
    crate::assoc::values(sorted(named_providers(list)))
}

pub open spec fn provider_items(list: Seq<ProviderMetadataView>) -> Seq<ItemView> {
    list.map_values(|p: ProviderMetadataView| item(p.name, p.display_name, p.description))
}

/// The first provider of a name.
pub open spec fn provider_named(
    list: Seq<ProviderMetadataView>,
    name: Seq<char>,
) -> Option<ProviderMetadataView>
    decreases list.len(),
{
    if list.len() == 0 {
        None
    } else if list[0].name == name {
        Some(list[0])
    } else {
        provider_named(list.drop_first(), name)
    }
}

/// The values that have to be there.
pub open spec fn required_keys(keys: Seq<ConfigKeyView>) -> Seq<ConfigKeyView>
    decreases keys.len(),
{
    if keys.len() == 0 {
        keys
    } else if keys.last().required {
        required_keys(keys.drop_last()).push(keys.last())
    } else {
        required_keys(keys.drop_last())
    }
}

pub open spec fn no_provider() -> ProviderMetadataView {
    ProviderMetadataView {
        name: Seq::empty(),
        display_name: Seq::empty(),
        description: Seq::empty(),
        default_model: Seq::empty(),
        known_models: Seq::empty(),
        config_keys: Seq::empty(),
    }
}

/// The start: the providers are offered in order, the current one first chosen.
pub open spec fn provider_start(
    list: Seq<ProviderMetadataView>,
    current: Option<Seq<char>>,
) -> ProviderStep {
    let providers = ordered_providers(list);
    (
        ConfigureProviderDialogView {
            providers,
            provider: no_provider(),
            keys: Seq::empty(),
            env_value: Seq::empty(),
            model: Seq::empty(),
            phase: ProviderPhase::Choosing,
        },
        seq![
            ProviderActionView::ChooseProvider {
                items: provider_items(providers),
                initial: match current {
                    Some(p) => p,
                    None => Seq::empty(),
                },
            },
        ],
    )
}

pub open spec fn provider_wait(
    s: ConfigureProviderDialogView,
    a: Seq<ProviderActionView>,
    phase: ProviderPhase,
    action: ProviderActionView,
) -> ProviderStep {
    (ConfigureProviderDialogView { phase, ..s }, a.push(action))
}

/// The first of the remaining values is looked at, or the models are fetched.
pub open spec fn next_key(
    s: ConfigureProviderDialogView,
    a: Seq<ProviderActionView>,
) -> ProviderStep {
    if s.keys.len() == 0 {
        provider_wait(
            s,
            a,
            ProviderPhase::ModelsFetching,
            ProviderActionView::FetchModels {
                provider: s.provider.name,
                model: s.provider.default_model,
            },
        )
    } else {
        provider_wait(
            s,
            a,
            ProviderPhase::EnvReading,
            ProviderActionView::ReadEnv(s.keys[0].name),
        )
    }
}

pub open spec fn key_done(s: ConfigureProviderDialogView) -> ConfigureProviderDialogView {
    ConfigureProviderDialogView { keys: s.keys.drop_first(), ..s }
}

/// A value is had by signing in, or is asked for.
pub open spec fn enter_value(s: ConfigureProviderDialogView, prompt: Seq<char>) -> ProviderStep {
    let key = s.keys[0];
    let none = Seq::<ProviderActionView>::empty();
    if key.oauth_flow {
        provider_wait(
            s,
            none,
            ProviderPhase::SigningIn,
            ProviderActionView::SignIn { provider: s.provider.name, key: key.name },
        )
    } else {
        provider_wait(
            s,
            none,
            ProviderPhase::ValueAsking,
            ProviderActionView::AskValue {
                prompt,
                secret: key.secret,
                default: if key.secret {
                    None
                } else {
                    key.default
                },
            },
        )
    }
}

pub open spec fn update_prompt(key: Seq<char>) -> Seq<char> {
    "Enter new value for "@ + key
}

pub open spec fn require_prompt(display_name: Seq<char>, key: Seq<char>) -> Seq<char> {
    "Provider "@ + display_name + " requires "@ + key + ", please enter a value"@
}

/// The parameters of the tool that a test offers.
pub open spec fn weather_schema() -> Seq<(Seq<char>, JsonView)> {
    seq![
        ("type"@, JsonView::Text("object"@)),
        ("required"@, JsonView::Array(seq![JsonView::Text("location"@)])),
        (
            "properties"@,
            JsonView::Object(
                seq![
                    ("location"@, JsonView::Object(seq![("type"@, JsonView::Text("string"@))])),
                ],
            ),
        ),
    ]
}

/// The tool that a test offers.
pub open spec fn weather_tool() -> ToolView {
    ToolView::described(
        "get_weather"@,
        "Get current temperature for a given location."@,
        weather_schema(),
        "Get weather"@,
        true,
    )
}

/// Whether the environment asks for tools for models that have none.
pub open spec fn toolshim_on(setting: Option<Seq<char>>) -> bool {
    match setting {
        Some(v) => v == "1"@ || lower(v) == "true"@,
        None => false,
    }
}

/// The step that an event leads to. An event that the phase does not wait for
/// changes nothing.
pub open spec fn provider_step(
    s: ConfigureProviderDialogView,
    e: ProviderEventView,
) -> ProviderStep {
    let none = Seq::<ProviderActionView>::empty();
    match (s.phase, e) {
        (ProviderPhase::Choosing, ProviderEventView::Chosen(name)) => match provider_named(
            s.providers,
            name,
        ) {
            Some(provider) => next_key(
                ConfigureProviderDialogView {
                    provider,
                    keys: required_keys(provider.config_keys),
                    ..s
                },
                none,
            ),
            None => (s, none),
        },
        (ProviderPhase::EnvReading, ProviderEventView::Env(found)) => if s.keys.len() == 0 {
            (s, none)
        } else {
            match found {
                Some(v) => provider_wait(
                    ConfigureProviderDialogView { env_value: v, ..s },
                    seq![
                        ProviderActionView::Info(
                            s.keys[0].name + " is set via environment variable"@,
                        ),
                    ],
                    ProviderPhase::EnvConfirming,
                    ProviderActionView::ConfirmSave,
                ),
                None => provider_wait(
                    s,
                    none,
                    ProviderPhase::StoredReading,
                    ProviderActionView::ReadStored {
                        key: s.keys[0].name,
                        secret: s.keys[0].secret,
                    },
                ),
            }
        },
        (ProviderPhase::EnvConfirming, ProviderEventView::Confirmed(yes)) => if s.keys.len() == 0 {
            (s, none)
        } else if yes {
            provider_wait(
                s,
                none,
                ProviderPhase::EnvSaving,
                ProviderActionView::SaveValue {
                    key: s.keys[0].name,
                    content: s.env_value,
                    secret: s.keys[0].secret,
                },
            )
        } else {
            next_key(key_done(s), none)
        },
        (ProviderPhase::EnvSaving, ProviderEventView::Done) => if s.keys.len() == 0 {
            (s, none)
        } else {
            next_key(
                key_done(s),
                seq![
                    ProviderActionView::Info("Saved "@ + s.keys[0].name + " to config file"@),
                ],
            )
        },
        (ProviderPhase::StoredReading, ProviderEventView::Stored(found)) => if s.keys.len() == 0 {
            (s, none)
        } else if found {
            provider_wait(
                s,
                seq![ProviderActionView::Info(s.keys[0].name + " is already configured"@)],
                ProviderPhase::UpdateConfirming,
                ProviderActionView::ConfirmUpdate,
            )
        } else {
            enter_value(s, require_prompt(s.provider.display_name, s.keys[0].name))
        },
        (ProviderPhase::UpdateConfirming, ProviderEventView::Confirmed(yes)) => if s.keys.len()
            == 0 {
            (s, none)
        } else if yes {
            enter_value(s, update_prompt(s.keys[0].name))
        } else {
            next_key(key_done(s), none)
        },
        (ProviderPhase::SigningIn, ProviderEventView::Done) => if s.keys.len() == 0 {
            (s, none)
        } else {
            next_key(key_done(s), none)
        },
        (ProviderPhase::ValueAsking, ProviderEventView::Text(v)) => if s.keys.len() == 0 {
            (s, none)
        } else {
            provider_wait(
                s,
                none,
                ProviderPhase::ValueSaving,
                ProviderActionView::SaveValue {
                    key: s.keys[0].name,
                    content: v,
                    secret: s.keys[0].secret,
                },
            )
        },
        (ProviderPhase::ValueSaving, ProviderEventView::Done) => if s.keys.len() == 0 {
            (s, none)
        } else {
            next_key(key_done(s), none)
        },
        (ProviderPhase::ModelsFetching, ProviderEventView::Models { models, env_model }) => {
            match models {
                Some(list) => provider_wait(
                    s,
                    none,
                    ProviderPhase::ModelChoosing,
                    ProviderActionView::SelectModel {
                        models: list,
                        known: s.provider.known_models,
                    },
                ),
                None => provider_wait(
                    s,
                    none,
                    ProviderPhase::ModelTyping,
                    ProviderActionView::AskModel {
                        default_model: match env_model {
                            Some(m) => m,
                            None => s.provider.default_model,
                        },
                    },
                ),
            }
        },
        (ProviderPhase::ModelsFetching, ProviderEventView::FetchFailed(e)) => provider_wait(
            s,
            seq![ProviderActionView::Outro(e)],
            ProviderPhase::Finished,
            ProviderActionView::Finish(false),
        ),
        (
            ProviderPhase::ModelChoosing,
            ProviderEventView::ModelChosen { model, toolshim, toolshim_model },
        ) => test_model(s, model, toolshim, toolshim_model),
        (
            ProviderPhase::ModelTyping,
            ProviderEventView::ModelChosen { model, toolshim, toolshim_model },
        ) => test_model(s, model, toolshim, toolshim_model),
        (ProviderPhase::Testing, ProviderEventView::Done) => provider_wait(
            s,
            seq![
                ProviderActionView::SetParam { key: "GOOSE_PROVIDER"@, content: s.provider.name },
                ProviderActionView::SetParam { key: "GOOSE_MODEL"@, content: s.model },
                ProviderActionView::Outro("Configuration saved successfully"@),
            ],
            ProviderPhase::Finished,
            ProviderActionView::Finish(true),
        ),
        (ProviderPhase::Testing, ProviderEventView::TestFailed(e)) => provider_wait(
            s,
            seq![
                ProviderActionView::ReportFailure(e),
                ProviderActionView::Outro(
                    "Failed to configure provider: init chat completion request with tool did not succeed."@,
                ),
            ],
            ProviderPhase::Finished,
            ProviderActionView::Finish(false),
        ),
        _ => (s, none),
    }
}

/// A model is tested with a tool, unless tools are made up for it.
pub open spec fn test_model(
    s: ConfigureProviderDialogView,
    model: Seq<char>,
    toolshim: Option<Seq<char>>,
    toolshim_model: Option<Seq<char>>,
) -> ProviderStep {
    provider_wait(
        ConfigureProviderDialogView { model, ..s },
        Seq::empty(),
        ProviderPhase::Testing,
        ProviderActionView::TestModel {
            provider: s.provider.name,
            model,
            max_tokens: 50,
            toolshim: toolshim_on(toolshim),
            toolshim_model,
            tools: if toolshim_on(toolshim) {
                Seq::empty()
            } else {
                seq![weather_tool()]
            },
        },
    )
}

fn order_providers(list: &Vec<ProviderMetadata>) -> (r: Vec<ProviderMetadata>)
    ensures
        r.deep_view() == ordered_providers(list.deep_view()),
{
    let mut named: Vec<(String, ProviderMetadata)> = Vec::new();
    let mut i: usize = 0;
    while i < list.len()
        invariant
            i <= list@.len(),
            named.deep_view() == named_providers(list.deep_view()).take(i as int),
        decreases list@.len() - i,
    {
        base::push(&mut named, (list[i].display_name.clone(), list[i].duplicate()));
        assert(named.deep_view() =~= named_providers(list.deep_view()).take(i + 1));
        i = i + 1;
    }
    assert(named.deep_view() =~= named_providers(list.deep_view()));
    let ordered = text_split::sort_by_name(named);
    crate::assoc::value_list(&ordered)
}

fn offer_providers(list: &Vec<ProviderMetadata>) -> (r: Vec<Item>)
    ensures
        r.deep_view() == provider_items(list.deep_view()),
{
    let mut items: Vec<Item> = Vec::new();
    let mut i: usize = 0;
    while i < list.len()
        invariant
            i <= list@.len(),
            items.deep_view() == provider_items(list.deep_view()).take(i as int),
        decreases list@.len() - i,
    {
        menu::offer(&mut items, &list[i].name, &list[i].display_name, &list[i].description);
        assert(items.deep_view() =~= provider_items(list.deep_view()).take(i + 1));
        i = i + 1;
    }
    assert(items.deep_view() =~= provider_items(list.deep_view()));
    items
}

fn find_provider(list: &Vec<ProviderMetadata>, name: &str) -> (r: Option<ProviderMetadata>)
    ensures
        r.deep_view() == provider_named(list.deep_view(), name@),
{
    let ghost all = list.deep_view();
    let mut i: usize = 0;
    assert(all.skip(0) =~= all);
    while i < list.len()
        invariant
            i <= list@.len(),
            all == list.deep_view(),
            provider_named(all, name@) == provider_named(all.skip(i as int), name@),
        decreases list@.len() - i,
    {
        assert(all.skip(i as int).drop_first() =~= all.skip(i + 1));
        if text::str_eq(&list[i].name, name) {
            return Some(list[i].duplicate());
        }
        i = i + 1;
    }
    None
}

fn keep_required(keys: &Vec<ConfigKey>) -> (r: Vec<ConfigKey>)
    ensures
        r.deep_view() == required_keys(keys.deep_view()),
{
    let mut out: Vec<ConfigKey> = Vec::new();
    let ghost all = keys.deep_view();
    let mut i: usize = 0;
    assert(out.deep_view() =~= required_keys(all.take(0)));
    while i < keys.len()
        invariant
            i <= keys@.len(),
            all == keys.deep_view(),
            out.deep_view() == required_keys(all.take(i as int)),
        decreases keys@.len() - i,
    {
        assert(all.take(i + 1).drop_last() =~= all.take(i as int));
        if keys[i].required {
            base::push(&mut out, keys[i].duplicate());
        }
        i = i + 1;
    }
    assert(all.take(all.len() as int) =~= all);
    out
}

/// The tool that a test offers.
pub fn sample_tool() -> (r: Tool)
    ensures
        r.deep_view() == weather_tool(),
{
    let mut place: Vec<(String, Json)> = Vec::new();
    json::add_field(&mut place, "type", json::text_value("string"));
    assert(place.deep_view() =~= seq![("type"@, JsonView::Text("string"@))]);
    let mut properties: Vec<(String, Json)> = Vec::new();
    json::add_field(&mut properties, "location", json::object_value(place));
    assert(properties.deep_view() =~= seq![
        ("location"@, JsonView::Object(seq![("type"@, JsonView::Text("string"@))])),
    ]);
    let required = base::single(json::text_value("location"));
    assert(required.deep_view() =~= seq![JsonView::Text("location"@)]);
    let mut schema: Vec<(String, Json)> = Vec::new();
    json::add_field(&mut schema, "type", json::text_value("object"));
    json::add_field(&mut schema, "required", json::array_value(required));
    json::add_field(&mut schema, "properties", json::object_value(properties));
    assert(schema.deep_view() =~= weather_schema());
    Tool::described(
        "get_weather",
        "Get current temperature for a given location.",
        schema,
        "Get weather",
        true,
    )
}

fn no_actions() -> (r: Vec<ProviderAction>)
    ensures
        r.deep_view() == Seq::<ProviderActionView>::empty(),
{
    let out: Vec<ProviderAction> = Vec::new();
    assert(out.deep_view() =~= Seq::<ProviderActionView>::empty());
    out
}

fn one_action(a: ProviderAction) -> (r: Vec<ProviderAction>)
    ensures
        r.deep_view() == seq![a.deep_view()],
{
    let out = base::single(a);
    assert(out.deep_view() =~= seq![a.deep_view()]);
    out
}

impl ConfigureProviderDialog {
    /// Starts the choice of a provider. `current` is the one that is configured.
    pub fn start(list: &Vec<ProviderMetadata>, current: Option<String>) -> (r: (
        Self,
        Vec<ProviderAction>,
    ))
        ensures
            (r.0.deep_view(), r.1.deep_view()) == provider_start(
                list.deep_view(),
                current.deep_view(),
            ),
    {
        let providers = order_providers(list);
        let items = offer_providers(&providers);
        let initial = match current {
            Some(p) => p,
            None => String::new(),
        };
        assert(initial@ =~= match current.deep_view() {
            Some(p) => p,
            None => Seq::empty(),
        });
        let s = ConfigureProviderDialog {
            providers,
            provider: ProviderMetadata {
                name: String::new(),
                display_name: String::new(),
                description: String::new(),
                default_model: String::new(),
                known_models: Vec::new(),
                config_keys: Vec::new(),
            },
            keys: Vec::new(),
            env_value: String::new(),
            model: String::new(),
            phase: ProviderPhase::Choosing,
        };
        assert(s.deep_view().provider =~= no_provider());
        assert(s.deep_view() =~= provider_start(list.deep_view(), current.deep_view()).0);
        (s, one_action(ProviderAction::ChooseProvider { items, initial }))
    }

    fn wait(&mut self, mut out: Vec<ProviderAction>, phase: ProviderPhase, action: ProviderAction)
        -> (r: Vec<ProviderAction>)
        ensures
            (final(self).deep_view(), r.deep_view()) == provider_wait(
                old(self).deep_view(),
                out.deep_view(),
                phase,
                action.deep_view(),
            ),
    {
        self.phase = phase;
        base::push(&mut out, action);
        out
    }

    fn next_key(&mut self, out: Vec<ProviderAction>) -> (r: Vec<ProviderAction>)
        ensures
            (final(self).deep_view(), r.deep_view()) == next_key(
                old(self).deep_view(),
                out.deep_view(),
            ),
    {
        if self.keys.len() == 0 {
            let a = ProviderAction::FetchModels {
                provider: self.provider.name.clone(),
                model: self.provider.default_model.clone(),
            };
            self.wait(out, ProviderPhase::ModelsFetching, a)
        } else {
            let a = ProviderAction::ReadEnv(self.keys[0].name.clone());
            self.wait(out, ProviderPhase::EnvReading, a)
        }
    }

    fn drop_key(&mut self)
        requires
            old(self).keys@.len() > 0,
        ensures
            final(self).deep_view() == key_done(old(self).deep_view()),
    {
        let ghost k = self.keys.deep_view();
        let _ = self.keys.remove(0);
        assert(self.keys.deep_view() =~= k.drop_first());
    }

    fn enter_value(&mut self, prompt: String) -> (r: Vec<ProviderAction>)
        requires
            old(self).keys@.len() > 0,
        ensures
            (final(self).deep_view(), r.deep_view()) == enter_value(
                old(self).deep_view(),
                prompt@,
            ),
    {
        let key = self.keys[0].duplicate();
        if key.oauth_flow {
            let a = ProviderAction::SignIn {
                provider: self.provider.name.clone(),
                key: key.name,
            };
            self.wait(no_actions(), ProviderPhase::SigningIn, a)
        } else {
            let default = if key.secret {
                None
            } else {
                key.default
            };
            let a = ProviderAction::AskValue { prompt, secret: key.secret, default };
            self.wait(no_actions(), ProviderPhase::ValueAsking, a)
        }
    }

    fn choose_provider(&mut self, name: &str) -> (r: Vec<ProviderAction>)
        requires
            old(self).phase == ProviderPhase::Choosing,
        ensures
            (final(self).deep_view(), r.deep_view()) == provider_step(
                old(self).deep_view(),
                ProviderEventView::Chosen(name@),
            ),
    {
        match find_provider(&self.providers, name) {
            Some(p) => {
                self.keys = keep_required(&p.config_keys);
                self.provider = p;
                self.next_key(no_actions())
            },
            None => no_actions(),
        }
    }

    /// The steps of the first of the remaining values.
    fn key_step(&mut self, event: ProviderEvent) -> (r: Vec<ProviderAction>)
        requires
            old(self).keys@.len() > 0,
            old(self).phase == ProviderPhase::EnvReading || old(self).phase
                == ProviderPhase::EnvConfirming || old(self).phase == ProviderPhase::EnvSaving
                || old(self).phase == ProviderPhase::StoredReading || old(self).phase
                == ProviderPhase::UpdateConfirming || old(self).phase == ProviderPhase::SigningIn
                || old(self).phase == ProviderPhase::ValueAsking || old(self).phase
                == ProviderPhase::ValueSaving,
        ensures
            (final(self).deep_view(), r.deep_view()) == provider_step(
                old(self).deep_view(),
                event.deep_view(),
            ),
    {
        let name = self.keys[0].name.clone();
        let secret = self.keys[0].secret;
        match (self.phase, event) {
            (ProviderPhase::EnvReading, ProviderEvent::Env(Some(v))) => {
                self.env_value = v;
                let out = one_action(
                    ProviderAction::Info(text::cat(&name, " is set via environment variable")),
                );
                self.wait(out, ProviderPhase::EnvConfirming, ProviderAction::ConfirmSave)
            },
            (ProviderPhase::EnvReading, ProviderEvent::Env(None)) => {
                let a = ProviderAction::ReadStored { key: name, secret };
                self.wait(no_actions(), ProviderPhase::StoredReading, a)
            },
            (ProviderPhase::EnvConfirming, ProviderEvent::Confirmed(yes)) => {
                if yes {
                    let content = self.env_value.clone();
                    let a = ProviderAction::SaveValue { key: name, content, secret };
                    self.wait(no_actions(), ProviderPhase::EnvSaving, a)
                } else {
                    self.drop_key();
                    self.next_key(no_actions())
                }
            },
            (ProviderPhase::EnvSaving, ProviderEvent::Done) => {
                self.drop_key();
                let saved = text::cat3("Saved ", &name, " to config file");
                self.next_key(one_action(ProviderAction::Info(saved)))
            },
            (ProviderPhase::StoredReading, ProviderEvent::Stored(found)) => {
                if found {
                    let out = one_action(
                        ProviderAction::Info(text::cat(&name, " is already configured")),
                    );
                    self.wait(out, ProviderPhase::UpdateConfirming, ProviderAction::ConfirmUpdate)
                } else {
                    let prompt = text::cat5(
                        "Provider ",
                        &self.provider.display_name,
                        " requires ",
                        &name,
                        ", please enter a value",
                    );
                    self.enter_value(prompt)
                }
            },
            (ProviderPhase::UpdateConfirming, ProviderEvent::Confirmed(yes)) => {
                if yes {
                    self.enter_value(text::cat("Enter new value for ", &name))
                } else {
                    self.drop_key();
                    self.next_key(no_actions())
                }
            },
            (ProviderPhase::SigningIn, ProviderEvent::Done) | (
                ProviderPhase::ValueSaving,
                ProviderEvent::Done,
            ) => {
                self.drop_key();
                self.next_key(no_actions())
            },
            (ProviderPhase::ValueAsking, ProviderEvent::Text(v)) => {
                let a = ProviderAction::SaveValue { key: name, content: v, secret };
                self.wait(no_actions(), ProviderPhase::ValueSaving, a)
            },
            _ => no_actions(),
        }
    }

    fn test_model(
        &mut self,
        model: String,
        toolshim: Option<String>,
        toolshim_model: Option<String>,
    ) -> (r: Vec<ProviderAction>)
        ensures
            (final(self).deep_view(), r.deep_view()) == test_model(
                old(self).deep_view(),
                model@,
                toolshim.deep_view(),
                toolshim_model.deep_view(),
            ),
    {
        let on = match toolshim {
            Some(v) => text::str_eq(&v, "1") || text::str_eq(&text::to_lowercase(&v), "true"),
            None => false,
        };
        let tools = if on {
            Vec::new()
        } else {
            base::single(sample_tool())
        };
        assert(tools.deep_view() =~= if on {
            Seq::empty()
        } else {
            seq![weather_tool()]
        });
        let a = ProviderAction::TestModel {
            provider: self.provider.name.clone(),
            model: model.clone(),
            max_tokens: 50,
            toolshim: on,
            toolshim_model,
            tools,
        };
        self.model = model;
        self.wait(no_actions(), ProviderPhase::Testing, a)
    }

    fn tested(&mut self) -> (r: Vec<ProviderAction>)
        requires
            old(self).phase == ProviderPhase::Testing,
        ensures
            (final(self).deep_view(), r.deep_view()) == provider_step(
                old(self).deep_view(),
                ProviderEventView::Done,
            ),
    {
        let mut out = one_action(
            ProviderAction::SetParam {
                key: text::owned("GOOSE_PROVIDER"),
                content: self.provider.name.clone(),
            },
        );
        base::push(
            &mut out,
            ProviderAction::SetParam {
                key: text::owned("GOOSE_MODEL"),
                content: self.model.clone(),
            },
        );
        base::push(
            &mut out,
            ProviderAction::Outro(text::owned("Configuration saved successfully")),
        );
        assert(out.deep_view() =~= seq![
            ProviderActionView::SetParam {
                key: "GOOSE_PROVIDER"@,
                content: self.deep_view().provider.name,
            },
            ProviderActionView::SetParam { key: "GOOSE_MODEL"@, content: self.deep_view().model },
            ProviderActionView::Outro("Configuration saved successfully"@),
        ]);
        self.wait(out, ProviderPhase::Finished, ProviderAction::Finish(true))
    }

    fn test_failed(&mut self, e: String) -> (r: Vec<ProviderAction>)
        requires
            old(self).phase == ProviderPhase::Testing,
        ensures
            (final(self).deep_view(), r.deep_view()) == provider_step(
                old(self).deep_view(),
                ProviderEventView::TestFailed(e@),
            ),
    {
        let mut out = one_action(ProviderAction::ReportFailure(e));
        base::push(
            &mut out,
            ProviderAction::Outro(
                text::owned(
                    "Failed to configure provider: init chat completion request with tool did not succeed.",
                ),
            ),
        );
        assert(out.deep_view() =~= seq![
            ProviderActionView::ReportFailure(e@),
            ProviderActionView::Outro(
                "Failed to configure provider: init chat completion request with tool did not succeed."@,
            ),
        ]);
        self.wait(out, ProviderPhase::Finished, ProviderAction::Finish(false))
    }

    /// Takes the step that an event leads to.
    pub fn step(&mut self, event: ProviderEvent) -> (r: Vec<ProviderAction>)
        ensures
            (final(self).deep_view(), r.deep_view()) == provider_step(
                old(self).deep_view(),
                event.deep_view(),
            ),
    {
        match self.phase {
            ProviderPhase::EnvReading | ProviderPhase::EnvConfirming | ProviderPhase::EnvSaving
            | ProviderPhase::StoredReading | ProviderPhase::UpdateConfirming
            | ProviderPhase::SigningIn | ProviderPhase::ValueAsking
            | ProviderPhase::ValueSaving => {
                if self.keys.len() == 0 {
                    return no_actions();
                }
                return self.key_step(event);
            },
            _ => {},
        }
        match (self.phase, event) {
            (ProviderPhase::Choosing, ProviderEvent::Chosen(name)) => self.choose_provider(&name),
            (ProviderPhase::ModelsFetching, ProviderEvent::Models { models, env_model }) => {
                match models {
                    Some(models) => {
                        let known = self.provider.known_models.duplicate();
                        let a = ProviderAction::SelectModel { models, known };
                        self.wait(no_actions(), ProviderPhase::ModelChoosing, a)
                    },
                    None => {
                        let default_model = match env_model {
                            Some(m) => m,
                            None => self.provider.default_model.clone(),
                        };
                        let a = ProviderAction::AskModel { default_model };
                        self.wait(no_actions(), ProviderPhase::ModelTyping, a)
                    },
                }
            },
            (ProviderPhase::ModelsFetching, ProviderEvent::FetchFailed(e)) => {
                let out = one_action(ProviderAction::Outro(e));
                self.wait(out, ProviderPhase::Finished, ProviderAction::Finish(false))
            },
            (
                ProviderPhase::ModelChoosing,
                ProviderEvent::ModelChosen { model, toolshim, toolshim_model },
            ) => self.test_model(model, toolshim, toolshim_model),
            (
                ProviderPhase::ModelTyping,
                ProviderEvent::ModelChosen { model, toolshim, toolshim_model },
            ) => self.test_model(model, toolshim, toolshim_model),
            (ProviderPhase::Testing, ProviderEvent::Done) => self.tested(),
            (ProviderPhase::Testing, ProviderEvent::TestFailed(e)) => self.test_failed(e),
            _ => no_actions(),
        }
    }
}

/// The provider and the model are configured only after the test has passed, and
/// they are the ones that were tested.
pub proof fn law_only_tested_is_saved(s: ConfigureProviderDialogView, e: ProviderEventView, i: int)
    requires
        0 <= i < provider_step(s, e).1.len(),
        provider_step(s, e).1[i] is SetParam,
    ensures
        s.phase == ProviderPhase::Testing,
        e is Done,
        provider_step(s, e).1[i] == (ProviderActionView::SetParam {
            key: "GOOSE_PROVIDER"@,
            content: s.provider.name,
        }) || provider_step(s, e).1[i] == (ProviderActionView::SetParam {
            key: "GOOSE_MODEL"@,
            content: s.model,
        }),
{
}

proof fn lemma_required(keys: Seq<ConfigKeyView>)
    ensures
        forall|i: int|
            0 <= i < required_keys(keys).len() ==> (#[trigger] required_keys(keys)[i]).required,
    decreases keys.len(),
{
    if keys.len() > 0 {
        lemma_required(keys.drop_last());
    }
}

/// Only values that have to be there are looked at, whatever happens.
pub proof fn law_only_required_are_asked(s: ConfigureProviderDialogView, e: ProviderEventView)
    requires
        forall|i: int| 0 <= i < s.keys.len() ==> (#[trigger] s.keys[i]).required,
    ensures
        forall|i: int|
            0 <= i < provider_step(s, e).0.keys.len() ==> (
            #[trigger] provider_step(s, e).0.keys[i]).required,
{
    match (s.phase, e) {
        (ProviderPhase::Choosing, ProviderEventView::Chosen(name)) => {
            if let Some(p) = provider_named(s.providers, name) {
                lemma_required(p.config_keys);
            }
        },
        _ => {},
    }
}

/// A value that is a secret is saved as one.
pub proof fn law_secrets_stay_secret(s: ConfigureProviderDialogView, e: ProviderEventView, i: int)
    requires
        0 <= i < provider_step(s, e).1.len(),
    ensures
        provider_step(s, e).1[i] matches ProviderActionView::SaveValue { key, content, secret }
            ==> s.keys.len() > 0 && key == s.keys[0].name && secret == s.keys[0].secret,
{
}

} // verus!
