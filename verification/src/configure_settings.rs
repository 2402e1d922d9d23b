//! How a user changes settings, and what a tool may do.
use crate::base::{self, Duplicate};
use crate::config_extensions::{
    self, config_named, enabled_configs, ExtensionsMap, ExtensionsView,
};
use crate::dispatch::{self, tool_infos};
use crate::extension::{
    ExtensionConfig, ExtensionConfigView, PermissionLevel, ToolInfo, ToolInfoView,
};
use crate::menu::{
    self, item, plain_items, text_change, Item, ItemView, SettingChange, SettingChangeView,
    SettingValue, SettingValueView,
};
use crate::permission_judge::{PermissionManager, PermissionsView};
use crate::reply::DEFAULT_MAX_TURNS;
use crate::session_builder::{self, names_of};
use crate::text::{self, trimmed};
use crate::text_list::{self, in_text_order};
use crate::text_split::{self, parsed_number, pieces};
use crate::tool::{Tool, ToolView};
use vstd::prelude::*;
use vstd::string::*;

verus! {

/// The setting for the repository with recipes.
pub const RECIPE_REPO_KEY: &'static str = "GOOSE_RECIPE_GITHUB_REPO";

/// The settings that can be changed.
#[derive(Debug, Clone, Copy, PartialEq, Eq, Structural)]
pub enum SettingKind {
    GooseMode,
    RouterStrategy,
    ToolPermission,
    ToolOutput,
    MaxTurns,
    Experiment,
    Recipe,
    Scheduler,
}

impl DeepView for SettingKind {
    type V = SettingKind;

    open spec fn deep_view(&self) -> SettingKind {
        *self
    }
}

impl Duplicate for SettingKind {
    fn duplicate(&self) -> (r: Self) {
        *self
    }
}

/// The setting that a choice names.
pub open spec fn setting_named(choice: Seq<char>) -> Option<SettingKind> {
    if choice == "goose_mode"@ {
        Some(SettingKind::GooseMode)
    } else if choice == "goose_router_strategy"@ {
        Some(SettingKind::RouterStrategy)
    } else if choice == "tool_permission"@ {
        Some(SettingKind::ToolPermission)
    } else if choice == "tool_output"@ {
        Some(SettingKind::ToolOutput)
    } else if choice == "max_turns"@ {
        Some(SettingKind::MaxTurns)
    } else if choice == "experiment"@ {
        Some(SettingKind::Experiment)
    } else if choice == "recipe"@ {
        Some(SettingKind::Recipe)
    } else if choice == "scheduler"@ {
        Some(SettingKind::Scheduler)
    } else {
        None
    }
}

/// The setting that a choice names.
pub fn configure_settings_dialog(choice: &str) -> (r: Option<SettingKind>)
    ensures
        r == setting_named(choice@),
{
    if text::str_eq(choice, "goose_mode") {
        Some(SettingKind::GooseMode)
    } else if text::str_eq(choice, "goose_router_strategy") {
        Some(SettingKind::RouterStrategy)
    } else if text::str_eq(choice, "tool_permission") {
        Some(SettingKind::ToolPermission)
    } else if text::str_eq(choice, "tool_output") {
        Some(SettingKind::ToolOutput)
    } else if text::str_eq(choice, "max_turns") {
        Some(SettingKind::MaxTurns)
    } else if text::str_eq(choice, "experiment") {
        Some(SettingKind::Experiment)
    } else if text::str_eq(choice, "recipe") {
        Some(SettingKind::Recipe)
    } else if text::str_eq(choice, "scheduler") {
        Some(SettingKind::Scheduler)
    } else {
        None
    }
}

/// What the choice of a mode changes.
pub open spec fn mode_change(choice: Seq<char>) -> Option<SettingChangeView> {
    if choice == "auto"@ {
        text_change("GOOSE_MODE"@, "auto"@, "Set to Auto Mode - full file modification enabled"@)
    } else if choice == "approve"@ {
        text_change("GOOSE_MODE"@, "approve"@, "Set to Approve Mode - all tools and modifications require approval"@)
    } else if choice == "smart_approve"@ {
        text_change("GOOSE_MODE"@, "smart_approve"@, "Set to Smart Approve Mode - modifications require approval"@)
    } else if choice == "chat"@ {
        text_change("GOOSE_MODE"@, "chat"@, "Set to Chat Mode - no tools or modifications enabled"@)
    } else {
        None
    }
}

/// What the choice of a mode changes.
pub fn configure_goose_mode_dialog(choice: &str) -> (r: Option<SettingChange>)
    ensures
        r.deep_view() == mode_change(choice@),
{
    if text::str_eq(choice, "auto") {
        menu::set_text("GOOSE_MODE", "auto", "Set to Auto Mode - full file modification enabled")
    } else if text::str_eq(choice, "approve") {
        menu::set_text("GOOSE_MODE", "approve", "Set to Approve Mode - all tools and modifications require approval")
    } else if text::str_eq(choice, "smart_approve") {
        menu::set_text("GOOSE_MODE", "smart_approve", "Set to Smart Approve Mode - modifications require approval")
    } else if text::str_eq(choice, "chat") {
        menu::set_text("GOOSE_MODE", "chat", "Set to Chat Mode - no tools or modifications enabled")
    } else {
        None
    }
}

/// What the choice of a router changes.
pub open spec fn router_change(choice: Seq<char>) -> Option<SettingChangeView> {
    if choice == "true"@ {
        text_change("GOOSE_ENABLE_ROUTER"@, "true"@, "Router enabled - using LLM-based intelligence for tool selection"@)
    } else if choice == "false"@ {
        text_change("GOOSE_ENABLE_ROUTER"@, "false"@, "Router disabled - using default tool selection"@)
    } else {
        None
    }
}

/// What the choice of a router changes.
pub fn configure_goose_router_strategy_dialog(choice: &str) -> (r: Option<SettingChange>)
    ensures
        r.deep_view() == router_change(choice@),
{
    if text::str_eq(choice, "true") {
        menu::set_text("GOOSE_ENABLE_ROUTER", "true", "Router enabled - using LLM-based intelligence for tool selection")
    } else if text::str_eq(choice, "false") {
        menu::set_text("GOOSE_ENABLE_ROUTER", "false", "Router disabled - using default tool selection")
    } else {
        None
    }
}

/// What the choice of a scheduler changes.
pub open spec fn scheduler_change(choice: Seq<char>) -> Option<SettingChangeView> {
    if choice == "legacy"@ {
        text_change("GOOSE_SCHEDULER_TYPE"@, "legacy"@, "Set to Built-in Cron scheduler - simple and reliable for basic scheduling"@)
    } else if choice == "temporal"@ {
        text_change("GOOSE_SCHEDULER_TYPE"@, "temporal"@, "Set to Temporal scheduler - advanced workflow engine for complex scheduling"@)
    } else {
        None
    }
}

/// What the choice of a scheduler changes.
pub fn configure_scheduler_dialog(choice: &str) -> (r: Option<SettingChange>)
    ensures
        r.deep_view() == scheduler_change(choice@),
{
    if text::str_eq(choice, "legacy") {
        menu::set_text("GOOSE_SCHEDULER_TYPE", "legacy", "Set to Built-in Cron scheduler - simple and reliable for basic scheduling")
    } else if text::str_eq(choice, "temporal") {
        menu::set_text("GOOSE_SCHEDULER_TYPE", "temporal", "Set to Temporal scheduler - advanced workflow engine for complex scheduling")
    } else {
        None
    }
}

pub open spec fn priority(tenths: u32, outro: Seq<char>) -> Option<SettingChangeView> {
    Some(
        SettingChangeView {
            key: "GOOSE_CLI_MIN_PRIORITY"@,
            value: SettingValueView::Tenths(tenths),
            outro,
        },
    )
}

/// What the choice of the tool output that is shown changes: the least priority,
/// in tenths.
pub open spec fn output_change(choice: Seq<char>) -> Option<SettingChangeView> {
    if choice == "high"@ {
        priority(8, "Showing tool output of high importance only."@)
    } else if choice == "medium"@ {
        priority(2, "Showing tool output of medium importance."@)
    } else if choice == "all"@ {
        priority(0, "Showing all tool output."@)
    } else {
        None
    }
}

fn set_priority(tenths: u32, outro: &str) -> (r: Option<SettingChange>)
    ensures
        r.deep_view() == priority(tenths, outro@),
{
    Some(
        SettingChange {
            key: text::owned("GOOSE_CLI_MIN_PRIORITY"),
            value: SettingValue::Tenths(tenths),
            outro: text::owned(outro),
        },
    )
}

/// What the choice of the tool output that is shown changes.
pub fn configure_tool_output_dialog(choice: &str) -> (r: Option<SettingChange>)
    ensures
        r.deep_view() == output_change(choice@),
{
    if text::str_eq(choice, "high") {
        set_priority(8, "Showing tool output of high importance only.")
    } else if text::str_eq(choice, "medium") {
        set_priority(2, "Showing tool output of medium importance.")
    } else if text::str_eq(choice, "all") {
        set_priority(0, "Showing all tool output.")
    } else {
        None
    }
}

/// What is said where the environment overrides a setting.
pub fn override_notice(key: &str) -> (r: String)
    ensures
        r@ == "Notice: "@ + key@
            + " environment variable is set and will override the configuration here."@,
{
    text::cat3(
        "Notice: ",
        key,
        " environment variable is set and will override the configuration here.",
    )
}

/// The scheduler that is configured.
pub fn current_scheduler(setting: Option<String>) -> (r: String)
    ensures
        r@ == match setting.deep_view() {
            Some(s) => s,
            None => "legacy"@,
        },
{
    match setting {
        Some(s) => s,
        None => text::owned("legacy"),
    }
}

/// The turns without the user that are configured.
pub fn current_max_turns(setting: Option<u32>) -> (r: u32)
    ensures
        r == match setting {
            Some(n) => n,
            None => DEFAULT_MAX_TURNS,
        },
{
    match setting {
        Some(n) => n,
        None => DEFAULT_MAX_TURNS,
    }
}

/// What a number of turns changes, or why it cannot be taken.
pub open spec fn max_turns_change(input: Seq<char>) -> Result<SettingChangeView, Seq<char>> {
    match parsed_number(input, u32::MAX as nat) {
        Some(n) => if n < 1 {
            Err("Value must be at least 1"@)
        } else {
            Ok(
                SettingChangeView {
                    key: "GOOSE_MAX_TURNS"@,
                    value: SettingValueView::Number(n as u32),
                    outro: "Set maximum turns to "@ + text::decimal(n)
                        + " - goose will ask for input after "@ + text::decimal(n)
                        + " consecutive actions"@,
                },
            )
        },
        None => Err("Please enter a valid number"@),
    }
}

/// What a number of turns changes, or why it cannot be taken.
pub fn configure_max_turns_dialog(input: &str) -> (r: Result<SettingChange, String>)
    ensures
        match r {
            Ok(c) => max_turns_change(input@) == Ok::<SettingChangeView, Seq<char>>(c.deep_view()),
            Err(e) => max_turns_change(input@) == Err::<SettingChangeView, Seq<char>>(e@),
        },
{
    match text_split::parse_u32(input) {
        Some(n) => {
            if n < 1 {
                return Err(text::owned("Value must be at least 1"));
            }
            let turns = text::to_decimal(n as u64);
            Ok(
                SettingChange {
                    key: text::owned("GOOSE_MAX_TURNS"),
                    value: SettingValue::Number(n),
                    outro: text::cat5(
                        "Set maximum turns to ",
                        &turns,
                        " - goose will ask for input after ",
                        &turns,
                        " consecutive actions",
                    ),
                },
            )
        },
        None => Err(text::owned("Please enter a valid number")),
    }
}

/// The number of turns that is set is never zero.
pub proof fn law_max_turns_is_positive(input: Seq<char>)
    ensures
        max_turns_change(input) matches Ok(c) ==> c.value matches SettingValueView::Number(n) && n
            >= 1,
{
    if let Some(n) = parsed_number(input, u32::MAX as nat) {
        assert(n <= u32::MAX);
    }
}

/// The repository with recipes that is offered: that of the environment, else that
/// of the configuration.
pub fn default_recipe_repo(env: Option<String>, config: Option<String>) -> (r: Option<String>)
    ensures
        r.deep_view() == if env.deep_view() is Some {
            env.deep_view()
        } else {
            config.deep_view()
        },
{
    match env {
        Some(e) => Some(e),
        None => config,
    }
}

/// What the repository with recipes changes: the setting is taken out where
/// nothing is entered.
pub fn configure_recipe_dialog(input: String) -> (r: SettingChange)
    ensures
        r.key@ == RECIPE_REPO_KEY@,
        r.value.deep_view() == if trimmed(input@).len() == 0 {
            SettingValueView::Deleted
        } else {
            SettingValueView::Text(input@)
        },
        r.outro@.len() == 0,
{
    let value = if text::is_empty(&text::trim(&input)) {
        SettingValue::Deleted
    } else {
        SettingValue::Text(input)
    };
    SettingChange { key: text::owned(RECIPE_REPO_KEY), value, outro: String::new() }
}

/// Which experiments are enabled: those that were selected.
pub open spec fn experiment_changes(
    experiments: Seq<(Seq<char>, bool)>,
    selected: Seq<Seq<char>>,
) -> Seq<(Seq<char>, bool)> {
    experiments.map_values(|e: (Seq<char>, bool)| (e.0, selected.contains(e.0)))
}

/// Which experiments are enabled: those that were selected.
pub fn toggle_experiments_dialog(experiments: &Vec<(String, bool)>, selected: &Vec<String>) -> (r:
    Vec<(String, bool)>)
    ensures
        r.deep_view() == experiment_changes(experiments.deep_view(), selected.deep_view()),
{
    let ghost all = experiment_changes(experiments.deep_view(), selected.deep_view());
    let mut out: Vec<(String, bool)> = Vec::new();
    let mut i: usize = 0;
    assert(text::texts(selected@) =~= selected.deep_view());
    while i < experiments.len()
        invariant
            i <= experiments@.len(),
            all == experiment_changes(experiments.deep_view(), selected.deep_view()),
            text::texts(selected@) == selected.deep_view(),
            out.deep_view() == all.take(i as int),
        decreases experiments@.len() - i,
    {
        let enabled = text::list_contains(selected, &experiments[i].0);
        base::push(&mut out, (experiments[i].0.clone(), enabled));
        assert(out.deep_view() =~= all.take(i + 1));
        i = i + 1;
    }
    assert(out.deep_view() =~= all);
    out
}

/// The extensions whose tools can be given permissions, in order.
pub open spec fn permission_extensions(m: ExtensionsView) -> Seq<Seq<char>> {
    in_text_order(names_of(enabled_configs(m)).push("platform"@))
}

/// How a permission is called.
pub open spec fn level_label(level: Option<PermissionLevel>) -> Seq<char> {
    match level {
        Some(PermissionLevel::AlwaysAllow) => "Always Allow"@,
        Some(PermissionLevel::AskBefore) => "Ask Before"@,
        Some(PermissionLevel::NeverAllow) => "Never Allow"@,
        None => "Not Set"@,
    }
}

/// How a permission is called.
pub fn permission_label(level: Option<PermissionLevel>) -> (r: String)
    ensures
        r@ == level_label(level),
{
    match level {
        Some(PermissionLevel::AlwaysAllow) => text::owned("Always Allow"),
        Some(PermissionLevel::AskBefore) => text::owned("Ask Before"),
        Some(PermissionLevel::NeverAllow) => text::owned("Never Allow"),
        None => text::owned("Not Set"),
    }
}

/// The permission that a choice names.
pub open spec fn level_named(choice: Seq<char>) -> Option<PermissionLevel> {
    if choice == "always_allow"@ {
        Some(PermissionLevel::AlwaysAllow)
    } else if choice == "ask_before"@ {
        Some(PermissionLevel::AskBefore)
    } else if choice == "never_allow"@ {
        Some(PermissionLevel::NeverAllow)
    } else {
        None
    }
}

/// The permission that a choice names.
pub fn parse_level(choice: &str) -> (r: Option<PermissionLevel>)
    ensures
        r == level_named(choice@),
{
    if text::str_eq(choice, "always_allow") {
        Some(PermissionLevel::AlwaysAllow)
    } else if text::str_eq(choice, "ask_before") {
        Some(PermissionLevel::AskBefore)
    } else if text::str_eq(choice, "never_allow") {
        Some(PermissionLevel::NeverAllow)
    } else {
        None
    }
}

/// The first sentence of a description.
pub open spec fn first_sentence(description: Seq<char>) -> Seq<char> {
    trimmed(pieces(description, '.')[0])
}

pub open spec fn tool_items(tools: Seq<ToolInfoView>) -> Seq<ItemView> {
    tools.map_values(|t: ToolInfoView| item(t.name, t.name, first_sentence(t.description)))
}

/// The first tool of a name.
pub open spec fn info_named(tools: Seq<ToolInfoView>, name: Seq<char>) -> Option<ToolInfoView>
    decreases tools.len(),
{
    if tools.len() == 0 {
        None
    } else if tools[0].name == name {
        Some(tools[0])
    } else {
        info_named(tools.drop_first(), name)
    }
}

/// The tools as they are offered.
pub fn offer_tools(tools: &Vec<ToolInfo>) -> (r: Vec<Item>)
    ensures
        r.deep_view() == tool_items(tools.deep_view()),
{
    let mut items: Vec<Item> = Vec::new();
    let mut i: usize = 0;
    while i < tools.len()
        invariant
            i <= tools@.len(),
            items.deep_view() == tool_items(tools.deep_view()).take(i as int),
        decreases tools@.len() - i,
    {
        let parts = text_split::split_char(&tools[i].description, '.');
        assert(pieces(tools[i as int].description@, '.').len() > 0);
        assert(text::texts(parts@) =~= parts.deep_view());
        let first = text::trim(&parts[0]);
        menu::offer(&mut items, &tools[i].name, &tools[i].name, &first);
        assert(items.deep_view() =~= tool_items(tools.deep_view()).take(i + 1));
        i = i + 1;
    }
    assert(items.deep_view() =~= tool_items(tools.deep_view()));
    items
}

fn find_info(tools: &Vec<ToolInfo>, name: &str) -> (r: Option<ToolInfo>)
    ensures
        r.deep_view() == info_named(tools.deep_view(), name@),
{
    let ghost all = tools.deep_view();
    let mut i: usize = 0;
    assert(all.skip(0) =~= all);
    while i < tools.len()
        invariant
            i <= tools@.len(),
            all == tools.deep_view(),
            info_named(all, name@) == info_named(all.skip(i as int), name@),
        decreases tools@.len() - i,
    {
        assert(all.skip(i as int).drop_first() =~= all.skip(i + 1));
        if text::str_eq(&tools[i].name, name) {
            return Some(tools[i].duplicate());
        }
        i = i + 1;
    }
    None
}

/// What the dialog for permissions waits for.
#[derive(Debug, Clone, Copy, PartialEq, Eq, Structural)]
pub enum PermissionPhase {
    ExtensionChoosing,
    AgentCreating,
    ExtensionAdding,
    ToolsListing,
    ToolChoosing,
    LevelChoosing,
    Finished,
}

impl DeepView for PermissionPhase {
    type V = PermissionPhase;

    open spec fn deep_view(&self) -> PermissionPhase {
        *self
    }
}

impl Duplicate for PermissionPhase {
    fn duplicate(&self) -> (r: Self) {
        *self
    }
}

/// The dialog in which a tool is given a permission.
#[derive(Debug, PartialEq)]
pub struct ToolPermissionsDialog {
    pub extensions: ExtensionsMap,
    /// The extension that was chosen.
    pub extension: String,
    pub tools: Vec<ToolInfo>,
    /// The tool that was chosen.
    pub tool: String,
    pub phase: PermissionPhase,
}

#[verifier::ext_equal]
pub struct ToolPermissionsDialogView {
    pub extensions: ExtensionsView,
    pub extension: Seq<char>,
    pub tools: Seq<ToolInfoView>,
    pub tool: Seq<char>,
    pub phase: PermissionPhase,
}

impl DeepView for ToolPermissionsDialog {
    type V = ToolPermissionsDialogView;

    open spec fn deep_view(&self) -> ToolPermissionsDialogView {
        ToolPermissionsDialogView {
            extensions: self.extensions.deep_view(),
            extension: self.extension@,
            tools: self.tools.deep_view(),
            tool: self.tool@,
            phase: self.phase,
        }
    }
}

/// What the outside reports.
#[derive(Debug, PartialEq)]
pub enum PermissionEvent {
    Chosen(String),
    /// It is done, or it failed.
    Done(bool),
    Tools { tools: Vec<Tool>, permissions: PermissionManager },
}

#[verifier::ext_equal]
pub enum PermissionEventView {
    Chosen(Seq<char>),
    Done(bool),
    Tools { tools: Seq<ToolView>, permissions: PermissionsView },
}

impl DeepView for PermissionEvent {
    type V = PermissionEventView;

    open spec fn deep_view(&self) -> PermissionEventView {
        match self {
            PermissionEvent::Chosen(s) => PermissionEventView::Chosen(s@),
            PermissionEvent::Done(ok) => PermissionEventView::Done(*ok),
            PermissionEvent::Tools { tools, permissions } => PermissionEventView::Tools {
                tools: tools.deep_view(),
                permissions: permissions.deep_view(),
            },
        }
    }
}

/// What the dialog asks the outside to do. All actions of a list are performed in
/// order; making the agent ends the dialog with its error where it fails.
#[derive(Debug, PartialEq)]
pub enum PermissionAction {
    ChooseExtension(Vec<Item>),
    CreateAgent,
    AddExtension(ExtensionConfig),
    Warn(String),
    Complain(String),
    ListTools(String),
    ChooseTool(Vec<Item>),
    ChooseLevel(String),
    Update { tool: String, level: PermissionLevel },
    Outro(String),
    Finish,
}

#[verifier::ext_equal]
pub enum PermissionActionView {
    ChooseExtension(Seq<ItemView>),
    CreateAgent,
    AddExtension(ExtensionConfigView),
    Warn(Seq<char>),
    Complain(Seq<char>),
    ListTools(Seq<char>),
    ChooseTool(Seq<ItemView>),
    ChooseLevel(Seq<char>),
    Update { tool: Seq<char>, level: PermissionLevel },
    Outro(Seq<char>),
    Finish,
}

impl DeepView for PermissionAction {
    type V = PermissionActionView;

    open spec fn deep_view(&self) -> PermissionActionView {
        match self {
            PermissionAction::ChooseExtension(x) => PermissionActionView::ChooseExtension(x.deep_view()),
            PermissionAction::CreateAgent => PermissionActionView::CreateAgent,
            PermissionAction::AddExtension(x) => PermissionActionView::AddExtension(x.deep_view()),
            PermissionAction::Warn(x) => PermissionActionView::Warn(x@),
            PermissionAction::Complain(x) => PermissionActionView::Complain(x@),
            PermissionAction::ListTools(x) => PermissionActionView::ListTools(x@),
            PermissionAction::ChooseTool(x) => PermissionActionView::ChooseTool(x.deep_view()),
            PermissionAction::ChooseLevel(x) => PermissionActionView::ChooseLevel(x@),
            PermissionAction::Update { tool, level } => PermissionActionView::Update {
                tool: tool@,
                level: *level,
            },
            PermissionAction::Outro(x) => PermissionActionView::Outro(x@),
            PermissionAction::Finish => PermissionActionView::Finish,
        }
    }
}

/// A state and the actions that lead on from it.
pub type PermissionStep = (ToolPermissionsDialogView, Seq<PermissionActionView>);

/// The start: the extensions are offered in order.
pub open spec fn permission_start(m: ExtensionsView) -> PermissionStep {
    (
        ToolPermissionsDialogView {
            extensions: m,
            extension: Seq::empty(),
            tools: Seq::empty(),
            tool: Seq::empty(),
            phase: PermissionPhase::ExtensionChoosing,
        },
        seq![
            PermissionActionView::ChooseExtension(plain_items(permission_extensions(m), ""@)),
        ],
    )
}

/// What the user is asked about a tool.
pub open spec fn level_prompt(t: ToolInfoView) -> Seq<char> {
    "Set permission level for tool "@ + t.name + ", current permission level: "@ + level_label(
        t.permission,
    )
}

/// What is said when a permission was set.
pub open spec fn updated_text(tool: Seq<char>, level: PermissionLevel) -> Seq<char> {
    "Updated permission level for tool "@ + tool + " to "@ + level_label(Some(level)) + "."@
}

/// The step that an event leads to. An event that the phase does not wait for
/// changes nothing.
pub open spec fn permission_step(
    s: ToolPermissionsDialogView,
    e: PermissionEventView,
) -> PermissionStep {
    let none = Seq::<PermissionActionView>::empty();
    match (s.phase, e) {
        (PermissionPhase::ExtensionChoosing, PermissionEventView::Chosen(extension)) => (
            ToolPermissionsDialogView { extension, phase: PermissionPhase::AgentCreating, ..s },
            seq![PermissionActionView::CreateAgent],
        ),
        (PermissionPhase::AgentCreating, PermissionEventView::Done(_)) => match config_named(
            s.extensions,
            s.extension,
        ) {
            Some(c) => (
                ToolPermissionsDialogView { phase: PermissionPhase::ExtensionAdding, ..s },
                seq![PermissionActionView::AddExtension(c)],
            ),
            None => (
                ToolPermissionsDialogView { phase: PermissionPhase::Finished, ..s },
                seq![
                    PermissionActionView::Warn(
                        "Configuration not found for extension: "@ + s.extension,
                    ),
                    PermissionActionView::Finish,
                ],
            ),
        },
        (PermissionPhase::ExtensionAdding, PermissionEventView::Done(ok)) => (
            ToolPermissionsDialogView { phase: PermissionPhase::ToolsListing, ..s },
            (if ok {
                none
            } else {
                seq![
                    PermissionActionView::Complain("Failed to check extension: "@ + s.extension),
                ]
            }).push(PermissionActionView::ListTools(s.extension)),
        ),
        (PermissionPhase::ToolsListing, PermissionEventView::Tools { tools, permissions }) => {
            let infos = tool_infos(tools, Some(permissions));
            (
                ToolPermissionsDialogView {
                    tools: infos,
                    phase: PermissionPhase::ToolChoosing,
                    ..s
                },
                seq![PermissionActionView::ChooseTool(tool_items(infos))],
            )
        },
        (PermissionPhase::ToolChoosing, PermissionEventView::Chosen(name)) => match info_named(
            s.tools,
            name,
        ) {
            Some(t) => (
                ToolPermissionsDialogView {
                    tool: name,
                    phase: PermissionPhase::LevelChoosing,
                    ..s
                },
                seq![PermissionActionView::ChooseLevel(level_prompt(t))],
            ),
            None => (s, none),
        },
        (PermissionPhase::LevelChoosing, PermissionEventView::Chosen(choice)) => match level_named(
            choice,
        ) {
            Some(level) => (
                ToolPermissionsDialogView { phase: PermissionPhase::Finished, ..s },
                seq![
                    PermissionActionView::Update { tool: s.tool, level },
                    PermissionActionView::Outro(updated_text(s.tool, level)),
                    PermissionActionView::Finish,
                ],
            ),
            None => (s, none),
        },
        _ => (s, none),
    }
}

fn no_actions() -> (r: Vec<PermissionAction>)
    ensures
        r.deep_view() == Seq::<PermissionActionView>::empty(),
{
    let out: Vec<PermissionAction> = Vec::new();
    assert(out.deep_view() =~= Seq::<PermissionActionView>::empty());
    out
}

fn one(a: PermissionAction) -> (r: Vec<PermissionAction>)
    ensures
        r.deep_view() == seq![a.deep_view()],
{
    let out = base::single(a);
    assert(out.deep_view() =~= seq![a.deep_view()]);
    out
}

impl ToolPermissionsDialog {
    /// Starts the dialog.
    pub fn start(extensions: ExtensionsMap) -> (r: (Self, Vec<PermissionAction>))
        ensures
            (r.0.deep_view(), r.1.deep_view()) == permission_start(extensions.deep_view()),
    {
        let enabled = config_extensions::get_enabled_extensions(&extensions);
        let mut names = session_builder::names_list(&enabled);
        base::push(&mut names, text::owned("platform"));
        let names = text_list::sort_texts(&names);
        let mut items: Vec<Item> = Vec::new();
        assert(items.deep_view() =~= Seq::<ItemView>::empty());
        menu::offer_all(&mut items, &names, "");
        assert(items.deep_view() =~= plain_items(names.deep_view(), ""@));
        let s = ToolPermissionsDialog {
            extensions,
            extension: String::new(),
            tools: Vec::new(),
            tool: String::new(),
            phase: PermissionPhase::ExtensionChoosing,
        };
        assert(s.deep_view() =~= permission_start(extensions.deep_view()).0);
        (s, one(PermissionAction::ChooseExtension(items)))
    }

    fn agent_created(&mut self) -> (r: Vec<PermissionAction>)
        requires
            old(self).phase == PermissionPhase::AgentCreating,
        ensures
            forall|ok: bool|
                (final(self).deep_view(), r.deep_view()) == #[trigger] permission_step(
                    old(self).deep_view(),
                    PermissionEventView::Done(ok),
                ),
    {
        match config_extensions::get_extension_by_name(&self.extensions, &self.extension) {
            Some(c) => {
                self.phase = PermissionPhase::ExtensionAdding;
                one(PermissionAction::AddExtension(c))
            },
            None => {
                self.phase = PermissionPhase::Finished;
                let mut out = one(
                    PermissionAction::Warn(
                        text::cat("Configuration not found for extension: ", &self.extension),
                    ),
                );
                base::push(&mut out, PermissionAction::Finish);
                assert(out.deep_view() =~= seq![
                    PermissionActionView::Warn(
                        "Configuration not found for extension: "@ + self.extension@,
                    ),
                    PermissionActionView::Finish,
                ]);
                out
            },
        }
    }

    fn level_chosen(&mut self, choice: &str) -> (r: Vec<PermissionAction>)
        requires
            old(self).phase == PermissionPhase::LevelChoosing,
        ensures
            (final(self).deep_view(), r.deep_view()) == permission_step(
                old(self).deep_view(),
                PermissionEventView::Chosen(choice@),
            ),
    {
        match parse_level(choice) {
            Some(level) => {
                self.phase = PermissionPhase::Finished;
                let outro = text::cat5(
                    "Updated permission level for tool ",
                    &self.tool,
                    " to ",
                    &permission_label(Some(level)),
                    ".",
                );
                let mut out = one(PermissionAction::Update { tool: self.tool.clone(), level });
                base::push(&mut out, PermissionAction::Outro(outro));
                base::push(&mut out, PermissionAction::Finish);
                assert(out.deep_view() =~= seq![
                    PermissionActionView::Update { tool: self.tool@, level },
                    PermissionActionView::Outro(updated_text(self.tool@, level)),
                    PermissionActionView::Finish,
                ]);
                out
            },
            None => no_actions(),
        }
    }

    /// Takes the step that an event leads to.
    pub fn step(&mut self, event: PermissionEvent) -> (r: Vec<PermissionAction>)
        ensures
            (final(self).deep_view(), r.deep_view()) == permission_step(
                old(self).deep_view(),
                event.deep_view(),
            ),
    {
        match (self.phase, event) {
            (PermissionPhase::ExtensionChoosing, PermissionEvent::Chosen(extension)) => {
                self.extension = extension;
                self.phase = PermissionPhase::AgentCreating;
                one(PermissionAction::CreateAgent)
            },
            (PermissionPhase::AgentCreating, PermissionEvent::Done(ok)) => {
                let ghost before = self.deep_view();
                let out = self.agent_created();
                assert((self.deep_view(), out.deep_view()) == permission_step(
                    before,
                    PermissionEventView::Done(ok),
                ));
                out
            },
            (PermissionPhase::ExtensionAdding, PermissionEvent::Done(ok)) => {
                self.phase = PermissionPhase::ToolsListing;
                let mut out = if ok {
                    no_actions()
                } else {
                    one(
                        PermissionAction::Complain(
                            text::cat("Failed to check extension: ", &self.extension),
                        ),
                    )
                };
                base::push(&mut out, PermissionAction::ListTools(self.extension.clone()));
                out
            },
            (PermissionPhase::ToolsListing, PermissionEvent::Tools { tools, permissions }) => {
                self.tools = dispatch::describe_tools(&tools, Some(&permissions));
                self.phase = PermissionPhase::ToolChoosing;
                one(PermissionAction::ChooseTool(offer_tools(&self.tools)))
            },
            (PermissionPhase::ToolChoosing, PermissionEvent::Chosen(name)) => {
                match find_info(&self.tools, &name) {
                    Some(t) => {
                        let mut prompt = text::cat3(
                            "Set permission level for tool ",
                            &t.name,
                            ", current permission level: ",
                        );
                        prompt.append(&permission_label(t.permission));
                        self.tool = name;
                        self.phase = PermissionPhase::LevelChoosing;
                        one(PermissionAction::ChooseLevel(prompt))
                    },
                    None => no_actions(),
                }
            },
            (PermissionPhase::LevelChoosing, PermissionEvent::Chosen(choice)) => {
                self.level_chosen(&choice)
            },
            _ => no_actions(),
        }
    }
}

/// A permission is set only for a tool that was chosen, once, and as it was chosen.
pub proof fn law_chosen_permission_is_set(
    s: ToolPermissionsDialogView,
    e: PermissionEventView,
    i: int,
)
    requires
        0 <= i < permission_step(s, e).1.len(),
    ensures
        permission_step(s, e).1[i] matches PermissionActionView::Update { tool, level } ==> {
            &&& tool == s.tool
            &&& e matches PermissionEventView::Chosen(c)
            &&& level_named(c) == Some(level)
            &&& permission_step(s, e).0.phase == PermissionPhase::Finished
        },
{
}

} // verus!
