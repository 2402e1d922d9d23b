//! What callers have of the functions at the centre of the library, over the values that
//! go in and come out.
use crate::assoc::{lookup, unique_keys};
use crate::configure::{configure_target, setup_method, ConfigureTarget, SetupMethod};
use crate::configure_settings::{configure_recipe_dialog, default_recipe_repo};
use crate::extension::{ExtensionConfig, PermissionLevel};
use crate::extension_laws;
use crate::extension_manager::{self, prefix_tools, ExtensionManager, ResolvedCall};
use crate::json::JsonView;
use crate::menu::{SettingChange, SettingValueView};
use crate::message::{Message, Role};
use crate::permission_judge::{
    self, check_tool_permissions, detection_at, sort_requests, Annotations, Detection,
    PermissionCheckResult, PermissionManager, Sorting, Verdict,
};
use crate::permission_laws;
use crate::recipe::{create_recipe, parsed_recipe, Recipe, RecipeError};
use crate::recipe_laws::{self, read_as_json};
use crate::reply::{
    reply_step, sync_session, AgentEventView, ReplyAction, ReplyActionView, ReplyEvent, ReplyLoop,
    ReplyPhase, SessionSync,
};
use crate::sampling_approval::{sampling_message, SamplingMessageContent};
use crate::session_builder::{
    BuildAction, BuildActionView, BuildSession, MissingSetting, SessionBuilderConfig,
};
use crate::text;
use crate::tool::{ErrorData, Tool, ToolCall, ToolRequest};
use vstd::prelude::*;

verus! {

/// The tools of an extension that offers all are listed one for one: each under the key,
/// two underscores and its own name, with its own description, schemas and annotations.
pub proof fn law_listed_tools_are_the_extensions(
    name: &str,
    config: &ExtensionConfig,
    tools: &Vec<Tool>,
    r: Vec<Tool>,
    i: int,
)
    requires
        call_ensures(prefix_tools, (name, config, tools), r),
        config.deep_view().available_tools().len() == 0,
        0 <= i < tools@.len(),
    ensures
        r@.len() == tools@.len(),
        r@[i].name@ == name@ + seq!['_', '_'] + tools@[i].name@,
        r@[i].description.deep_view() == tools@[i].description.deep_view(),
        r@[i].input_schema.deep_view() == tools@[i].input_schema.deep_view(),
        r@[i].output_schema.deep_view() == tools@[i].output_schema.deep_view(),
        r@[i].annotations.deep_view() == tools@[i].annotations.deep_view(),
{
    extension_laws::law_full_listing(name@, config.deep_view(), tools.deep_view());
    let l = r.deep_view();
    assert(l.len() == r@.len());
    assert(l[i] == r@[i].deep_view());
    assert(tools.deep_view()[i] == tools@[i].deep_view());
}

/// What the first look approves, in any mode but those that only chat or approve all:
/// nothing but what the user always allows, or in the mode that approves by itself, with
/// no word of the user, what was found out to be always allowed or, with nothing found
/// out, is annotated as read-only.
pub proof fn law_first_look_approves_little(
    requests: &Vec<ToolRequest>,
    mode: &str,
    read_only: &Vec<String>,
    without: &Vec<String>,
    p: &PermissionManager,
    r: Sorting,
    i: int,
)
    requires
        call_ensures(sort_requests, (requests, mode, read_only, without, p), r),
        mode@ != "auto"@,
        0 <= i < r.result.approved@.len(),
    ensures
        ({
            let q = r.result.approved@[i].deep_view();
            let name = q.tool_call->Ok_0.name;
            let user = lookup(p.user.deep_view(), name);
            let found = lookup(p.smart_approve.deep_view(), name);
            &&& mode@ != "chat"@
            &&& requests.deep_view().contains(q)
            &&& q.tool_call is Ok
            &&& user == Some(PermissionLevel::AlwaysAllow) || (mode@ == "smart_approve"@ && user
                is None && (found == Some(PermissionLevel::AlwaysAllow) || (found is None
                && read_only.deep_view().contains(name))))
        }),
{
    let all = requests.deep_view();
    let notes = Annotations { read_only: read_only.deep_view(), without: without.deep_view() };
    let pv = p.deep_view();
    let a = permission_judge::with_verdict(all, mode@, notes, pv, Verdict::Approve);
    let q = r.result.approved@[i].deep_view();
    assert(r.result.deep_view().approved == a);
    assert(a[i] == q);
    assert(a.contains(q));
    permission_laws::lemma_holds_verdict(all, mode@, notes, pv, Verdict::Approve, q);
}

/// The mode in which the user approves puts each readable request without a word of the
/// user among those that need an approval.
pub proof fn law_first_look_asks(
    requests: &Vec<ToolRequest>,
    mode: &str,
    read_only: &Vec<String>,
    without: &Vec<String>,
    p: &PermissionManager,
    r: Sorting,
    i: int,
)
    requires
        call_ensures(sort_requests, (requests, mode, read_only, without, p), r),
        mode@ == "approve"@,
        0 <= i < requests@.len(),
        requests@[i].deep_view().tool_call is Ok,
        lookup(p.user.deep_view(), requests@[i].deep_view().tool_call->Ok_0.name) is None,
    ensures
        r.result.needs_approval.deep_view().contains(requests@[i].deep_view()),
        !r.result.approved.deep_view().contains(requests@[i].deep_view()),
        r.candidates@.len() == 0,
{
    reveal_strlit("approve");
    reveal_strlit("chat");
    reveal_strlit("auto");
    reveal_strlit("smart_approve");
    assert("approve"@[1] == 'p');
    assert("chat"@[1] == 'h');
    assert("auto"@[1] == 'u');
    assert("smart_approve"@[1] == 'm');
    let all = requests.deep_view();
    let notes = Annotations { read_only: read_only.deep_view(), without: without.deep_view() };
    let pv = p.deep_view();
    let q = requests@[i].deep_view();
    assert(all[i] == q);
    assert(all.contains(q));
    permission_laws::lemma_holds_verdict(all, mode@, notes, pv, Verdict::Approve, q);
    permission_laws::lemma_holds_verdict(all, mode@, notes, pv, Verdict::Ask, q);
    let c = permission_judge::with_verdict(all, mode@, notes, pv, Verdict::Detect);
    if c.len() > 0 {
        assert(c.contains(c[0]));
        permission_laws::lemma_holds_verdict(all, mode@, notes, pv, Verdict::Detect, c[0]);
    }
    assert(r.candidates.deep_view() == c);
    assert(r.candidates.deep_view().len() == r.candidates@.len());
}

/// A session that is started begins with the model of the command line where that names
/// one, else with that of the settings, else with that of the configuration; and so does
/// its provider.
pub proof fn law_session_starts_as_asked(
    config: SessionBuilderConfig,
    provider: Option<String>,
    model: Option<String>,
    s: BuildSession,
    actions: Vec<BuildAction>,
)
    requires
        call_ensures(
            BuildSession::start,
            (config, provider, model),
            Ok::<(BuildSession, Vec<BuildAction>), MissingSetting>((s, actions)),
        ),
    ensures
        ({
            let c = config.deep_view();
            let p = s.deep_view().provider_name;
            let m = s.deep_view().model_name;
            let set_p = c.settings is Some && c.settings->0.goose_provider is Some;
            let set_m = c.settings is Some && c.settings->0.goose_model is Some;
            &&& c.provider is Some ==> c.provider == Some(p)
            &&& c.provider is None && set_p ==> c.settings->0.goose_provider == Some(p)
            &&& c.provider is None && !set_p ==> provider.deep_view() == Some(p)
            &&& c.model is Some ==> c.model == Some(m)
            &&& c.model is None && set_m ==> c.settings->0.goose_model == Some(m)
            &&& c.model is None && !set_m ==> model.deep_view() == Some(m)
            &&& actions.deep_view().len() == 1
            &&& actions.deep_view()[0] matches BuildActionView::CreateModel { model_name, .. }
                && model_name == m
        }),
{
}

/// A session is refused just where no provider is named anywhere, or else no model.
pub proof fn law_session_lacks_a_setting(
    config: SessionBuilderConfig,
    provider: Option<String>,
    model: Option<String>,
    e: MissingSetting,
)
    requires
        call_ensures(
            BuildSession::start,
            (config, provider, model),
            Err::<(BuildSession, Vec<BuildAction>), MissingSetting>(e),
        ),
    ensures
        ({
            let c = config.deep_view();
            let no_p = c.provider is None && (c.settings is None
                || c.settings->0.goose_provider is None) && provider is None;
            let no_m = c.model is None && (c.settings is None || c.settings->0.goose_model is None)
                && model is None;
            &&& e == MissingSetting::Provider <==> no_p
            &&& e == MissingSetting::Model <==> !no_p && no_m
        }),
{
}

/// The recipe that is made of an answer in JSON has, under each name, the value that the
/// answer has under it.
pub proof fn law_recipe_is_the_answer(
    content: &str,
    extensions: Vec<ExtensionConfig>,
    contact: Option<String>,
    provider: String,
    model: String,
    temperature_bits: Option<u32>,
    recipe: Recipe,
    j: JsonView,
    title: Seq<char>,
    description: Seq<char>,
    instructions: Seq<char>,
    activities: Seq<Seq<char>>,
)
    requires
        call_ensures(
            create_recipe,
            (content, extensions, contact, provider, model, temperature_bits),
            Ok::<Recipe, RecipeError>(recipe),
        ),
        read_as_json(content@) == Some(j),
        j.field("title"@) == Some(JsonView::Text(title)),
        j.field("description"@) == Some(JsonView::Text(description)),
        j.field("instructions"@) == Some(JsonView::Text(instructions)),
        j.field("activities"@) == Some(
            JsonView::Array(activities.map_values(|a: Seq<char>| JsonView::Text(a))),
        ),
    ensures
        recipe.title@ == title,
        recipe.description@ == description,
        recipe.instructions@ == instructions,
        recipe.activities.deep_view() == activities,
        recipe.extensions.deep_view() == extensions.deep_view(),
        recipe.author_contact.deep_view() == contact.deep_view(),
        recipe.settings.goose_provider.deep_view() == Some(provider@),
        recipe.settings.goose_model.deep_view() == Some(model@),
{
    recipe_laws::law_recipe_holds_the_answer(
        content@,
        j,
        title,
        description,
        instructions,
        activities,
        extensions.deep_view(),
        contact.deep_view(),
        provider@,
        model@,
        temperature_bits,
    );
}

/// An answer that is a recipe is never refused.
pub proof fn law_recipe_is_made(
    content: &str,
    extensions: Vec<ExtensionConfig>,
    contact: Option<String>,
    provider: String,
    model: String,
    temperature_bits: Option<u32>,
    r: Result<Recipe, RecipeError>,
)
    requires
        call_ensures(
            create_recipe,
            (content, extensions, contact, provider, model, temperature_bits),
            r,
        ),
    ensures
        r is Ok <==> parsed_recipe(content@) is Ok,
        r is Err ==> parsed_recipe(content@)->Err_0 == r->Err_0,
{
}

/// A call that names a tool by a key and two underscores goes to the client under that
/// key, with the name of the tool and the arguments as they came; no longer key may begin
/// the name.
pub proof fn law_call_reaches_its_client(
    m: &ExtensionManager,
    call: &ToolCall,
    r: ResolvedCall,
    i: int,
    tool: Seq<char>,
)
    requires
        call_ensures(
            ExtensionManager::dispatch_tool_call,
            (m, call),
            Ok::<ResolvedCall, ErrorData>(r),
        ),
        unique_keys(m@),
        0 <= i < m@.len(),
        call.name@ == m@[i].0 + "__"@ + tool,
        forall|j: int|
            0 <= j < m@.len() && (#[trigger] m@[j]).0.len() > m@[i].0.len() ==> !(m@[j].0
                + "__"@).is_prefix_of(call.name@),
        m@[i].1.config.offers(tool),
    ensures
        r.client_name@ == m@[i].0,
        r.client == m@[i].1.client,
        r.tool_name@ == tool,
        r.arguments.deep_view() == call.arguments.deep_view(),
{
    extension_manager::law_prefixed_call_resolves(
        m@,
        i,
        tool,
        call.arguments.deep_view(),
    );
}

/// The configurations of the connected extensions and what is told of them come one for
/// one, in order, and a client is found under its key.
pub proof fn law_connected_extensions_are_told(
    m: &ExtensionManager,
    configs: Vec<ExtensionConfig>,
    names: Vec<String>,
    name: &str,
    client: Option<u64>,
    i: int,
)
    requires
        call_ensures(ExtensionManager::get_extension_configs, (m,), configs),
        call_ensures(ExtensionManager::list_extensions, (m,), names),
        call_ensures(ExtensionManager::get_server_client, (m, name), client),
        0 <= i < m@.len(),
    ensures
        configs@.len() == m@.len(),
        configs@[i].deep_view() == m@[i].1.config,
        names@.len() == m@.len(),
        names@[i]@ == m@[i].0,
        lookup(m@, name@) is Some ==> client == Some(lookup(m@, name@)->0.client),
        lookup(m@, name@) is None ==> client is None,
{
    assert(configs.deep_view().len() == configs@.len());
    assert(names.deep_view().len() == names@.len());
    assert(configs.deep_view()[i] == configs@[i].deep_view());
    assert(names.deep_view()[i] == names@[i]@);
}

/// An incoming conversation that the session already has is kept; one with a single new
/// message brings that message; any other replaces what is stored. A session without a
/// conversation is told by its name.
pub proof fn law_conversation_is_synced(
    id: &str,
    incoming: &Vec<Message>,
    stored: &Vec<Message>,
    sync: SessionSync,
    e: String,
)
    ensures
        call_ensures(
            sync_session,
            (id, incoming, Some(stored)),
            Ok::<SessionSync, String>(sync),
        ) ==> ({
            let a = incoming.deep_view();
            let b = stored.deep_view();
            &&& a == b <==> sync is Keep
            &&& a != b && a.len() == b.len() + 1 ==> sync is Append && sync->Append_0.deep_view()
                == a[a.len() - 1]
            &&& a != b && a.len() != b.len() + 1 ==> sync is Replace
        }),
        call_ensures(sync_session, (id, incoming, None), Err::<SessionSync, String>(e)) ==> e@
            == "Session "@ + id@ + " has no conversation"@,
        !call_ensures(sync_session, (id, incoming, None), Ok::<SessionSync, String>(sync)),
{
}

/// The ways to set up and the things to configure are told by their names, and by nothing
/// else.
pub proof fn law_choices_by_name(
    choice: &str,
    method: Option<SetupMethod>,
    target: Option<ConfigureTarget>,
)
    requires
        call_ensures(setup_method, (choice,), method),
        call_ensures(configure_target, (choice,), target),
    ensures
        method == Some(SetupMethod::OpenRouter) <==> choice@ == "openrouter"@,
        method == Some(SetupMethod::Tetrate) <==> choice@ == "tetrate"@,
        method == Some(SetupMethod::Manual) <==> choice@ == "manual"@,
        target == Some(ConfigureTarget::Toggle) <==> choice@ == "toggle"@,
        target == Some(ConfigureTarget::Add) <==> choice@ == "add"@,
        target == Some(ConfigureTarget::Remove) <==> choice@ == "remove"@,
        target == Some(ConfigureTarget::Settings) <==> choice@ == "settings"@,
        target == Some(ConfigureTarget::Providers) <==> choice@ == "providers"@,
        target == Some(ConfigureTarget::CustomProviders) <==> choice@ == "custom_providers"@,
{
    reveal_strlit("openrouter");
    reveal_strlit("tetrate");
    reveal_strlit("manual");
    reveal_strlit("toggle");
    reveal_strlit("add");
    reveal_strlit("remove");
    reveal_strlit("settings");
    reveal_strlit("providers");
    reveal_strlit("custom_providers");
    assert("openrouter"@.len() == 10 && "tetrate"@.len() == 7 && "manual"@.len() == 6);
    assert("toggle"@[0] == 't' && "toggle"@.len() == 6 && "add"@.len() == 3);
    assert("remove"@[0] == 'r' && "remove"@.len() == 6 && "settings"@.len() == 8);
    assert("providers"@.len() == 9 && "custom_providers"@.len() == 16);
}

/// The repository with recipes is set to what was entered, as it was entered, and is taken
/// out where nothing was; the environment's goes before that of the configuration.
pub proof fn law_recipe_repository(
    input: String,
    change: SettingChange,
    env: Option<String>,
    config: Option<String>,
    offered: Option<String>,
)
    requires
        call_ensures(configure_recipe_dialog, (input,), change),
        call_ensures(default_recipe_repo, (env, config), offered),
    ensures
        change.key@ == "GOOSE_RECIPE_GITHUB_REPO"@,
        text::trimmed(input@).len() > 0 ==> change.value.deep_view() == SettingValueView::Text(
            input@,
        ),
        text::trimmed(input@).len() == 0 ==> change.value.deep_view() is Deleted,
        env is Some ==> offered.deep_view() == env.deep_view(),
        env is None ==> offered.deep_view() == config.deep_view(),
{
}

/// A message of a request says who spoke, and its text, or what stands for it.
pub proof fn law_message_of_a_request(
    role: Role,
    content: Option<String>,
    rendering: String,
    m: SamplingMessageContent,
)
    requires
        call_ensures(sampling_message, (role, content, rendering), m),
    ensures
        role is User ==> m.role@ == "user"@,
        role is Assistant ==> m.role@ == "assistant"@,
        content is Some ==> m.content@ == content->0@,
        content is None ==> m.content@ == rendering@,
{
}

/// What a model is asked about tool requests is one text of the user, and nothing is asked
/// where there is no request.
pub proof fn law_model_is_asked_once(
    requests: &Vec<ToolRequest>,
    now: i64,
    d: Option<Detection>,
)
    requires
        call_ensures(detection_at, (requests, now), d),
    ensures
        d is None <==> requests@.len() == 0,
        d is Some ==> ({
            let m = d->0.messages.deep_view();
            &&& m.len() == 1
            &&& m[0].role is User
            &&& m[0].created == now
            &&& m[0].content.len() == 1
            &&& m[0].content[0] is Text
            &&& d->0.tool.name@ == "platform__tool_by_tool_permission"@
            &&& d->0.tool.input_schema.deep_view() == permission_judge::read_only_schema()
        }),
{
}

/// A check of permissions approves, in any mode but those that only chat or approve all,
/// nothing but what the user always allows, or in the mode that approves by itself, with
/// no word of the user, what was found out to be always allowed or, with nothing found
/// out, is annotated as read-only or named as such by the model.
pub proof fn law_check_approves_little(
    requests: &Vec<ToolRequest>,
    mode: &str,
    read_only: &Vec<String>,
    without: &Vec<String>,
    p: &mut PermissionManager,
    names: &Vec<String>,
    r: (PermissionCheckResult, Vec<String>),
    i: int,
)
    requires
        call_ensures(
            check_tool_permissions,
            (requests, mode, read_only, without, p, names),
            r,
        ),
        mode@ != "auto"@,
        0 <= i < r.0.approved@.len(),
    ensures
        ({
            let q = r.0.approved@[i].deep_view();
            let name = q.tool_call->Ok_0.name;
            let user = lookup(old(p).deep_view().user, name);
            let found = lookup(old(p).deep_view().smart_approve, name);
            &&& mode@ != "chat"@
            &&& requests.deep_view().contains(q)
            &&& q.tool_call is Ok
            &&& user == Some(PermissionLevel::AlwaysAllow) || (mode@ == "smart_approve"@ && user
                is None && (found == Some(PermissionLevel::AlwaysAllow) || (found is None && (
            read_only.deep_view().contains(name) || names.deep_view().contains(name)))))
        }),
{
    let q = r.0.approved@[i].deep_view();
    assert(r.0.deep_view().approved[i] == q);
    assert(r.0.deep_view().approved.contains(q));
    permission_laws::law_approved(
        requests.deep_view(),
        mode@,
        (Annotations { read_only: read_only.deep_view(), without: without.deep_view() }),
        old(p).deep_view(),
        names.deep_view(),
        q,
    );
}

/// A reply whose tools have ended shows the message with their answers and keeps it, behind
/// what the turn already holds.
pub proof fn law_reply_keeps_the_answers(
    l: &mut ReplyLoop,
    now: i64,
    uuid: &str,
    actions: Vec<ReplyAction>,
)
    requires
        call_ensures(ReplyLoop::step, (l, ReplyEvent::ToolItemsEnded, now, uuid), actions),
        old(l).deep_view().phase == ReplyPhase::ToolsRunning,
        old(l).deep_view().extension_request_ids.len() == 0,
    ensures
        ({
            let m = old(l).deep_view().tool_message;
            &&& final(l).deep_view().messages_to_add == old(l).deep_view().messages_to_add + seq![m]
            &&& actions.deep_view() == seq![
                ReplyActionView::Yield(AgentEventView::Message(m)),
                ReplyActionView::NextItem,
            ]
        }),
{
    let s = old(l).deep_view();
    let t = reply_step(s, ReplyEvent::ToolItemsEnded.deep_view(), now, uuid@);
    assert(t.0.messages_to_add =~= s.messages_to_add + seq![s.tool_message]);
    assert(t.1 =~= seq![
        ReplyActionView::Yield(AgentEventView::Message(s.tool_message)),
        ReplyActionView::NextItem,
    ]);
}

} // verus!
