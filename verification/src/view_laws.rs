//! Nothing is lost between a value and what is said of it: each part of a value is seen
//! under its own name.
use crate::assoc::lookup;
use crate::config_extensions::ExtensionEntry;
use crate::extension::{ExtensionConfig, ExtensionConfigView, ExtensionError};
use crate::extension_manager::{listings_view, resources_somewhere, Connected};
use crate::json::{Json, JsonView};
use crate::message::{Message, MessageContent, MessageContentView, Role, ToolResponse};
use crate::permission_judge::{PermissionCheckResult, PermissionManager};
use crate::recipe::{Recipe, RecipeParts};
use crate::sampling_approval::{role_name, sse_message};
use crate::session_builder::debug_prompt_text;
use crate::tool::{Content, ContentView, ErrorData, Tool, ToolAnnotations, ToolCall, ToolRequest};
use vstd::prelude::*;

verus! {

/// A tool is seen with all its parts.
pub proof fn law_tool_is_seen(t: Tool, a: ToolAnnotations)
    ensures
        t.deep_view().name == t.name@,
        t.deep_view().title == t.title.deep_view(),
        t.deep_view().description == t.description.deep_view(),
        t.deep_view().input_schema == t.input_schema.deep_view(),
        t.deep_view().output_schema == t.output_schema.deep_view(),
        t.deep_view().annotations == t.annotations.deep_view(),
        t.deep_view().icons == t.icons.deep_view(),
        a.deep_view().title == a.title.deep_view(),
        a.deep_view().read_only_hint == a.read_only_hint,
        a.deep_view().destructive_hint == a.destructive_hint,
        a.deep_view().idempotent_hint == a.idempotent_hint,
        a.deep_view().open_world_hint == a.open_world_hint,
{
}

/// A call and its answer are seen with all their parts.
pub proof fn law_call_is_seen(
    c: ToolCall,
    q: ToolRequest,
    a: ToolResponse,
    e: ErrorData,
    call: ToolCall,
    list: Vec<Content>,
)
    ensures
        c.deep_view().name == c.name@,
        c.deep_view().arguments == c.arguments.deep_view(),
        q.deep_view().id == q.id@,
        q.tool_call == Ok::<ToolCall, ErrorData>(call) ==> q.deep_view().tool_call is Ok
            && q.deep_view().tool_call->Ok_0 == call.deep_view(),
        q.tool_call == Err::<ToolCall, ErrorData>(e) ==> q.deep_view().tool_call is Err
            && q.deep_view().tool_call->Err_0 == e.deep_view(),
        a.deep_view().id == a.id@,
        a.result == Ok::<Vec<Content>, ErrorData>(list) ==> a.deep_view().result is Ok
            && a.deep_view().result->Ok_0 == list.deep_view(),
        a.result == Err::<Vec<Content>, ErrorData>(e) ==> a.deep_view().result is Err
            && a.deep_view().result->Err_0 == e.deep_view(),
        e.deep_view().code == e.code,
        e.deep_view().message == e.message@,
{
}

/// A message is seen with all its parts.
pub proof fn law_message_is_seen(m: Message, c: MessageContent, x: Content)
    ensures
        m.deep_view().id == m.id.deep_view(),
        m.deep_view().role == m.role,
        m.deep_view().created == m.created,
        m.deep_view().content == m.content.deep_view(),
        match c {
            MessageContent::Text(s) => c.deep_view() == MessageContentView::Text(s@),
            MessageContent::ToolRequest(q) => c.deep_view() == MessageContentView::ToolRequest(
                q.deep_view(),
            ),
            MessageContent::ToolResponse(a) => c.deep_view() == MessageContentView::ToolResponse(
                a.deep_view(),
            ),
            MessageContent::FrontendToolRequest(q) => c.deep_view()
                == MessageContentView::FrontendToolRequest(q.deep_view()),
            MessageContent::ConversationCompacted(s) => c.deep_view()
                == MessageContentView::ConversationCompacted(s@),
            MessageContent::Opaque(h) => c.deep_view() == MessageContentView::Opaque(h),
        },
        match x {
            Content::Text(s) => x.deep_view() == ContentView::Text(s@),
            Content::Opaque(h) => x.deep_view() == ContentView::Opaque(h),
        },
{
}

/// A recipe is seen with all its parts.
pub proof fn law_recipe_is_seen(r: Recipe, p: RecipeParts)
    ensures
        r.deep_view().title == r.title@,
        r.deep_view().description == r.description@,
        r.deep_view().instructions == r.instructions@,
        r.deep_view().activities == r.activities.deep_view(),
        r.deep_view().extensions == r.extensions.deep_view(),
        r.deep_view().author_contact == r.author_contact.deep_view(),
        r.deep_view().settings.goose_provider == r.settings.goose_provider.deep_view(),
        r.deep_view().settings.goose_model == r.settings.goose_model.deep_view(),
        r.deep_view().settings.temperature_bits == r.settings.temperature_bits,
        p.deep_view().title == p.title@,
        p.deep_view().description == p.description@,
        p.deep_view().instructions == p.instructions@,
        p.deep_view().activities == p.activities.deep_view(),
{
}

/// Permissions are seen with all their parts.
pub proof fn law_permissions_are_seen(p: PermissionManager, r: PermissionCheckResult)
    ensures
        p.deep_view().user == p.user.deep_view(),
        p.deep_view().smart_approve == p.smart_approve.deep_view(),
        r.deep_view().approved == r.approved.deep_view(),
        r.deep_view().needs_approval == r.needs_approval.deep_view(),
        r.deep_view().denied == r.denied.deep_view(),
{
}

/// A configuration of an extension is seen as the kind that it is, with all its parts.
pub proof fn law_configuration_is_seen(c: ExtensionConfig, e: ExtensionEntry)
    ensures
        e.deep_view().enabled == e.enabled,
        e.deep_view().config == e.config.deep_view(),
        match c {
            ExtensionConfig::Sse {
                name,
                description,
                uri,
                envs,
                env_keys,
                timeout,
                bundled,
                available_tools,
            } => c.deep_view() == (ExtensionConfigView::Sse {
                name: name@,
                description: description@,
                uri: uri@,
                envs: envs.deep_view(),
                env_keys: env_keys.deep_view(),
                timeout,
                bundled,
                available_tools: available_tools.deep_view(),
            }),
            ExtensionConfig::StreamableHttp {
                name,
                description,
                uri,
                envs,
                env_keys,
                headers,
                timeout,
                bundled,
                available_tools,
            } => c.deep_view() == (ExtensionConfigView::StreamableHttp {
                name: name@,
                description: description@,
                uri: uri@,
                envs: envs.deep_view(),
                env_keys: env_keys.deep_view(),
                headers: headers.deep_view(),
                timeout,
                bundled,
                available_tools: available_tools.deep_view(),
            }),
            ExtensionConfig::Stdio {
                name,
                description,
                cmd,
                args,
                envs,
                env_keys,
                timeout,
                bundled,
                available_tools,
            } => c.deep_view() == (ExtensionConfigView::Stdio {
                name: name@,
                description: description@,
                cmd: cmd@,
                args: args.deep_view(),
                envs: envs.deep_view(),
                env_keys: env_keys.deep_view(),
                timeout,
                bundled,
                available_tools: available_tools.deep_view(),
            }),
            ExtensionConfig::Builtin {
                name,
                display_name,
                description,
                timeout,
                bundled,
                available_tools,
            } => c.deep_view() == (ExtensionConfigView::Builtin {
                name: name@,
                display_name: display_name.deep_view(),
                description: description@,
                timeout,
                bundled,
                available_tools: available_tools.deep_view(),
            }),
            ExtensionConfig::Platform {
                name,
                display_name,
                description,
                bundled,
                available_tools,
            } => c.deep_view() == (ExtensionConfigView::Platform {
                name: name@,
                display_name: display_name.deep_view(),
                description: description@,
                bundled,
                available_tools: available_tools.deep_view(),
            }),
            ExtensionConfig::InlinePython {
                name,
                description,
                code,
                timeout,
                dependencies,
                available_tools,
            } => c.deep_view() == (ExtensionConfigView::InlinePython {
                name: name@,
                description: description@,
                code: code@,
                timeout,
                dependencies: dependencies.deep_view(),
                available_tools: available_tools.deep_view(),
            }),
            ExtensionConfig::Frontend {
                name,
                description,
                tools,
                instructions,
                bundled,
                available_tools,
            } => c.deep_view() == (ExtensionConfigView::Frontend {
                name: name@,
                description: description@,
                tools: tools.deep_view(),
                instructions: instructions.deep_view(),
                bundled,
                available_tools: available_tools.deep_view(),
            }),
        },
{
}

/// A field of an object is what stands first under its name; nothing else has fields. A
/// text field is one that is a text.
pub proof fn law_fields_of_a_value(
    j: JsonView,
    fields: Seq<(Seq<char>, JsonView)>,
    name: Seq<char>,
)
    ensures
        JsonView::Object(fields).field(name) == lookup(fields, name),
        !(j is Object) ==> j.field(name) is None,
        j.field(name) is Some && j.field(name)->0 is Text ==> j.text_field(name) == Some(
            j.field(name)->0->Text_0,
        ),
        j.field(name) is None || !(j.field(name)->0 is Text) ==> j.text_field(name) is None,
        j is Array ==> j.items() == Some(j->Array_0),
        !(j is Array) ==> j.items() is None,
{
}

/// A value is seen as what it is, with all that it holds, in order.
pub proof fn law_value_is_seen(j: Json, i: int)
    ensures
        match j {
            Json::Null => j.deep_view() is Null,
            Json::Bool(b) => j.deep_view() == JsonView::Bool(b),
            Json::Number(n) => j.deep_view() == (JsonView::Number {
                text: n.text@,
                as_u64: n.as_u64,
            }),
            Json::Text(s) => j.deep_view() == JsonView::Text(s@),
            Json::Array(items) => {
                &&& j.deep_view() is Array
                &&& j.deep_view()->Array_0.len() == items@.len()
                &&& 0 <= i < items@.len() ==> j.deep_view()->Array_0[i] == items@[i].deep_view()
            },
            Json::Object(fields) => {
                &&& j.deep_view() is Object
                &&& j.deep_view()->Object_0.len() == fields@.len()
                &&& 0 <= i < fields@.len() ==> j.deep_view()->Object_0[i] == (
                    fields@[i].0@,
                    fields@[i].1.deep_view(),
                )
            },
        },
{
}

/// What several listings are seen as.
pub proof fn law_listings_are_seen(
    list: Seq<Result<Vec<Tool>, ExtensionError>>,
    i: int,
    tools: Vec<Tool>,
    e: ExtensionError,
)
    requires
        0 <= i < list.len(),
    ensures
        listings_view(list).len() == list.len(),
        list[i] == Ok::<Vec<Tool>, ExtensionError>(tools) ==> listings_view(list)[i] is Ok
            && listings_view(list)[i]->Ok_0 == tools.deep_view(),
        list[i] == Err::<Vec<Tool>, ExtensionError>(e) ==> listings_view(list)[i] is Err
            && listings_view(list)[i]->Err_0 == e.deep_view(),
{
}

/// A message of a stream of events is its text behind the mark of data, and an empty line.
pub proof fn law_framed_message(json: Seq<char>)
    ensures
        sse_message(json) == seq!['d', 'a', 't', 'a', ':', ' '] + json + seq!['\n', '\n'],
        role_name(Role::User) == "user"@,
        role_name(Role::Assistant) == "assistant"@,
{
    reveal_strlit("data: ");
    reveal_strlit("\n\n");
    assert("data: "@ =~= seq!['d', 'a', 't', 'a', ':', ' ']);
    assert("\n\n"@ =~= seq!['\n', '\n']);
}

/// Some extension offers resources just where one of the parts has one that does.
pub proof fn law_resources_somewhere(x: Connected, y: Connected)
    ensures
        resources_somewhere(x + y) <==> resources_somewhere(x) || resources_somewhere(y),
        !resources_somewhere(Seq::empty()),
        y.len() == 1 ==> (resources_somewhere(y) <==> y[0].1.server_info is Some
            && y[0].1.server_info->0.has_resources),
{
    if resources_somewhere(x) {
        let i = choose|i: int| 0 <= i < x.len() && (#[trigger] x[i]).1.offers_resources();
        assert((x + y)[i] == x[i]);
    }
    if resources_somewhere(y) {
        let i = choose|i: int| 0 <= i < y.len() && (#[trigger] y[i]).1.offers_resources();
        assert((x + y)[i + x.len()] == y[i]);
    }
    if resources_somewhere(x + y) {
        let i = choose|i: int|
            0 <= i < (x + y).len() && (#[trigger] (x + y)[i]).1.offers_resources();
        if i < x.len() {
            assert(x[i] == (x + y)[i]);
        } else {
            assert(y[i - x.len()] == (x + y)[i]);
        }
    }
    if y.len() == 1 && y[0].1.offers_resources() {
        assert(resources_somewhere(y));
    }
}

/// What a model is asked where an extension did not start holds the name of the extension
/// and the error.
pub proof fn law_debug_prompt(name: Seq<char>, error: Seq<char>)
    ensures
        ("I'm having trouble starting an extension called '"@ + name
            + "'. Here's the error I encountered:\n\n"@ + error).is_prefix_of(
            debug_prompt_text(name, error),
        ),
{
    let head = "I'm having trouble starting an extension called '"@ + name
        + "'. Here's the error I encountered:\n\n"@ + error;
    let all = debug_prompt_text(name, error);
    assert(head =~= all.take(head.len() as int));
}

} // verus!
