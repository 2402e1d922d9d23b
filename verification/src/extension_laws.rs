//! What is told and listed of extensions, field by field and part by part.
use crate::assoc::{self, keys, lookup, put, unique_keys, without};
use crate::config_extensions::{
    config_named, dense, described, enabled_configs, enabled_in, extension_values, extensions_map,
    platform_entry, readable, with_platform, ExtensionEntryView, ExtensionsView,
};
use crate::extension::{
    ExtensionConfigView, ExtensionErrorView, ExtensionInfoView, PlatformExtensionDefView,
};
use crate::extension_manager::{
    all_tools, client_for, disable_prompt, disabled_lines, listed, name_char, normalized,
    outcome_of, parameter_names, prefixed_tools, required_text, resolved, sanitized, search_text,
    split_of, Connected, ExtensionView, ResolvedCallView, ServerInfoView,
};
use crate::json::JsonView;
use crate::text;
use crate::tool::{ContentView, ErrorDataView, ToolCallView, ToolView};
use vstd::prelude::*;

verus! {

/// The listing of a list of tools is that of its parts, one after the other: each
/// offered tool is listed once, in its place.
pub proof fn law_listing_of_parts(
    name: Seq<char>,
    config: ExtensionConfigView,
    x: Seq<ToolView>,
    y: Seq<ToolView>,
)
    ensures
        prefixed_tools(name, config, x + y) == prefixed_tools(name, config, x) + prefixed_tools(
            name,
            config,
            y,
        ),
    decreases y.len(),
{
    if y.len() == 0 {
        assert(x + y =~= x);
    } else {
        assert((x + y).drop_last() =~= x + y.drop_last());
        law_listing_of_parts(name, config, x, y.drop_last());
    }
    assert(prefixed_tools(name, config, x + y) =~= prefixed_tools(name, config, x)
        + prefixed_tools(name, config, y));
}

/// An offered tool is listed under the key, two underscores and its own name, with the
/// description, the schemas and the annotations that the extension gave it; any other
/// is not listed.
pub proof fn law_listing_of_one(name: Seq<char>, config: ExtensionConfigView, t: ToolView)
    ensures
        config.available_tools().len() == 0 || config.available_tools().contains(t.name)
            ==> prefixed_tools(name, config, seq![t]) == seq![
            ToolView {
                name: name + seq!['_', '_'] + t.name,
                title: None,
                description: t.description,
                input_schema: t.input_schema,
                output_schema: t.output_schema,
                annotations: t.annotations,
                icons: None,
            },
        ],
        config.available_tools().len() > 0 && !config.available_tools().contains(t.name)
            ==> prefixed_tools(name, config, seq![t]).len() == 0,
{
    reveal_strlit("__");
    assert("__"@ =~= seq!['_', '_']);
    assert(seq![t].drop_last() =~= Seq::empty());
    assert(prefixed_tools(name, config, Seq::empty()) =~= Seq::empty());
    let listed = ToolView {
        name: name + seq!['_', '_'] + t.name,
        title: None,
        description: t.description,
        input_schema: t.input_schema,
        output_schema: t.output_schema,
        annotations: t.annotations,
        icons: None,
    };
    assert(Seq::empty().push(listed) =~= seq![listed]);
}

/// Where an extension offers all of its tools, the listing has one entry for each, at
/// the same place, field by field the tool of the extension.
pub proof fn law_full_listing(name: Seq<char>, config: ExtensionConfigView, tools: Seq<ToolView>)
    requires
        config.available_tools().len() == 0,
    ensures
        prefixed_tools(name, config, tools).len() == tools.len(),
        forall|i: int|
            0 <= i < tools.len() ==> {
                let l = #[trigger] prefixed_tools(name, config, tools)[i];
                &&& l.name == name + seq!['_', '_'] + tools[i].name
                &&& l.description == tools[i].description
                &&& l.input_schema == tools[i].input_schema
                &&& l.output_schema == tools[i].output_schema
                &&& l.annotations == tools[i].annotations
            },
    decreases tools.len(),
{
    if tools.len() > 0 {
        let x = tools.drop_last();
        let t = tools.last();
        law_full_listing(name, config, x);
        law_listing_of_parts(name, config, x, seq![t]);
        law_listing_of_one(name, config, t);
        assert(x + seq![t] =~= tools);
        assert forall|i: int| 0 <= i < tools.len() implies {
            let l = #[trigger] prefixed_tools(name, config, tools)[i];
            &&& l.name == name + seq!['_', '_'] + tools[i].name
            &&& l.description == tools[i].description
            &&& l.input_schema == tools[i].input_schema
            &&& l.output_schema == tools[i].output_schema
            &&& l.annotations == tools[i].annotations
        } by {
            if i < x.len() {
                assert(prefixed_tools(name, config, tools)[i] == prefixed_tools(
                    name,
                    config,
                    x,
                )[i]);
            }
        }
    }
}

/// The list of offered tools, the name and the description of a configuration are its
/// own fields, whatever its kind; an empty list of tools offers all.
pub proof fn law_fields_of_a_configuration(c: ExtensionConfigView, tool: Seq<char>)
    ensures
        match c {
            ExtensionConfigView::Sse { name, description, available_tools, .. } => c.name() == name
                && c.description() == description && c.available_tools() == available_tools
                && c.shown_description() == description,
            ExtensionConfigView::StreamableHttp { name, description, available_tools, .. } =>
            c.name() == name && c.description() == description && c.available_tools()
                == available_tools && c.shown_description() == description,
            ExtensionConfigView::Stdio { name, description, available_tools, .. } => c.name()
                == name && c.description() == description && c.available_tools() == available_tools
                && c.shown_description() == description,
            ExtensionConfigView::Builtin {
                name,
                description,
                available_tools,
                display_name,
                ..
            } => c.name() == name && c.description() == description && c.available_tools()
                == available_tools && (description.len() > 0 ==> c.shown_description()
                == description) && (description.len() == 0 && display_name is Some
                ==> c.shown_description() == display_name->0) && (description.len() == 0
                && display_name is None ==> c.shown_description() == "Built-in extension"@),
            ExtensionConfigView::Platform { name, description, available_tools, .. } => c.name()
                == name && c.description() == description && c.available_tools() == available_tools
                && c.shown_description() == description,
            ExtensionConfigView::InlinePython { name, description, available_tools, .. } =>
            c.name() == name && c.description() == description && c.available_tools()
                == available_tools && c.shown_description() == description,
            ExtensionConfigView::Frontend { name, description, available_tools, .. } => c.name()
                == name && c.description() == description && c.available_tools() == available_tools
                && c.shown_description() == description,
        },
        c.offers(tool) <==> c.available_tools().len() == 0 || c.available_tools().contains(tool),
{
}

/// All listings follow one another where none failed; otherwise the first failure is
/// told, whatever came before or after.
pub proof fn law_all_listings_or_the_first_error(
    x: Seq<Result<Seq<ToolView>, ExtensionErrorView>>,
    y: Seq<Result<Seq<ToolView>, ExtensionErrorView>>,
)
    ensures
        all_tools(x) is Err ==> all_tools(x + y) == all_tools(x),
        all_tools(x) is Ok && all_tools(y) is Err ==> all_tools(x + y) == all_tools(y),
        all_tools(x) is Ok && all_tools(y) is Ok ==> all_tools(x + y) == Ok::<
            Seq<ToolView>,
            ExtensionErrorView,
        >(all_tools(x)->Ok_0 + all_tools(y)->Ok_0),
    decreases y.len(),
{
    if y.len() == 0 {
        assert(x + y =~= x);
        if all_tools(x) is Ok {
            assert(all_tools(x)->Ok_0 + all_tools(y)->Ok_0 =~= all_tools(x)->Ok_0);
        }
    } else {
        assert((x + y).drop_last() =~= x + y.drop_last());
        law_all_listings_or_the_first_error(x, y.drop_last());
        if all_tools(x) is Ok && all_tools(y) is Ok {
            let before = all_tools(y.drop_last())->Ok_0;
            assert(all_tools(x)->Ok_0 + (before + y.last()->Ok_0) =~= (all_tools(x)->Ok_0 + before)
                + y.last()->Ok_0);
        }
    }
}

/// One listing alone is told as it is.
pub proof fn law_one_listing(r: Result<Seq<ToolView>, ExtensionErrorView>)
    ensures
        r is Ok ==> all_tools(seq![r]) == Ok::<Seq<ToolView>, ExtensionErrorView>(r->Ok_0),
        r is Err ==> all_tools(seq![r]) == Err::<Seq<ToolView>, ExtensionErrorView>(r->Err_0),
{
    assert(seq![r].drop_last() =~= Seq::empty());
    assert(all_tools(Seq::empty()) == Ok::<Seq<ToolView>, ExtensionErrorView>(Seq::empty()));
    if r is Ok {
        assert(Seq::<ToolView>::empty() + r->Ok_0 =~= r->Ok_0);
    }
}

/// The extensions whose tools are listed are those under the name that is asked for, or
/// all, in their order.
pub proof fn law_listed_parts(x: Connected, y: Connected, filter: Option<Seq<char>>)
    ensures
        listed(x + y, filter) == listed(x, filter) + listed(y, filter),
        listed(x, None) == x,
        y.len() == 1 && filter is Some && filter->0 == y[0].0 ==> listed(y, filter) == y,
        y.len() == 1 && filter is Some && filter->0 != y[0].0 ==> listed(y, filter).len() == 0,
    decreases x.len() + y.len(),
{
    if y.len() == 0 {
        assert(x + y =~= x);
        if x.len() > 0 {
            law_listed_parts(x.drop_last(), y, filter);
            assert(x.drop_last().push(x.last()) =~= x);
        }
    } else {
        assert((x + y).drop_last() =~= x + y.drop_last());
        law_listed_parts(x, y.drop_last(), filter);
    }
    assert(listed(x + y, filter) =~= listed(x, filter) + listed(y, filter));
    assert(listed(x, None) =~= x);
    if y.len() == 1 {
        assert(y.drop_last() =~= Seq::empty());
        assert(y.last() == y[0]);
        if filter is Some && filter->0 == y[0].0 {
            assert(listed(y, filter) =~= y);
        }
    }
}

/// A call for a tool that its extension does not offer is refused, and says which tool
/// of which extension that was.
pub proof fn law_tool_that_is_not_offered(m: Connected, call: ToolCallView)
    requires
        client_for(m, call.name) is Some,
    ensures
        ({
            let i = (split_of(m, call.name)->0).0;
            let key = (client_for(m, call.name)->0).0;
            let ext = (client_for(m, call.name)->0).1;
            let tool = call.name.skip(i + 2);
            &&& !ext.config.offers(tool) ==> resolved(m, call) == Err::<ResolvedCallView, _>(
                ErrorDataView {
                    code: (-32002int) as i32,
                    message: "Tool '"@ + tool + "' is not available for extension '"@ + key
                        + "'"@,
                },
            )
            &&& ext.config.offers(tool) ==> resolved(m, call) == Ok::<_, ErrorDataView>(
                ResolvedCallView {
                    client_name: key,
                    client: ext.client,
                    tool_name: tool,
                    arguments: call.arguments,
                },
            )
        }),
{
}

/// The content of a call that worked is its outcome; of one that failed, an internal
/// error that tells the cause.
pub proof fn law_outcome_of_a_call(content: Seq<ContentView>, cause: Seq<char>)
    ensures
        outcome_of(Ok(content)) == Ok::<_, ErrorDataView>(content),
        outcome_of(Err(cause)) == Err::<Seq<ContentView>, _>(
            ErrorDataView { code: (-32603int) as i32, message: cause },
        ),
{
}

/// The user is asked to disable extensions from six extensions or fifty-one tools on,
/// and then told how many there are of both.
pub proof fn law_when_to_disable(extensions: nat, tools: nat)
    ensures
        extensions <= 5 && tools <= 50 ==> disable_prompt(extensions, tools).len() == 0,
        extensions > 5 || tools > 50 ==> ("The user currently has enabled "@ + text::decimal(
            extensions,
        ) + " extensions with a total of "@ + text::decimal(tools)
            + " tools. Since this exceeds the recommended limits (5 extensions or 50 tools), you should ask the user if they would like to disable some extensions for this session."@).is_prefix_of(
            disable_prompt(extensions, tools),
        ),
{
    if extensions > 5 || tools > 50 {
        let head = "The user currently has enabled "@ + text::decimal(extensions)
            + " extensions with a total of "@ + text::decimal(tools);
        reveal_strlit(
            " tools. Since this exceeds the recommended limits (5 extensions or 50 tools), you should ask the user if they would like to disable some extensions for this session.",
        );
        reveal_strlit(
            " tools. Since this exceeds the recommended limits (5 extensions or 50 tools), you should ask the user if they would like to disable some extensions for this session.\n\nUse the search_available_extensions tool to find extensions available to disable. You should only disable extensions found from the search_available_extensions tool. List all the extensions available to disable in the response. Explain that minimizing extensions helps with the recall of the correct tools to use.",
        );
        let short =
            " tools. Since this exceeds the recommended limits (5 extensions or 50 tools), you should ask the user if they would like to disable some extensions for this session."@;
        let long =
            " tools. Since this exceeds the recommended limits (5 extensions or 50 tools), you should ask the user if they would like to disable some extensions for this session.\n\nUse the search_available_extensions tool to find extensions available to disable. You should only disable extensions found from the search_available_extensions tool. List all the extensions available to disable in the response. Explain that minimizing extensions helps with the recall of the correct tools to use."@;
        assert(short =~= long.take(short.len() as int));
        let all = disable_prompt(extensions, tools);
        assert(all == head + long);
        assert(head + short =~= all.take((head + short).len() as int));
    }
}

/// The lines of a list of entries are those of its parts; an entry that is not enabled
/// has one with its name and its description, an enabled one has none.
pub proof fn law_lines_of_entries(
    x: Seq<ExtensionEntryView>,
    y: Seq<ExtensionEntryView>,
    e: ExtensionEntryView,
)
    ensures
        disabled_lines(x + y) == disabled_lines(x) + disabled_lines(y),
        e.enabled ==> disabled_lines(seq![e]).len() == 0,
        !e.enabled ==> disabled_lines(seq![e]) == seq![
            "- "@ + e.config.name() + " - "@ + e.config.shown_description(),
        ],
    decreases y.len(),
{
    if y.len() == 0 {
        assert(x + y =~= x);
    } else {
        assert((x + y).drop_last() =~= x + y.drop_last());
        law_lines_of_entries(x, y.drop_last(), e);
    }
    assert(disabled_lines(x + y) =~= disabled_lines(x) + disabled_lines(y));
    assert(seq![e].drop_last() =~= Seq::empty());
    assert(disabled_lines(Seq::empty()) =~= Seq::empty());
    if !e.enabled {
        assert(disabled_lines(seq![e]) =~= seq![
            "- "@ + e.config.name() + " - "@ + e.config.shown_description(),
        ]);
    }
}

/// A search tells first what can be enabled, one line each, and then under a heading of
/// its own which connected extensions can be disabled, one line with the key of each.
pub proof fn law_search_tells_both(m: Connected, entries: Seq<ExtensionEntryView>)
    ensures
        ({
            let off = disabled_lines(entries);
            let on = Seq::new(m.len(), |i: int| "- "@ + m[i].0);
            let first = if off.len() == 0 {
                "No extensions available to enable.\n"@
            } else {
                "Extensions available to enable:\n"@ + text::joined(off, "\n"@) + "\n"@
            };
            let second = if m.len() == 0 {
                "No extensions that can be disabled.\n"@
            } else {
                "\n\nExtensions available to disable:\n"@ + text::joined(on, "\n"@) + "\n"@
            };
            search_text(m, entries) == first + "\n"@ + second
        }),
{
    let off = disabled_lines(entries);
    let on = Seq::new(m.len(), |i: int| "- "@ + m[i].0);
    assert(keys(m).map_values(|k: Seq<char>| "- "@ + k) =~= on);
    let first = if off.len() == 0 {
        "No extensions available to enable.\n"@
    } else {
        "Extensions available to enable:\n"@ + text::joined(off, "\n"@) + "\n"@
    };
    let second = if m.len() == 0 {
        "No extensions that can be disabled.\n"@
    } else {
        "\n\nExtensions available to disable:\n"@ + text::joined(on, "\n"@) + "\n"@
    };
    reveal_with_fuel(text::joined, 3);
    assert(seq![first, second].drop_last() =~= seq![first]);
    assert(text::joined(seq![first, second], "\n"@) =~= first + "\n"@ + second);
}

/// The parameters of a tool are the fields of its schema's properties, in their order;
/// a schema without properties has none.
pub proof fn law_parameters_are_the_properties(
    schema: Seq<(Seq<char>, JsonView)>,
    properties: Seq<(Seq<char>, JsonView)>,
)
    ensures
        lookup(schema, "properties"@) == Some(JsonView::Object(properties)) ==> parameter_names(
            schema,
        ) == Seq::new(properties.len(), |i: int| properties[i].0),
        !(lookup(schema, "properties"@) matches Some(JsonView::Object(_))) ==> parameter_names(
            schema,
        ).len() == 0,
{
    assert(keys(properties) =~= Seq::new(properties.len(), |i: int| properties[i].0));
}

/// A text parameter has to be there and has to be a text; what is wrong is told with
/// its name.
pub proof fn law_required_text(params: JsonView, name: Seq<char>)
    ensures
        params.field(name) is Some && params.field(name)->0 is Text ==> required_text(params, name)
            == Ok::<_, ErrorDataView>(params.field(name)->0->Text_0),
        params.field(name) is None ==> required_text(params, name) == Err::<Seq<char>, _>(
            ErrorDataView {
                code: (-32602int) as i32,
                message: "The parameter "@ + name + " is required"@,
            },
        ),
        params.field(name) is Some && !(params.field(name)->0 is Text) ==> required_text(
            params,
            name,
        ) == Err::<Seq<char>, _>(
            ErrorDataView {
                code: (-32602int) as i32,
                message: "The parameter "@ + name + " must be a string"@,
            },
        ),
{
}

/// What is told of an extension comes from its server, under the name of the
/// extension; where the server tells nothing of itself there are no instructions and no
/// resources.
pub proof fn law_info_is_the_servers(
    name: Seq<char>,
    config: ExtensionConfigView,
    client: u64,
    server: ServerInfoView,
)
    ensures
        (ExtensionView { config, client, server_info: None }).info(name) == (ExtensionInfoView {
            name,
            instructions: Seq::empty(),
            has_resources: false,
        }),
        ({
            let info = (ExtensionView { config, client, server_info: Some(server) }).info(name);
            &&& info.name == name
            &&& info.has_resources == server.has_resources
            &&& server.instructions is Some ==> info.instructions == server.instructions->0
            &&& server.instructions is None ==> info.instructions.len() == 0
        }),
{
}

/// A name is normalized character by character: a letter in lower case, a digit, `_`
/// and `-` as they are, white space not at all, anything else as an underscore.
pub proof fn law_normalized_by_characters(x: Seq<char>, y: Seq<char>, c: char)
    ensures
        normalized(x + y) == normalized(x) + normalized(y),
        'a' <= c <= 'z' || '0' <= c <= '9' || c == '_' || c == '-' ==> normalized(seq![c]) == seq![
            c,
        ],
        'A' <= c <= 'Z' ==> normalized(seq![c]) == seq![((c as u32) + 32) as char],
        text::whitespace(c) ==> normalized(seq![c]).len() == 0,
        !text::whitespace(c) && !('a' <= c <= 'z') && !('A' <= c <= 'Z') && !('0' <= c <= '9')
            && c != '_' && c != '-' ==> normalized(seq![c]) == seq!['_'],
    decreases y.len(),
{
    if y.len() == 0 {
        assert(x + y =~= x);
    } else {
        assert((x + y).drop_last() =~= x + y.drop_last());
        law_normalized_by_characters(x, y.drop_last(), c);
        lemma_sanitized_parts(x, y);
    }
    lemma_sanitized_parts(x, y);
    assert(normalized(x + y) =~= normalized(x) + normalized(y));
    assert(seq![c].drop_last() =~= Seq::empty());
    assert(sanitized(Seq::empty()) =~= Seq::empty());
    assert(Seq::empty().push(c) =~= seq![c]);
    assert(Seq::empty().push('_') =~= seq!['_']);
    if name_char(c) {
        assert(sanitized(seq![c]) == seq![c]);
        assert(normalized(seq![c]) =~= seq![text::ascii_lower(c)]);
    } else if !text::whitespace(c) {
        assert(sanitized(seq![c]) == seq!['_']);
        assert(normalized(seq![c]) =~= seq![text::ascii_lower('_')]);
    }
}

proof fn lemma_sanitized_parts(x: Seq<char>, y: Seq<char>)
    ensures
        sanitized(x + y) == sanitized(x) + sanitized(y),
    decreases y.len(),
{
    if y.len() == 0 {
        assert(x + y =~= x);
        assert(sanitized(x) + sanitized(y) =~= sanitized(x));
    } else {
        assert((x + y).drop_last() =~= x + y.drop_last());
        lemma_sanitized_parts(x, y.drop_last());
        assert(sanitized(x + y) =~= sanitized(x) + sanitized(y));
    }
}

/// A key loses the white space of a name and nothing else, character by character.
pub proof fn law_dense_by_characters(x: Seq<char>, y: Seq<char>, c: char)
    ensures
        dense(x + y) == dense(x) + dense(y),
        text::whitespace(c) ==> dense(seq![c]).len() == 0,
        !text::whitespace(c) ==> dense(seq![c]) == seq![c],
    decreases y.len(),
{
    if y.len() == 0 {
        assert(x + y =~= x);
        assert(dense(x) + dense(y) =~= dense(x));
    } else {
        assert((x + y).drop_last() =~= x + y.drop_last());
        law_dense_by_characters(x, y.drop_last(), c);
        assert(dense(x + y) =~= dense(x) + dense(y));
    }
    assert(seq![c].drop_last() =~= Seq::empty());
    assert(dense(Seq::empty()) =~= Seq::empty());
    assert(Seq::empty().push(c) =~= seq![c]);
}

/// A configured value always has a description: its own where it is there and not
/// null, else the empty text. Its other fields stay.
pub proof fn law_every_value_is_described(
    fields: Seq<(Seq<char>, JsonView)>,
    other: Seq<char>,
)
    ensures
        ({
            let d = described(JsonView::Object(fields));
            let own = lookup(fields, "description"@);
            &&& own is None || own->0 is Null ==> d.field("description"@) == Some(
                JsonView::Text(Seq::empty()),
            )
            &&& own is Some && !(own->0 is Null) ==> d.field("description"@) == own
            &&& other != "description"@ ==> d.field(other) == lookup(fields, other)
        }),
{
    assoc::lemma_lookup_put(
        fields,
        "description"@,
        JsonView::Text(Seq::empty()),
        "description"@,
    );
    assoc::lemma_lookup_put(fields, "description"@, JsonView::Text(Seq::empty()), other);
}

/// Each field of the configured object gives one value, under its name and in its
/// place; anything but an object gives none.
pub proof fn law_values_of_the_configuration(raw: Option<JsonView>)
    ensures
        match raw {
            Some(JsonView::Object(fields)) => {
                &&& extension_values(raw).len() == fields.len()
                &&& forall|i: int|
                    0 <= i < fields.len() ==> (#[trigger] extension_values(raw)[i]).0 == fields[i].0
                        && extension_values(raw)[i].1 == described(fields[i].1)
            },
            _ => extension_values(raw).len() == 0,
        },
{
}

/// Whether an entry is the last one that could be read under its key.
pub open spec fn last_under_key(
    list: Seq<(Seq<char>, Option<ExtensionEntryView>)>,
    i: int,
) -> bool {
    &&& 0 <= i < list.len()
    &&& list[i].1 is Some
    &&& forall|j: int| i < j < list.len() && (#[trigger] list[j]).0 == list[i].0 ==> list[j].1
        is None
}

/// Of the entries that could be read the last one under a key counts; an entry that
/// could not be read counts for nothing.
pub proof fn law_last_readable_entry_counts(
    list: Seq<(Seq<char>, Option<ExtensionEntryView>)>,
    i: int,
)
    requires
        last_under_key(list, i),
    ensures
        lookup(readable(list), list[i].0) == list[i].1,
        unique_keys(readable(list)),
    decreases list.len(),
{
    lemma_readable_unique(list);
    let before = list.drop_last();
    if list.last().1 is Some {
        assoc::lemma_lookup_put(
            readable(before),
            list.last().0,
            list.last().1->0,
            list[i].0,
        );
    }
    if i < before.len() {
        assert(before[i] == list[i]);
        assert forall|j: int| i < j < before.len() && (#[trigger] before[j]).0
            == before[i].0 implies before[j].1 is None by {
            assert(before[j] == list[j]);
        }
        law_last_readable_entry_counts(before, i);
        assert(list.last() == list[list.len() - 1]);
    }
}

proof fn lemma_readable_unique(list: Seq<(Seq<char>, Option<ExtensionEntryView>)>)
    ensures
        unique_keys(readable(list)),
    decreases list.len(),
{
    if list.len() > 0 {
        lemma_readable_unique(list.drop_last());
        if list.last().1 is Some {
            assoc::lemma_unique_put(
                readable(list.drop_last()),
                list.last().0,
                list.last().1->0,
            );
        }
    }
}

/// A key under which nothing could be read is not there.
pub proof fn law_unreadable_is_not_there(
    list: Seq<(Seq<char>, Option<ExtensionEntryView>)>,
    key: Seq<char>,
)
    requires
        forall|j: int| 0 <= j < list.len() && (#[trigger] list[j]).0 == key ==> list[j].1 is None,
    ensures
        lookup(readable(list), key) is None,
    decreases list.len(),
{
    if list.len() > 0 {
        let before = list.drop_last();
        assert forall|j: int| 0 <= j < before.len() && (#[trigger] before[j]).0
            == key implies before[j].1 is None by {
            assert(before[j] == list[j]);
        }
        law_unreadable_is_not_there(before, key);
        assert(list.last() == list[list.len() - 1]);
        if list.last().1 is Some {
            assoc::lemma_lookup_put(readable(before), list.last().0, list.last().1->0, key);
        }
    }
}

/// An extension inside the agent that the configuration lacks is added enabled, with
/// its own name, display name and description, and offers all its tools. The first
/// definition under a key counts.
pub proof fn law_missing_platform_extension_is_added(
    m: ExtensionsView,
    defs: Seq<(Seq<char>, PlatformExtensionDefView)>,
    i: int,
)
    requires
        0 <= i < defs.len(),
        lookup(m, defs[i].0) is None,
        forall|j: int| 0 <= j < i ==> (#[trigger] defs[j]).0 != defs[i].0,
    ensures
        lookup(with_platform(m, defs), defs[i].0) == Some(
            ExtensionEntryView {
                enabled: true,
                config: ExtensionConfigView::Platform {
                    name: defs[i].1.name,
                    display_name: Some(defs[i].1.display_name),
                    description: defs[i].1.description,
                    bundled: Some(true),
                    available_tools: Seq::empty(),
                },
            },
        ),
    decreases defs.len(),
{
    let before = defs.drop_last();
    let rest = with_platform(m, before);
    let def = defs.last();
    assoc::lemma_lookup_put(rest, def.0, platform_entry(def.1), defs[i].0);
    if i < before.len() {
        assert(before[i] == defs[i]);
        assert forall|j: int| 0 <= j < i implies (#[trigger] before[j]).0 != before[i].0 by {
            assert(before[j] == defs[j]);
        }
        law_missing_platform_extension_is_added(m, before, i);
    } else {
        assert forall|j: int| 0 <= j < before.len() implies (#[trigger] before[j]).0 != defs[i].0 by {
            assert(before[j] == defs[j]);
        }
        lemma_platform_adds_only_defs(m, before, defs[i].0);
    }
}

proof fn lemma_platform_adds_only_defs(
    m: ExtensionsView,
    defs: Seq<(Seq<char>, PlatformExtensionDefView)>,
    key: Seq<char>,
)
    requires
        forall|j: int| 0 <= j < defs.len() ==> (#[trigger] defs[j]).0 != key,
    ensures
        lookup(with_platform(m, defs), key) == lookup(m, key),
    decreases defs.len(),
{
    if defs.len() > 0 {
        let before = defs.drop_last();
        assert forall|j: int| 0 <= j < before.len() implies (#[trigger] before[j]).0 != key by {
            assert(before[j] == defs[j]);
        }
        assert(defs.last() == defs[defs.len() - 1]);
        lemma_platform_adds_only_defs(m, before, key);
        assoc::lemma_lookup_put(
            with_platform(m, before),
            defs.last().0,
            platform_entry(defs.last().1),
            key,
        );
    }
}

/// Nothing but the extensions inside the agent is added, what the configuration holds
/// stays, and an empty configuration stays empty.
pub proof fn law_nothing_else_is_added(
    list: Seq<(Seq<char>, Option<ExtensionEntryView>)>,
    defs: Seq<(Seq<char>, PlatformExtensionDefView)>,
    key: Seq<char>,
)
    ensures
        readable(list).len() == 0 ==> extensions_map(list, defs).len() == 0,
        lookup(readable(list), key) is Some ==> lookup(extensions_map(list, defs), key) == lookup(
            readable(list),
            key,
        ),
        (forall|j: int| 0 <= j < defs.len() ==> (#[trigger] defs[j]).0 != key) ==> lookup(
            extensions_map(list, defs),
            key,
        ) == lookup(readable(list), key),
        readable(list).len() > 0 ==> extensions_map(list, defs) == with_platform(
            readable(list),
            defs,
        ),
{
    crate::config_extensions::law_platform_extensions_present(readable(list), defs, key);
    if forall|j: int| 0 <= j < defs.len() ==> (#[trigger] defs[j]).0 != key {
        lemma_platform_adds_only_defs(readable(list), defs, key);
    }
}

/// The configuration under a name is that of the first entry with the name.
pub proof fn law_first_with_name(m: ExtensionsView, name: Seq<char>, i: int)
    requires
        0 <= i < m.len(),
        m[i].1.config.name() == name,
        forall|j: int| 0 <= j < i ==> (#[trigger] m[j]).1.config.name() != name,
    ensures
        config_named(m, name) == Some(m[i].1.config),
    decreases m.len(),
{
    if i > 0 {
        assert(m[0].1.config.name() != name);
        assert forall|j: int| 0 <= j < i - 1 implies (#[trigger] m.drop_first()[j]).1.config.name()
            != name by {
            assert(m.drop_first()[j] == m[j + 1]);
        }
        assert(m.drop_first()[i - 1] == m[i]);
        law_first_with_name(m.drop_first(), name, i - 1);
    }
}

/// A name that no entry has names no configuration.
pub proof fn law_no_such_name(m: ExtensionsView, name: Seq<char>)
    requires
        forall|j: int| 0 <= j < m.len() ==> (#[trigger] m[j]).1.config.name() != name,
    ensures
        config_named(m, name) is None,
    decreases m.len(),
{
    if m.len() > 0 {
        assert(m[0].1.config.name() != name);
        assert forall|j: int| 0 <= j < m.drop_first().len() implies (
        #[trigger] m.drop_first()[j]).1.config.name() != name by {
            assert(m.drop_first()[j] == m[j + 1]);
        }
        law_no_such_name(m.drop_first(), name);
    }
}

/// The enabled configurations are those of the parts; one entry gives its own where it
/// is enabled, and none where it is not.
pub proof fn law_enabled_parts(
    x: ExtensionsView,
    y: ExtensionsView,
    e: (Seq<char>, ExtensionEntryView),
)
    ensures
        enabled_configs(x + y) == enabled_configs(x) + enabled_configs(y),
        e.1.enabled ==> enabled_configs(seq![e]) == seq![e.1.config],
        !e.1.enabled ==> enabled_configs(seq![e]).len() == 0,
        lookup(x, e.0) == Some(e.1) ==> enabled_in(x, e.0) == e.1.enabled,
    decreases y.len(),
{
    if y.len() == 0 {
        assert(x + y =~= x);
    } else {
        assert((x + y).drop_last() =~= x + y.drop_last());
        law_enabled_parts(x, y.drop_last(), e);
    }
    assert(enabled_configs(x + y) =~= enabled_configs(x) + enabled_configs(y));
    assert(seq![e].drop_last() =~= Seq::empty());
    assert(enabled_configs(Seq::empty()) =~= Seq::empty());
    assert(Seq::empty().push(e.1.config) =~= seq![e.1.config]);
}

/// What is removed leaves the others in their places, one after the other.
pub proof fn law_without_keeps_order<V>(
    x: Seq<(Seq<char>, V)>,
    y: Seq<(Seq<char>, V)>,
    k: Seq<char>,
    e: (Seq<char>, V),
)
    ensures
        without(x + y, k) == without(x, k) + without(y, k),
        e.0 == k ==> without(seq![e], k).len() == 0,
        e.0 != k ==> without(seq![e], k) == seq![e],
    decreases x.len(),
{
    if x.len() == 0 {
        assert(x + y =~= y);
        assert(without(x, k) + without(y, k) =~= without(y, k));
    } else {
        assert((x + y).drop_first() =~= x.drop_first() + y);
        law_without_keeps_order(x.drop_first(), y, k, e);
        assert(without(x + y, k) =~= without(x, k) + without(y, k));
    }
    assert(seq![e].drop_first() =~= Seq::empty());
    assert(without(Seq::<(Seq<char>, V)>::empty(), k) =~= Seq::empty());
    if e.0 != k {
        assert(without(seq![e], k) =~= seq![e]);
    }
}

/// What is put under a new name comes last, and under a known one takes the place of
/// what stood there first.
pub proof fn law_put_keeps_order<V>(s: Seq<(Seq<char>, V)>, k: Seq<char>, v: V, i: int)
    requires
        0 <= i <= s.len(),
        forall|j: int| 0 <= j < i ==> (#[trigger] s[j]).0 != k,
        i < s.len() ==> s[i].0 == k,
    ensures
        i == s.len() ==> put(s, k, v) == s + seq![(k, v)],
        i < s.len() ==> put(s, k, v) == s.take(i) + seq![(k, v)] + s.skip(i + 1),
{
    if i == s.len() {
        assoc::lemma_put_absent(s, k, v);
        assert(put(s, k, v) =~= s + seq![(k, v)]);
    } else {
        assoc::lemma_put_at(s, k, v, i);
        assert(put(s, k, v) =~= s.take(i) + seq![(k, v)] + s.skip(i + 1));
    }
}

} // verus!
