//! The connected extensions: their tools, resources and prompts.
use crate::assoc::{self, keys, lookup, put, unique_keys, without};
use crate::base::{self, Duplicate};
use crate::config_extensions::{self, ExtensionEntry, ExtensionEntryView};
use crate::extension::{ExtensionConfig, ExtensionConfigView, ExtensionError, ExtensionErrorView};
use crate::extension::{ExtensionInfo, ExtensionInfoView};
use crate::json::{self, Json, JsonView};
use crate::text;
use crate::tool::{
    self, Content, ContentView, ErrorData, ErrorDataView, Tool, ToolCall, ToolCallView, ToolResult,
    ToolView, INTERNAL_ERROR, INVALID_PARAMS, RESOURCE_NOT_FOUND,
};
use vstd::prelude::*;
use vstd::string::*;

verus! {

/// What a server tells of itself.
#[derive(Debug, PartialEq)]
pub struct ServerInfo {
    pub has_resources: bool,
    pub instructions: Option<String>,
}

#[verifier::ext_equal]
pub struct ServerInfoView {
    pub has_resources: bool,
    pub instructions: Option<Seq<char>>,
}

impl DeepView for ServerInfo {
    type V = ServerInfoView;

    open spec fn deep_view(&self) -> ServerInfoView {
        ServerInfoView {
            has_resources: self.has_resources,
            instructions: self.instructions.deep_view(),
        }
    }
}

impl Duplicate for ServerInfo {
    fn duplicate(&self) -> (r: Self) {
        ServerInfo {
            has_resources: self.has_resources,
            instructions: self.instructions.duplicate(),
        }
    }
}

/// A connected extension. The client is a number under which the caller keeps it.
#[derive(Debug, PartialEq)]
pub struct Extension {
    pub config: ExtensionConfig,
    pub client: u64,
    pub server_info: Option<ServerInfo>,
}

#[verifier::ext_equal]
pub struct ExtensionView {
    pub config: ExtensionConfigView,
    pub client: u64,
    pub server_info: Option<ServerInfoView>,
}

impl DeepView for Extension {
    type V = ExtensionView;

    open spec fn deep_view(&self) -> ExtensionView {
        ExtensionView {
            config: self.config.deep_view(),
            client: self.client,
            server_info: self.server_info.deep_view(),
        }
    }
}

impl Duplicate for Extension {
    fn duplicate(&self) -> (r: Self) {
        Extension {
            config: self.config.duplicate(),
            client: self.client,
            server_info: self.server_info.duplicate(),
        }
    }
}

/// The connected extensions, each under its normalized name.
#[derive(Debug, PartialEq)]
pub struct ExtensionManager {
    pub extensions: Vec<(String, Extension)>,
}

pub type Connected = Seq<(Seq<char>, ExtensionView)>;

impl View for ExtensionManager {
    type V = Connected;

    open spec fn view(&self) -> Connected {
        self.extensions.deep_view()
    }
}

/// The characters that a normalized name keeps.
pub open spec fn name_char(c: char) -> bool {
    ('a' <= c && c <= 'z') || ('A' <= c && c <= 'Z') || ('0' <= c && c <= '9') || c == '_' || c
        == '-'
}

/// A text in which white space is gone and every other character that a name
/// cannot have is an underscore.
pub open spec fn sanitized(s: Seq<char>) -> Seq<char>
    decreases s.len(),
{
    if s.len() == 0 {
        s
    } else {
        let rest = sanitized(s.drop_last());
        let c = s.last();
        if name_char(c) {
            rest.push(c)
        } else if text::whitespace(c) {
            rest
        } else {
            rest.push('_')
        }
    }
}

/// The name under which an extension is kept: sanitized, in lower case.
pub open spec fn normalized(s: Seq<char>) -> Seq<char> {
    text::ascii_lowercase(sanitized(s))
}

proof fn lemma_sanitized_chars(s: Seq<char>)
    ensures
        forall|i: int| 0 <= i < sanitized(s).len() ==> name_char(#[trigger] sanitized(s)[i]),
    decreases s.len(),
{
    if s.len() > 0 {
        lemma_sanitized_chars(s.drop_last());
        assert forall|i: int| 0 <= i < sanitized(s).len() implies name_char(
            #[trigger] sanitized(s)[i],
        ) by {
            if i < sanitized(s.drop_last()).len() {
                assert(sanitized(s)[i] == sanitized(s.drop_last())[i]);
            }
        }
    }
}

/// Strips white space, replaces other characters that are not ASCII letters,
/// digits, `_` or `-` with underscores, and turns letters to lower case.
pub fn normalize(input: String) -> (r: String)
    ensures
        r@ == normalized(input@),
{
    let chars = text::to_chars(&input);
    let mut out = String::new();
    let mut i: usize = 0;
    assert(input@.take(0) =~= Seq::<char>::empty());
    while i < chars.len()
        invariant
            i <= chars@.len(),
            chars@ == input@,
            out@ == sanitized(input@.take(i as int)),
        decreases chars@.len() - i,
    {
        assert(input@.take(i + 1).drop_last() =~= input@.take(i as int));
        let c = chars[i];
        if (c >= 'a' && c <= 'z') || (c >= 'A' && c <= 'Z') || (c >= '0' && c <= '9') || c == '_'
            || c == '-' {
            out.push(c);
        } else if !text::is_whitespace(c) {
            out.push('_');
        }
        i = i + 1;
    }
    assert(input@.take(input@.len() as int) =~= input@);
    proof {
        lemma_sanitized_chars(input@);
        assert(text::is_ascii_text(out@));
    }
    text::to_lowercase(&out)
}

/// A normalized name holds only lower-case ASCII letters, digits, `_` and `-`.
pub proof fn law_normalized_chars(s: Seq<char>)
    ensures
        forall|i: int|
            0 <= i < normalized(s).len() ==> {
                let c = #[trigger] normalized(s)[i];
                ('a' <= c && c <= 'z') || ('0' <= c && c <= '9') || c == '_' || c == '-'
            },
{
    lemma_sanitized_chars(s);
    assert forall|i: int| 0 <= i < normalized(s).len() implies {
        let c = #[trigger] normalized(s)[i];
        ('a' <= c && c <= 'z') || ('0' <= c && c <= '9') || c == '_' || c == '-'
    } by {
        assert(name_char(sanitized(s)[i]));
    }
}

proof fn lemma_sanitized_of_name(s: Seq<char>)
    requires
        forall|i: int| 0 <= i < s.len() ==> name_char(#[trigger] s[i]),
    ensures
        sanitized(s) == s,
    decreases s.len(),
{
    if s.len() > 0 {
        assert(name_char(s[s.len() - 1]));
        assert forall|i: int| 0 <= i < s.drop_last().len() implies name_char(
            #[trigger] s.drop_last()[i],
        ) by {
            assert(name_char(s[i]));
        }
        lemma_sanitized_of_name(s.drop_last());
        assert(sanitized(s) =~= s);
    }
}

/// A text of lower-case ASCII letters, digits, `_` and `-` is normalized.
pub proof fn lemma_normalized_name(s: Seq<char>)
    requires
        forall|i: int|
            0 <= i < s.len() ==> {
                let c = #[trigger] s[i];
                ('a' <= c && c <= 'z') || ('0' <= c && c <= '9') || c == '_' || c == '-'
            },
    ensures
        normalized(s) == s,
{
    assert forall|i: int| 0 <= i < s.len() implies name_char(#[trigger] s[i]) by {}
    lemma_sanitized_of_name(s);
    assert(text::ascii_lowercase(s) =~= s);
}

/// Normalizing twice is normalizing once.
pub proof fn law_normalized_is_stable(s: Seq<char>)
    ensures
        normalized(normalized(s)) == normalized(s),
{
    law_normalized_chars(s);
    lemma_normalized_name(normalized(s));
}

proof fn lemma_normalized_push(s: Seq<char>)
    requires
        s.len() > 0,
    ensures
        normalized(s) == if name_char(s.last()) {
            normalized(s.drop_last()).push(text::ascii_lower(s.last()))
        } else if text::whitespace(s.last()) {
            normalized(s.drop_last())
        } else {
            normalized(s.drop_last()).push('_')
        },
{
    let rest = sanitized(s.drop_last());
    let c = s.last();
    assert(text::ascii_lowercase(rest.push(c)) =~= text::ascii_lowercase(rest).push(
        text::ascii_lower(c),
    ));
    assert(text::ascii_lowercase(rest.push('_')) =~= text::ascii_lowercase(rest).push('_'));
}

/// An extension with an ASCII name is kept under the same name as is looked for
/// when it is removed by its name: the key of a name normalizes as the name.
pub proof fn law_key_normalizes_as_name(name: Seq<char>)
    requires
        text::is_ascii_text(name),
    ensures
        normalized(config_extensions::key_of(name)) == normalized(name),
{
    config_extensions::lemma_dense_ascii(name);
    lemma_ascii_key(name);
}

proof fn lemma_ascii_key(name: Seq<char>)
    requires
        text::is_ascii_text(name),
    ensures
        normalized(text::ascii_lowercase(config_extensions::dense(name))) == normalized(name),
    decreases name.len(),
{
    let d = config_extensions::dense(name);
    let k = text::ascii_lowercase(d);
    if name.len() > 0 {
        let rest = name.drop_last();
        assert forall|i: int| 0 <= i < rest.len() implies (#[trigger] rest[i] as u32) < 128 by {
            assert((name[i] as u32) < 128);
        }
        lemma_ascii_key(rest);
        lemma_normalized_push(name);
        let c = name.last();
        if !text::whitespace(c) {
            let dr = config_extensions::dense(rest);
            assert(k =~= text::ascii_lowercase(dr).push(text::ascii_lower(c)));
            assert(k.drop_last() =~= text::ascii_lowercase(dr));
            lemma_normalized_push(k);
            assert((c as u32) < 128) by {
                assert((name[name.len() - 1] as u32) < 128);
            }
        }
    } else {
        assert(k =~= name);
    }
}

/// The names of the fields of the object `properties` of an input schema.
pub open spec fn parameter_names(schema: Seq<(Seq<char>, JsonView)>) -> Seq<Seq<char>> {
    match lookup(schema, "properties"@) {
        Some(JsonView::Object(props)) => keys(props),
        _ => Seq::empty(),
    }
}

/// The names of the parameters of a tool, in the order of its schema.
pub fn get_parameter_names(tool: &Tool) -> (r: Vec<String>)
    ensures
        r.deep_view() == parameter_names(tool.deep_view().input_schema),
{
    match assoc::get(&tool.input_schema, "properties") {
        Some(Json::Object(props)) => {
            proof {
                json::lemma_object_view(*props);
            }
            assoc::key_list(props)
        },
        _ => {
            let out: Vec<String> = Vec::new();
            assert(out.deep_view() =~= Seq::<Seq<char>>::empty());
            out
        },
    }
}

/// A parameter that has to be there and has to be a text.
pub open spec fn required_text(params: JsonView, name: Seq<char>) -> Result<
    Seq<char>,
    ErrorDataView,
> {
    match params.field(name) {
        None => Err(
            ErrorDataView {
                code: INVALID_PARAMS,
                message: "The parameter "@ + name + " is required"@,
            },
        ),
        Some(JsonView::Text(s)) => Ok(s),
        Some(_) => Err(
            ErrorDataView {
                code: INVALID_PARAMS,
                message: "The parameter "@ + name + " must be a string"@,
            },
        ),
    }
}

/// A parameter that has to be there and has to be a text.
pub fn require_str_parameter<'a>(params: &'a Json, name: &str) -> (r: Result<
    &'a String,
    ErrorData,
>)
    ensures
        match r {
            Ok(s) => required_text(params.deep_view(), name@) == Ok::<_, ErrorDataView>(s@),
            Err(e) => required_text(params.deep_view(), name@) == Err::<Seq<char>, _>(
                e.deep_view(),
            ),
        },
{
    match params.get(name) {
        None => {
            let message = text::cat3("The parameter ", name, " is required");
            Err(ErrorData { code: INVALID_PARAMS, message })
        },
        Some(v) => match v.as_str() {
            Some(s) => Ok(s),
            None => {
                let message = text::cat3("The parameter ", name, " must be a string");
                Err(ErrorData { code: INVALID_PARAMS, message })
            },
        },
    }
}

impl ExtensionView {
    /// Whether the server offers resources.
    pub open spec fn offers_resources(self) -> bool {
        self.server_info is Some && self.server_info->0.has_resources
    }

    /// What is told of the extension.
    pub open spec fn info(self, name: Seq<char>) -> ExtensionInfoView {
        ExtensionInfoView {
            name,
            instructions: match self.server_info {
                Some(i) => match i.instructions {
                    Some(t) => t,
                    None => Seq::empty(),
                },
                None => Seq::empty(),
            },
            has_resources: self.offers_resources(),
        }
    }
}

impl Extension {
    /// Whether the server offers resources.
    pub fn supports_resources(&self) -> (r: bool)
        ensures
            r == self.deep_view().offers_resources(),
    {
        match &self.server_info {
            Some(i) => i.has_resources,
            None => false,
        }
    }

    /// The server's instructions.
    pub fn get_instructions(&self) -> (r: Option<String>)
        ensures
            r.deep_view() == match self.deep_view().server_info {
                Some(i) => i.instructions,
                None => None,
            },
    {
        match &self.server_info {
            Some(i) => i.instructions.duplicate(),
            None => None,
        }
    }
}

/// A tool under the name of its extension.
pub open spec fn prefixed(name: Seq<char>, tool: Seq<char>) -> Seq<char> {
    name + "__"@ + tool
}

pub open spec fn prefixed_tool(name: Seq<char>, t: ToolView) -> ToolView {
    ToolView { name: prefixed(name, t.name), icons: None, title: None, ..t }
}

/// The offered tools of an extension, under its name.
pub open spec fn prefixed_tools(
    name: Seq<char>,
    config: ExtensionConfigView,
    tools: Seq<ToolView>,
) -> Seq<ToolView>
    decreases tools.len(),
{
    if tools.len() == 0 {
        Seq::empty()
    } else {
        let rest = prefixed_tools(name, config, tools.drop_last());
        if config.offers(tools.last().name) {
            rest.push(prefixed_tool(name, tools.last()))
        } else {
            rest
        }
    }
}

/// The offered tools of an extension, under its name.
pub fn prefix_tools(name: &str, config: &ExtensionConfig, tools: &Vec<Tool>) -> (r: Vec<Tool>)
    ensures
        r.deep_view() == prefixed_tools(name@, config.deep_view(), tools.deep_view()),
{
    let mut out: Vec<Tool> = Vec::new();
    let ghost all = tools.deep_view();
    let mut i: usize = 0;
    assert(out.deep_view() =~= prefixed_tools(name@, config.deep_view(), all.take(0)));
    while i < tools.len()
        invariant
            i <= tools@.len(),
            all == tools.deep_view(),
            out.deep_view() == prefixed_tools(name@, config.deep_view(), all.take(i as int)),
        decreases tools@.len() - i,
    {
        assert(all.take(i + 1).drop_last() =~= all.take(i as int));
        let t = &tools[i];
        if config.is_tool_available(&t.name) {
            let p = Tool {
                name: text::cat3(name, "__", &t.name),
                title: None,
                description: t.description.duplicate(),
                input_schema: t.input_schema.duplicate(),
                output_schema: t.output_schema.duplicate(),
                annotations: t.annotations.duplicate(),
                icons: None,
            };
            assert(p.deep_view() == prefixed_tool(name@, t.deep_view()));
            base::push(&mut out, p);
        }
        i = i + 1;
    }
    assert(all.take(tools@.len() as int) =~= all);
    out
}

/// The tools of one extension, as its pages come in.
#[derive(Debug, PartialEq)]
pub struct ToolListing {
    pub name: String,
    pub config: ExtensionConfig,
    pub tools: Vec<Tool>,
}

impl ToolListing {
    /// Adds a page. Returns the cursor of the next page, or none where this was
    /// the last one.
    pub fn add_page(&mut self, page: &Vec<Tool>, next_cursor: Option<String>) -> (r: Option<
        String,
    >)
        ensures
            final(self).name == old(self).name,
            final(self).config == old(self).config,
            final(self).tools.deep_view() == old(self).tools.deep_view() + prefixed_tools(
                old(self).name@,
                old(self).config.deep_view(),
                page.deep_view(),
            ),
            r == next_cursor,
    {
        let more = prefix_tools(&self.name, &self.config, page);
        base::extend(&mut self.tools, &more);
        next_cursor
    }
}

pub open spec fn listing_view(r: Result<Vec<Tool>, ExtensionError>) -> Result<
    Seq<ToolView>,
    ExtensionErrorView,
> {
    match r {
        Ok(t) => Ok(t.deep_view()),
        Err(e) => Err(e.deep_view()),
    }
}

pub open spec fn listings_view(list: Seq<Result<Vec<Tool>, ExtensionError>>) -> Seq<
    Result<Seq<ToolView>, ExtensionErrorView>,
> {
    list.map_values(|r: Result<Vec<Tool>, ExtensionError>| listing_view(r))
}

/// All tools of the extensions, or the first error.
pub open spec fn all_tools(list: Seq<Result<Seq<ToolView>, ExtensionErrorView>>) -> Result<
    Seq<ToolView>,
    ExtensionErrorView,
>
    decreases list.len(),
{
    if list.len() == 0 {
        Ok(Seq::empty())
    } else {
        match all_tools(list.drop_last()) {
            Err(e) => Err(e),
            Ok(tools) => match list.last() {
                Ok(more) => Ok(tools + more),
                Err(e) => Err(e),
            },
        }
    }
}

proof fn lemma_first_error(
    list: Seq<Result<Seq<ToolView>, ExtensionErrorView>>,
    n: int,
    e: ExtensionErrorView,
)
    requires
        0 <= n <= list.len(),
        all_tools(list.take(n)) == Err::<Seq<ToolView>, _>(e),
    ensures
        all_tools(list) == Err::<Seq<ToolView>, _>(e),
    decreases list.len() - n,
{
    if n < list.len() {
        assert(list.take(n + 1).drop_last() =~= list.take(n));
        lemma_first_error(list, n + 1, e);
    } else {
        assert(list.take(n) =~= list);
    }
}

/// All tools of the extensions, or the first error.
pub fn collect_tools(results: Vec<Result<Vec<Tool>, ExtensionError>>) -> (r: Result<
    Vec<Tool>,
    ExtensionError,
>)
    ensures
        listing_view(r) == all_tools(listings_view(results@)),
{
    let ghost list = listings_view(results@);
    let mut out: Vec<Tool> = Vec::new();
    let mut rest = results;
    let ghost mut n: int = 0;
    assert(out.deep_view() =~= Seq::<ToolView>::empty());
    assert(list.take(0) =~= Seq::empty());
    assert(list.skip(0) =~= list);
    while rest.len() > 0
        invariant
            0 <= n <= list.len(),
            list == listings_view(results@),
            listings_view(rest@) == list.skip(n),
            all_tools(list.take(n)) == Ok::<_, ExtensionErrorView>(out.deep_view()),
        decreases rest@.len(),
    {
        let ghost r0 = rest@;
        let first = rest.remove(0);
        proof {
            assert(list.skip(n).len() == r0.len());
            assert(listings_view(r0)[0] == list.skip(n)[0]);
            assert(listing_view(first) == list[n]);
            assert(list.take(n + 1).drop_last() =~= list.take(n));
            assert(rest@ == r0.remove(0));
            assert(listings_view(rest@).len() == list.skip(n + 1).len());
            assert forall|j: int| 0 <= j < rest@.len() implies #[trigger] listings_view(rest@)[j]
                == list.skip(n + 1)[j] by {
                assert(listings_view(r0)[j + 1] == list.skip(n)[j + 1]);
            }
            assert(listings_view(rest@) =~= list.skip(n + 1));
        }
        match first {
            Ok(more) => {
                base::extend(&mut out, &more);
            },
            Err(e) => {
                proof {
                    lemma_first_error(list, n + 1, e.deep_view());
                }
                return Err(e);
            },
        }
        proof {
            n = n + 1;
        }
    }
    assert(list.skip(n).len() == 0);
    assert(list.take(n) =~= list);
    Ok(out)
}

/// A tool call on its way to an extension.
#[derive(Debug, PartialEq)]
pub struct ResolvedCall {
    pub client_name: String,
    pub client: u64,
    pub tool_name: String,
    pub arguments: Option<Vec<(String, Json)>>,
}

#[verifier::ext_equal]
pub struct ResolvedCallView {
    pub client_name: Seq<char>,
    pub client: u64,
    pub tool_name: Seq<char>,
    pub arguments: Option<Seq<(Seq<char>, JsonView)>>,
}

impl DeepView for ResolvedCall {
    type V = ResolvedCallView;

    open spec fn deep_view(&self) -> ResolvedCallView {
        ResolvedCallView {
            client_name: self.client_name@,
            client: self.client,
            tool_name: self.tool_name@,
            arguments: self.arguments.deep_view(),
        }
    }
}

/// The key of the first connected extension that was configured under a name.
pub open spec fn key_named(m: Connected, own: Seq<char>) -> Option<Seq<char>>
    decreases m.len(),
{
    if m.len() == 0 {
        None
    } else if m[0].1.config.name() == own {
        Some(m[0].0)
    } else {
        key_named(m.drop_first(), own)
    }
}

/// The key of the connected extension to which a tool's name belongs if the name of
/// the extension ends at an index: two underscores follow, and what stands before
/// them is the key, or where `own` says so the name under which the extension was
/// configured, as it is written.
pub open spec fn owner_at(m: Connected, name: Seq<char>, i: int, own: bool) -> Option<Seq<char>> {
    if !text::occurs_at(name, "__"@, i) {
        None
    } else if own {
        key_named(m, name.take(i))
    } else if lookup(m, name.take(i)) is Some {
        Some(name.take(i))
    } else {
        None
    }
}

/// The last index at or before `i` at which the name of a connected extension ends.
pub open spec fn last_owner(m: Connected, name: Seq<char>, i: int, own: bool) -> Option<int>
    decreases i + 1,
{
    if i < 0 {
        None
    } else if owner_at(m, name, i, own) is Some {
        Some(i)
    } else {
        last_owner(m, name, i - 1, own)
    }
}

/// The last place at which the name of a connected extension ends, and its key.
pub open spec fn split_by(m: Connected, name: Seq<char>, own: bool) -> Option<(int, Seq<char>)> {
    match last_owner(m, name, name.len() as int, own) {
        Some(i) => match owner_at(m, name, i, own) {
            Some(key) => Some((i, key)),
            None => None,
        },
        None => None,
    }
}

/// Where the name of the extension ends in the name of a tool, and the key of the
/// extension: the longest key that begins the name and that two underscores follow.
/// Where there is none, the same of the names under which extensions were
/// configured.
pub open spec fn split_of(m: Connected, name: Seq<char>) -> Option<(int, Seq<char>)> {
    match split_by(m, name, false) {
        Some(found) => Some(found),
        None => split_by(m, name, true),
    }
}

/// The connected extension to which a tool's name belongs.
pub open spec fn client_for(m: Connected, prefixed_name: Seq<char>) -> Option<
    (Seq<char>, ExtensionView),
> {
    match split_of(m, prefixed_name) {
        Some((_, key)) => match lookup(m, key) {
            Some(e) => Some((key, e)),
            None => None,
        },
        None => None,
    }
}

pub open spec fn not_found(message: Seq<char>) -> ErrorDataView {
    ErrorDataView { code: RESOURCE_NOT_FOUND, message }
}

/// Where a tool call goes: to the extension to which the name belongs, if the
/// extension offers what stands behind the two underscores.
pub open spec fn resolved(m: Connected, call: ToolCallView) -> Result<
    ResolvedCallView,
    ErrorDataView,
> {
    match (split_of(m, call.name), client_for(m, call.name)) {
        (Some((i, _)), Some((key, ext))) => {
            let tool = call.name.skip(i + 2);
            if ext.config.offers(tool) {
                Ok(
                    ResolvedCallView {
                        client_name: key,
                        client: ext.client,
                        tool_name: tool,
                        arguments: call.arguments,
                    },
                )
            } else {
                Err(
                    not_found(
                        "Tool '"@ + tool + "' is not available for extension '"@ + key + "'"@,
                    ),
                )
            }
        },
        _ => Err(not_found(call.name)),
    }
}

/// The outcome of a call that reached its client: a failure is an internal error
/// with the text of its cause.
pub open spec fn outcome_of(r: Result<Seq<ContentView>, Seq<char>>) -> Result<
    Seq<ContentView>,
    ErrorDataView,
> {
    match r {
        Ok(content) => Ok(content),
        Err(cause) => Err(ErrorDataView { code: INTERNAL_ERROR, message: cause }),
    }
}

/// The outcome of a call that reached its client.
pub fn call_outcome(r: Result<Vec<Content>, String>) -> (out: ToolResult)
    ensures
        tool::tool_result_view(out) == outcome_of(
            match r {
                Ok(content) => Ok(content.deep_view()),
                Err(cause) => Err(cause@),
            },
        ),
{
    match r {
        Ok(content) => Ok(content),
        Err(cause) => Err(ErrorData { code: INTERNAL_ERROR, message: cause }),
    }
}

/// The names of all connected extensions.
pub open spec fn available(m: Connected) -> Seq<char> {
    text::joined(keys(m), ", "@)
}

/// Some extension offers resources.
pub open spec fn resources_somewhere(m: Connected) -> bool {
    exists|i: int| 0 <= i < m.len() && (#[trigger] m[i]).1.offers_resources()
}

/// Where it has more extensions than this, the user is asked to disable some.
pub const MIN_EXTENSIONS: usize = 5;

/// Where it has more tools than this, the user is asked to disable some.
pub const MIN_TOOLS: usize = 50;

/// What the model is told where too much is enabled.
pub open spec fn disable_prompt(extensions: nat, tools: nat) -> Seq<char> {
    if extensions > MIN_EXTENSIONS || tools > MIN_TOOLS {
        "The user currently has enabled "@ + text::decimal(extensions)
            + " extensions with a total of "@ + text::decimal(tools)
            + " tools. Since this exceeds the recommended limits (5 extensions or 50 tools), you should ask the user if they would like to disable some extensions for this session.\n\nUse the search_available_extensions tool to find extensions available to disable. You should only disable extensions found from the search_available_extensions tool. List all the extensions available to disable in the response. Explain that minimizing extensions helps with the recall of the correct tools to use."@
    } else {
        Seq::empty()
    }
}

/// The lines for the entries that are not enabled.
pub open spec fn disabled_lines(entries: Seq<ExtensionEntryView>) -> Seq<Seq<char>>
    decreases entries.len(),
{
    if entries.len() == 0 {
        Seq::empty()
    } else {
        let rest = disabled_lines(entries.drop_last());
        let e = entries.last();
        if e.enabled {
            rest
        } else {
            rest.push("- "@ + e.config.name() + " - "@ + e.config.shown_description())
        }
    }
}

/// What a search for extensions tells.
pub open spec fn search_text(m: Connected, entries: Seq<ExtensionEntryView>) -> Seq<char> {
    let lines = disabled_lines(entries);
    let first = if lines.len() > 0 {
        "Extensions available to enable:\n"@ + text::joined(lines, "\n"@) + "\n"@
    } else {
        "No extensions available to enable.\n"@
    };
    let second = if m.len() > 0 {
        "\n\nExtensions available to disable:\n"@ + text::joined(
            keys(m).map_values(|k: Seq<char>| "- "@ + k),
            "\n"@,
        ) + "\n"@
    } else {
        "No extensions that can be disabled.\n"@
    };
    text::joined(seq![first, second], "\n"@)
}

impl ExtensionManager {
    /// No extension is connected.
    pub fn new() -> (r: Self)
        ensures
            r@ == Seq::<(Seq<char>, ExtensionView)>::empty(),
    {
        let extensions = Vec::new();
        let r = ExtensionManager { extensions };
        assert(r@ =~= Seq::<(Seq<char>, ExtensionView)>::empty());
        r
    }

    /// Whether some extension offers resources.
    pub fn supports_resources(&self) -> (r: bool)
        ensures
            r == resources_somewhere(self@),
    {
        let mut i: usize = 0;
        while i < self.extensions.len()
            invariant
                i <= self.extensions@.len(),
                forall|j: int| 0 <= j < i ==> !(#[trigger] self@[j]).1.offers_resources(),
            decreases self.extensions@.len() - i,
        {
            if self.extensions[i].1.supports_resources() {
                assert(self@[i as int].1.offers_resources());
                return true;
            }
            i = i + 1;
        }
        false
    }

    /// Keeps a connected client under a name.
    pub fn add_client(
        &mut self,
        name: String,
        config: ExtensionConfig,
        client: u64,
        info: Option<ServerInfo>,
    )
        ensures
            final(self)@ == put(
                old(self)@,
                name@,
                (ExtensionView {
                    config: config.deep_view(),
                    client,
                    server_info: info.deep_view(),
                }),
            ),
    {
        assoc::insert(&mut self.extensions, name, Extension { config, client, server_info: info });
    }

    /// What is told of the connected extensions.
    pub fn get_extensions_info(&self) -> (r: Vec<ExtensionInfo>)
        ensures
            r.deep_view() == self@.map_values(|e: (Seq<char>, ExtensionView)| e.1.info(e.0)),
    {
        let ghost all = self@.map_values(|e: (Seq<char>, ExtensionView)| e.1.info(e.0));
        let mut out: Vec<ExtensionInfo> = Vec::new();
        let mut i: usize = 0;
        while i < self.extensions.len()
            invariant
                i <= self.extensions@.len(),
                all == self@.map_values(|e: (Seq<char>, ExtensionView)| e.1.info(e.0)),
                out.deep_view() == all.take(i as int),
            decreases self.extensions@.len() - i,
        {
            let e = &self.extensions[i].1;
            let instructions = match e.get_instructions() {
                Some(t) => t,
                None => String::new(),
            };
            base::push(
                &mut out,
                ExtensionInfo {
                    name: self.extensions[i].0.clone(),
                    instructions,
                    has_resources: e.supports_resources(),
                },
            );
            assert(out.deep_view() =~= all.take(i + 1));
            i = i + 1;
        }
        assert(out.deep_view() =~= all);
        out
    }

    /// Takes the extension with a name out, as its name is normalized.
    pub fn remove_extension(&mut self, name: &str)
        ensures
            final(self)@ == without(old(self)@, normalized(name@)),
    {
        let sanitized_name = normalize(text::owned(name));
        assoc::remove(&mut self.extensions, &sanitized_name);
    }

    /// What the model is told where too much is enabled.
    pub fn suggest_disable_extensions_prompt(&self, total_tools: usize) -> (r: String)
        ensures
            r@ == disable_prompt(self@.len(), total_tools as nat),
    {
        let count: usize = self.extensions.len();
        if count > MIN_EXTENSIONS || total_tools > MIN_TOOLS {
            text::cat5(
                "The user currently has enabled ",
                &text::to_decimal(count as u64),
                " extensions with a total of ",
                &text::to_decimal(total_tools as u64),
                " tools. Since this exceeds the recommended limits (5 extensions or 50 tools), you should ask the user if they would like to disable some extensions for this session.\n\nUse the search_available_extensions tool to find extensions available to disable. You should only disable extensions found from the search_available_extensions tool. List all the extensions available to disable in the response. Explain that minimizing extensions helps with the recall of the correct tools to use.",
            )
        } else {
            String::new()
        }
    }

    /// The names of all connected extensions.
    pub fn list_extensions(&self) -> (r: Vec<String>)
        ensures
            r.deep_view() == keys(self@),
    {
        assoc::key_list(&self.extensions)
    }

    /// The configurations of all connected extensions.
    pub fn get_extension_configs(&self) -> (r: Vec<ExtensionConfig>)
        ensures
            r.deep_view() == self@.map_values(|e: (Seq<char>, ExtensionView)| e.1.config),
    {
        let ghost all = self@.map_values(|e: (Seq<char>, ExtensionView)| e.1.config);
        let mut out: Vec<ExtensionConfig> = Vec::new();
        let mut i: usize = 0;
        while i < self.extensions.len()
            invariant
                i <= self.extensions@.len(),
                all == self@.map_values(|e: (Seq<char>, ExtensionView)| e.1.config),
                out.deep_view() == all.take(i as int),
            decreases self.extensions@.len() - i,
        {
            base::push(&mut out, self.extensions[i].1.config.duplicate());
            assert(out.deep_view() =~= all.take(i + 1));
            i = i + 1;
        }
        assert(out.deep_view() =~= all);
        out
    }

    /// The extensions whose tools are listed: the one with a name, or all.
    pub fn get_prefixed_tools(&self, extension_name: Option<&str>) -> (r: Vec<(String, Extension)>)
        ensures
            r.deep_view() == listed(self@, extension_name.deep_view()),
    {
        let mut out: Vec<(String, Extension)> = Vec::new();
        let ghost all = self@;
        let ghost filter = extension_name.deep_view();
        let mut i: usize = 0;
        assert(out.deep_view() =~= listed(all.take(0), filter));
        while i < self.extensions.len()
            invariant
                i <= self.extensions@.len(),
                all == self@,
                filter == extension_name.deep_view(),
                out.deep_view() == listed(all.take(i as int), filter),
            decreases self.extensions@.len() - i,
        {
            assert(all.take(i + 1).drop_last() =~= all.take(i as int));
            let wanted = match extension_name {
                Some(name) => text::str_eq(&self.extensions[i].0, name),
                None => true,
            };
            if wanted {
                base::push(
                    &mut out,
                    (self.extensions[i].0.clone(), self.extensions[i].1.duplicate()),
                );
            }
            i = i + 1;
        }
        assert(all.take(self.extensions@.len() as int) =~= all);
        out
    }

    /// The connected extension to which a tool's name belongs, and its client.
    pub fn get_client_for_tool(&self, prefixed_name: &str) -> (r: Option<(String, u64)>)
        ensures
            r.deep_view() == match client_for(self@, prefixed_name@) {
                Some((name, ext)) => Some((name, ext.client)),
                None => None,
            },
    {
        match self.find_split(&text::to_chars(prefixed_name)) {
            Some((_, at)) => Some((self.extensions[at].0.clone(), self.extensions[at].1.client)),
            None => None,
        }
    }

    /// The key of the first connected extension that was configured under a name.
    fn find_named(&self, own: &str) -> (r: Option<String>)
        ensures
            r.deep_view() == key_named(self@, own@),
    {
        let ghost all = self@;
        let mut i: usize = 0;
        assert(all.skip(0) =~= all);
        while i < self.extensions.len()
            invariant
                i <= self.extensions@.len(),
                all == self@,
                key_named(all, own@) == key_named(all.skip(i as int), own@),
            decreases self.extensions@.len() - i,
        {
            assert(all.skip(i as int).drop_first() =~= all.skip(i + 1));
            if text::str_eq(self.extensions[i].1.config.name(), own) {
                return Some(self.extensions[i].0.clone());
            }
            i = i + 1;
        }
        None
    }

    /// The last place at which the name of a connected extension ends, and where
    /// that extension stands.
    fn find_owner(&self, chars: &Vec<char>, own: bool) -> (r: Option<(usize, usize)>)
        ensures
            match r {
                Some((i, at)) => {
                    &&& split_by(self@, chars@, own) == Some((i as int, self@[at as int].0))
                    &&& i + 2 <= chars@.len()
                    &&& at < self.extensions@.len()
                    &&& lookup(self@, self@[at as int].0) == Some(self@[at as int].1)
                },
                None => split_by(self@, chars@, own) is None,
            },
    {
        proof {
            reveal_strlit("__");
        }
        let ghost all = last_owner(self@, chars@, chars@.len() as int, own);
        let mut i: usize = chars.len();
        while i > 0
            invariant
                i <= chars@.len(),
                "__"@.len() == 2,
                "__"@[0] == '_',
                "__"@[1] == '_',
                all == last_owner(self@, chars@, chars@.len() as int, own),
                all == last_owner(self@, chars@, i - 1, own),
            decreases i,
        {
            i = i - 1;
            let n: usize = chars.len();
            if n - i >= 2 && chars[i] == '_' && chars[i + 1] == '_' {
                assert(chars@.subrange(i as int, i + 2) =~= "__"@);
                let before = text::from_chars(chars, 0, i);
                assert(before@ =~= chars@.take(i as int));
                let key = if own {
                    self.find_named(&before)
                } else {
                    Some(before)
                };
                if let Some(key) = key {
                    match assoc::position(&self.extensions, &key) {
                        Some(at) => {
                            proof {
                                assoc::lemma_lookup_at(self@, key@, at as int);
                            }
                            return Some((i, at));
                        },
                        None => {
                            proof {
                                assoc::lemma_lookup_is_some(self@, key@);
                                if own {
                                    lemma_key_named(self@, before@);
                                }
                            }
                        },
                    }
                }
            } else if n - i >= 2 {
                assert(chars@.subrange(i as int, i + 2)[0] == chars@[i as int]);
                assert(chars@.subrange(i as int, i + 2)[1] == chars@[i + 1]);
            }
        }
        None
    }

    fn find_split(&self, chars: &Vec<char>) -> (r: Option<(usize, usize)>)
        ensures
            match r {
                Some((i, at)) => {
                    &&& i + 2 <= chars@.len()
                    &&& at < self.extensions@.len()
                    &&& split_of(self@, chars@) == Some((i as int, self@[at as int].0))
                    &&& client_for(self@, chars@) == Some(self@[at as int])
                },
                None => split_of(self@, chars@) is None,
            },
    {
        match self.find_owner(chars, false) {
            Some(found) => Some(found),
            None => self.find_owner(chars, true),
        }
    }

    /// Where a tool call goes.
    pub fn dispatch_tool_call(&self, call: &ToolCall) -> (r: Result<ResolvedCall, ErrorData>)
        ensures
            match r {
                Ok(c) => resolved(self@, call.deep_view()) == Ok::<_, ErrorDataView>(
                    c.deep_view(),
                ),
                Err(e) => resolved(self@, call.deep_view()) == Err::<ResolvedCallView, _>(
                    e.deep_view(),
                ),
            },
    {
        let chars = text::to_chars(&call.name);
        let (i, at) = match self.find_split(&chars) {
            Some(found) => found,
            None => {
                return Err(ErrorData { code: RESOURCE_NOT_FOUND, message: call.name.clone() });
            },
        };
        let name = &self.extensions[at].0;
        let ext = &self.extensions[at].1;
        let n: usize = chars.len();
        let tool_name = text::from_chars(&chars, i + 2, n);
        assert(tool_name@ =~= call.name@.skip(i + 2));
        if !ext.config.is_tool_available(&tool_name) {
            let message = text::cat5(
                "Tool '",
                &tool_name,
                "' is not available for extension '",
                name,
                "'",
            );
            return Err(ErrorData { code: RESOURCE_NOT_FOUND, message });
        }
        Ok(
            ResolvedCall {
                client_name: name.clone(),
                client: ext.client,
                tool_name,
                arguments: call.arguments.duplicate(),
            },
        )
    }

    /// What a search for extensions tells, given the configured ones.
    pub fn search_available_extensions(&self, entries: &Vec<ExtensionEntry>) -> (r: Vec<Content>)
        ensures
            r.deep_view() == seq![ContentView::Text(search_text(self@, entries.deep_view()))],
    {
        let lines = lines_for_disabled(entries);
        let first = if lines.len() > 0 {
            text::cat3(
                "Extensions available to enable:\n",
                &text::join(&lines, "\n"),
                "\n",
            )
        } else {
            text::owned("No extensions available to enable.\n")
        };
        let second = if self.extensions.len() > 0 {
            let mut names: Vec<String> = Vec::new();
            let ghost all = keys(self@).map_values(|k: Seq<char>| "- "@ + k);
            let mut i: usize = 0;
            while i < self.extensions.len()
                invariant
                    i <= self.extensions@.len(),
                    all == keys(self@).map_values(|k: Seq<char>| "- "@ + k),
                    text::texts(names@) == all.take(i as int),
                decreases self.extensions@.len() - i,
            {
                let line = text::cat("- ", &self.extensions[i].0);
                proof {
                    text::lemma_texts_push(names@, line);
                }
                names.push(line);
                assert(text::texts(names@) =~= all.take(i + 1));
                i = i + 1;
            }
            assert(all.take(all.len() as int) =~= all);
            text::cat3(
                "\n\nExtensions available to disable:\n",
                &text::join(&names, "\n"),
                "\n",
            )
        } else {
            text::owned("No extensions that can be disabled.\n")
        };
        assert(text::texts(lines@) == disabled_lines(entries.deep_view()));
        let mut parts: Vec<String> = Vec::new();
        let ghost f = first@;
        let ghost s = second@;
        parts.push(first);
        parts.push(second);
        assert(text::texts(parts@) =~= seq![f, s]);
        base::single(Content::Text(text::join(&parts, "\n")))
    }

    /// The client of the extension under a name.
    pub fn get_server_client(&self, name: &str) -> (r: Option<u64>)
        ensures
            r == match lookup(self@, name@) {
                Some(e) => Some(e.client),
                None => None,
            },
    {
        match assoc::get(&self.extensions, name) {
            Some(e) => Some(e.client),
            None => None,
        }
    }
}

/// The extensions whose tools are listed.
pub open spec fn listed(m: Connected, filter: Option<Seq<char>>) -> Connected
    decreases m.len(),
{
    if m.len() == 0 {
        Seq::empty()
    } else {
        let rest = listed(m.drop_last(), filter);
        if filter is None || filter == Some(m.last().0) {
            rest.push(m.last())
        } else {
            rest
        }
    }
}

fn lines_for_disabled(entries: &Vec<ExtensionEntry>) -> (r: Vec<String>)
    ensures
        text::texts(r@) == disabled_lines(entries.deep_view()),
{
    let mut out: Vec<String> = Vec::new();
    let ghost all = entries.deep_view();
    let mut i: usize = 0;
    assert(text::texts(out@) =~= disabled_lines(all.take(0)));
    while i < entries.len()
        invariant
            i <= entries@.len(),
            all == entries.deep_view(),
            text::texts(out@) == disabled_lines(all.take(i as int)),
        decreases entries@.len() - i,
    {
        assert(all.take(i + 1).drop_last() =~= all.take(i as int));
        if !entries[i].enabled {
            let config = &entries[i].config;
            let mut line = text::cat3("- ", config.name(), " - ");
            line.append(&config.list_description());
            proof {
                text::lemma_texts_push(out@, line);
            }
            out.push(line);
        }
        i = i + 1;
    }
    assert(all.take(entries@.len() as int) =~= all);
    out
}

proof fn lemma_last_owner(m: Connected, name: Seq<char>, i: int, own: bool, k: int)
    requires
        0 <= k <= i,
        owner_at(m, name, k, own) is Some,
        forall|j: int| k < j <= i ==> (#[trigger] owner_at(m, name, j, own)) is None,
    ensures
        last_owner(m, name, i, own) == Some(k),
    decreases i,
{
    if i > k {
        assert(owner_at(m, name, i, own) is None);
        lemma_last_owner(m, name, i - 1, own, k);
    }
}

proof fn lemma_no_owner(m: Connected, name: Seq<char>, i: int, own: bool)
    requires
        forall|j: int| 0 <= j <= i ==> (#[trigger] owner_at(m, name, j, own)) is None,
    ensures
        last_owner(m, name, i, own) is None,
    decreases i + 1,
{
    if i >= 0 {
        assert(owner_at(m, name, i, own) is None);
        lemma_no_owner(m, name, i - 1, own);
    }
}

/// A key that two underscores follow at the start of a name.
pub open spec fn begins_name(key: Seq<char>, name: Seq<char>) -> bool {
    (key + "__"@).is_prefix_of(name)
}

/// What begins a name is what stands before two underscores.
proof fn lemma_begins(key: Seq<char>, name: Seq<char>, j: int)
    requires
        0 <= j <= name.len(),
    ensures
        key.len() == j && begins_name(key, name) <==> text::occurs_at(name, "__"@, j) && name.take(
            j,
        ) == key,
{
    let whole = key + "__"@;
    if text::occurs_at(name, "__"@, j) && name.take(j) == key {
        assert(name.subrange(0, whole.len() as int) =~= whole);
    }
    if key.len() == j && begins_name(key, name) {
        assert(whole == name.subrange(0, whole.len() as int));
        assert(name.take(j) =~= whole.take(j));
        assert(whole.take(j) =~= key);
        assert(name.subrange(j, j + "__"@.len()) =~= whole.subrange(j, whole.len() as int));
        assert(whole.subrange(j, whole.len() as int) =~= "__"@);
    }
}

/// A name has a key exactly where an extension was configured under it, and that
/// key is connected.
proof fn lemma_key_named(m: Connected, own: Seq<char>)
    ensures
        key_named(m, own) is Some <==> exists|q: int|
            0 <= q < m.len() && (#[trigger] m[q]).1.config.name() == own,
        key_named(m, own) matches Some(key) ==> exists|q: int|
            0 <= q < m.len() && (#[trigger] m[q]).0 == key && m[q].1.config.name() == own,
    decreases m.len(),
{
    if m.len() > 0 {
        let rest = m.drop_first();
        lemma_key_named(rest, own);
        if m[0].1.config.name() != own {
            if let Some(key) = key_named(m, own) {
                let q = choose|q: int|
                    0 <= q < rest.len() && (#[trigger] rest[q]).0 == key
                        && rest[q].1.config.name() == own;
                assert(m[q + 1].0 == key && m[q + 1].1.config.name() == own);
            }
            if exists|q: int| 0 <= q < m.len() && (#[trigger] m[q]).1.config.name() == own {
                let q = choose|q: int|
                    0 <= q < m.len() && (#[trigger] m[q]).1.config.name() == own;
                assert(rest[q - 1].1.config.name() == own);
            }
        } else {
            assert(m[0].0 == m[0].0);
        }
    }
}

proof fn lemma_key_named_at(m: Connected, own: Seq<char>, q: int)
    requires
        0 <= q < m.len(),
        m[q].1.config.name() == own,
        forall|j: int| 0 <= j < q ==> (#[trigger] m[j]).1.config.name() != own,
    ensures
        key_named(m, own) == Some(m[q].0),
    decreases m.len(),
{
    if q > 0 {
        assert(m[0].1.config.name() != own);
        assert forall|j: int| 0 <= j < q - 1 implies (
        #[trigger] m.drop_first()[j]).1.config.name() != own by {
            assert(m[j + 1].1.config.name() != own);
        }
        lemma_key_named_at(m.drop_first(), own, q - 1);
    }
}

/// The name of an extension ends where a key begins the name, and only there.
proof fn lemma_owner_begins(m: Connected, name: Seq<char>, j: int)
    requires
        0 <= j <= name.len(),
    ensures
        owner_at(m, name, j, false) is Some <==> exists|q: int|
            0 <= q < m.len() && (#[trigger] m[q]).0.len() == j && begins_name(m[q].0, name),
{
    assoc::lemma_lookup_is_some(m, name.take(j));
    if owner_at(m, name, j, false) is Some {
        let q = choose|q: int| 0 <= q < m.len() && (#[trigger] m[q]).0 == name.take(j);
        lemma_begins(m[q].0, name, j);
    }
    if exists|q: int|
        0 <= q < m.len() && (#[trigger] m[q]).0.len() == j && begins_name(m[q].0, name) {
        let q = choose|q: int|
            0 <= q < m.len() && (#[trigger] m[q]).0.len() == j && begins_name(m[q].0, name);
        lemma_begins(m[q].0, name, j);
    }
}

/// The same of the names under which extensions were configured.
proof fn lemma_own_begins(m: Connected, name: Seq<char>, j: int)
    requires
        0 <= j <= name.len(),
    ensures
        owner_at(m, name, j, true) is Some ==> exists|q: int|
            0 <= q < m.len() && (#[trigger] m[q]).1.config.name().len() == j && begins_name(
                m[q].1.config.name(),
                name,
            ),
{
    lemma_key_named(m, name.take(j));
    if owner_at(m, name, j, true) is Some {
        let q = choose|q: int|
            0 <= q < m.len() && (#[trigger] m[q]).1.config.name() == name.take(j);
        lemma_begins(m[q].1.config.name(), name, j);
    }
}

/// A tool is reached under its prefixed name: where no longer key that two
/// underscores follow begins the name, the call goes to the extension and names the
/// tool.
pub proof fn law_prefixed_call_resolves(
    m: Connected,
    i: int,
    tool: Seq<char>,
    arguments: Option<Seq<(Seq<char>, JsonView)>>,
)
    requires
        unique_keys(m),
        0 <= i < m.len(),
        forall|j: int|
            0 <= j < m.len() && (#[trigger] m[j]).0.len() > m[i].0.len() ==> !begins_name(
                m[j].0,
                prefixed(m[i].0, tool),
            ),
        m[i].1.config.offers(tool),
    ensures
        resolved(m, ToolCallView { name: prefixed(m[i].0, tool), arguments }) == Ok::<
            _,
            ErrorDataView,
        >(
            ResolvedCallView {
                client_name: m[i].0,
                client: m[i].1.client,
                tool_name: tool,
                arguments,
            },
        ),
{
    reveal_strlit("__");
    let key = m[i].0;
    let full = prefixed(key, tool);
    let n = key.len() as int;
    assert(full.subrange(0, n + 2) =~= key + "__"@);
    assert(begins_name(key, full));
    lemma_owner_begins(m, full, n);
    assert forall|j: int| n < j <= full.len() implies (#[trigger] owner_at(
        m,
        full,
        j,
        false,
    )) is None by {
        lemma_owner_begins(m, full, j);
    }
    lemma_last_owner(m, full, full.len() as int, false, n);
    assert(full.take(n) =~= key);
    assert forall|j: int| 0 <= j < i implies (#[trigger] m[j]).0 != key by {
        assert(m[j].0 != m[i].0);
    }
    assoc::lemma_lookup_at(m, key, i);
    assert(full.skip(n + 2) =~= tool);
}

/// Where a key that two underscores follow begins a name, the name belongs to the
/// longest such key.
pub proof fn law_client_has_longest_key(m: Connected, name: Seq<char>, j: int)
    requires
        0 <= j < m.len(),
        begins_name(m[j].0, name),
    ensures
        client_for(m, name) matches Some((key, e)) && begins_name(key, name) && lookup(m, key)
            == Some(e) && key.len() >= m[j].0.len(),
{
    lemma_owner_begins(m, name, m[j].0.len() as int);
    lemma_last_at_least(m, name, name.len() as int, m[j].0.len() as int);
    let k = last_owner(m, name, name.len() as int, false)->0;
    lemma_begins(name.take(k), name, k);
}

proof fn lemma_last_at_least(m: Connected, name: Seq<char>, i: int, k: int)
    requires
        0 <= k <= i,
        owner_at(m, name, k, false) is Some,
    ensures
        last_owner(m, name, i, false) matches Some(l) && k <= l <= i && owner_at(
            m,
            name,
            l,
            false,
        ) is Some,
    decreases i,
{
    if owner_at(m, name, i, false) is None {
        lemma_last_at_least(m, name, i - 1, k);
    }
}

/// A tool is reached under the name too under which its extension was configured, as
/// it is written: where no key begins the name of the tool, and no longer name of
/// another extension does.
pub proof fn law_own_name_resolves(
    m: Connected,
    q: int,
    tool: Seq<char>,
    arguments: Option<Seq<(Seq<char>, JsonView)>>,
)
    requires
        unique_keys(m),
        0 <= q < m.len(),
        forall|j: int| 0 <= j < q ==> (#[trigger] m[j]).1.config.name() != m[q].1.config.name(),
        forall|j: int|
            0 <= j < m.len() ==> !begins_name(
                (#[trigger] m[j]).0,
                prefixed(m[q].1.config.name(), tool),
            ),
        forall|j: int|
            0 <= j < m.len() && (#[trigger] m[j]).1.config.name().len()
                > m[q].1.config.name().len() ==> !begins_name(
                m[j].1.config.name(),
                prefixed(m[q].1.config.name(), tool),
            ),
        m[q].1.config.offers(tool),
    ensures
        resolved(m, ToolCallView { name: prefixed(m[q].1.config.name(), tool), arguments }) == Ok::<
            _,
            ErrorDataView,
        >(
            ResolvedCallView {
                client_name: m[q].0,
                client: m[q].1.client,
                tool_name: tool,
                arguments,
            },
        ),
{
    reveal_strlit("__");
    let own = m[q].1.config.name();
    let full = prefixed(own, tool);
    let n = own.len() as int;
    assert(full.take(n) =~= own);
    assert(full.subrange(n, n + 2) =~= "__"@);
    lemma_key_named_at(m, own, q);
    assert forall|j: int| 0 <= j <= full.len() implies (#[trigger] owner_at(
        m,
        full,
        j,
        false,
    )) is None by {
        lemma_owner_begins(m, full, j);
    }
    lemma_no_owner(m, full, full.len() as int, false);
    assert forall|j: int| n < j <= full.len() implies (#[trigger] owner_at(
        m,
        full,
        j,
        true,
    )) is None by {
        lemma_own_begins(m, full, j);
    }
    lemma_last_owner(m, full, full.len() as int, true, n);
    assert forall|j: int| 0 <= j < q implies (#[trigger] m[j]).0 != m[q].0 by {
        assert(m[j].0 != m[q].0);
    }
    assoc::lemma_lookup_at(m, m[q].0, q);
    assert(full.skip(n + 2) =~= tool);
}

/// A call whose name neither a key nor the name of a connected extension begins
/// reaches no client: it is not found.
pub proof fn law_unknown_name_is_not_found(m: Connected, call: ToolCallView)
    requires
        forall|j: int|
            0 <= j < m.len() ==> !begins_name((#[trigger] m[j]).0, call.name) && !begins_name(
                m[j].1.config.name(),
                call.name,
            ),
    ensures
        client_for(m, call.name) is None,
        resolved(m, call) == Err::<ResolvedCallView, _>(not_found(call.name)),
{
    let n = call.name.len() as int;
    assert forall|j: int| 0 <= j <= n implies (#[trigger] owner_at(
        m,
        call.name,
        j,
        false,
    )) is None by {
        lemma_owner_begins(m, call.name, j);
    }
    lemma_no_owner(m, call.name, n, false);
    assert forall|j: int| 0 <= j <= n implies (#[trigger] owner_at(
        m,
        call.name,
        j,
        true,
    )) is None by {
        lemma_own_begins(m, call.name, j);
    }
    lemma_no_owner(m, call.name, n, true);
}

/// A tool that an extension does not offer is listed under no name.
pub proof fn law_listed_tools_are_offered(
    name: Seq<char>,
    config: ExtensionConfigView,
    tools: Seq<ToolView>,
)
    ensures
        forall|i: int|
            0 <= i < prefixed_tools(name, config, tools).len() ==> exists|j: int|
                0 <= j < tools.len() && config.offers(tools[j].name) && #[trigger] prefixed_tools(
                    name,
                    config,
                    tools,
                )[i] == prefixed_tool(name, #[trigger] tools[j]),
    decreases tools.len(),
{
    if tools.len() > 0 {
        law_listed_tools_are_offered(name, config, tools.drop_last());
        let rest = prefixed_tools(name, config, tools.drop_last());
        let now = prefixed_tools(name, config, tools);
        assert forall|i: int| 0 <= i < now.len() implies exists|j: int|
            0 <= j < tools.len() && config.offers(tools[j].name) && #[trigger] now[i]
                == prefixed_tool(name, #[trigger] tools[j]) by {
            if i < rest.len() {
                assert(now[i] == rest[i]);
                let j = choose|j: int|
                    0 <= j < tools.drop_last().len() && config.offers(tools.drop_last()[j].name)
                        && rest[i] == prefixed_tool(name, #[trigger] tools.drop_last()[j]);
                assert(tools[j] == tools.drop_last()[j]);
            } else {
                assert(tools[tools.len() - 1] == tools.last());
            }
        }
    }
}

/// An extension that was added is found under its name, and one that was
/// removed is not; the others stay, and names stay unique.
pub proof fn law_add_and_remove(m: Connected, name: Seq<char>, e: ExtensionView, other: Seq<char>)
    requires
        unique_keys(m),
    ensures
        lookup(put(m, name, e), name) == Some(e),
        lookup(without(m, name), name) is None,
        other != name ==> lookup(put(m, name, e), other) == lookup(m, other),
        other != name ==> lookup(without(m, name), other) == lookup(m, other),
        unique_keys(put(m, name, e)),
        unique_keys(without(m, name)),
{
    assoc::lemma_lookup_put(m, name, e, name);
    assoc::lemma_lookup_put(m, name, e, other);
    assoc::lemma_lookup_without(m, name, name);
    assoc::lemma_lookup_without(m, name, other);
    assoc::lemma_unique_put(m, name, e);
    assoc::lemma_unique_without(m, name);
}

} // verus!
