//! Resources and prompts of the connected extensions.
use crate::assoc::{self, lookup, put};
use crate::base::{self, Duplicate};
use crate::extension_manager::{
    self, available, required_text, Connected, ExtensionManager, ExtensionView,
};
use crate::json::{Json, JsonView};
use crate::text;
use crate::tool::{
    self, Content, ContentView, ErrorData, ErrorDataView, ToolResult, INTERNAL_ERROR,
    INVALID_PARAMS, RESOURCE_NOT_FOUND,
};
use vstd::prelude::*;
use vstd::string::*;

verus! {

/// A resource that is being read. It is asked for at one client after the other
/// until one has it; a single client that lacks it is an error.
#[derive(Debug, PartialEq)]
pub struct ResourceRead {
    pub uri: String,
    pub single: bool,
    pub targets: Vec<u64>,
    pub next: usize,
    pub available: String,
}

#[verifier::ext_equal]
pub struct ResourceReadView {
    pub uri: Seq<char>,
    pub single: bool,
    pub targets: Seq<u64>,
    pub next: usize,
    pub available: Seq<char>,
}

impl DeepView for ResourceRead {
    type V = ResourceReadView;

    open spec fn deep_view(&self) -> ResourceReadView {
        ResourceReadView {
            uri: self.uri@,
            single: self.single,
            targets: self.targets.deep_view(),
            next: self.next,
            available: self.available@,
        }
    }
}

/// What comes next in reading a resource.
#[derive(Debug, PartialEq)]
pub enum ReadStep {
    Read(u64),
    Done(ToolResult),
}

pub enum ReadStepView {
    Read(u64),
    Done(Result<Seq<ContentView>, ErrorDataView>),
}

impl DeepView for ReadStep {
    type V = ReadStepView;

    open spec fn deep_view(&self) -> ReadStepView {
        match self {
            ReadStep::Read(c) => ReadStepView::Read(*c),
            ReadStep::Done(r) => ReadStepView::Done(tool::tool_result_view(*r)),
        }
    }
}

pub open spec fn clients(m: Connected) -> Seq<u64> {
    m.map_values(|e: (Seq<char>, ExtensionView)| e.1.client)
}

/// Where a resource is looked for: at the extension that the parameters name,
/// or at all of them.
pub open spec fn read_start(m: Connected, params: JsonView) -> Result<
    ResourceReadView,
    ErrorDataView,
> {
    match required_text(params, "uri"@) {
        Err(e) => Err(e),
        Ok(uri) => match params.text_field("extension_name"@) {
            Some(name) => match lookup(m, name) {
                None => Err(
                    ErrorDataView {
                        code: INVALID_PARAMS,
                        message: "Extension '"@ + name
                            + "' not found. Here are the available extensions: "@ + available(m),
                    },
                ),
                Some(e) => Ok(
                    ResourceReadView {
                        uri,
                        single: true,
                        targets: seq![e.client],
                        next: 0,
                        available: available(m),
                    },
                ),
            },
            None => Ok(
                ResourceReadView {
                    uri,
                    single: false,
                    targets: clients(m),
                    next: 0,
                    available: available(m),
                },
            ),
        },
    }
}

/// The next client is asked, and after the last one the resource is missing.
pub open spec fn read_next(s: ResourceReadView) -> ReadStepView {
    if s.next < s.targets.len() {
        ReadStepView::Read(s.targets[s.next as int])
    } else {
        ReadStepView::Done(
            tool::failure(
                RESOURCE_NOT_FOUND,
                "Resource with uri '"@ + s.uri + "' not found. Here are the available extensions: "@
                    + s.available,
            ),
        )
    }
}

/// The texts of a resource, each behind its address; what is not a text is left
/// out.
pub open spec fn resource_texts(uri: Seq<char>, contents: Seq<Option<Seq<char>>>) -> Seq<
    ContentView,
>
    decreases contents.len(),
{
    if contents.len() == 0 {
        Seq::empty()
    } else {
        let rest = resource_texts(uri, contents.drop_last());
        match contents.last() {
            Some(t) => rest.push(ContentView::Text(uri + "\n\n"@ + t)),
            None => rest,
        }
    }
}

/// What a client answered: the contents, or nothing where it failed.
pub open spec fn read_answered(
    s: ResourceReadView,
    answer: Option<Seq<Option<Seq<char>>>>,
) -> (ResourceReadView, ReadStepView) {
    match answer {
        Some(contents) => (s, ReadStepView::Done(Ok(resource_texts(s.uri, contents)))),
        None => if s.single {
            (
                s,
                ReadStepView::Done(
                    tool::failure(INTERNAL_ERROR, "Could not read resource with uri: "@ + s.uri),
                ),
            )
        } else {
            let t = ResourceReadView {
                next: if s.next < s.targets.len() {
                    (s.next + 1) as usize
                } else {
                    s.next
                },
                ..s
            };
            (t, read_next(t))
        },
    }
}

impl ResourceRead {
    /// The next client is asked, and after the last one the resource is missing.
    pub fn next(&self) -> (r: ReadStep)
        ensures
            r.deep_view() == read_next(self.deep_view()),
    {
        if self.next < self.targets.len() {
            ReadStep::Read(self.targets[self.next])
        } else {
            let mut message = text::cat3(
                "Resource with uri '",
                &self.uri,
                "' not found. Here are the available extensions: ",
            );
            message.append(&self.available);
            ReadStep::Done(Err(ErrorData { code: RESOURCE_NOT_FOUND, message }))
        }
    }

    /// Takes what a client answered: the contents, each a text or not, or
    /// nothing where it failed.
    pub fn answered(&mut self, answer: Option<Vec<Option<String>>>) -> (r: ReadStep)
        ensures
            (final(self).deep_view(), r.deep_view()) == read_answered(
                old(self).deep_view(),
                answer.deep_view(),
            ),
    {
        match answer {
            Some(contents) => {
                let mut out: Vec<Content> = Vec::new();
                let ghost all = contents.deep_view();
                let mut i: usize = 0;
                assert(out.deep_view() =~= resource_texts(self.uri@, all.take(0)));
                while i < contents.len()
                    invariant
                        i <= contents@.len(),
                        all == contents.deep_view(),
                        out.deep_view() == resource_texts(self.uri@, all.take(i as int)),
                    decreases contents@.len() - i,
                {
                    assert(all.take(i + 1).drop_last() =~= all.take(i as int));
                    if let Some(t) = &contents[i] {
                        base::push(&mut out, Content::Text(text::cat3(&self.uri, "\n\n", t)));
                    }
                    i = i + 1;
                }
                assert(all.take(contents@.len() as int) =~= all);
                ReadStep::Done(Ok(out))
            },
            None => {
                if self.single {
                    let message = text::cat("Could not read resource with uri: ", &self.uri);
                    ReadStep::Done(Err(ErrorData { code: INTERNAL_ERROR, message }))
                } else {
                    if self.next < self.targets.len() {
                        self.next = self.next + 1;
                    }
                    self.next()
                }
            },
        }
    }
}

/// The extensions whose resources are listed. Of a single one an error is
/// reported, of several it is passed over.
#[derive(Debug, PartialEq)]
pub struct ResourceListing {
    pub single: bool,
    pub targets: Vec<(String, u64)>,
}

pub struct ResourceListingView {
    pub single: bool,
    pub targets: Seq<(Seq<char>, u64)>,
}

impl DeepView for ResourceListing {
    type V = ResourceListingView;

    open spec fn deep_view(&self) -> ResourceListingView {
        ResourceListingView { single: self.single, targets: self.targets.deep_view() }
    }
}

/// The client of an extension, which has to be there.
pub open spec fn valid_client(m: Connected, name: Seq<char>) -> Result<u64, ErrorDataView> {
    match lookup(m, name) {
        Some(e) => Ok(e.client),
        None => Err(
            ErrorDataView {
                code: INVALID_PARAMS,
                message: "Extension "@ + name + " is not valid"@,
            },
        ),
    }
}

/// The extensions that offer resources.
pub open spec fn with_resources(m: Connected) -> Seq<(Seq<char>, u64)>
    decreases m.len(),
{
    if m.len() == 0 {
        Seq::empty()
    } else {
        let rest = with_resources(m.drop_last());
        if m.last().1.offers_resources() {
            rest.push((m.last().0, m.last().1.client))
        } else {
            rest
        }
    }
}

pub open spec fn listing_plan(m: Connected, params: JsonView) -> Result<
    ResourceListingView,
    ErrorDataView,
> {
    match params.text_field("extension_name"@) {
        Some(name) => match valid_client(m, name) {
            Ok(c) => Ok(ResourceListingView { single: true, targets: seq![(name, c)] }),
            Err(e) => Err(e),
        },
        None => Ok(ResourceListingView { single: false, targets: with_resources(m) }),
    }
}

/// One line for each resource: its name and its address.
pub open spec fn resource_lines(name: Seq<char>, resources: Seq<(Seq<char>, Seq<char>)>) -> Seq<
    char,
> {
    text::joined(
        resources.map_values(
            |r: (Seq<char>, Seq<char>)| name + " - "@ + r.0 + ", uri: ("@ + r.1 + ")"@,
        ),
        "\n"@,
    )
}

/// What is told of the resources of an extension: a line for each.
pub fn describe_resources(name: &str, resources: &Vec<(String, String)>) -> (r: ToolResult)
    ensures
        tool::tool_result_view(r) == tool::text_outcome(
            resource_lines(name@, resources.deep_view()),
        ),
{
    let ghost all = resources.deep_view().map_values(
        |r: (Seq<char>, Seq<char>)| name@ + " - "@ + r.0 + ", uri: ("@ + r.1 + ")"@,
    );
    let mut lines: Vec<String> = Vec::new();
    let mut i: usize = 0;
    while i < resources.len()
        invariant
            i <= resources@.len(),
            all == resources.deep_view().map_values(
                |r: (Seq<char>, Seq<char>)| name@ + " - "@ + r.0 + ", uri: ("@ + r.1 + ")"@,
            ),
            text::texts(lines@) == all.take(i as int),
        decreases resources@.len() - i,
    {
        let mut line = text::cat5(name, " - ", &resources[i].0, ", uri: (", &resources[i].1);
        line.append(")");
        proof {
            text::lemma_texts_push(lines@, line);
        }
        lines.push(line);
        assert(text::texts(lines@) =~= all.take(i + 1));
        i = i + 1;
    }
    assert(all.take(all.len() as int) =~= all);
    tool::text_result(text::join(&lines, "\n"))
}

/// The error where the resources of an extension cannot be listed; `cause` is
/// the rendering of the failure for a developer.
pub fn resources_error(name: &str, cause: &str) -> (r: ErrorData)
    ensures
        r.deep_view() == (ErrorDataView {
            code: INTERNAL_ERROR,
            message: "Unable to list resources for "@ + name@ + ", "@ + cause@,
        }),
{
    let mut message = text::cat3("Unable to list resources for ", name, ", ");
    message.append(cause);
    ErrorData { code: INTERNAL_ERROR, message }
}

/// The error where the prompts of an extension cannot be listed; `cause` is the
/// rendering of the failure for a developer.
pub fn prompts_error(name: &str, cause: &str) -> (r: ErrorData)
    ensures
        r.deep_view() == (ErrorDataView {
            code: INTERNAL_ERROR,
            message: "Unable to list prompts for "@ + name@ + ", "@ + cause@,
        }),
{
    let mut message = text::cat3("Unable to list prompts for ", name, ", ");
    message.append(cause);
    ErrorData { code: INTERNAL_ERROR, message }
}

pub open spec fn outcomes(list: Seq<ToolResult>) -> Seq<Result<Seq<ContentView>, ErrorDataView>> {
    list.map_values(|r: ToolResult| tool::tool_result_view(r))
}

/// What the successful outcomes hold.
pub open spec fn successes(list: Seq<Result<Seq<ContentView>, ErrorDataView>>) -> Seq<ContentView>
    decreases list.len(),
{
    if list.len() == 0 {
        Seq::empty()
    } else {
        let rest = successes(list.drop_last());
        match list.last() {
            Ok(c) => rest + c,
            Err(_) => rest,
        }
    }
}

/// What the listings of several extensions hold together; failures are passed
/// over.
pub fn merge_listings(results: &Vec<ToolResult>) -> (r: Vec<Content>)
    ensures
        r.deep_view() == successes(outcomes(results@)),
{
    let mut out: Vec<Content> = Vec::new();
    let ghost all = outcomes(results@);
    let mut i: usize = 0;
    assert(out.deep_view() =~= successes(all.take(0)));
    while i < results.len()
        invariant
            i <= results@.len(),
            all == outcomes(results@),
            out.deep_view() == successes(all.take(i as int)),
        decreases results@.len() - i,
    {
        assert(all.take(i + 1).drop_last() =~= all.take(i as int));
        assert(all.take(i + 1).last() == tool::tool_result_view(results@[i as int]));
        if let Ok(c) = &results[i] {
            base::extend(&mut out, c);
        }
        i = i + 1;
    }
    assert(all.take(results@.len() as int) =~= all);
    out
}

/// A prompt of an extension. What it says is known by a number under which the
/// caller keeps it.
#[derive(Debug, PartialEq)]
pub struct Prompt {
    pub name: String,
    pub handle: u64,
}

#[verifier::ext_equal]
pub struct PromptView {
    pub name: Seq<char>,
    pub handle: u64,
}

impl DeepView for Prompt {
    type V = PromptView;

    open spec fn deep_view(&self) -> PromptView {
        PromptView {
            name: self.name@,
            handle: self.handle,
        }
    }
}

impl Duplicate for Prompt {
    fn duplicate(&self) -> (r: Self) {
        Prompt {
            name: self.name.clone(),
            handle: self.handle,
        }
    }
}

pub open spec fn prompt_results_view(
    list: Seq<(String, Result<Vec<Prompt>, ErrorData>)>,
) -> Seq<(Seq<char>, Option<Seq<PromptView>>)> {
    list.map_values(
        |e: (String, Result<Vec<Prompt>, ErrorData>)|
            (
                e.0@,
                match e.1 {
                    Ok(p) => Some(p.deep_view()),
                    Err(_) => None,
                },
            ),
    )
}

/// The prompts of the extensions that could list them.
pub open spec fn listed_prompts(list: Seq<(Seq<char>, Option<Seq<PromptView>>)>) -> Seq<
    (Seq<char>, Seq<PromptView>),
>
    decreases list.len(),
{
    if list.len() == 0 {
        Seq::empty()
    } else {
        let rest = listed_prompts(list.drop_last());
        match list.last().1 {
            Some(p) => put(rest, list.last().0, p),
            None => rest,
        }
    }
}

/// The prompts of the extensions that could list them.
pub fn list_prompts(results: &Vec<(String, Result<Vec<Prompt>, ErrorData>)>) -> (r: Vec<
    (String, Vec<Prompt>),
>)
    ensures
        r.deep_view() == listed_prompts(prompt_results_view(results@)),
{
    let mut out: Vec<(String, Vec<Prompt>)> = Vec::new();
    let ghost all = prompt_results_view(results@);
    let mut i: usize = 0;
    assert(out.deep_view() =~= listed_prompts(all.take(0)));
    while i < results.len()
        invariant
            i <= results@.len(),
            all == prompt_results_view(results@),
            out.deep_view() == listed_prompts(all.take(i as int)),
        decreases results@.len() - i,
    {
        assert(all.take(i + 1).drop_last() =~= all.take(i as int));
        if let Ok(p) = &results[i].1 {
            assoc::insert(&mut out, results[i].0.clone(), p.duplicate());
        }
        i = i + 1;
    }
    assert(all.take(results@.len() as int) =~= all);
    out
}

/// A list holds a prompt with a name.
pub open spec fn has_prompt(list: Seq<PromptView>, name: Seq<char>) -> bool {
    exists|i: int| 0 <= i < list.len() && (#[trigger] list[i]).name == name
}

/// The first extension with a prompt of a name.
pub open spec fn prompt_owner(
    prompts: Seq<(Seq<char>, Seq<PromptView>)>,
    name: Seq<char>,
) -> Option<Seq<char>>
    decreases prompts.len(),
{
    if prompts.len() == 0 {
        None
    } else if has_prompt(prompts[0].1, name) {
        Some(prompts[0].0)
    } else {
        prompt_owner(prompts.drop_first(), name)
    }
}

fn contains_prompt(list: &Vec<Prompt>, name: &str) -> (r: bool)
    ensures
        r == has_prompt(list.deep_view(), name@),
{
    let mut i: usize = 0;
    while i < list.len()
        invariant
            i <= list@.len(),
            forall|j: int| 0 <= j < i ==> (#[trigger] list.deep_view()[j]).name != name@,
        decreases list@.len() - i,
    {
        if text::str_eq(&list[i].name, name) {
            assert(list.deep_view()[i as int].name == name@);
            return true;
        }
        i = i + 1;
    }
    false
}

/// The first extension with a prompt of a name, or the error that there is none.
pub fn find_prompt(prompts: &Vec<(String, Vec<Prompt>)>, name: &str) -> (r: Result<String, String>)
    ensures
        match r {
            Ok(e) => prompt_owner(prompts.deep_view(), name@) == Some(e@),
            Err(m) => prompt_owner(prompts.deep_view(), name@) is None && m@ == "Prompt '"@ + name@
                + "' not found"@,
        },
{
    let ghost all = prompts.deep_view();
    let mut i: usize = 0;
    assert(all.skip(0) =~= all);
    while i < prompts.len()
        invariant
            i <= prompts@.len(),
            all == prompts.deep_view(),
            prompt_owner(all, name@) == prompt_owner(all.skip(i as int), name@),
        decreases prompts@.len() - i,
    {
        assert(all.skip(i as int).drop_first() =~= all.skip(i + 1));
        if contains_prompt(&prompts[i].1, name) {
            return Ok(prompts[i].0.clone());
        }
        i = i + 1;
    }
    Err(text::cat3("Prompt '", name, "' not found"))
}

/// What a failed request for a prompt is reported as.
pub fn prompt_error(cause: &str) -> (r: String)
    ensures
        r@ == "Failed to get prompt: "@ + cause@,
{
    text::cat("Failed to get prompt: ", cause)
}

impl ExtensionManager {
    /// Where a resource is looked for.
    pub fn read_resource(&self, params: &Json) -> (r: Result<ResourceRead, ErrorData>)
        ensures
            match r {
                Ok(s) => read_start(self@, params.deep_view()) == Ok::<_, ErrorDataView>(
                    s.deep_view(),
                ),
                Err(e) => read_start(self@, params.deep_view()) == Err::<ResourceReadView, _>(
                    e.deep_view(),
                ),
            },
    {
        let uri = match extension_manager::require_str_parameter(params, "uri") {
            Ok(uri) => uri.clone(),
            Err(e) => {
                return Err(e);
            },
        };
        let names = self.list_extensions();
        assert(text::texts(names@) =~= names.deep_view());
        let all = text::join(&names, ", ");
        match params.get_str("extension_name") {
            Some(name) => match self.get_server_client(name) {
                Some(client) => {
                    let mut targets: Vec<u64> = Vec::new();
                    targets.push(client);
                    let s = ResourceRead { uri, single: true, targets, next: 0, available: all };
                    assert(s.targets.deep_view() =~= seq![client]);
                    Ok(s)
                },
                None => {
                    let mut message = text::cat3(
                        "Extension '",
                        name,
                        "' not found. Here are the available extensions: ",
                    );
                    message.append(&all);
                    Err(ErrorData { code: INVALID_PARAMS, message })
                },
            },
            None => {
                let mut targets: Vec<u64> = Vec::new();
                let mut i: usize = 0;
                while i < self.extensions.len()
                    invariant
                        i <= self.extensions@.len(),
                        targets.deep_view() == clients(self@).take(i as int),
                    decreases self.extensions@.len() - i,
                {
                    base::push(&mut targets, self.extensions[i].1.client);
                    assert(targets.deep_view() =~= clients(self@).take(i + 1));
                    i = i + 1;
                }
                assert(targets.deep_view() =~= clients(self@));
                Ok(ResourceRead { uri, single: false, targets, next: 0, available: all })
            },
        }
    }

    /// The client of an extension, which has to be there.
    pub fn valid_server_client(&self, name: &str) -> (r: Result<u64, ErrorData>)
        ensures
            match r {
                Ok(c) => valid_client(self@, name@) == Ok::<_, ErrorDataView>(c),
                Err(e) => valid_client(self@, name@) == Err::<u64, _>(e.deep_view()),
            },
    {
        match self.get_server_client(name) {
            Some(c) => Ok(c),
            None => {
                let message = text::cat3("Extension ", name, " is not valid");
                Err(ErrorData { code: INVALID_PARAMS, message })
            },
        }
    }

    /// The extensions whose resources are listed.
    pub fn list_resources(&self, params: &Json) -> (r: Result<ResourceListing, ErrorData>)
        ensures
            match r {
                Ok(s) => listing_plan(self@, params.deep_view()) == Ok::<_, ErrorDataView>(
                    s.deep_view(),
                ),
                Err(e) => listing_plan(self@, params.deep_view()) == Err::<ResourceListingView, _>(
                    e.deep_view(),
                ),
            },
    {
        match params.get_str("extension_name") {
            Some(name) => match self.valid_server_client(name) {
                Ok(client) => {
                    let targets = base::single((name.clone(), client));
                    Ok(ResourceListing { single: true, targets })
                },
                Err(e) => Err(e),
            },
            None => {
                let mut targets: Vec<(String, u64)> = Vec::new();
                let ghost all = self@;
                let mut i: usize = 0;
                assert(targets.deep_view() =~= with_resources(all.take(0)));
                while i < self.extensions.len()
                    invariant
                        i <= self.extensions@.len(),
                        all == self@,
                        targets.deep_view() == with_resources(all.take(i as int)),
                    decreases self.extensions@.len() - i,
                {
                    assert(all.take(i + 1).drop_last() =~= all.take(i as int));
                    let e = &self.extensions[i];
                    if e.1.supports_resources() {
                        base::push(&mut targets, (e.0.clone(), e.1.client));
                    }
                    i = i + 1;
                }
                assert(all.take(self.extensions@.len() as int) =~= all);
                Ok(ResourceListing { single: false, targets })
            },
        }
    }

    /// The client that is asked for a prompt of an extension.
    pub fn get_prompt(&self, extension_name: &str) -> (r: Result<u64, String>)
        ensures
            match (lookup(self@, extension_name@), r) {
                (Some(e), Ok(c)) => c == e.client,
                (None, Err(m)) => m@ == "Extension "@ + extension_name@ + " not found"@,
                _ => false,
            },
    {
        match self.get_server_client(extension_name) {
            Some(c) => Ok(c),
            None => Err(text::cat3("Extension ", extension_name, " not found")),
        }
    }
}

/// After as many failures as there are clients, a resource that was looked for
/// everywhere is reported missing; before, the next client is asked.
pub proof fn law_every_client_is_asked(s: ResourceReadView)
    requires
        !s.single,
        s.next < s.targets.len() <= usize::MAX,
    ensures
        read_answered(s, None).1 == if s.next + 1 < s.targets.len() {
            ReadStepView::Read(s.targets[s.next + 1])
        } else {
            read_next(ResourceReadView { next: s.targets.len() as usize, ..s })
        },
{
}

/// Where a call names an extension, that one and no other is asked for its
/// resources; one that is not connected is refused.
pub proof fn law_named_extension_is_only_target(m: Connected, params: JsonView, name: Seq<char>)
    requires
        params.text_field("extension_name"@) == Some(name),
    ensures
        match lookup(m, name) {
            Some(e) => listing_plan(m, params) == Ok::<_, ErrorDataView>(
                ResourceListingView { single: true, targets: seq![(name, e.client)] },
            ),
            None => listing_plan(m, params) is Err,
        },
{
}

} // verus!
