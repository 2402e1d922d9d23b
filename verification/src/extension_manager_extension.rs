//! The extension through which a model manages extensions.
use crate::assoc;
use crate::base::{self, Duplicate};
use crate::extension_manager;
use crate::json::{self, parameter_schema, Json, JsonView};
use crate::text;
use crate::tool::{self, Content, ContentView, ErrorDataView, Tool, ToolResult, ToolView};
use vstd::prelude::*;
use vstd::string::*;

verus! {

/// The name of the extension, under which it is kept too.
pub const EXTENSION_NAME: &'static str = "extensionmanager";

/// The name of the tool that reads a resource.
pub const READ_RESOURCE_TOOL_NAME: &'static str = "read_resource";

/// The name of the tool that lists resources.
pub const LIST_RESOURCES_TOOL_NAME: &'static str = "list_resources";

/// The name of the tool that finds extensions.
pub const SEARCH_AVAILABLE_EXTENSIONS_TOOL_NAME: &'static str = "search_available_extensions";

/// The name of the tool that enables and disables extensions.
pub const MANAGE_EXTENSIONS_TOOL_NAME: &'static str = "manage_extensions";

/// Why a tool of the extension failed.
#[derive(Debug, PartialEq)]
pub enum ExtensionManagerToolError {
    UnknownTool { tool_name: String },
    ManagerUnavailable,
    MissingParameter { param_name: String },
    InvalidAction { action: String },
    OperationFailed { message: String },
}

#[verifier::ext_equal]
pub enum ToolErrorView {
    UnknownTool { tool_name: Seq<char> },
    ManagerUnavailable,
    MissingParameter { param_name: Seq<char> },
    InvalidAction { action: Seq<char> },
    OperationFailed { message: Seq<char> },
}

impl DeepView for ExtensionManagerToolError {
    type V = ToolErrorView;

    open spec fn deep_view(&self) -> ToolErrorView {
        match self {
            ExtensionManagerToolError::UnknownTool { tool_name } => ToolErrorView::UnknownTool {
                tool_name: tool_name@,
            },
            ExtensionManagerToolError::ManagerUnavailable => ToolErrorView::ManagerUnavailable,
            ExtensionManagerToolError::MissingParameter { param_name } => ToolErrorView::MissingParameter {
                param_name: param_name@,
            },
            ExtensionManagerToolError::InvalidAction { action } => ToolErrorView::InvalidAction {
                action: action@,
            },
            ExtensionManagerToolError::OperationFailed { message } => ToolErrorView::OperationFailed {
                message: message@,
            },
        }
    }
}

impl Duplicate for ExtensionManagerToolError {
    fn duplicate(&self) -> (r: Self) {
        match self {
            ExtensionManagerToolError::UnknownTool { tool_name } => ExtensionManagerToolError::UnknownTool {
                tool_name: tool_name.clone(),
            },
            ExtensionManagerToolError::ManagerUnavailable => ExtensionManagerToolError::ManagerUnavailable,
            ExtensionManagerToolError::MissingParameter { param_name } => ExtensionManagerToolError::MissingParameter {
                param_name: param_name.clone(),
            },
            ExtensionManagerToolError::InvalidAction { action } => ExtensionManagerToolError::InvalidAction {
                action: action.clone(),
            },
            ExtensionManagerToolError::OperationFailed { message } => ExtensionManagerToolError::OperationFailed {
                message: message.clone(),
            },
        }
    }
}

impl ToolErrorView {
    /// What the error says.
    pub open spec fn text(self) -> Seq<char> {
        match self {
            ToolErrorView::UnknownTool { tool_name } => "Unknown tool: "@ + tool_name,
            ToolErrorView::ManagerUnavailable => "Extension manager not available"@,
            ToolErrorView::MissingParameter { param_name } => "Missing required parameter: "@
                + param_name,
            ToolErrorView::InvalidAction { action } => "Invalid action: "@ + action
                + ". Must be 'enable' or 'disable'"@,
            ToolErrorView::OperationFailed { message } => "Extension operation failed: "@ + message,
        }
    }

    /// The error as a failed operation.
    pub open spec fn failed(self) -> ToolErrorView {
        ToolErrorView::OperationFailed { message: self.text() }
    }
}

impl ExtensionManagerToolError {
    /// What the error says.
    pub fn message(&self) -> (r: String)
        ensures
            r@ == self.deep_view().text(),
    {
        match self {
            ExtensionManagerToolError::UnknownTool { tool_name } => text::cat(
                "Unknown tool: ",
                tool_name,
            ),
            ExtensionManagerToolError::ManagerUnavailable => text::owned(
                "Extension manager not available",
            ),
            ExtensionManagerToolError::MissingParameter { param_name } => text::cat(
                "Missing required parameter: ",
                param_name,
            ),
            ExtensionManagerToolError::InvalidAction { action } => text::cat3(
                "Invalid action: ",
                action,
                ". Must be 'enable' or 'disable'",
            ),
            ExtensionManagerToolError::OperationFailed { message } => text::cat(
                "Extension operation failed: ",
                message,
            ),
        }
    }

    fn failed(&self) -> (r: Self)
        ensures
            r.deep_view() == self.deep_view().failed(),
    {
        ExtensionManagerToolError::OperationFailed { message: self.message() }
    }
}

/// What the extension tells of itself as a server of tools.
#[derive(Debug, PartialEq)]
pub struct ServerDescription {
    pub name: String,
    pub title: String,
    pub version: String,
    pub instructions: String,
    pub list_changed: bool,
}

#[verifier::ext_equal]
pub struct ServerDescriptionView {
    pub name: Seq<char>,
    pub title: Seq<char>,
    pub version: Seq<char>,
    pub instructions: Seq<char>,
    pub list_changed: bool,
}

impl DeepView for ServerDescription {
    type V = ServerDescriptionView;

    open spec fn deep_view(&self) -> ServerDescriptionView {
        ServerDescriptionView {
            name: self.name@,
            title: self.title@,
            version: self.version@,
            instructions: self.instructions@,
            list_changed: self.list_changed,
        }
    }
}

/// How the tools are used.
pub open spec fn server_instructions() -> Seq<char> {
    "Extension Management\n\nUse these tools to discover, enable, and disable extensions, as well as review resources.\n\nAvailable tools:\n- search_available_extensions: Find extensions available to enable/disable\n- manage_extensions: Enable or disable extensions\n- list_resources: List resources from extensions\n- read_resource: Read specific resources from extensions\n\nUse search_available_extensions when you need to find what extensions are available.\nUse manage_extensions to enable or disable specific extensions by name.\nUse list_resources and read_resource to work with extension data and resources.\n"@
}

/// What the extension tells of itself as a server of tools.
pub fn describe_server() -> (r: ServerDescription)
    ensures
        r.deep_view() == (ServerDescriptionView {
            name: extension_manager::normalized(EXTENSION_NAME@),
            title: "Extension Manager"@,
            version: "1.0.0"@,
            instructions: server_instructions(),
            list_changed: false,
        }),
{
    ServerDescription {
        name: extension_manager::normalize(text::owned(EXTENSION_NAME)),
        title: text::owned("Extension Manager"),
        version: text::owned("1.0.0"),
        instructions: text::owned(
            "Extension Management\n\nUse these tools to discover, enable, and disable extensions, as well as review resources.\n\nAvailable tools:\n- search_available_extensions: Find extensions available to enable/disable\n- manage_extensions: Enable or disable extensions\n- list_resources: List resources from extensions\n- read_resource: Read specific resources from extensions\n\nUse search_available_extensions when you need to find what extensions are available.\nUse manage_extensions to enable or disable specific extensions by name.\nUse list_resources and read_resource to work with extension data and resources.\n",
        ),
        list_changed: false,
    }
}

/// The tool that finds extensions.
pub open spec fn search_tool() -> ToolView {
    ToolView::described(
        SEARCH_AVAILABLE_EXTENSIONS_TOOL_NAME@,
        "Searches for additional extensions available to help complete tasks.\n        Use this tool when you're unable to find a specific feature or functionality you need to complete your task, or when standard approaches aren't working.\n        These extensions might provide the exact tools needed to solve your problem.\n        If you find a relevant one, consider using your tools to enable it."@,
        seq![
            ("type"@, JsonView::Text("object"@)),
            ("required"@, JsonView::Array(Seq::empty())),
            ("properties"@, JsonView::Object(Seq::empty())),
        ],
        "Discover extensions"@,
        true,
    )
}

/// The parameters of the tool that enables and disables extensions.
pub open spec fn manage_properties() -> Seq<(Seq<char>, JsonView)> {
    seq![
        (
            "action"@,
            JsonView::Object(
                seq![
                    ("type"@, JsonView::Text("string"@)),
                    ("description"@, JsonView::Text("The action to perform"@)),
                    (
                        "enum"@,
                        JsonView::Array(
                            seq![JsonView::Text("enable"@), JsonView::Text("disable"@)],
                        ),
                    ),
                ],
            ),
        ),
        (
            "extension_name"@,
            parameter_schema("string"@, "The name of the extension to enable"@),
        ),
    ]
}

/// The tool that enables and disables extensions.
pub open spec fn manage_tool() -> ToolView {
    ToolView::described(
        MANAGE_EXTENSIONS_TOOL_NAME@,
        "Tool to manage extensions and tools in goose context.\n            Enable or disable extensions to help complete tasks.\n            Enable or disable an extension by providing the extension name.\n            "@,
        seq![
            ("type"@, JsonView::Text("object"@)),
            (
                "required"@,
                JsonView::Array(
                    seq![JsonView::Text("action"@), JsonView::Text("extension_name"@)],
                ),
            ),
            ("properties"@, JsonView::Object(manage_properties())),
        ],
        "Enable or disable an extension"@,
        false,
    )
}

/// The tool that lists resources.
pub open spec fn list_resources_tool() -> ToolView {
    ToolView::described(
        LIST_RESOURCES_TOOL_NAME@,
        "List resources from an extension(s).\n\nResources allow extensions to share data that provide context to LLMs, such as\nfiles, database schemas, or application-specific information. This tool lists resources\nin the provided extension, and returns a list for the user to browse. If no extension\nis provided, the tool will search all extensions for the resource.\n"@,
        seq![
            ("type"@, JsonView::Text("object"@)),
            (
                "properties"@,
                JsonView::Object(
                    seq![
                        (
                            "extension_name"@,
                            parameter_schema("string"@, "Optional extension name"@),
                        ),
                    ],
                ),
            ),
        ],
        "List resources"@,
        true,
    )
}

/// The tool that reads a resource.
pub open spec fn read_resource_tool() -> ToolView {
    ToolView::described(
        READ_RESOURCE_TOOL_NAME@,
        "Read a resource from an extension.\n\nResources allow extensions to share data that provide context to LLMs, such as\nfiles, database schemas, or application-specific information. This tool searches for the\nresource URI in the provided extension, and reads in the resource content. If no extension\nis provided, the tool will search all extensions for the resource.\n"@,
        seq![
            ("type"@, JsonView::Text("object"@)),
            ("required"@, JsonView::Array(seq![JsonView::Text("uri"@)])),
            (
                "properties"@,
                JsonView::Object(
                    seq![
                        ("uri"@, parameter_schema("string"@, "Resource URI"@)),
                        (
                            "extension_name"@,
                            parameter_schema("string"@, "Optional extension name"@),
                        ),
                    ],
                ),
            ),
        ],
        "Read a resource"@,
        true,
    )
}

fn make_search_tool() -> (r: Tool)
    ensures
        r.deep_view() == search_tool(),
{
    let required: Vec<Json> = Vec::new();
    let properties: Vec<(String, Json)> = Vec::new();
    assert(required.deep_view() =~= Seq::<JsonView>::empty());
    assert(properties.deep_view() =~= Seq::<(Seq<char>, JsonView)>::empty());
    let mut schema: Vec<(String, Json)> = Vec::new();
    json::add_field(&mut schema, "type", json::text_value("object"));
    json::add_field(&mut schema, "required", json::array_value(required));
    json::add_field(&mut schema, "properties", json::object_value(properties));
    assert(schema.deep_view() =~= search_tool().input_schema);
    Tool::described(
        SEARCH_AVAILABLE_EXTENSIONS_TOOL_NAME,
        "Searches for additional extensions available to help complete tasks.\n        Use this tool when you're unable to find a specific feature or functionality you need to complete your task, or when standard approaches aren't working.\n        These extensions might provide the exact tools needed to solve your problem.\n        If you find a relevant one, consider using your tools to enable it.",
        schema,
        "Discover extensions",
        true,
    )
}

fn make_manage_tool() -> (r: Tool)
    ensures
        r.deep_view() == manage_tool(),
{
    let mut actions: Vec<Json> = Vec::new();
    base::push(&mut actions, json::text_value("enable"));
    base::push(&mut actions, json::text_value("disable"));
    assert(actions.deep_view() =~= seq![JsonView::Text("enable"@), JsonView::Text("disable"@)]);
    let mut action: Vec<(String, Json)> = Vec::new();
    json::add_field(&mut action, "type", json::text_value("string"));
    json::add_field(&mut action, "description", json::text_value("The action to perform"));
    json::add_field(&mut action, "enum", json::array_value(actions));
    assert(action.deep_view() =~= manage_properties()[0].1->Object_0);
    let mut properties: Vec<(String, Json)> = Vec::new();
    json::add_field(&mut properties, "action", json::object_value(action));
    json::add_field(
        &mut properties,
        "extension_name",
        json::parameter("string", "The name of the extension to enable"),
    );
    assert(properties.deep_view() =~= manage_properties());
    let mut required: Vec<Json> = Vec::new();
    base::push(&mut required, json::text_value("action"));
    base::push(&mut required, json::text_value("extension_name"));
    assert(required.deep_view() =~= seq![
        JsonView::Text("action"@),
        JsonView::Text("extension_name"@),
    ]);
    let mut schema: Vec<(String, Json)> = Vec::new();
    json::add_field(&mut schema, "type", json::text_value("object"));
    json::add_field(&mut schema, "required", json::array_value(required));
    json::add_field(&mut schema, "properties", json::object_value(properties));
    assert(schema.deep_view() =~= manage_tool().input_schema);
    Tool::described(
        MANAGE_EXTENSIONS_TOOL_NAME,
        "Tool to manage extensions and tools in goose context.\n            Enable or disable extensions to help complete tasks.\n            Enable or disable an extension by providing the extension name.\n            ",
        schema,
        "Enable or disable an extension",
        false,
    )
}

fn make_list_resources_tool() -> (r: Tool)
    ensures
        r.deep_view() == list_resources_tool(),
{
    let mut properties: Vec<(String, Json)> = Vec::new();
    json::add_field(
        &mut properties,
        "extension_name",
        json::parameter("string", "Optional extension name"),
    );
    assert(properties.deep_view() =~= seq![
        ("extension_name"@, parameter_schema("string"@, "Optional extension name"@)),
    ]);
    let mut schema: Vec<(String, Json)> = Vec::new();
    json::add_field(&mut schema, "type", json::text_value("object"));
    json::add_field(&mut schema, "properties", json::object_value(properties));
    assert(schema.deep_view() =~= list_resources_tool().input_schema);
    Tool::described(
        LIST_RESOURCES_TOOL_NAME,
        "List resources from an extension(s).\n\nResources allow extensions to share data that provide context to LLMs, such as\nfiles, database schemas, or application-specific information. This tool lists resources\nin the provided extension, and returns a list for the user to browse. If no extension\nis provided, the tool will search all extensions for the resource.\n",
        schema,
        "List resources",
        true,
    )
}

fn make_read_resource_tool() -> (r: Tool)
    ensures
        r.deep_view() == read_resource_tool(),
{
    let mut required: Vec<Json> = Vec::new();
    base::push(&mut required, json::text_value("uri"));
    assert(required.deep_view() =~= seq![JsonView::Text("uri"@)]);
    let mut properties: Vec<(String, Json)> = Vec::new();
    json::add_field(&mut properties, "uri", json::parameter("string", "Resource URI"));
    json::add_field(
        &mut properties,
        "extension_name",
        json::parameter("string", "Optional extension name"),
    );
    assert(properties.deep_view() =~= seq![
        ("uri"@, parameter_schema("string"@, "Resource URI"@)),
        ("extension_name"@, parameter_schema("string"@, "Optional extension name"@)),
    ]);
    let mut schema: Vec<(String, Json)> = Vec::new();
    json::add_field(&mut schema, "type", json::text_value("object"));
    json::add_field(&mut schema, "required", json::array_value(required));
    json::add_field(&mut schema, "properties", json::object_value(properties));
    assert(schema.deep_view() =~= read_resource_tool().input_schema);
    Tool::described(
        READ_RESOURCE_TOOL_NAME,
        "Read a resource from an extension.\n\nResources allow extensions to share data that provide context to LLMs, such as\nfiles, database schemas, or application-specific information. This tool searches for the\nresource URI in the provided extension, and reads in the resource content. If no extension\nis provided, the tool will search all extensions for the resource.\n",
        schema,
        "Read a resource",
        true,
    )
}

/// The tools of the extension; those for resources only where some connected
/// extension offers resources.
pub open spec fn offered_tools(resources: bool) -> Seq<ToolView> {
    let always = seq![search_tool(), manage_tool()];
    if resources {
        always + seq![list_resources_tool(), read_resource_tool()]
    } else {
        always
    }
}

/// The tools of the extension.
pub fn get_tools(resources: bool) -> (r: Vec<Tool>)
    ensures
        r.deep_view() == offered_tools(resources),
{
    let mut tools: Vec<Tool> = Vec::new();
    base::push(&mut tools, make_search_tool());
    base::push(&mut tools, make_manage_tool());
    if resources {
        base::push(&mut tools, make_list_resources_tool());
        base::push(&mut tools, make_read_resource_tool());
    }
    assert(tools.deep_view() =~= offered_tools(resources));
    tools
}

/// The action and the extension that a call of the managing tool names.
pub open spec fn managed(arguments: Option<Seq<(Seq<char>, JsonView)>>) -> Result<
    (Seq<char>, Seq<char>),
    ToolErrorView,
> {
    match arguments {
        None => Err(ToolErrorView::MissingParameter { param_name: "arguments"@ }),
        Some(args) => match JsonView::Object(args).text_field("action"@) {
            None => Err(ToolErrorView::MissingParameter { param_name: "action"@ }),
            Some(action) => match JsonView::Object(args).text_field("extension_name"@) {
                None => Err(ToolErrorView::MissingParameter { param_name: "extension_name"@ }),
                Some(name) => if action == "enable"@ || action == "disable"@ {
                    Ok((action, name))
                } else {
                    Err(ToolErrorView::InvalidAction { action })
                },
            },
        },
    }
}

fn text_argument(args: &Vec<(String, Json)>, name: &str) -> (r: Option<String>)
    ensures
        r.deep_view() == JsonView::Object(args.deep_view()).text_field(name@),
{
    match assoc::get(args, name) {
        Some(v) => match v.as_str() {
            Some(s) => Some(s.clone()),
            None => None,
        },
        None => None,
    }
}

/// The action and the extension that a call of the managing tool names.
pub fn handle_manage_extensions(arguments: Option<&Vec<(String, Json)>>) -> (r: Result<
    (String, String),
    ExtensionManagerToolError,
>)
    ensures
        match r {
            Ok(p) => managed(arguments.deep_view()) == Ok::<_, ToolErrorView>((p.0@, p.1@)),
            Err(e) => managed(arguments.deep_view()) == Err::<(Seq<char>, Seq<char>), _>(
                e.deep_view(),
            ),
        },
{
    let args = match arguments {
        Some(args) => args,
        None => {
            return Err(missing("arguments"));
        },
    };
    let action = match text_argument(args, "action") {
        Some(a) => a,
        None => {
            return Err(missing("action"));
        },
    };
    let extension_name = match text_argument(args, "extension_name") {
        Some(n) => n,
        None => {
            return Err(missing("extension_name"));
        },
    };
    if text::str_eq(&action, "enable") || text::str_eq(&action, "disable") {
        Ok((action, extension_name))
    } else {
        Err(ExtensionManagerToolError::InvalidAction { action })
    }
}

fn missing(name: &str) -> (r: ExtensionManagerToolError)
    ensures
        r.deep_view() == (ToolErrorView::MissingParameter { param_name: name@ }),
{
    ExtensionManagerToolError::MissingParameter { param_name: text::owned(name) }
}

/// What a call of a tool of the extension leads to.
#[derive(Debug, PartialEq)]
pub enum ClientRoute {
    Search,
    Manage { action: String, extension_name: String },
    ListResources(Json),
    ReadResource(Json),
    Refused(ExtensionManagerToolError),
}

#[verifier::ext_equal]
pub enum ClientRouteView {
    Search,
    Manage { action: Seq<char>, extension_name: Seq<char> },
    ListResources(JsonView),
    ReadResource(JsonView),
    Refused(ToolErrorView),
}

impl DeepView for ClientRoute {
    type V = ClientRouteView;

    open spec fn deep_view(&self) -> ClientRouteView {
        match self {
            ClientRoute::Search => ClientRouteView::Search,
            ClientRoute::Manage { action, extension_name } => ClientRouteView::Manage {
                action: action@,
                extension_name: extension_name@,
            },
            ClientRoute::ListResources(x) => ClientRouteView::ListResources(x.deep_view()),
            ClientRoute::ReadResource(x) => ClientRouteView::ReadResource(x.deep_view()),
            ClientRoute::Refused(x) => ClientRouteView::Refused(x.deep_view()),
        }
    }
}

/// The arguments of a call as an object.
pub open spec fn params_of(arguments: Option<Seq<(Seq<char>, JsonView)>>) -> JsonView {
    match arguments {
        Some(args) => JsonView::Object(args),
        None => JsonView::Object(Seq::empty()),
    }
}

/// What a call of a tool of the extension leads to. All but the managing tool
/// need the extension manager from the start.
pub open spec fn client_route(
    name: Seq<char>,
    arguments: Option<Seq<(Seq<char>, JsonView)>>,
    available: bool,
) -> ClientRouteView {
    let unavailable = ClientRouteView::Refused(ToolErrorView::ManagerUnavailable.failed());
    if name == SEARCH_AVAILABLE_EXTENSIONS_TOOL_NAME@ {
        if available {
            ClientRouteView::Search
        } else {
            unavailable
        }
    } else if name == MANAGE_EXTENSIONS_TOOL_NAME@ {
        match managed(arguments) {
            Ok((action, extension_name)) => ClientRouteView::Manage { action, extension_name },
            Err(e) => ClientRouteView::Refused(e.failed()),
        }
    } else if name == LIST_RESOURCES_TOOL_NAME@ {
        if available {
            ClientRouteView::ListResources(params_of(arguments))
        } else {
            unavailable
        }
    } else if name == READ_RESOURCE_TOOL_NAME@ {
        if available {
            ClientRouteView::ReadResource(params_of(arguments))
        } else {
            unavailable
        }
    } else {
        ClientRouteView::Refused(ToolErrorView::UnknownTool { tool_name: name })
    }
}

/// The arguments of a call as an object.
pub fn arguments_object(arguments: Option<&Vec<(String, Json)>>) -> (r: Json)
    ensures
        r.deep_view() == params_of(arguments.deep_view()),
{
    match arguments {
        Some(args) => json::object_value(json::duplicate_fields(args)),
        None => {
            let none: Vec<(String, Json)> = Vec::new();
            assert(none.deep_view() =~= Seq::<(Seq<char>, JsonView)>::empty());
            json::object_value(none)
        },
    }
}

/// What a call of a tool of the extension leads to.
pub fn call_tool(name: &str, arguments: Option<&Vec<(String, Json)>>, available: bool) -> (r:
    ClientRoute)
    ensures
        r.deep_view() == client_route(name@, arguments.deep_view(), available),
{
    let unavailable = ClientRoute::Refused(
        ExtensionManagerToolError::ManagerUnavailable.failed(),
    );
    if text::str_eq(name, SEARCH_AVAILABLE_EXTENSIONS_TOOL_NAME) {
        if available {
            ClientRoute::Search
        } else {
            unavailable
        }
    } else if text::str_eq(name, MANAGE_EXTENSIONS_TOOL_NAME) {
        match handle_manage_extensions(arguments) {
            Ok((action, extension_name)) => ClientRoute::Manage { action, extension_name },
            Err(e) => ClientRoute::Refused(e.failed()),
        }
    } else if text::str_eq(name, LIST_RESOURCES_TOOL_NAME) {
        if available {
            ClientRoute::ListResources(arguments_object(arguments))
        } else {
            unavailable
        }
    } else if text::str_eq(name, READ_RESOURCE_TOOL_NAME) {
        if available {
            ClientRoute::ReadResource(arguments_object(arguments))
        } else {
            unavailable
        }
    } else {
        ClientRoute::Refused(
            ExtensionManagerToolError::UnknownTool { tool_name: text::owned(name) },
        )
    }
}

/// What a tool returns to the model. A failure is content too, marked as an
/// error.
#[derive(Debug, PartialEq)]
pub struct CallToolResult {
    pub content: Vec<Content>,
    pub is_error: Option<bool>,
}

#[verifier::ext_equal]
pub struct CallToolResultView {
    pub content: Seq<ContentView>,
    pub is_error: Option<bool>,
}

impl DeepView for CallToolResult {
    type V = CallToolResultView;

    open spec fn deep_view(&self) -> CallToolResultView {
        CallToolResultView {
            content: self.content.deep_view(),
            is_error: self.is_error.deep_view(),
        }
    }
}

/// What precedes the message of a failed operation.
pub open spec fn failure_prefix(route: ClientRouteView) -> Seq<char> {
    match route {
        ClientRouteView::Search => "Failed to search available extensions: "@,
        ClientRouteView::ListResources(_) => "Failed to list resources: "@,
        ClientRouteView::ReadResource(_) => "Failed to read resource: "@,
        _ => Seq::empty(),
    }
}

pub open spec fn error_result(e: ToolErrorView) -> CallToolResultView {
    CallToolResultView { content: seq![ContentView::Text(e.text())], is_error: Some(true) }
}

/// What a call returns to the model, once what it led to has an outcome. A
/// refused call needs none.
pub open spec fn client_result(
    route: ClientRouteView,
    outcome: Result<Seq<ContentView>, ErrorDataView>,
) -> CallToolResultView {
    match route {
        ClientRouteView::Refused(e) => error_result(e),
        _ => match outcome {
            Ok(content) => CallToolResultView { content, is_error: Some(false) },
            Err(e) => error_result(
                (ToolErrorView::OperationFailed {
                    message: failure_prefix(route) + e.message,
                }).failed(),
            ),
        },
    }
}

/// The content that marks an error.
fn error_content(e: &ExtensionManagerToolError) -> (r: CallToolResult)
    ensures
        r.deep_view() == error_result(e.deep_view()),
{
    CallToolResult { content: base::single(Content::Text(e.message())), is_error: Some(true) }
}

/// What a call returns to the model, once what it led to has an outcome.
pub fn finish_call(route: &ClientRoute, outcome: ToolResult) -> (r: CallToolResult)
    ensures
        r.deep_view() == client_result(route.deep_view(), tool::tool_result_view(outcome)),
{
    let prefix = match route {
        ClientRoute::Refused(e) => {
            return error_content(e);
        },
        ClientRoute::Search => text::owned("Failed to search available extensions: "),
        ClientRoute::ListResources(_) => text::owned("Failed to list resources: "),
        ClientRoute::ReadResource(_) => text::owned("Failed to read resource: "),
        ClientRoute::Manage { .. } => String::new(),
    };
    match outcome {
        Ok(content) => CallToolResult { content, is_error: Some(false) },
        Err(e) => {
            let inner = ExtensionManagerToolError::OperationFailed {
                message: text::cat(&prefix, &e.message),
            };
            error_content(&inner.failed())
        },
    }
}

/// A call is marked as an error exactly where it was refused or its operation
/// failed.
pub proof fn law_errors_are_marked(
    route: ClientRouteView,
    outcome: Result<Seq<ContentView>, ErrorDataView>,
)
    ensures
        client_result(route, outcome).is_error == Some(route is Refused || outcome is Err),
{
}

} // verus!
