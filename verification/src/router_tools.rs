//! The tool by which a model searches for tools.
use crate::base;
use crate::extension_manager_extension::{
    LIST_RESOURCES_TOOL_NAME, MANAGE_EXTENSIONS_TOOL_NAME, READ_RESOURCE_TOOL_NAME,
    SEARCH_AVAILABLE_EXTENSIONS_TOOL_NAME,
};
use crate::json::{self, parameter_schema, Json, JsonNumber, JsonView};
use crate::text;
use crate::tool::{Tool, ToolView};
use vstd::prelude::*;
use vstd::string::*;

verus! {

/// The name of the tool by which a model searches for tools.
pub const ROUTER_LLM_SEARCH_TOOL_NAME: &'static str = "router__llm_search";

/// The number of tools where a search names none.
pub open spec fn default_count() -> JsonView {
    JsonView::Number { text: "5"@, as_u64: Some(5) }
}

/// The parameters of the search.
pub open spec fn search_properties() -> Seq<(Seq<char>, JsonView)> {
    seq![
        (
            "extension_name"@,
            parameter_schema("string"@, "The name of the extension to filter tools by"@),
        ),
        (
            "query"@,
            parameter_schema(
                "string"@,
                "The query to search for the most relevant tools based on the user's messages"@,
            ),
        ),
        (
            "k"@,
            JsonView::Object(
                seq![
                    ("type"@, JsonView::Text("integer"@)),
                    (
                        "description"@,
                        JsonView::Text("The number of tools to retrieve (defaults to 5)"@),
                    ),
                    ("default"@, default_count()),
                ],
            ),
        ),
    ]
}

/// The tool by which a model searches for tools.
pub open spec fn search_tool() -> ToolView {
    ToolView::described(
        ROUTER_LLM_SEARCH_TOOL_NAME@,
        "Searches for relevant tools based on the user's messages.\nFormat a query to search for the most relevant tools based on the user's messages.\nPay attention to the keywords in the user's messages, especially the last message and potential tools they are asking for.\nThis tool should be invoked when the user's messages suggest they are asking for a tool to be run.\nUse the extension_name parameter to filter tools by the appropriate extension.\nFor example, if the user is asking to list the files in the current directory, you filter for the \"developer\" extension.\nExample: {\"User\": \"list the files in the current directory\", \"Query\": \"list files in current directory\", \"Extension Name\": \"developer\", \"k\": 5}\nExtension name is not optional, it is required.\nThe returned result will be a list of tool names, descriptions, and schemas from which you, the agent can select the most relevant tool to invoke.\n"@,
        seq![
            ("type"@, JsonView::Text("object"@)),
            (
                "required"@,
                JsonView::Array(
                    seq![JsonView::Text("query"@), JsonView::Text("extension_name"@)],
                ),
            ),
            ("properties"@, JsonView::Object(search_properties())),
        ],
        "LLM search for relevant tools"@,
        true,
    )
}

/// The tool by which a model searches for tools.
pub fn llm_search_tool() -> (r: Tool)
    ensures
        r.deep_view() == search_tool(),
{
    let mut count: Vec<(String, Json)> = Vec::new();
    json::add_field(&mut count, "type", json::text_value("integer"));
    json::add_field(
        &mut count,
        "description",
        json::text_value("The number of tools to retrieve (defaults to 5)"),
    );
    let five = Json::Number(JsonNumber { text: text::owned("5"), as_u64: Some(5) });
    assert(five.deep_view() == default_count());
    json::add_field(&mut count, "default", five);
    assert(count.deep_view() =~= search_properties()[2].1->Object_0);
    let mut properties: Vec<(String, Json)> = Vec::new();
    json::add_field(
        &mut properties,
        "extension_name",
        json::parameter("string", "The name of the extension to filter tools by"),
    );
    json::add_field(
        &mut properties,
        "query",
        json::parameter(
            "string",
            "The query to search for the most relevant tools based on the user's messages",
        ),
    );
    json::add_field(&mut properties, "k", json::object_value(count));
    assert(properties.deep_view() =~= search_properties());
    let mut required: Vec<Json> = Vec::new();
    base::push(&mut required, json::text_value("query"));
    base::push(&mut required, json::text_value("extension_name"));
    assert(required.deep_view() =~= seq![
        JsonView::Text("query"@),
        JsonView::Text("extension_name"@),
    ]);
    let mut schema: Vec<(String, Json)> = Vec::new();
    json::add_field(&mut schema, "type", json::text_value("object"));
    json::add_field(&mut schema, "required", json::array_value(required));
    json::add_field(&mut schema, "properties", json::object_value(properties));
    assert(schema.deep_view() =~= search_tool().input_schema);
    Tool::described(
        ROUTER_LLM_SEARCH_TOOL_NAME,
        "Searches for relevant tools based on the user's messages.\nFormat a query to search for the most relevant tools based on the user's messages.\nPay attention to the keywords in the user's messages, especially the last message and potential tools they are asking for.\nThis tool should be invoked when the user's messages suggest they are asking for a tool to be run.\nUse the extension_name parameter to filter tools by the appropriate extension.\nFor example, if the user is asking to list the files in the current directory, you filter for the \"developer\" extension.\nExample: {\"User\": \"list the files in the current directory\", \"Query\": \"list files in current directory\", \"Extension Name\": \"developer\", \"k\": 5}\nExtension name is not optional, it is required.\nThe returned result will be a list of tool names, descriptions, and schemas from which you, the agent can select the most relevant tool to invoke.\n",
        schema,
        "LLM search for relevant tools",
        true,
    )
}

/// How a model is told to search for tools.
pub open spec fn search_prompt() -> Seq<char> {
    "# LLM Tool Selection Instructions\n    Important: the user has opted to dynamically enable tools, so although an extension could be enabled, \\\n    please invoke the llm search tool to actually retrieve the most relevant tools to use according to the user's messages.\n    For example, if the user has 3 extensions enabled, but they are asking for a tool to read a pdf file, \\\n    you would invoke the llm_search tool to find the most relevant read pdf tool.\n    By dynamically enabling tools, you (goose) as the agent save context window space and allow the user to dynamically retrieve the most relevant tools.\n    Be sure to format a query packed with relevant keywords to search for the most relevant tools.\n    In addition to the extension names available to you, you also have platform extension tools available to you.\n    The platform extension contains the following tools:\n    - "@
        + SEARCH_AVAILABLE_EXTENSIONS_TOOL_NAME@ + "\n    - "@ + MANAGE_EXTENSIONS_TOOL_NAME@
        + "\n    - "@ + READ_RESOURCE_TOOL_NAME@ + "\n    - "@ + LIST_RESOURCES_TOOL_NAME@
        + "\n    "@
}

/// How a model is told to search for tools.
pub fn llm_search_tool_prompt() -> (r: String)
    ensures
        r@ == search_prompt(),
{
    let mut out = text::cat5(
        "# LLM Tool Selection Instructions\n    Important: the user has opted to dynamically enable tools, so although an extension could be enabled, \\\n    please invoke the llm search tool to actually retrieve the most relevant tools to use according to the user's messages.\n    For example, if the user has 3 extensions enabled, but they are asking for a tool to read a pdf file, \\\n    you would invoke the llm_search tool to find the most relevant read pdf tool.\n    By dynamically enabling tools, you (goose) as the agent save context window space and allow the user to dynamically retrieve the most relevant tools.\n    Be sure to format a query packed with relevant keywords to search for the most relevant tools.\n    In addition to the extension names available to you, you also have platform extension tools available to you.\n    The platform extension contains the following tools:\n    - ",
        SEARCH_AVAILABLE_EXTENSIONS_TOOL_NAME,
        "\n    - ",
        MANAGE_EXTENSIONS_TOOL_NAME,
        "\n    - ",
    );
    out.append(READ_RESOURCE_TOOL_NAME);
    out.append("\n    - ");
    out.append(LIST_RESOURCES_TOOL_NAME);
    out.append("\n    ");
    out
}

} // verus!
