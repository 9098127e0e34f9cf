//! What the tool tells of itself: its name, its purpose and its parameters.
use crate::json::Json;
use crate::json::JsonView;
use crate::tool::GraphJinTool;
use crate::wording;
use vstd::prelude::*;

verus! {

broadcast use {
    vstd::string::group_string_axioms,
    crate::json::lemma_array_view,
    crate::json::lemma_object_view,
};

/// What an agent needs to know to call a tool.
#[derive(Debug)]
pub struct ToolSpec {
    pub name: String,
    pub description: String,
    pub parameters: Json,
}

/// A text as a JSON value.
fn text_value(t: &str) -> (r: Json)
    ensures
        r@ == JsonView::Text(t@),
{
    Json::Text(t.to_owned())
}

/// A parameter: the type of its values, and what it is for.
pub open spec fn parameter(kind: Seq<char>, description: Seq<char>) -> JsonView {
    JsonView::Object(
        seq![
            ("type"@, JsonView::Text(kind)),
            ("description"@, JsonView::Text(description)),
        ],
    )
}

/// A parameter: the type of its values, and what it is for.
fn build_parameter(kind: &str, description: &str) -> (r: Json)
    ensures
        r@ == parameter(kind@, description@),
{
    let mut members: Vec<(String, Json)> = Vec::new();
    members.push(("type".to_owned(), text_value(kind)));
    members.push(("description".to_owned(), text_value(description)));
    let r = Json::Object(members);
    assert(r@->Object_0 == parameter(kind@, description@)->Object_0);
    r
}

/// The actions that the tool knows.
pub open spec fn actions() -> Seq<JsonView> {
    seq![
        JsonView::Text("list_tables"@),
        JsonView::Text("describe_table"@),
        JsonView::Text("query"@),
        JsonView::Text("mutate"@),
    ]
}

/// The parameter that picks an action.
pub open spec fn action_parameter() -> JsonView {
    JsonView::Object(
        seq![
            ("type"@, JsonView::Text("string"@)),
            ("enum"@, JsonView::Array(actions())),
            ("description"@, JsonView::Text(wording::ACTION_PARAMETER@)),
        ],
    )
}

/// The parameter that picks an action.
fn build_action_parameter() -> (r: Json)
    ensures
        r@ == action_parameter(),
{
    let mut names: Vec<Json> = Vec::new();
    names.push(text_value("list_tables"));
    names.push(text_value("describe_table"));
    names.push(text_value("query"));
    names.push(text_value("mutate"));
    assert(crate::json::item_views(names@) == actions());
    let mut members: Vec<(String, Json)> = Vec::new();
    members.push(("type".to_owned(), text_value("string")));
    members.push(("enum".to_owned(), Json::Array(names)));
    members.push(("description".to_owned(), text_value(wording::ACTION_PARAMETER)));
    let r = Json::Object(members);
    assert(r@->Object_0 == action_parameter()->Object_0);
    r
}

/// The parameters of the tool.
pub open spec fn properties() -> JsonView {
    JsonView::Object(
        seq![
            ("action"@, action_parameter()),
            ("table"@, parameter("string"@, wording::TABLE_PARAMETER@)),
            ("graphql"@, parameter("string"@, wording::GRAPHQL_PARAMETER@)),
            ("variables"@, parameter("object"@, wording::VARIABLES_PARAMETER@)),
        ],
    )
}

/// The parameters of the tool.
fn build_properties() -> (r: Json)
    ensures
        r@ == properties(),
{
    let mut members: Vec<(String, Json)> = Vec::new();
    members.push(("action".to_owned(), build_action_parameter()));
    members.push(("table".to_owned(), build_parameter("string", wording::TABLE_PARAMETER)));
    members.push(("graphql".to_owned(), build_parameter("string", wording::GRAPHQL_PARAMETER)));
    members.push(("variables".to_owned(), build_parameter("object", wording::VARIABLES_PARAMETER)));
    let r = Json::Object(members);
    assert(r@->Object_0 == properties()->Object_0);
    r
}

/// The JSON schema of the arguments of a call.
pub open spec fn argument_schema() -> JsonView {
    JsonView::Object(
        seq![
            ("type"@, JsonView::Text("object"@)),
            ("properties"@, properties()),
            ("required"@, JsonView::Array(seq![JsonView::Text("action"@)])),
        ],
    )
}

impl GraphJinTool {
    /// The name that an agent calls the tool by.
    pub fn name(&self) -> (r: &str)
        ensures
            r@ == "graphjin"@,
    {
        "graphjin"
    }

    /// What the tool is for.
    pub fn description(&self) -> (r: &str)
        ensures
            r@ == wording::DESCRIPTION@,
    {
        wording::DESCRIPTION
    }

    /// The JSON schema of the arguments of a call.
    pub fn parameters_schema(&self) -> (r: Json)
        ensures
            r@ == argument_schema(),
    {
        let mut required: Vec<Json> = Vec::new();
        required.push(text_value("action"));
        assert(crate::json::item_views(required@) == seq![JsonView::Text("action"@)]);
        let mut members: Vec<(String, Json)> = Vec::new();
        members.push(("type".to_owned(), text_value("object")));
        members.push(("properties".to_owned(), build_properties()));
        members.push(("required".to_owned(), Json::Array(required)));
        let r = Json::Object(members);
        assert(r@->Object_0 == argument_schema()->Object_0);
        r
    }

    /// What an agent needs to know to call the tool.
    pub fn tool_spec(&self) -> (r: ToolSpec)
        ensures
            r.name@ == "graphjin"@,
            r.description@ == wording::DESCRIPTION@,
            r.parameters@ == argument_schema(),
    {
        ToolSpec {
            name: self.name().to_owned(),
            description: self.description().to_owned(),
            parameters: self.parameters_schema(),
        }
    }
}

} // verus!
