//! What passes between the tool, its caller and the service.
use crate::json::Json;
use crate::json::JsonView;
use crate::text;
use vstd::prelude::*;

verus! {

broadcast use vstd::string::group_string_axioms;

/// How a call of the tool ended.
#[derive(Debug)]
pub struct ToolResult {
    pub success: bool,
    pub output: String,
    pub error: Option<String>,
}

/// What a `ToolResult` says.
pub struct ToolResultView {
    pub success: bool,
    pub output: Seq<char>,
    pub error: Option<Seq<char>>,
}

impl View for ToolResult {
    type V = ToolResultView;

    open spec fn view(&self) -> ToolResultView {
        ToolResultView {
            success: self.success,
            output: self.output@,
            error: match self.error {
                Some(error) => Some(error@),
                None => None,
            },
        }
    }
}

/// A call that did what it was asked.
pub open spec fn success(output: Seq<char>) -> ToolResultView {
    ToolResultView { success: true, output, error: None }
}

/// A call that was refused or did not work out.
pub open spec fn failure(error: Seq<char>) -> ToolResultView {
    ToolResultView { success: false, output: seq![], error: Some(error) }
}

impl ToolResult {
    /// A call that did what it was asked.
    pub fn succeeded(output: String) -> (r: ToolResult)
        ensures
            r@ == success(output@),
    {
        ToolResult { success: true, output, error: None }
    }

    /// A call that was refused or did not work out.
    pub fn failed(error: String) -> (r: ToolResult)
        ensures
            r@ == failure(error@),
    {
        ToolResult { success: false, output: String::new(), error: Some(error) }
    }
}

/// Why the arguments of a call cannot be used.
#[derive(Clone, Copy, Debug, PartialEq, Eq, Structural)]
pub enum ArgumentError {
    MissingAction,
    MissingTable,
    MissingQuery,
    MissingMutation,
    EmptyTable,
    EmptyGraphql,
}

impl ArgumentError {
    /// The sentence that tells a caller of the error.
    pub open spec fn sentence(self) -> Seq<char> {
        match self {
            ArgumentError::MissingAction => "Missing required parameter: action"@,
            ArgumentError::MissingTable => {
                "Missing required parameter: table (for describe_table)"@
            },
            ArgumentError::MissingQuery => "Missing required parameter: graphql (for query)"@,
            ArgumentError::MissingMutation => "Missing required parameter: graphql (for mutate)"@,
            ArgumentError::EmptyTable => "Parameter 'table' cannot be empty"@,
            ArgumentError::EmptyGraphql => "Parameter 'graphql' cannot be empty"@,
        }
    }

    /// The sentence that tells a caller of the error.
    pub fn message(&self) -> (r: String)
        ensures
            r@ == self.sentence(),
    {
        let sentence: &str = match self {
            ArgumentError::MissingAction => "Missing required parameter: action",
            ArgumentError::MissingTable => "Missing required parameter: table (for describe_table)",
            ArgumentError::MissingQuery => "Missing required parameter: graphql (for query)",
            ArgumentError::MissingMutation => "Missing required parameter: graphql (for mutate)",
            ArgumentError::EmptyTable => "Parameter 'table' cannot be empty",
            ArgumentError::EmptyGraphql => "Parameter 'graphql' cannot be empty",
        };
        sentence.to_owned()
    }
}

/// A JSON document to post, and how long to wait for it.
#[derive(Debug)]
pub struct PostRequest {
    pub url: String,
    pub headers: Vec<(String, String)>,
    pub payload: Json,
    pub timeout_secs: u64,
    pub connect_timeout_secs: u64,
}

/// What a `PostRequest` asks for.
pub struct PostRequestView {
    pub url: Seq<char>,
    pub headers: Seq<(Seq<char>, Seq<char>)>,
    pub payload: JsonView,
    pub timeout_secs: u64,
    pub connect_timeout_secs: u64,
}

/// What a list of headers says.
pub open spec fn header_views(headers: Seq<(String, String)>) -> Seq<(Seq<char>, Seq<char>)> {
    headers.map_values(|h: (String, String)| (h.0@, h.1@))
}

impl View for PostRequest {
    type V = PostRequestView;

    open spec fn view(&self) -> PostRequestView {
        PostRequestView {
            url: self.url@,
            headers: header_views(self.headers@),
            payload: self.payload@,
            timeout_secs: self.timeout_secs,
            connect_timeout_secs: self.connect_timeout_secs,
        }
    }
}

/// The headers that every post carries.
pub open spec fn json_headers() -> Seq<(Seq<char>, Seq<char>)> {
    seq![
        ("Content-Type"@, "application/json"@),
        ("Accept"@, "application/json"@),
        ("User-Agent"@, "ZeroClaw/1.0"@),
    ]
}

/// The headers that every post carries.
pub fn headers() -> (r: Vec<(String, String)>)
    ensures
        header_views(r@) == json_headers(),
{
    let mut r: Vec<(String, String)> = Vec::new();
    r.push(("Content-Type".to_owned(), "application/json".to_owned()));
    r.push(("Accept".to_owned(), "application/json".to_owned()));
    r.push(("User-Agent".to_owned(), "ZeroClaw/1.0".to_owned()));
    assert(header_views(r@) == json_headers());
    r
}

/// What the variables of a document stand for.
pub open spec fn variables_view(variables: Option<&Json>) -> Option<JsonView> {
    match variables {
        Some(v) => Some(v@),
        None => None,
    }
}

/// The document that carries `query`, with its variables where there are any.
pub open spec fn payload(query: Seq<char>, variables: Option<JsonView>) -> JsonView {
    let asked = seq![("query"@, JsonView::Text(query))];
    match variables {
        Some(JsonView::Null) => JsonView::Object(asked),
        Some(v) => JsonView::Object(asked.push(("variables"@, v))),
        None => JsonView::Object(asked),
    }
}

/// The document that carries `query`, with its variables where there are any.
pub fn build_payload(query: &str, variables: Option<&Json>) -> (r: Json)
    ensures
        r@ == payload(query@, variables_view(variables)),
{
    broadcast use crate::json::lemma_object_view;

    let mut members: Vec<(String, Json)> = Vec::new();
    members.push(("query".to_owned(), Json::Text(query.to_owned())));
    let ghost asked = seq![("query"@, JsonView::Text(query@))];
    assert(crate::json::member_views(members@) == asked);
    if let Some(v) = variables {
        if !v.is_null() {
            members.push(("variables".to_owned(), v.clone()));
            assert(crate::json::member_views(members@) == asked.push(("variables"@, v@)));
        }
    }
    Json::Object(members)
}

/// What became of a post.
#[derive(Debug)]
pub enum PostOutcome {
    /// The service answered, with this status and this body.
    Response { status: u16, body: String },
    /// No answer could be had, for the reason given.
    Failed(String),
}

/// What a `PostOutcome` says.
pub enum PostOutcomeView {
    Response { status: u16, body: Seq<char> },
    Failed(Seq<char>),
}

impl View for PostOutcome {
    type V = PostOutcomeView;

    open spec fn view(&self) -> PostOutcomeView {
        match self {
            PostOutcome::Response { status, body } => PostOutcomeView::Response {
                status: *status,
                body: body@,
            },
            PostOutcome::Failed(reason) => PostOutcomeView::Failed(reason@),
        }
    }
}

/// What was received: the body of a successful answer, or what went wrong.
pub open spec fn received(outcome: PostOutcomeView) -> Result<Seq<char>, Seq<char>> {
    match outcome {
        PostOutcomeView::Response { status, body } => if 200 <= status < 300 {
            Ok(body)
        } else {
            Err("GraphJin returned HTTP "@ + text::decimal(status as nat) + ": "@ + body)
        },
        PostOutcomeView::Failed(reason) => Err(reason),
    }
}

/// What was received: the body of a successful answer, or what went wrong.
pub fn receive(outcome: PostOutcome) -> (r: Result<String, String>)
    ensures
        match r {
            Ok(body) => received(outcome@) == Ok::<Seq<char>, Seq<char>>(body@),
            Err(reason) => received(outcome@) == Err::<Seq<char>, Seq<char>>(reason@),
        },
{
    match outcome {
        PostOutcome::Response { status, body } => {
            if 200 <= status && status < 300 {
                Ok(body)
            } else {
                let mut reason: String = "GraphJin returned HTTP ".to_owned();
                reason.append(text::decimal_text(status as usize).as_str());
                reason.append(": ");
                reason.append(body.as_str());
                Err(reason)
            }
        },
        PostOutcome::Failed(reason) => Err(reason),
    }
}

} // verus!
