//! What a call asks of the service, in terms of its arguments and the tool's settings.
use crate::exchange;
use crate::exchange::ArgumentError;
use crate::exchange::PostOutcome;
use crate::exchange::PostOutcomeView;
use crate::exchange::PostRequest;
use crate::exchange::PostRequestView;
use crate::exchange::ToolResult;
use crate::exchange::ToolResultView;
use crate::json::Json;
use crate::json::JsonView;
use crate::laws_text;
use crate::schema;
use crate::security::AutonomyLevel;
use crate::security::SecurityPolicy;
use crate::text;
use crate::tool;
use crate::tool::MutationView;
use crate::tool::Pending;
use crate::tool::PendingView;
use crate::tool::Step;
use crate::tool::StepView;
use crate::tool::ToolView;
use vstd::prelude::*;

verus! {

broadcast use vstd::string::group_string_axioms;

/// A tool keeps its settings as they were given, but for slashes at the end of its
/// address, all of which go, and a wait of no time, which becomes a second.
pub proof fn law_settings(
    security: SecurityPolicy,
    api_url: Seq<char>,
    timeout_secs: u64,
    max_response_size: usize,
    allow_mutations: bool,
)
    ensures
        ({
            let made = tool::configured(
                security,
                api_url,
                timeout_secs,
                max_response_size,
                allow_mutations,
            );
            &&& made.security == security
            &&& made.max_response_size == max_response_size
            &&& made.allow_mutations == allow_mutations
            &&& timeout_secs > 0 ==> made.timeout_secs == timeout_secs
            &&& timeout_secs == 0 ==> made.timeout_secs == 1
            &&& made.api_url.len() <= api_url.len()
            &&& made.api_url == api_url.take(made.api_url.len() as int)
            &&& forall|i: int| made.api_url.len() <= i < api_url.len() ==> #[trigger] api_url[i] == '/'
            &&& made.api_url.len() > 0 ==> made.api_url.last() != '/'
        }),
{
    crate::laws::law_trimming(api_url, '/');
}

/// The request is a post of this query with these variables, to the tool's endpoint: the
/// payload has the query in full and, where they are given and not `null`, the variables,
/// and nothing else.
pub open spec fn asks(
    request: PostRequestView,
    tool: ToolView,
    query: Seq<char>,
    variables: Option<JsonView>,
) -> bool {
    let path = "/api/v1/graphql"@;
    &&& request.payload is Object
    &&& request.payload->Object_0.len() == if variables is None || variables->0 is Null {
        1nat
    } else {
        2nat
    }
    &&& request.payload->Object_0[0] == ("query"@, JsonView::Text(query))
    &&& variables is Some && !(variables->0 is Null) ==> request.payload->Object_0[1] == (
        "variables"@,
        variables->0,
    )
    &&& (exists|at: int|
        0 <= at <= tool.api_url.len() - path.len() && #[trigger] tool.api_url.subrange(
            at,
            at + path.len(),
        ) == path) ==> request.url == tool.api_url
    &&& !(exists|at: int|
        0 <= at <= tool.api_url.len() - path.len() && #[trigger] tool.api_url.subrange(
            at,
            at + path.len(),
        ) == path) ==> request.url == tool.api_url + path
    &&& request.headers == seq![
        ("Content-Type"@, "application/json"@),
        ("Accept"@, "application/json"@),
        ("User-Agent"@, "ZeroClaw/1.0"@),
    ]
    &&& tool.timeout_secs > 0 ==> request.timeout_secs == tool.timeout_secs
    &&& tool.timeout_secs == 0 ==> request.timeout_secs == 30
    &&& request.connect_timeout_secs == 10
}

/// What is posted for a query and its variables asks for that query with those variables,
/// and what the tool says of its endpoint, its wait, its headers and its payload is what it
/// posts.
pub proof fn law_request(tool: ToolView, query: Seq<char>, variables: Option<JsonView>)
    ensures
        asks(tool.post(query, variables), tool, query, variables),
        tool.endpoint() == tool.post(query, variables).url,
        tool.wait_secs() == tool.post(query, variables).timeout_secs,
        exchange::json_headers() == tool.post(query, variables).headers,
        exchange::payload(query, variables) == tool.post(query, variables).payload,
{
    laws_text::law_contains(tool.api_url, "/api/v1/graphql"@);
}

/// The steps that each action starts with, for whatever table, document and variables.
pub proof fn law_first_steps(
    tool: ToolView,
    table: Seq<char>,
    graphql: Seq<char>,
    variables: Option<JsonView>,
)
    ensures
        tool.list_step() is Post,
        tool.list_step()->Post_1 == PendingView::ListTables,
        asks(
            tool.list_step()->Post_0,
            tool,
            "
query IntrospectionQuery {
  __schema {
    queryType {
      fields {
        name
        description
        args {
          name
          type { name kind ofType { name kind } }
        }
      }
    }
  }
}
"@,
            None,
        ),
        tool.describe_step(table) is Post,
        tool.describe_step(table)->Post_1 == PendingView::DescribeTable(table),
        asks(
            tool.describe_step(table)->Post_0,
            tool,
            "
query IntrospectionQuery {
  __type(name: \""@ + table
                + "\") {
    name
    kind
    description
    fields {
      name
      description
      type {
        name
        kind
        ofType { name kind }
      }
    }
  }
}
"@,
            None,
        ),
        tool.query_step(graphql, variables) is Finished <==> crate::document::holds_mutation(
            graphql,
        ),
        crate::document::holds_mutation(graphql) ==> tool.query_step(graphql, variables)
            == StepView::Finished(
            ToolResultView {
                success: false,
                output: Seq::empty(),
                error: Some(
                    "Action blocked: only the mutate action runs mutations, and only where \
                    [graphjin].allow_mutations = true in config.toml."@,
                ),
            },
        ),
        !crate::document::holds_mutation(graphql) ==> {
            &&& tool.query_step(graphql, variables) is Post
            &&& tool.query_step(graphql, variables)->Post_1 == PendingView::Query
            &&& asks(tool.query_step(graphql, variables)->Post_0, tool, graphql, variables)
        },
        !tool.allow_mutations ==> tool.mutate_step(graphql, variables) == StepView::Finished(
            ToolResultView {
                success: false,
                output: Seq::empty(),
                error: Some(
                    "Mutations are disabled. Set [graphjin].allow_mutations = true in config.toml \
                    to enable insert/update/delete operations."@,
                ),
            },
        ),
        tool.allow_mutations && tool.security.autonomy == AutonomyLevel::ReadOnly
            ==> tool.mutate_step(graphql, variables) == StepView::Finished(
            ToolResultView {
                success: false,
                output: Seq::empty(),
                error: Some("Action blocked: autonomy is read-only"@),
            },
        ),
        tool.allow_mutations && tool.security.autonomy != AutonomyLevel::ReadOnly
            ==> tool.mutate_step(graphql, variables) == StepView::RecordAction(
            MutationView { graphql, variables },
        ),
{
    law_request(tool, crate::wording::LIST_QUERY@, None);
    law_request(tool, tool::describe_query(table), None);
    law_request(tool, graphql, variables);
}

/// Whatever its arguments, a call without the name of an action is turned away.
pub proof fn law_call_without_action(tool: ToolView, args: JsonView)
    requires
        args.text_of("action"@) is None,
    ensures
        tool.first_step(args) == Err::<StepView, ArgumentError>(ArgumentError::MissingAction),
{
}

/// A call that lists the tables asks for the fields of the query root, whatever else stands
/// in its arguments.
pub proof fn law_call_to_list(tool: ToolView, args: JsonView)
    requires
        args.text_of("action"@) == Some("list_tables"@),
    ensures
        tool.first_step(args) is Ok,
        tool.first_step(args)->Ok_0 is Post,
        tool.first_step(args)->Ok_0->Post_1 == PendingView::ListTables,
        asks(
            tool.first_step(args)->Ok_0->Post_0,
            tool,
            "
query IntrospectionQuery {
  __schema {
    queryType {
      fields {
        name
        description
        args {
          name
          type { name kind ofType { name kind } }
        }
      }
    }
  }
}
"@,
            None,
        ),
{
    law_request(tool, crate::wording::LIST_QUERY@, None);
}

/// A call that describes a table asks for the type of that name, which stands in the query
/// as it was given. Without a name, or with a blank one, it is turned away.
pub proof fn law_call_to_describe(tool: ToolView, args: JsonView)
    requires
        args.text_of("action"@) == Some("describe_table"@),
    ensures
        match args.text_of("table"@) {
            None => tool.first_step(args) == Err::<StepView, ArgumentError>(
                ArgumentError::MissingTable,
            ),
            Some(table) => {
                &&& (forall|i: int| 0 <= i < table.len() ==> text::is_white_space(#[trigger] table[i]))
                    ==> tool.first_step(args) == Err::<StepView, ArgumentError>(
                    ArgumentError::EmptyTable,
                )
                &&& (exists|i: int| 0 <= i < table.len() && !text::is_white_space(#[trigger] table[i]))
                    ==> {
                    &&& tool.first_step(args) is Ok
                    &&& tool.first_step(args)->Ok_0 is Post
                    &&& tool.first_step(args)->Ok_0->Post_1 == PendingView::DescribeTable(table)
                    &&& asks(
                        tool.first_step(args)->Ok_0->Post_0,
                        tool,
                        "
query IntrospectionQuery {
  __type(name: \""@ + table
                            + "\") {
    name
    kind
    description
    fields {
      name
      description
      type {
        name
        kind
        ofType { name kind }
      }
    }
  }
}
"@,
                        None,
                    )
                }
            },
        },
{
    crate::laws::lemma_actions_differ();
    if let Some(table) = args.text_of("table"@) {
        law_request(tool, tool::describe_query(table), None);
    }
}

/// A call that runs a query asks for that query, in full, with the variables of the call.
/// It is refused where the query holds a mutation. Without a query, or with a blank one, it
/// is turned away.
pub proof fn law_call_to_query(tool: ToolView, args: JsonView)
    requires
        args.text_of("action"@) == Some("query"@),
    ensures
        match args.text_of("graphql"@) {
            None => tool.first_step(args) == Err::<StepView, ArgumentError>(
                ArgumentError::MissingQuery,
            ),
            Some(graphql) => {
                &&& (forall|i: int|
                    0 <= i < graphql.len() ==> text::is_white_space(#[trigger] graphql[i]))
                    ==> tool.first_step(args) == Err::<StepView, ArgumentError>(
                    ArgumentError::EmptyGraphql,
                )
                &&& (exists|i: int|
                    0 <= i < graphql.len() && !text::is_white_space(#[trigger] graphql[i])) ==> {
                    &&& tool.first_step(args) is Ok
                    &&& crate::document::holds_mutation(graphql) ==> tool.first_step(args)->Ok_0
                        == StepView::Finished(
                        ToolResultView {
                            success: false,
                            output: Seq::empty(),
                            error: Some(
                                "Action blocked: only the mutate action runs mutations, and only where \
                                [graphjin].allow_mutations = true in config.toml."@,
                            ),
                        },
                    )
                    &&& !crate::document::holds_mutation(graphql) ==> {
                        &&& tool.first_step(args)->Ok_0 is Post
                        &&& tool.first_step(args)->Ok_0->Post_1 == PendingView::Query
                        &&& asks(
                            tool.first_step(args)->Ok_0->Post_0,
                            tool,
                            graphql,
                            args.get("variables"@),
                        )
                    }
                }
            },
        },
{
    crate::laws::lemma_actions_differ();
    if let Some(graphql) = args.text_of("graphql"@) {
        law_request(tool, graphql, args.get("variables"@));
    }
}

/// A call that runs a mutation is refused where the tool is set up without them, or the
/// agent may only look; else it keeps the mutation, in full, with the variables of the call.
/// Without a mutation, or with a blank one, it is turned away.
pub proof fn law_call_to_mutate(tool: ToolView, args: JsonView)
    requires
        args.text_of("action"@) == Some("mutate"@),
    ensures
        match args.text_of("graphql"@) {
            None => tool.first_step(args) == Err::<StepView, ArgumentError>(
                ArgumentError::MissingMutation,
            ),
            Some(graphql) => {
                &&& (forall|i: int|
                    0 <= i < graphql.len() ==> text::is_white_space(#[trigger] graphql[i]))
                    ==> tool.first_step(args) == Err::<StepView, ArgumentError>(
                    ArgumentError::EmptyGraphql,
                )
                &&& (exists|i: int|
                    0 <= i < graphql.len() && !text::is_white_space(#[trigger] graphql[i])) ==> {
                    &&& tool.first_step(args) is Ok
                    &&& !tool.allow_mutations ==> tool.first_step(args)->Ok_0 == StepView::Finished(
                        ToolResultView {
                            success: false,
                            output: Seq::empty(),
                            error: Some(
                                "Mutations are disabled. Set [graphjin].allow_mutations = true in config.toml \
                                to enable insert/update/delete operations."@,
                            ),
                        },
                    )
                    &&& tool.allow_mutations && tool.security.autonomy == AutonomyLevel::ReadOnly
                        ==> tool.first_step(args)->Ok_0 == StepView::Finished(
                        ToolResultView {
                            success: false,
                            output: Seq::empty(),
                            error: Some("Action blocked: autonomy is read-only"@),
                        },
                    )
                    &&& tool.allow_mutations && tool.security.autonomy != AutonomyLevel::ReadOnly
                        ==> tool.first_step(args)->Ok_0 == StepView::RecordAction(
                        MutationView { graphql, variables: args.get("variables"@) },
                    )
                }
            },
        },
{
    crate::laws::lemma_actions_differ();
}

/// A mutation that was recorded is posted, in full and with its variables, where the tool
/// allows mutations, the agent may act and has not acted more often than the limit says in
/// the hour; else it is refused, for the first of these that fails.
pub proof fn law_recorded_call(tool: ToolView, mutation: MutationView, recorded: int)
    ensures
        ({
            let step = tool.recorded_step(mutation, recorded);
            let allowed = tool.allow_mutations;
            let acting = tool.security.autonomy != AutonomyLevel::ReadOnly;
            let in_time = recorded <= tool.security.max_actions_per_hour as int;
            &&& allowed && acting && in_time ==> {
                &&& step is Post
                &&& step->Post_1 == PendingView::Mutate
                &&& asks(step->Post_0, tool, mutation.graphql, mutation.variables)
            }
            &&& !(allowed && acting && in_time) ==> {
                &&& step is Finished
                &&& !step->Finished_0.success
                &&& step->Finished_0.output.len() == 0
                &&& step->Finished_0.error == Some(
                    if !allowed {
                        "Mutations are disabled. Set [graphjin].allow_mutations = true in config.toml \
                        to enable insert/update/delete operations."@
                    } else if !acting {
                        "Action blocked: autonomy is read-only"@
                    } else {
                        "Action blocked: rate limit exceeded"@
                    },
                )
            }
        }),
{
    law_request(tool, mutation.graphql, mutation.variables);
}

/// A call for any other action ends at once, and its error names that action in full.
pub proof fn law_call_to_unknown(tool: ToolView, args: JsonView, action: Seq<char>)
    requires
        args.text_of("action"@) == Some(action),
        action != "list_tables"@,
        action != "describe_table"@,
        action != "query"@,
        action != "mutate"@,
    ensures
        tool.first_step(args) == Ok::<StepView, ArgumentError>(
            StepView::Finished(
                ToolResultView {
                    success: false,
                    output: Seq::empty(),
                    error: Some(
                        "Unknown action: '"@ + action
                            + "'. Valid actions: list_tables, describe_table, query, mutate"@,
                    ),
                },
            ),
        ),
{
}

/// An agent may act unless it may only look, and as often as its limit says.
pub proof fn law_policy(policy: SecurityPolicy, recorded: int)
    ensures
        policy.may_act() <==> policy.autonomy != AutonomyLevel::ReadOnly,
        policy.rate_allows(recorded) <==> recorded <= policy.max_actions_per_hour as int,
{
}

/// The sentence for each argument error.
pub proof fn law_sentences()
    ensures
        ArgumentError::MissingAction.sentence() == "Missing required parameter: action"@,
        ArgumentError::MissingTable.sentence()
            == "Missing required parameter: table (for describe_table)"@,
        ArgumentError::MissingQuery.sentence()
            == "Missing required parameter: graphql (for query)"@,
        ArgumentError::MissingMutation.sentence()
            == "Missing required parameter: graphql (for mutate)"@,
        ArgumentError::EmptyTable.sentence() == "Parameter 'table' cannot be empty"@,
        ArgumentError::EmptyGraphql.sentence() == "Parameter 'graphql' cannot be empty"@,
{
}

/// What is passed around stands for its own parts, each in full.
pub proof fn law_passed_around(
    result: ToolResult,
    request: PostRequest,
    outcome: PostOutcome,
    pending: Pending,
    step: Step,
    variables: Option<&Json>,
)
    ensures
        result@.success == result.success,
        result@.output == result.output@,
        result@.error is Some <==> result.error is Some,
        result.error is Some ==> result@.error == Some(result.error->0@),
        request@.url == request.url@,
        request@.payload == request.payload@,
        request@.timeout_secs == request.timeout_secs,
        request@.connect_timeout_secs == request.connect_timeout_secs,
        request@.headers.len() == request.headers@.len(),
        forall|i: int|
            0 <= i < request.headers@.len() ==> #[trigger] request@.headers[i] == (
                request.headers@[i].0@,
                request.headers@[i].1@,
            ),
        match outcome {
            PostOutcome::Response { status, body } => outcome@ == (PostOutcomeView::Response {
                status,
                body: body@,
            }),
            PostOutcome::Failed(reason) => outcome@ == PostOutcomeView::Failed(reason@),
        },
        match pending {
            Pending::ListTables => pending@ == PendingView::ListTables,
            Pending::DescribeTable(table) => pending@ == PendingView::DescribeTable(table@),
            Pending::Query => pending@ == PendingView::Query,
            Pending::Mutate => pending@ == PendingView::Mutate,
        },
        match step {
            Step::Finished(r) => step@ == StepView::Finished(r@),
            Step::RecordAction(m) => step@ == StepView::RecordAction(m@),
            Step::Post(r, p) => step@ == StepView::Post(r@, p@),
        },
        exchange::variables_view(variables) is Some <==> variables is Some,
        variables is Some ==> exchange::variables_view(variables) == Some(variables->0@),
{
}

/// The schema of the arguments: an object with four properties, of which only the action is
/// required.
pub proof fn law_schema_texts()
    ensures
        schema::argument_schema() == JsonView::Object(
            seq![
                ("type"@, JsonView::Text("object"@)),
                (
                    "properties"@,
                    JsonView::Object(
                        seq![
                            (
                                "action"@,
                                JsonView::Object(
                                    seq![
                                        ("type"@, JsonView::Text("string"@)),
                                        (
                                            "enum"@,
                                            JsonView::Array(
                                                seq![
                                                    JsonView::Text("list_tables"@),
                                                    JsonView::Text("describe_table"@),
                                                    JsonView::Text("query"@),
                                                    JsonView::Text("mutate"@),
                                                ],
                                            ),
                                        ),
                                        (
                                            "description"@,
                                            JsonView::Text(
                                                "Action to perform. Use list_tables/describe_table for schema discovery before writing queries."@,
                                            ),
                                        ),
                                    ],
                                ),
                            ),
                            (
                                "table"@,
                                JsonView::Object(
                                    seq![
                                        ("type"@, JsonView::Text("string"@)),
                                        (
                                            "description"@,
                                            JsonView::Text(
                                                "Table name to describe (required for describe_table action)"@,
                                            ),
                                        ),
                                    ],
                                ),
                            ),
                            (
                                "graphql"@,
                                JsonView::Object(
                                    seq![
                                        ("type"@, JsonView::Text("string"@)),
                                        (
                                            "description"@,
                                            JsonView::Text(
                                                "GraphQL query or mutation string (required for query/mutate actions)"@,
                                            ),
                                        ),
                                    ],
                                ),
                            ),
                            (
                                "variables"@,
                                JsonView::Object(
                                    seq![
                                        ("type"@, JsonView::Text("object"@)),
                                        (
                                            "description"@,
                                            JsonView::Text(
                                                "Optional variables map for the GraphQL query (e.g. {\"id\": 42})"@,
                                            ),
                                        ),
                                    ],
                                ),
                            ),
                        ],
                    ),
                ),
                ("required"@, JsonView::Array(seq![JsonView::Text("action"@)])),
            ],
        ),
{
}

/// What the tool tells an agent of itself.
pub proof fn law_description()
    ensures
        crate::wording::DESCRIPTION@ == "Query databases via GraphJin — a service that converts GraphQL to optimised SQL. \
    Use `list_tables` to discover available tables, `describe_table` to see columns \
    and relationships, `query` to read data, and `mutate` to write data (if enabled). \
    \n\nGraphQL query syntax reference:\
    \n- Basic query: `{ products(limit: 5) { id name price } }`\
    \n- Filter:      `{ products(where: { price: { gt: 10 } }) { id name } }`\
    \n- Operators:   eq, neq, gt, gte, lt, lte, in, nin, iregex, is_null\
    \n- Logic:       and, or, not — e.g. `{ p(where: { and: [ {price:{gt:5}}, {price:{lt:100}} ] }) { id } }`\
    \n- Order:       `{ products(order_by: { price: desc }) { id } }`\
    \n- Pagination:  `{ products(limit: 10, offset: 20) { id } }` or cursor-based with `first`/`after`\
    \n- Relations:   `{ users { email products { name price } } }` (auto-joined via foreign keys)\
    \n- Aggregates:  `{ products { count_id sum_price avg_price max_price } }`\
    \n- Full-text:   `{ products(search: \"keyword\") { id name } }`\
    \n- Mutations:   `mutation { products(insert: { name: \"X\", price: 9.99 }) { id } }`"@,
{
}

} // verus!
