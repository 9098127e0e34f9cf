//! What the operations hand back, in terms of what they are given. Each law speaks of any
//! result that the operation may return on these arguments.
use crate::document;
use crate::exchange;
use crate::exchange::ArgumentError;
use crate::exchange::PostOutcome;
use crate::exchange::PostRequest;
use crate::exchange::ToolResult;
use crate::exchange::ToolResultView;
use crate::json::Json;
use crate::json::JsonView;
use crate::laws_calls;
use crate::laws_documents;
use crate::laws_replies;
use crate::laws_tables;
use crate::laws_text;
use crate::security::AutonomyLevel;
use crate::security::SecurityPolicy;
use crate::tables;
use crate::text;
use crate::tool::GraphJinTool;
use crate::tool::Mutation;
use crate::tool::MutationView;
use crate::tool::Pending;
use crate::tool::PendingView;
use crate::tool::Step;
use crate::tool::StepView;
use std::sync::Arc;
use vstd::prelude::*;

verus! {

broadcast use vstd::string::group_string_axioms;

/// A new tool has the settings it was given, but for slashes at the end of its address, and
/// waits for at least a second.
pub proof fn law_new(
    security: Arc<SecurityPolicy>,
    api_url: String,
    timeout_secs: u64,
    max_response_size: usize,
    allow_mutations: bool,
    made: GraphJinTool,
)
    requires
        call_ensures(
            GraphJinTool::new,
            (security, api_url, timeout_secs, max_response_size, allow_mutations),
            made,
        ),
    ensures
        made@.security == *security,
        made@.max_response_size == max_response_size,
        made@.allow_mutations == allow_mutations,
        timeout_secs > 0 ==> made@.timeout_secs == timeout_secs,
        timeout_secs == 0 ==> made@.timeout_secs == 1,
        made@.api_url.len() <= api_url@.len(),
        made@.api_url == api_url@.take(made@.api_url.len() as int),
        forall|i: int| made@.api_url.len() <= i < api_url@.len() ==> #[trigger] api_url@[i] == '/',
        made@.api_url.len() > 0 ==> made@.api_url.last() != '/',
{
    laws_calls::law_settings(
        *security,
        api_url@,
        timeout_secs,
        max_response_size,
        allow_mutations,
    );
}

/// The tool is called `graphjin`, and gives its address as it keeps it.
pub proof fn law_introduces_itself(tool: &GraphJinTool, name: &str, description: &str, url: &str)
    requires
        call_ensures(GraphJinTool::name, (tool,), name),
        call_ensures(GraphJinTool::description, (tool,), description),
        call_ensures(GraphJinTool::api_url, (tool,), url),
    ensures
        name@ == "graphjin"@,
        description@ == crate::wording::DESCRIPTION@,
        url@ == tool@.api_url,
{
}

/// What an agent is told of the tool is its name, its purpose and the schema of its
/// arguments.
pub proof fn law_tells_how_it_is_called(
    tool: &GraphJinTool,
    schema: Json,
    told: crate::schema::ToolSpec,
)
    requires
        call_ensures(GraphJinTool::parameters_schema, (tool,), schema),
        call_ensures(GraphJinTool::tool_spec, (tool,), told),
    ensures
        schema@ == crate::schema::argument_schema(),
        told.name@ == "graphjin"@,
        told.description@ == crate::wording::DESCRIPTION@,
        told.parameters@ == schema@,
{
}

/// A text within the limit is kept whole; of a longer one the first characters are kept, as
/// many as the limit says, and the notice follows.
pub proof fn law_truncate(tool: &GraphJinTool, full: String, cut: String)
    requires
        call_ensures(GraphJinTool::truncate, (tool, full), cut),
    ensures
        ({
            let size = vstd::utf8::encode_utf8(full@).len();
            let limit = tool@.max_response_size as int;
            let notice = "\n\n... [Response truncated due to size limit] ..."@;
            &&& size <= limit ==> cut@ == full@
            &&& size > limit && full@.len() <= limit ==> cut@ == full@ + notice
            &&& size > limit && full@.len() > limit ==> cut@ == full@.take(limit) + notice
        }),
{
    laws_replies::law_cut(tool@, full@);
    if full@.len() <= tool@.max_response_size {
        assert(full@.take(full@.len() as int) == full@);
    }
}

/// The post for a query carries it in full, with its variables.
pub proof fn law_post(
    tool: &GraphJinTool,
    query: &str,
    variables: Option<&Json>,
    request: PostRequest,
    url: String,
    wait: u64,
)
    requires
        call_ensures(GraphJinTool::post_graphql, (tool, query, variables), request),
        call_ensures(GraphJinTool::graphql_url, (tool,), url),
        call_ensures(GraphJinTool::client_timeout_secs, (tool,), wait),
    ensures
        variables is None ==> laws_calls::asks(request@, tool@, query@, None),
        variables is Some ==> laws_calls::asks(request@, tool@, query@, Some(variables->0@)),
        url@ == request@.url,
        wait == request.timeout_secs,
{
    laws_calls::law_request(tool@, query@, exchange::variables_view(variables));
}

/// The payload for a query is an object with the query in full and, where they are given and
/// not `null`, the variables.
pub proof fn law_build_payload(query: &str, variables: Option<&Json>, payload: Json)
    requires
        call_ensures(exchange::build_payload, (query, variables), payload),
    ensures
        payload@ is Object,
        variables is None || variables->0@ is Null ==> payload@->Object_0 == seq![
            ("query"@, JsonView::Text(query@)),
        ],
        variables is Some && !(variables->0@ is Null) ==> payload@->Object_0 == seq![
            ("query"@, JsonView::Text(query@)),
            ("variables"@, variables->0@),
        ],
{
}

/// Describing a table posts its name as it is; a query is posted in full, with its
/// variables, unless it holds a mutation.
pub proof fn law_actions(
    tool: &GraphJinTool,
    table: &str,
    graphql: &str,
    variables: Option<&Json>,
    listing: Step,
    describing: Step,
    asking: Step,
    mutating: Step,
)
    requires
        call_ensures(GraphJinTool::action_list_tables, (tool,), listing),
        call_ensures(GraphJinTool::action_describe_table, (tool, table), describing),
        call_ensures(GraphJinTool::action_query, (tool, graphql, variables), asking),
        call_ensures(GraphJinTool::action_mutate, (tool, graphql, variables), mutating),
    ensures
        listing@ is Post,
        listing@->Post_1 == PendingView::ListTables,
        laws_calls::asks(listing@->Post_0, tool@, crate::wording::LIST_QUERY@, None),
        describing@ is Post,
        describing@->Post_1 == PendingView::DescribeTable(table@),
        laws_calls::asks(
            describing@->Post_0,
            tool@,
            crate::wording::DESCRIBE_HEAD@ + table@ + crate::wording::DESCRIBE_TAIL@,
            None,
        ),
        document::holds_mutation(graphql@) ==> asking@ is Finished
            && !asking@->Finished_0.success,
        !document::holds_mutation(graphql@) ==> {
            &&& asking@ is Post
            &&& asking@->Post_1 == PendingView::Query
            &&& variables is None ==> laws_calls::asks(asking@->Post_0, tool@, graphql@, None)
            &&& variables is Some ==> laws_calls::asks(
                asking@->Post_0,
                tool@,
                graphql@,
                Some(variables->0@),
            )
        },
        tool@.allow_mutations && tool@.security.autonomy != AutonomyLevel::ReadOnly ==> {
            &&& mutating@ is RecordAction
            &&& mutating@->RecordAction_0.graphql == graphql@
            &&& variables is None ==> mutating@->RecordAction_0.variables is None
            &&& variables is Some ==> mutating@->RecordAction_0.variables == Some(variables->0@)
        },
        !(tool@.allow_mutations && tool@.security.autonomy != AutonomyLevel::ReadOnly)
            ==> mutating@ is Finished && !mutating@->Finished_0.success,
{
    laws_calls::law_first_steps(
        tool@,
        table@,
        graphql@,
        exchange::variables_view(variables),
    );
}

/// A recorded mutation is posted in full, with its variables, where the tool allows
/// mutations, the agent may act and is within its limit; else it is refused.
pub proof fn law_action_recorded(
    tool: &GraphJinTool,
    mutation: &Mutation,
    recorded: u64,
    step: Step,
)
    requires
        call_ensures(GraphJinTool::action_recorded, (tool, mutation, recorded), step),
    ensures
        ({
            let allowed = tool@.allow_mutations && tool@.security.autonomy
                != AutonomyLevel::ReadOnly && recorded <= tool@.security.max_actions_per_hour;
            &&& allowed ==> {
                &&& step@ is Post
                &&& step@->Post_1 == PendingView::Mutate
                &&& laws_calls::asks(
                    step@->Post_0,
                    tool@,
                    mutation@.graphql,
                    mutation@.variables,
                )
            }
            &&& !allowed ==> step@ is Finished && !step@->Finished_0.success
        }),
{
    laws_calls::law_recorded_call(tool@, mutation@, recorded as int);
}

/// A call with a query that is not blank and holds no mutation posts that query in full,
/// with the variables of the call.
pub proof fn law_execute_query(
    tool: &GraphJinTool,
    args: &Json,
    graphql: Seq<char>,
    r: Result<Step, ArgumentError>,
)
    requires
        call_ensures(GraphJinTool::execute, (tool, args), r),
        args@.text_of("action"@) == Some("query"@),
        args@.text_of("graphql"@) == Some(graphql),
        exists|i: int| 0 <= i < graphql.len() && !text::is_white_space(#[trigger] graphql[i]),
    ensures
        r is Ok,
        document::holds_mutation(graphql) ==> r->Ok_0@ is Finished && !r->Ok_0@->Finished_0.success,
        !document::holds_mutation(graphql) ==> {
            &&& r->Ok_0@ is Post
            &&& r->Ok_0@->Post_1 == PendingView::Query
            &&& laws_calls::asks(r->Ok_0@->Post_0, tool@, graphql, args@.get("variables"@))
        },
{
    laws_calls::law_call_to_query(tool@, args@);
}

/// A call with a mutation that is not blank, where mutations are allowed and the agent may
/// act, keeps that mutation in full, with the variables of the call.
pub proof fn law_execute_mutation(
    tool: &GraphJinTool,
    args: &Json,
    graphql: Seq<char>,
    r: Result<Step, ArgumentError>,
)
    requires
        call_ensures(GraphJinTool::execute, (tool, args), r),
        args@.text_of("action"@) == Some("mutate"@),
        args@.text_of("graphql"@) == Some(graphql),
        exists|i: int| 0 <= i < graphql.len() && !text::is_white_space(#[trigger] graphql[i]),
    ensures
        r is Ok,
        tool@.allow_mutations && tool@.security.autonomy != AutonomyLevel::ReadOnly ==> r->Ok_0@
            == StepView::RecordAction(
            MutationView { graphql, variables: args@.get("variables"@) },
        ),
        !(tool@.allow_mutations && tool@.security.autonomy != AutonomyLevel::ReadOnly)
            ==> r->Ok_0@ is Finished && !r->Ok_0@->Finished_0.success,
{
    laws_calls::law_call_to_mutate(tool@, args@);
}

/// A call that looks at the schema posts the query for it: for the list of tables at once,
/// and for a table where its name is not blank.
pub proof fn law_execute_looking(
    tool: &GraphJinTool,
    args: &Json,
    table: Seq<char>,
    r: Result<Step, ArgumentError>,
)
    requires
        call_ensures(GraphJinTool::execute, (tool, args), r),
        args@.text_of("action"@) == Some("list_tables"@) || {
            &&& args@.text_of("action"@) == Some("describe_table"@)
            &&& args@.text_of("table"@) == Some(table)
            &&& exists|i: int| 0 <= i < table.len() && !text::is_white_space(#[trigger] table[i])
        },
    ensures
        r is Ok,
        r->Ok_0@ is Post,
        args@.text_of("action"@) == Some("list_tables"@) ==> {
            &&& r->Ok_0@->Post_1 == PendingView::ListTables
            &&& laws_calls::asks(r->Ok_0@->Post_0, tool@, crate::wording::LIST_QUERY@, None)
        },
        args@.text_of("action"@) == Some("describe_table"@) ==> {
            &&& r->Ok_0@->Post_1 == PendingView::DescribeTable(table)
            &&& laws_calls::asks(
                r->Ok_0@->Post_0,
                tool@,
                crate::wording::DESCRIBE_HEAD@ + table + crate::wording::DESCRIBE_TAIL@,
                None,
            )
        },
{
    crate::laws::lemma_actions_differ();
    if args@.text_of("action"@) == Some("list_tables"@) {
        laws_calls::law_call_to_list(tool@, args@);
    } else {
        laws_calls::law_call_to_describe(tool@, args@);
    }
}

/// A call is turned away if and only if an argument that its action needs is missing or
/// blank, and the error says which.
pub proof fn law_execute_errors(tool: &GraphJinTool, args: &Json, r: Result<Step, ArgumentError>)
    requires
        call_ensures(GraphJinTool::execute, (tool, args), r),
    ensures
        ({
            let action = args@.text_of("action"@);
            let table = args@.text_of("table"@);
            let graphql = args@.text_of("graphql"@);
            let runs = action == Some("query"@) || action == Some("mutate"@);
            let no_table = table is Some && forall|i: int|
                0 <= i < table->0.len() ==> text::is_white_space(#[trigger] table->0[i]);
            let no_graphql = graphql is Some && forall|i: int|
                0 <= i < graphql->0.len() ==> text::is_white_space(#[trigger] graphql->0[i]);
            let missing = Err::<Step, ArgumentError>(ArgumentError::MissingAction);
            &&& r == missing <==> action is None
            &&& r == Err::<Step, ArgumentError>(ArgumentError::MissingTable) <==> action == Some(
                "describe_table"@,
            ) && table is None
            &&& r == Err::<Step, ArgumentError>(ArgumentError::EmptyTable) <==> action == Some(
                "describe_table"@,
            ) && no_table
            &&& r == Err::<Step, ArgumentError>(ArgumentError::MissingQuery) <==> action == Some(
                "query"@,
            ) && graphql is None
            &&& r == Err::<Step, ArgumentError>(ArgumentError::MissingMutation) <==> action == Some(
                "mutate"@,
            ) && graphql is None
            &&& r == Err::<Step, ArgumentError>(ArgumentError::EmptyGraphql) <==> runs && no_graphql
        }),
{
    crate::laws::lemma_actions_differ();
}

/// The answer to a description, a query or a mutation is handed back whole where it is
/// within the limit, and else as it is cut.
pub proof fn law_finish(
    tool: &GraphJinTool,
    pending: &Pending,
    status: u16,
    body: String,
    result: ToolResult,
)
    requires
        call_ensures(
            GraphJinTool::finish,
            (tool, pending, PostOutcome::Response { status, body }),
            result,
        ),
        200 <= status <= 299,
        !(pending@ is ListTables),
    ensures
        result.success,
        result.error is None,
        vstd::utf8::encode_utf8(body@).len() <= tool@.max_response_size ==> result.output@ == body@,
        vstd::utf8::encode_utf8(body@).len() > tool@.max_response_size && body@.len()
            > tool@.max_response_size ==> result.output@ == body@.take(
            tool@.max_response_size as int,
        ) + "\n\n... [Response truncated due to size limit] ..."@,
        vstd::utf8::encode_utf8(body@).len() > tool@.max_response_size && body@.len()
            <= tool@.max_response_size ==> result.output@ == body@
            + "\n\n... [Response truncated due to size limit] ..."@,
{
    laws_replies::law_answers_are_handed_back(tool@, pending@, status, body@);
    if body@.len() <= tool@.max_response_size {
        assert(body@.take(body@.len() as int) == body@);
    }
    assert(result@.success == result.success);
    assert(result@.error is None);
}

/// The answer to a listing within the limit is shown as its list of tables, or whole where
/// it cannot be read.
pub proof fn law_finish_listing(
    tool: &GraphJinTool,
    status: u16,
    body: String,
    result: ToolResult,
)
    requires
        call_ensures(
            GraphJinTool::finish,
            (tool, &Pending::ListTables, PostOutcome::Response { status, body }),
            result,
        ),
        200 <= status <= 299,
        vstd::utf8::encode_utf8(body@).len() <= tool@.max_response_size,
    ensures
        result.success,
        result.error is None,
        crate::json::parsed(body@) is None ==> result.output@ == body@,
        crate::json::parsed(body@) is Some ==> result.output@ == tables::table_list(
            crate::json::parsed(body@)->0,
        ),
{
    laws_replies::law_lists_are_read(tool@, status, body@);
    assert(result@.success == result.success);
    assert(result@.error is None);
}

/// A post that failed, or was answered with another status, ends the call in an error with
/// the reason in full at its place.
pub proof fn law_finish_failed(
    tool: &GraphJinTool,
    pending: &Pending,
    outcome: PostOutcome,
    result: ToolResult,
)
    requires
        call_ensures(GraphJinTool::finish, (tool, pending, outcome), result),
        match outcome {
            PostOutcome::Response { status, body } => status < 200 || status > 299,
            PostOutcome::Failed(reason) => true,
        },
    ensures
        !result.success,
        result.output@.len() == 0,
        result.error is Some,
        ({
            let reason = match outcome {
                PostOutcome::Response { status, body } => "GraphJin returned HTTP "@
                    + text::decimal(status as nat) + ": "@ + body@,
                PostOutcome::Failed(reason) => reason@,
            };
            result.error->0@ == match pending {
                Pending::ListTables => "Failed to connect to GraphJin at "@ + tool@.api_url + ": "@
                    + reason
                    + ". Make sure GraphJin is running (graphjin serve) and [graphjin].api_url is correct."@,
                Pending::DescribeTable(table) => "Failed to describe table '"@ + table@ + "': "@
                    + reason,
                Pending::Query => "GraphQL query failed: "@ + reason,
                Pending::Mutate => "GraphQL mutation failed: "@ + reason,
            }
        }),
{
    match outcome {
        PostOutcome::Response { status, body } => {
            laws_replies::law_failures_are_told(tool@, pending@, status, body@, seq![]);
            laws_replies::law_failures_are_told(
                tool@,
                pending@,
                status,
                body@,
                "GraphJin returned HTTP "@ + text::decimal(status as nat) + ": "@ + body@,
            );
        },
        PostOutcome::Failed(reason) => {
            laws_replies::law_failures_are_told(tool@, pending@, 200, seq![], reason@);
        },
    }
    assert(result@.success == result.success);
    assert(result@.output == result.output@);
    assert(result@.error is Some);
}

/// Every field of a list whose name does not end with `_cursor` has its line in the text
/// that is made of the list.
pub proof fn law_format_fields(fields: &Vec<Json>, i: int, line: Seq<char>, list: String)
    requires
        call_ensures(tables::format_fields, (fields,), list),
        0 <= i < fields@.len(),
        ({
            let name = laws_tables::name(fields@[i]@);
            let description = laws_tables::description(fields@[i]@);
            &&& name.len() < 7 || name.skip(name.len() - 7) != "_cursor"@
            &&& description.len() == 0 ==> line == "\n"@ + "  - "@ + name
            &&& description.len() > 0 ==> line == "\n"@ + "  - "@ + name + ": "@ + description
        }),
    ensures
        exists|at: int|
            0 <= at <= list@.len() - line.len() && #[trigger] list@.subrange(at, at + line.len())
                == line,
{
    laws_tables::law_every_table_has_its_line(crate::json::item_views(fields@), i, line);
}

/// What is shown of an answer that was read is its list of tables, and the list is made of
/// the fields that are found in it.
pub proof fn law_shown_tables(
    json: &Json,
    fields: Option<&Vec<Json>>,
    shown: String,
    answer: String,
    read: Option<Json>,
    told: String,
)
    requires
        call_ensures(tables::find_fields, (json,), fields),
        call_ensures(tables::format_table_list, (json,), shown),
        call_ensures(tables::show_answer, (answer, read), told),
    ensures
        fields is Some ==> tables::query_fields(json@) == Some(
            crate::json::item_views(fields->0@),
        ),
        fields is None ==> tables::query_fields(json@) is None,
        shown@ == tables::table_list(json@),
        read is Some ==> told@ == tables::table_list(read->0@),
        read is None ==> told@ == answer@,
{
}

/// An answer that can be read is shown as its list of tables, and any other as it is.
pub proof fn law_list_answer(answer: String, told: String)
    requires
        call_ensures(tables::list_answer, (answer,), told),
    ensures
        crate::json::parsed(answer@) is Some ==> told@ == tables::table_list(
            crate::json::parsed(answer@)->0,
        ),
        crate::json::parsed(answer@) is None ==> told@ == answer@,
{
}

/// Every post says that it carries and takes JSON, and who sends it.
pub proof fn law_headers(headers: Vec<(String, String)>)
    requires
        call_ensures(exchange::headers, (), headers),
    ensures
        headers@.len() == 3,
        headers@[0].0@ == "Content-Type"@ && headers@[0].1@ == "application/json"@,
        headers@[1].0@ == "Accept"@ && headers@[1].1@ == "application/json"@,
        headers@[2].0@ == "User-Agent"@ && headers@[2].1@ == "ZeroClaw/1.0"@,
{
    let said = exchange::header_views(headers@);
    assert(said.len() == 3);
    assert(said[0] == (headers@[0].0@, headers@[0].1@));
    assert(said[1] == (headers@[1].0@, headers@[1].1@));
    assert(said[2] == (headers@[2].0@, headers@[2].1@));
}

/// A document is taken for a mutation if and only if some definition of it starts with the
/// name `mutation`, whole.
pub proof fn law_has_mutation(document: &str, cuts: Seq<int>, found: bool)
    requires
        call_ensures(document::has_mutation, (document,), found),
        laws_documents::is_cut(document@, cuts),
    ensures
        found <==> exists|k: int|
            0 <= k < cuts.len() - 1 && document@.subrange(cuts[k], cuts[k + 1]) == "mutation"@
                && #[trigger] laws_documents::is_start(document@, cuts, k),
{
    laws_documents::law_mutations(document@, cuts);
}

/// An agent is supervised at first, and has twenty actions in the hour.
pub proof fn law_default_policy(policy: SecurityPolicy)
    requires
        call_ensures(SecurityPolicy::default, (), policy),
    ensures
        policy.autonomy == AutonomyLevel::Supervised,
        policy.max_actions_per_hour == 20,
{
}

/// An agent may act unless it may only look, and as often as its limit says.
pub proof fn law_policy_answers(policy: &SecurityPolicy, recorded: u64, acts: bool, often: bool)
    requires
        call_ensures(SecurityPolicy::can_act, (policy,), acts),
        call_ensures(SecurityPolicy::within_rate, (policy, recorded), often),
    ensures
        acts <==> policy.autonomy != AutonomyLevel::ReadOnly,
        often <==> recorded <= policy.max_actions_per_hour,
{
}

/// A result says what it was made of.
pub proof fn law_made_results(said: String, done: ToolResult, failed: ToolResult)
    requires
        call_ensures(ToolResult::succeeded, (said,), done),
        call_ensures(ToolResult::failed, (said,), failed),
    ensures
        done@ == (ToolResultView { success: true, output: said@, error: None }),
        failed@ == (ToolResultView { success: false, output: Seq::empty(), error: Some(said@) }),
{
}

/// What is received of an answer with a status of success is its body, in full.
pub proof fn law_receive(status: u16, body: String, r: Result<String, String>)
    requires
        call_ensures(exchange::receive, (PostOutcome::Response { status, body },), r),
    ensures
        r is Ok <==> 200 <= status <= 299,
        r is Ok ==> r->Ok_0@ == body@,
        r is Err ==> r->Err_0@ == "GraphJin returned HTTP "@ + text::decimal(status as nat) + ": "@
            + body@,
{
    assert((PostOutcome::Response { status, body })@ == (
    crate::exchange::PostOutcomeView::Response { status, body: body@ }));
}

/// The questions about a text are answered by its characters.
pub proof fn law_text_answers(
    s: &str,
    part: &str,
    c: char,
    has: bool,
    ends: bool,
    same: bool,
    blank: bool,
    white: bool,
)
    requires
        call_ensures(text::has_part, (s, part), has),
        call_ensures(text::has_tail, (s, part), ends),
        call_ensures(text::same_text, (s, part), same),
        call_ensures(text::only_white_space, (s,), blank),
        call_ensures(text::white_space, (c,), white),
    ensures
        has <==> exists|at: int|
            0 <= at <= s@.len() - part@.len() && #[trigger] s@.subrange(at, at + part@.len())
                == part@,
        ends <==> part@.len() <= s@.len() && s@.skip(s@.len() - part@.len()) == part@,
        same <==> s@ == part@,
        blank <==> forall|i: int|
            0 <= i < s@.len() ==> text::is_white_space(#[trigger] s@[i]),
        white <==> text::is_white_space(c),
{
    laws_text::law_contains(s@, part@);
    laws_text::law_ends_with(s@, part@);
}

/// The edits of a text take its characters as they are.
pub proof fn law_text_edits(
    s: &str,
    c: char,
    limit: usize,
    lines: &Vec<String>,
    sep: &str,
    found: Option<String>,
    n: usize,
    trimmed: String,
    start: String,
    joined: String,
    kept: String,
    digits: String,
)
    requires
        call_ensures(text::trim_trailing, (s, c), trimmed),
        call_ensures(text::first_chars, (s, limit), start),
        call_ensures(text::join_texts, (lines, sep), joined),
        call_ensures(text::or_empty, (found,), kept),
        call_ensures(text::decimal_text, (n,), digits),
    ensures
        trimmed@.len() <= s@.len() && trimmed@ == s@.take(trimmed@.len() as int),
        forall|i: int| trimmed@.len() <= i < s@.len() ==> #[trigger] s@[i] == c,
        trimmed@.len() > 0 ==> trimmed@.last() != c,
        s@.len() <= limit ==> start@ == s@,
        s@.len() > limit ==> start@ == s@.take(limit as int),
        joined@ == text::join(text::views(lines@), sep@),
        found is Some ==> kept@ == found->0@,
        found is None ==> kept@.len() == 0,
        laws_text::number(digits@) == n,
        n < 10 ==> digits@.len() == 1,
        n >= 10 ==> digits@[0] != '0',
        forall|i: int| 0 <= i < digits@.len() ==> '0' <= #[trigger] digits@[i] <= '9',
{
    crate::laws::law_trimming(s@, c);
    laws_text::law_decimal(n as nat);
}

/// Reading a value finds what stands in it, and a copy stands for the same value.
pub proof fn law_json_answers(
    json: &Json,
    key: &str,
    found: Option<&Json>,
    said: Option<&str>,
    text: Option<&str>,
    items: Option<&Vec<Json>>,
    null: bool,
    object: bool,
    copy: Json,
)
    requires
        call_ensures(Json::get, (json, key), found),
        call_ensures(Json::str_of, (json, key), said),
        call_ensures(Json::as_str, (json,), text),
        call_ensures(Json::as_array, (json,), items),
        call_ensures(Json::is_null, (json,), null),
        call_ensures(Json::is_object, (json,), object),
        call_ensures(Json::clone, (json,), copy),
    ensures
        found is Some <==> json@.get(key@) is Some,
        found is Some ==> json@.get(key@) == Some(found->0@),
        said is Some <==> json@.get(key@) is Some && json@.get(key@)->0 is Text,
        said is Some ==> json@.get(key@) == Some(JsonView::Text(said->0@)),
        text is Some <==> json@ is Text,
        text is Some ==> json@ == JsonView::Text(text->0@),
        items is Some <==> json@ is Array,
        items is Some ==> json@ == JsonView::Array(crate::json::item_views(items->0@)),
        null <==> json@ is Null,
        object <==> json@ is Object,
        copy@ == json@,
{
}

/// The message of an argument error is its sentence.
pub proof fn law_messages(error: &ArgumentError, message: String)
    requires
        call_ensures(ArgumentError::message, (error,), message),
    ensures
        message@ == match error {
            ArgumentError::MissingAction => "Missing required parameter: action"@,
            ArgumentError::MissingTable => "Missing required parameter: table (for describe_table)"@,
            ArgumentError::MissingQuery => "Missing required parameter: graphql (for query)"@,
            ArgumentError::MissingMutation => "Missing required parameter: graphql (for mutate)"@,
            ArgumentError::EmptyTable => "Parameter 'table' cannot be empty"@,
            ArgumentError::EmptyGraphql => "Parameter 'graphql' cannot be empty"@,
        },
{
}

} // verus!
