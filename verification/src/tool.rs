//! The tool itself: what it makes of a call, step by step, and of the service's answer.
use crate::document;
use crate::exchange;
use crate::exchange::ArgumentError;
use crate::exchange::PostOutcome;
use crate::exchange::PostOutcomeView;
use crate::exchange::PostRequest;
use crate::exchange::PostRequestView;
use crate::exchange::ToolResult;
use crate::exchange::ToolResultView;
use crate::json::Json;
use crate::json::JsonView;
use crate::security::SecurityPolicy;
use crate::tables;
use crate::text;
use crate::wording;
use std::sync::Arc;
use vstd::prelude::*;

verus! {

broadcast use vstd::string::group_string_axioms;

/// A tool that works on a database through a GraphJin service, which discovers the
/// schema of the database, follows foreign keys, and turns GraphQL into SQL.
///
/// Its actions are:
/// - `list_tables`: lists the tables, views and functions that there are
/// - `describe_table`: shows the columns, types and relationships of a table
/// - `query`: runs a read-only GraphQL query; a document that holds a mutation is refused
/// - `mutate`: runs a GraphQL mutation, where mutations are allowed
///
/// A call starts with `execute`, which says what is to be done next. The caller does it
/// and hands the outcome to `action_recorded` or `finish`.
#[derive(Debug)]
pub struct GraphJinTool {
    api_url: String,
    timeout_secs: u64,
    max_response_size: usize,
    allow_mutations: bool,
    security: Arc<SecurityPolicy>,
}

/// How a tool is set up.
pub struct ToolView {
    pub api_url: Seq<char>,
    pub timeout_secs: u64,
    pub max_response_size: usize,
    pub allow_mutations: bool,
    pub security: SecurityPolicy,
}

impl View for GraphJinTool {
    type V = ToolView;

    closed spec fn view(&self) -> ToolView {
        ToolView {
            api_url: self.api_url@,
            timeout_secs: self.timeout_secs,
            max_response_size: self.max_response_size,
            allow_mutations: self.allow_mutations,
            security: *self.security,
        }
    }
}

impl ToolView {
    /// What holds of every tool: its address does not end with a slash, and it waits
    /// for at least a second.
    pub open spec fn well_formed(self) -> bool {
        &&& self.api_url.len() > 0 ==> self.api_url.last() != '/'
        &&& self.timeout_secs >= 1
    }

    /// The address that documents are posted to.
    pub open spec fn endpoint(self) -> Seq<char> {
        if text::contains(self.api_url, wording::ENDPOINT@) {
            self.api_url
        } else {
            self.api_url + wording::ENDPOINT@
        }
    }

    /// How long an answer is waited for.
    pub open spec fn wait_secs(self) -> u64 {
        if self.timeout_secs == 0 {
            30
        } else {
            self.timeout_secs
        }
    }

    /// A text as it is shown: as it is where its bytes are within the limit; else as
    /// many characters as the limit says, and a notice.
    pub open spec fn shown(self, full: Seq<char>) -> Seq<char> {
        if text::byte_len(full) > self.max_response_size {
            text::first(full, self.max_response_size as nat) + wording::CUT_NOTICE@
        } else {
            full
        }
    }

    /// The post that carries a document.
    pub open spec fn post(self, query: Seq<char>, variables: Option<JsonView>) -> PostRequestView {
        PostRequestView {
            url: self.endpoint(),
            headers: exchange::json_headers(),
            payload: exchange::payload(query, variables),
            timeout_secs: self.wait_secs(),
            connect_timeout_secs: 10,
        }
    }
}

impl GraphJinTool {
    /// Every tool is well formed.
    #[verifier::type_invariant]
    spec fn is_well_formed(self) -> bool {
        self@.well_formed()
    }
}

/// The tool that `GraphJinTool::new` makes.
pub open spec fn configured(
    security: SecurityPolicy,
    api_url: Seq<char>,
    timeout_secs: u64,
    max_response_size: usize,
    allow_mutations: bool,
) -> ToolView {
    ToolView {
        api_url: text::without_trailing(api_url, '/'),
        timeout_secs: if timeout_secs < 1 {
            1
        } else {
            timeout_secs
        },
        max_response_size,
        allow_mutations,
        security,
    }
}

impl GraphJinTool {
    pub fn new(
        security: Arc<SecurityPolicy>,
        api_url: String,
        timeout_secs: u64,
        max_response_size: usize,
        allow_mutations: bool,
    ) -> (r: Self)
        ensures
            r@ == configured(
                *security,
                api_url@,
                timeout_secs,
                max_response_size,
                allow_mutations,
            ),
            r@.well_formed(),
    {
        proof {
            crate::laws::law_trimming(api_url@, '/');
        }
        GraphJinTool {
            api_url: text::trim_trailing(api_url.as_str(), '/'),
            timeout_secs: if timeout_secs < 1 {
                1
            } else {
                timeout_secs
            },
            max_response_size,
            allow_mutations,
            security,
        }
    }
}

/// What a posted document was for.
#[derive(Debug)]
pub enum Pending {
    ListTables,
    DescribeTable(String),
    Query,
    Mutate,
}

/// What a `Pending` says.
pub enum PendingView {
    ListTables,
    DescribeTable(Seq<char>),
    Query,
    Mutate,
}

impl View for Pending {
    type V = PendingView;

    open spec fn view(&self) -> PendingView {
        match self {
            Pending::ListTables => PendingView::ListTables,
            Pending::DescribeTable(table) => PendingView::DescribeTable(table@),
            Pending::Query => PendingView::Query,
            Pending::Mutate => PendingView::Mutate,
        }
    }
}

/// A mutation that the tool's settings and the agent's autonomy allow. Only
/// `GraphJinTool::action_mutate` makes one.
#[derive(Debug)]
pub struct Mutation {
    graphql: String,
    variables: Option<Json>,
}

/// What a `Mutation` asks for.
pub struct MutationView {
    pub graphql: Seq<char>,
    pub variables: Option<JsonView>,
}

impl View for Mutation {
    type V = MutationView;

    closed spec fn view(&self) -> MutationView {
        MutationView {
            graphql: self.graphql@,
            variables: match self.variables {
                Some(v) => Some(v@),
                None => None,
            },
        }
    }
}

/// What a call needs next.
#[derive(Debug)]
pub enum Step {
    /// Nothing: this is its result.
    Finished(ToolResult),
    /// An action is to be recorded. `GraphJinTool::action_recorded` goes on from there.
    RecordAction(Mutation),
    /// A document is to be posted. `GraphJinTool::finish` goes on from there.
    Post(PostRequest, Pending),
}

/// What a `Step` says.
pub enum StepView {
    Finished(ToolResultView),
    RecordAction(MutationView),
    Post(PostRequestView, PendingView),
}

impl View for Step {
    type V = StepView;

    open spec fn view(&self) -> StepView {
        match self {
            Step::Finished(result) => StepView::Finished(result@),
            Step::RecordAction(mutation) => StepView::RecordAction(mutation@),
            Step::Post(request, pending) => StepView::Post(request@, pending@),
        }
    }
}

/// The document that asks for the columns of `table`. The name stands in it as it is.
pub open spec fn describe_query(table: Seq<char>) -> Seq<char> {
    wording::DESCRIBE_HEAD@ + table + wording::DESCRIBE_TAIL@
}

/// What is said of an action that does not exist.
pub open spec fn unknown_action(action: Seq<char>) -> Seq<char> {
    "Unknown action: '"@ + action
        + "'. Valid actions: list_tables, describe_table, query, mutate"@
}

impl ToolView {
    /// The first step of listing the tables.
    pub open spec fn list_step(self) -> StepView {
        StepView::Post(self.post(wording::LIST_QUERY@, None), PendingView::ListTables)
    }

    /// The first step of describing a table.
    pub open spec fn describe_step(self, table: Seq<char>) -> StepView {
        StepView::Post(
            self.post(describe_query(table), None),
            PendingView::DescribeTable(table),
        )
    }

    /// The first step of a query. It is refused where the document holds a mutation.
    pub open spec fn query_step(self, graphql: Seq<char>, variables: Option<JsonView>) -> StepView {
        if document::holds_mutation(graphql) {
            StepView::Finished(exchange::failure(wording::MUTATION_ELSEWHERE@))
        } else {
            StepView::Post(self.post(graphql, variables), PendingView::Query)
        }
    }

    /// The first step of a mutation: it is refused, or it counts as an action.
    pub open spec fn mutate_step(self, graphql: Seq<char>, variables: Option<JsonView>) -> StepView {
        if !self.allow_mutations {
            StepView::Finished(exchange::failure(wording::MUTATIONS_DISABLED@))
        } else if !self.security.may_act() {
            StepView::Finished(exchange::failure(wording::READ_ONLY@))
        } else {
            StepView::RecordAction(MutationView { graphql, variables })
        }
    }

    /// The step that follows on a recorded action, the last of `recorded` in an hour. Any
    /// tool may be asked, so its own settings count here as well.
    pub open spec fn recorded_step(self, mutation: MutationView, recorded: int) -> StepView {
        if !self.allow_mutations {
            StepView::Finished(exchange::failure(wording::MUTATIONS_DISABLED@))
        } else if !self.security.may_act() {
            StepView::Finished(exchange::failure(wording::READ_ONLY@))
        } else if !self.security.rate_allows(recorded) {
            StepView::Finished(exchange::failure(wording::RATE_EXCEEDED@))
        } else {
            StepView::Post(self.post(mutation.graphql, mutation.variables), PendingView::Mutate)
        }
    }

    /// The first step of a call with these arguments.
    pub open spec fn first_step(self, args: JsonView) -> Result<StepView, ArgumentError> {
        match args.text_of("action"@) {
            None => Err(ArgumentError::MissingAction),
            Some(action) => if action == "list_tables"@ {
                Ok(self.list_step())
            } else if action == "describe_table"@ {
                match args.text_of("table"@) {
                    None => Err(ArgumentError::MissingTable),
                    Some(table) => if text::is_blank(table) {
                        Err(ArgumentError::EmptyTable)
                    } else {
                        Ok(self.describe_step(table))
                    },
                }
            } else if action == "query"@ {
                match args.text_of("graphql"@) {
                    None => Err(ArgumentError::MissingQuery),
                    Some(graphql) => if text::is_blank(graphql) {
                        Err(ArgumentError::EmptyGraphql)
                    } else {
                        Ok(self.query_step(graphql, args.get("variables"@)))
                    },
                }
            } else if action == "mutate"@ {
                match args.text_of("graphql"@) {
                    None => Err(ArgumentError::MissingMutation),
                    Some(graphql) => if text::is_blank(graphql) {
                        Err(ArgumentError::EmptyGraphql)
                    } else {
                        Ok(self.mutate_step(graphql, args.get("variables"@)))
                    },
                }
            } else {
                Ok(StepView::Finished(exchange::failure(unknown_action(action))))
            },
        }
    }

    /// What is said where a document could not be posted, or was answered with an error.
    pub open spec fn complaint(self, pending: PendingView, reason: Seq<char>) -> Seq<char> {
        match pending {
            PendingView::ListTables => "Failed to connect to GraphJin at "@ + self.api_url + ": "@
                + reason + wording::CONNECT_HINT@,
            PendingView::DescribeTable(table) => "Failed to describe table '"@ + table + "': "@
                + reason,
            PendingView::Query => "GraphQL query failed: "@ + reason,
            PendingView::Mutate => "GraphQL mutation failed: "@ + reason,
        }
    }

    /// The result of a call whose document was posted with this outcome.
    pub open spec fn reply(self, pending: PendingView, outcome: PostOutcomeView) -> ToolResultView {
        match exchange::received(outcome) {
            Ok(body) => if pending is ListTables {
                exchange::success(
                    tables::listing(self.shown(body), crate::json::parsed(self.shown(body))),
                )
            } else {
                exchange::success(self.shown(body))
            },
            Err(reason) => exchange::failure(self.complaint(pending, reason)),
        }
    }
}

impl GraphJinTool {
    /// The address of the service, as it was given but for trailing slashes.
    pub fn api_url(&self) -> (r: &str)
        ensures
            r@ == self@.api_url,
            r@.len() > 0 ==> r@.last() != '/',
    {
        proof {
            use_type_invariant(self);
        }
        self.api_url.as_str()
    }

    /// The address that documents are posted to.
    pub fn graphql_url(&self) -> (r: String)
        ensures
            r@ == self@.endpoint(),
    {
        if text::has_part(self.api_url.as_str(), wording::ENDPOINT) {
            self.api_url.clone()
        } else {
            let mut url = self.api_url.clone();
            url.append(wording::ENDPOINT);
            url
        }
    }

    /// How many seconds an answer is waited for.
    pub fn client_timeout_secs(&self) -> (r: u64)
        ensures
            r == self@.wait_secs(),
            r >= 1,
    {
        proof {
            use_type_invariant(self);
        }
        if self.timeout_secs == 0 {
            30
        } else {
            self.timeout_secs
        }
    }

    /// A text as it is shown: cut, with a notice, where it is over the size limit.
    pub fn truncate(&self, full: String) -> (r: String)
        ensures
            r@ == self@.shown(full@),
    {
        if full.as_str().as_bytes().len() > self.max_response_size {
            let mut cut = text::first_chars(full.as_str(), self.max_response_size);
            cut.append(wording::CUT_NOTICE);
            cut
        } else {
            full
        }
    }

    /// The post that carries a document to the service.
    pub fn post_graphql(&self, query: &str, variables: Option<&Json>) -> (r: PostRequest)
        ensures
            r@ == self@.post(query@, exchange::variables_view(variables)),
    {
        PostRequest {
            url: self.graphql_url(),
            headers: exchange::headers(),
            payload: exchange::build_payload(query, variables),
            timeout_secs: self.client_timeout_secs(),
            connect_timeout_secs: 10,
        }
    }

    /// Lists the tables, views and functions that the service knows.
    pub fn action_list_tables(&self) -> (r: Step)
        ensures
            r@ == self@.list_step(),
    {
        Step::Post(self.post_graphql(wording::LIST_QUERY, None), Pending::ListTables)
    }

    /// Describes the columns and relationships of a table.
    pub fn action_describe_table(&self, table: &str) -> (r: Step)
        ensures
            r@ == self@.describe_step(table@),
    {
        let mut query: String = wording::DESCRIBE_HEAD.to_owned();
        query.append(table);
        query.append(wording::DESCRIBE_TAIL);
        Step::Post(
            self.post_graphql(query.as_str(), None),
            Pending::DescribeTable(table.to_owned()),
        )
    }

    /// Runs a query, where the document holds no mutation.
    pub fn action_query(&self, graphql: &str, variables: Option<&Json>) -> (r: Step)
        ensures
            r@ == self@.query_step(graphql@, exchange::variables_view(variables)),
    {
        if document::has_mutation(graphql) {
            return Step::Finished(ToolResult::failed(wording::MUTATION_ELSEWHERE.to_owned()));
        }
        Step::Post(self.post_graphql(graphql, variables), Pending::Query)
    }

    /// Runs a mutation, where the tool's settings and the agent's autonomy allow it.
    pub fn action_mutate(&self, graphql: &str, variables: Option<&Json>) -> (r: Step)
        ensures
            r@ == self@.mutate_step(graphql@, exchange::variables_view(variables)),
    {
        if !self.allow_mutations {
            return Step::Finished(ToolResult::failed(wording::MUTATIONS_DISABLED.to_owned()));
        }
        if !self.security.can_act() {
            return Step::Finished(ToolResult::failed(wording::READ_ONLY.to_owned()));
        }
        let kept: Option<Json> = match variables {
            Some(v) => Some(v.clone()),
            None => None,
        };
        Step::RecordAction(Mutation { graphql: graphql.to_owned(), variables: kept })
    }

    /// Goes on with a mutation once it has been recorded as an action: the last of
    /// `recorded` within the past hour.
    pub fn action_recorded(&self, mutation: &Mutation, recorded: u64) -> (r: Step)
        ensures
            r@ == self@.recorded_step(mutation@, recorded as int),
    {
        if !self.allow_mutations {
            return Step::Finished(ToolResult::failed(wording::MUTATIONS_DISABLED.to_owned()));
        }
        if !self.security.can_act() {
            return Step::Finished(ToolResult::failed(wording::READ_ONLY.to_owned()));
        }
        if !self.security.within_rate(recorded) {
            return Step::Finished(ToolResult::failed(wording::RATE_EXCEEDED.to_owned()));
        }
        Step::Post(
            self.post_graphql(mutation.graphql.as_str(), mutation.variables.as_ref()),
            Pending::Mutate,
        )
    }

    /// Takes a call up: the first step that its arguments ask for, or what is wrong
    /// with them.
    pub fn execute(&self, args: &Json) -> (r: Result<Step, ArgumentError>)
        ensures
            match r {
                Ok(step) => self@.first_step(args@) == Ok::<StepView, ArgumentError>(step@),
                Err(error) => self@.first_step(args@) == Err::<StepView, ArgumentError>(error),
            },
    {
        let action: &str = match args.str_of("action") {
            Some(action) => action,
            None => return Err(ArgumentError::MissingAction),
        };
        if text::same_text(action, "list_tables") {
            return Ok(self.action_list_tables());
        }
        if text::same_text(action, "describe_table") {
            return match args.str_of("table") {
                None => Err(ArgumentError::MissingTable),
                Some(table) => if text::only_white_space(table) {
                    Err(ArgumentError::EmptyTable)
                } else {
                    Ok(self.action_describe_table(table))
                },
            };
        }
        if text::same_text(action, "query") {
            return match args.str_of("graphql") {
                None => Err(ArgumentError::MissingQuery),
                Some(graphql) => if text::only_white_space(graphql) {
                    Err(ArgumentError::EmptyGraphql)
                } else {
                    Ok(self.action_query(graphql, args.get("variables")))
                },
            };
        }
        if text::same_text(action, "mutate") {
            return match args.str_of("graphql") {
                None => Err(ArgumentError::MissingMutation),
                Some(graphql) => if text::only_white_space(graphql) {
                    Err(ArgumentError::EmptyGraphql)
                } else {
                    Ok(self.action_mutate(graphql, args.get("variables")))
                },
            };
        }
        let mut error: String = "Unknown action: '".to_owned();
        error.append(action);
        error.append("'. Valid actions: list_tables, describe_table, query, mutate");
        Ok(Step::Finished(ToolResult::failed(error)))
    }

    /// What is said where a document could not be posted, or was answered with an error.
    fn complain(&self, pending: &Pending, reason: &str) -> (r: String)
        ensures
            r@ == self@.complaint(pending@, reason@),
    {
        match pending {
            Pending::ListTables => {
                let mut error: String = "Failed to connect to GraphJin at ".to_owned();
                error.append(self.api_url.as_str());
                error.append(": ");
                error.append(reason);
                error.append(wording::CONNECT_HINT);
                error
            },
            Pending::DescribeTable(table) => {
                let mut error: String = "Failed to describe table '".to_owned();
                error.append(table.as_str());
                error.append("': ");
                error.append(reason);
                error
            },
            Pending::Query => {
                let mut error: String = "GraphQL query failed: ".to_owned();
                error.append(reason);
                error
            },
            Pending::Mutate => {
                let mut error: String = "GraphQL mutation failed: ".to_owned();
                error.append(reason);
                error
            },
        }
    }

    /// Ends a call whose document was posted: its result, from what became of the post. An
    /// answer that had to be cut is shown as the cut text, also where tables are listed.
    pub fn finish(&self, pending: &Pending, outcome: PostOutcome) -> (r: ToolResult)
        ensures
            r@ == self@.reply(pending@, outcome@),
            match exchange::received(outcome@) {
                Ok(body) => text::byte_len(body) > self@.max_response_size ==> r@
                    == exchange::success(self@.shown(body)),
                Err(_) => true,
            },
    {
        match exchange::receive(outcome) {
            Ok(body) => {
                proof {
                    reveal_strlit("\n\n... [Response truncated due to size limit] ...");
                    assert(wording::CUT_NOTICE@.last() == '.');
                }
                let shown = self.truncate(body);
                match pending {
                    Pending::ListTables => ToolResult::succeeded(tables::list_answer(shown)),
                    _ => ToolResult::succeeded(shown),
                }
            },
            Err(reason) => ToolResult::failed(self.complain(pending, reason.as_str())),
        }
    }
}

} // verus!
