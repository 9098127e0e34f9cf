use graphjin::document::has_mutation;
use graphjin::exchange::{receive, ArgumentError, PostOutcome, PostRequest, ToolResult};
use graphjin::json::Json;
use graphjin::security::{AutonomyLevel, SecurityPolicy};
use graphjin::tool::{GraphJinTool, Mutation, Pending, Step};
use std::sync::Arc;

const MUTATION: &str = "mutation { users(insert: {email: \"a@b.com\"}) { id } }";

fn text(t: &str) -> Json {
    Json::Text(t.to_string())
}

fn object(members: Vec<(&str, Json)>) -> Json {
    Json::Object(members.into_iter().map(|(k, v)| (k.to_string(), v)).collect())
}

fn test_tool() -> GraphJinTool {
    let security = Arc::new(SecurityPolicy {
        autonomy: AutonomyLevel::Supervised,
        ..SecurityPolicy::default()
    });
    GraphJinTool::new(security, "http://localhost:8080".into(), 30, 1_000_000, false)
}

fn test_tool_with_mutations() -> GraphJinTool {
    let security = Arc::new(SecurityPolicy {
        autonomy: AutonomyLevel::Supervised,
        ..SecurityPolicy::default()
    });
    GraphJinTool::new(security, "http://localhost:8080".into(), 30, 1_000_000, true)
}

fn tool_at(url: &str) -> GraphJinTool {
    GraphJinTool::new(Arc::new(SecurityPolicy::default()), url.into(), 30, 1_000_000, false)
}

fn tool_showing(max_response_size: usize) -> GraphJinTool {
    GraphJinTool::new(
        Arc::new(SecurityPolicy::default()),
        "http://localhost:8080".into(),
        30,
        max_response_size,
        false,
    )
}

fn finished(step: Step) -> ToolResult {
    match step {
        Step::Finished(result) => result,
        other => panic!("not finished: {:?}", other),
    }
}

fn posted(step: Step) -> (PostRequest, Pending) {
    match step {
        Step::Post(request, pending) => (request, pending),
        other => panic!("no post: {:?}", other),
    }
}

fn to_record(step: Step) -> Mutation {
    match step {
        Step::RecordAction(mutation) => mutation,
        other => panic!("nothing to record: {:?}", other),
    }
}

fn answer(status: u16, body: &str) -> PostOutcome {
    PostOutcome::Response { status, body: body.to_string() }
}

#[test]
fn tool_name_is_graphjin() {
    assert_eq!(test_tool().name(), "graphjin");
}

#[test]
fn tool_description_is_nonempty() {
    let tool = test_tool();
    let desc = tool.description();
    assert!(!desc.is_empty());
    assert!(desc.contains("GraphQL"));
}

#[test]
fn description_is_laid_out_in_lines() {
    let tool = test_tool();
    let lines: Vec<&str> = tool.description().split('\n').collect();
    assert_eq!(lines.len(), 13);
    assert!(lines[0].ends_with("and `mutate` to write data (if enabled). "));
    assert_eq!(lines[2], "GraphQL query syntax reference:");
    assert_eq!(lines[3], "- Basic query: `{ products(limit: 5) { id name price } }`");
    assert_eq!(
        lines[12],
        "- Mutations:   `mutation { products(insert: { name: \"X\", price: 9.99 }) { id } }`"
    );
}

#[test]
fn parameters_schema_is_valid_object() {
    let schema = test_tool().parameters_schema();
    assert_eq!(schema.str_of("type"), Some("object"));
    let properties = schema.get("properties").unwrap();
    assert!(properties.is_object());
    assert!(properties.get("action").unwrap().is_object());
    assert!(properties.get("graphql").unwrap().is_object());
    assert!(properties.get("table").unwrap().is_object());
    assert!(schema
        .get("required")
        .unwrap()
        .as_array()
        .unwrap()
        .iter()
        .any(|r| r.as_str() == Some("action")));
}

#[test]
fn schema_offers_the_actions_in_order() {
    let schema = test_tool().parameters_schema();
    let properties = schema.get("properties").unwrap();
    let action = properties.get("action").unwrap();
    let names: Vec<&str> = action
        .get("enum")
        .unwrap()
        .as_array()
        .unwrap()
        .iter()
        .map(|n| n.as_str().unwrap())
        .collect();
    assert_eq!(names, vec!["list_tables", "describe_table", "query", "mutate"]);
    assert_eq!(
        properties.get("variables").unwrap().str_of("description"),
        Some("Optional variables map for the GraphQL query (e.g. {\"id\": 42})")
    );
    assert_eq!(properties.get("variables").unwrap().str_of("type"), Some("object"));
}

#[test]
fn api_url_strips_trailing_slash() {
    let security = Arc::new(SecurityPolicy::default());
    let tool = GraphJinTool::new(security, "http://localhost:8080/".into(), 30, 1_000_000, false);
    assert_eq!(tool.api_url(), "http://localhost:8080");
    assert_eq!(tool.graphql_url(), "http://localhost:8080/api/v1/graphql");
}

#[test]
fn api_url_idempotent() {
    let security = Arc::new(SecurityPolicy::default());
    let tool = GraphJinTool::new(
        security,
        "http://10.0.0.2:8001/api/v1/graphql".into(),
        30,
        1_000_000,
        false,
    );
    assert_eq!(tool.graphql_url(), "http://10.0.0.2:8001/api/v1/graphql");
}

#[test]
fn all_trailing_slashes_go_and_no_other() {
    assert_eq!(tool_at("http://h//x///").api_url(), "http://h//x");
    assert_eq!(tool_at("///").api_url(), "");
    assert_eq!(tool_at("").graphql_url(), "/api/v1/graphql");
}

#[test]
fn endpoint_of_a_tool_is_the_endpoint_of_the_next() {
    for url in vec!["http://h", "http://h/", "http://h/api/v1/graphql?a=b", "", "/api/v1/graphq"] {
        let first = tool_at(url).graphql_url();
        assert!(first.contains("/api/v1/graphql"));
        let again = tool_at(&format!("{}//", first)).graphql_url();
        assert_eq!(first, again);
    }
}

#[test]
fn waiting_takes_at_least_a_second() {
    for (told, waits) in vec![(0, 1), (1, 1), (30, 30), (u64::MAX, u64::MAX)] {
        let security = Arc::new(SecurityPolicy::default());
        let tool = GraphJinTool::new(security, "http://h".into(), told, 10, false);
        assert_eq!(tool.client_timeout_secs(), waits);
    }
}

#[test]
fn truncate_within_limit() {
    let tool = test_tool();
    let text = "hello world".to_string();
    assert_eq!(tool.truncate(text.clone()), text);
}

#[test]
fn truncate_over_limit() {
    let security = Arc::new(SecurityPolicy::default());
    let tool = GraphJinTool::new(security, "http://localhost:8080".into(), 30, 10, false);
    let text = "hello world this is a long string".to_string();
    let result = tool.truncate(text);
    assert!(result.len() <= 10 + 80); // limit + truncation message
    assert!(result.contains("[Response truncated"));
}

#[test]
fn limit_is_of_bytes_and_cut_is_of_characters() {
    let notice = "\n\n... [Response truncated due to size limit] ...";
    let tool = tool_showing(4);
    assert_eq!(tool.truncate("abcd".into()), "abcd");
    assert_eq!(tool.truncate("abcde".into()), format!("abcd{}", notice));
    assert_eq!(tool.truncate("\u{e9}\u{e9}".into()), "\u{e9}\u{e9}");
    assert_eq!(
        tool.truncate("\u{e9}\u{e9}\u{e9}".into()),
        format!("\u{e9}\u{e9}\u{e9}{}", notice)
    );
    assert_eq!(
        tool.truncate("\u{1f600}\u{1f600}xyz".into()),
        format!("\u{1f600}\u{1f600}xy{}", notice)
    );
    assert_eq!(tool_showing(0).truncate("".into()), "");
    assert_eq!(tool_showing(0).truncate("a".into()), notice);
}

#[test]
fn execute_missing_action_returns_error() {
    let tool = test_tool();
    let result = tool.execute(&object(vec![]));
    assert!(result.is_err());
    assert!(result.unwrap_err().message().contains("action"));
}

#[test]
fn execute_unknown_action_returns_error_in_output() {
    let tool = test_tool();
    let step = tool.execute(&object(vec![("action", text("fly"))])).unwrap();
    let result = finished(step);
    assert!(!result.success);
    assert!(result.error.unwrap().contains("Unknown action"));
}

#[test]
fn unknown_action_is_named_in_full() {
    let step = test_tool().execute(&object(vec![("action", text("Query"))])).unwrap();
    let result = finished(step);
    assert_eq!(result.output, "");
    assert_eq!(
        result.error.unwrap(),
        "Unknown action: 'Query'. Valid actions: list_tables, describe_table, query, mutate"
    );
}

#[test]
fn execute_query_missing_graphql_returns_error() {
    let tool = test_tool();
    let result = tool.execute(&object(vec![("action", text("query"))]));
    assert!(result.is_err());
    assert!(result.unwrap_err().message().contains("graphql"));
}

#[test]
fn execute_query_empty_graphql_returns_error() {
    let tool = test_tool();
    let result = tool.execute(&object(vec![("action", text("query")), ("graphql", text("   "))]));
    assert!(result.is_err());
    assert!(result.unwrap_err().message().contains("empty"));
}

#[test]
fn execute_describe_table_missing_table_returns_error() {
    let tool = test_tool();
    let result = tool.execute(&object(vec![("action", text("describe_table"))]));
    assert!(result.is_err());
    assert!(result.unwrap_err().message().contains("table"));
}

#[test]
fn execute_describe_table_empty_table_returns_error() {
    let tool = test_tool();
    let result = tool.execute(&object(vec![("action", text("describe_table")), ("table", text(""))]));
    assert!(result.is_err());
}

#[test]
fn each_argument_error_has_its_input_and_its_sentence() {
    let tool = test_tool_with_mutations();
    let blank = "\u{3000}\t\n";
    let cases = vec![
        (Json::Null, ArgumentError::MissingAction, "Missing required parameter: action"),
        (
            object(vec![("action", Json::Bool(true))]),
            ArgumentError::MissingAction,
            "Missing required parameter: action",
        ),
        (
            object(vec![("action", text("describe_table")), ("table", Json::Null)]),
            ArgumentError::MissingTable,
            "Missing required parameter: table (for describe_table)",
        ),
        (
            object(vec![("action", text("query")), ("table", text("t"))]),
            ArgumentError::MissingQuery,
            "Missing required parameter: graphql (for query)",
        ),
        (
            object(vec![("action", text("mutate"))]),
            ArgumentError::MissingMutation,
            "Missing required parameter: graphql (for mutate)",
        ),
        (
            object(vec![("action", text("describe_table")), ("table", text(blank))]),
            ArgumentError::EmptyTable,
            "Parameter 'table' cannot be empty",
        ),
        (
            object(vec![("action", text("mutate")), ("graphql", text(blank))]),
            ArgumentError::EmptyGraphql,
            "Parameter 'graphql' cannot be empty",
        ),
    ];
    for (args, error, sentence) in cases {
        let got = tool.execute(&args).unwrap_err();
        assert_eq!(got, error);
        assert_eq!(got.message(), sentence);
    }
}

#[test]
fn execute_mutate_blocked_when_mutations_disabled() {
    let tool = test_tool(); // allow_mutations = false
    let step = tool
        .execute(&object(vec![("action", text("mutate")), ("graphql", text(MUTATION))]))
        .unwrap();
    let result = finished(step);
    assert!(!result.success);
    assert!(result.error.unwrap().contains("allow_mutations"));
}

#[test]
fn disabled_mutations_are_answered_in_one_sentence_each() {
    let step = test_tool().action_mutate(MUTATION, None);
    assert_eq!(
        finished(step).error.unwrap(),
        "Mutations are disabled. Set [graphjin].allow_mutations = true in config.toml \
         to enable insert/update/delete operations."
    );
}

#[test]
fn execute_mutate_blocked_by_readonly_security() {
    let security = Arc::new(SecurityPolicy {
        autonomy: AutonomyLevel::ReadOnly,
        ..SecurityPolicy::default()
    });
    let tool = GraphJinTool::new(security, "http://localhost:8080".into(), 30, 1_000_000, true);
    let step = tool
        .execute(&object(vec![("action", text("mutate")), ("graphql", text(MUTATION))]))
        .unwrap();
    let result = finished(step);
    assert!(!result.success);
    assert!(result.error.unwrap().contains("read-only"));
}

#[test]
fn execute_mutate_blocked_by_rate_limit() {
    let security = Arc::new(SecurityPolicy {
        max_actions_per_hour: 0,
        ..SecurityPolicy::default()
    });
    let tool = GraphJinTool::new(security, "http://localhost:8080".into(), 30, 1_000_000, true);
    let step = tool
        .execute(&object(vec![("action", text("mutate")), ("graphql", text(MUTATION))]))
        .unwrap();
    let mutation = to_record(step);
    // The action just recorded is the first.
    let result = finished(tool.action_recorded(&mutation, 1));
    assert!(!result.success);
    assert!(result.error.unwrap().contains("rate limit"));
}

#[test]
fn mutation_within_the_rate_is_posted_as_asked() {
    let tool = test_tool_with_mutations();
    let args = object(vec![
        ("action", text("mutate")),
        ("graphql", text(MUTATION)),
        ("variables", object(vec![("email", text("a@b.com"))])),
    ]);
    let mutation = to_record(tool.execute(&args).unwrap());
    let (request, pending) = posted(tool.action_recorded(&mutation, 20));
    assert!(matches!(pending, Pending::Mutate));
    assert_eq!(request.payload.str_of("query"), Some(MUTATION));
    assert_eq!(request.payload.get("variables").unwrap().str_of("email"), Some("a@b.com"));
    let refused = finished(tool.action_recorded(&mutation, 21));
    assert_eq!(refused.error.unwrap(), "Action blocked: rate limit exceeded");
    assert_eq!(refused.output, "");
}

const ELSEWHERE: &str = "Action blocked: only the mutate action runs mutations, and only where \
                         [graphjin].allow_mutations = true in config.toml.";

#[test]
fn queries_that_hold_a_mutation_are_refused() {
    for tool in vec![test_tool(), test_tool_with_mutations()] {
        for document in vec![
            "mutation { users(insert: {id: 1}) { id } }",
            "{ users { id } } mutation { users(insert: {id: 1}) { id } }",
            "\"d\" mutation{a}",
            MUTATION,
        ] {
            let refused = finished(tool.action_query(document, None));
            assert!(!refused.success);
            assert_eq!(refused.output, "");
            assert_eq!(refused.error.unwrap(), ELSEWHERE);
            let args = object(vec![("action", text("query")), ("graphql", text(document))]);
            assert!(!finished(tool.execute(&args).unwrap()).success);
        }
    }
}

#[test]
fn queries_that_only_name_a_mutation_are_posted() {
    let tool = test_tool();
    for document in vec!["{ mutation { id } }", "query Q { a(b: \"} mutation { c }\") }", "{ mutations { id } }"] {
        let (request, pending) = posted(tool.action_query(document, None));
        assert!(matches!(pending, Pending::Query));
        assert_eq!(request.payload.str_of("query"), Some(document));
    }
}

#[test]
fn table_names_stand_in_the_document_as_they_are() {
    let tool = test_tool();
    for table in vec!["mutation", "} mutation {", "a\nb", "mutation_log", "\u{e9}", "a\\\"b", "x\"}} mutation"] {
        let (request, pending) = posted(tool.action_describe_table(table));
        assert!(matches!(pending, Pending::DescribeTable(ref t) if t == table));
        let query = request.payload.str_of("query").unwrap();
        assert!(query.contains(&format!("(name: \"{}\") {{", table)));
        let result = tool.finish(&pending, answer(200, "shown"));
        assert!(result.success);
        assert_eq!(result.output, "shown");
    }
}

#[test]
fn describing_an_ordinary_table_holds_no_mutation() {
    for table in vec!["users", "mutation", "} mutation { a }", "a b\nmutation"] {
        let (request, _) = posted(test_tool().action_describe_table(table));
        assert!(!has_mutation(request.payload.str_of("query").unwrap()));
    }
    let (request, _) = posted(test_tool().action_list_tables());
    assert!(!has_mutation(request.payload.str_of("query").unwrap()));
}

#[test]
fn mutations_are_held_to_the_tool_that_posts_them() {
    let mutation = to_record(test_tool_with_mutations().action_mutate(MUTATION, None));
    let disabled = finished(test_tool().action_recorded(&mutation, 1));
    assert!(disabled.error.unwrap().contains("Mutations are disabled"));
    let looking = GraphJinTool::new(
        Arc::new(SecurityPolicy { autonomy: AutonomyLevel::ReadOnly, max_actions_per_hour: 0 }),
        "http://h".into(),
        30,
        100,
        true,
    );
    let refused = finished(looking.action_recorded(&mutation, 1));
    assert_eq!(refused.error.unwrap(), "Action blocked: autonomy is read-only");
    posted(test_tool_with_mutations().action_recorded(&mutation, 1));
}

#[test]
fn looking_needs_no_permission() {
    let security = Arc::new(SecurityPolicy {
        autonomy: AutonomyLevel::ReadOnly,
        max_actions_per_hour: 0,
    });
    let tool = GraphJinTool::new(security, "http://h".into(), 30, 100, false);
    posted(tool.execute(&object(vec![("action", text("list_tables"))])).unwrap());
    posted(tool.execute(&object(vec![("action", text("describe_table")), ("table", text("t"))])).unwrap());
    posted(tool.execute(&object(vec![("action", text("query")), ("graphql", text("{ t { id } }"))])).unwrap());
}

#[test]
fn post_says_where_how_and_how_long() {
    let tool = test_tool();
    let (request, pending) = posted(tool.action_query("{ t { id } }", None));
    assert!(matches!(pending, Pending::Query));
    assert_eq!(request.url, "http://localhost:8080/api/v1/graphql");
    assert_eq!(request.timeout_secs, 30);
    assert_eq!(request.connect_timeout_secs, 10);
    let headers: Vec<(&str, &str)> =
        request.headers.iter().map(|(k, v)| (k.as_str(), v.as_str())).collect();
    assert_eq!(
        headers,
        vec![
            ("Content-Type", "application/json"),
            ("Accept", "application/json"),
            ("User-Agent", "ZeroClaw/1.0"),
        ]
    );
    assert_eq!(request.payload.str_of("query"), Some("{ t { id } }"));
    assert!(request.payload.get("variables").is_none());
}

#[test]
fn variables_are_sent_unless_null() {
    let tool = test_tool();
    let number = serde_json::Number::from(42u64);
    let variables = object(vec![
        ("id", Json::Number(number.clone())),
        ("tags", Json::Array(vec![text("a"), Json::Bool(false), Json::Null])),
    ]);
    let (request, _) = posted(tool.action_query("q", Some(&variables)));
    let sent = request.payload.get("variables").unwrap();
    match sent.get("id").unwrap() {
        Json::Number(n) => assert_eq!(*n, number),
        other => panic!("{:?}", other),
    }
    let tags = sent.get("tags").unwrap().as_array().unwrap();
    assert_eq!(tags.len(), 3);
    assert_eq!(tags[0].as_str(), Some("a"));
    assert!(matches!(tags[1], Json::Bool(false)));
    assert!(tags[2].is_null());

    let (request, _) = posted(tool.action_query("q", Some(&Json::Null)));
    assert!(request.payload.get("variables").is_none());
}

#[test]
fn describing_asks_for_the_type_by_name() {
    let args = object(vec![("action", text("describe_table")), ("table", text("users"))]);
    let (request, pending) = posted(test_tool().execute(&args).unwrap());
    assert!(matches!(pending, Pending::DescribeTable(ref t) if t == "users"));
    assert_eq!(
        request.payload.str_of("query").unwrap(),
        r#"
query IntrospectionQuery {
  __type(name: "users") {
    name
    kind
    description
    fields {
      name
      description
      type {
        name
        kind
        ofType { name kind }
      }
    }
  }
}
"#
    );
}

#[test]
fn listing_asks_for_the_query_root() {
    let args = object(vec![("action", text("list_tables"))]);
    let (request, pending) = posted(test_tool().execute(&args).unwrap());
    assert!(matches!(pending, Pending::ListTables));
    assert_eq!(
        request.payload.str_of("query").unwrap(),
        r#"
query IntrospectionQuery {
  __schema {
    queryType {
      fields {
        name
        description
        args {
          name
          type { name kind ofType { name kind } }
        }
      }
    }
  }
}
"#
    );
}

#[test]
fn list_tables_fails_gracefully_when_server_unreachable() {
    let security = Arc::new(SecurityPolicy::default());
    let tool = GraphJinTool::new(security, "http://127.0.0.1:19999".into(), 1, 1_000_000, false);
    let (request, pending) = posted(tool.action_list_tables());
    assert_eq!(request.url, "http://127.0.0.1:19999/api/v1/graphql");
    let result = tool.finish(&pending, PostOutcome::Failed("connection refused".into()));
    assert!(!result.success);
    assert!(result.error.is_some());
    let err = result.error.unwrap();
    assert!(err.contains("127.0.0.1:19999") || err.contains("Failed to connect"));
    assert_eq!(
        err,
        "Failed to connect to GraphJin at http://127.0.0.1:19999: connection refused. \
         Make sure GraphJin is running (graphjin serve) and [graphjin].api_url is correct."
    );
}

#[test]
fn failures_say_what_was_tried() {
    let tool = test_tool();
    let refused = |pending: Pending| tool.finish(&pending, answer(500, "oops"));
    let describe = refused(Pending::DescribeTable("users".into()));
    assert_eq!(
        describe.error.unwrap(),
        "Failed to describe table 'users': GraphJin returned HTTP 500: oops"
    );
    assert_eq!(describe.output, "");
    assert_eq!(
        refused(Pending::Query).error.unwrap(),
        "GraphQL query failed: GraphJin returned HTTP 500: oops"
    );
    assert_eq!(
        refused(Pending::Mutate).error.unwrap(),
        "GraphQL mutation failed: GraphJin returned HTTP 500: oops"
    );
}

#[test]
fn success_is_a_status_in_the_two_hundreds() {
    assert_eq!(receive(answer(200, "a")), Ok("a".to_string()));
    assert_eq!(receive(answer(299, "b")), Ok("b".to_string()));
    assert_eq!(receive(answer(199, "c")), Err("GraphJin returned HTTP 199: c".to_string()));
    assert_eq!(receive(answer(300, "")), Err("GraphJin returned HTTP 300: ".to_string()));
    assert_eq!(receive(PostOutcome::Failed("d".into())), Err("d".to_string()));
}

#[test]
fn answers_are_shown_within_the_limit() {
    let tool = tool_showing(5);
    let result = tool.finish(&Pending::Query, answer(200, "{\"a\":1}"));
    assert!(result.success);
    assert!(result.error.is_none());
    assert_eq!(
        result.output,
        "{\"a\":\n\n... [Response truncated due to size limit] ..."
    );
    let result = test_tool().finish(&Pending::Mutate, answer(201, "{\"a\":1}"));
    assert_eq!(result.output, "{\"a\":1}");
}

#[test]
fn spec_roundtrip() {
    let tool = test_tool();
    let spec = tool.tool_spec();
    assert_eq!(spec.name, "graphjin");
    assert_eq!(spec.description, tool.description());
    assert!(spec.parameters.is_object());
}

#[test]
fn policies_say_who_may_act_and_how_often() {
    let policy = SecurityPolicy::default();
    assert!(policy.can_act());
    assert!(policy.within_rate(20));
    assert!(!policy.within_rate(21));
    let looking = SecurityPolicy { autonomy: AutonomyLevel::ReadOnly, max_actions_per_hour: 3 };
    assert!(!looking.can_act());
    assert!(looking.within_rate(3));
}
