use graphjin::exchange::PostOutcome;
use graphjin::json::Json;
use graphjin::security::SecurityPolicy;
use graphjin::tables::{find_fields, format_fields, format_table_list, list_answer, show_answer};
use graphjin::tool::{GraphJinTool, Pending};
use std::sync::Arc;

fn text(t: &str) -> Json {
    Json::Text(t.to_string())
}

fn object(members: Vec<(&str, Json)>) -> Json {
    Json::Object(members.into_iter().map(|(k, v)| (k.to_string(), v)).collect())
}

fn field(name: &str, description: &str) -> Json {
    object(vec![("name", text(name)), ("description", text(description))])
}

fn introspection(fields: Json) -> Json {
    object(vec![(
        "data",
        object(vec![("__schema", object(vec![("queryType", object(vec![("fields", fields)]))]))]),
    )])
}

#[test]
fn format_table_list_with_empty_fields() {
    let json = introspection(Json::Array(vec![]));
    let result = format_table_list(&json);
    assert!(result.contains("No tables found"));
    assert_eq!(result, "No tables found. Make sure GraphJin is connected to a database.");
}

#[test]
fn format_table_list_with_fields() {
    let json = introspection(Json::Array(vec![
        field("products", "Product catalog"),
        field("users", ""),
        field("products_cursor", ""),
    ]));
    let result = format_table_list(&json);
    assert!(result.contains("products"));
    assert!(result.contains("Product catalog"));
    assert!(result.contains("users"));
    // Cursor fields should be hidden
    assert!(!result.contains("products_cursor"));
    assert_eq!(
        result,
        "Available tables/views (3 total):\n  - products: Product catalog\n  - users"
    );
}

#[test]
fn fields_without_name_or_description_are_listed() {
    let fields = vec![
        object(vec![]),
        object(vec![("name", Json::Null), ("description", text("odd"))]),
        object(vec![("name", text("t")), ("description", Json::Bool(true))]),
        text("no object"),
        field("_cursor", "hidden"),
        field("cursor_", "shown"),
    ];
    assert_eq!(
        format_fields(&fields),
        "Available tables/views (6 total):\n  - ?\n  - ?: odd\n  - t\n  - ?\n  - cursor_: shown"
    );
}

#[test]
fn heading_stands_alone_over_cursors() {
    let fields: Vec<Json> = (0..120).map(|_| field("a_cursor", "")).collect();
    assert_eq!(format_fields(&fields), "Available tables/views (120 total):");
}

#[test]
fn fields_are_found_only_at_their_place() {
    assert_eq!(find_fields(&introspection(Json::Array(vec![text("x")]))).unwrap().len(), 1);
    assert!(find_fields(&introspection(Json::Null)).is_none());
    assert!(find_fields(&object(vec![("data", Json::Array(vec![]))])).is_none());
    assert!(find_fields(&Json::Array(vec![])).is_none());
    assert!(find_fields(&object(vec![("errors", Json::Array(vec![]))])).is_none());
}

#[test]
fn other_answers_are_laid_out() {
    let json = object(vec![
        ("errors", Json::Array(vec![text("a\"b"), Json::Null])),
        ("code", Json::Number(serde_json::Number::from(7u64))),
        ("ok", Json::Bool(false)),
    ]);
    assert_eq!(
        format_table_list(&json),
        "{\n  \"code\": 7,\n  \"errors\": [\n    \"a\\\"b\",\n    null\n  ],\n  \"ok\": false\n}"
    );
}

#[test]
fn answers_are_read_as_json() {
    let body = r#"{"data":{"__schema":{"queryType":{"fields":[
        {"name":"orders","description":"All orders","args":[]},
        {"name":"orders_cursor","description":null,"args":[]},
        {"name":"items","description":null,"args":[{"name":"id","n":1.5}]}
    ]}}}}"#;
    assert_eq!(
        list_answer(body.to_string()),
        "Available tables/views (3 total):\n  - orders: All orders\n  - items"
    );
    assert_eq!(list_answer("not json".to_string()), "not json");
    for stopped in vec![".", "1.", "[1].", "\"a\".", "{} .", "true.", "12345678901234567890123."] {
        assert_eq!(list_answer(stopped.to_string()), stopped);
    }
    assert_eq!(list_answer(" [1,-2.5,true] ".to_string()), "[\n  1,\n  -2.5,\n  true\n]");
}

#[test]
fn answers_are_shown_by_what_was_read() {
    assert_eq!(show_answer("raw".to_string(), None), "raw");
    assert_eq!(
        show_answer("raw".to_string(), Some(introspection(Json::Array(vec![field("t", "")])))),
        "Available tables/views (1 total):\n  - t"
    );
}

#[test]
fn listing_reads_what_is_left_of_a_cut_answer() {
    let tool = |limit: usize| {
        GraphJinTool::new(Arc::new(SecurityPolicy::default()), "http://h".into(), 30, limit, false)
    };
    let body = r#"{"data":{"__schema":{"queryType":{"fields":[]}}}}"#;
    let answer = || PostOutcome::Response { status: 200, body: body.to_string() };
    let whole = tool(1000).finish(&Pending::ListTables, answer());
    assert!(whole.success);
    assert_eq!(
        whole.output,
        "No tables found. Make sure GraphJin is connected to a database."
    );
    let cut = tool(10).finish(&Pending::ListTables, answer());
    assert!(cut.success);
    assert_eq!(
        cut.output,
        "{\"data\":{\"\n\n... [Response truncated due to size limit] ..."
    );
    let shown = tool(1000).finish(&Pending::Query, answer());
    assert_eq!(shown.output, body);
}
