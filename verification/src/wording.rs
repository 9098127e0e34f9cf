//! The fixed texts of the tool: addresses, documents and sentences.
use vstd::prelude::*;

verus! {

/// Where a GraphJin service takes GraphQL documents.
pub const ENDPOINT: &'static str = "/api/v1/graphql";

/// What is put behind an answer that had to be cut.
pub const CUT_NOTICE: &'static str = "\n\n... [Response truncated due to size limit] ...";

/// Asks for the fields of the query root. A service exposes each table as one of them.
pub const LIST_QUERY: &'static str = "
query IntrospectionQuery {
  __schema {
    queryType {
      fields {
        name
        description
        args {
          name
          type { name kind ofType { name kind } }
        }
      }
    }
  }
}
";

/// Asks for the columns of a type: what stands before the type's name.
pub const DESCRIBE_HEAD: &'static str = "
query IntrospectionQuery {
  __type(name: \"";

/// Asks for the columns of a type: what stands behind the type's name.
pub const DESCRIBE_TAIL: &'static str = "\") {
    name
    kind
    description
    fields {
      name
      description
      type {
        name
        kind
        ofType { name kind }
      }
    }
  }
}
";

/// The answer to a mutation where the tool was set up without them.
pub const MUTATIONS_DISABLED: &'static str =
    "Mutations are disabled. Set [graphjin].allow_mutations = true in config.toml \
    to enable insert/update/delete operations.";

/// The answer to a query that holds a mutation.
pub const MUTATION_ELSEWHERE: &'static str =
    "Action blocked: only the mutate action runs mutations, and only where \
    [graphjin].allow_mutations = true in config.toml.";

/// The answer to a mutation where the agent may only look.
pub const READ_ONLY: &'static str = "Action blocked: autonomy is read-only";

/// The answer to a mutation where the agent has acted too often.
pub const RATE_EXCEEDED: &'static str = "Action blocked: rate limit exceeded";

/// What is put behind the reason why the tables could not be listed.
pub const CONNECT_HINT: &'static str =
    ". Make sure GraphJin is running (graphjin serve) and [graphjin].api_url is correct.";

/// The answer where the service knows no table at all.
pub const NO_TABLES: &'static str =
    "No tables found. Make sure GraphJin is connected to a database.";

/// What the tool tells an agent of itself.
pub const DESCRIPTION: &'static str =
    "Query databases via GraphJin — a service that converts GraphQL to optimised SQL. \
    Use `list_tables` to discover available tables, `describe_table` to see columns \
    and relationships, `query` to read data, and `mutate` to write data (if enabled). \
    \n\nGraphQL query syntax reference:\
    \n- Basic query: `{ products(limit: 5) { id name price } }`\
    \n- Filter:      `{ products(where: { price: { gt: 10 } }) { id name } }`\
    \n- Operators:   eq, neq, gt, gte, lt, lte, in, nin, iregex, is_null\
    \n- Logic:       and, or, not — e.g. `{ p(where: { and: [ {price:{gt:5}}, {price:{lt:100}} ] }) { id } }`\
    \n- Order:       `{ products(order_by: { price: desc }) { id } }`\
    \n- Pagination:  `{ products(limit: 10, offset: 20) { id } }` or cursor-based with `first`/`after`\
    \n- Relations:   `{ users { email products { name price } } }` (auto-joined via foreign keys)\
    \n- Aggregates:  `{ products { count_id sum_price avg_price max_price } }`\
    \n- Full-text:   `{ products(search: \"keyword\") { id name } }`\
    \n- Mutations:   `mutation { products(insert: { name: \"X\", price: 9.99 }) { id } }`";

/// What the parameter `action` is for.
pub const ACTION_PARAMETER: &'static str =
    "Action to perform. Use list_tables/describe_table for schema discovery before writing queries.";

/// What the parameter `table` is for.
pub const TABLE_PARAMETER: &'static str =
    "Table name to describe (required for describe_table action)";

/// What the parameter `graphql` is for.
pub const GRAPHQL_PARAMETER: &'static str =
    "GraphQL query or mutation string (required for query/mutate actions)";

/// What the parameter `variables` is for.
pub const VARIABLES_PARAMETER: &'static str =
    "Optional variables map for the GraphQL query (e.g. {\"id\": 42})";

} // verus!
