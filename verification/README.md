# graphjin

A tool that lets an agent work on a database through a GraphJin service: it lists and
describes tables, and runs GraphQL queries and, where that is allowed, mutations.

The library in `src/` decides everything and does no input or output. It is written in
Verus: each function carries a contract, and `src/laws.rs` states what holds of the tool
as a whole.

A call is a short run of steps. `GraphJinTool::execute` looks at the arguments and says
what comes first: a result, an action to record, or a document to post. The caller does it
and hands the outcome to `action_recorded` or `finish`, which go on from there.

- `tool`: the steps of a call and its result
- `exchange`: requests, outcomes, results and argument errors
- `tables`: the list of tables in the answer to an introspection query
- `document`: which GraphQL documents hold a mutation; a query may not
- `schema`: the tool's name, description and parameters
- `security`: what an agent may do, and how often
- `json`, `text`, `wording`: the values and the fixed texts that the others work on
- `laws`: what holds of all of them together

JSON text is read and laid out by `serde_json`; `src/json.rs` says what is taken from it
on trust.

`app/` is ordinary Rust around the library: it posts over HTTP, keeps the log of actions,
and offers the tool as an asynchronous trait.
