//! A tool that lets an agent work on a database through a GraphJin service.
//!
//! `tool` decides, step by step, what a call of the tool does and what its result is;
//! `exchange` holds what passes between the tool, its caller and the service; `tables`
//! turns an introspection into a list of tables; `document` tells
//! which GraphQL documents hold a mutation; `schema` tells an agent how the tool is
//! called; `security` says what it may do; `json` and `text` are the values all of them
//! work on, and `wording` their fixed texts. `laws` states what holds of them together.
//! `laws_calls`, `laws_replies`, `laws_tables`, `laws_documents`, `laws_json` and
//! `laws_text` say, in terms of plain values, what each of them makes of its input, and
//! `laws_operations` what the operations hand back.

pub mod document;
pub mod exchange;
pub mod json;
pub mod laws;
pub mod laws_calls;
pub mod laws_documents;
pub mod laws_json;
pub mod laws_operations;
pub mod laws_replies;
pub mod laws_tables;
pub mod laws_text;
pub mod schema;
pub mod security;
pub mod tables;
pub mod text;
pub mod tool;
pub mod wording;
