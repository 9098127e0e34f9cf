//! The list of tables, read from the answer to an introspection query.
use crate::json::Json;
use crate::json::JsonView;
use crate::text;
use crate::wording;
use vstd::prelude::*;

verus! {

broadcast use vstd::string::group_string_axioms;

/// The member of `json` under `key`, where there is such a value.
pub open spec fn under(json: Option<JsonView>, key: Seq<char>) -> Option<JsonView> {
    match json {
        Some(v) => v.get(key),
        None => None,
    }
}

/// The fields of the query root, where the answer has the shape of an introspection.
pub open spec fn query_fields(json: JsonView) -> Option<Seq<JsonView>> {
    let schema = under(under(Some(json), "data"@), "__schema"@);
    match under(under(schema, "queryType"@), "fields"@) {
        Some(JsonView::Array(fields)) => Some(fields),
        _ => None,
    }
}

/// The name of a field; a question mark where it has none.
pub open spec fn field_name(field: JsonView) -> Seq<char> {
    match field.text_of("name"@) {
        Some(name) => name,
        None => "?"@,
    }
}

/// The description of a field; nothing where it has none.
pub open spec fn field_description(field: JsonView) -> Seq<char> {
    text::text_or_empty(field.text_of("description"@))
}

/// Fields that only serve to page through a table are no tables.
pub open spec fn is_table(field: JsonView) -> bool {
    !text::ends_with(field_name(field), "_cursor"@)
}

/// The line that lists a field.
pub open spec fn field_line(field: JsonView) -> Seq<char> {
    let entry = "  - "@ + field_name(field);
    if field_description(field).len() == 0 {
        entry
    } else {
        entry + ": "@ + field_description(field)
    }
}

/// The heading over a list; it counts every field, listed or not.
pub open spec fn heading(count: nat) -> Seq<char> {
    "Available tables/views ("@ + text::decimal(count) + " total):"@
}

/// The lines of the list: the heading, then one line for each table.
pub open spec fn list_lines(fields: Seq<JsonView>) -> Seq<Seq<char>> {
    seq![heading(fields.len())] + fields.filter(|f: JsonView| is_table(f)).map_values(
        |f: JsonView| field_line(f),
    )
}

/// The list of the tables among `fields`.
pub open spec fn fields_text(fields: Seq<JsonView>) -> Seq<char> {
    if fields.len() == 0 {
        wording::NO_TABLES@
    } else {
        text::join(list_lines(fields), "\n"@)
    }
}

/// What is shown of an answer: the list of tables, or the answer itself, laid out
/// over several lines, where it is no introspection.
pub open spec fn table_list(json: JsonView) -> Seq<char> {
    match query_fields(json) {
        Some(fields) => fields_text(fields),
        None => text::text_or_empty(crate::json::pretty(json)),
    }
}

/// What is shown of an answer's text, given the value that was read from it: the list
/// of tables, or the text itself where no value could be read.
pub open spec fn listing(answer: Seq<char>, json: Option<JsonView>) -> Seq<char> {
    match json {
        Some(json) => table_list(json),
        None => answer,
    }
}

/// The fields of the query root, where the answer has the shape of an introspection.
pub fn find_fields(json: &Json) -> (r: Option<&Vec<Json>>)
    ensures
        match r {
            Some(fields) => query_fields(json@) == Some(crate::json::item_views(fields@)),
            None => query_fields(json@) is None,
        },
{
    match json.get("data") {
        Some(data) => match data.get("__schema") {
            Some(schema) => match schema.get("queryType") {
                Some(root) => match root.get("fields") {
                    Some(fields) => fields.as_array(),
                    None => None,
                },
                None => None,
            },
            None => None,
        },
        None => None,
    }
}

/// The line that lists a field, where the field is a table.
fn line_of(field: &Json) -> (r: Option<String>)
    ensures
        match r {
            Some(line) => is_table(field@) && line@ == field_line(field@),
            None => !is_table(field@),
        },
{
    let name: &str = match field.str_of("name") {
        Some(name) => name,
        None => "?",
    };
    proof {
        reveal_strlit("");
    }
    let description: &str = match field.str_of("description") {
        Some(description) => description,
        None => "",
    };
    assert(description@ == field_description(field@));
    if text::has_tail(name, "_cursor") {
        return None;
    }
    let mut line: String = "  - ".to_owned();
    line.append(name);
    if !description.is_empty() {
        line.append(": ");
        line.append(description);
    }
    Some(line)
}

/// The list of the tables among `fields`.
pub fn format_fields(fields: &Vec<Json>) -> (r: String)
    ensures
        r@ == fields_text(crate::json::item_views(fields@)),
{
    if fields.len() == 0 {
        return wording::NO_TABLES.to_owned();
    }
    let ghost all = crate::json::item_views(fields@);
    let ghost listed = |f: JsonView| is_table(f);
    let ghost shown = |f: JsonView| field_line(f);
    let mut top: String = "Available tables/views (".to_owned();
    top.append(text::decimal_text(fields.len()).as_str());
    top.append(" total):");
    let mut lines: Vec<String> = Vec::new();
    lines.push(top);
    let mut i: usize = 0;
    proof {
        reveal(Seq::filter);
    }
    assert(text::views(lines@) == seq![heading(all.len())] + all.take(0).filter(listed).map_values(
        shown,
    ));
    while i < fields.len()
        invariant
            i <= fields.len(),
            all == crate::json::item_views(fields@),
            listed == (|f: JsonView| is_table(f)),
            shown == (|f: JsonView| field_line(f)),
            text::views(lines@) == seq![heading(all.len())] + all.take(i as int).filter(
                listed,
            ).map_values(shown),
        decreases fields.len() - i,
    {
        let ghost before = lines@;
        let ghost kept = all.take(i as int).filter(listed);
        proof {
            reveal(Seq::filter);
            assert(all.take(i + 1).drop_last() == all.take(i as int));
            assert(all.take(i + 1).last() == fields@[i as int]@);
        }
        if let Some(line) = line_of(&fields[i]) {
            lines.push(line);
            proof {
                assert(text::views(lines@) == text::views(before).push(line@));
                assert(kept.push(all[i as int]).map_values(shown) == kept.map_values(shown).push(
                    line@,
                ));
            }
        }
        i = i + 1;
    }
    assert(all.take(i as int) == all);
    text::join_texts(&lines, "\n")
}

/// What is shown of an answer to the introspection query.
pub fn format_table_list(json: &Json) -> (r: String)
    ensures
        r@ == table_list(json@),
{
    match find_fields(json) {
        Some(fields) => format_fields(fields),
        None => text::or_empty(crate::json::to_pretty(json)),
    }
}

/// What is shown of an answer's text, given the value that was read from it.
pub fn show_answer(answer: String, json: Option<Json>) -> (r: String)
    ensures
        r@ == listing(
            answer@,
            match json {
                Some(json) => Some(json@),
                None => None,
            },
        ),
{
    match json {
        Some(json) => format_table_list(&json),
        None => answer,
    }
}

/// What is shown of an answer's text to the introspection query.
pub fn list_answer(answer: String) -> (r: String)
    ensures
        r@ == listing(answer@, crate::json::parsed(answer@)),
        answer@.len() > 0 && answer@.last() == '.' ==> r@ == answer@,
{
    let json = crate::json::parse(answer.as_str());
    show_answer(answer, json)
}

} // verus!
