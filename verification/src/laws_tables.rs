//! What the list of tables says, in terms of the fields that the service named.
use crate::json::JsonView;
use crate::tables;
use crate::text;
use vstd::prelude::*;

verus! {

broadcast use vstd::string::group_string_axioms;

/// The fields are taken from `data`, `__schema`, `queryType` and `fields`, one inside the
/// other, where a list stands there. Any other answer is shown as it is laid out.
pub proof fn law_where_fields_are(json: JsonView)
    ensures
        ({
            let data = json.get("data"@);
            let schema = data->0.get("__schema"@);
            let root = schema->0.get("queryType"@);
            let fields = root->0.get("fields"@);
            let found = data is Some && schema is Some && root is Some && fields is Some
                && fields->0 is Array;
            &&& found ==> tables::query_fields(json) == Some(fields->0->Array_0)
            &&& found ==> tables::table_list(json) == tables::fields_text(fields->0->Array_0)
            &&& !found ==> tables::query_fields(json) is None
            &&& !found && crate::json::pretty(json) is Some ==> tables::table_list(json)
                == crate::json::pretty(json)->0
            &&& !found && crate::json::pretty(json) is None ==> tables::table_list(json).len() == 0
        }),
{
}

/// What is shown of an answer that was read is its list, and else the answer itself.
pub proof fn law_listing(answer: Seq<char>, json: JsonView)
    ensures
        tables::listing(answer, Some(json)) == tables::table_list(json),
        tables::listing(answer, None) == answer,
{
}

/// The heading of a list of `count` fields.
pub open spec fn top(count: nat) -> Seq<char> {
    "Available tables/views ("@ + text::decimal(count) + " total):"@
}

/// The name of a field, or a question mark where no text stands there.
pub open spec fn name(field: JsonView) -> Seq<char> {
    match field.get("name"@) {
        Some(JsonView::Text(t)) => t,
        _ => "?"@,
    }
}

/// The description of a field, or nothing where no text stands there.
pub open spec fn description(field: JsonView) -> Seq<char> {
    match field.get("description"@) {
        Some(JsonView::Text(t)) => t,
        _ => Seq::empty(),
    }
}

/// The last seven characters of the name are `_cursor`.
pub open spec fn pages(field: JsonView) -> bool {
    name(field).len() >= 7 && name(field).skip(name(field).len() - 7) == "_cursor"@
}

/// The line of a field in the list, with its line break: nothing for a field that pages.
pub open spec fn entry(field: JsonView) -> Seq<char> {
    if pages(field) {
        Seq::empty()
    } else if description(field) == Seq::<char>::empty() {
        "\n"@ + "  - "@ + name(field)
    } else {
        "\n"@ + "  - "@ + name(field) + ": "@ + description(field)
    }
}

/// One more field adds one to the count in the heading, and its own line at the end of the
/// list: none if and only if the last seven characters of its name are `_cursor`. A list
/// starts with its heading, and without fields there is none.
pub proof fn law_one_more_field(fields: Seq<JsonView>, field: JsonView)
    ensures
        tables::fields_text(Seq::empty())
            == "No tables found. Make sure GraphJin is connected to a database."@,
        tables::fields_text(seq![field]) == top(1) + entry(field),
        fields.len() > 0 ==> {
            let before = tables::fields_text(fields);
            let head = top(fields.len()).len() as int;
            &&& head <= before.len()
            &&& before.take(head) == top(fields.len())
            &&& tables::fields_text(fields.push(field)) == top(fields.len() + 1) + before.skip(head)
                + entry(field)
        },
        entry(field).len() == 0 <==> name(field).len() >= 7 && name(field).skip(
            name(field).len() - 7,
        ) == "_cursor"@,
{
    reveal_strlit("\n");
    assert("\n"@.len() == 1);
    lemma_list(seq![field]);
    assert(seq![field].drop_last() == Seq::<JsonView>::empty());
    reveal_with_fuel(entries, 2);
    assert(entries(seq![field]) == entry(field));
    if fields.len() > 0 {
        lemma_list(fields);
        lemma_list(fields.push(field));
        assert(fields.push(field).drop_last() == fields);
        let before = tables::fields_text(fields);
        let head = top(fields.len()).len() as int;
        assert(before.take(head) == top(fields.len()));
        assert(before.skip(head) == entries(fields));
        assert(top(fields.len() + 1) + before.skip(head) + entry(field) == top(fields.len() + 1) + (
        entries(fields) + entry(field)));
    }
}

/// The lines of the fields, one after the other.
spec fn entries(fields: Seq<JsonView>) -> Seq<char>
    decreases fields.len(),
{
    if fields.len() == 0 {
        Seq::empty()
    } else {
        entries(fields.drop_last()) + entry(fields.last())
    }
}

/// The list is its heading with the lines of the fields behind it.
proof fn lemma_list(fields: Seq<JsonView>)
    requires
        fields.len() > 0,
    ensures
        tables::fields_text(fields) == top(fields.len()) + entries(fields),
{
    let listed = |f: JsonView| tables::is_table(f);
    let shown = |f: JsonView| tables::field_line(f);
    lemma_lines(fields);
    lemma_join_behind(top(fields.len()), fields.filter(listed).map_values(shown));
}

/// Each line, with a line break before it.
spec fn broken(lines: Seq<Seq<char>>) -> Seq<char>
    decreases lines.len(),
{
    if lines.len() == 0 {
        Seq::empty()
    } else {
        broken(lines.drop_last()) + "\n"@ + lines.last()
    }
}

/// Lines joined behind a first one each come behind a line break.
proof fn lemma_join_behind(start: Seq<char>, lines: Seq<Seq<char>>)
    ensures
        text::join(seq![start] + lines, "\n"@) == start + broken(lines),
    decreases lines.len(),
{
    let all = seq![start] + lines;
    if lines.len() == 0 {
        assert(all == seq![start]);
        assert(start + broken(lines) == start);
    } else {
        lemma_join_behind(start, lines.drop_last());
        assert(all.drop_last() == seq![start] + lines.drop_last());
        assert(all.last() == lines.last());
        assert(start + broken(lines.drop_last()) + "\n"@ + lines.last() == start + broken(lines));
    }
}

/// The lines that are listed are those of the fields that do not page.
proof fn lemma_lines(fields: Seq<JsonView>)
    ensures
        broken(
            fields.filter(|f: JsonView| tables::is_table(f)).map_values(
                |f: JsonView| tables::field_line(f),
            ),
        ) == entries(fields),
    decreases fields.len(),
{
    let listed = |f: JsonView| tables::is_table(f);
    let shown = |f: JsonView| tables::field_line(f);
    reveal(Seq::filter);
    if fields.len() == 0 {
        assert(fields.filter(listed).map_values(shown) == Seq::<Seq<char>>::empty());
    } else {
        let rest = fields.drop_last();
        let field = fields.last();
        lemma_lines(rest);
        lemma_entry(field);
        let kept = rest.filter(listed);
        if tables::is_table(field) {
            let lines = kept.push(field).map_values(shown);
            assert(lines.drop_last() == kept.map_values(shown));
            assert(lines.last() == tables::field_line(field));
            assert(broken(kept.map_values(shown)) + "\n"@ + tables::field_line(field) == entries(
                rest,
            ) + entry(field));
        } else {
            assert(entries(rest) + entry(field) == entries(rest));
        }
    }
}

/// The line of a field is what the list has for it.
proof fn lemma_entry(field: JsonView)
    ensures
        tables::is_table(field) <==> !pages(field),
        tables::is_table(field) ==> entry(field) == "\n"@ + tables::field_line(field),
{
    reveal_strlit("_cursor");
    assert("_cursor"@.len() == 7);
    crate::laws_text::law_ends_with(tables::field_name(field), "_cursor"@);
    assert(tables::field_name(field) == name(field));
    assert(tables::field_description(field) == description(field));
    if tables::is_table(field) {
        if description(field).len() == 0 {
            assert(description(field) == Seq::<char>::empty());
            assert("\n"@ + "  - "@ + name(field) == "\n"@ + tables::field_line(field));
        } else {
            assert("\n"@ + "  - "@ + name(field) + ": "@ + description(field) == "\n"@
                + tables::field_line(field));
        }
    }
}

/// Every field whose name does not end with `_cursor` has a line of its own in the list: a
/// line break, the dash, its name and, where there is one, its description.
pub proof fn law_every_table_has_its_line(fields: Seq<JsonView>, i: int, line: Seq<char>)
    requires
        0 <= i < fields.len(),
        name(fields[i]).len() < 7 || name(fields[i]).skip(name(fields[i]).len() - 7) != "_cursor"@,
        description(fields[i]).len() == 0 ==> line == "\n"@ + "  - "@ + name(fields[i]),
        description(fields[i]).len() > 0 ==> line == "\n"@ + "  - "@ + name(fields[i]) + ": "@
            + description(fields[i]),
    ensures
        exists|at: int|
            0 <= at <= tables::fields_text(fields).len() - line.len() && #[trigger] (
            tables::fields_text(fields).subrange(at, at + line.len())) == line,
{
    lemma_list(fields);
    lemma_entries_hold(fields, i);
    if description(fields[i]).len() == 0 {
        assert(description(fields[i]) == Seq::<char>::empty());
    }
    assert(line == entry(fields[i]));
    let list = tables::fields_text(fields);
    let all = entries(fields);
    let at = choose|at: int|
        0 <= at <= all.len() - line.len() && #[trigger] all.subrange(at, at + line.len()) == line;
    let place = top(fields.len()).len() + at;
    assert(list.subrange(place, place + line.len()) == all.subrange(at, at + line.len()));
}

/// The line of a field stands among the lines of the fields.
proof fn lemma_entries_hold(fields: Seq<JsonView>, i: int)
    requires
        0 <= i < fields.len(),
    ensures
        ({
            let line = entry(fields[i]);
            let all = entries(fields);
            exists|at: int|
                0 <= at <= all.len() - line.len() && #[trigger] all.subrange(at, at + line.len())
                    == line
        }),
    decreases fields.len(),
{
    let line = entry(fields[i]);
    let all = entries(fields);
    let rest = entries(fields.drop_last());
    if i == fields.len() - 1 {
        assert(all.subrange(rest.len() as int, all.len() as int) == line);
    } else {
        lemma_entries_hold(fields.drop_last(), i);
        let at = choose|at: int|
            0 <= at <= rest.len() - line.len() && #[trigger] rest.subrange(at, at + line.len())
                == line;
        assert(all.subrange(at, at + line.len()) == line);
    }
}

} // verus!
