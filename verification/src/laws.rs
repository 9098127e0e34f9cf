//! What holds of the tool as a whole.
use crate::document;
use crate::exchange;
use crate::exchange::ArgumentError;
use crate::exchange::PostOutcomeView;
use crate::json;
use crate::json::JsonView;
use crate::schema;
use crate::security::SecurityPolicy;
use crate::tables;
use crate::text;
use crate::tool;
use crate::tool::MutationView;
use crate::tool::PendingView;
use crate::tool::StepView;
use crate::tool::ToolView;
use crate::wording;
use vstd::prelude::*;

verus! {

broadcast use vstd::string::group_string_axioms;

/// Trimming takes away nothing but the run of `c` at the end, and all of it.
pub proof fn law_trimming(s: Seq<char>, c: char)
    ensures
        text::without_trailing(s, c).len() <= s.len(),
        text::without_trailing(s, c) == s.take(text::without_trailing(s, c).len() as int),
        forall|i: int|
            text::without_trailing(s, c).len() <= i < s.len() ==> #[trigger] s[i] == c,
        text::without_trailing(s, c).len() > 0 ==> text::without_trailing(s, c).last() != c,
    decreases s.len(),
{
    if s.len() > 0 && s.last() == c {
        law_trimming(s.drop_last(), c);
        let kept = text::without_trailing(s, c);
        assert(s.drop_last().take(kept.len() as int) == s.take(kept.len() as int));
        assert forall|i: int| kept.len() <= i < s.len() implies #[trigger] s[i] == c by {
            if i < s.len() - 1 {
                assert(s.drop_last()[i] == c);
            }
        }
    }
}

/// Documents are always posted to an address that names the endpoint.
pub proof fn law_endpoint_is_named(tool: ToolView)
    ensures
        text::contains(tool.endpoint(), wording::ENDPOINT@),
{
    let part = wording::ENDPOINT@;
    if !text::contains(tool.api_url, part) {
        let at = tool.api_url.len() as int;
        assert((tool.api_url + part).subrange(at, at + part.len()) == part);
        assert(text::occurs_at(tool.endpoint(), part, at));
    }
}

/// Trimming takes off any run of `c` that was put behind a text that does not end with it.
pub proof fn law_trimming_undoes(s: Seq<char>, c: char, n: nat)
    requires
        s.len() > 0 ==> s.last() != c,
    ensures
        text::without_trailing(s + text::run(c, n), c) == s,
    decreases n,
{
    let longer = s + text::run(c, n);
    if n == 0 {
        assert(longer == s);
    } else {
        let fewer = (n - 1) as nat;
        assert(longer.last() == c);
        assert(longer.drop_last() == s + text::run(c, fewer));
        law_trimming_undoes(s, c, fewer);
    }
}

/// A tool that is given the full endpoint of another, with any number of slashes
/// behind it, posts to that same endpoint.
pub proof fn law_endpoint_is_stable(
    first: ToolView,
    slashes: nat,
    security: SecurityPolicy,
    timeout_secs: u64,
    max_response_size: usize,
    allow_mutations: bool,
)
    requires
        first.well_formed(),
    ensures
        tool::configured(
            security,
            first.endpoint() + text::run('/', slashes),
            timeout_secs,
            max_response_size,
            allow_mutations,
        ).endpoint() == first.endpoint(),
{
    let url = first.endpoint();
    law_endpoint_is_named(first);
    assert(url.len() > 0 ==> url.last() != '/') by {
        reveal_strlit("/api/v1/graphql");
        if !text::contains(first.api_url, wording::ENDPOINT@) {
            assert(url.last() == wording::ENDPOINT@.last());
        }
    }
    law_trimming_undoes(url, '/', slashes);
}

/// A tool waits as long as it was told to, and at least a second.
pub proof fn law_waiting(
    security: SecurityPolicy,
    api_url: Seq<char>,
    timeout_secs: u64,
    max_response_size: usize,
    allow_mutations: bool,
)
    ensures
        ({
            let made = tool::configured(
                security,
                api_url,
                timeout_secs,
                max_response_size,
                allow_mutations,
            );
            &&& made.wait_secs() >= 1
            &&& timeout_secs >= 1 ==> made.wait_secs() == timeout_secs
        }),
{
}

/// A text has at least as many bytes as characters.
proof fn lemma_bytes_of_chars(s: Seq<char>)
    ensures
        s.len() <= text::byte_len(s),
    decreases s.len(),
{
    if s.len() > 0 {
        lemma_bytes_of_chars(s.drop_first());
        vstd::utf8::char_is_scalar(s[0]);
    }
}

/// A text within the size limit is shown as it is; of any other, a beginning is shown,
/// with the notice behind it. What is shown has no more characters than the limit and
/// the notice together.
pub proof fn law_shown(tool: ToolView, full: Seq<char>)
    ensures
        text::byte_len(full) <= tool.max_response_size ==> tool.shown(full) == full,
        text::byte_len(full) > tool.max_response_size ==> {
            let shown = tool.shown(full);
            &&& text::ends_with(shown, wording::CUT_NOTICE@)
            &&& shown.take(shown.len() - wording::CUT_NOTICE@.len()).is_prefix_of(full)
        },
        tool.shown(full).len() <= tool.max_response_size + wording::CUT_NOTICE@.len(),
{
    lemma_bytes_of_chars(full);
    let notice = wording::CUT_NOTICE@;
    let kept = text::first(full, tool.max_response_size as nat);
    assert((kept + notice).subrange(kept.len() as int, (kept + notice).len() as int) == notice);
    assert((kept + notice).take(kept.len() as int) == kept);
}

/// Of an ASCII text, no more bytes are shown than the limit and the notice have together.
pub proof fn law_shown_bytes(tool: ToolView, full: Seq<char>)
    requires
        vstd::utf8::is_ascii_chars(full),
    ensures
        text::byte_len(tool.shown(full)) <= tool.max_response_size + 48,
{
    broadcast use vstd::utf8::is_ascii_chars_encode_utf8;

    reveal_strlit("\n\n... [Response truncated due to size limit] ...");
    let notice = wording::CUT_NOTICE@;
    assert(notice.len() == 48);
    assert(vstd::utf8::is_ascii_chars(notice));
    let shown = tool.shown(full);
    assert(vstd::utf8::is_ascii_chars(shown));
    assert(text::byte_len(shown) == shown.len());
    law_shown(tool, full);
}

/// No call starts with posting a mutation: what the first step posts is a document that
/// holds none, unless it describes a table whose name itself brings one in. A mutation
/// is posted only once it has been recorded as an action.
pub proof fn law_first_post_only_reads(tool: ToolView, args: JsonView)
    requires
        args.text_of("action"@) == Some("describe_table"@) ==> match args.text_of("table"@) {
            Some(table) => !document::holds_mutation(tool::describe_query(table)),
            None => true,
        },
    ensures
        match tool.first_step(args) {
            Ok(StepView::Post(request, pending)) => {
                &&& !(pending is Mutate)
                &&& request.payload.text_of("query"@) is Some
                &&& !document::holds_mutation(request.payload.text_of("query"@)->0)
            },
            _ => true,
        },
{
    lemma_list_query_reads();
    law_payload(wording::LIST_QUERY@, None);
    match args.text_of("table"@) {
        Some(table) => law_payload(tool::describe_query(table), None),
        None => {},
    }
    match args.text_of("graphql"@) {
        Some(graphql) => law_payload(graphql, args.get("variables"@)),
        None => {},
    }
}

/// A query with words in it is posted if and only if the document holds no mutation,
/// whatever the settings; else the call ends in a refusal.
pub proof fn law_query_only_reads(tool: ToolView, args: JsonView)
    requires
        args.text_of("action"@) == Some("query"@),
        has_words(args, "graphql"@),
    ensures
        ({
            let graphql = args.text_of("graphql"@)->0;
            tool.first_step(args) == Ok::<StepView, ArgumentError>(
                if document::holds_mutation(graphql) {
                    StepView::Finished(exchange::failure(wording::MUTATION_ELSEWHERE@))
                } else {
                    StepView::Post(
                        tool.post(graphql, args.get("variables"@)),
                        PendingView::Query,
                    )
                },
            )
        }),
{
    lemma_actions_differ();
}

/// A document that begins with the word `mutation`, behind nothing but ignored characters,
/// comments and descriptions, holds a mutation.
pub proof fn law_mutation_word(document: Seq<char>, at: int)
    requires
        document::leads_to(document, 0, at),
        text::occurs_at(document, "mutation"@, at),
        at + 8 < document.len() ==> !document::is_name_char(document[at + 8]),
    ensures
        document::holds_mutation(document),
{
    reveal_strlit("mutation");
    assert("mutation"@.len() == 8);
    assert forall|i: int| at <= i < at + 8 implies document::is_name_char(
        #[trigger] document[i],
    ) by {
        assert(document.subrange(at, at + 8)[i - at] == document[i]);
    }
    lemma_name_run(document, at, at + 8);
    lemma_leads_to(document, 0, at);
}

/// A run of name characters ends where the characters end.
proof fn lemma_name_run(document: Seq<char>, at: int, end: int)
    requires
        0 <= at <= end <= document.len(),
        forall|i: int| at <= i < end ==> document::is_name_char(#[trigger] document[i]),
        end < document.len() ==> !document::is_name_char(document[end]),
    ensures
        document::name_end(document, at) == end,
    decreases end - at,
{
    if at < end {
        lemma_name_run(document, at + 1, end);
    }
}

/// What stands before a definition changes nothing.
proof fn lemma_leads_to(document: Seq<char>, from: int, at: int)
    requires
        document::leads_to(document, from, at),
        0 <= from,
        at < document.len(),
    ensures
        document::mutation_from(document, from, true, 0) == document::mutation_from(
            document,
            at,
            true,
            0,
        ),
    decreases at - from,
{
    if from != at {
        assert(document::name_end(document, from) == from);
        lemma_leads_to(document, document::token_end(document, from), at);
    }
}

/// A run of ignored characters leads from one end to the other.
pub proof fn law_ignored_characters_lead(document: Seq<char>, from: int, at: int)
    requires
        0 <= from <= at <= document.len(),
        forall|i: int| from <= i < at ==> document::is_ignored(#[trigger] document[i]),
    ensures
        document::leads_to(document, from, at),
    decreases at - from,
{
    if from < at {
        assert(document::is_ignored(document[from]));
        assert(document::token_end(document, from) == from + 1);
        law_ignored_characters_lead(document, from + 1, at);
    }
}

/// A document in which the word `mutation` does not occur holds no mutation.
pub proof fn law_without_the_word(document: Seq<char>)
    requires
        !text::contains(document, "mutation"@),
    ensures
        !document::holds_mutation(document),
{
    lemma_no_word_from(document, 0, true, 0);
}

/// Where the word does not occur from `at` on, no mutation starts from there.
proof fn lemma_no_word_from(document: Seq<char>, at: int, starts: bool, depth: nat)
    requires
        0 <= at,
        forall|i: int| at <= i ==> !text::occurs_at(document, "mutation"@, i),
    ensures
        !document::mutation_from(document, at, starts, depth),
    decreases document.len() - at,
{
    if at < document.len() {
        reveal_strlit("mutation");
        assert("mutation"@.len() == 8);
        document::lemma_token_end(document, at);
        if document::is_mutation_word(document, at) {
            document::lemma_name_end(document, at);
            assert(text::occurs_at(document, "mutation"@, at));
        }
        lemma_no_word_from(
            document,
            document::token_end(document, at),
            document::starts_behind(document[at], starts, depth),
            document::depth_behind(document[at], depth),
        );
    }
}

/// From `at` on, no `m` stands right before a `u`.
spec fn no_mu(s: Seq<char>, at: int) -> bool
    decreases s.len() - at,
{
    at + 1 >= s.len() || (!(s[at] == 'm' && s[at + 1] == 'u') && no_mu(s, at + 1))
}

/// Where no `m` stands right before a `u`, the word does not occur.
proof fn lemma_no_mu(s: Seq<char>, at: int, i: int)
    requires
        0 <= at <= i,
        no_mu(s, at),
    ensures
        !text::occurs_at(s, "mutation"@, i),
    decreases i - at,
{
    reveal_strlit("mutation");
    let word = "mutation"@;
    assert(word.len() == 8 && word[0] == 'm' && word[1] == 'u');
    if text::occurs_at(s, word, i) {
        assert(s.subrange(i, i + 8)[0] == s[i]);
        assert(s.subrange(i, i + 8)[1] == s[i + 1]);
        if at < i {
            lemma_no_mu(s, at + 1, i);
        }
    }
}

/// The document that lists the tables holds no mutation.
proof fn lemma_list_query_reads()
    ensures
        !document::holds_mutation(wording::LIST_QUERY@),
{
    let query = wording::LIST_QUERY@;
    assert(no_mu(query, 0)) by {
        reveal_strlit("
query IntrospectionQuery {
  __schema {
    queryType {
      fields {
        name
        description
        args {
          name
          type { name kind ofType { name kind } }
        }
      }
    }
  }
}
");
        reveal_with_fuel(no_mu, 42);
        assert(no_mu(query, 200));
        assert(no_mu(query, 160));
        assert(no_mu(query, 120));
        assert(no_mu(query, 80));
        assert(no_mu(query, 40));
    }
    assert forall|i: int| 0 <= i implies !text::occurs_at(query, "mutation"@, i) by {
        lemma_no_mu(query, 0, i);
    }
    lemma_no_word_from(query, 0, true, 0);
}

/// Without quotes and backslashes, a string goes on to the next quote.
proof fn lemma_plain_string(document: Seq<char>, at: int, end: int)
    requires
        0 <= at <= end < document.len(),
        document[end] == '"',
        forall|i: int|
            at <= i < end ==> (#[trigger] document[i]) != '"' && document[i] != '\\',
    ensures
        document::string_end(document, at) == end + 1,
    decreases end - at,
{
    if at < end {
        lemma_plain_string(document, at + 1, end);
    }
}

/// The document that describes a table holds no mutation where the table's name has neither
/// a quote nor a backslash in it.
pub proof fn law_describing_only_reads(table: Seq<char>)
    requires
        forall|i: int| 0 <= i < table.len() ==> (#[trigger] table[i]) != '"' && table[i] != '\\',
    ensures
        !document::holds_mutation(tool::describe_query(table)),
{
    let head = wording::DESCRIBE_HEAD@;
    let tail = wording::DESCRIBE_TAIL@;
    let query = tool::describe_query(table);
    let quote = 44 + table.len() as int;
    assert(head.len() == 44 && tail.len() > 2 && tail[0] == '"' && tail[1] == ')') by {
        reveal_strlit("
query IntrospectionQuery {
  __type(name: \"");
        reveal_strlit("\") {
    name
    kind
    description
    fields {
      name
      description
      type {
        name
        kind
        ofType { name kind }
      }
    }
  }
}
");
    }
    assert(forall|i: int| 0 <= i < 44 ==> query[i] == head[i]);
    assert(forall|i: int| 44 <= i < quote ==> query[i] == table[i - 44]);
    assert(forall|i: int| quote <= i < query.len() ==> query[i] == tail[i - quote]);
    assert(document::holds_mutation(query) == document::mutation_from(query, 43, false, 2)) by {
        reveal_strlit("
query IntrospectionQuery {
  __type(name: \"");
        lemma_name_run(query, 1, 6);
        lemma_name_run(query, 2, 6);
        lemma_name_run(query, 8, 25);
        lemma_name_run(query, 31, 36);
        lemma_name_run(query, 38, 41);
        reveal_with_fuel(document::mutation_from, 15);
    }
    lemma_plain_string(query, 44, quote);
    assert(!document::three_quotes(query, 43));
    assert(head[43] == '"') by {
        reveal_strlit("
query IntrospectionQuery {
  __type(name: \"");
    }
    assert(document::token_end(query, 43) == quote + 1);
    assert(no_mu(tail, 1)) by {
        reveal_strlit("\") {
    name
    kind
    description
    fields {
      name
      description
      type {
        name
        kind
        ofType { name kind }
      }
    }
  }
}
");
        reveal_with_fuel(no_mu, 42);
        assert(no_mu(tail, 160));
        assert(no_mu(tail, 120));
        assert(no_mu(tail, 80));
        assert(no_mu(tail, 40));
    }
    assert forall|i: int| quote + 1 <= i implies !text::occurs_at(query, "mutation"@, i) by {
        lemma_no_mu(tail, 1, i - quote);
        reveal_strlit("mutation");
        assert("mutation"@.len() == 8);
        if text::occurs_at(query, "mutation"@, i) {
            assert(query.subrange(i, i + 8) == tail.subrange(i - quote, i - quote + 8));
        }
    }
    lemma_no_word_from(query, quote + 1, false, 2);
}

/// An action is recorded only for a mutation that the settings and the agent's autonomy
/// allow; it is for the mutation that was asked for.
pub proof fn law_mutation_is_allowed(tool: ToolView, args: JsonView)
    ensures
        match tool.first_step(args) {
            Ok(StepView::RecordAction(mutation)) => {
                &&& tool.allow_mutations
                &&& tool.security.may_act()
                &&& args.text_of("action"@) == Some("mutate"@)
                &&& args.text_of("graphql"@) == Some(mutation.graphql)
                &&& args.get("variables"@) == mutation.variables
            },
            _ => true,
        },
{
}

/// Whichever tool made a mutation, a tool posts it only where its own settings and its
/// agent's autonomy allow it and it is within the rate limit, and then as it was asked
/// for. Else the call ends in a refusal that names the first of the three that is missing.
pub proof fn law_recorded_mutation(tool: ToolView, mutation: MutationView, recorded: int)
    ensures
        match tool.recorded_step(mutation, recorded) {
            StepView::Post(request, pending) => {
                &&& tool.allow_mutations
                &&& tool.security.may_act()
                &&& recorded <= tool.security.max_actions_per_hour
                &&& request == tool.post(mutation.graphql, mutation.variables)
                &&& pending is Mutate
            },
            StepView::Finished(result) => {
                ||| !tool.allow_mutations && result == exchange::failure(
                    wording::MUTATIONS_DISABLED@,
                )
                ||| tool.allow_mutations && !tool.security.may_act() && result
                    == exchange::failure(wording::READ_ONLY@)
                ||| tool.allow_mutations && tool.security.may_act() && recorded
                    > tool.security.max_actions_per_hour && result == exchange::failure(
                    wording::RATE_EXCEEDED@,
                )
            },
            StepView::RecordAction(_) => false,
        },
{
}

/// A mutation with words in it is posted if and only if the settings allow mutations, the
/// agent may act, and the action that is recorded for it is within the rate limit; it is
/// posted with the words and the variables of the call.
pub proof fn law_mutation_is_posted(tool: ToolView, args: JsonView, recorded: int)
    requires
        args.text_of("action"@) == Some("mutate"@),
        has_words(args, "graphql"@),
    ensures
        ({
            let allowed = tool.allow_mutations && tool.security.may_act()
                && tool.security.rate_allows(recorded);
            match tool.first_step(args) {
                Ok(StepView::RecordAction(mutation)) => tool.recorded_step(mutation, recorded)
                    == if allowed {
                    StepView::Post(
                        tool.post(args.text_of("graphql"@)->0, args.get("variables"@)),
                        PendingView::Mutate,
                    )
                } else {
                    StepView::Finished(exchange::failure(wording::RATE_EXCEEDED@))
                },
                Ok(StepView::Finished(_)) => !allowed,
                _ => false,
            }
        }),
{
    lemma_actions_differ();
}

/// Where no action at all is allowed, no mutation is ever posted: every count includes
/// the action just recorded.
pub proof fn law_no_actions_allowed(tool: ToolView, mutation: MutationView, recorded: int)
    requires
        tool.security.max_actions_per_hour == 0,
        recorded >= 1,
    ensures
        tool.recorded_step(mutation, recorded) is Finished,
{
}

/// Looking is not held to any limit: the first step of a call that is no mutation does
/// not depend on the settings for mutations nor on the security policy.
pub proof fn law_looking_is_free(
    tool: ToolView,
    args: JsonView,
    allow_mutations: bool,
    security: SecurityPolicy,
)
    requires
        args.text_of("action"@) != Some("mutate"@),
    ensures
        (ToolView { allow_mutations, security, ..tool }).first_step(args) == tool.first_step(args),
{
    let other = ToolView { allow_mutations, security, ..tool };
    assert(forall|q: Seq<char>, v: Option<JsonView>| other.post(q, v) == tool.post(q, v));
}

/// A call that ends without asking the service has failed: it says why, and gives no output.
pub proof fn law_refusals(tool: ToolView, args: JsonView)
    ensures
        match tool.first_step(args) {
            Ok(StepView::Finished(result)) => {
                !result.success && result.output.len() == 0 && result.error is Some
            },
            _ => true,
        },
{
}

/// A call that asked the service has succeeded if and only if the service answered with a
/// status of success. It gives an output without an error, or an error without an output.
pub proof fn law_replies(tool: ToolView, pending: PendingView, outcome: PostOutcomeView)
    ensures
        ({
            let result = tool.reply(pending, outcome);
            &&& result.success <==> (outcome matches PostOutcomeView::Response {
                status,
                body,
            } && 200 <= status <= 299)
            &&& result.success ==> result.error is None
            &&& !result.success ==> result.error is Some && result.output.len() == 0
        }),
{
}

/// A call is turned away for its arguments if and only if it names no action, or a known
/// action whose own parameter is missing, is no text, or is blank.
pub proof fn law_argument_errors(tool: ToolView, args: JsonView)
    ensures
        tool.first_step(args) is Err <==> match args.text_of("action"@) {
            None => true,
            Some(action) => {
                ||| action == "describe_table"@ && !has_words(args, "table"@)
                ||| (action == "query"@ || action == "mutate"@) && !has_words(args, "graphql"@)
            },
        },
{
    lemma_actions_differ();
}

/// The arguments hold a text that is not blank under `key`.
pub open spec fn has_words(args: JsonView, key: Seq<char>) -> bool {
    match args.text_of(key) {
        Some(words) => !text::is_blank(words),
        None => false,
    }
}

/// The names of the actions are different from each other.
pub proof fn lemma_actions_differ()
    ensures
        "list_tables"@ != "describe_table"@,
        "list_tables"@ != "query"@,
        "list_tables"@ != "mutate"@,
        "describe_table"@ != "query"@,
        "describe_table"@ != "mutate"@,
        "query"@ != "mutate"@,
{
    reveal_strlit("list_tables");
    reveal_strlit("describe_table");
    reveal_strlit("query");
    reveal_strlit("mutate");
    assert("list_tables"@.len() == 11);
    assert("describe_table"@.len() == 14);
    assert("query"@.len() == 5);
    assert("mutate"@.len() == 6);
}

/// The actions that the schema offers are the actions that the tool knows: a call for any
/// other is answered by saying so, and a call for one of these never is.
pub proof fn law_known_actions(tool: ToolView, args: JsonView, action: Seq<char>)
    requires
        args.text_of("action"@) == Some(action),
    ensures
        !schema::actions().contains(JsonView::Text(action)) <==> tool.first_step(args) == Ok::<
            StepView,
            ArgumentError,
        >(StepView::Finished(exchange::failure(tool::unknown_action(action)))),
{
    let known = schema::actions();
    assert(known[0] == JsonView::Text("list_tables"@));
    assert(known[1] == JsonView::Text("describe_table"@));
    assert(known[2] == JsonView::Text("query"@));
    assert(known[3] == JsonView::Text("mutate"@));
    reveal_strlit("Unknown action: '");
    reveal_strlit(
        "Mutations are disabled. Set [graphjin].allow_mutations = true in config.toml \
        to enable insert/update/delete operations.",
    );
    reveal_strlit("Action blocked: autonomy is read-only");
    assert(tool::unknown_action(action)[0] == 'U');
    assert(wording::MUTATIONS_DISABLED@[0] == 'M');
    assert(wording::READ_ONLY@[0] == 'A');
    reveal_strlit(
        "Action blocked: only the mutate action runs mutations, and only where \
        [graphjin].allow_mutations = true in config.toml.",
    );
    assert(wording::MUTATION_ELSEWHERE@[0] == 'A');
}

/// The document that is posted holds the query as it was given, and the variables as they
/// were given unless they are `null` or absent.
pub proof fn law_payload(query: Seq<char>, variables: Option<JsonView>)
    ensures
        exchange::payload(query, variables).get("query"@) == Some(JsonView::Text(query)),
        exchange::payload(query, variables).get("variables"@) == match variables {
            Some(JsonView::Null) => None,
            other => other,
        },
{
    reveal_strlit("query");
    reveal_strlit("variables");
    assert("query"@.len() == 5);
    assert("variables"@.len() == 9);
    reveal_with_fuel(json::member, 3);
    let members = exchange::payload(query, variables)->Object_0;
    assert(members[0] == ("query"@, JsonView::Text(query)));
}

/// Variables that are `null` are no variables.
pub proof fn law_null_variables(query: Seq<char>)
    ensures
        exchange::payload(query, Some(JsonView::Null)) == exchange::payload(query, None),
{
}

/// What is posted is a proper JSON object, where the variables are proper JSON.
pub proof fn law_payload_is_well_formed(query: Seq<char>, variables: Option<JsonView>)
    requires
        variables matches Some(v) ==> v.well_formed(),
    ensures
        exchange::payload(query, variables) is Object,
        exchange::payload(query, variables).well_formed(),
{
    reveal_with_fuel(JsonView::well_formed, 2);
    reveal_strlit("query");
    reveal_strlit("variables");
    assert("query"@.len() == 5);
    assert("variables"@.len() == 9);
}

/// The schema of the arguments is a proper JSON object.
pub proof fn law_schema_is_well_formed()
    ensures
        schema::argument_schema() is Object,
        schema::argument_schema().well_formed(),
{
    reveal_with_fuel(JsonView::well_formed, 2);
    reveal_strlit("type");
    reveal_strlit("enum");
    reveal_strlit("description");
    reveal_strlit("properties");
    reveal_strlit("required");
    reveal_strlit("action");
    reveal_strlit("table");
    reveal_strlit("graphql");
    reveal_strlit("variables");
    assert("type"@[0] == 't' && "enum"@[0] == 'e' && "description"@[0] == 'd');
    assert("properties"@[0] == 'p' && "required"@[0] == 'r');
    assert("action"@[0] == 'a' && "table"@[0] == 't');
    assert("graphql"@[0] == 'g' && "variables"@[0] == 'v');
    assert(JsonView::Array(schema::actions()).well_formed());
    assert(schema::action_parameter().well_formed());
    assert(schema::properties().well_formed()) by {
        let members = schema::properties()->Object_0;
        assert(schema::parameter("string"@, wording::TABLE_PARAMETER@).well_formed());
        assert(schema::parameter("string"@, wording::GRAPHQL_PARAMETER@).well_formed());
        assert(schema::parameter("object"@, wording::VARIABLES_PARAMETER@).well_formed());
        assert(json::keys_differ(members));
        assert forall|i: int| 0 <= i < members.len() implies (
        #[trigger] members[i]).1.well_formed() by {
            assert(i == 0 || i == 1 || i == 2 || i == 3);
        }
    }
    assert(JsonView::Array(seq![JsonView::Text("action"@)]).well_formed());
}

/// Members of an object are found by their key alone, in whatever order they stand: of
/// members with different keys, the one that has the key is found; without one, none is.
pub proof fn law_members(members: Seq<(Seq<char>, JsonView)>, key: Seq<char>)
    requires
        json::keys_differ(members),
    ensures
        forall|i: int|
            0 <= i < members.len() && (#[trigger] members[i]).0 == key ==> json::member(members, key)
                == Some(members[i].1),
        (forall|i: int| 0 <= i < members.len() ==> (#[trigger] members[i]).0 != key)
            ==> json::member(members, key) is None,
    decreases members.len(),
{
    if members.len() > 0 && members.last().0 != key {
        let rest = members.drop_last();
        assert forall|i: int, j: int| 0 <= i < j < rest.len() implies (#[trigger] rest[i]).0 != (
        #[trigger] rest[j]).0 by {
            assert(members[i].0 != members[j].0);
        }
        law_members(rest, key);
        assert forall|i: int|
            0 <= i < members.len() && (#[trigger] members[i]).0 == key implies json::member(
            members,
            key,
        ) == Some(members[i].1) by {
            assert(rest[i] == members[i]);
        }
        if forall|i: int| 0 <= i < members.len() ==> (#[trigger] members[i]).0 != key {
            assert forall|i: int| 0 <= i < rest.len() implies (#[trigger] rest[i]).0 != key by {
                assert(members[i].0 != key);
            }
        }
    }
}

/// What occurs in a part of a text occurs in the text.
proof fn lemma_contains_part(s: Seq<char>, part: Seq<char>, small: Seq<char>)
    requires
        text::contains(s, part),
        text::contains(part, small),
    ensures
        text::contains(s, small),
{
    let at = choose|at: int| text::occurs_at(s, part, at);
    let inner = choose|inner: int| text::occurs_at(part, small, inner);
    assert(s.subrange(at, at + part.len()).subrange(inner, inner + small.len()) == s.subrange(
        at + inner,
        at + inner + small.len(),
    ));
    assert(text::occurs_at(s, small, at + inner));
}

/// What is put between two texts occurs in the whole.
proof fn lemma_contains_middle(before: Seq<char>, part: Seq<char>, after: Seq<char>)
    ensures
        text::contains(before + part + after, part),
{
    let s = before + part + after;
    let at = before.len() as int;
    assert(s.subrange(at, at + part.len()) == part);
    assert(text::occurs_at(s, part, at));
}

/// Each of the joined lines occurs in the whole.
proof fn lemma_join_contains(lines: Seq<Seq<char>>, sep: Seq<char>, k: int)
    requires
        0 <= k < lines.len(),
    ensures
        text::contains(text::join(lines, sep), lines[k]),
    decreases lines.len(),
{
    let whole = text::join(lines, sep);
    let empty = Seq::<char>::empty();
    if lines.len() == 1 {
        lemma_contains_middle(empty, lines[0], empty);
        assert(empty + lines[0] + empty == whole);
    } else if k == lines.len() - 1 {
        lemma_contains_middle(text::join(lines.drop_last(), sep) + sep, lines[k], empty);
        assert(text::join(lines.drop_last(), sep) + sep + lines[k] + empty == whole);
    } else {
        let rest = text::join(lines.drop_last(), sep);
        lemma_join_contains(lines.drop_last(), sep, k);
        lemma_contains_middle(empty, rest, sep + lines.last());
        assert(empty + rest + (sep + lines.last()) == whole);
        lemma_contains_part(whole, rest, lines[k]);
    }
}

/// Every table is shown, with its name and its description.
pub proof fn law_tables_are_listed(fields: Seq<JsonView>, i: int)
    requires
        0 <= i < fields.len(),
        tables::is_table(fields[i]),
    ensures
        text::contains(tables::fields_text(fields), tables::field_line(fields[i])),
        text::contains(tables::fields_text(fields), tables::field_name(fields[i])),
        text::contains(tables::fields_text(fields), tables::field_description(fields[i])),
{
    let field = fields[i];
    let listed = |f: JsonView| tables::is_table(f);
    let shown = |f: JsonView| tables::field_line(f);
    let kept = fields.filter(listed);
    fields.lemma_filter_contains(listed, i);
    let k = choose|k: int| 0 <= k < kept.len() && kept[k] == field;
    let lines = tables::list_lines(fields);
    let line = tables::field_line(field);
    assert(lines[k + 1] == kept.map_values(shown)[k]);
    lemma_join_contains(lines, "\n"@, k + 1);
    let whole = tables::fields_text(fields);
    let name = tables::field_name(field);
    let description = tables::field_description(field);
    let empty = Seq::<char>::empty();
    if description.len() == 0 {
        lemma_contains_middle("  - "@, name, empty);
        assert("  - "@ + name + empty == line);
        assert(whole.subrange(0, 0) == description);
        assert(text::occurs_at(whole, description, 0));
    } else {
        lemma_contains_middle("  - "@, name, ": "@ + description);
        assert("  - "@ + name + (": "@ + description) == line);
        lemma_contains_middle("  - "@ + name + ": "@, description, empty);
        assert("  - "@ + name + ": "@ + description + empty == line);
        lemma_contains_part(whole, line, description);
    }
    lemma_contains_part(whole, line, name);
}

/// Keeping what was kept already changes nothing.
proof fn lemma_filter_twice(s: Seq<JsonView>, pred: spec_fn(JsonView) -> bool)
    ensures
        s.filter(pred).filter(pred) == s.filter(pred),
    decreases s.len(),
{
    reveal(Seq::filter);
    if s.len() > 0 {
        let rest = s.drop_last();
        lemma_filter_twice(rest, pred);
        if pred(s.last()) {
            let kept = rest.filter(pred).push(s.last());
            assert(kept.drop_last() == rest.filter(pred));
            assert(kept.last() == s.last());
        }
    } else {
        assert(s.filter(pred).filter(pred) == s.filter(pred));
    }
}

/// `line` is the line of a table among `fields`.
pub open spec fn lists_a_table(fields: Seq<JsonView>, line: Seq<char>) -> bool {
    exists|i: int|
        0 <= i < fields.len() && tables::is_table(#[trigger] fields[i]) && line
            == tables::field_line(fields[i])
}

/// Fields that only serve to page through a table are hidden: under the heading, the list
/// has the same lines with them as without them, and each line is that of a table.
pub proof fn law_cursors_are_hidden(fields: Seq<JsonView>)
    ensures
        tables::list_lines(fields).skip(1) == tables::list_lines(
            fields.filter(|f: JsonView| tables::is_table(f)),
        ).skip(1),
        forall|k: int|
            1 <= k < tables::list_lines(fields).len() ==> lists_a_table(
                fields,
                #[trigger] tables::list_lines(fields)[k],
            ),
{
    let listed = |f: JsonView| tables::is_table(f);
    let shown = |f: JsonView| tables::field_line(f);
    let kept = fields.filter(listed);
    let lines = tables::list_lines(fields);
    lemma_filter_twice(fields, listed);
    assert(lines.skip(1) == kept.map_values(shown));
    assert(tables::list_lines(kept).skip(1) == kept.map_values(shown));
    assert forall|k: int| 1 <= k < lines.len() implies lists_a_table(
        fields,
        #[trigger] lines[k],
    ) by {
        let field = kept[k - 1];
        fields.lemma_filter_pred(listed, k - 1);
        assert(kept.contains(field));
        fields.lemma_filter_contains_rev(listed, field);
        let i = choose|i: int| 0 <= i < fields.len() && fields[i] == field;
        assert(lines[k] == tables::field_line(fields[i]));
    }
}

} // verus!
