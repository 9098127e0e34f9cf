//! GraphQL documents: which of them hold a mutation.
//!
//! A document is read token by token. Brackets of all kinds nest. A definition starts at
//! the first token, or behind a brace that closes the outermost bracket. Strings that stand
//! there describe the definition: it starts behind them.
use crate::text;
use vstd::prelude::*;

verus! {

broadcast use vstd::string::group_string_axioms;

/// Characters that stand between tokens and mean nothing: white space, commas and the
/// byte order mark.
pub open spec fn is_ignored(c: char) -> bool {
    text::is_white_space(c) || c == ',' || c == '\u{feff}'
}

/// Characters that a name is made of.
pub open spec fn is_name_char(c: char) -> bool {
    c == '_' || 'a' <= c <= 'z' || 'A' <= c <= 'Z' || '0' <= c <= '9'
}

/// Where the run of name characters at `at` ends.
pub open spec fn name_end(document: Seq<char>, at: int) -> int
    decreases document.len() - at,
{
    if at < document.len() && is_name_char(document[at]) {
        name_end(document, at + 1)
    } else {
        at
    }
}

/// Where the line at `at` ends.
pub open spec fn line_end(document: Seq<char>, at: int) -> int
    decreases document.len() - at,
{
    if at < document.len() && document[at] != '\n' && document[at] != '\r' {
        line_end(document, at + 1)
    } else {
        at
    }
}

/// Where the string whose characters start at `at` ends: behind the next quote without a
/// backslash before it, or with the document.
pub open spec fn string_end(document: Seq<char>, at: int) -> int
    decreases document.len() - at,
{
    if at >= document.len() {
        document.len() as int
    } else if document[at] == '"' {
        at + 1
    } else if document[at] == '\\' && at + 1 < document.len() {
        string_end(document, at + 2)
    } else {
        string_end(document, at + 1)
    }
}

/// Three quotes stand at `at`.
pub open spec fn three_quotes(document: Seq<char>, at: int) -> bool {
    &&& at + 2 < document.len()
    &&& document[at] == '"'
    &&& document[at + 1] == '"'
    &&& document[at + 2] == '"'
}

/// Where the block string whose characters start at `at` ends: behind the next three
/// quotes without a backslash before them, or with the document.
pub open spec fn block_end(document: Seq<char>, at: int) -> int
    decreases document.len() - at,
{
    if at >= document.len() {
        document.len() as int
    } else if three_quotes(document, at) {
        at + 3
    } else if document[at] == '\\' && three_quotes(document, at + 1) {
        block_end(document, at + 4)
    } else {
        block_end(document, at + 1)
    }
}

/// Where the token, the comment or the ignored character at `at` ends.
pub open spec fn token_end(document: Seq<char>, at: int) -> int
    recommends
        at < document.len(),
{
    let c = document[at];
    if c == '#' {
        line_end(document, at + 1)
    } else if three_quotes(document, at) {
        block_end(document, at + 3)
    } else if c == '"' {
        string_end(document, at + 1)
    } else if is_name_char(c) {
        name_end(document, at + 1)
    } else {
        at + 1
    }
}

/// The name `mutation` stands at `at`, and is no part of a longer name.
pub open spec fn is_mutation_word(document: Seq<char>, at: int) -> bool {
    name_end(document, at) == at + 8 && document.subrange(at, at + 8) == "mutation"@
}

/// How deep in brackets the text is behind a token that starts with `c`.
pub open spec fn depth_behind(c: char, depth: nat) -> nat {
    if c == '{' || c == '(' || c == '[' {
        depth + 1
    } else if (c == '}' || c == ')' || c == ']') && depth > 0 {
        (depth - 1) as nat
    } else {
        depth
    }
}

/// Whether a definition starts with the next token behind one that starts with `c`, where
/// `starts` says whether one could start there.
pub open spec fn starts_behind(c: char, starts: bool, depth: nat) -> bool {
    if is_ignored(c) || c == '#' || c == '"' {
        starts
    } else {
        c == '}' && depth <= 1
    }
}

/// From `at` on, at this depth, a definition starts with the name `mutation`; `starts`
/// says whether a definition starts with the next token.
pub open spec fn mutation_from(document: Seq<char>, at: int, starts: bool, depth: nat) -> bool
    decreases document.len() - at,
{
    if at >= document.len() {
        false
    } else if starts && is_mutation_word(document, at) {
        true
    } else {
        let c = document[at];
        proof {
            lemma_token_end(document, at);
        }
        mutation_from(
            document,
            token_end(document, at),
            starts_behind(c, starts, depth),
            depth_behind(c, depth),
        )
    }
}

/// From `from` to `at`, there is nothing but ignored characters, comments and strings.
pub open spec fn leads_to(document: Seq<char>, from: int, at: int) -> bool
    decreases at - from,
{
    from == at || {
        &&& 0 <= from < at <= document.len()
        &&& is_ignored(document[from]) || document[from] == '#' || document[from] == '"'
        &&& from < token_end(document, from) <= at
        &&& leads_to(document, token_end(document, from), at)
    }
}

/// Some definition of the document starts with the name `mutation`.
pub open spec fn holds_mutation(document: Seq<char>) -> bool {
    mutation_from(document, 0, true, 0)
}

/// A run of name characters does not end before it starts, nor behind the document.
pub proof fn lemma_name_end(document: Seq<char>, at: int)
    requires
        at <= document.len(),
    ensures
        at <= name_end(document, at) <= document.len(),
    decreases document.len() - at,
{
    if at < document.len() && is_name_char(document[at]) {
        lemma_name_end(document, at + 1);
    }
}

/// A line does not end before it starts, nor behind the document.
proof fn lemma_line_end(document: Seq<char>, at: int)
    requires
        at <= document.len(),
    ensures
        at <= line_end(document, at) <= document.len(),
    decreases document.len() - at,
{
    if at < document.len() && document[at] != '\n' && document[at] != '\r' {
        lemma_line_end(document, at + 1);
    }
}

/// A string ends within the document, and not before it starts.
proof fn lemma_string_end(document: Seq<char>, at: int)
    ensures
        at <= document.len() ==> at <= string_end(document, at),
        string_end(document, at) <= document.len(),
    decreases document.len() - at,
{
    if at < document.len() && document[at] != '"' {
        if document[at] == '\\' && at + 1 < document.len() {
            lemma_string_end(document, at + 2);
        } else {
            lemma_string_end(document, at + 1);
        }
    }
}

/// A block string ends within the document, and not before it starts.
proof fn lemma_block_end(document: Seq<char>, at: int)
    ensures
        at <= document.len() ==> at <= block_end(document, at),
        block_end(document, at) <= document.len(),
    decreases document.len() - at,
{
    if at < document.len() && !three_quotes(document, at) {
        if document[at] == '\\' && three_quotes(document, at + 1) {
            lemma_block_end(document, at + 4);
        } else {
            lemma_block_end(document, at + 1);
        }
    }
}

/// Every token takes at least a character, and none reaches behind the document.
pub proof fn lemma_token_end(document: Seq<char>, at: int)
    requires
        at < document.len(),
    ensures
        at < token_end(document, at) <= document.len(),
{
    lemma_name_end(document, at + 1);
    lemma_line_end(document, at + 1);
    lemma_string_end(document, at + 1);
    lemma_block_end(document, at + 3);
}

/// Whether `c` is ignored between tokens.
fn ignored(c: char) -> (r: bool)
    ensures
        r == is_ignored(c),
{
    text::white_space(c) || c == ',' || c == '\u{feff}'
}

/// Whether a name may hold `c`.
fn name_char(c: char) -> (r: bool)
    ensures
        r == is_name_char(c),
{
    c == '_' || ('a' <= c && c <= 'z') || ('A' <= c && c <= 'Z') || ('0' <= c && c <= '9')
}

/// Where the run of name characters at `at` ends.
fn find_name_end(chars: &Vec<char>, at: usize) -> (r: usize)
    requires
        at <= chars.len(),
    ensures
        r == name_end(chars@, at as int),
{
    let mut i: usize = at;
    while i < chars.len() && name_char(chars[i])
        invariant
            i <= chars.len(),
            name_end(chars@, i as int) == name_end(chars@, at as int),
        decreases chars.len() - i,
    {
        i = i + 1;
    }
    i
}

/// Where the line at `at` ends.
fn find_line_end(chars: &Vec<char>, at: usize) -> (r: usize)
    requires
        at <= chars.len(),
    ensures
        r == line_end(chars@, at as int),
{
    let mut i: usize = at;
    while i < chars.len() && chars[i] != '\n' && chars[i] != '\r'
        invariant
            i <= chars.len(),
            line_end(chars@, i as int) == line_end(chars@, at as int),
        decreases chars.len() - i,
    {
        i = i + 1;
    }
    i
}

/// Where the string whose characters start at `at` ends.
fn find_string_end(chars: &Vec<char>, at: usize) -> (r: usize)
    requires
        at <= chars.len(),
    ensures
        r == string_end(chars@, at as int),
{
    let mut i: usize = at;
    while i < chars.len()
        invariant
            i <= chars.len(),
            string_end(chars@, i as int) == string_end(chars@, at as int),
        decreases chars.len() - i,
    {
        if chars[i] == '"' {
            return i + 1;
        }
        if chars[i] == '\\' && i + 1 < chars.len() {
            i = i + 2;
        } else {
            i = i + 1;
        }
    }
    i
}

/// Whether three quotes stand at `at`.
fn at_three_quotes(chars: &Vec<char>, at: usize) -> (r: bool)
    requires
        at <= chars.len(),
    ensures
        r == three_quotes(chars@, at as int),
{
    chars.len() - at > 2 && chars[at] == '"' && chars[at + 1] == '"' && chars[at + 2] == '"'
}

/// Where the block string whose characters start at `at` ends.
fn find_block_end(chars: &Vec<char>, at: usize) -> (r: usize)
    requires
        at <= chars.len(),
    ensures
        r == block_end(chars@, at as int),
{
    let mut i: usize = at;
    while i < chars.len()
        invariant
            i <= chars.len(),
            block_end(chars@, i as int) == block_end(chars@, at as int),
        decreases chars.len() - i,
    {
        if at_three_quotes(chars, i) {
            return i + 3;
        }
        if chars[i] == '\\' && at_three_quotes(chars, i + 1) {
            i = i + 4;
        } else {
            i = i + 1;
        }
    }
    i
}

/// Where the token, the comment or the ignored character at `at` ends.
fn find_token_end(chars: &Vec<char>, at: usize) -> (r: usize)
    requires
        at < chars.len(),
    ensures
        r == token_end(chars@, at as int),
{
    let c = chars[at];
    if c == '#' {
        find_line_end(chars, at + 1)
    } else if at_three_quotes(chars, at) {
        find_block_end(chars, at + 3)
    } else if c == '"' {
        find_string_end(chars, at + 1)
    } else if name_char(c) {
        find_name_end(chars, at + 1)
    } else {
        at + 1
    }
}

/// Whether the name `mutation` stands at `at`.
fn at_mutation_word(chars: &Vec<char>, at: usize) -> (r: bool)
    requires
        at < chars.len(),
    ensures
        r == is_mutation_word(chars@, at as int),
{
    let word = text::chars_of("mutation");
    proof {
        reveal_strlit("mutation");
        lemma_name_end(chars@, at as int);
    }
    assert(word.len() == 8);
    find_name_end(chars, at) - at == 8 && text::matches_at(chars, &word, at)
}

/// Whether some definition of the document starts with the name `mutation`.
pub fn has_mutation(document: &str) -> (r: bool)
    ensures
        r == holds_mutation(document@),
{
    let chars = text::chars_of(document);
    let mut at: usize = 0;
    let mut starts: bool = true;
    let mut depth: usize = 0;
    while at < chars.len()
        invariant
            chars@ == document@,
            depth <= at <= chars.len(),
            mutation_from(chars@, at as int, starts, depth as nat) == holds_mutation(document@),
        decreases chars.len() - at,
    {
        if starts && at_mutation_word(&chars, at) {
            return true;
        }
        let c = chars[at];
        proof {
            lemma_token_end(chars@, at as int);
        }
        if !ignored(c) && c != '#' && c != '"' {
            starts = c == '}' && depth <= 1;
        }
        if c == '{' || c == '(' || c == '[' {
            depth = depth + 1;
        } else if (c == '}' || c == ')' || c == ']') && depth > 0 {
            depth = depth - 1;
        }
        at = find_token_end(&chars, at);
    }
    false
}

} // verus!
