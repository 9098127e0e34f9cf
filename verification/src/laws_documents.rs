//! Which documents hold a mutation, in terms of their characters.
//!
//! A document is cut into pieces: comments, strings, names, and single characters. It holds
//! a mutation where the piece with which some definition starts is the name `mutation`.
use crate::document;
use vstd::prelude::*;

verus! {

broadcast use vstd::string::group_string_axioms;

/// The characters that a name is made of and those that mean nothing, by their numbers.
pub proof fn law_characters(c: char)
    ensures
        document::is_name_char(c) <==> {
            ||| c as u32 == 95
            ||| 97 <= c as u32 <= 122
            ||| 65 <= c as u32 <= 90
            ||| 48 <= c as u32 <= 57
        },
        document::is_ignored(c) <==> {
            ||| 9 <= c as u32 <= 13
            ||| c as u32 == 32
            ||| c as u32 == 44
            ||| c as u32 == 0x85
            ||| c as u32 == 0xa0
            ||| c as u32 == 0x1680
            ||| 0x2000 <= c as u32 <= 0x200a
            ||| c as u32 == 0x2028
            ||| c as u32 == 0x2029
            ||| c as u32 == 0x202f
            ||| c as u32 == 0x205f
            ||| c as u32 == 0x3000
            ||| c as u32 == 0xfeff
        },
{
    crate::laws_text::law_white_space(c);
}

/// A line ends at `c`.
pub open spec fn ends_line(c: char) -> bool {
    c == '\n' || c == '\r'
}

/// Behind `from`, the character at `i` stands behind a backslash that is not itself escaped.
pub open spec fn escaped(document: Seq<char>, from: int, i: int) -> bool
    decreases i - from,
{
    i > from && document[i - 1] == '\\' && !escaped(document, from, i - 1)
}

/// A string whose characters start at `from` can end with the quote at `i`.
pub open spec fn closes_string(document: Seq<char>, from: int, i: int) -> bool {
    document[i] == '"' && !escaped(document, from, i)
}

/// A block string whose characters start at `from` can end with the three quotes at `i`:
/// none of them belongs to three quotes behind a backslash.
pub open spec fn closes_block(document: Seq<char>, from: int, i: int) -> bool {
    &&& i + 2 < document.len()
    &&& document[i] == '"'
    &&& document[i + 1] == '"'
    &&& document[i + 2] == '"'
    &&& !(i - 1 >= from && document[i - 1] == '\\')
    &&& !(i - 2 >= from && document[i - 2] == '\\' && document[i - 1] == '"')
    &&& !(i - 3 >= from && document[i - 3] == '\\' && document[i - 2] == '"' && document[i - 1]
        == '"')
}

/// From `at` to `end` there is one piece of the document: a comment up to the end of its
/// line, a block string or a string up to where it first can end, a whole name, or one other
/// character. A string that cannot end takes the rest of the document.
pub open spec fn is_piece(document: Seq<char>, at: int, end: int) -> bool {
    &&& 0 <= at < end <= document.len()
    &&& if document[at] == '#' {
        &&& forall|i: int| at < i < end ==> !ends_line(#[trigger] document[i])
        &&& end < document.len() ==> ends_line(document[end])
    } else if document[at] == '"' && at + 2 < document.len() && document[at + 1] == '"'
        && document[at + 2] == '"' {
        &&& forall|i: int| at + 3 <= i < end - 3 ==> !#[trigger] closes_block(document, at + 3, i)
        &&& {
            ||| at + 3 <= end - 3 && closes_block(document, at + 3, end - 3)
            ||| end == document.len() && forall|i: int|
                at + 3 <= i < end ==> !#[trigger] closes_block(document, at + 3, i)
        }
    } else if document[at] == '"' {
        &&& forall|i: int| at + 1 <= i < end - 1 ==> !#[trigger] closes_string(document, at + 1, i)
        &&& {
            ||| at + 1 <= end - 1 && closes_string(document, at + 1, end - 1)
            ||| end == document.len() && forall|i: int|
                at + 1 <= i < end ==> !#[trigger] closes_string(document, at + 1, i)
        }
    } else if document::is_name_char(document[at]) {
        &&& forall|i: int| at <= i < end ==> document::is_name_char(#[trigger] document[i])
        &&& end < document.len() ==> !document::is_name_char(document[end])
    } else {
        end == at + 1
    }
}

/// Between cut `k` and the next there is one piece of the document.
pub open spec fn is_piece_behind(document: Seq<char>, cuts: Seq<int>, k: int) -> bool {
    is_piece(document, cuts[k], cuts[k + 1])
}

/// The pieces of the document are those between one of `cuts` and the next.
pub open spec fn is_cut(document: Seq<char>, cuts: Seq<int>) -> bool {
    &&& cuts.len() > 0
    &&& cuts[0] == 0
    &&& cuts.last() == document.len()
    &&& forall|k: int|
        0 <= k < cuts.len() - 1 ==> #[trigger] is_piece_behind(document, cuts, k)
}

/// How many brackets are open before piece `k`. A closing bracket that none was opened for
/// closes nothing.
pub open spec fn open_before(document: Seq<char>, cuts: Seq<int>, k: int) -> nat
    decreases k,
{
    if k <= 0 {
        0
    } else {
        let c = document[cuts[k - 1]];
        let open = open_before(document, cuts, k - 1);
        if c == '{' || c == '(' || c == '[' {
            open + 1
        } else if (c == '}' || c == ')' || c == ']') && open > 0 {
            (open - 1) as nat
        } else {
            open
        }
    }
}

/// A piece that starts with `c` neither starts nor ends a definition: it is an ignored
/// character, a comment or a string.
pub open spec fn is_aside(c: char) -> bool {
    document::is_ignored(c) || c == '#' || c == '"'
}

/// A definition may start behind piece `p`: there is none, or it is a brace behind which no
/// bracket is open.
pub open spec fn is_border(document: Seq<char>, cuts: Seq<int>, p: int) -> bool {
    p == -1 || (document[cuts[p]] == '}' && open_before(document, cuts, p + 1) == 0)
}

/// A definition starts with piece `k`, which is the first behind a border but for asides.
pub open spec fn is_start(document: Seq<char>, cuts: Seq<int>, k: int) -> bool {
    exists|p: int|
        -1 <= p < k && #[trigger] is_border(document, cuts, p) && forall|j: int|
            p < j < k ==> is_aside(document[#[trigger] cuts[j]])
}

/// Every document is cut into pieces in one way.
pub proof fn law_documents_are_cut(document: Seq<char>)
    ensures
        exists|cuts: Seq<int>| #[trigger] is_cut(document, cuts),
        forall|one: Seq<int>, other: Seq<int>|
            #[trigger] is_cut(document, one) && #[trigger] is_cut(document, other) ==> one == other,
{
    let cuts = lemma_cut_from(document, 0);
    assert(is_cut(document, cuts));
    assert forall|one: Seq<int>, other: Seq<int>| #[trigger]
        is_cut(document, one) && #[trigger] is_cut(document, other) implies one == other by {
        lemma_same_cuts(document, one, other, one.len() as int);
        lemma_same_cuts(document, other, one, other.len() as int);
    }
}

/// A document holds a mutation if and only if some definition of it starts with the name
/// `mutation`, whole.
pub proof fn law_mutations(document: Seq<char>, cuts: Seq<int>)
    requires
        is_cut(document, cuts),
    ensures
        document::holds_mutation(document) <==> exists|k: int|
            0 <= k < cuts.len() - 1 && document.subrange(cuts[k], cuts[k + 1]) == "mutation"@
                && #[trigger] is_start(document, cuts, k),
{
    assert(is_border(document, cuts, -1));
    assert(is_start(document, cuts, 0));
    lemma_from(document, cuts, 0);
}

/// A comment, a string or an ignored character where a definition may start leaves open
/// whether one does: the search goes on behind it as before.
pub proof fn law_asides_change_nothing(
    document: Seq<char>,
    at: int,
    end: int,
    starts: bool,
    depth: nat,
)
    requires
        is_piece(document, at, end),
        is_aside(document[at]),
    ensures
        document::mutation_from(document, at, starts, depth) == document::mutation_from(
            document,
            end,
            starts,
            depth,
        ),
{
    lemma_piece(document, at);
}

/// Where a line ends.
proof fn lemma_line(document: Seq<char>, at: int)
    requires
        0 <= at <= document.len(),
    ensures
        ({
            let end = document::line_end(document, at);
            &&& at <= end <= document.len()
            &&& forall|i: int| at <= i < end ==> !ends_line(#[trigger] document[i])
            &&& end < document.len() ==> ends_line(document[end])
        }),
    decreases document.len() - at,
{
    if at < document.len() && !ends_line(document[at]) {
        lemma_line(document, at + 1);
    }
}

/// Where a name ends.
proof fn lemma_name(document: Seq<char>, at: int)
    requires
        0 <= at <= document.len(),
    ensures
        ({
            let end = document::name_end(document, at);
            &&& at <= end <= document.len()
            &&& forall|i: int| at <= i < end ==> document::is_name_char(#[trigger] document[i])
            &&& end < document.len() ==> !document::is_name_char(document[end])
        }),
    decreases document.len() - at,
{
    if at < document.len() && document::is_name_char(document[at]) {
        lemma_name(document, at + 1);
    }
}

/// Where a string ends, of which the characters up to `at` are read.
proof fn lemma_string(document: Seq<char>, from: int, at: int)
    requires
        0 <= from <= at <= document.len(),
        at < document.len() ==> !escaped(document, from, at),
        forall|i: int| from <= i < at ==> !#[trigger] closes_string(document, from, i),
    ensures
        ({
            let end = document::string_end(document, at);
            ||| {
                &&& at < end <= document.len()
                &&& closes_string(document, from, end - 1)
                &&& forall|i: int| from <= i < end - 1 ==> !#[trigger] closes_string(document, from, i)
            }
            ||| {
                &&& end == document.len()
                &&& forall|i: int| from <= i < end ==> !#[trigger] closes_string(document, from, i)
            }
        }),
    decreases document.len() - at,
{
    if at < document.len() {
        if document[at] == '"' {
            assert(closes_string(document, from, at));
        } else if document[at] == '\\' && at + 1 < document.len() {
            assert(escaped(document, from, at + 1));
            assert(!escaped(document, from, at + 2));
            lemma_string(document, from, at + 2);
        } else {
            lemma_string(document, from, at + 1);
        }
    }
}

/// Where a block string ends, of which the characters up to `at` are read.
proof fn lemma_block(document: Seq<char>, from: int, at: int)
    requires
        0 <= from <= at <= document.len(),
        document::three_quotes(document, at) ==> closes_block(document, from, at),
        forall|i: int| from <= i < at ==> !#[trigger] closes_block(document, from, i),
    ensures
        ({
            let end = document::block_end(document, at);
            ||| {
                &&& at + 3 <= end <= document.len()
                &&& closes_block(document, from, end - 3)
                &&& forall|i: int| from <= i < end - 3 ==> !#[trigger] closes_block(document, from, i)
            }
            ||| {
                &&& end == document.len()
                &&& forall|i: int| from <= i < end ==> !#[trigger] closes_block(document, from, i)
            }
        }),
    decreases document.len() - at,
{
    if at < document.len() && !document::three_quotes(document, at) {
        if document[at] == '\\' && document::three_quotes(document, at + 1) {
            assert forall|i: int| from <= i < at + 4 implies !#[trigger] closes_block(
                document,
                from,
                i,
            ) by {
                if i >= at {
                    assert(i == at || i == at + 1 || i == at + 2 || i == at + 3);
                }
            }
            lemma_block(document, from, at + 4);
        } else {
            lemma_block(document, from, at + 1);
        }
    }
}

/// A piece ends where the token does.
proof fn lemma_piece(document: Seq<char>, at: int)
    requires
        0 <= at < document.len(),
    ensures
        is_piece(document, at, document::token_end(document, at)),
        forall|end: int| #[trigger]
            is_piece(document, at, end) ==> end == document::token_end(document, at),
{
    let found = document::token_end(document, at);
    document::lemma_token_end(document, at);
    let c = document[at];
    if c == '#' {
        lemma_line(document, at + 1);
    } else if document::three_quotes(document, at) {
        lemma_block(document, at + 3, at + 3);
    } else if c == '"' {
        lemma_string(document, at + 1, at + 1);
    } else if document::is_name_char(c) {
        lemma_name(document, at + 1);
    }
    assert(is_piece(document, at, found));
    assert forall|end: int| #[trigger] is_piece(document, at, end) implies end == found by {
        if c == '#' {
            if end < found {
                assert(!ends_line(document[end]));
            } else if found < end {
                assert(!ends_line(document[found]));
            }
        } else if document::three_quotes(document, at) {
            if end < found {
                assert(closes_block(document, at + 3, end - 3));
            } else if found < end {
                assert(closes_block(document, at + 3, found - 3));
            }
        } else if c == '"' {
            if end < found {
                assert(closes_string(document, at + 1, end - 1));
            } else if found < end {
                assert(closes_string(document, at + 1, found - 1));
            }
        } else if document::is_name_char(c) {
            if end < found {
                assert(document::is_name_char(document[end]));
            } else if found < end {
                assert(document::is_name_char(document[found]));
            }
        }
    }
}

/// The cuts of what is left of the document at `at`.
proof fn lemma_cut_from(document: Seq<char>, at: int) -> (cuts: Seq<int>)
    requires
        0 <= at <= document.len(),
    ensures
        cuts.len() > 0,
        cuts[0] == at,
        cuts.last() == document.len(),
        forall|k: int| 0 <= k < cuts.len() - 1 ==> #[trigger] is_piece_behind(document, cuts, k),
    decreases document.len() - at,
{
    if at == document.len() {
        seq![at]
    } else {
        lemma_piece(document, at);
        let rest = lemma_cut_from(document, document::token_end(document, at));
        let cuts = seq![at] + rest;
        assert forall|k: int| 0 <= k < cuts.len() - 1 implies #[trigger] is_piece_behind(
            document,
            cuts,
            k,
        ) by {
            if k > 0 {
                assert(is_piece_behind(document, rest, k - 1));
            }
        }
        cuts
    }
}

/// Two ways to cut a document agree as far as the first goes.
proof fn lemma_same_cuts(document: Seq<char>, one: Seq<int>, other: Seq<int>, upto: int)
    requires
        is_cut(document, one),
        is_cut(document, other),
        0 < upto <= one.len(),
    ensures
        upto <= other.len(),
        forall|k: int| 0 <= k < upto ==> #[trigger] one[k] == other[k],
    decreases upto,
{
    if upto > 1 {
        lemma_same_cuts(document, one, other, upto - 1);
        let k = upto - 2;
        assert(is_piece_behind(document, one, k));
        assert(one[k] == other[k]);
        if upto - 1 == other.len() {
            assert(other[k] == other.last());
        }
        assert(is_piece_behind(document, other, k));
        lemma_piece(document, one[k]);
    }
}

/// Whether a definition starts with the piece behind piece `k`.
proof fn lemma_start_behind(document: Seq<char>, cuts: Seq<int>, k: int)
    requires
        is_cut(document, cuts),
        0 <= k < cuts.len() - 1,
    ensures
        is_start(document, cuts, k + 1) == document::starts_behind(
            document[cuts[k]],
            is_start(document, cuts, k),
            open_before(document, cuts, k),
        ),
{
    let c = document[cuts[k]];
    if is_aside(c) {
        if is_start(document, cuts, k) {
            let p = choose|p: int|
                -1 <= p < k && #[trigger] is_border(document, cuts, p) && forall|j: int|
                    p < j < k ==> is_aside(document[#[trigger] cuts[j]]);
            assert(is_border(document, cuts, p));
            assert(is_start(document, cuts, k + 1));
        }
        if is_start(document, cuts, k + 1) {
            let p = choose|p: int|
                -1 <= p < k + 1 && #[trigger] is_border(document, cuts, p) && forall|j: int|
                    p < j < k + 1 ==> is_aside(document[#[trigger] cuts[j]]);
            assert(p < k);
            assert(is_border(document, cuts, p));
            assert(is_start(document, cuts, k));
        }
    } else {
        if is_border(document, cuts, k) {
            assert(is_start(document, cuts, k + 1));
        }
        if is_start(document, cuts, k + 1) {
            let p = choose|p: int|
                -1 <= p < k + 1 && #[trigger] is_border(document, cuts, p) && forall|j: int|
                    p < j < k + 1 ==> is_aside(document[#[trigger] cuts[j]]);
            if p < k {
                assert(is_aside(document[cuts[k]]));
            }
        }
    }
}

/// The name `mutation` stands at a piece that is this name.
proof fn lemma_word(document: Seq<char>, at: int, end: int)
    requires
        is_piece(document, at, end),
    ensures
        document::is_mutation_word(document, at) <==> document.subrange(at, end) == "mutation"@,
{
    reveal_strlit("mutation");
    assert("mutation"@.len() == 8);
    lemma_piece(document, at);
    lemma_name(document, at);
    if document.subrange(at, end) == "mutation"@ {
        assert(document.subrange(at, end)[0] == 'm');
        assert(document[at] == 'm');
        assert(end == at + 8);
    }
}

/// The search from piece `k` on finds what is there from piece `k` on.
proof fn lemma_from(document: Seq<char>, cuts: Seq<int>, k: int)
    requires
        is_cut(document, cuts),
        0 <= k < cuts.len(),
    ensures
        document::mutation_from(
            document,
            cuts[k],
            is_start(document, cuts, k),
            open_before(document, cuts, k),
        ) <==> exists|j: int|
            k <= j < cuts.len() - 1 && document.subrange(cuts[j], cuts[j + 1]) == "mutation"@
                && #[trigger] is_start(document, cuts, j),
    decreases cuts.len() - k,
{
    if k < cuts.len() - 1 {
        assert(is_piece_behind(document, cuts, k));
        lemma_piece(document, cuts[k]);
        lemma_word(document, cuts[k], cuts[k + 1]);
        lemma_start_behind(document, cuts, k);
        lemma_from(document, cuts, k + 1);
        let found = document::mutation_from(
            document,
            cuts[k],
            is_start(document, cuts, k),
            open_before(document, cuts, k),
        );
        if is_start(document, cuts, k) && document::is_mutation_word(document, cuts[k]) {
            assert(found);
        } else {
            assert(found == document::mutation_from(
                document,
                cuts[k + 1],
                is_start(document, cuts, k + 1),
                open_before(document, cuts, k + 1),
            ));
        }
    }
}

} // verus!
