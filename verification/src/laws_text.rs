//! What the questions and edits of `text` mean, character by character.
use crate::text;
use vstd::prelude::*;

verus! {

broadcast use vstd::string::group_string_axioms;

/// The beginning of a text has as many characters as it may have and the text has, and
/// they are those of the text, in place.
pub proof fn law_first(s: Seq<char>, limit: nat)
    ensures
        text::first(s, limit).len() == if s.len() < limit {
            s.len()
        } else {
            limit
        },
        forall|i: int| 0 <= i < s.len() && i < limit ==> #[trigger] text::first(s, limit)[i] == s[i],
{
}

/// A text contains another if and only if a block of it is that other text.
pub proof fn law_contains(s: Seq<char>, part: Seq<char>)
    ensures
        text::contains(s, part) <==> exists|at: int|
            0 <= at <= s.len() - part.len() && #[trigger] s.subrange(at, at + part.len()) == part,
{
    if text::contains(s, part) {
        let at = choose|at: int| text::occurs_at(s, part, at);
        assert(s.subrange(at, at + part.len()) == part);
    }
    if exists|at: int|
        0 <= at <= s.len() - part.len() && #[trigger] s.subrange(at, at + part.len()) == part {
        let at = choose|at: int|
            0 <= at <= s.len() - part.len() && #[trigger] s.subrange(at, at + part.len()) == part;
        assert(text::occurs_at(s, part, at));
    }
}

/// A text ends with another if and only if its last characters are that other text.
pub proof fn law_ends_with(s: Seq<char>, tail: Seq<char>)
    ensures
        text::ends_with(s, tail) <==> tail.len() <= s.len() && s.skip(s.len() - tail.len()) == tail,
{
    if tail.len() <= s.len() {
        assert(s.skip(s.len() - tail.len()) == s.subrange(s.len() - tail.len(), s.len() as int));
    }
}

/// The code points of white space.
pub proof fn law_white_space(c: char)
    ensures
        text::is_white_space(c) <==> ({
            let code = c as u32;
            ||| 0x9 <= code <= 0xd
            ||| code == 0x20 || code == 0x85 || code == 0xa0 || code == 0x1680
            ||| 0x2000 <= code <= 0x200a
            ||| code == 0x2028 || code == 0x2029 || code == 0x202f || code == 0x205f || code == 0x3000
        }),
{
}

/// Nothing is blank from the start; a character more leaves a text blank if and only if
/// the text was blank and the character is white space.
pub proof fn law_blank(s: Seq<char>, c: char)
    ensures
        text::is_blank(Seq::<char>::empty()),
        text::is_blank(s.push(c)) <==> text::is_blank(s) && text::is_white_space(c),
{
    if text::is_blank(s.push(c)) {
        assert(s.push(c)[s.len() as int] == c);
        assert forall|i: int| 0 <= i < s.len() implies text::is_white_space(#[trigger] s[i]) by {
            assert(s.push(c)[i] == s[i]);
        }
    }
}

/// The number that a row of digits stands for.
pub open spec fn number(digits: Seq<char>) -> int
    decreases digits.len(),
{
    if digits.len() == 0 {
        0
    } else {
        10 * number(digits.drop_last()) + (digits.last() as int - '0' as int)
    }
}

/// A number is written with digits alone, without needless zeros in front, and what is
/// written stands for that number.
pub proof fn law_decimal(n: nat)
    ensures
        number(text::decimal(n)) == n,
        text::decimal(n).len() >= 1,
        n >= 10 ==> text::decimal(n)[0] != '0',
        n < 10 ==> text::decimal(n).len() == 1,
        forall|i: int|
            0 <= i < text::decimal(n).len() ==> '0' <= #[trigger] text::decimal(n)[i] <= '9',
    decreases n,
{
    let written = text::decimal(n);
    if n < 10 {
        assert(written.drop_last() == Seq::<char>::empty());
        assert(number(written.drop_last()) == 0);
        assert(written.last() as int == '0' as int + n);
    } else {
        law_decimal(n / 10);
        assert(written.drop_last() == text::decimal(n / 10));
        assert(written.last() as int == '0' as int + n % 10);
        if n / 10 < 10 {
            assert(text::decimal(n / 10)[0] as int == '0' as int + n / 10);
        }
        assert(written[0] == text::decimal(n / 10)[0]);
        assert forall|i: int| 0 <= i < written.len() implies '0' <= #[trigger] written[i] <= '9' by {
            if i < written.len() - 1 {
                assert(written[i] == text::decimal(n / 10)[i]);
            }
        }
    }
}

/// Joining nothing gives nothing, a single line is left as it is, and each further line
/// comes behind a separator.
pub proof fn law_join(lines: Seq<Seq<char>>, line: Seq<char>, sep: Seq<char>)
    ensures
        text::join(Seq::empty(), sep) == Seq::<char>::empty(),
        text::join(seq![line], sep) == line,
        lines.len() > 0 ==> text::join(lines.push(line), sep) == text::join(lines, sep) + sep + line,
{
    assert(lines.push(line).drop_last() == lines);
}

/// The size of a text is that of its UTF-8 form, in bytes.
pub proof fn law_byte_len(s: Seq<char>)
    ensures
        text::byte_len(s) == vstd::utf8::encode_utf8(s).len(),
{
}

/// A text that is there is kept, and one that is not there is empty.
pub proof fn law_text_or_empty(found: Option<Seq<char>>)
    ensures
        found matches Some(t) ==> text::text_or_empty(found) == t,
        found is None ==> text::text_or_empty(found).len() == 0,
{
}

/// The views of a list of texts are those of its texts, in place.
pub proof fn law_text_views(lines: Seq<String>)
    ensures
        text::views(lines).len() == lines.len(),
        forall|i: int| 0 <= i < lines.len() ==> #[trigger] text::views(lines)[i] == lines[i]@,
{
}

} // verus!
