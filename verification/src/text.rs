//! Texts: what it is for a text to be blank or to start with another, and
//! how texts are compared, split and joined.

use vstd::prelude::*;
use vstd::std_specs::iter::IteratorSpec;

verus! {

broadcast use vstd::string::group_string_axioms;

/// Whether `c` has the Unicode `White_Space` property, as `char::is_whitespace` reports it.
pub uninterp spec fn is_white_space(c: char) -> bool;

/// `char::is_whitespace` decides by the character alone; its answer is the
/// one named by [`is_white_space`].
pub assume_specification[ char::is_whitespace ](c: char) -> (b: bool)
    ensures
        b == is_white_space(c),
;

/// The text that the `{:?}` format prints for a string: the string between
/// double quotes, with the characters that need it escaped.
pub uninterp spec fn debug_text(s: Seq<char>) -> Seq<char>;

/// Formats `s` with `{:?}`, the `Debug` form of a string. Nothing is claimed
/// of the outcome but that it is the text named by [`debug_text`].
#[verifier::external_body]
pub(crate) fn debug_format(s: &str) -> (text: String)
    ensures
        text@ == debug_text(s@),
{
    format!("{:?}", s)
}

/// A text is blank when it is empty or holds nothing but whitespace.
pub open spec fn is_blank_text(s: Seq<char>) -> bool {
    forall|i: int| 0 <= i < s.len() ==> is_white_space(#[trigger] s[i])
}

/// Whether `prefix` is a prefix of `s`.
pub open spec fn is_prefix(prefix: Seq<char>, s: Seq<char>) -> bool {
    prefix.len() <= s.len() && s.subrange(0, prefix.len() as int) == prefix
}

/// Whether `s` is empty or all whitespace.
pub fn is_blank(s: &str) -> (b: bool)
    ensures
        b == is_blank_text(s@),
{
    let mut rest = s.chars();
    let ghost mut n: int = 0;
    loop
        invariant
            0 <= n <= s@.len(),
            rest.remaining() == s@.subrange(n, s@.len() as int),
            forall|i: int| 0 <= i < n ==> is_white_space(#[trigger] s@[i]),
        decreases s@.len() - n,
    {
        match rest.next() {
            None => {
                return true;
            },
            Some(c) => {
                if !c.is_whitespace() {
                    return false;
                }
                proof {
                    n = n + 1;
                }
            },
        }
    }
}

/// Whether `s` begins with the characters of `prefix`.
pub fn starts_with(s: &str, prefix: &str) -> (b: bool)
    ensures
        b == is_prefix(prefix@, s@),
{
    let mut rest = s.chars();
    let mut wanted = prefix.chars();
    let ghost mut n: int = 0;
    loop
        invariant
            0 <= n <= prefix@.len(),
            n <= s@.len(),
            wanted.remaining() == prefix@.subrange(n, prefix@.len() as int),
            rest.remaining() == s@.subrange(n, s@.len() as int),
            s@.subrange(0, n) == prefix@.subrange(0, n),
        decreases prefix@.len() - n,
    {
        match wanted.next() {
            None => {
                assert(prefix@.subrange(0, n) =~= prefix@);
                return true;
            },
            Some(p) => {
                match rest.next() {
                    None => {
                        return false;
                    },
                    Some(c) => {
                        if c != p {
                            return false;
                        }
                        proof {
                            n = n + 1;
                        }
                    },
                }
            },
        }
    }
}

/// Whether two strings hold the same text.
pub fn same_text(a: &str, b: &str) -> (same: bool)
    ensures
        same == (a@ == b@),
{
    let same = starts_with(a, b) && starts_with(b, a);
    proof {
        if same {
            assert(a@.subrange(0, b@.len() as int) =~= a@);
        }
        if a@ == b@ {
            assert(a@.subrange(0, b@.len() as int) =~= a@);
        }
    }
    same
}

/// What is left of `s` once `prefix` is taken from its front; `None` where
/// `s` does not start with `prefix`.
pub fn strip_prefix<'a>(s: &'a str, prefix: &str) -> (rest: Option<&'a str>)
    ensures
        rest is Some == is_prefix(prefix@, s@),
        rest matches Some(r) ==> r@ == s@.subrange(prefix@.len() as int, s@.len() as int),
{
    if starts_with(s, prefix) {
        let from = prefix.unicode_len();
        let to = s.unicode_len();
        Some(s.substring_char(from, to))
    } else {
        None
    }
}

/// Whether `at` is where `delimiter` first occurs in `s`.
pub open spec fn is_first_occurrence(s: Seq<char>, delimiter: char, at: int) -> bool {
    &&& 0 <= at < s.len()
    &&& s[at] == delimiter
    &&& forall|i: int| 0 <= i < at ==> #[trigger] s[i] != delimiter
}

/// Splits `s` at the first occurrence of `delimiter` into what stands
/// before it and what stands after it; `None` where `delimiter` does not
/// occur.
pub fn split_once<'a>(s: &'a str, delimiter: char) -> (parts: Option<(&'a str, &'a str)>)
    ensures
        parts is None ==> !s@.contains(delimiter),
        parts matches Some((before, after)) ==> {
            &&& is_first_occurrence(s@, delimiter, before@.len() as int)
            &&& before@ == s@.subrange(0, before@.len() as int)
            &&& after@ == s@.subrange(before@.len() as int + 1, s@.len() as int)
        },
{
    let len = s.unicode_len();
    let mut rest = s.chars();
    let mut at: usize = 0;
    loop
        invariant_except_break
            rest.remaining() == s@.subrange(at as int, s@.len() as int),
        invariant
            at <= len == s@.len(),
            forall|i: int| 0 <= i < at ==> #[trigger] s@[i] != delimiter,
        ensures
            is_first_occurrence(s@, delimiter, at as int),
        decreases len - at,
    {
        match rest.next() {
            None => {
                return None;
            },
            Some(c) => {
                if c == delimiter {
                    break;
                }
                at = at + 1;
            },
        }
    }
    let before = s.substring_char(0, at);
    let after = s.substring_char(at + 1, len);
    Some((before, after))
}

/// The texts of a sequence of strings.
pub open spec fn line_texts(lines: Seq<String>) -> Seq<Seq<char>> {
    Seq::new(lines.len(), |i: int| lines[i]@)
}

/// The lines written one after another with a line feed between each two.
pub open spec fn joined(lines: Seq<Seq<char>>) -> Seq<char>
    decreases lines.len(),
{
    if lines.len() == 0 {
        Seq::empty()
    } else if lines.len() == 1 {
        lines[0]
    } else {
        joined(lines.drop_last()) + seq!['\n'] + lines.last()
    }
}

/// Joins the lines with line feeds.
pub fn join_lines(lines: &[String]) -> (text: String)
    ensures
        text@ == joined(line_texts(lines@)),
{
    let ghost texts = line_texts(lines@);
    let mut text = String::new();
    let mut i: usize = 0;
    while i < lines.len()
        invariant
            i <= lines.len(),
            texts == line_texts(lines@),
            text@ == joined(texts.take(i as int)),
        decreases lines.len() - i,
    {
        proof {
            reveal_strlit("\n");
            assert(texts.take(i + 1).drop_last() =~= texts.take(i as int));
        }
        if i > 0 {
            text.append("\n");
        }
        text.append(lines[i].as_str());
        i = i + 1;
    }
    assert(texts.take(i as int) =~= texts);
    text
}

} // verus!
