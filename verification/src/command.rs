//! Launch-command sanitizing: field codes such as `%U` or `%f` are cut out of a
//! raw command line, everything else stays as it is.

use crate::text::chars_of;
use vstd::prelude::*;
use vstd::string::StrSliceExecFns;
use vstd::string::StringExecFns;

verus! {

/// Whether `pattern` compiles as a regular expression that matches somewhere in
/// `haystack`. The meaning is that of the `regex` crate; nothing more is known
/// of it here.
pub uninterp spec fn regex_matches(pattern: Seq<char>, haystack: Seq<char>) -> bool;

/// Compiles `pattern` with `regex::Regex::new` and searches `haystack` with
/// `Regex::is_match`. Trusted: the answer is `regex_matches` of the two texts,
/// and a pattern that does not compile matches nothing.
#[verifier::external_body]
fn regex_is_match(pattern: &str, haystack: &str) -> (found: bool)
    ensures
        found == regex_matches(pattern@, haystack@),
{
    match regex::Regex::new(pattern) {
        Ok(re) => re.is_match(haystack),
        Err(_) => false,
    }
}

/// A word character: one that the class `\w` accepts.
pub open spec fn is_word_char(c: char) -> bool {
    regex_matches("\\w"@, seq![c])
}

/// A placeholder is a percent sign followed by one word character.
pub open spec fn starts_with_placeholder(s: Seq<char>) -> bool {
    s.len() >= 2 && s[0] == '%' && is_word_char(s[1])
}

/// A placeholder begins at position `i` of `s`.
pub open spec fn placeholder_at(s: Seq<char>, i: int) -> bool {
    0 <= i <= s.len() && starts_with_placeholder(s.skip(i))
}

/// `s` read from the left, every placeholder met on the way cut out.
pub open spec fn strip_placeholders(s: Seq<char>) -> Seq<char>
    decreases s.len(),
{
    if s.len() == 0 {
        s
    } else if starts_with_placeholder(s) {
        strip_placeholders(s.skip(2))
    } else {
        seq![s[0]] + strip_placeholders(s.skip(1))
    }
}

/// Text that holds no placeholder is left as it is.
pub proof fn sanitize_keeps_plain_text(s: Seq<char>)
    requires
        forall|i: int| 0 <= i < s.len() ==> !placeholder_at(s, i),
    ensures
        strip_placeholders(s) == s,
    decreases s.len(),
{
    if s.len() > 0 {
        assert(!placeholder_at(s, 0));
        let rest = s.skip(1);
        assert forall|i: int| 0 <= i < rest.len() implies !placeholder_at(rest, i) by {
            assert(!placeholder_at(s, i + 1));
        }
        sanitize_keeps_plain_text(rest);
    }
}

/// The leftmost placeholder is cut out, the text before it is untouched, and
/// the text after it is sanitized in the same way.
pub proof fn sanitize_cuts_first_placeholder(s: Seq<char>, at: int)
    requires
        placeholder_at(s, at),
        forall|i: int| 0 <= i < at ==> !placeholder_at(s, i),
    ensures
        strip_placeholders(s) == s.take(at) + strip_placeholders(s.skip(at + 2)),
    decreases at,
{
    if at > 0 {
        assert(!placeholder_at(s, 0));
        let rest = s.skip(1);
        assert forall|i: int| 0 <= i < at - 1 implies !placeholder_at(rest, i) by {
            assert(!placeholder_at(s, i + 1));
        }
        sanitize_cuts_first_placeholder(rest, at - 1);
        assert(rest.skip(at - 1 + 2) == s.skip(at + 2));
    }
}

/// Tells whether `c` is a word character.
fn word_char_at(raw: &str, i: usize) -> (b: bool)
    requires
        i < raw@.len(),
        i < usize::MAX,
    ensures
        b == is_word_char(raw@[i as int]),
{
    let one = raw.substring_char(i, i + 1);
    assert(one@ == seq![raw@[i as int]]);
    regex_is_match("\\w", one)
}

/// Removes every placeholder (a percent sign followed by one word character)
/// from `raw`. All other characters, spacing included, stay where they are.
pub fn sanitize(raw: &str) -> (out: String)
    ensures
        out@ == strip_placeholders(raw@),
{
    let chars = chars_of(raw);
    let n: usize = chars.len();
    let mut out = String::new();
    let mut kept_from: usize = 0;
    let mut i: usize = 0;
    assert(raw@.skip(0) == raw@);
    while i < n
        invariant
            chars@ == raw@,
            n == chars.len(),
            kept_from <= i <= n,
            out@ + raw@.subrange(kept_from as int, i as int) + strip_placeholders(
                raw@.skip(i as int),
            ) == strip_placeholders(raw@),
        decreases n - i,
    {
        let ghost tail = raw@.skip(i as int);
        if chars[i] == '%' && i + 1 < n && word_char_at(raw, i + 1) {
            assert(tail.skip(2) == raw@.skip(i + 2));
            out.append(raw.substring_char(kept_from, i));
            i = i + 2;
            kept_from = i;
        } else {
            assert(tail.skip(1) == raw@.skip(i + 1));
            i = i + 1;
        }
    }
    out.append(raw.substring_char(kept_from, n));
    out
}

} // verus!
