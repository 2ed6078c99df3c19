//! Category classification: of the semicolon-separated tags that an
//! application declares, the first one that means something to a user becomes
//! its category.

use crate::text::{chars_of, trim, trim_span};
use vstd::prelude::*;
use vstd::string::StrSliceExecFns;
use vstd::string::StringExecFns;

verus! {

/// The toolkit tag `GTK`, which names no category.
pub open spec fn gtk_tag() -> Seq<char> {
    seq!['G', 'T', 'K']
}

/// The desktop tag `GNOME`, which names no category.
pub open spec fn gnome_tag() -> Seq<char> {
    seq!['G', 'N', 'O', 'M', 'E']
}

/// A trimmed tag is effective when it is not blank and not one of the two
/// reserved tags.
pub open spec fn is_effective(tag: Seq<char>) -> bool {
    tag.len() > 0 && tag != gtk_tag() && tag != gnome_tag()
}

/// The number of characters before the first `;` of `s`, or the length of `s`
/// where it holds none.
pub open spec fn tag_len(s: Seq<char>) -> nat
    decreases s.len(),
{
    if s.len() == 0 || s[0] == ';' {
        0
    } else {
        1 + tag_len(s.skip(1))
    }
}

/// The tags of `s`: the pieces between its semicolons, in order, untrimmed.
/// A text without a semicolon is one tag, the empty text included.
pub open spec fn split_tags(s: Seq<char>) -> Seq<Seq<char>>
    decreases s.len(),
{
    let n = tag_len(s);
    if n >= s.len() {
        seq![s]
    } else {
        seq![s.take(n as int)] + split_tags(s.skip(n as int + 1))
    }
}

/// The first of `tags` that is effective once trimmed, trimmed.
pub open spec fn first_effective(tags: Seq<Seq<char>>) -> Option<Seq<char>>
    decreases tags.len(),
{
    if tags.len() == 0 {
        None
    } else if is_effective(trim(tags[0])) {
        Some(trim(tags[0]))
    } else {
        first_effective(tags.skip(1))
    }
}

/// The category of a raw category string.
pub open spec fn category_of(raw: Seq<char>) -> Option<Seq<char>> {
    first_effective(split_tags(raw))
}

/// First match wins: where tag `at` is effective and no tag before it is, it
/// is the category, whatever follows.
pub proof fn first_effective_tag_wins(tags: Seq<Seq<char>>, at: int)
    requires
        0 <= at < tags.len(),
        is_effective(trim(tags[at])),
        forall|k: int| 0 <= k < at ==> !is_effective(trim(tags[k])),
    ensures
        first_effective(tags) == Some(trim(tags[at])),
    decreases at,
{
    if at > 0 {
        first_effective_tag_wins(tags.skip(1), at - 1);
    }
}

/// Where no tag is effective there is no category.
pub proof fn no_effective_tag_no_category(tags: Seq<Seq<char>>)
    requires
        forall|k: int| 0 <= k < tags.len() ==> !is_effective(trim(tags[k])),
    ensures
        first_effective(tags) is None,
    decreases tags.len(),
{
    if tags.len() > 0 {
        no_effective_tag_no_category(tags.skip(1));
    }
}

/// A category, where there is one, is an effective tag.
pub proof fn category_is_effective(tags: Seq<Seq<char>>)
    ensures
        first_effective(tags) matches Some(c) ==> is_effective(c),
    decreases tags.len(),
{
    if tags.len() > 0 && !is_effective(trim(tags[0])) {
        category_is_effective(tags.skip(1));
    }
}

/// Tells whether the span `from..to` of `chars` is an effective tag.
fn is_effective_span(chars: &Vec<char>, from: usize, to: usize) -> (b: bool)
    requires
        from <= to <= chars.len(),
    ensures
        b == is_effective(chars@.subrange(from as int, to as int)),
{
    let ghost tag = chars@.subrange(from as int, to as int);
    let len: usize = to - from;
    if len == 0 {
        false
    } else if len == 3 && chars[from] == 'G' && chars[from + 1] == 'T' && chars[from + 2] == 'K' {
        assert(tag == gtk_tag());
        false
    } else if len == 5 && chars[from] == 'G' && chars[from + 1] == 'N' && chars[from + 2] == 'O'
        && chars[from + 3] == 'M' && chars[from + 4] == 'E' {
        assert(tag == gnome_tag());
        false
    } else {
        assert(tag != gtk_tag()) by {
            if tag == gtk_tag() {
                assert(tag.len() == 3);
            }
        }
        assert(tag != gnome_tag()) by {
            if tag == gnome_tag() {
                assert(tag.len() == 5);
            }
        }
        true
    }
}

/// The end of the tag that begins at `from`: the position of the next `;`, or
/// the end of `chars`.
fn tag_end(chars: &Vec<char>, from: usize) -> (end: usize)
    requires
        from <= chars.len(),
    ensures
        from <= end <= chars.len(),
        end - from == tag_len(chars@.skip(from as int)),
{
    let mut end: usize = from;
    while end < chars.len() && chars[end] != ';'
        invariant
            from <= end <= chars.len(),
            tag_len(chars@.skip(from as int)) == (end - from) + tag_len(chars@.skip(end as int)),
        decreases chars.len() - end,
    {
        assert(chars@.skip(end as int).skip(1) == chars@.skip(end + 1));
        end = end + 1;
    }
    end
}

/// Picks the category of an application from its raw category string: the
/// string is split on `;`, each tag is trimmed, and the first tag that is not
/// blank, not `GTK` and not `GNOME` is returned. There is no category where
/// no tag passes.
pub fn classify(raw: &str) -> (category: Option<String>)
    ensures
        match category {
            Some(c) => category_of(raw@) == Some(c@),
            None => category_of(raw@) is None,
        },
{
    let chars = chars_of(raw);
    let n: usize = chars.len();
    let mut start: usize = 0;
    assert(chars@.skip(0) == chars@);
    loop
        invariant
            chars@ == raw@,
            n == chars.len(),
            start <= n,
            category_of(raw@) == first_effective(split_tags(chars@.skip(start as int))),
        decreases n - start,
    {
        let ghost rest = chars@.skip(start as int);
        let end = tag_end(&chars, start);
        let (a, b) = trim_span(&chars, start, end);
        assert(split_tags(rest)[0] == chars@.subrange(start as int, end as int));
        if is_effective_span(&chars, a, b) {
            let tag = raw.substring_char(a, b);
            return Some(String::from_str(tag));
        }
        if end >= n {
            assert(first_effective(split_tags(rest).skip(1)) is None);
            return None;
        }
        proof {
            assert(rest.skip(end - start + 1) == chars@.skip(end + 1));
            assert(split_tags(rest).skip(1) == split_tags(chars@.skip(end + 1)));
        }
        start = end + 1;
    }
}

} // verus!
