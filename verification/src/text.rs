//! Small operations on text that the rest of the library is written with.

use vstd::prelude::*;
use vstd::string::*;

verus! {

/// Whether `text` ends with `suffix`.
pub open spec fn is_suffix(text: Seq<char>, suffix: Seq<char>) -> bool {
    suffix.len() <= text.len() && text.subrange(text.len() - suffix.len(), text.len() as int)
        == suffix
}

/// `text` with `suffix` taken off its end as often as it stands there.
pub open spec fn trim_suffix(text: Seq<char>, suffix: Seq<char>) -> Seq<char>
    decreases text.len(),
{
    if suffix.len() > 0 && is_suffix(text, suffix) {
        trim_suffix(text.take(text.len() - suffix.len()), suffix)
    } else {
        text
    }
}

/// Whether two pieces of text are the same.
pub fn same_text(a: &str, b: &str) -> (same: bool)
    ensures
        same == (a@ == b@),
{
    a.to_owned() == b.to_owned()
}

/// Whether `text` ends with `suffix`.
pub fn ends_with(text: &str, suffix: &str) -> (found: bool)
    ensures
        found == is_suffix(text@, suffix@),
{
    let len = text.unicode_len();
    let suffix_len = suffix.unicode_len();
    if suffix_len > len {
        return false;
    }
    same_text(text.substring_char(len - suffix_len, len), suffix)
}

/// `text` without the copies of `suffix` at its end.
pub fn trim_end_matches<'a>(text: &'a str, suffix: &str) -> (rest: &'a str)
    ensures
        rest@ == trim_suffix(text@, suffix@),
{
    let suffix_len = suffix.unicode_len();
    let mut rest = text;
    if suffix_len == 0 {
        return rest;
    }
    while ends_with(rest, suffix)
        invariant
            suffix_len == suffix@.len(),
            suffix_len > 0,
            trim_suffix(rest@, suffix@) == trim_suffix(text@, suffix@),
        decreases rest@.len(),
    {
        let len = rest.unicode_len();
        rest = rest.substring_char(0, len - suffix_len);
    }
    rest
}

} // verus!
