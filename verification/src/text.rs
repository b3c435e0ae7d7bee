//! Operations on text that the rules of the interface need.

use vstd::prelude::*;
use vstd::string::StrSliceExecFns;

verus! {

/// The number of times that `c` stands at the start of `text`, one after the
/// other.
pub open spec fn leading(text: Seq<char>, c: char) -> nat
    decreases text.len(),
{
    if text.len() > 0 && text[0] == c {
        1 + leading(text.skip(1), c)
    } else {
        0
    }
}

/// `text` with every occurrence of `from` replaced by `to`. The occurrences
/// are found from the left, and one does not begin inside another.
pub open spec fn replaced(text: Seq<char>, from: Seq<char>, to: Seq<char>) -> Seq<char>
    recommends
        from.len() > 0,
    decreases text.len(),
{
    if from.len() == 0 || text.len() < from.len() {
        text
    } else if from.is_prefix_of(text) {
        to + replaced(text.skip(from.len() as int), from, to)
    } else {
        seq![text[0]] + replaced(text.skip(1), from, to)
    }
}

/// Whether `text` begins with `prefix`.
pub fn has_prefix(text: &str, prefix: &str) -> (found: bool)
    ensures
        found == prefix@.is_prefix_of(text@),
{
    let wanted = prefix.unicode_len();
    if text.unicode_len() < wanted {
        return false;
    }
    let mut at: usize = 0;
    while at < wanted
        invariant
            at <= wanted,
            wanted == prefix@.len(),
            wanted <= text@.len(),
            forall|i: int| 0 <= i < at ==> text@[i] == prefix@[i],
        decreases wanted - at,
    {
        if text.get_char(at) != prefix.get_char(at) {
            assert(text@.subrange(0, wanted as int)[at as int] != prefix@[at as int]);
            return false;
        }
        at = at + 1;
    }
    assert(text@.subrange(0, wanted as int) =~= prefix@);
    true
}

/// `str::trim_start_matches` with a character as the pattern: the text
/// without the characters `c` that stand at its start.
#[verifier::external_body]
pub(crate) fn trim_leading(text: &str, c: char) -> (rest: &str)
    ensures
        rest@ == text@.skip(leading(text@, c) as int),
{
    text.trim_start_matches(c)
}

/// `str::replace` with a text as the pattern: a new text in which every
/// occurrence of `from`, found from the left and not overlapping another, is
/// replaced by `to`.
#[verifier::external_body]
pub(crate) fn replace_all(text: &str, from: &str, to: &str) -> (result: String)
    requires
        from@.len() > 0,
    ensures
        result@ == replaced(text@, from@, to@),
{
    text.replace(from, to)
}

} // verus!
