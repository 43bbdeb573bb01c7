//! Text helpers shared by the messages of the library.

use vstd::prelude::*;
use vstd::string::*;

verus! {

/// `needle` stands in `hay`, unbroken, from position `at` on.
pub open spec fn occurs_at(hay: Seq<char>, needle: Seq<char>, at: int) -> bool {
    &&& 0 <= at
    &&& at + needle.len() <= hay.len()
    &&& hay.subrange(at, at + needle.len()) == needle
}

/// `needle` stands somewhere in `hay`, unbroken.
pub open spec fn contains_text(hay: Seq<char>, needle: Seq<char>) -> bool {
    exists|at: int| occurs_at(hay, needle, at)
}

/// A text that is put between two others stands in the result.
pub proof fn lemma_framed_text_is_contained(before: Seq<char>, text: Seq<char>, after: Seq<char>)
    ensures
        contains_text(before + text + after, text),
{
    let whole = before + text + after;
    let at = before.len() as int;
    assert(whole.subrange(at, at + text.len()) =~= text);
    assert(occurs_at(whole, text, at));
}

/// Joins three pieces of text in order.
pub fn framed(before: &str, text: &str, after: &str) -> (whole: String)
    ensures
        whole@ == before@ + text@ + after@,
{
    let mut whole = String::from_str(before);
    whole.append(text);
    whole.append(after);
    whole
}

} // verus!
