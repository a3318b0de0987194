//! Where one text occurs inside another.

use vstd::prelude::*;

verus! {

/// `part` stands in `whole` from position `at` on.
pub open spec fn occurs_at(part: Seq<char>, whole: Seq<char>, at: int) -> bool {
    &&& 0 <= at
    &&& at + part.len() <= whole.len()
    &&& whole.subrange(at, at + part.len()) == part
}

/// `part` stands somewhere in `whole`.
pub open spec fn occurs_in(part: Seq<char>, whole: Seq<char>) -> bool {
    exists|at: int| occurs_at(part, whole, at)
}

/// A text occurs in whatever is put together from a text before it, itself
/// and a text after it.
pub proof fn lemma_occurs_between(before: Seq<char>, part: Seq<char>, after: Seq<char>)
    ensures
        occurs_at(part, before + part + after, before.len() as int),
        occurs_in(part, before + part + after),
{
    let whole = before + part + after;
    let at: int = before.len() as int;
    assert(whole.subrange(at, at + part.len()) =~= part);
}

} // verus!
