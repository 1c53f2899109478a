//! Where one text stands inside another.

use vstd::prelude::*;

verus! {

/// `part` stands somewhere inside `whole`.
pub open spec fn occurs_in(part: Seq<char>, whole: Seq<char>) -> bool {
    exists|at: int|
        0 <= at && at + part.len() <= whole.len() && #[trigger] whole.subrange(
            at,
            at + part.len(),
        ) == part
}

/// `part` stands inside whatever is put before and after it.
pub proof fn lemma_occurs_between(before: Seq<char>, part: Seq<char>, after: Seq<char>)
    ensures
        occurs_in(part, before + part + after),
{
    let whole = before + part + after;
    let at = before.len() as int;
    assert(whole.subrange(at, at + part.len()) =~= part);
}

/// What occurs in a part occurs in the whole.
pub proof fn lemma_occurs_transitive(inner: Seq<char>, part: Seq<char>, whole: Seq<char>)
    requires
        occurs_in(inner, part),
        occurs_in(part, whole),
    ensures
        occurs_in(inner, whole),
{
    let i = choose|at: int|
        0 <= at && at + inner.len() <= part.len() && #[trigger] part.subrange(at, at + inner.len())
            == inner;
    let j = choose|at: int|
        0 <= at && at + part.len() <= whole.len() && #[trigger] whole.subrange(at, at + part.len())
            == part;
    assert(whole.subrange(j + i, j + i + inner.len()) =~= whole.subrange(
        j,
        j + part.len(),
    ).subrange(i, i + inner.len()));
}

} // verus!
