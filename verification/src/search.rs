//! The first position in a sequence at which a condition holds.

use vstd::prelude::*;

verus! {

/// The least position at or after `from` that is marked, or the length of
/// `marks` where there is none.
pub open spec fn first_true_from(marks: Seq<bool>, from: int) -> int
    decreases marks.len() - from,
{
    if from < 0 || from >= marks.len() {
        marks.len() as int
    } else if marks[from] {
        from
    } else {
        first_true_from(marks, from + 1)
    }
}

/// The least marked position, if any position is marked.
pub open spec fn first_true(marks: Seq<bool>) -> Option<int> {
    let at = first_true_from(marks, 0);
    if at < marks.len() {
        Some(at)
    } else {
        None
    }
}

/// `first_true_from` lands on a marked position with no marked position
/// between `from` and it, or on the length.
pub proof fn lemma_first_true_from(marks: Seq<bool>, from: int)
    requires
        0 <= from <= marks.len(),
    ensures
        from <= first_true_from(marks, from) <= marks.len(),
        first_true_from(marks, from) < marks.len() ==> marks[first_true_from(marks, from)],
        forall|j: int| from <= j < first_true_from(marks, from) ==> !marks[j],
    decreases marks.len() - from,
{
    if from < marks.len() && !marks[from] {
        lemma_first_true_from(marks, from + 1);
    }
}

/// A marked position with no marked position before it is the first one.
pub proof fn lemma_first_true_found(marks: Seq<bool>, at: int)
    requires
        0 <= at < marks.len(),
        marks[at],
        forall|j: int| 0 <= j < at ==> !marks[j],
    ensures
        first_true(marks) == Some(at),
{
    lemma_first_true_from(marks, 0);
}

/// Where no position is marked there is no first one.
pub proof fn lemma_first_true_absent(marks: Seq<bool>)
    requires
        forall|j: int| 0 <= j < marks.len() ==> !marks[j],
    ensures
        first_true(marks) is None,
{
    lemma_first_true_from(marks, 0);
}

/// What `first_true` answers, said without recursion.
pub proof fn lemma_first_true_meaning(marks: Seq<bool>)
    ensures
        match first_true(marks) {
            Some(at) => 0 <= at < marks.len() && marks[at] && forall|j: int|
                0 <= j < at ==> !marks[j],
            None => forall|j: int| 0 <= j < marks.len() ==> !marks[j],
        },
{
    lemma_first_true_from(marks, 0);
}

} // verus!
