//! Properties of the rows of a table that hold of every row or of every two
//! rows, and how adding and removing rows keeps them.

use vstd::prelude::*;

verus! {

/// Every row has the property.
pub open spec fn every<T>(rows: Seq<T>, holds: spec_fn(T) -> bool) -> bool {
    forall|i: int| 0 <= i < rows.len() ==> holds(#[trigger] rows[i])
}

/// Every two rows at different places are apart.
pub open spec fn pairwise<T>(rows: Seq<T>, apart: spec_fn(T, T) -> bool) -> bool {
    forall|i: int, j: int| 0 <= i < j < rows.len() ==> apart(#[trigger] rows[i], #[trigger] rows[j])
}

/// A row that has the property and is apart from every row may be added at
/// the end.
pub proof fn lemma_push_keeps<T>(
    rows: Seq<T>,
    row: T,
    holds: spec_fn(T) -> bool,
    apart: spec_fn(T, T) -> bool,
)
    requires
        every(rows, holds),
        pairwise(rows, apart),
        holds(row),
        forall|i: int| 0 <= i < rows.len() ==> apart(#[trigger] rows[i], row),
    ensures
        every(rows.push(row), holds),
        pairwise(rows.push(row), apart),
{
    let after = rows.push(row);
    assert forall|i: int| 0 <= i < after.len() implies holds(#[trigger] after[i]) by {
        if i < rows.len() {
            assert(after[i] == rows[i]);
        }
    }
    assert forall|i: int, j: int| 0 <= i < j < after.len() implies apart(
        #[trigger] after[i],
        #[trigger] after[j],
    ) by {
        assert(after[i] == rows[i]);
        if j < rows.len() {
            assert(after[j] == rows[j]);
        }
    }
}

/// Removing rows keeps what holds of every row and of every two rows.
pub proof fn lemma_filter_keeps<T>(
    rows: Seq<T>,
    keep: spec_fn(T) -> bool,
    holds: spec_fn(T) -> bool,
    apart: spec_fn(T, T) -> bool,
)
    requires
        every(rows, holds),
        pairwise(rows, apart),
    ensures
        every(rows.filter(keep), holds),
        pairwise(rows.filter(keep), apart),
    decreases rows.len(),
{
    reveal(Seq::filter);
    if rows.len() > 0 {
        let front = rows.drop_last();
        let last = rows.last();
        assert forall|i: int| 0 <= i < front.len() implies holds(#[trigger] front[i]) by {
            assert(front[i] == rows[i]);
        }
        assert forall|i: int, j: int| 0 <= i < j < front.len() implies apart(
            #[trigger] front[i],
            #[trigger] front[j],
        ) by {
            assert(front[i] == rows[i] && front[j] == rows[j]);
        }
        lemma_filter_keeps(front, keep, holds, apart);
        if keep(last) {
            let kept = front.filter(keep);
            assert(holds(rows[rows.len() - 1]));
            assert forall|i: int| 0 <= i < kept.len() implies apart(#[trigger] kept[i], last) by {
                assert(kept.contains(kept[i]));
                front.lemma_filter_contains_rev(keep, kept[i]);
                let k = choose|k: int| 0 <= k < front.len() && front[k] == kept[i];
                assert(rows[k] == kept[i]);
                assert(apart(rows[k], rows[rows.len() - 1]));
            }
            lemma_push_keeps(kept, last, holds, apart);
        }
    }
}

/// The rows that are kept stand in the filtered table, and no other.
pub proof fn lemma_filter_members<T>(rows: Seq<T>, keep: spec_fn(T) -> bool)
    ensures
        forall|i: int| 0 <= i < rows.filter(keep).len() ==> keep(#[trigger] rows.filter(keep)[i]),
        forall|i: int|
            0 <= i < rows.filter(keep).len() ==> rows.contains(#[trigger] rows.filter(keep)[i]),
        forall|i: int|
            0 <= i < rows.len() && keep(rows[i]) ==> rows.filter(keep).contains(#[trigger] rows[i]),
{
    let kept = rows.filter(keep);
    assert forall|i: int| 0 <= i < kept.len() implies keep(#[trigger] kept[i]) && rows.contains(
        kept[i],
    ) by {
        rows.lemma_filter_pred(keep, i);
        assert(kept.contains(kept[i]));
        rows.lemma_filter_contains_rev(keep, kept[i]);
    }
    assert forall|i: int| 0 <= i < rows.len() && keep(rows[i]) implies kept.contains(
        #[trigger] rows[i],
    ) by {
        rows.lemma_filter_contains(keep, i);
    }
}

/// Removing the same rows a second time removes nothing more.
pub proof fn lemma_filter_twice<T>(rows: Seq<T>, keep: spec_fn(T) -> bool)
    ensures
        rows.filter(keep).filter(keep) == rows.filter(keep),
    decreases rows.len(),
{
    reveal(Seq::filter);
    if rows.len() > 0 {
        let front = rows.drop_last();
        let last = rows.last();
        lemma_filter_twice(front, keep);
        assert(front.push(last) =~= rows);
        front.lemma_filter_push(last, keep);
        if keep(last) {
            front.filter(keep).lemma_filter_push(last, keep);
        }
    }
}

} // verus!
