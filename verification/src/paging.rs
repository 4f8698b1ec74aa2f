//! The page selector: which rows of a result go into the next page, given a
//! budget in estimated bytes.

use vstd::prelude::*;
use crate::values::{Row, RowView, Sizable, rows_view, rows_size, row_size, lemma_rows_size_prefix};

verus! {

/// Length of the longest prefix of `rows` whose estimate stays within
/// `budget`.
pub open spec fn fitting_len(rows: Seq<RowView>, budget: nat) -> nat
    decreases rows.len(),
{
    if rows.len() == 0 || row_size(rows[0]) > budget {
        0
    } else {
        1 + fitting_len(rows.drop_first(), (budget - row_size(rows[0])) as nat)
    }
}

/// Number of rows of the next page: as many leading rows as fit the budget,
/// and one row where not even the first fits, so that a page of a result that
/// has rows is never empty.
pub open spec fn page_len(rows: Seq<RowView>, budget: nat) -> nat {
    if rows.len() == 0 {
        0
    } else if fitting_len(rows, budget) == 0 {
        1
    } else {
        fitting_len(rows, budget)
    }
}

/// The next page of `rows` under `budget`.
pub open spec fn page(rows: Seq<RowView>, budget: nat) -> Seq<RowView> {
    rows.take(page_len(rows, budget) as int)
}

/// The estimate that is reported for a page: its size, held at `usize::MAX`
/// where the size is larger.
pub open spec fn reported_size(rows: Seq<RowView>) -> nat {
    if rows_size(rows) <= usize::MAX {
        rows_size(rows)
    } else {
        usize::MAX as nat
    }
}

/// The longest fitting prefix is a prefix that fits, and the prefix that is
/// one row longer does not fit.
pub proof fn lemma_fitting_len(rows: Seq<RowView>, budget: nat)
    ensures
        fitting_len(rows, budget) <= rows.len(),
        rows_size(rows.take(fitting_len(rows, budget) as int)) <= budget,
        fitting_len(rows, budget) < rows.len() ==> rows_size(
            rows.take(fitting_len(rows, budget) as int + 1),
        ) > budget,
    decreases rows.len(),
{
    let n = fitting_len(rows, budget);
    if rows.len() == 0 {
        assert(rows.take(0) =~= rows);
    } else if row_size(rows[0]) > budget {
        assert(rows.take(0) =~= Seq::<RowView>::empty());
        assert(rows.take(1) =~= seq![rows[0]]);
        assert(seq![rows[0]].drop_last() =~= Seq::<RowView>::empty());
    } else {
        let rest = rows.drop_first();
        let left = (budget - row_size(rows[0])) as nat;
        lemma_fitting_len(rest, left);
        let m = fitting_len(rest, left);
        lemma_rows_size_front(rows, m as int + 1);
        assert(rows.take(m as int + 1).drop_first() =~= rest.take(m as int));
        if m < rest.len() {
            lemma_rows_size_front(rows, m as int + 2);
            assert(rows.take(m as int + 2).drop_first() =~= rest.take(m as int + 1));
        }
    }
}

/// The estimate of a sequence of rows that is not empty is the estimate of
/// its first row plus that of the rows after it.
pub proof fn lemma_rows_size_front(rows: Seq<RowView>, n: int)
    requires
        1 <= n <= rows.len(),
    ensures
        rows_size(rows.take(n)) == row_size(rows[0]) + rows_size(rows.take(n).drop_first()),
{
    let p = rows.take(n);
    assert(p =~= seq![rows[0]] + p.drop_first());
    crate::values::lemma_rows_size_concat(seq![rows[0]], p.drop_first());
    assert(seq![rows[0]].drop_last() =~= Seq::<RowView>::empty());
    assert(rows_size(Seq::<RowView>::empty()) == 0);
    assert(rows_size(seq![rows[0]]) == row_size(rows[0]));
}

/// What the page selector chooses: the page is never empty where there are
/// rows; a page of two rows or more stays within the budget; and where rows
/// are left over, the page with one more row would exceed the budget.
pub proof fn lemma_page_len_is_greedy(rows: Seq<RowView>, budget: nat)
    ensures
        page_len(rows, budget) <= rows.len(),
        rows.len() > 0 ==> page_len(rows, budget) >= 1,
        page_len(rows, budget) >= 2 ==> rows_size(page(rows, budget)) <= budget,
        page_len(rows, budget) < rows.len() ==> rows_size(
            rows.take(page_len(rows, budget) as int + 1),
        ) > budget,
{
    lemma_fitting_len(rows, budget);
    if rows.len() > 0 && fitting_len(rows, budget) == 0 && 1 < rows.len() {
        lemma_rows_size_prefix(rows, 1);
    }
}

/// Where the first row alone is estimated above the budget, the page is that
/// one row.
pub proof fn lemma_oversized_first_row_is_the_page(rows: Seq<RowView>, budget: nat)
    requires
        rows.len() > 0,
        row_size(rows[0]) > budget,
    ensures
        page(rows, budget) == seq![rows[0]],
        rows_size(page(rows, budget)) == row_size(rows[0]),
{
    assert(rows.take(1) =~= seq![rows[0]]);
    lemma_rows_size_front(rows, 1);
    assert(rows.take(1).drop_first() =~= Seq::<RowView>::empty());
}

/// The estimate of `n` rows that are each estimated at `size` bytes.
pub proof fn lemma_uniform_rows_size(rows: Seq<RowView>, size: nat, n: int)
    requires
        forall|i: int| 0 <= i < rows.len() ==> row_size(#[trigger] rows[i]) == size,
        0 <= n <= rows.len(),
    ensures
        rows_size(rows.take(n)) == n * size,
    decreases n,
{
    if n == 0 {
        assert(rows.take(0) =~= Seq::<RowView>::empty());
    } else {
        lemma_uniform_rows_size(rows, size, n - 1);
        lemma_rows_size_prefix(rows, n - 1);
        assert(n * size == (n - 1) * size + size) by (nonlinear_arith);
    }
}

/// Of rows that are each estimated at `size` bytes, `size` being two or more,
/// a budget of `k * size + 1` selects the first `k` rows, which are estimated
/// at `k * size` bytes: the row after them is left out.
pub proof fn lemma_uniform_rows_page(rows: Seq<RowView>, size: nat, k: nat)
    requires
        forall|i: int| 0 <= i < rows.len() ==> row_size(#[trigger] rows[i]) == size,
        size >= 2,
        1 <= k <= rows.len(),
    ensures
        page(rows, k * size + 1) == rows.take(k as int),
        rows_size(page(rows, k * size + 1)) == k * size,
{
    let budget = k * size + 1;
    let n = page_len(rows, budget);
    lemma_page_len_is_greedy(rows, budget);
    lemma_uniform_rows_size(rows, size, n as int);
    lemma_uniform_rows_size(rows, size, k as int);
    if n >= 2 {
        assert(n <= k) by (nonlinear_arith)
            requires
                n * size <= k * size + 1,
                size >= 2,
        ;
    }
    if n < rows.len() {
        lemma_uniform_rows_size(rows, size, n as int + 1);
        assert(n + 1 > k) by (nonlinear_arith)
            requires
                (n + 1) * size > k * size + 1,
                size >= 2,
        ;
    }
}

/// Chooses the rows of the next page: the leading rows of `rows` whose
/// estimates together stay within `max_size`, or the first row alone where it
/// is larger than that. Returns the estimate of the page and its rows.
pub fn select_slice_of_size(rows: &[Row], max_size: usize) -> (res: (usize, Vec<Row>))
    ensures
        rows_view(res.1@) == page(rows_view(rows@), max_size as nat),
        res.0 == reported_size(page(rows_view(rows@), max_size as nat)),
{
    let ghost all = rows_view(rows@);
    let mut selected: Vec<Row> = Vec::new();
    if rows.len() == 0 {
        assert(rows_view(selected@) =~= page(all, max_size as nat));
        return (0, selected);
    }
    selected.push(rows[0].clone());
    assert(rows_view(selected@) =~= all.take(1));
    proof {
        lemma_rows_size_front(all, 1);
        assert(all.take(1).drop_first() =~= Seq::<RowView>::empty());
    }
    let mut consumed: usize = match rows[0].checked_estimate_size() {
        None => {
            return (usize::MAX, selected);
        },
        Some(size) => size,
    };
    if consumed > max_size {
        return (consumed, selected);
    }
    assert(all.drop_first() =~= all.skip(1));
    let mut i: usize = 1;
    while i < rows.len()
        invariant
            1 <= i <= rows.len(),
            all == rows_view(rows@),
            rows_view(selected@) == all.take(i as int),
            consumed == rows_size(all.take(i as int)),
            consumed <= max_size,
            fitting_len(all, max_size as nat) == i + fitting_len(
                all.skip(i as int),
                (max_size - consumed) as nat,
            ),
        decreases rows.len() - i,
    {
        proof {
            lemma_rows_size_prefix(all, i as int);
            assert(all.skip(i as int)[0] == all[i as int]);
            assert(all.skip(i as int).drop_first() =~= all.skip(i + 1));
        }
        match rows[i].checked_estimate_size() {
            None => {
                return (consumed, selected);
            },
            Some(size) => {
                if size > max_size - consumed {
                    return (consumed, selected);
                }
                consumed = consumed + size;
            },
        }
        let ghost before = rows_view(selected@);
        selected.push(rows[i].clone());
        i = i + 1;
        assert(rows_view(selected@) =~= before.push(all[i - 1]));
        assert(before.push(all[i - 1]) =~= all.take(i as int));
    }
    (consumed, selected)
}

} // verus!
