//! What reconciliation is: which stored amounts have drifted from what the
//! owning chore's policy gives, and what the rows hold once the drift is
//! repaired.

use crate::models::ChoreCompletion;
use crate::models::CompletionWithPolicy;
use crate::models::Correction;
use crate::payment::completion_amount;
use crate::payment::payment_type_of;
use crate::payment::PaymentType;
use vstd::prelude::*;

verus! {

/// Whether the chore that owns the completion pays weekly.
pub open spec fn is_weekly(row: CompletionWithPolicy) -> bool {
    payment_type_of(row.payment_type@) == PaymentType::Weekly
}

/// What a completion of the row's chore earns under the weekly rule and the
/// chore's policy as it stands.
pub open spec fn correct_amount(row: CompletionWithPolicy) -> int {
    completion_amount(
        PaymentType::Weekly,
        row.chore_amount_cents as int,
        row.required_days as int,
    )
}

/// Whether the stored amount of a weekly chore's completion differs from
/// what the policy gives.
pub open spec fn needs_correction(row: CompletionWithPolicy) -> bool {
    is_weekly(row) && row.completion.amount_cents != correct_amount(row)
}

/// The row after reconciliation: the amount of a drifted completion is
/// replaced, and nothing else changes.
pub open spec fn corrected(row: CompletionWithPolicy) -> CompletionWithPolicy {
    if needs_correction(row) {
        CompletionWithPolicy {
            completion: ChoreCompletion {
                amount_cents: correct_amount(row) as i32,
                ..row.completion
            },
            ..row
        }
    } else {
        row
    }
}

/// Every row after reconciliation.
pub open spec fn corrected_rows(rows: Seq<CompletionWithPolicy>) -> Seq<CompletionWithPolicy> {
    Seq::new(rows.len(), |i: int| corrected(rows[i]))
}

/// No completion of a weekly chore holds an amount other than what its
/// chore's policy gives.
pub open spec fn reconciled(rows: Seq<CompletionWithPolicy>) -> bool {
    forall|i: int| 0 <= i < rows.len() ==> !needs_correction(#[trigger] rows[i])
}

/// The write that repairs the row at `index`.
pub open spec fn correction_at(rows: Seq<CompletionWithPolicy>, index: int) -> Correction {
    Correction {
        row: index as usize,
        completion_id: rows[index].completion.id,
        chore_id: rows[index].completion.chore_id,
        old_amount_cents: rows[index].completion.amount_cents,
        new_amount_cents: correct_amount(rows[index]) as i32,
    }
}

/// The writes that reconciliation makes, one for each drifted completion, in
/// the order of the rows.
pub open spec fn corrections(rows: Seq<CompletionWithPolicy>) -> Seq<Correction>
    decreases rows.len(),
{
    if rows.len() == 0 {
        Seq::empty()
    } else if needs_correction(rows.last()) {
        corrections(rows.drop_last()).push(correction_at(rows, rows.len() - 1))
    } else {
        corrections(rows.drop_last())
    }
}

/// What the policy gives lies within `i32`.
pub proof fn lemma_correct_amount_fits(row: CompletionWithPolicy)
    ensures
        i32::MIN <= correct_amount(row) <= i32::MAX,
{
}

/// There are no more corrections than rows, and each names a drifted
/// completion of a weekly chore and holds the write that repairs it.
pub proof fn lemma_corrections_name_drifted_rows(rows: Seq<CompletionWithPolicy>)
    requires
        rows.len() <= usize::MAX,
    ensures
        corrections(rows).len() <= rows.len(),
        forall|k: int|
            0 <= k < corrections(rows).len() ==> {
                let c = #[trigger] corrections(rows)[k];
                &&& c.row < rows.len()
                &&& needs_correction(rows[c.row as int])
                &&& c == correction_at(rows, c.row as int)
            },
    decreases rows.len(),
{
    if rows.len() > 0 {
        let front = rows.drop_last();
        lemma_corrections_name_drifted_rows(front);
        assert forall|k: int| 0 <= k < corrections(rows).len() implies ({
            let c = #[trigger] corrections(rows)[k];
            &&& c.row < rows.len()
            &&& needs_correction(rows[c.row as int])
            &&& c == correction_at(rows, c.row as int)
        }) by {
            if k < corrections(front).len() {
                let c = corrections(front)[k];
                assert(corrections(rows)[k] == c);
                assert(front[c.row as int] == rows[c.row as int]);
            }
        }
    }
}

/// The corrections stand in the order of the rows.
pub proof fn lemma_corrections_keep_row_order(rows: Seq<CompletionWithPolicy>)
    requires
        rows.len() <= usize::MAX,
    ensures
        forall|j: int, k: int|
            0 <= j < k < corrections(rows).len() ==> (#[trigger] corrections(rows)[j]).row < (
            #[trigger] corrections(rows)[k]).row,
    decreases rows.len(),
{
    if rows.len() > 0 {
        let front = rows.drop_last();
        lemma_corrections_keep_row_order(front);
        lemma_corrections_name_drifted_rows(front);
        assert forall|j: int, k: int| 0 <= j < k < corrections(rows).len() implies (
        #[trigger] corrections(rows)[j]).row < (#[trigger] corrections(rows)[k]).row by {
            assert(corrections(rows)[j] == corrections(front)[j]);
            if k < corrections(front).len() {
                assert(corrections(rows)[k] == corrections(front)[k]);
            }
        }
    }
}

/// Every drifted completion of a weekly chore has its correction.
pub proof fn lemma_corrections_miss_no_row(rows: Seq<CompletionWithPolicy>, index: int)
    requires
        0 <= index < rows.len(),
        needs_correction(rows[index]),
    ensures
        exists|k: int|
            0 <= k < corrections(rows).len() && #[trigger] corrections(rows)[k] == correction_at(
                rows,
                index,
            ),
    decreases rows.len(),
{
    let front = rows.drop_last();
    if index < rows.len() - 1 {
        assert(front[index] == rows[index]);
        lemma_corrections_miss_no_row(front, index);
        let k = choose|k: int|
            0 <= k < corrections(front).len() && #[trigger] corrections(front)[k] == correction_at(
                front,
                index,
            );
        assert(corrections(rows)[k] == corrections(front)[k]);
    } else {
        assert(corrections(rows)[corrections(rows).len() - 1] == correction_at(rows, index));
    }
}

/// The corrections of the first `count` rows do not depend on the rows after
/// them.
pub proof fn lemma_corrections_extend(rows: Seq<CompletionWithPolicy>, count: int)
    requires
        0 <= count < rows.len(),
    ensures
        corrections(rows.take(count + 1)) == if needs_correction(rows[count]) {
            corrections(rows.take(count)).push(correction_at(rows, count))
        } else {
            corrections(rows.take(count))
        },
{
    let prefix = rows.take(count + 1);
    assert(prefix.drop_last() =~= rows.take(count));
    assert(prefix.last() == rows[count]);
}

/// After reconciliation no completion of a weekly chore holds an amount other
/// than what its chore's policy gives, and the rows of daily chores are as
/// they were.
pub proof fn lemma_fix_reconciles(rows: Seq<CompletionWithPolicy>)
    ensures
        reconciled(corrected_rows(rows)),
        corrected_rows(rows).len() == rows.len(),
        forall|i: int|
            0 <= i < rows.len() && !is_weekly(#[trigger] rows[i]) ==> corrected_rows(rows)[i]
                == rows[i],
{
    assert forall|i: int| 0 <= i < rows.len() implies !needs_correction(
        #[trigger] corrected_rows(rows)[i],
    ) by {
        lemma_correct_amount_fits(rows[i]);
    }
}

/// Rows that are reconciled need no correction, and reconciliation leaves
/// them as they are.
pub proof fn lemma_reconciled_rows_stay(rows: Seq<CompletionWithPolicy>)
    requires
        reconciled(rows),
    ensures
        corrections(rows).len() == 0,
        corrected_rows(rows) == rows,
    decreases rows.len(),
{
    if rows.len() > 0 {
        assert(needs_correction(rows.last()) == needs_correction(rows[rows.len() - 1]));
        assert forall|i: int| 0 <= i < rows.drop_last().len() implies !needs_correction(
            #[trigger] rows.drop_last()[i],
        ) by {
            assert(rows.drop_last()[i] == rows[i]);
        }
        lemma_reconciled_rows_stay(rows.drop_last());
    }
    assert(corrected_rows(rows) =~= rows);
}

/// Reconciliation is idempotent: a second run on the rows that a first run
/// left repairs nothing and changes nothing.
pub proof fn lemma_fix_is_idempotent(rows: Seq<CompletionWithPolicy>)
    ensures
        corrections(corrected_rows(rows)).len() == 0,
        corrected_rows(corrected_rows(rows)) == corrected_rows(rows),
{
    lemma_fix_reconciles(rows);
    lemma_reconciled_rows_stay(corrected_rows(rows));
}


} // verus!
