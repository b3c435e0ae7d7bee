//! Reconciliation of stored completion amounts.
//!
//! A stored amount can drift from what the owning chore's policy gives, after
//! a change of the policy or of the rules. The operations here find that
//! drift among the completions of weekly chores and repair it. Completions of
//! daily chores are never examined.

use crate::models::CompletionWithPolicy;
use crate::models::Correction;
use crate::payment::PaymentType;
use crate::svc::reconciliation::corrected;
use crate::svc::reconciliation::corrected_rows;
use crate::svc::reconciliation::corrections;
use crate::svc::reconciliation::is_weekly;
use crate::svc::reconciliation::lemma_corrections_extend;
use crate::svc::reconciliation::lemma_corrections_miss_no_row;
use crate::svc::reconciliation::lemma_corrections_name_drifted_rows;
use crate::svc::reconciliation::lemma_fix_reconciles;
use crate::svc::reconciliation::needs_correction;
use crate::svc::reconciliation::reconciled;
use crate::svc::weekly_report::build_weekly_report;
use crate::svc::weekly_report::in_group;
use crate::svc::weekly_report::lemma_no_weekly_rows_no_report;
use crate::svc::weekly_report::lemma_report_covers_weekly_chores;
use crate::svc::weekly_report::lemma_weekly_chores_are_distinct;
use crate::svc::weekly_report::weekly_report;
use vstd::prelude::*;

verus! {

pub struct ChoreCompletionFixSvc {}

impl ChoreCompletionFixSvc {
    /// Lists the writes that reconciliation has to make: one for each
    /// completion of a weekly chore whose stored amount differs from what the
    /// chore's policy gives, in the order of the rows. A row of a daily chore
    /// gives none, whatever it holds.
    pub fn weekly_corrections(rows: &Vec<CompletionWithPolicy>) -> (plan: Vec<Correction>)
        ensures
            plan@ == corrections(rows@),
            plan@.len() <= rows@.len(),
            forall|k: int|
                0 <= k < plan@.len() ==> is_weekly(rows@[(#[trigger] plan@[k]).row as int]),
            reconciled(rows@) <==> plan@.len() == 0,
    {
        let mut plan: Vec<Correction> = Vec::new();
        let mut index: usize = 0;
        while index < rows.len()
            invariant
                index <= rows@.len(),
                plan@ == corrections(rows@.take(index as int)),
            decreases rows@.len() - index,
        {
            let row = &rows[index];
            let payment_type = PaymentType::from(row.payment_type.clone());
            proof {
                lemma_corrections_extend(rows@, index as int);
            }
            if payment_type == PaymentType::Weekly {
                let correct = payment_type.calculate_completion_amount(
                    row.chore_amount_cents,
                    row.required_days,
                );
                if row.completion.amount_cents != correct {
                    plan.push(
                        Correction {
                            row: index,
                            completion_id: row.completion.id,
                            chore_id: row.completion.chore_id,
                            old_amount_cents: row.completion.amount_cents,
                            new_amount_cents: correct,
                        },
                    );
                }
            }
            index = index + 1;
        }
        proof {
            assert(rows@.take(rows@.len() as int) =~= rows@);
            lemma_corrections_name_drifted_rows(rows@);
            if plan@.len() == 0 {
                assert forall|i: int| 0 <= i < rows@.len() implies !needs_correction(
                    #[trigger] rows@[i],
                ) by {
                    if needs_correction(rows@[i]) {
                        lemma_corrections_miss_no_row(rows@, i);
                    }
                }
            } else {
                assert(needs_correction(rows@[plan@[0].row as int]));
            }
        }
        plan
    }

    /// Repairs the rows in place: every completion of a weekly chore whose
    /// stored amount differs from what the chore's policy gives takes that
    /// amount. Nothing else changes: no other field, no row of a daily chore,
    /// and no row is added or removed. Returns the number of completions
    /// repaired.
    pub fn fix_weekly_completion_amounts(rows: &mut Vec<CompletionWithPolicy>) -> (updated_count:
        i32)
        requires
            old(rows)@.len() <= i32::MAX,
        ensures
            final(rows)@ == corrected_rows(old(rows)@),
            updated_count == corrections(old(rows)@).len(),
            reconciled(final(rows)@),
            final(rows)@.len() == old(rows)@.len(),
            forall|i: int|
                0 <= i < old(rows)@.len() && !is_weekly(#[trigger] old(rows)@[i])
                    ==> final(rows)@[i] == old(rows)@[i],
    {
        let mut updated_count: i32 = 0;
        let mut index: usize = 0;
        while index < rows.len()
            invariant
                index <= rows@.len(),
                rows@.len() == old(rows)@.len(),
                rows@.len() <= i32::MAX,
                0 <= updated_count <= index,
                updated_count == corrections(old(rows)@.take(index as int)).len(),
                forall|i: int| 0 <= i < index ==> #[trigger] rows@[i] == corrected(old(rows)@[i]),
                forall|i: int| index <= i < rows@.len() ==> #[trigger] rows@[i] == old(rows)@[i],
            decreases rows@.len() - index,
        {
            let payment_type = PaymentType::from(rows[index].payment_type.clone());
            proof {
                lemma_corrections_extend(old(rows)@, index as int);
            }
            if payment_type == PaymentType::Weekly {
                let correct = payment_type.calculate_completion_amount(
                    rows[index].chore_amount_cents,
                    rows[index].required_days,
                );
                if rows[index].completion.amount_cents != correct {
                    rows[index].completion.amount_cents = correct;
                    updated_count = updated_count + 1;
                }
            }
            index = index + 1;
        }
        proof {
            assert(old(rows)@.take(old(rows)@.len() as int) =~= old(rows)@);
            assert(rows@ =~= corrected_rows(old(rows)@));
            lemma_fix_reconciles(old(rows)@);
        }
        updated_count
    }

    /// Reports on the completions of weekly chores without changing any: one
    /// line for each weekly chore that has a completion, in the order in
    /// which their first completions stand. A line holds the chore, the
    /// number of its completions, the sum of the amounts stored for them, and
    /// the sum that the chore's policy gives for as many completions. Rows of
    /// daily chores count for nothing.
    pub fn analyze_weekly_completion_amounts(rows: &Vec<CompletionWithPolicy>) -> (report: Vec<
        (i32, i64, i64, i64),
    >)
        requires
            rows@.len() <= i32::MAX,
        ensures
            report@ == weekly_report(rows@),
            forall|k: int| 0 <= k < report@.len() ==> (#[trigger] report@[k]).1 >= 1,
            forall|j: int, k: int| 0 <= j < k < report@.len() ==> report@[j].0 != report@[k].0,
            forall|i: int|
                0 <= i < rows@.len() && is_weekly(#[trigger] rows@[i]) ==> exists|k: int|
                    0 <= k < report@.len() && (#[trigger] report@[k]).0
                        == rows@[i].completion.chore_id,
            forall|k: int|
                0 <= k < report@.len() ==> exists|i: int|
                    0 <= i < rows@.len() && in_group(
                        #[trigger] rows@[i],
                        (#[trigger] report@[k]).0 as int,
                    ),
            (forall|i: int| 0 <= i < rows@.len() ==> !is_weekly(#[trigger] rows@[i]))
                ==> report@.len() == 0,
    {
        let report = build_weekly_report(rows);
        proof {
            lemma_weekly_chores_are_distinct(rows@);
            lemma_report_covers_weekly_chores(rows@);
            if forall|i: int| 0 <= i < rows@.len() ==> !is_weekly(#[trigger] rows@[i]) {
                lemma_no_weekly_rows_no_report(rows@);
            }
        }
        report
    }
}

} // verus!
