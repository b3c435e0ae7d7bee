//! What a report on the completions of weekly chores holds.
//!
//! The completions are grouped by the chore that owns them. A group has the
//! number of its completions, the sum of the amounts stored for them, and the
//! sum that the owning chore's policy gives for as many completions. The
//! policy of a group is the one that stands in its first row.

use crate::models::CompletionWithPolicy;
use crate::payment::PaymentType;
use crate::svc::reconciliation::correct_amount;
use crate::svc::reconciliation::is_weekly;
use std::collections::HashMap;
use vstd::prelude::*;
use vstd::std_specs::hash::group_hash_axioms;

verus! {

/// Whether the row is a completion of the weekly chore `chore_id`.
pub open spec fn in_group(row: CompletionWithPolicy, chore_id: int) -> bool {
    is_weekly(row) && row.completion.chore_id == chore_id
}

/// The number of completions of the weekly chore `chore_id`.
pub open spec fn completion_count(rows: Seq<CompletionWithPolicy>, chore_id: int) -> int
    decreases rows.len(),
{
    if rows.len() == 0 {
        0
    } else {
        completion_count(rows.drop_last(), chore_id) + if in_group(rows.last(), chore_id) {
            1int
        } else {
            0int
        }
    }
}

/// The sum of the amounts stored for the completions of the weekly chore
/// `chore_id`.
pub open spec fn current_total(rows: Seq<CompletionWithPolicy>, chore_id: int) -> int
    decreases rows.len(),
{
    if rows.len() == 0 {
        0
    } else {
        current_total(rows.drop_last(), chore_id) + if in_group(rows.last(), chore_id) {
            rows.last().completion.amount_cents as int
        } else {
            0int
        }
    }
}

/// The place of the first completion of the weekly chore `chore_id`, or the
/// number of rows where it has none.
pub open spec fn first_row_of(rows: Seq<CompletionWithPolicy>, chore_id: int) -> int
    decreases rows.len(),
{
    if rows.len() == 0 {
        0
    } else if first_row_of(rows.drop_last(), chore_id) < rows.len() - 1 {
        first_row_of(rows.drop_last(), chore_id)
    } else if in_group(rows.last(), chore_id) {
        rows.len() - 1
    } else {
        rows.len() as int
    }
}

/// What the completions of the weekly chore `chore_id` earn together under
/// the chore's policy as it stands.
pub open spec fn expected_total(rows: Seq<CompletionWithPolicy>, chore_id: int) -> int {
    correct_amount(rows[first_row_of(rows, chore_id)]) * completion_count(rows, chore_id)
}

/// The weekly chores that have a completion, each once, in the order in
/// which their first completions stand.
pub open spec fn weekly_chores(rows: Seq<CompletionWithPolicy>) -> Seq<i32>
    decreases rows.len(),
{
    if rows.len() == 0 {
        Seq::empty()
    } else if is_weekly(rows.last()) && !weekly_chores(rows.drop_last()).contains(
        rows.last().completion.chore_id,
    ) {
        weekly_chores(rows.drop_last()).push(rows.last().completion.chore_id)
    } else {
        weekly_chores(rows.drop_last())
    }
}

/// The report's line on one weekly chore: the chore, the number of its
/// completions, the sum stored for them and the sum that the policy gives.
pub open spec fn report_line(rows: Seq<CompletionWithPolicy>, chore_id: i32) -> (
    i32,
    i64,
    i64,
    i64,
) {
    (
        chore_id,
        completion_count(rows, chore_id as int) as i64,
        current_total(rows, chore_id as int) as i64,
        expected_total(rows, chore_id as int) as i64,
    )
}

/// The report: one line for each weekly chore that has a completion.
pub open spec fn weekly_report(rows: Seq<CompletionWithPolicy>) -> Seq<(i32, i64, i64, i64)> {
    Seq::new(weekly_chores(rows).len(), |k: int| report_line(rows, weekly_chores(rows)[k]))
}

/// How the groups change when one more row is taken into account.
pub proof fn lemma_one_more_row(rows: Seq<CompletionWithPolicy>, count: int, chore_id: int)
    requires
        0 <= count < rows.len(),
    ensures
        completion_count(rows.take(count + 1), chore_id) == completion_count(
            rows.take(count),
            chore_id,
        ) + if in_group(rows[count], chore_id) {
            1int
        } else {
            0int
        },
        current_total(rows.take(count + 1), chore_id) == current_total(rows.take(count), chore_id)
            + if in_group(rows[count], chore_id) {
            rows[count].completion.amount_cents as int
        } else {
            0int
        },
        first_row_of(rows.take(count + 1), chore_id) == if first_row_of(
            rows.take(count),
            chore_id,
        ) < count {
            first_row_of(rows.take(count), chore_id)
        } else if in_group(rows[count], chore_id) {
            count
        } else {
            count + 1
        },
        weekly_chores(rows.take(count + 1)) == if is_weekly(rows[count]) && !weekly_chores(
            rows.take(count),
        ).contains(rows[count].completion.chore_id) {
            weekly_chores(rows.take(count)).push(rows[count].completion.chore_id)
        } else {
            weekly_chores(rows.take(count))
        },
{
    let longer = rows.take(count + 1);
    assert(longer.drop_last() =~= rows.take(count));
    assert(longer.last() == rows[count]);
}

/// A group has at most as many completions as there are rows, and its stored
/// sum is bounded by as many amounts.
pub proof fn lemma_group_bounds(rows: Seq<CompletionWithPolicy>, chore_id: int)
    ensures
        0 <= completion_count(rows, chore_id) <= rows.len(),
        -0x8000_0000 * rows.len() <= current_total(rows, chore_id) <= 0x7fff_ffff * rows.len(),
        0 <= first_row_of(rows, chore_id) <= rows.len(),
    decreases rows.len(),
{
    if rows.len() > 0 {
        lemma_group_bounds(rows.drop_last(), chore_id);
    }
}

/// The first row of a group belongs to the group, and no row before it does.
pub proof fn lemma_first_row_is_first(rows: Seq<CompletionWithPolicy>, chore_id: int)
    ensures
        first_row_of(rows, chore_id) < rows.len() ==> in_group(
            rows[first_row_of(rows, chore_id)],
            chore_id,
        ),
        forall|j: int|
            0 <= j < first_row_of(rows, chore_id) && j < rows.len() ==> !in_group(
                #[trigger] rows[j],
                chore_id,
            ),
    decreases rows.len(),
{
    if rows.len() > 0 {
        let front = rows.drop_last();
        lemma_first_row_is_first(front, chore_id);
        lemma_group_bounds(front, chore_id);
        assert forall|j: int|
            0 <= j < first_row_of(rows, chore_id) && j < rows.len() implies !in_group(
            #[trigger] rows[j],
            chore_id,
        ) by {
            if j < front.len() {
                assert(front[j] == rows[j]);
            }
        }
    }
}

/// A chore stands in the list of weekly chores exactly when it has a
/// completion among the rows of weekly chores; a chore that does not stand
/// there has no completion, no stored sum and no first row.
pub proof fn lemma_listed_chores_have_completions(rows: Seq<CompletionWithPolicy>, chore_id: i32)
    ensures
        weekly_chores(rows).contains(chore_id) <==> completion_count(rows, chore_id as int) > 0,
        weekly_chores(rows).contains(chore_id) <==> first_row_of(rows, chore_id as int)
            < rows.len(),
        weekly_chores(rows).contains(chore_id) <==> exists|i: int|
            0 <= i < rows.len() && in_group(#[trigger] rows[i], chore_id as int),
        !weekly_chores(rows).contains(chore_id) ==> current_total(rows, chore_id as int) == 0,
    decreases rows.len(),
{
    if rows.len() > 0 {
        let front = rows.drop_last();
        let last = rows.len() - 1;
        lemma_listed_chores_have_completions(front, chore_id);
        lemma_group_bounds(front, chore_id as int);
        let listed = weekly_chores(front);
        if listed.contains(chore_id) {
            let k = choose|k: int| 0 <= k < listed.len() && listed[k] == chore_id;
            assert(weekly_chores(rows)[k] == chore_id);
            let i = choose|i: int| 0 <= i < front.len() && in_group(#[trigger] front[i], chore_id as int);
            assert(in_group(rows[i], chore_id as int));
        } else if in_group(rows.last(), chore_id as int) {
            assert(weekly_chores(rows).last() == chore_id);
            assert(in_group(rows[last], chore_id as int));
        } else {
            assert forall|k: int| 0 <= k < weekly_chores(rows).len() implies weekly_chores(
                rows,
            )[k] != chore_id by {
                if k < listed.len() {
                    assert(weekly_chores(rows)[k] == listed[k]);
                }
            }
            assert forall|i: int| 0 <= i < rows.len() implies !in_group(
                #[trigger] rows[i],
                chore_id as int,
            ) by {
                if i < last {
                    assert(front[i] == rows[i]);
                }
            }
        }
    }
}

/// No chore stands twice in the list of weekly chores, and the list is no
/// longer than the rows.
pub proof fn lemma_weekly_chores_are_distinct(rows: Seq<CompletionWithPolicy>)
    ensures
        weekly_chores(rows).len() <= rows.len(),
        forall|j: int, k: int|
            0 <= j < k < weekly_chores(rows).len() ==> weekly_chores(rows)[j] != weekly_chores(
                rows,
            )[k],
    decreases rows.len(),
{
    if rows.len() > 0 {
        let front = rows.drop_last();
        lemma_weekly_chores_are_distinct(front);
        let listed = weekly_chores(front);
        assert forall|j: int, k: int| 0 <= j < k < weekly_chores(rows).len() implies weekly_chores(
            rows,
        )[j] != weekly_chores(rows)[k] by {
            assert(weekly_chores(rows)[j] == listed[j]);
            if k < listed.len() {
                assert(weekly_chores(rows)[k] == listed[k]);
            }
        }
    }
}

/// The weekly chores stand in the order of their first completions.
pub proof fn lemma_weekly_chores_follow_first_rows(rows: Seq<CompletionWithPolicy>)
    ensures
        forall|j: int, k: int|
            0 <= j < k < weekly_chores(rows).len() ==> first_row_of(
                rows,
                #[trigger] weekly_chores(rows)[j] as int,
            ) < first_row_of(rows, #[trigger] weekly_chores(rows)[k] as int),
    decreases rows.len(),
{
    if rows.len() > 0 {
        let front = rows.drop_last();
        let listed = weekly_chores(front);
        lemma_weekly_chores_follow_first_rows(front);
        assert forall|j: int, k: int| 0 <= j < k < weekly_chores(rows).len() implies first_row_of(
            rows,
            #[trigger] weekly_chores(rows)[j] as int,
        ) < first_row_of(rows, #[trigger] weekly_chores(rows)[k] as int) by {
            let first = weekly_chores(rows)[j];
            let second = weekly_chores(rows)[k];
            assert(first == listed[j]);
            assert(listed.contains(first));
            lemma_listed_chores_have_completions(front, first);
            lemma_group_bounds(front, second as int);
            if k < listed.len() {
                assert(second == listed[k]);
                assert(listed.contains(second));
                lemma_listed_chores_have_completions(front, second);
            } else {
                lemma_listed_chores_have_completions(front, second);
            }
        }
    }
}

/// The report has a line for every weekly chore that has a completion, and a
/// line for no other chore: none for a chore whose completions all belong to
/// rows of daily chores.
pub proof fn lemma_report_covers_weekly_chores(rows: Seq<CompletionWithPolicy>)
    ensures
        forall|i: int|
            0 <= i < rows.len() && is_weekly(#[trigger] rows[i]) ==> exists|k: int|
                0 <= k < weekly_report(rows).len() && (#[trigger] weekly_report(rows)[k]).0
                    == rows[i].completion.chore_id,
        forall|k: int|
            0 <= k < weekly_report(rows).len() ==> exists|i: int|
                0 <= i < rows.len() && in_group(
                    #[trigger] rows[i],
                    (#[trigger] weekly_report(rows)[k]).0 as int,
                ),
{
    assert forall|i: int| 0 <= i < rows.len() && is_weekly(#[trigger] rows[i]) implies exists|
        k: int,
    |
        0 <= k < weekly_report(rows).len() && (#[trigger] weekly_report(rows)[k]).0
            == rows[i].completion.chore_id by {
        let chore_id = rows[i].completion.chore_id;
        lemma_listed_chores_have_completions(rows, chore_id);
        assert(in_group(rows[i], chore_id as int));
        let k = choose|k: int| 0 <= k < weekly_chores(rows).len() && weekly_chores(rows)[k] == chore_id;
        assert(weekly_report(rows)[k].0 == chore_id);
    }
    assert forall|k: int| 0 <= k < weekly_report(rows).len() implies exists|i: int|
        0 <= i < rows.len() && in_group(
            #[trigger] rows[i],
            (#[trigger] weekly_report(rows)[k]).0 as int,
        ) by {
        let chore_id = weekly_chores(rows)[k];
        assert(weekly_chores(rows).contains(chore_id));
        lemma_listed_chores_have_completions(rows, chore_id);
    }
}

/// Rows without a weekly chore give an empty report.
pub proof fn lemma_no_weekly_rows_no_report(rows: Seq<CompletionWithPolicy>)
    requires
        forall|i: int| 0 <= i < rows.len() ==> !is_weekly(#[trigger] rows[i]),
    ensures
        weekly_report(rows).len() == 0,
{
    if weekly_report(rows).len() > 0 {
        lemma_report_covers_weekly_chores(rows);
        let chore_id = weekly_report(rows)[0].0;
        let i = choose|i: int| 0 <= i < rows.len() && in_group(#[trigger] rows[i], chore_id as int);
        assert(is_weekly(rows[i]));
    }
}

/// What is known of one weekly chore while its completions are counted.
struct Tally {
    chore_id: i32,
    completion_count: i64,
    current_total_cents: i64,
    chore_amount_cents: i32,
    required_days: i32,
}

/// Whether the tallies hold, group by group, what the first `count` rows
/// give.
spec fn tallies_match(
    tallies: Seq<Tally>,
    places: Map<i32, usize>,
    rows: Seq<CompletionWithPolicy>,
    count: int,
) -> bool {
    let seen = rows.take(count);
    &&& tallies.len() == weekly_chores(seen).len()
    &&& forall|k: int|
        0 <= k < tallies.len() ==> {
            let tally = #[trigger] tallies[k];
            let first = first_row_of(seen, tally.chore_id as int);
            &&& tally.chore_id == weekly_chores(seen)[k]
            &&& tally.completion_count == completion_count(seen, tally.chore_id as int)
            &&& tally.current_total_cents == current_total(seen, tally.chore_id as int)
            &&& 0 <= first < count
            &&& tally.chore_amount_cents == rows[first].chore_amount_cents
            &&& tally.required_days == rows[first].required_days
        }
    &&& forall|chore_id: i32| #[trigger]
        places.contains_key(chore_id) <==> weekly_chores(seen).contains(chore_id)
    &&& forall|chore_id: i32| #[trigger]
        places.contains_key(chore_id) ==> places[chore_id] < tallies.len()
            && tallies[places[chore_id] as int].chore_id == chore_id
}

/// What a list contains after one more item.
proof fn lemma_contains_after_push(list: Seq<i32>, pushed: i32, item: i32)
    ensures
        list.push(pushed).contains(item) <==> list.contains(item) || item == pushed,
{
    if list.contains(item) {
        let k = choose|k: int| 0 <= k < list.len() && list[k] == item;
        assert(list.push(pushed)[k] == item);
    }
    if item == pushed {
        assert(list.push(pushed)[list.len() as int] == item);
    }
}


/// The tallies stay as they are over a row of a daily chore.
proof fn lemma_row_passed_over(
    tallies: Seq<Tally>,
    places: Map<i32, usize>,
    rows: Seq<CompletionWithPolicy>,
    index: int,
)
    requires
        0 <= index < rows.len(),
        tallies_match(tallies, places, rows, index),
        !is_weekly(rows[index]),
    ensures
        tallies_match(tallies, places, rows, index + 1),
{
    let seen = rows.take(index);
    let longer = rows.take(index + 1);
    lemma_one_more_row(rows, index, 0);
    assert(weekly_chores(longer) == weekly_chores(seen));
    assert forall|k: int| 0 <= k < tallies.len() implies ({
        let tally = #[trigger] tallies[k];
        let first = first_row_of(longer, tally.chore_id as int);
        &&& tally.chore_id == weekly_chores(longer)[k]
        &&& tally.completion_count == completion_count(longer, tally.chore_id as int)
        &&& tally.current_total_cents == current_total(longer, tally.chore_id as int)
        &&& 0 <= first < index + 1
        &&& tally.chore_amount_cents == rows[first].chore_amount_cents
        &&& tally.required_days == rows[first].required_days
    }) by {
        lemma_one_more_row(rows, index, tallies[k].chore_id as int);
    }
}

/// The tallies after a further completion of a chore that has its tally.
proof fn lemma_row_counted(
    before: Seq<Tally>,
    after: Seq<Tally>,
    places: Map<i32, usize>,
    rows: Seq<CompletionWithPolicy>,
    index: int,
)
    requires
        0 <= index < rows.len(),
        tallies_match(before, places, rows, index),
        is_weekly(rows[index]),
        places.contains_key(rows[index].completion.chore_id),
        after.len() == before.len(),
        forall|k: int|
            0 <= k < before.len() && k != places[rows[index].completion.chore_id] ==> after[k]
                == before[k],
        after[places[rows[index].completion.chore_id] as int] == (Tally {
            completion_count: (before[places[rows[index].completion.chore_id] as int].completion_count
                + 1) as i64,
            current_total_cents: (before[places[rows[index].completion.chore_id] as int].current_total_cents
                + rows[index].completion.amount_cents) as i64,
            ..before[places[rows[index].completion.chore_id] as int]
        }),
        rows.len() <= i32::MAX,
    ensures
        tallies_match(after, places, rows, index + 1),
{
    let seen = rows.take(index);
    let longer = rows.take(index + 1);
    let chore_id = rows[index].completion.chore_id;
    let at = places[chore_id] as int;
    lemma_one_more_row(rows, index, chore_id as int);
    lemma_weekly_chores_are_distinct(seen);
    lemma_group_counts_fit(seen, chore_id as int);
    assert(weekly_chores(seen).contains(chore_id));
    assert(weekly_chores(longer) == weekly_chores(seen));
    assert forall|k: int| 0 <= k < after.len() implies ({
        let tally = #[trigger] after[k];
        let first = first_row_of(longer, tally.chore_id as int);
        &&& tally.chore_id == weekly_chores(longer)[k]
        &&& tally.completion_count == completion_count(longer, tally.chore_id as int)
        &&& tally.current_total_cents == current_total(longer, tally.chore_id as int)
        &&& 0 <= first < index + 1
        &&& tally.chore_amount_cents == rows[first].chore_amount_cents
        &&& tally.required_days == rows[first].required_days
    }) by {
        let was = before[k];
        lemma_one_more_row(rows, index, was.chore_id as int);
        if k != at {
            assert(after[k] == was);
            assert(was.chore_id == weekly_chores(seen)[k]);
            assert(before[at].chore_id == weekly_chores(seen)[at]);
            assert(was.chore_id != chore_id);
        }
    }
}

/// The tallies after the first completion of a chore.
proof fn lemma_row_opens_tally(
    before: Seq<Tally>,
    places: Map<i32, usize>,
    rows: Seq<CompletionWithPolicy>,
    index: int,
)
    requires
        0 <= index < rows.len(),
        tallies_match(before, places, rows, index),
        is_weekly(rows[index]),
        !places.contains_key(rows[index].completion.chore_id),
        rows.len() <= i32::MAX,
    ensures
        before.len() <= index,
        tallies_match(
            before.push(
                Tally {
                    chore_id: rows[index].completion.chore_id,
                    completion_count: 1,
                    current_total_cents: rows[index].completion.amount_cents as i64,
                    chore_amount_cents: rows[index].chore_amount_cents,
                    required_days: rows[index].required_days,
                },
            ),
            places.insert(rows[index].completion.chore_id, before.len() as usize),
            rows,
            index + 1,
        ),
{
    let seen = rows.take(index);
    let longer = rows.take(index + 1);
    let chore_id = rows[index].completion.chore_id;
    let opened = Tally {
        chore_id,
        completion_count: 1,
        current_total_cents: rows[index].completion.amount_cents as i64,
        chore_amount_cents: rows[index].chore_amount_cents,
        required_days: rows[index].required_days,
    };
    let after = before.push(opened);
    let after_places = places.insert(chore_id, before.len() as usize);
    lemma_one_more_row(rows, index, chore_id as int);
    lemma_weekly_chores_are_distinct(seen);
    lemma_listed_chores_have_completions(seen, chore_id);
    lemma_group_bounds(seen, chore_id as int);
    assert(!weekly_chores(seen).contains(chore_id));
    assert(weekly_chores(longer) == weekly_chores(seen).push(chore_id));
    assert forall|k: int| 0 <= k < after.len() implies ({
        let tally = #[trigger] after[k];
        let first = first_row_of(longer, tally.chore_id as int);
        &&& tally.chore_id == weekly_chores(longer)[k]
        &&& tally.completion_count == completion_count(longer, tally.chore_id as int)
        &&& tally.current_total_cents == current_total(longer, tally.chore_id as int)
        &&& 0 <= first < index + 1
        &&& tally.chore_amount_cents == rows[first].chore_amount_cents
        &&& tally.required_days == rows[first].required_days
    }) by {
        if k < before.len() {
            let was = before[k];
            lemma_one_more_row(rows, index, was.chore_id as int);
            assert(was.chore_id == weekly_chores(seen)[k]);
            assert(weekly_chores(seen).contains(was.chore_id));
        }
    }
    assert forall|c: i32| #[trigger]
        after_places.contains_key(c) <==> weekly_chores(longer).contains(c) by {
        lemma_contains_after_push(weekly_chores(seen), chore_id, c);
    }
    assert forall|c: i32| #[trigger] after_places.contains_key(c) implies after_places[c]
        < after.len() && after[after_places[c] as int].chore_id == c by {
        if c != chore_id {
            assert(places.contains_key(c));
        }
    }
}

/// The count and the stored sum of a group fit in 64 bits with room for one
/// more completion, where there are no more rows than `i32` can count.
proof fn lemma_group_counts_fit(rows: Seq<CompletionWithPolicy>, chore_id: int)
    requires
        rows.len() <= i32::MAX,
    ensures
        0 <= completion_count(rows, chore_id) <= i32::MAX,
        -0x4000_0000_0000_0000 <= current_total(rows, chore_id) <= 0x3fff_ffff_0000_0001,
{
    lemma_group_bounds(rows, chore_id);
    assert(-0x8000_0000 * rows.len() >= -0x8000_0000 * 0x7fff_ffff && 0x7fff_ffff * rows.len()
        <= 0x7fff_ffff * 0x7fff_ffff) by (nonlinear_arith)
        requires
            0 <= rows.len() <= 0x7fff_ffff,
    ;
}

/// Takes the row at `index` into the tallies.
fn tally_row(
    tallies: &mut Vec<Tally>,
    places: &mut HashMap<i32, usize>,
    rows: &Vec<CompletionWithPolicy>,
    index: usize,
)
    requires
        index < rows@.len() <= i32::MAX,
        tallies_match(old(tallies)@, old(places)@, rows@, index as int),
    ensures
        tallies_match(final(tallies)@, final(places)@, rows@, index + 1),
{
    broadcast use group_hash_axioms;

    let row = &rows[index];
    let payment_type = PaymentType::from(row.payment_type.clone());
    let chore_id = row.completion.chore_id;
    let ghost before = tallies@;
    if payment_type == PaymentType::Weekly {
        let place = places.get(&chore_id);
        match place {
            Some(at) => {
                let at: usize = *at;
                proof {
                    lemma_group_counts_fit(rows@.take(index as int), chore_id as int);
                }
                tallies[at].completion_count = tallies[at].completion_count + 1;
                tallies[at].current_total_cents = tallies[at].current_total_cents
                    + row.completion.amount_cents as i64;
                proof {
                    lemma_row_counted(before, tallies@, places@, rows@, index as int);
                }
            },
            None => {
                proof {
                    lemma_row_opens_tally(before, places@, rows@, index as int);
                }
                places.insert(chore_id, tallies.len());
                tallies.push(
                    Tally {
                        chore_id,
                        completion_count: 1,
                        current_total_cents: row.completion.amount_cents as i64,
                        chore_amount_cents: row.chore_amount_cents,
                        required_days: row.required_days,
                    },
                );
            },
        }
    } else {
        proof {
            lemma_row_passed_over(before, places@, rows@, index as int);
        }
    }
}

/// Builds the report on the completions of weekly chores.
pub(crate) fn build_weekly_report(rows: &Vec<CompletionWithPolicy>) -> (report: Vec<
    (i32, i64, i64, i64),
>)
    requires
        rows@.len() <= i32::MAX,
    ensures
        report@ == weekly_report(rows@),
        forall|k: int| 0 <= k < report@.len() ==> (#[trigger] report@[k]).1 >= 1,
{
    let mut tallies: Vec<Tally> = Vec::new();
    let mut places: HashMap<i32, usize> = HashMap::new();
    let mut index: usize = 0;
    while index < rows.len()
        invariant
            index <= rows@.len(),
            rows@.len() <= i32::MAX,
            tallies_match(tallies@, places@, rows@, index as int),
        decreases rows@.len() - index,
    {
        tally_row(&mut tallies, &mut places, rows, index);
        index = index + 1;
    }
    let mut report: Vec<(i32, i64, i64, i64)> = Vec::new();
    let mut place: usize = 0;
    proof {
        assert(rows@.take(rows@.len() as int) =~= rows@);
        lemma_weekly_chores_are_distinct(rows@);
    }
    while place < tallies.len()
        invariant
            place <= tallies@.len(),
            rows@.len() <= i32::MAX,
            tallies_match(tallies@, places@, rows@, rows@.len() as int),
            rows@.take(rows@.len() as int) == rows@,
            report@.len() == place,
            forall|k: int|
                0 <= k < place ==> #[trigger] report@[k] == report_line(
                    rows@,
                    weekly_chores(rows@)[k],
                ) && report@[k].1 >= 1,
        decreases tallies@.len() - place,
    {
        let tally = &tallies[place];
        let correct = PaymentType::Weekly.calculate_completion_amount(
            tally.chore_amount_cents,
            tally.required_days,
        );
        proof {
            let c = tally.chore_id;
            lemma_group_counts_fit(rows@, c as int);
            assert(weekly_chores(rows@).contains(c));
            lemma_listed_chores_have_completions(rows@, c);
            assert(-0x8000_0000 * 0x7fff_ffff <= correct * tally.completion_count
                <= 0x8000_0000 * 0x7fff_ffff) by (nonlinear_arith)
                requires
                    -0x8000_0000 <= correct <= 0x7fff_ffff,
                    0 <= tally.completion_count <= 0x7fff_ffff,
            ;
        }
        let expected_total: i64 = (correct as i64) * tally.completion_count;
        report.push(
            (tally.chore_id, tally.completion_count, tally.current_total_cents, expected_total),
        );
        place = place + 1;
    }
    proof {
        assert(report@ =~= weekly_report(rows@));
    }
    report
}

} // verus!
