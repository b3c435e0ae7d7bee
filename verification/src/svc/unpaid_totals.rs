//! What users are owed: the credit of their completions that are approved
//! and not paid yet.

use crate::models::ChoreCompletion;
use crate::models::User;
use vstd::prelude::*;

verus! {

/// Whether the completion is one of the user `user_id`.
pub open spec fn is_completion_of(completion: ChoreCompletion, user_id: int) -> bool {
    completion.user_id == user_id
}

/// Whether the completion earns the user `user_id` credit that is owed:
/// it is approved and not paid.
pub open spec fn is_unpaid(completion: ChoreCompletion, user_id: int) -> bool {
    is_completion_of(completion, user_id) && completion.approved && !completion.paid_out
}

/// Whether the user `user_id` has a completion at all.
pub open spec fn has_completion(completions: Seq<ChoreCompletion>, user_id: int) -> bool {
    exists|i: int| 0 <= i < completions.len() && is_completion_of(#[trigger] completions[i], user_id)
}

/// Whether the user `user_id` has a completion that is approved and not
/// paid.
pub open spec fn has_unpaid(completions: Seq<ChoreCompletion>, user_id: int) -> bool {
    exists|i: int| 0 <= i < completions.len() && is_unpaid(#[trigger] completions[i], user_id)
}

/// The sum of the amounts of the completions of the user `user_id` that are
/// approved and not paid.
pub open spec fn unpaid_sum(completions: Seq<ChoreCompletion>, user_id: int) -> int
    decreases completions.len(),
{
    if completions.len() == 0 {
        0
    } else {
        unpaid_sum(completions.drop_last(), user_id) + if is_unpaid(completions.last(), user_id) {
            completions.last().amount_cents as int
        } else {
            0int
        }
    }
}

/// Whether the user stands in the list of unpaid totals: a user who has a
/// completion that is approved and not paid, and a user who has no
/// completion at all. A user whose completions are all paid or not approved
/// does not stand there.
pub open spec fn is_listed(user: User, completions: Seq<ChoreCompletion>) -> bool {
    match user.id {
        Some(user_id) => has_unpaid(completions, user_id as int) || !has_completion(
            completions,
            user_id as int,
        ),
        None => true,
    }
}

/// What the user is owed, in cents, cut to 32 bits.
pub open spec fn owed(user: User, completions: Seq<ChoreCompletion>) -> i32 {
    match user.id {
        Some(user_id) => unpaid_sum(completions, user_id as int) as i64 as i32,
        None => 0i32,
    }
}

/// The users that are listed, each with what the user is owed, in the order
/// of the users.
pub open spec fn unpaid_totals(users: Seq<User>, completions: Seq<ChoreCompletion>) -> Seq<
    (User, i32),
>
    decreases users.len(),
{
    if users.len() == 0 {
        Seq::empty()
    } else if is_listed(users.last(), completions) {
        unpaid_totals(users.drop_last(), completions).push(
            (users.last(), owed(users.last(), completions)),
        )
    } else {
        unpaid_totals(users.drop_last(), completions)
    }
}

/// The unpaid sum of a user lies within as many amounts as there are
/// completions, and is zero where the user has no unpaid completion.
pub proof fn lemma_unpaid_sum_bounds(completions: Seq<ChoreCompletion>, user_id: int)
    ensures
        -0x8000_0000 * completions.len() <= unpaid_sum(completions, user_id) <= 0x7fff_ffff
            * completions.len(),
        !has_unpaid(completions, user_id) ==> unpaid_sum(completions, user_id) == 0,
    decreases completions.len(),
{
    if completions.len() > 0 {
        let front = completions.drop_last();
        lemma_unpaid_sum_bounds(front, user_id);
        if !has_unpaid(completions, user_id) {
            assert(!is_unpaid(completions[completions.len() - 1], user_id));
            assert forall|i: int| 0 <= i < front.len() implies !is_unpaid(
                #[trigger] front[i],
                user_id,
            ) by {
                assert(front[i] == completions[i]);
            }
        }
    }
}

/// What is known of one user's completions.
pub(crate) struct UserTally {
    pub(crate) any: bool,
    pub(crate) unpaid: bool,
    pub(crate) sum_cents: i64,
}

/// Goes through the completions for one user.
pub(crate) fn tally_user(completions: &Vec<ChoreCompletion>, user_id: i32) -> (tally: UserTally)
    requires
        completions@.len() <= i32::MAX,
    ensures
        tally.any == has_completion(completions@, user_id as int),
        tally.unpaid == has_unpaid(completions@, user_id as int),
        tally.sum_cents == unpaid_sum(completions@, user_id as int),
{
    let mut any = false;
    let mut unpaid = false;
    let mut sum_cents: i64 = 0;
    let mut index: usize = 0;
    while index < completions.len()
        invariant
            index <= completions@.len(),
            completions@.len() <= i32::MAX,
            any == has_completion(completions@.take(index as int), user_id as int),
            unpaid == has_unpaid(completions@.take(index as int), user_id as int),
            sum_cents == unpaid_sum(completions@.take(index as int), user_id as int),
        decreases completions@.len() - index,
    {
        let completion = &completions[index];
        proof {
            let seen = completions@.take(index as int);
            let longer = completions@.take(index + 1);
            assert(longer.drop_last() =~= seen);
            assert(longer.last() == completions@[index as int]);
            lemma_unpaid_sum_bounds(seen, user_id as int);
            assert(-0x8000_0000 * seen.len() >= -0x8000_0000 * 0x7fff_ffff && 0x7fff_ffff
                * seen.len() <= 0x7fff_ffff * 0x7fff_ffff) by (nonlinear_arith)
                requires
                    0 <= seen.len() <= 0x7fff_ffff,
            ;
            if has_completion(seen, user_id as int) {
                let i = choose|i: int|
                    0 <= i < seen.len() && is_completion_of(#[trigger] seen[i], user_id as int);
                assert(is_completion_of(longer[i], user_id as int));
            }
            if has_unpaid(seen, user_id as int) {
                let i = choose|i: int|
                    0 <= i < seen.len() && is_unpaid(#[trigger] seen[i], user_id as int);
                assert(is_unpaid(longer[i], user_id as int));
            }
            if has_completion(longer, user_id as int) {
                let i = choose|i: int|
                    0 <= i < longer.len() && is_completion_of(#[trigger] longer[i], user_id as int);
                if i < index {
                    assert(is_completion_of(seen[i], user_id as int));
                }
            }
            if has_unpaid(longer, user_id as int) {
                let i = choose|i: int|
                    0 <= i < longer.len() && is_unpaid(#[trigger] longer[i], user_id as int);
                if i < index {
                    assert(is_unpaid(seen[i], user_id as int));
                }
            }
            if is_completion_of(completions@[index as int], user_id as int) {
                assert(is_completion_of(longer[index as int], user_id as int));
            }
            if is_unpaid(completions@[index as int], user_id as int) {
                assert(is_unpaid(longer[index as int], user_id as int));
            }
        }
        if completion.user_id == user_id {
            any = true;
            if completion.approved && !completion.paid_out {
                unpaid = true;
                sum_cents = sum_cents + completion.amount_cents as i64;
            }
        }
        index = index + 1;
    }
    proof {
        assert(completions@.take(completions@.len() as int) =~= completions@);
    }
    UserTally { any, unpaid, sum_cents }
}

} // verus!
