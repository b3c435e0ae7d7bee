//! The recording of completions.

use crate::identifiers::time_ordered_uuid;
use crate::models::Chore;
use crate::models::ChoreCompletion;
use crate::models::ChoreCompletionInput;
use crate::models::User;
use crate::payment::completion_amount;
use crate::payment::payment_type_of;
use crate::payment::PaymentType;
use crate::svc::unpaid_totals::lemma_unpaid_sum_bounds;
use crate::svc::unpaid_totals::tally_user;
use crate::svc::unpaid_totals::unpaid_totals;
use vstd::prelude::*;

verus! {

pub struct ChoreCompletionSvc {}

/// What one completion of the chore earns under its policy as it stands.
pub open spec fn amount_per_completion(chore: Chore) -> int {
    completion_amount(
        payment_type_of(chore.payment_type@),
        chore.amount_cents as int,
        chore.required_days as int,
    )
}

/// The record of a completion as it is first stored: it carries the amount
/// that the chore's policy gives, and is neither approved nor paid.
pub open spec fn new_completion(
    chore: Chore,
    completion_input: ChoreCompletionInput,
    uuid: String,
) -> ChoreCompletion {
    ChoreCompletion {
        id: None,
        uuid,
        chore_id: completion_input.chore_id,
        user_id: completion_input.user_id,
        completed_date: completion_input.completed_date,
        amount_cents: amount_per_completion(chore) as i32,
        approved: false,
        approved_by_admin_id: None,
        approved_at: None,
        paid_out: false,
        paid_out_at: None,
        created_at: None,
        updated_at: None,
    }
}

impl ChoreCompletionSvc {
    /// Builds the record of a completion under a given identifier, with the
    /// amount that the owning chore's policy gives at this moment.
    pub fn with_uuid(chore: &Chore, completion_input: &ChoreCompletionInput, uuid: String) -> (completion:
        ChoreCompletion)
        ensures
            completion == new_completion(*chore, *completion_input, uuid),
            completion.amount_cents == amount_per_completion(*chore),
            payment_type_of(chore.payment_type@) == PaymentType::Daily ==> completion.amount_cents
                == chore.amount_cents,
    {
        let payment_type = PaymentType::from(chore.payment_type.clone());
        let calculated_amount = payment_type.calculate_completion_amount(
            chore.amount_cents,
            chore.required_days,
        );
        ChoreCompletion {
            id: None,
            uuid,
            chore_id: completion_input.chore_id,
            user_id: completion_input.user_id,
            completed_date: completion_input.completed_date,
            amount_cents: calculated_amount,
            approved: false,
            approved_by_admin_id: None,
            approved_at: None,
            paid_out: false,
            paid_out_at: None,
            created_at: None,
            updated_at: None,
        }
    }

    /// Builds the record of a completion of `chore`. The record keeps the
    /// identifier that the input brings; without one it gets a fresh one.
    pub fn create(chore: &Chore, completion_input: &ChoreCompletionInput) -> (completion:
        ChoreCompletion)
        ensures
            completion == new_completion(*chore, *completion_input, completion.uuid),
            completion.amount_cents == amount_per_completion(*chore),
            payment_type_of(chore.payment_type@) == PaymentType::Daily ==> completion.amount_cents
                == chore.amount_cents,
            completion_input.uuid matches Some(uuid) ==> completion.uuid == uuid,
    {
        let uuid = match &completion_input.uuid {
            Some(uuid) => uuid.clone(),
            None => time_ordered_uuid(),
        };
        Self::with_uuid(chore, completion_input, uuid)
    }

    /// The unpaid total of one user as a sum over the amounts of the user's
    /// approved and unpaid completions gives it: nothing where the user has
    /// no such completion, else the sum, cut to 32 bits.
    pub fn unpaid_total(sum_cents: Option<i64>) -> (total: i32)
        ensures
            total == match sum_cents {
                Some(sum) => sum as i32,
                None => 0i32,
            },
    {
        match sum_cents {
            Some(sum) => {
                #[verifier::truncate]
                (sum as i32)
            },
            None => 0,
        }
    }

    /// Lists what users are owed. A user stands in the list with the sum of
    /// the amounts of the user's completions that are approved and not paid,
    /// cut to 32 bits; a user without any completion stands there with
    /// nothing owed; a user whose completions are all paid or not approved
    /// does not stand there. The list follows the order of the users.
    pub fn get_unpaid_totals(users: Vec<User>, completions: &Vec<ChoreCompletion>) -> (totals: Vec<
        (User, i32),
    >)
        requires
            completions@.len() <= i32::MAX,
        ensures
            totals@ == unpaid_totals(users@, completions@),
    {
        let mut totals: Vec<(User, i32)> = Vec::new();
        let ghost all = users@;
        for user in it: users.into_iter()
            invariant
                it.seq() == all,
                completions@.len() <= i32::MAX,
                totals@ == unpaid_totals(all.take(it.index() as int), completions@),
        {
            proof {
                let longer = all.take(it.index() + 1);
                assert(longer.drop_last() =~= all.take(it.index() as int));
                assert(longer.last() == user);
            }
            match user.id {
                Some(user_id) => {
                    let tally = tally_user(completions, user_id);
                    proof {
                        lemma_unpaid_sum_bounds(completions@, user_id as int);
                    }
                    if tally.unpaid {
                        let total = Self::unpaid_total(Some(tally.sum_cents));
                        totals.push((user, total));
                    } else if !tally.any {
                        totals.push((user, Self::unpaid_total(None)));
                    }
                },
                None => {
                    totals.push((user, Self::unpaid_total(None)));
                },
            }
        }
        proof {
            assert(all.take(all.len() as int) =~= all);
        }
        totals
    }
}

} // verus!
