//! Chores and the users to whom they are assigned.

use crate::models::ChoreAssignment;
use vstd::prelude::*;

verus! {

pub struct ChoreSvc {}

impl ChoreSvc {
    /// Says what has to be stored to assign a chore to a user. `existing` is
    /// the assignment of that chore to that user that the store holds, if
    /// any. Where there is one, nothing is stored: a chore is assigned to a
    /// user at most once. Otherwise the new assignment is returned.
    pub fn assign_user(existing: Option<ChoreAssignment>, chore_id: i32, user_id: i32) -> (assignment:
        Option<ChoreAssignment>)
        ensures
            assignment == match existing {
                Some(_) => None,
                None => Some(ChoreAssignment { id: None, chore_id, user_id, created_at: None }),
            },
    {
        match existing {
            Some(_) => None,
            None => Some(ChoreAssignment { id: None, chore_id, user_id, created_at: None }),
        }
    }
}

} // verus!
