//! The records of the household: users and administrators, chores and their
//! assignments, completions, and what reconciliation reads and writes.

use chrono::NaiveDate;
use chrono::NaiveDateTime;
use vstd::prelude::*;

verus! {

/// `chrono::NaiveDate`, a calendar date. The library carries such a value and
/// never looks inside it.
#[verifier::external_type_specification]
#[verifier::external_body]
pub struct ExNaiveDate(NaiveDate);

/// `chrono::NaiveDateTime`, a date and time of day. The library carries such
/// a value and never looks inside it.
#[verifier::external_type_specification]
#[verifier::external_body]
pub struct ExNaiveDateTime(NaiveDateTime);

/// Someone who does chores and earns credit for them.
#[derive(Debug)]
pub struct User {
    pub id: Option<i32>,
    pub uuid: String,
    pub name: String,
    pub image_path: Option<String>,
    pub created_at: Option<NaiveDateTime>,
    pub updated_at: Option<NaiveDateTime>,
    pub image_id: Option<i32>,
}

/// A recurring household task and its payment policy.
#[derive(Debug)]
pub struct Chore {
    pub id: Option<i32>,
    pub uuid: String,
    pub name: String,
    pub description: Option<String>,
    /// The stored text of the payment type.
    pub payment_type: String,
    /// The configured payment, in cents.
    pub amount_cents: i32,
    /// The weekdays on which the chore is expected: bit 0 is Monday, bit 6
    /// Sunday.
    pub required_days: i32,
    pub active: bool,
    pub created_by_admin_id: i32,
    pub created_at: Option<NaiveDateTime>,
    pub updated_at: Option<NaiveDateTime>,
}

/// The assignment of a chore to a user.
#[derive(Debug)]
pub struct ChoreAssignment {
    pub id: Option<i32>,
    pub chore_id: i32,
    pub user_id: i32,
    pub created_at: Option<NaiveDateTime>,
}

/// What a caller gives to record that a chore was done.
#[derive(Debug)]
pub struct ChoreCompletionInput {
    pub uuid: Option<String>,
    pub chore_id: i32,
    pub user_id: i32,
    pub completed_date: NaiveDate,
}

/// One recorded occurrence of a chore being done.
#[derive(Debug)]
pub struct ChoreCompletion {
    pub id: Option<i32>,
    pub uuid: String,
    pub chore_id: i32,
    pub user_id: i32,
    pub completed_date: NaiveDate,
    /// The credit, in cents, that this completion earns.
    pub amount_cents: i32,
    pub approved: bool,
    pub approved_by_admin_id: Option<i32>,
    pub approved_at: Option<NaiveDateTime>,
    pub paid_out: bool,
    pub paid_out_at: Option<NaiveDateTime>,
    pub created_at: Option<NaiveDateTime>,
    pub updated_at: Option<NaiveDateTime>,
}

/// A completion joined with the payment policy of the chore that owns it.
#[derive(Debug)]
pub struct CompletionWithPolicy {
    pub completion: ChoreCompletion,
    /// The stored text of the owning chore's payment type.
    pub payment_type: String,
    /// The owning chore's configured payment, in cents.
    pub chore_amount_cents: i32,
    /// The owning chore's day mask.
    pub required_days: i32,
}

/// A picture of a user as it is handed in for storing.
#[derive(Debug)]
pub struct UserImageInput {
    pub user_id: i32,
    pub image_data: Vec<u8>,
    pub content_type: String,
    /// The number of bytes of the picture.
    pub file_size: i32,
}

/// Someone who may approve completions and mark them as paid.
#[derive(Debug)]
pub struct Admin {
    pub id: Option<i32>,
    pub uuid: String,
    pub name: String,
    pub email: String,
    /// The subject under which the OpenID Connect provider knows the
    /// administrator.
    pub oidc_subject: String,
    pub created_at: Option<NaiveDateTime>,
    pub updated_at: Option<NaiveDateTime>,
}

/// One write that brings a stored amount back to what the owning chore's
/// policy gives, with what an audit line needs.
#[derive(Clone, Copy, Debug, PartialEq, Eq, Structural)]
pub struct Correction {
    /// The place of the completion among the rows that were examined.
    pub row: usize,
    pub completion_id: Option<i32>,
    pub chore_id: i32,
    /// The amount that was stored.
    pub old_amount_cents: i32,
    /// The amount that the policy gives.
    pub new_amount_cents: i32,
}

} // verus!
