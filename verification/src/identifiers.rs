//! Fresh identifiers for new records and for sign-ins.

use uuid::Uuid;
use vstd::prelude::*;

verus! {

/// `uuid::Uuid::new_v4`, written out as text. The identifier is random, so
/// nothing is claimed of the text.
#[verifier::external_body]
pub(crate) fn random_uuid() -> (uuid: String) {
    Uuid::new_v4().to_string()
}

/// `uuid::Uuid::now_v7`, written out as text. The identifier holds the time
/// of the call and random bits, so nothing is claimed of the text.
#[verifier::external_body]
pub(crate) fn time_ordered_uuid() -> (uuid: String) {
    Uuid::now_v7().to_string()
}

} // verus!
