//! Administrators.

use crate::identifiers::random_uuid;
use crate::models::Admin;
use vstd::prelude::*;
use vstd::string::StringExecFns;

verus! {

pub struct AdminSvc {}

/// What a sign-in through the provider finds: an administrator who is known
/// under the subject, or one who has to be stored first.
#[derive(Debug)]
pub enum OidcAdmin {
    Known(Admin),
    New(Admin),
}

/// Whether `admin` is a record, not yet stored, of the administrator whom
/// the provider knows under `oidc_subject`.
pub open spec fn is_new_admin(
    admin: Admin,
    oidc_subject: Seq<char>,
    name: Seq<char>,
    email: Seq<char>,
) -> bool {
    &&& admin.id is None
    &&& admin.name@ == name
    &&& admin.email@ == email
    &&& admin.oidc_subject@ == oidc_subject
    &&& admin.created_at is None
    &&& admin.updated_at is None
}

impl AdminSvc {
    /// Resolves the administrator of a sign-in. `found` is what the store
    /// holds under the subject. An administrator who is found is the answer;
    /// otherwise a record is made under a fresh random identifier, with the
    /// name and the address that the provider gave.
    pub fn get_or_create_by_oidc(
        found: Option<Admin>,
        oidc_subject: &str,
        name: &str,
        email: &str,
    ) -> (admin: OidcAdmin)
        ensures
            match found {
                Some(known) => admin == OidcAdmin::Known(known),
                None => admin matches OidcAdmin::New(created) && is_new_admin(
                    created,
                    oidc_subject@,
                    name@,
                    email@,
                ),
            },
    {
        match found {
            Some(known) => OidcAdmin::Known(known),
            None => OidcAdmin::New(
                Admin {
                    id: None,
                    uuid: random_uuid(),
                    name: String::from_str(name),
                    email: String::from_str(email),
                    oidc_subject: String::from_str(oidc_subject),
                    created_at: None,
                    updated_at: None,
                },
            ),
        }
    }
}

} // verus!
