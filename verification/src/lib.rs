//! Household chore tracking.
//!
//! Users complete chores, administrators approve the completions, and a
//! completion earns credit that is later paid. The heart of the library is
//! the amount that one completion earns under a chore's payment policy
//! ([`payment`]) and the reconciliation that finds and repairs stored amounts
//! that have drifted from it ([`svc::ChoreCompletionFixSvc`]). Around it
//! stand the rules of the sign-in ([`auth`]), of uploads ([`api::images`])
//! and of the site's files ([`routes`]).

pub mod api;
pub mod auth;
pub mod day_patterns;
mod identifiers;
pub mod models;
pub mod payment;
pub mod routes;
pub mod svc;
pub mod text;
