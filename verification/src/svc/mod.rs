//! The operations on stored records.

pub mod admin;
pub mod chore;
pub mod chore_completion;
pub mod chore_completion_fix;
pub mod reconciliation;
pub mod unpaid_totals;
pub mod weekly_report;

pub use admin::AdminSvc;
pub use chore::ChoreSvc;
pub use chore_completion::ChoreCompletionSvc;
pub use chore_completion_fix::ChoreCompletionFixSvc;
