//! The rules that the HTTP interface applies to what it receives.

pub mod images;
