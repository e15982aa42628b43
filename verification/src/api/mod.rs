/// Accounts: registration, passwords and tokens.
pub mod account;
/// Publication endpoint (eg. "/api/v1/crates/new").
pub mod publish;
/// Owners management endpoint (eg. "/api/v1/crates/\<name\>/owners").
pub mod owners;
/// The README of a published crate's archive.
pub mod readme;
/// Search endpoint (eg. "/api/v1/crates?q=\<term\>").
pub mod search;
