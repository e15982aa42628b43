/// Human-readable dates.
pub mod helpers;
/// The frontend configuration.
pub mod config;
/// Pagination of the frontend's listings.
pub mod pages;
