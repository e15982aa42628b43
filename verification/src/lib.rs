//! An alternative crate registry for Cargo: the registry's index and request logic.

/// API endpoints logic.
pub mod api;
/// Configuration type definitions.
pub mod config;
/// Database abstractions module.
pub mod db;
/// Error-related type definitions.
pub mod error;
/// Hexadecimal texts of bytes.
pub mod encoding;
/// Crate descriptions as published.
pub mod krate;
pub mod text;
pub mod version;
/// Frontend logic.
pub mod frontend;
/// Crate index management strategies.
pub mod index;
