//! Credential validation for an HTTP API: Basic authentication parsing,
//! password-hash verification with a timing-safe fallback for unknown users,
//! and the mapping of failures to client-visible error classes; also the
//! reading of trade-listing paths.

pub mod credentials;
pub mod errors;
pub mod numbers;
pub mod password;
pub mod requests;
pub mod trades;
pub mod validation;
