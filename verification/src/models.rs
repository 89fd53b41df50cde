//! Stored records and the resources the API answers with.
pub mod permission;
pub mod role;
pub mod tokens;
pub mod user;
