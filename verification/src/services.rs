//! The account, role, user and permission rules behind each API operation.
pub mod permission_service;
pub mod auth_service;
pub mod role_service;
pub mod user_service;
