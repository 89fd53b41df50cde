//! Tokens, photo uploads and account e-mails.
pub mod jwt;
pub mod upload;
pub mod ids;
pub mod password;
pub mod mail;
