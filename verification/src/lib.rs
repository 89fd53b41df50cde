//! A user, role and permission API: authentication with access and refresh
//! tokens, role-based authorization with a root bypass, and the account
//! workflows around them. The library holds the rules; the program around
//! it holds the database, the HTTP server and the mail transport.
use vstd::prelude::*;

pub mod clock;
pub mod config;
pub mod errors;
pub mod handlers;
pub mod middleware;
pub mod migrations;
pub mod models;
pub mod response;
pub mod seeder;
pub mod services;
pub mod text;
pub mod utils;

verus! {
}
