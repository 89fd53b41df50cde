//! Parameters of the account endpoints.
use vstd::prelude::*;

verus! {

/// The query of the e-mail verification link.
pub struct VerifyQuery {
    pub token: String,
}

} // verus!
