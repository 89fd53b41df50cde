//! Parameters of the list endpoint.
use vstd::prelude::*;
use crate::handlers::{page_or_default, per_page_or_default};

verus! {

/// Search text and paging of a list request.
pub struct ListQuery {
    pub search: Option<String>,
    pub page: Option<i64>,
    pub per_page: Option<i64>,
}

impl ListQuery {
    /// The page asked for, 1 when unspecified.
    pub fn page(&self) -> (p: i64)
        ensures
            p == page_or_default(self.page),
    {
        match self.page {
            Some(p) => p,
            None => 1,
        }
    }

    /// The page size asked for, 10 when unspecified.
    pub fn per_page(&self) -> (p: i64)
        ensures
            p == per_page_or_default(self.per_page),
    {
        match self.per_page {
            Some(p) => p,
            None => 10,
        }
    }
}

} // verus!
