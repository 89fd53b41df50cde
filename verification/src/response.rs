//! The envelope every answer is wrapped in, and its HTTP status.
use vstd::prelude::*;
use crate::errors::{status_of, AppError};
use crate::text::owned;

verus! {

/// Paging facts of a list answer.
#[derive(Debug, Clone)]
pub struct PageMeta {
    pub page: i64,
    pub per_page: i64,
    pub total: i64,
    pub total_page: i64,
}

/// The envelope of every answer: whether it succeeded, a message, and the
/// data, paging facts and error details when there are any.
pub struct ApiResponse<T> {
    pub success: bool,
    pub message: String,
    pub data: Option<T>,
    pub meta: Option<PageMeta>,
    pub errors: Option<String>,
}

/// An answer with its HTTP status.
pub struct Reply<T> {
    pub status: u16,
    pub body: ApiResponse<T>,
}

/// A successful answer (200) carrying `data`.
pub fn ok<T>(message: &str, data: T) -> (r: Reply<T>)
    ensures
        r.status == 200,
        r.body.success,
        r.body.message@ == message@,
        r.body.data == Some(data),
        r.body.meta is None,
        r.body.errors is None,
{
    Reply {
        status: 200,
        body: ApiResponse { success: true, message: owned(message), data: Some(data), meta: None, errors: None },
    }
}

/// A successful answer (200) carrying one page of a list.
pub fn ok_paged<T>(message: &str, data: T, meta: PageMeta) -> (r: Reply<T>)
    ensures
        r.status == 200,
        r.body.success,
        r.body.message@ == message@,
        r.body.data == Some(data),
        r.body.meta == Some(meta),
        r.body.errors is None,
{
    Reply {
        status: 200,
        body: ApiResponse {
            success: true,
            message: owned(message),
            data: Some(data),
            meta: Some(meta),
            errors: None,
        },
    }
}

/// A successful answer (201) to a creation, carrying what was created.
pub fn created<T>(message: &str, data: T) -> (r: Reply<T>)
    ensures
        r.status == 201,
        r.body.success,
        r.body.message@ == message@,
        r.body.data == Some(data),
        r.body.meta is None,
        r.body.errors is None,
{
    Reply {
        status: 201,
        body: ApiResponse { success: true, message: owned(message), data: Some(data), meta: None, errors: None },
    }
}

/// A successful answer (200) without data.
pub fn no_data<T>(message: &str) -> (r: Reply<T>)
    ensures
        r.status == 200,
        r.body.success,
        r.body.message@ == message@,
        r.body.data is None,
        r.body.meta is None,
        r.body.errors is None,
{
    Reply {
        status: 200,
        body: ApiResponse { success: true, message: owned(message), data: None, meta: None, errors: None },
    }
}

/// The answer to an error: its status and its message, marked unsuccessful.
pub fn error_reply<T>(e: &AppError) -> (r: Reply<T>)
    ensures
        r.status == status_of(e.kind),
        !r.body.success,
        r.body.message@ == e.message@,
        r.body.data is None,
        r.body.meta is None,
        r.body.errors is None,
{
    Reply {
        status: e.status_code(),
        body: ApiResponse { success: false, message: e.message.clone(), data: None, meta: None, errors: None },
    }
}

} // verus!
