//! The envelope in which every answer of the platform travels.

use vstd::prelude::*;

verus! {

/// What accompanies a listing: counts and the position within it.
#[derive(Debug)]
pub struct ResponseMeta {
    /// The number of items in all.
    pub total: Option<i64>,
    /// The page, counted from 1.
    pub page: Option<i32>,
    /// The number of items on a page.
    pub per_page: Option<i32>,
    /// The number of pages.
    pub total_pages: Option<i32>,
    /// Whether a page follows.
    pub has_next: Option<bool>,
    /// Whether a page precedes.
    pub has_prev: Option<bool>,
}

/// The envelope of an answer: whether the request succeeded, the payload, a
/// message, a code that clients can act on, and what accompanies a listing.
#[derive(Debug)]
pub struct ApiResponse<T> {
    pub success: bool,
    pub data: Option<T>,
    pub message: Option<String>,
    pub error_code: Option<String>,
    pub meta: Option<ResponseMeta>,
}

impl<T> ApiResponse<T> {
    /// A success that carries `data` and nothing else.
    pub fn success(data: T) -> (response: Self)
        ensures
            response == (ApiResponse {
                success: true,
                data: Some(data),
                message: None,
                error_code: None,
                meta: None,
            }),
    {
        ApiResponse { success: true, data: Some(data), message: None, error_code: None, meta: None }
    }

    /// A success that carries `data` and what accompanies a listing.
    pub fn success_with_meta(data: T, meta: ResponseMeta) -> (response: Self)
        ensures
            response == (ApiResponse {
                success: true,
                data: Some(data),
                message: None,
                error_code: None,
                meta: Some(meta),
            }),
    {
        ApiResponse {
            success: true,
            data: Some(data),
            message: None,
            error_code: None,
            meta: Some(meta),
        }
    }

    /// A success that carries `data` and a message.
    pub fn success_with_message(data: T, message: String) -> (response: Self)
        ensures
            response == (ApiResponse {
                success: true,
                data: Some(data),
                message: Some(message),
                error_code: None,
                meta: None,
            }),
    {
        ApiResponse {
            success: true,
            data: Some(data),
            message: Some(message),
            error_code: None,
            meta: None,
        }
    }
}

impl ApiResponse<()> {
    /// A success that carries nothing.
    pub fn success_empty() -> (response: Self)
        ensures
            response == (ApiResponse::<()> {
                success: true,
                data: None,
                message: None,
                error_code: None,
                meta: None,
            }),
    {
        ApiResponse { success: true, data: None, message: None, error_code: None, meta: None }
    }

    /// A success that carries only a message.
    pub fn success_message(message: String) -> (response: Self)
        ensures
            response == (ApiResponse::<()> {
                success: true,
                data: None,
                message: Some(message),
                error_code: None,
                meta: None,
            }),
    {
        ApiResponse {
            success: true,
            data: None,
            message: Some(message),
            error_code: None,
            meta: None,
        }
    }

    /// A failure with its message.
    pub fn error(message: String) -> (response: Self)
        ensures
            response == (ApiResponse::<()> {
                success: false,
                data: None,
                message: Some(message),
                error_code: None,
                meta: None,
            }),
    {
        ApiResponse {
            success: false,
            data: None,
            message: Some(message),
            error_code: None,
            meta: None,
        }
    }

    /// A failure with its message and a code that clients can act on.
    pub fn error_with_code(message: String, error_code: String) -> (response: Self)
        ensures
            response == (ApiResponse::<()> {
                success: false,
                data: None,
                message: Some(message),
                error_code: Some(error_code),
                meta: None,
            }),
    {
        ApiResponse {
            success: false,
            data: None,
            message: Some(message),
            error_code: Some(error_code),
            meta: None,
        }
    }
}

} // verus!
