//! The error that a front-end call returns: an error of the library together
//! with the request and the command it answers.
use vstd::prelude::*;
use crate::engine::error::{AppError, ErrorCode};
use crate::text::owned;

verus! {

broadcast use vstd::string::group_string_axioms;

/// The name of a code as the front end receives it.
pub open spec fn code_string(code: ErrorCode) -> Seq<char> {
    match code {
        ErrorCode::AuthRequired => "auth_required"@,
        ErrorCode::PermissionDenied => "permission_denied"@,
        ErrorCode::NotFound => "not_found"@,
        ErrorCode::ValidationError => "validation_error"@,
        ErrorCode::RateLimited => "rate_limited"@,
        ErrorCode::NetworkError => "network_error"@,
        ErrorCode::UpstreamError => "upstream_error"@,
        ErrorCode::ExecutionError => "execution_error"@,
    }
}

/// The name of a code as the front end receives it.
pub fn error_code_string(code: ErrorCode) -> (s: &'static str)
    ensures
        s@ == code_string(code),
{
    match code {
        ErrorCode::AuthRequired => "auth_required",
        ErrorCode::PermissionDenied => "permission_denied",
        ErrorCode::NotFound => "not_found",
        ErrorCode::ValidationError => "validation_error",
        ErrorCode::RateLimited => "rate_limited",
        ErrorCode::NetworkError => "network_error",
        ErrorCode::UpstreamError => "upstream_error",
        ErrorCode::ExecutionError => "execution_error",
    }
}

#[derive(Debug, Clone, PartialEq, Eq)]
pub struct FrontendInvokeError {
    pub code: String,
    pub message: String,
    pub retryable: bool,
    pub fingerprint: String,
    pub request_id: String,
    pub command_id: String,
}

impl FrontendInvokeError {
    pub fn from_app_error(err: AppError, request_id: String, command_id: String) -> (e: Self)
        ensures
            e.code@ == code_string(err.code),
            e.message@ == err.message@,
            e.retryable == err.retryable,
            e.fingerprint@ == err.fingerprint@,
            e.request_id@ == request_id@,
            e.command_id@ == command_id@,
    {
        FrontendInvokeError {
            code: owned(error_code_string(err.code)),
            message: err.message,
            retryable: err.retryable,
            fingerprint: err.fingerprint,
            request_id,
            command_id,
        }
    }
}

} // verus!
