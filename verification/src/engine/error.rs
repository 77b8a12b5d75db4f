//! The library's error type: a code, a message, whether a retry may help, and a
//! fingerprint that identifies the pair of code and message.
use std::collections::hash_map::DefaultHasher;
use std::hash::Hasher;
use vstd::prelude::*;
use vstd::std_specs::hash::DefaultHasherAdditionalSpecFns;
use crate::text::{concat, hex, hex_string, owned};

verus! {

broadcast use vstd::string::group_string_axioms;

#[derive(Debug, Clone, Copy, PartialEq, Eq, Hash, Structural)]
pub enum ErrorCode {
    AuthRequired,
    PermissionDenied,
    NotFound,
    ValidationError,
    RateLimited,
    NetworkError,
    UpstreamError,
    ExecutionError,
}

/// The position of a code in the declaration of `ErrorCode`.
pub open spec fn code_index(code: ErrorCode) -> u8 {
    match code {
        ErrorCode::AuthRequired => 0,
        ErrorCode::PermissionDenied => 1,
        ErrorCode::NotFound => 2,
        ErrorCode::ValidationError => 3,
        ErrorCode::RateLimited => 4,
        ErrorCode::NetworkError => 5,
        ErrorCode::UpstreamError => 6,
        ErrorCode::ExecutionError => 7,
    }
}

/// Two errors made with the same code and message carry the same fingerprint:
/// the fingerprint depends on nothing else.
pub proof fn lemma_fingerprint_determined(a: AppError, b: AppError, va: ErrorView, vb: ErrorView)
    requires
        a.is(va),
        b.is(vb),
        va.code == vb.code,
        va.message == vb.message,
    ensures
        a.fingerprint@ == b.fingerprint@,
{
}

/// The name of a code as `Debug` prints it.
pub open spec fn code_name(code: ErrorCode) -> Seq<char> {
    match code {
        ErrorCode::AuthRequired => "AuthRequired"@,
        ErrorCode::PermissionDenied => "PermissionDenied"@,
        ErrorCode::NotFound => "NotFound"@,
        ErrorCode::ValidationError => "ValidationError"@,
        ErrorCode::RateLimited => "RateLimited"@,
        ErrorCode::NetworkError => "NetworkError"@,
        ErrorCode::UpstreamError => "UpstreamError"@,
        ErrorCode::ExecutionError => "ExecutionError"@,
    }
}

/// The bytes that hashing a code writes: its discriminant as a little-endian
/// 64-bit integer.
pub open spec fn code_bytes(code: ErrorCode) -> Seq<u8> {
    seq![code_index(code), 0u8, 0u8, 0u8, 0u8, 0u8, 0u8, 0u8]
}

/// The writes that hashing a code and then a message makes: the code, the
/// message's UTF-8 bytes, and the string terminator `0xff`.
pub open spec fn fingerprint_writes(code: ErrorCode, message: Seq<char>) -> Seq<Seq<u8>> {
    seq![code_bytes(code), vstd::utf8::encode_utf8(message), seq![0xffu8]]
}

/// The fingerprint of a code and a message: the lower-case hexadecimal
/// rendering of their `DefaultHasher` hash.
pub open spec fn fingerprint_text(code: ErrorCode, message: Seq<char>) -> Seq<char> {
    hex(DefaultHasher::spec_finish(fingerprint_writes(code, message)) as nat)
}

/// What an error says, apart from its fingerprint.
pub struct ErrorView {
    pub code: ErrorCode,
    pub message: Seq<char>,
    pub retryable: bool,
}

pub open spec fn error_view(code: ErrorCode, message: Seq<char>, retryable: bool) -> ErrorView {
    ErrorView { code, message, retryable }
}

/// A validation error with the given message.
pub open spec fn validation_view(message: Seq<char>) -> ErrorView {
    error_view(ErrorCode::ValidationError, message, false)
}

/// A permission error with the given message.
pub open spec fn permission_view(message: Seq<char>) -> ErrorView {
    error_view(ErrorCode::PermissionDenied, message, false)
}

/// An upstream error with the given message, not retryable.
pub open spec fn upstream_view(message: Seq<char>) -> ErrorView {
    error_view(ErrorCode::UpstreamError, message, false)
}

#[derive(Debug, Clone, PartialEq, Eq)]
pub struct AppError {
    pub code: ErrorCode,
    pub message: String,
    pub retryable: bool,
    pub fingerprint: String,
}

impl View for AppError {
    type V = ErrorView;

    open spec fn view(&self) -> ErrorView {
        ErrorView { code: self.code, message: self.message@, retryable: self.retryable }
    }
}

impl AppError {
    /// The error says `v` and carries the fingerprint of its code and message.
    pub open spec fn is(&self, v: ErrorView) -> bool {
        &&& self@ == v
        &&& self.fingerprint@ == fingerprint_text(v.code, v.message)
    }

    pub fn new(code: ErrorCode, message: &str, retryable: bool) -> (e: Self)
        ensures
            e.is(error_view(code, message@, retryable)),
    {
        let fingerprint = compute_fingerprint(code, message);
        AppError { code, message: owned(message), retryable, fingerprint }
    }

    pub fn validation(message: &str) -> (e: Self)
        ensures
            e.is(validation_view(message@)),
    {
        Self::new(ErrorCode::ValidationError, message, false)
    }

    pub fn permission(message: &str) -> (e: Self)
        ensures
            e.is(permission_view(message@)),
    {
        Self::new(ErrorCode::PermissionDenied, message, false)
    }

    pub fn execution(message: &str) -> (e: Self)
        ensures
            e.is(error_view(ErrorCode::ExecutionError, message@, true)),
    {
        Self::new(ErrorCode::ExecutionError, message, true)
    }

    /// The text that `Display` shows: the code's name, a colon, and the message.
    pub fn to_display_string(&self) -> (s: String)
        ensures
            s@ == code_name(self.code) + ": "@ + self.message@,
    {
        let name = code_name_str(self.code);
        let head = concat(name, ": ");
        concat(head.as_str(), self.message.as_str())
    }
}

/// The name of a code as `Debug` prints it.
pub fn code_name_str(code: ErrorCode) -> (s: &'static str)
    ensures
        s@ == code_name(code),
{
    match code {
        ErrorCode::AuthRequired => "AuthRequired",
        ErrorCode::PermissionDenied => "PermissionDenied",
        ErrorCode::NotFound => "NotFound",
        ErrorCode::ValidationError => "ValidationError",
        ErrorCode::RateLimited => "RateLimited",
        ErrorCode::NetworkError => "NetworkError",
        ErrorCode::UpstreamError => "UpstreamError",
        ErrorCode::ExecutionError => "ExecutionError",
    }
}

fn code_index_exec(code: ErrorCode) -> (b: u8)
    ensures
        b == code_index(code),
{
    match code {
        ErrorCode::AuthRequired => 0,
        ErrorCode::PermissionDenied => 1,
        ErrorCode::NotFound => 2,
        ErrorCode::ValidationError => 3,
        ErrorCode::RateLimited => 4,
        ErrorCode::NetworkError => 5,
        ErrorCode::UpstreamError => 6,
        ErrorCode::ExecutionError => 7,
    }
}

/// Hashes the code and then the message with a fresh `DefaultHasher`, the way
/// the derived `Hash` of the code and `str`'s `Hash` feed it, and renders the
/// hash in lower-case hexadecimal.
fn compute_fingerprint(code: ErrorCode, message: &str) -> (s: String)
    ensures
        s@ == fingerprint_text(code, message@),
{
    let mut hasher = DefaultHasher::new();
    let mut tag: Vec<u8> = Vec::new();
    tag.push(code_index_exec(code));
    let mut i: usize = 1;
    while i < 8
        invariant
            1 <= i <= 8,
            tag@.len() == i,
            tag@[0] == code_index(code),
            forall|j: int| 1 <= j < i ==> tag@[j] == 0u8,
        decreases 8 - i,
    {
        tag.push(0u8);
        i = i + 1;
    }
    assert(tag@ =~= code_bytes(code));
    hasher.write(tag.as_slice());
    hasher.write(message.as_bytes());
    let mut end: Vec<u8> = Vec::new();
    end.push(0xffu8);
    hasher.write(end.as_slice());
    assert(hasher@ =~= fingerprint_writes(code, message@));
    let h = hasher.finish();
    hex_string(h)
}

} // verus!
