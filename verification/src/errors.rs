//! Structured, isolated errors: every failure of the module is a code, a
//! message and a retry hint, never a bare string.

use vstd::prelude::*;

verus! {

/// Machine-readable error category for the frontend.
#[derive(Debug, Clone, Copy, PartialEq, Eq, Structural)]
pub enum BusinessErrorCode {
    /// The requested session or entity does not exist.
    NotFound,
    /// Wrong or incomplete input.
    InvalidInput,
    /// Persistence-layer failure.
    Storage,
    /// Failure at the gateway boundary (core or AI gateway).
    Gateway,
    /// Unexpected internal failure.
    Internal,
}

/// The variant name of a code, as its debug form prints it.
pub open spec fn code_name(code: BusinessErrorCode) -> Seq<char> {
    match code {
        BusinessErrorCode::NotFound => "NotFound"@,
        BusinessErrorCode::InvalidInput => "InvalidInput"@,
        BusinessErrorCode::Storage => "Storage"@,
        BusinessErrorCode::Gateway => "Gateway"@,
        BusinessErrorCode::Internal => "Internal"@,
    }
}

/// Whether failures of this category may safely be retried.
pub open spec fn code_retryable(code: BusinessErrorCode) -> bool {
    code == BusinessErrorCode::Storage || code == BusinessErrorCode::Gateway
}

impl BusinessErrorCode {
    /// The variant name (`NotFound`, `InvalidInput`, ...).
    pub fn name(self) -> (r: &'static str)
        ensures
            r@ == code_name(self),
    {
        match self {
            BusinessErrorCode::NotFound => "NotFound",
            BusinessErrorCode::InvalidInput => "InvalidInput",
            BusinessErrorCode::Storage => "Storage",
            BusinessErrorCode::Gateway => "Gateway",
            BusinessErrorCode::Internal => "Internal",
        }
    }
}

/// Structured failure returned across the command boundary.
#[derive(Debug, Clone)]
pub struct BusinessError {
    pub code: BusinessErrorCode,
    pub message: String,
    /// When `true` the UI may safely retry the operation.
    pub retryable: bool,
}

/// `e` is the error of category `code` carrying `message`.
pub open spec fn is_error(e: BusinessError, code: BusinessErrorCode, message: Seq<char>) -> bool {
    &&& e.code == code
    &&& e.message@ == message
    &&& e.retryable == code_retryable(code)
}

impl BusinessError {
    pub fn not_found(message: String) -> (r: Self)
        ensures
            r.code == BusinessErrorCode::NotFound,
            r.message == message,
            !r.retryable,
    {
        Self { code: BusinessErrorCode::NotFound, message, retryable: false }
    }

    pub fn invalid_input(message: String) -> (r: Self)
        ensures
            r.code == BusinessErrorCode::InvalidInput,
            r.message == message,
            !r.retryable,
    {
        Self { code: BusinessErrorCode::InvalidInput, message, retryable: false }
    }

    pub fn storage(message: String) -> (r: Self)
        ensures
            r.code == BusinessErrorCode::Storage,
            r.message == message,
            r.retryable,
    {
        Self { code: BusinessErrorCode::Storage, message, retryable: true }
    }

    pub fn gateway(message: String) -> (r: Self)
        ensures
            r.code == BusinessErrorCode::Gateway,
            r.message == message,
            r.retryable,
    {
        Self { code: BusinessErrorCode::Gateway, message, retryable: true }
    }

    pub fn internal(message: String) -> (r: Self)
        ensures
            r.code == BusinessErrorCode::Internal,
            r.message == message,
            !r.retryable,
    {
        Self { code: BusinessErrorCode::Internal, message, retryable: false }
    }

    /// The display text `[Code] message`.
    pub fn to_string(&self) -> (r: String)
        ensures
            r@ == "["@ + code_name(self.code) + "] "@ + self.message@,
    {
        let mut r = "[".to_owned();
        r.append(self.code.name());
        r.append("] ");
        r.append(self.message.as_str());
        r
    }
}

} // verus!
