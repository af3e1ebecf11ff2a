//! The error taxonomy of the credential authority.
//!
//! Every request-level failure is local and synchronous: it terminates the
//! current request with one of these caller-visible statuses, and the core
//! never retries on its own.

use vstd::prelude::*;

verus! {

/// One failure status per way a request can end short of success.
#[derive(Clone, Copy, Debug, PartialEq, Eq, Structural)]
pub enum AuthError {
    /// Malformed username, mail address or payload; always client-correctable.
    ValidationError,
    /// The username is already registered or pending registration.
    Conflict,
    /// A rate-limit window is still open for this username and flow.
    Throttled,
    /// A finish step arrived without a live start-step state.
    NoState,
    /// The username has no account record.
    UnknownAccount,
    /// The account exists but its mail address was never confirmed.
    EmailUnverified,
    /// The account is locked; login is refused regardless of verification.
    AccountLocked,
    /// The presented confirmation token differs from the minted one.
    TokenMismatch,
    /// The account was already confirmed; benign on a repeated confirmation.
    AlreadyVerified,
    /// The PAKE engine rejected the exchange.
    EngineFailure,
    /// The storage medium failed.
    IoFailure,
    /// Stored data had the wrong shape or version.
    DecodeFailure,
}

impl AuthError {
    /// The HTTP-like status the surrounding surface reports for this failure.
    pub fn status(&self) -> (s: u16)
        ensures
            s == self.spec_status(),
    {
        match self {
            AuthError::AccountLocked => 401,
            AuthError::EmailUnverified => 403,
            AuthError::AlreadyVerified => 200,
            AuthError::IoFailure => 500,
            AuthError::DecodeFailure => 500,
            _ => 400,
        }
    }

    /// What `status` returns, as a spec-level function of the variant.
    pub open spec fn spec_status(&self) -> u16 {
        match self {
            AuthError::AccountLocked => 401,
            AuthError::EmailUnverified => 403,
            AuthError::AlreadyVerified => 200,
            AuthError::IoFailure => 500,
            AuthError::DecodeFailure => 500,
            _ => 400,
        }
    }

    /// A short caller-facing description of the failure.
    pub fn message(&self) -> &'static str {
        match self {
            AuthError::ValidationError => "Some field(s) have invalid data",
            AuthError::Conflict => "User already registered",
            AuthError::Throttled => "Too many retries",
            AuthError::NoState => "No handshake state",
            AuthError::UnknownAccount => "Username does not exist",
            AuthError::EmailUnverified => "Email not verified",
            AuthError::AccountLocked => "Account locked",
            AuthError::TokenMismatch => "Bad request",
            AuthError::AlreadyVerified => "Email already verified",
            AuthError::EngineFailure => "Protocol failure",
            AuthError::IoFailure => "Storage failure",
            AuthError::DecodeFailure => "Stored data corrupt",
        }
    }
}

} // verus!
