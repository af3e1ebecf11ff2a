//! Server-side credential authority for a password-authenticated key
//! exchange (PAKE): registration and login are each a two-message handshake
//! whose server-side state lives in a time-bounded store, guarded by a
//! rate limiter, an account lifecycle (pending, verified, locked) and an
//! enumeration-resistance policy.

use vstd::prelude::*;

pub mod codec;
pub mod confirm;
pub mod engine;
pub mod errors;
pub mod login;
pub mod profile;
pub mod registration;
pub mod store;
pub mod validate;

pub use codec::mint_verification_token;
pub use errors::AuthError;
pub use validate::validate_mail;
pub use validate::validate_username;

use crate::store::AuthenticationData;
use crate::validate::valid_username;

verus! {

/// Law: a username that fails the charset/length rule is refused as
/// `ValidationError` by every entry point's refusal ladder — and each
/// entry point's own contract adds that on any refusal the store is
/// left untouched.
pub proof fn lemma_invalid_username_rejected_everywhere(
    d: AuthenticationData,
    u: Seq<char>,
    mail: Seq<char>,
    request: Seq<u8>,
    token: Seq<char>,
    engine_ok: bool,
    now: u64,
)
    requires
        !valid_username(u),
    ensures
        registration::registration_start_check(&d, u, mail, request, engine_ok, now) == Some(
            AuthError::ValidationError,
        ),
        registration::registration_finish_check(&d, u, mail, request, now) == Some(
            AuthError::ValidationError,
        ),
        registration::registration_commit_check(u, mail, engine_ok) == Some(
            AuthError::ValidationError,
        ),
        login::login_start_check(&d, u, now) == Some(AuthError::ValidationError),
        login::login_commit_check(u, engine_ok) == Some(AuthError::ValidationError),
        login::login_finish_check(&d, u, now) == Some(AuthError::ValidationError),
        confirm::confirm_check(&d, u, token) == Some(AuthError::ValidationError),
{
}

} // verus!
