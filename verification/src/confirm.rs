//! The mail-confirmation step: one token, one flip of the verified flag.
//!
//! A pending record carries the minted URL-safe token; presenting that
//! exact token flips the record to the active phase and changes nothing
//! else.  Re-confirming an already verified account is refused softly,
//! and without touching the record, so a double-clicked confirmation
//! link stays harmless.  A username with no record at all is refused
//! with the very failure a mismatched token gets, so the confirmation
//! endpoint never reveals whether an account exists.

use vstd::prelude::*;

use crate::codec::{urlsafe_decodes, urlsafe_well_formed};
use crate::errors::AuthError;
use crate::profile::UserProfileMetadata;
use crate::store::{str_eq, AuthenticationData};
use crate::validate::{valid_username, validate_username};

verus! {

/// The refusal ladder of `confirm_mail`: the first failure it hits, or
/// `None` when the token matches a pending record.  An absent record is
/// answered exactly like a mismatched token.
pub open spec fn confirm_check(d: &AuthenticationData, u: Seq<char>, token: Seq<char>) -> Option<
    AuthError,
> {
    if !valid_username(u) || !urlsafe_decodes(token) {
        Some(AuthError::ValidationError)
    } else {
        match d.spec_profile(u) {
            None => Some(AuthError::TokenMismatch),
            Some(en) => if en.metadata.e {
                Some(AuthError::AlreadyVerified)
            } else if en.metadata.l {
                Some(AuthError::AccountLocked)
            } else if en.profile.email_verification@ != token {
                Some(AuthError::TokenMismatch)
            } else {
                None
            },
        }
    }
}

/// Confirms a mail address: on the exact minted token, rewrites the
/// record with the verified flag set and every other field unchanged.
pub fn confirm_mail(data: &mut AuthenticationData, username: &str, token: &str) -> (r: Result<
    (),
    AuthError,
>)
    requires
        old(data).wf(),
    ensures
        final(data).wf(),
        (match r {
            Err(err) => Some(err) == confirm_check(old(data), username@, token@) && *final(data)
                == *old(data),
            Ok(u) => ({
                &&& confirm_check(old(data), username@, token@) is None
                &&& (match (old(data).spec_profile(username@), final(data).spec_profile(
                    username@,
                )) {
                    (Some(b), Some(a)) => a.username@ == username@ && a.profile == b.profile
                        && a.metadata == (UserProfileMetadata { v: 0, e: true, l: false }),
                    _ => false,
                })
                &&& forall|u2: Seq<char>|
                    u2 != username@ ==> #[trigger] final(data).spec_profile(u2) == old(data).spec_profile(u2)
                &&& final(data).handshakes == old(data).handshakes
            }),
        }),
{
    if !validate_username(username) {
        return Err(AuthError::ValidationError);
    }
    if !urlsafe_well_formed(token) {
        return Err(AuthError::ValidationError);
    }
    match data.get_profile(username) {
        None => Err(AuthError::TokenMismatch),
        Some(pm) => {
            let (p, m) = pm;
            if m.e {
                Err(AuthError::AlreadyVerified)
            } else if m.l {
                Err(AuthError::AccountLocked)
            } else if !str_eq(p.email_verification.as_str(), token) {
                Err(AuthError::TokenMismatch)
            } else {
                data.save_profile(username, &p, 0, false, true);
                Ok(())
            }
        },
    }
}

/// Law: the record a successful confirmation leaves behind is an
/// existing, active account — no longer pending, so registration under
/// the same username keeps refusing with a conflict while login may
/// now proceed to its account checks.
pub proof fn lemma_confirmed_account_exists(d1: AuthenticationData, u: Seq<char>)
    requires
        (match d1.spec_profile(u) {
            Some(en) => en.metadata == (UserProfileMetadata { v: 0, e: true, l: false }),
            None => false,
        }),
    ensures
        d1.spec_exists(u),
        !d1.spec_exists_pending(u),
{
}

/// Law: the confirmation endpoint does not reveal whether an account
/// exists — a username with no record is refused with `TokenMismatch`,
/// the same caller-visible failure a wrong token against a pending
/// record gets.
pub proof fn lemma_confirm_hides_absence(
    d: AuthenticationData,
    u: Seq<char>,
    token: Seq<char>,
)
    requires
        valid_username(u),
        urlsafe_decodes(token),
        d.spec_profile(u) is None,
    ensures
        confirm_check(&d, u, token) == Some(AuthError::TokenMismatch),
{
}

/// Law: confirming twice is safe — once a record is verified, the check
/// answers `AlreadyVerified`, and the refusal leaves the store unchanged.
pub proof fn lemma_confirm_twice_already_verified(
    d1: AuthenticationData,
    u: Seq<char>,
    token: Seq<char>,
)
    requires
        valid_username(u),
        urlsafe_decodes(token),
        (match d1.spec_profile(u) {
            Some(en) => en.metadata.e,
            None => false,
        }),
    ensures
        confirm_check(&d1, u, token) == Some(AuthError::AlreadyVerified),
{
}

} // verus!
