//! The durable per-username account record and its lifecycle flags.
//!
//! A record is in exactly one of three phases: *pending* (mail not yet
//! confirmed), *active* (confirmed, not locked) or *locked* (login refused
//! regardless of confirmation).

use vstd::prelude::*;

verus! {

/// The stored account record.  The credential file is kept base64-encoded,
/// as is the URL-safe mail-confirmation token.
#[derive(Debug)]
pub struct UserProfile {
    pub username: String,
    pub mail: String,
    pub password_file: String,
    pub email_verification: String,
}

/// The metadata sidecar stored beside the record.
#[derive(Clone, Copy, Debug, PartialEq, Eq, Structural)]
pub struct UserProfileMetadata {
    /// Credential-format version, for future migration.
    pub v: u8,
    /// Mail address confirmed.
    pub e: bool,
    /// Account locked.
    pub l: bool,
}

/// Mail not yet confirmed and not locked.
pub open spec fn is_pending(m: UserProfileMetadata) -> bool {
    !m.e && !m.l
}

/// Confirmed and not locked: login may proceed.
pub open spec fn is_active(m: UserProfileMetadata) -> bool {
    m.e && !m.l
}

/// Locked: login permanently refused.
pub open spec fn is_locked(m: UserProfileMetadata) -> bool {
    m.l
}

/// Law: the lifecycle is a partition — every record is in exactly one
/// of the three phases, with the lock taking precedence over the
/// verified flag.
pub proof fn lemma_lifecycle_phases_partition(m: UserProfileMetadata)
    ensures
        is_pending(m) || is_active(m) || is_locked(m),
        !(is_pending(m) && is_active(m)),
        !(is_pending(m) && is_locked(m)),
        !(is_active(m) && is_locked(m)),
{
}

/// An owned copy of a record, field for field.
pub fn clone_profile(p: &UserProfile) -> (r: UserProfile)
    ensures
        r == *p,
{
    let r = UserProfile {
        username: p.username.clone(),
        mail: p.mail.clone(),
        password_file: p.password_file.clone(),
        email_verification: p.email_verification.clone(),
    };
    r
}

} // verus!
