//! The login orchestrator: two round trips with enumeration resistance,
//! account-lifecycle guards, and session issuance.
//!
//! The first round trip never reveals whether the username exists: when
//! no record is found the caller is told to run the engine against a
//! deterministically regenerated dummy credential, so the response keeps
//! the shape of a real account's response.  Account flags are examined
//! only by the second round trip, after the handshake state has been
//! read, and the session key is persisted in the login keyspace — the
//! deliberate key-space sharing the store documents.

use vstd::prelude::*;

use crate::codec::{b64_decode_of, decode_standard};
use crate::engine::EnginePair;
use crate::errors::AuthError;
use crate::store::{
    AuthenticationData, Flow, LOGIN_WINDOW_MS, MAX_CLOCK_MS, SESSION_WINDOW_MS, STATE_TTL_MS,
};
use crate::validate::{valid_username, validate_username};

verus! {

/// What the engine's login-start should be run against: the account's
/// decoded credential file, or — for an unknown username — the dummy
/// credential, so that absence stays unobservable.
pub enum CredentialSource {
    Registered { password_file: Vec<u8>, version: u8 },
    Unregistered,
}

/// The refusal ladder of login `start` up to the credential lookup.  Both
/// throttle questions read the shared login keyspace, so the session
/// window re-examines the same entry as the attempt window.
pub open spec fn login_start_check(d: &AuthenticationData, u: Seq<char>, now: u64) -> Option<
    AuthError,
> {
    if !valid_username(u) {
        Some(AuthError::ValidationError)
    } else if d.spec_throttled(Flow::Login, u, LOGIN_WINDOW_MS, now) {
        Some(AuthError::Throttled)
    } else if d.spec_throttled(Flow::Login, u, SESSION_WINDOW_MS, now) {
        Some(AuthError::Throttled)
    } else if (match d.spec_profile(u) {
        Some(en) => b64_decode_of(en.profile.password_file@) is None,
        None => false,
    }) {
        Some(AuthError::DecodeFailure)
    } else {
        None
    }
}

/// Login round trip one, first half: guards the attempt and answers which
/// credential file the engine must be run against.  Reads only; the
/// store is untouched whatever the outcome.
pub fn start_lookup(data: &AuthenticationData, username: &str, now_ms: u64) -> (r: Result<
    CredentialSource,
    AuthError,
>)
    requires
        data.wf(),
    ensures
        (match r {
            Err(err) => Some(err) == login_start_check(data, username@, now_ms),
            Ok(src) => ({
                &&& login_start_check(data, username@, now_ms) is None
                &&& (match src {
                    CredentialSource::Registered { password_file, version } => (match data
                        .spec_profile(username@) {
                        Some(en) => b64_decode_of(en.profile.password_file@) == Some(
                            password_file@,
                        ) && version == en.metadata.v,
                        None => false,
                    }),
                    CredentialSource::Unregistered => data.spec_profile(username@) is None,
                })
            }),
        }),
{
    if !validate_username(username) {
        return Err(AuthError::ValidationError);
    }
    if data.too_many_login_attempts(username, now_ms) {
        return Err(AuthError::Throttled);
    }
    if data.too_many_login_sessions_attempts(username, now_ms) {
        return Err(AuthError::Throttled);
    }
    match data.get_profile(username) {
        Some(pm) => {
            let (p, m) = pm;
            match decode_standard(p.password_file.as_str()) {
                Some(file) => Ok(CredentialSource::Registered { password_file: file, version: m.v }),
                None => Err(AuthError::DecodeFailure),
            }
        },
        None => Ok(CredentialSource::Unregistered),
    }
}

/// The cascade of a commit half: validation, then the engine verdict.
pub open spec fn login_commit_check(u: Seq<char>, engine_ok: bool) -> Option<AuthError> {
    if !valid_username(u) {
        Some(AuthError::ValidationError)
    } else if !engine_ok {
        Some(AuthError::EngineFailure)
    } else {
        None
    }
}

/// Login round trip one, second half: stores the engine's opaque login
/// state under the login keyspace, stamped `now_ms` with the full TTL,
/// and returns the engine's response message for the client.
pub fn start_commit(
    data: &mut AuthenticationData,
    username: &str,
    engine: Option<EnginePair>,
    now_ms: u64,
) -> (r: Result<Vec<u8>, AuthError>)
    requires
        old(data).wf(),
        now_ms <= MAX_CLOCK_MS,
    ensures
        final(data).wf(),
        (match r {
            Err(err) => Some(err) == login_commit_check(username@, engine is Some) && *final(data)
                == *old(data),
            Ok(msg) => ({
                &&& login_commit_check(username@, engine is Some) is None
                &&& (engine matches Some(p) && msg@ == p.message@ && (match final(data).spec_state(
                    Flow::Login,
                    username@,
                ) {
                    Some(e) => e.username@ == username@ && e.payload@ == p.state@ && e.created_at
                        == now_ms && (e.expires_at matches Some(x) && x == now_ms + STATE_TTL_MS),
                    None => false,
                }))
                &&& forall|f2: Flow, u2: Seq<char>|
                    !(f2 == Flow::Login && u2 == username@) ==> #[trigger] final(data).spec_state(
                        f2,
                        u2,
                    ) == old(data).spec_state(f2, u2)
                &&& final(data).profiles == old(data).profiles
            }),
        }),
{
    if !validate_username(username) {
        return Err(AuthError::ValidationError);
    }
    match engine {
        Some(pair) => {
            let EnginePair { state, message } = pair;
            data.set_login_state(username, state, now_ms);
            Ok(message)
        },
        None => Err(AuthError::EngineFailure),
    }
}

/// The refusal ladder of login `finish`: handshake state first, then the
/// account lifecycle — absence, unconfirmed mail, lock — in that order.
pub open spec fn login_finish_check(d: &AuthenticationData, u: Seq<char>, now: u64) -> Option<
    AuthError,
> {
    if !valid_username(u) {
        Some(AuthError::ValidationError)
    } else if d.spec_live_payload(Flow::Login, u, now) is None {
        Some(AuthError::NoState)
    } else {
        match d.spec_profile(u) {
            None => Some(AuthError::UnknownAccount),
            Some(en) => if !en.metadata.e {
                Some(AuthError::EmailUnverified)
            } else if en.metadata.l {
                Some(AuthError::AccountLocked)
            } else {
                None
            },
        }
    }
}

/// Login round trip two, first half: checks the live handshake state and
/// the account guards, then consumes the state and hands it out for the
/// engine's login-finish.  On the account-guard failures the state is
/// left in place, so the client may retry within the TTL.
pub fn finish_take(data: &mut AuthenticationData, username: &str, now_ms: u64) -> (r: Result<
    Vec<u8>,
    AuthError,
>)
    requires
        old(data).wf(),
    ensures
        final(data).wf(),
        (match r {
            Err(err) => Some(err) == login_finish_check(old(data), username@, now_ms) && *final(data) == *old(data),
            Ok(state) => ({
                &&& login_finish_check(old(data), username@, now_ms) is None
                &&& old(data).spec_live_payload(Flow::Login, username@, now_ms) == Some(state@)
                &&& final(data).spec_state(Flow::Login, username@) is None
                &&& forall|f2: Flow, u2: Seq<char>|
                    !(f2 == Flow::Login && u2 == username@) ==> #[trigger] final(data).spec_state(
                        f2,
                        u2,
                    ) == old(data).spec_state(f2, u2)
                &&& final(data).profiles == old(data).profiles
            }),
        }),
{
    if !validate_username(username) {
        return Err(AuthError::ValidationError);
    }
    match data.get_login_state(username, now_ms) {
        None => Err(AuthError::NoState),
        Some(state) => {
            match data.get_profile(username) {
                None => Err(AuthError::UnknownAccount),
                Some(pm) => {
                    let (_, m) = pm;
                    if !m.e {
                        Err(AuthError::EmailUnverified)
                    } else if m.l {
                        Err(AuthError::AccountLocked)
                    } else {
                        data.remove_login_state(username);
                        Ok(state)
                    }
                },
            }
        },
    }
}

/// Login round trip two, second half: persists the session record — in
/// the shared login keyspace, without expiry — and returns the raw
/// session key to the caller.
pub fn finish_commit(
    data: &mut AuthenticationData,
    username: &str,
    session_key: Option<Vec<u8>>,
    now_ms: u64,
) -> (r: Result<Vec<u8>, AuthError>)
    requires
        old(data).wf(),
        now_ms <= MAX_CLOCK_MS,
    ensures
        final(data).wf(),
        (match r {
            Err(err) => Some(err) == login_commit_check(username@, session_key is Some) && *final(data) == *old(data),
            Ok(key) => ({
                &&& login_commit_check(username@, session_key is Some) is None
                &&& (session_key matches Some(k) && key@ == k@ && (match final(data).spec_state(
                    Flow::Login,
                    username@,
                ) {
                    Some(e) => e.username@ == username@ && e.payload@ == k@ && e.created_at
                        == now_ms && e.expires_at is None,
                    None => false,
                }))
                &&& forall|f2: Flow, u2: Seq<char>|
                    !(f2 == Flow::Login && u2 == username@) ==> #[trigger] final(data).spec_state(
                        f2,
                        u2,
                    ) == old(data).spec_state(f2, u2)
                &&& final(data).profiles == old(data).profiles
            }),
        }),
{
    if !validate_username(username) {
        return Err(AuthError::ValidationError);
    }
    match session_key {
        Some(k) => {
            data.set_login_session(username, &k, now_ms);
            Ok(k)
        },
        None => Err(AuthError::EngineFailure),
    }
}

/// Law: with a live login handshake and an existing record, `finish` is
/// decided by the account flags alone — an unconfirmed mail address fails
/// `EmailUnverified`, a locked account fails `AccountLocked` — whatever
/// the client's final message contains, since the engine is consulted
/// only after these guards.
pub proof fn lemma_finish_decided_by_account_flags(d: AuthenticationData, u: Seq<char>, now: u64)
    requires
        valid_username(u),
        d.spec_live_payload(Flow::Login, u, now) is Some,
        d.spec_profile(u) is Some,
    ensures
        !d.spec_profile(u).unwrap().metadata.e ==> login_finish_check(&d, u, now) == Some(
            AuthError::EmailUnverified,
        ),
        d.spec_profile(u).unwrap().metadata.e && d.spec_profile(u).unwrap().metadata.l
            ==> login_finish_check(&d, u, now) == Some(AuthError::AccountLocked),
{
}

} // verus!
