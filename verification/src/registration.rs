//! The registration orchestrator: two round trips, guarded by validation,
//! uniqueness and the 15-second throttle window.
//!
//! The first round trip (`start`) stores the engine's opaque state under
//! the registration keyspace; the second (`finish_take` then
//! `finish_commit`) consumes that state, runs the engine's finish step
//! between the two halves, and persists the account record in the
//! pending phase with a freshly minted mail-confirmation token.

use vstd::prelude::*;
use vstd::string::StringExecFns;
use vstd::string::StringSliceAdditionalSpecFns;

use crate::codec::{b64_decode_of, encode_standard};
use crate::engine::EnginePair;
use crate::errors::AuthError;
use crate::profile::{UserProfile, UserProfileMetadata};
use crate::store::{
    AuthenticationData, Flow, MAX_CLOCK_MS, REGISTRATION_WINDOW_MS, STATE_TTL_MS,
};
use crate::validate::{valid_mail, valid_username, validate_mail, validate_username};

verus! {

/// Size bound on the client's base64 payload text: 5 to 256 bytes.
pub open spec fn valid_request_text(s: Seq<u8>) -> bool {
    5 <= s.len() <= 256
}

/// The refusal ladder of registration `start`: the first failure it hits,
/// or `None` when the request goes through.
pub open spec fn registration_start_check(
    d: &AuthenticationData,
    u: Seq<char>,
    mail: Seq<char>,
    request: Seq<u8>,
    engine_ok: bool,
    now: u64,
) -> Option<AuthError> {
    if !valid_username(u) || !valid_mail(mail) || !valid_request_text(request) {
        Some(AuthError::ValidationError)
    } else if d.spec_exists(u) {
        Some(AuthError::Conflict)
    } else if d.spec_exists_pending(u) {
        Some(AuthError::Conflict)
    } else if d.spec_throttled(Flow::Registration, u, REGISTRATION_WINDOW_MS, now) {
        Some(AuthError::Throttled)
    } else if !engine_ok {
        Some(AuthError::EngineFailure)
    } else {
        None
    }
}

/// Registration round trip one.  The caller has already run the engine's
/// registration-start on the decoded client message and hands in its
/// outcome; on success the opaque engine state is stored under the
/// registration keyspace, stamped `now_ms`, and the engine's response
/// message is returned for the client.
pub fn start(
    data: &mut AuthenticationData,
    username: &str,
    mail: &str,
    request: &str,
    engine: Option<EnginePair>,
    now_ms: u64,
) -> (r: Result<Vec<u8>, AuthError>)
    requires
        old(data).wf(),
        now_ms <= MAX_CLOCK_MS,
    ensures
        final(data).wf(),
        (match r {
            Err(err) => Some(err) == registration_start_check(
                old(data),
                username@,
                mail@,
                request.spec_bytes(),
                engine is Some,
                now_ms,
            ) && *final(data) == *old(data),
            Ok(msg) => ({
                &&& registration_start_check(
                    old(data),
                    username@,
                    mail@,
                    request.spec_bytes(),
                    engine is Some,
                    now_ms,
                ) is None
                &&& (engine matches Some(p) && msg@ == p.message@ && (match final(data).spec_state(Flow::Registration, username@) {
                    Some(e) => e.username@ == username@ && e.payload@ == p.state@ && e.created_at
                        == now_ms && (e.expires_at matches Some(x) && x == now_ms + STATE_TTL_MS),
                    None => false,
                }))
                &&& forall|f2: Flow, u2: Seq<char>|
                    !(f2 == Flow::Registration && u2 == username@) ==> #[trigger] final(data).spec_state(f2, u2) == old(data).spec_state(f2, u2)
                &&& final(data).profiles == old(data).profiles
            }),
        }),
{
    if !validate_username(username) {
        return Err(AuthError::ValidationError);
    }
    if !validate_mail(mail) {
        return Err(AuthError::ValidationError);
    }
    let rl = request.as_bytes().len();
    if rl < 5 || rl > 256 {
        return Err(AuthError::ValidationError);
    }
    if data.username_already_registered(username) {
        return Err(AuthError::Conflict);
    }
    if data.username_already_registered_waiting_mail_confirm(username) {
        return Err(AuthError::Conflict);
    }
    if data.too_many_registration_attempts(username, now_ms) {
        return Err(AuthError::Throttled);
    }
    match engine {
        Some(pair) => {
            let EnginePair { state, message } = pair;
            data.set_registration_state(username, state, now_ms);
            Ok(message)
        },
        None => Err(AuthError::EngineFailure),
    }
}

/// The refusal ladder of registration `finish` up to consuming the stored
/// handshake state.
pub open spec fn registration_finish_check(
    d: &AuthenticationData,
    u: Seq<char>,
    mail: Seq<char>,
    request: Seq<u8>,
    now: u64,
) -> Option<AuthError> {
    if !valid_username(u) || !valid_mail(mail) || !valid_request_text(request) {
        Some(AuthError::ValidationError)
    } else if d.spec_exists(u) {
        Some(AuthError::Conflict)
    } else if d.spec_exists_pending(u) {
        Some(AuthError::Conflict)
    } else if d.spec_live_payload(Flow::Registration, u, now) is None {
        Some(AuthError::NoState)
    } else {
        None
    }
}

/// Registration round trip two, first half: re-validates, re-checks
/// uniqueness, then consumes the live handshake state and hands it out
/// for the engine's registration-finish.  Once taken, the state is gone:
/// a failing engine step cannot be retried without a fresh `start`.
pub fn finish_take(
    data: &mut AuthenticationData,
    username: &str,
    mail: &str,
    request: &str,
    now_ms: u64,
) -> (r: Result<Vec<u8>, AuthError>)
    requires
        old(data).wf(),
    ensures
        final(data).wf(),
        (match r {
            Err(err) => Some(err) == registration_finish_check(
                old(data),
                username@,
                mail@,
                request.spec_bytes(),
                now_ms,
            ) && *final(data) == *old(data),
            Ok(state) => ({
                &&& registration_finish_check(old(data), username@, mail@, request.spec_bytes(), now_ms)
                    is None
                &&& old(data).spec_live_payload(Flow::Registration, username@, now_ms) == Some(
                    state@,
                )
                &&& final(data).spec_state(Flow::Registration, username@) is None
                &&& forall|f2: Flow, u2: Seq<char>|
                    !(f2 == Flow::Registration && u2 == username@) ==> #[trigger] final(data).spec_state(f2, u2) == old(data).spec_state(f2, u2)
                &&& final(data).profiles == old(data).profiles
            }),
        }),
{
    if !validate_username(username) {
        return Err(AuthError::ValidationError);
    }
    if !validate_mail(mail) {
        return Err(AuthError::ValidationError);
    }
    let rl = request.as_bytes().len();
    if rl < 5 || rl > 256 {
        return Err(AuthError::ValidationError);
    }
    if data.username_already_registered(username) {
        return Err(AuthError::Conflict);
    }
    if data.username_already_registered_waiting_mail_confirm(username) {
        return Err(AuthError::Conflict);
    }
    match data.get_registration_state(username, now_ms) {
        None => Err(AuthError::NoState),
        Some(state) => {
            data.remove_registration_state(username);
            Ok(state)
        },
    }
}

/// The refusal ladder of registration `finish` after the engine step.
pub open spec fn registration_commit_check(u: Seq<char>, mail: Seq<char>, engine_ok: bool) -> Option<
    AuthError,
> {
    if !valid_username(u) || !valid_mail(mail) {
        Some(AuthError::ValidationError)
    } else if !engine_ok {
        Some(AuthError::EngineFailure)
    } else {
        None
    }
}

/// Registration round trip two, second half.  The caller ran the
/// engine's registration-finish on the taken state and delivered the
/// confirmation mail; on success the account record is persisted in the
/// pending phase, with the credential file base64-encoded and the minted
/// token kept for the confirmation step.
pub fn finish_commit(
    data: &mut AuthenticationData,
    username: &str,
    mail: &str,
    credential: Option<Vec<u8>>,
    token: &str,
) -> (r: Result<(), AuthError>)
    requires
        old(data).wf(),
    ensures
        final(data).wf(),
        (match r {
            Err(err) => Some(err) == registration_commit_check(
                username@,
                mail@,
                credential is Some,
            ) && *final(data) == *old(data),
            Ok(u) => ({
                &&& registration_commit_check(username@, mail@, credential is Some) is None
                &&& (credential matches Some(c) && (match final(data).spec_profile(username@) {
                    Some(en) => en.username@ == username@ && en.profile.username@ == username@
                        && en.profile.mail@ == mail@ && b64_decode_of(en.profile.password_file@)
                        == Some(c@) && en.profile.email_verification@ == token@ && en.metadata == (
                    UserProfileMetadata { v: 0, e: false, l: false }),
                    None => false,
                }))
                &&& forall|u2: Seq<char>|
                    u2 != username@ ==> #[trigger] final(data).spec_profile(u2) == old(data).spec_profile(u2)
                &&& final(data).handshakes == old(data).handshakes
            }),
        }),
{
    if !validate_username(username) {
        return Err(AuthError::ValidationError);
    }
    if !validate_mail(mail) {
        return Err(AuthError::ValidationError);
    }
    match credential {
        None => Err(AuthError::EngineFailure),
        Some(c) => {
            let password_file = encode_standard(&c);
            let record = UserProfile {
                username: String::from_str(username),
                mail: String::from_str(mail),
                password_file,
                email_verification: String::from_str(token),
            };
            data.save_profile(username, &record, 0, false, false);
            Ok(())
        },
    }
}

/// The store shape a successful `start` leaves behind: handshake state
/// stamped `t1` with the full TTL armed, and the account records as they
/// were.
pub open spec fn registration_started(
    d0: &AuthenticationData,
    d1: &AuthenticationData,
    u: Seq<char>,
    t1: u64,
) -> bool {
    &&& (match d1.spec_state(Flow::Registration, u) {
        Some(e) => e.created_at == t1 && (e.expires_at matches Some(x) && x == t1 + STATE_TTL_MS),
        None => false,
    })
    &&& d1.profiles == d0.profiles
}

/// Law: a second registration `start` for the same username inside the
/// 15-second window is refused as `Throttled`, whatever the engine says.
pub proof fn lemma_second_start_within_window_throttled(
    d0: AuthenticationData,
    d1: AuthenticationData,
    u: Seq<char>,
    mail: Seq<char>,
    request: Seq<u8>,
    t1: u64,
    t2: u64,
    engine_ok: bool,
)
    requires
        registration_start_check(&d0, u, mail, request, true, t1) is None,
        registration_started(&d0, &d1, u, t1),
        t1 <= t2 < t1 + REGISTRATION_WINDOW_MS,
    ensures
        registration_start_check(&d1, u, mail, request, engine_ok, t2) == Some(
            AuthError::Throttled,
        ),
{
    assert(d1.profiles@ == d0.profiles@);
}

/// Law: registration `finish` without a live `start` — never started, or
/// started at `t1` and reached only at or after the 60-second TTL —
/// fails with `NoState`.
pub proof fn lemma_finish_after_ttl_no_state(
    d1: AuthenticationData,
    u: Seq<char>,
    mail: Seq<char>,
    request: Seq<u8>,
    t1: u64,
    t2: u64,
)
    requires
        (match d1.spec_state(Flow::Registration, u) {
            Some(e) => e.expires_at matches Some(x) && x == t1 + STATE_TTL_MS,
            None => true,
        }),
        valid_username(u),
        valid_mail(mail),
        valid_request_text(request),
        !d1.spec_exists(u),
        !d1.spec_exists_pending(u),
        t2 >= t1 + STATE_TTL_MS,
    ensures
        registration_finish_check(&d1, u, mail, request, t2) == Some(AuthError::NoState),
{
}

/// Law: the record a successful registration `finish` persists is in the
/// pending phase — waiting for mail confirmation — and not yet an
/// existing account.
pub proof fn lemma_finished_registration_pending(d1: AuthenticationData, u: Seq<char>)
    requires
        (match d1.spec_profile(u) {
            Some(en) => en.metadata == (UserProfileMetadata { v: 0, e: false, l: false }),
            None => false,
        }),
    ensures
        d1.spec_exists_pending(u),
        !d1.spec_exists(u),
{
}

} // verus!
