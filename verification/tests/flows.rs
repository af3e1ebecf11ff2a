use authentication_backend::engine::EnginePair;
use authentication_backend::login::{self, CredentialSource};
use authentication_backend::profile::UserProfile;
use authentication_backend::store::AuthenticationData;
use authentication_backend::{confirm, registration, AuthError};

const MAIL: &str = "alice@example.com";
const REQUEST: &str = "Y2xpZW50LW1lc3NhZ2U";

fn pair(state: &[u8], message: &[u8]) -> EnginePair {
    EnginePair { state: state.to_vec(), message: message.to_vec() }
}

#[test]
fn invalid_username_is_rejected_by_every_entry_point() {
    let mut data = AuthenticationData::new();
    for bad in ["ab", "Alice", "user0", "abcdefghijklmnop"] {
        assert_eq!(
            registration::start(&mut data, bad, MAIL, REQUEST, Some(pair(b"s", b"m")), 1_000),
            Err(AuthError::ValidationError)
        );
        assert_eq!(
            registration::finish_take(&mut data, bad, MAIL, REQUEST, 1_000),
            Err(AuthError::ValidationError)
        );
        assert_eq!(
            registration::finish_commit(&mut data, bad, MAIL, Some(vec![1]), "t"),
            Err(AuthError::ValidationError)
        );
        assert!(matches!(
            login::start_lookup(&data, bad, 1_000),
            Err(AuthError::ValidationError)
        ));
        assert_eq!(
            login::start_commit(&mut data, bad, Some(pair(b"s", b"m")), 1_000),
            Err(AuthError::ValidationError)
        );
        assert_eq!(login::finish_take(&mut data, bad, 1_000), Err(AuthError::ValidationError));
        assert_eq!(
            login::finish_commit(&mut data, bad, Some(vec![1]), 1_000),
            Err(AuthError::ValidationError)
        );
        assert_eq!(confirm::confirm_mail(&mut data, bad, "t"), Err(AuthError::ValidationError));
    }
    // storage untouched throughout
    assert!(data.get_profile("alice").is_none());
    assert_eq!(data.get_registration_state("alice", 1_000), None);
    assert_eq!(data.get_login_state("alice", 1_000), None);
}

#[test]
fn second_registration_start_within_window_is_throttled() {
    let mut data = AuthenticationData::new();
    let r1 = registration::start(&mut data, "alice", MAIL, REQUEST, Some(pair(b"s1", b"m1")), 1_000);
    assert_eq!(r1, Ok(b"m1".to_vec()));
    let r2 = registration::start(
        &mut data,
        "alice",
        MAIL,
        REQUEST,
        Some(pair(b"s2", b"m2")),
        15_999,
    );
    assert_eq!(r2, Err(AuthError::Throttled));
    // once the 15-second window lapses the start may be re-issued, and
    // it replaces the earlier state
    let r3 = registration::start(
        &mut data,
        "alice",
        MAIL,
        REQUEST,
        Some(pair(b"s3", b"m3")),
        16_000,
    );
    assert_eq!(r3, Ok(b"m3".to_vec()));
    assert_eq!(data.get_registration_state("alice", 16_000), Some(b"s3".to_vec()));
}

#[test]
fn finish_without_start_or_after_ttl_yields_no_state() {
    let mut data = AuthenticationData::new();
    assert_eq!(
        registration::finish_take(&mut data, "alice", MAIL, REQUEST, 1_000),
        Err(AuthError::NoState)
    );
    registration::start(&mut data, "alice", MAIL, REQUEST, Some(pair(b"s", b"m")), 1_000).unwrap();
    // at the TTL boundary the state is already unreadable
    assert_eq!(
        registration::finish_take(&mut data, "alice", MAIL, REQUEST, 61_000),
        Err(AuthError::NoState)
    );
}

#[test]
fn finished_registration_is_pending_until_confirmation() {
    let mut data = AuthenticationData::new();
    registration::start(&mut data, "alice", MAIL, REQUEST, Some(pair(b"st", b"m")), 1_000)
        .unwrap();
    let taken = registration::finish_take(&mut data, "alice", MAIL, REQUEST, 2_000).unwrap();
    assert_eq!(taken, b"st".to_vec());
    // the state was consumed: a second finish needs a fresh start
    assert_eq!(
        registration::finish_take(&mut data, "alice", MAIL, REQUEST, 2_000),
        Err(AuthError::NoState)
    );
    let token = authentication_backend::mint_verification_token();
    registration::finish_commit(&mut data, "alice", MAIL, Some(vec![9, 9, 9]), &token).unwrap();
    assert!(data.username_already_registered_waiting_mail_confirm("alice"));
    assert!(!data.username_already_registered("alice"));
    // a new registration attempt now conflicts
    assert_eq!(
        registration::start(&mut data, "alice", MAIL, REQUEST, Some(pair(b"s", b"m")), 20_000),
        Err(AuthError::Conflict)
    );
}

#[test]
fn request_payload_bound_counts_bytes() {
    let mut data = AuthenticationData::new();
    // four bytes: under the 5-byte floor
    assert_eq!(
        registration::start(&mut data, "alice", MAIL, "abcd", Some(pair(b"s", b"m")), 1_000),
        Err(AuthError::ValidationError)
    );
    // three characters of two bytes each make six bytes: accepted
    let six_bytes = "ééé";
    assert_eq!(six_bytes.len(), 6);
    assert!(registration::start(&mut data, "alice", MAIL, six_bytes, Some(pair(b"s", b"m")), 1_000)
        .is_ok());
    // 256 bytes pass, 257 do not
    let mut data2 = AuthenticationData::new();
    let at_cap = "a".repeat(256);
    assert!(registration::start(&mut data2, "bob", MAIL, &at_cap, Some(pair(b"s", b"m")), 1_000)
        .is_ok());
    let over_cap = "a".repeat(257);
    assert_eq!(
        registration::start(&mut data2, "carol", MAIL, &over_cap, Some(pair(b"s", b"m")), 1_000),
        Err(AuthError::ValidationError)
    );
}

#[test]
fn engine_rejection_surfaces_as_engine_failure() {
    let mut data = AuthenticationData::new();
    assert_eq!(
        registration::start(&mut data, "alice", MAIL, REQUEST, None, 1_000),
        Err(AuthError::EngineFailure)
    );
    assert_eq!(
        registration::finish_commit(&mut data, "alice", MAIL, None, "t"),
        Err(AuthError::EngineFailure)
    );
    assert_eq!(
        login::start_commit(&mut data, "alice", None, 1_000),
        Err(AuthError::EngineFailure)
    );
    assert_eq!(
        login::finish_commit(&mut data, "alice", None, 1_000),
        Err(AuthError::EngineFailure)
    );
}

#[test]
fn login_finish_guards_on_account_flags() {
    let mut data = AuthenticationData::new();
    // an unconfirmed account: registered but the mail was never verified
    registration::start(&mut data, "alice", MAIL, REQUEST, Some(pair(b"s", b"m")), 1_000)
        .unwrap();
    registration::finish_take(&mut data, "alice", MAIL, REQUEST, 2_000).unwrap();
    let token = authentication_backend::mint_verification_token();
    registration::finish_commit(&mut data, "alice", MAIL, Some(vec![1, 2]), &token).unwrap();

    login::start_commit(&mut data, "alice", Some(pair(b"ls", b"lm")), 30_000).unwrap();
    assert_eq!(
        login::finish_take(&mut data, "alice", 31_000),
        Err(AuthError::EmailUnverified)
    );
    // the refusal came before consuming: the state is still there
    assert_eq!(data.get_login_state("alice", 31_000), Some(b"ls".to_vec()));

    // a locked account is refused even when verified
    let (p, _) = data.get_profile("alice").unwrap();
    data.save_profile("alice", &p, 0, true, true);
    assert_eq!(
        login::finish_take(&mut data, "alice", 32_000),
        Err(AuthError::AccountLocked)
    );

    // an account that vanished between the round trips
    login::start_commit(&mut data, "bob", Some(pair(b"bs", b"bm")), 30_000).unwrap();
    assert_eq!(
        login::finish_take(&mut data, "bob", 31_000),
        Err(AuthError::UnknownAccount)
    );
}

#[test]
fn login_finish_happy_path_issues_the_session_key() {
    let mut data = AuthenticationData::new();
    registration::start(&mut data, "alice", MAIL, REQUEST, Some(pair(b"s", b"m")), 1_000)
        .unwrap();
    registration::finish_take(&mut data, "alice", MAIL, REQUEST, 2_000).unwrap();
    let token = authentication_backend::mint_verification_token();
    registration::finish_commit(&mut data, "alice", MAIL, Some(vec![1, 2]), &token).unwrap();
    confirm::confirm_mail(&mut data, "alice", &token).unwrap();

    login::start_commit(&mut data, "alice", Some(pair(b"ls", b"lm")), 30_000).unwrap();
    let state = login::finish_take(&mut data, "alice", 31_000).unwrap();
    assert_eq!(state, b"ls".to_vec());
    let key = login::finish_commit(&mut data, "alice", Some(vec![5, 6, 7]), 31_000).unwrap();
    assert_eq!(key, vec![5, 6, 7]);
    assert_eq!(data.get_login_session("alice", 31_000), Some(vec![5, 6, 7]));
    // the login state was consumed and replaced by the session record
    // in the shared keyspace, so a fresh login start is throttled for
    // the length of the session window
    assert!(matches!(
        login::start_lookup(&data, "alice", 35_000),
        Err(AuthError::Throttled)
    ));
    assert!(login::start_lookup(&data, "alice", 37_000).is_ok());
}

#[test]
fn login_start_lookup_distinguishes_credential_sources_internally() {
    let mut data = AuthenticationData::new();
    // unknown username: the caller is told to use the dummy credential
    assert!(matches!(
        login::start_lookup(&data, "ghost", 1_000),
        Ok(CredentialSource::Unregistered)
    ));
    // a stored credential file comes back decoded
    registration::start(&mut data, "alice", MAIL, REQUEST, Some(pair(b"s", b"m")), 1_000)
        .unwrap();
    registration::finish_take(&mut data, "alice", MAIL, REQUEST, 2_000).unwrap();
    let token = authentication_backend::mint_verification_token();
    registration::finish_commit(&mut data, "alice", MAIL, Some(vec![10, 20, 30]), &token)
        .unwrap();
    // the credential is kept base64-encoded inside the record
    let (p, _) = data.get_profile("alice").unwrap();
    assert_eq!(p.password_file, "ChQe");
    match login::start_lookup(&data, "alice", 30_000) {
        Ok(CredentialSource::Registered { password_file, version }) => {
            assert_eq!(password_file, vec![10, 20, 30]);
            assert_eq!(version, 0);
        },
        other => panic!("unexpected lookup outcome: {:?}", other.is_ok()),
    }
}

#[test]
fn corrupt_stored_credential_yields_decode_failure() {
    let mut data = AuthenticationData::new();
    let record = UserProfile {
        username: "alice".to_string(),
        mail: MAIL.to_string(),
        password_file: "!!!not-base64!!!".to_string(),
        email_verification: "t".to_string(),
    };
    data.save_profile("alice", &record, 0, false, true);
    assert!(matches!(
        login::start_lookup(&data, "alice", 1_000),
        Err(AuthError::DecodeFailure)
    ));
}

#[test]
fn confirmation_flips_once_and_only_once() {
    let mut data = AuthenticationData::new();
    registration::start(&mut data, "alice", MAIL, REQUEST, Some(pair(b"s", b"m")), 1_000)
        .unwrap();
    registration::finish_take(&mut data, "alice", MAIL, REQUEST, 2_000).unwrap();
    let token = authentication_backend::mint_verification_token();
    registration::finish_commit(&mut data, "alice", MAIL, Some(vec![1]), &token).unwrap();

    // a wrong token of the right shape leaves the record pending
    let wrong = authentication_backend::mint_verification_token();
    assert_eq!(
        confirm::confirm_mail(&mut data, "alice", &wrong),
        Err(AuthError::TokenMismatch)
    );
    let (_, m) = data.get_profile("alice").unwrap();
    assert!(!m.e);

    // a token that is not URL-safe base64 never reaches the record
    assert_eq!(
        confirm::confirm_mail(&mut data, "alice", "?not/valid+"),
        Err(AuthError::ValidationError)
    );

    // the minted token confirms; the record keeps its other fields
    assert_eq!(confirm::confirm_mail(&mut data, "alice", &token), Ok(()));
    let (p, m) = data.get_profile("alice").unwrap();
    assert!(m.e);
    assert!(!m.l);
    assert_eq!(p.email_verification, token);
    assert_eq!(p.mail, MAIL);

    // confirming again is refused softly and mutates nothing
    assert_eq!(
        confirm::confirm_mail(&mut data, "alice", &token),
        Err(AuthError::AlreadyVerified)
    );
    let (p2, m2) = data.get_profile("alice").unwrap();
    assert!(m2.e);
    assert_eq!(p2.email_verification, token);

    // an unknown username gets the very refusal a wrong token gets,
    // so confirmation leaks no existence bit
    assert_eq!(
        confirm::confirm_mail(&mut data, "ghost", &token),
        Err(AuthError::TokenMismatch)
    );

    // a locked account cannot be confirmed
    let (p3, _) = data.get_profile("alice").unwrap();
    data.save_profile("alice", &p3, 0, true, false);
    assert_eq!(
        confirm::confirm_mail(&mut data, "alice", &token),
        Err(AuthError::AccountLocked)
    );
}

#[test]
fn error_statuses_follow_the_taxonomy() {
    assert_eq!(AuthError::ValidationError.status(), 400);
    assert_eq!(AuthError::Conflict.status(), 400);
    assert_eq!(AuthError::Throttled.status(), 400);
    assert_eq!(AuthError::NoState.status(), 400);
    assert_eq!(AuthError::UnknownAccount.status(), 400);
    assert_eq!(AuthError::EmailUnverified.status(), 403);
    assert_eq!(AuthError::AccountLocked.status(), 401);
    assert_eq!(AuthError::TokenMismatch.status(), 400);
    assert_eq!(AuthError::AlreadyVerified.status(), 200);
    assert_eq!(AuthError::EngineFailure.status(), 400);
    assert_eq!(AuthError::IoFailure.status(), 500);
    assert_eq!(AuthError::DecodeFailure.status(), 500);
    assert_eq!(AuthError::Throttled.message(), "Too many retries");
}
