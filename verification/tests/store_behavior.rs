use authentication_backend::profile::UserProfile;
use authentication_backend::store::AuthenticationData;

fn profile(username: &str, mail: &str) -> UserProfile {
    UserProfile {
        username: username.to_string(),
        mail: mail.to_string(),
        password_file: "AAEC".to_string(),
        email_verification: "token".to_string(),
    }
}

#[test]
fn state_is_readable_until_the_ttl_elapses() {
    let mut data = AuthenticationData::new();
    data.set_registration_state("alice", vec![1, 2, 3], 1_000);
    assert_eq!(data.get_registration_state("alice", 1_000), Some(vec![1, 2, 3]));
    assert_eq!(data.get_registration_state("alice", 60_999), Some(vec![1, 2, 3]));
    // the 60-second absolute expiry makes the entry unreadable
    assert_eq!(data.get_registration_state("alice", 61_000), None);
    assert_eq!(data.get_registration_state("alice", 100_000), None);
}

#[test]
fn state_write_replaces_prior_entry_and_resets_the_stamp() {
    let mut data = AuthenticationData::new();
    data.set_registration_state("alice", vec![1], 1_000);
    data.set_registration_state("alice", vec![2], 20_000);
    assert_eq!(data.get_registration_state("alice", 20_000), Some(vec![2]));
    // the replacement re-armed the expiry from the second write
    assert_eq!(data.get_registration_state("alice", 70_000), Some(vec![2]));
    assert_eq!(data.get_registration_state("alice", 80_000), None);
}

#[test]
fn throttle_windows_follow_the_creation_stamp() {
    let mut data = AuthenticationData::new();
    assert!(!data.too_many_registration_attempts("alice", 1_000));
    data.set_registration_state("alice", vec![1], 1_000);
    assert!(data.too_many_registration_attempts("alice", 15_999));
    assert!(!data.too_many_registration_attempts("alice", 16_000));
    data.set_login_state("alice", vec![2], 1_000);
    assert!(data.too_many_login_attempts("alice", 5_999));
    assert!(!data.too_many_login_attempts("alice", 6_000));
}

#[test]
fn registration_and_login_states_do_not_collide() {
    let mut data = AuthenticationData::new();
    data.set_registration_state("alice", vec![1], 1_000);
    data.set_login_state("alice", vec![2], 1_000);
    assert_eq!(data.get_registration_state("alice", 2_000), Some(vec![1]));
    assert_eq!(data.get_login_state("alice", 2_000), Some(vec![2]));
    data.remove_registration_state("alice");
    assert_eq!(data.get_registration_state("alice", 2_000), None);
    assert_eq!(data.get_login_state("alice", 2_000), Some(vec![2]));
}

#[test]
fn session_records_share_the_login_keyspace() {
    let mut data = AuthenticationData::new();
    data.set_login_state("alice", vec![9], 1_000);
    // the session write lands on the same key and replaces the state
    data.set_login_session("alice", &vec![7, 7], 2_000);
    assert_eq!(data.get_login_state("alice", 2_500), Some(vec![7, 7]));
    assert_eq!(data.get_login_session("alice", 2_500), Some(vec![7, 7]));
    // session records carry no expiry
    assert_eq!(data.get_login_session("alice", 1_000_000), Some(vec![7, 7]));
    // and the session throttle re-reads the very stamp the write reset
    assert!(data.too_many_login_sessions_attempts("alice", 6_999));
    assert!(!data.too_many_login_sessions_attempts("alice", 7_000));
    data.remove_login_session("alice");
    assert_eq!(data.get_login_session("alice", 2_500), None);
}

#[test]
fn profiles_phase_queries() {
    let mut data = AuthenticationData::new();
    assert!(!data.username_already_registered("alice"));
    assert!(!data.username_already_registered_waiting_mail_confirm("alice"));

    data.save_profile("alice", &profile("alice", "alice@example.com"), 0, false, false);
    assert!(!data.username_already_registered("alice"));
    assert!(data.username_already_registered_waiting_mail_confirm("alice"));

    data.save_profile("alice", &profile("alice", "alice@example.com"), 0, false, true);
    assert!(data.username_already_registered("alice"));
    assert!(!data.username_already_registered_waiting_mail_confirm("alice"));

    data.save_profile("alice", &profile("alice", "alice@example.com"), 0, true, false);
    assert!(data.username_already_registered("alice"));
    assert!(!data.username_already_registered_waiting_mail_confirm("alice"));

    let (p, m) = data.get_profile("alice").unwrap();
    assert_eq!(p.username, "alice");
    assert_eq!(p.mail, "alice@example.com");
    assert_eq!(m.v, 0);
    assert!(m.l);
    assert!(!m.e);
    assert!(data.get_profile("bob").is_none());
}
