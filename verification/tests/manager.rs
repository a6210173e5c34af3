use checkin_embedded::legacy;
use checkin_embedded::manager::{
    poll_tag, should_recreate_credentials, startup_step, update_tag, CredentialResponse, Error, ManagedStatus,
    StartupFailure, StartupStep, TagNotice,
};

fn scroll(n: TagNotice) -> (String, u64) {
    match n {
        TagNotice::Scroll { text, millis_per_column } => (text, millis_per_column),
        other => panic!("expected a scroll, got {:?}", other),
    }
}

#[test]
fn status_names_roundtrip() {
    for s in [
        ManagedStatus::Pending,
        ManagedStatus::Unauthorized,
        ManagedStatus::AuthorizedHasCredentials,
        ManagedStatus::AuthorizedNoCredentials,
    ] {
        assert_eq!(ManagedStatus::from_name(s.as_str()), Some(s));
    }
    assert_eq!(ManagedStatus::AuthorizedNoCredentials.as_str(), "AuthorizedNoCredentials");
    assert_eq!(ManagedStatus::from_name("pending"), None);
    assert_eq!(legacy::ManagedStatus::from_name("Authorized"), Some(legacy::ManagedStatus::Authorized));
    assert_eq!(legacy::ManagedStatus::Authorized.as_str(), "Authorized");
    assert_eq!(legacy::initialize(), legacy::ManagedStatus::Pending);
}

#[test]
fn credential_reply_without_success_fails() {
    let r = CredentialResponse::from_reply(None, Some("Unknown device".to_string()), None);
    assert!(!r.success);
    assert_eq!(r.error.as_deref(), Some("Unknown device"));
    assert!(CredentialResponse::from_reply(Some(true), None, None).success);
    assert!(!CredentialResponse::from_reply(Some(false), None, Some("x".to_string())).success);
}

#[test]
fn update_tag_messages() {
    let mut current = None;
    let (t, m) = scroll(update_tag(&mut current, Ok(Some("hack".to_string()))));
    assert_eq!((t.as_str(), m), ("Using new tag: hack", 5));
    assert_eq!(current.as_deref(), Some("hack"));
    let (t, _) = scroll(update_tag(&mut current, Ok(Some("hack".to_string()))));
    assert_eq!(t, "Tag: hack");
    let (t, m) = scroll(update_tag(&mut current, Ok(None)));
    assert_eq!((t.as_str(), m), ("No tag defined by manager", 15));
    assert_eq!(current, None);
    current = Some("a".to_string());
    assert!(matches!(update_tag(&mut current, Err(Error::Network("down".to_string()))), TagNotice::Failed(_)));
    assert_eq!(current.as_deref(), Some("a"));
}

#[test]
fn poll_tag_announces_only_changes() {
    let mut current = None;
    let (t, m) = scroll(poll_tag(&mut current, Ok(Some("lunch".to_string()))));
    assert_eq!((t.as_str(), m), ("Using tag: lunch", 5));
    assert!(matches!(poll_tag(&mut current, Ok(Some("lunch".to_string()))), TagNotice::Quiet));
    let (t, _) = scroll(poll_tag(&mut current, Ok(Some("dinner".to_string()))));
    assert_eq!(t, "Using tag: dinner");
    let (t, m) = scroll(poll_tag(&mut current, Ok(None)));
    assert_eq!((t.as_str(), m), ("No tag defined by manager", 15));
    assert!(matches!(poll_tag(&mut current, Ok(None)), TagNotice::Quiet));
    assert_eq!(current, None);
}

#[test]
fn startup_follows_status() {
    assert_eq!(startup_step(&Ok(ManagedStatus::AuthorizedHasCredentials)), StartupStep::LogIn);
    assert_eq!(startup_step(&Ok(ManagedStatus::AuthorizedNoCredentials)), StartupStep::CreateCredentials);
    assert_eq!(startup_step(&Ok(ManagedStatus::Unauthorized)), StartupStep::Stop(StartupFailure::Denied));
    assert_eq!(startup_step(&Ok(ManagedStatus::Pending)), StartupStep::Stop(StartupFailure::NotApproved));
    assert_eq!(
        startup_step(&Err(Error::Network("x".to_string()))),
        StartupStep::Stop(StartupFailure::ManagerUnreachable)
    );
    assert_eq!(StartupFailure::Denied.display_text(), "Denied access in manager UI");
    assert_eq!(StartupFailure::NotApproved.display_text(), "Must approve device in manager UI before use");
}

#[test]
fn recreate_only_after_refused_login() {
    assert!(should_recreate_credentials(&Error::Message("Invalid username or password".to_string())));
    assert!(!should_recreate_credentials(&Error::Message("No auth token set by server".to_string())));
    assert!(!should_recreate_credentials(&Error::Network("Invalid username or password".to_string())));
}
