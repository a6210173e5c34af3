use checkin_embedded::admin::{process_login, session_token_missing, session_user, AuthenticatedUserError, LoginInfo, LoginOutcome};
use checkin_embedded::manager::{Error, ManagedStatus};
use checkin_embedded::server::{
    authorize_device, create_credentials, create_credentials_outcome, delete_device, delete_device_outcome,
    force_renew_device, force_renew_outcome, get_tag, initialize, reject_device, rename_device, set_tag,
    tag_choices, DeletePlan, Device, DeviceRenameAction, DeviceTagAction, DeviceWrite, InitializeRequest, Reply,
    User, IP,
};

fn device() -> Device {
    Device {
        public_key: "ab".to_string(),
        friendly_name: "kiosk".to_string(),
        username: "0123456789abcdef0123".to_string(),
        ip_address: "10.0.0.1".to_string(),
        authorized: false,
        status_set_by: None,
        pending: true,
        credentials_created: false,
        current_tag: None,
    }
}

fn admin() -> User {
    User { username: "admin".to_string(), auth_token: "t".to_string() }
}

fn is_success(r: &Reply) -> bool {
    r.success == Some(true) && r.error.is_none() && r.details.is_none() && r.status.is_none()
}

#[test]
fn ip_defaults_to_unknown() {
    assert_eq!(IP::from_client_ip(None).as_str(), "Unknown IP");
    assert_eq!(IP::from_client_ip(Some("1.2.3.4".to_string())).as_str(), "1.2.3.4");
}

#[test]
fn new_device_is_pending() {
    let req = InitializeRequest { username: "0123456789abcdef0123".to_string() };
    let e = initialize(None, "ab", &req, &IP::from_client_ip(Some("1.1.1.1".to_string())));
    assert_eq!(e.reply.status, Some(ManagedStatus::Pending));
    match e.write {
        Some(DeviceWrite::Insert(d)) => {
            assert_eq!(d.friendly_name, "0123456789abcdef");
            assert_eq!(d.public_key, "ab");
            assert_eq!(d.ip_address, "1.1.1.1");
            assert!(d.pending && !d.authorized && !d.credentials_created);
        },
        other => panic!("{:?}", other),
    }
}

#[test]
fn known_device_reports_status_and_address() {
    let mut d = device();
    d.pending = false;
    d.authorized = true;
    d.credentials_created = true;
    let req = InitializeRequest { username: d.username.clone() };
    let e = initialize(Some(&d), "ab", &req, &IP::from_client_ip(None));
    assert_eq!(e.reply.status, Some(ManagedStatus::AuthorizedHasCredentials));
    assert!(matches!(e.write, Some(DeviceWrite::SetIpAddress(ref ip)) if ip == "Unknown IP"));
    d.credentials_created = false;
    assert_eq!(d.status(), ManagedStatus::AuthorizedNoCredentials);
    d.authorized = false;
    assert_eq!(d.status(), ManagedStatus::Unauthorized);
}

#[test]
fn credentials_only_for_authorized_devices() {
    assert_eq!(create_credentials(None).unwrap().error.as_deref(), Some("Unknown device"));
    let mut d = device();
    assert_eq!(create_credentials(Some(&d)).unwrap().error.as_deref(), Some("Unauthorized or pending device"));
    d.pending = false;
    d.authorized = true;
    assert!(create_credentials(Some(&d)).is_none());
    let ok = create_credentials_outcome(Ok(()));
    assert!(is_success(&ok.reply));
    assert!(matches!(ok.write, Some(DeviceWrite::SetCredentialsCreated(true))));
    let failed = create_credentials_outcome(Err("Network(boom)".to_string()));
    assert!(failed.write.is_none());
    assert_eq!(failed.reply.success, None);
    assert_eq!(failed.reply.error.as_deref(), Some("Failed to create user with credentials"));
    assert_eq!(failed.reply.details.as_deref(), Some("Network(boom)"));
}

#[test]
fn authorize_and_reject_record_the_admin() {
    let d = device();
    let e = authorize_device(&admin(), Some(&d));
    assert!(is_success(&e.reply));
    assert!(matches!(e.write, Some(DeviceWrite::SetAuthorization { authorized: true, ref set_by }) if set_by == "admin"));
    let e = reject_device(&admin(), Some(&d));
    assert!(matches!(e.write, Some(DeviceWrite::SetAuthorization { authorized: false, .. })));
    let e = authorize_device(&admin(), None);
    assert!(e.write.is_none());
    assert_eq!(e.reply.success, Some(false));
    assert_eq!(e.reply.error.as_deref(), Some("Device not found"));
}

#[test]
fn renew_and_delete() {
    let mut d = device();
    assert!(force_renew_device(Some(&d)).is_none());
    assert_eq!(force_renew_device(None).unwrap().reply.error.as_deref(), Some("Device not found"));
    let ok = force_renew_outcome(Ok(()));
    assert!(matches!(ok.write, Some(DeviceWrite::SetCredentialsCreated(false))));
    let bad = force_renew_outcome(Err("e".to_string()));
    assert_eq!(bad.reply.error.as_deref(), Some("Failed to delete user account"));
    assert_eq!(bad.reply.success, Some(false));

    match delete_device(Some(&d)) {
        DeletePlan::Done(e) => assert!(matches!(e.write, Some(DeviceWrite::Delete)) && is_success(&e.reply)),
        other => panic!("{:?}", other),
    }
    d.credentials_created = true;
    assert!(matches!(delete_device(Some(&d)), DeletePlan::RemoveAccountFirst));
    let bad = delete_device_outcome(Err("e".to_string()));
    assert!(bad.write.is_none());
    assert_eq!(bad.reply.error.as_deref(), Some("Failed to delete device's checkin2 account"));
    assert!(matches!(delete_device_outcome(Ok(())).write, Some(DeviceWrite::Delete)));
}

#[test]
fn tag_and_name_changes() {
    let d = device();
    let e = set_tag(&DeviceTagAction { username: "u".to_string(), tag: "dinner".to_string() }, Some(&d));
    assert!(matches!(e.write, Some(DeviceWrite::SetCurrentTag(ref t)) if t == "dinner"));
    let e = rename_device(&DeviceRenameAction { username: "u".to_string(), name: "Front desk".to_string() }, Some(&d));
    assert!(matches!(e.write, Some(DeviceWrite::SetFriendlyName(ref t)) if t == "Front desk"));
    let e = rename_device(&DeviceRenameAction { username: "u".to_string(), name: "x".to_string() }, None);
    assert_eq!(e.reply.error.as_deref(), Some("Device not found"));
}

#[test]
fn tags_are_listed_in_order() {
    let tags = vec!["lunch".to_string(), "breakfast".to_string(), "dinner".to_string(), "Zoo".to_string(), "b".to_string()];
    let listing = get_tag(Some(tags), Some("lunch".to_string()));
    assert_eq!(listing.all, vec!["Zoo", "b", "breakfast", "dinner", "lunch"]);
    assert_eq!(listing.current.as_deref(), Some("lunch"));
    let listing = get_tag(None, None);
    assert!(listing.all.is_empty() && listing.current.is_none());
    let choices = tag_choices(&vec!["a".to_string(), "b".to_string()], &Some("b".to_string()));
    assert_eq!(choices.iter().map(|c| c.selected).collect::<Vec<_>>(), vec![false, true]);
    assert_eq!(choices[0].name, "a");
    assert!(tag_choices(&vec!["a".to_string()], &None).iter().all(|c| !c.selected));
}

#[test]
fn sign_in_sets_session_cookie() {
    let info = LoginInfo { username: "ada".to_string(), password: "pw".to_string() };
    match process_login(&info, Ok("deadbeef".to_string()), true) {
        LoginOutcome::SignedIn { user, cookie, redirect } => {
            assert_eq!(user.username, "ada");
            assert_eq!(user.auth_token, "deadbeef");
            assert_eq!((cookie.name.as_str(), cookie.value.as_str(), cookie.path.as_str()), ("auth", "deadbeef", "/"));
            assert!(cookie.secure && cookie.http_only);
            assert_eq!(redirect, "/");
        },
        other => panic!("{:?}", other),
    }
    match process_login(&info, Err(Error::Message("Invalid username or password".to_string())), false) {
        LoginOutcome::Refused { redirect } => assert_eq!(redirect, "/auth/login"),
        other => panic!("{:?}", other),
    }
}

#[test]
fn session_lookup_outcomes() {
    assert_eq!(session_token_missing().0, 401);
    assert!(matches!(session_token_missing().1, AuthenticatedUserError::Missing));
    assert!(session_user(Ok(Some(admin()))).is_ok());
    assert!(matches!(session_user(Ok(None)), Err((403, AuthenticatedUserError::Invalid))));
    assert!(matches!(session_user(Err("db".to_string())), Err((500, AuthenticatedUserError::DBError(_)))));
}
