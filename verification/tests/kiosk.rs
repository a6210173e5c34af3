use checkin_embedded::kiosk::{badge_feedback, check_in_feedback, CheckInOutcome, Flash, Note};
use checkin_embedded::manager::Error;

#[test]
fn unreadable_badge_asks_to_try_again() {
    let f = badge_feedback(Some("NoSmartcard"), true).unwrap();
    assert_eq!(f.text.as_deref(), Some("Try again"));
    assert_eq!(f.log.as_deref(), Some("Error getting user ID: NoSmartcard"));
    assert_eq!(f.flash, Flash::Pattern { success: false, durations: vec![200, 100, 200, 0] });
    assert_eq!(f.tones, vec![(Note::C4, 500)]);
    let f = badge_feedback(None, false).unwrap();
    assert_eq!(f.text.as_deref(), Some("No check-in tag defined by manager"));
    assert!(f.log.is_none());
    assert!(badge_feedback(None, true).is_none());
}

#[test]
fn check_in_answers() {
    let f = check_in_feedback(CheckInOutcome::CheckedIn { name: "Ada".to_string() }, 0, 0);
    assert_eq!(f.flash, Flash::Once { success: true, millis: 500 });
    assert_eq!(f.tones, vec![(Note::C6, 100)]);
    assert_eq!(f.log.as_deref(), Some("Checked in Ada"));
    assert!(f.text.is_none());

    let f = check_in_feedback(
        CheckInOutcome::AlreadyCheckedIn { last_checkin: Some("2019-10-19T00:00:00Z".to_string()) },
        1571443200 + 2 * 86400,
        0,
    );
    assert_eq!(f.text.as_deref(), Some("2 days ago"));
    assert_eq!(f.flash, Flash::Once { success: false, millis: 500 });
    assert_eq!(f.tones, vec![(Note::C4, 500), (Note::Rest, 200), (Note::C4, 500)]);

    let f = check_in_feedback(CheckInOutcome::AlreadyCheckedIn { last_checkin: None }, 0, 0);
    assert_eq!(f.text.as_deref(), Some("Already checked in"));
    let f = check_in_feedback(CheckInOutcome::Failed(Error::Message("Invalid user ID on badge".to_string())), 0, 0);
    assert_eq!(f.text.as_deref(), Some("Invalid user ID on badge"));
    let f = check_in_feedback(CheckInOutcome::Failed(Error::Network("timeout".to_string())), 0, 0);
    assert_eq!(f.text.as_deref(), Some("API error"));
}
