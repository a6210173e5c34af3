use checkin_embedded::reader::{card_event, contains, should_watch};
use checkin_embedded::checkin::{checkin_mutation, checkin_name_pointer, checkin_outcome, cookie_header, login_token};
use checkin_embedded::manager::Error;
use checkin_embedded::relative_time::{get_relative_time, phrase_text};
use checkin_embedded::text::split;

#[test]
fn session_token_from_cookies() {
    let cookies = vec![
        "other=1; Path=/".to_string(),
        "auth=0123abcdef; Path=/; HttpOnly".to_string(),
    ];
    assert_eq!(login_token(true, &cookies).unwrap(), "0123abcdef");
    let later = vec!["auth=aa;".to_string(), "auth=bb;".to_string(), "auth=XY;".to_string()];
    assert_eq!(login_token(true, &later).unwrap(), "bb");
    assert_eq!(
        login_token(true, &vec!["auth=abc".to_string(), " auth=abc;".to_string(), "auth=;".to_string()]),
        Err(Error::Message("No auth token set by server".to_string()))
    );
    assert_eq!(
        login_token(false, &cookies),
        Err(Error::Message("Invalid username or password".to_string()))
    );
    assert_eq!(cookie_header("abc"), "auth=abc");
}

#[test]
fn checkin_request_text() {
    assert_eq!(
        checkin_mutation(true),
        "mutation($user: ID!, $tag: String!) {\n\t\t\t\tcheck_in(user: $user, tag: $tag) {\n\t\t\t\t\tuser {\n\t\t\t\t\t\tname\n\t\t\t\t\t}\n\t\t\t\t}\n\t\t\t}\n\t\t"
    );
    assert!(checkin_mutation(false).contains("check_out(user"));
    assert_eq!(checkin_name_pointer(true), "/data/check_in/user/name");
    assert_eq!(checkin_name_pointer(false), "/data/check_out/user/name");
}

#[test]
fn checkin_outcomes() {
    assert_eq!(checkin_outcome(Some(Some("Ada".to_string()))), Ok("Ada".to_string()));
    assert_eq!(checkin_outcome(None), Err(Error::Message("Invalid JSON response".to_string())));
    assert_eq!(
        checkin_outcome(Some(None)),
        Err(Error::Message("Check in failed. Non-existent user ID? Not logged in?".to_string()))
    );
}

#[test]
fn relative_time_phrases() {
    assert_eq!(phrase_text(1), "1 second ago");
    assert_eq!(phrase_text(0), "0 seconds ago");
    assert_eq!(phrase_text(-3), "-3 seconds ago");
    assert_eq!(phrase_text(59), "59 seconds ago");
    assert_eq!(phrase_text(60), "1 minute ago");
    assert_eq!(phrase_text(7199), "1 hour ago");
    assert_eq!(phrase_text(2 * 86400), "2 days ago");
    assert_eq!(phrase_text(15 * 86400), "2 weeks ago");
}

#[test]
fn relative_time_from_rfc3339() {
    // 2019-10-19T00:00:00Z is 1571443200.
    assert_eq!(get_relative_time("2019-10-19T00:00:00Z", 1571443200 + 90, 0), "1 minute ago");
    assert_eq!(get_relative_time("2019-10-19T02:00:00+02:00", 1571443200 + 3 * 3600, 0), "3 hours ago");
    assert_eq!(get_relative_time("2019-10-19T00:00:00.5Z", 1571443201, 0), "0 seconds ago");
    assert_eq!(get_relative_time("yesterday", 0, 0), "invalid time ago");
}

#[test]
fn split_keeps_empty_pieces() {
    assert_eq!(split("a b", ' '), vec!["a", "b"]);
    assert_eq!(split(" a  b ", ' '), vec!["", "a", "", "b", ""]);
    assert_eq!(split("", '/'), vec![""]);
}

#[test]
fn readers_to_watch() {
    let watched = vec!["ACS ACR122U 00 00".to_string()];
    assert!(!should_watch(&watched, "ACS ACR122U 00 00"));
    assert!(should_watch(&watched, "ACS ACR122U 01 00"));
    assert!(!should_watch(&watched, "Microsoft Windows Hello 0"));
    assert!(contains("abc", ""));
    assert!(contains("abcabd", "abd"));
    assert!(!contains("ab", "abc"));
}

#[test]
fn card_left_on_reader_taps_once() {
    assert_eq!(card_event(None, true, false), (true, Some(true)));
    assert_eq!(card_event(Some(true), true, false), (false, Some(true)));
    assert_eq!(card_event(Some(true), false, true), (false, Some(false)));
    assert_eq!(card_event(Some(false), true, false), (true, Some(true)));
    assert_eq!(card_event(Some(true), false, false), (false, Some(true)));
}

#[test]
fn relative_time_from_instants() {
    use_relative_time_since();
}

fn use_relative_time_since() {
    assert_eq!(checkin_embedded::relative_time::relative_time_since(None, 5, 0), "invalid time ago");
    assert_eq!(
        checkin_embedded::relative_time::relative_time_since(Some((100, 900_000_000)), 101, 800_000_000),
        "0 seconds ago"
    );
    assert_eq!(
        checkin_embedded::relative_time::relative_time_since(Some((0, 0)), 7 * 86400, 0),
        "1 week ago"
    );
    assert_eq!(
        checkin_embedded::relative_time::relative_time_since(Some((10, 0)), 0, 0),
        "-10 seconds ago"
    );
}

#[test]
fn checkin_answer_from_reply_text() {
    use_answer(true, r#"{"data":{"check_in":{"user":{"name":"Ada"}}}}"#, Some(Ok("Ada".to_string())));
    use_answer(false, r#"{"data":{"check_out":{"user":{"name":"Bo"}}}}"#, Some(Ok("Bo".to_string())));
    use_answer(
        true,
        r#"{"data":{"check_out":{"user":{"name":"Bo"}}}}"#,
        Some(Err(Error::Message("Check in failed. Non-existent user ID? Not logged in?".to_string()))),
    );
    use_answer(true, "not json", Some(Err(Error::Message("Invalid JSON response".to_string()))));
    use_answer(true, r#"{"data":{"check_in":{"user":{"name":7}}}}"#, None);
}

fn use_answer(check_in: bool, text: &str, expected: Option<Result<String, Error>>) {
    assert_eq!(checkin_embedded::checkin::checkin_answer(check_in, text), expected);
}
