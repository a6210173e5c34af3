//! What the kiosk shows and plays when a badge is tapped.
use vstd::prelude::*;
use crate::manager::Error;
use crate::relative_time::{get_relative_time, relative_time};
use crate::text::{equal, push_str};

verus! {

/// The notes of the buzzer: C4 (261.63 Hz), C5 (523.25 Hz), C6 (1046.50 Hz),
/// or silence.
#[derive(Clone, Copy, Debug, PartialEq, Eq)]
pub enum Note {
    C4,
    C5,
    C6,
    Rest,
}

/// How a display flashes: once for a time, or on and off for the given
/// times; on the success display or the error display.
#[derive(Debug, PartialEq, Eq)]
pub enum Flash {
    Once { success: bool, millis: u64 },
    Pattern { success: bool, durations: Vec<u64> },
}

/// The kiosk's answer to a tap: a flash, notes with their lengths in
/// milliseconds, a text to scroll, and a line for the log.
#[derive(Debug)]
pub struct CardFeedback {
    pub flash: Flash,
    pub tones: Vec<(Note, u64)>,
    pub text: Option<String>,
    pub log: Option<String>,
}

/// What checking a badge in came to.
#[derive(Debug)]
pub enum CheckInOutcome {
    /// Checked in; the user's name.
    CheckedIn { name: String },
    /// Not checked in again; when the user last checked in, if known (RFC 3339).
    AlreadyCheckedIn { last_checkin: Option<String> },
    /// The check-in service failed or refused.
    Failed(Error),
}

pub open spec fn text_view(t: Option<String>) -> Option<Seq<char>> {
    match t {
        Some(s) => Some(s@),
        None => None,
    }
}

/// The short refusal: a double flash of the error display and one low note.
pub open spec fn is_retry_signal(f: CardFeedback) -> bool {
    &&& f.flash matches Flash::Pattern { success, durations } && !success && durations@ == seq![200u64, 100, 200, 0]
    &&& f.tones@ == seq![(Note::C4, 500u64)]
}

/// The failure signal: the error display for half a second and two low notes.
pub open spec fn is_failure_signal(f: CardFeedback) -> bool {
    &&& f.flash == Flash::Once { success: false, millis: 500 }
    &&& f.tones@ == seq![(Note::C4, 500u64), (Note::Rest, 200u64), (Note::C4, 500u64)]
    &&& f.log is None
}

fn retry_signal(text: &str) -> (res: CardFeedback)
    ensures
        is_retry_signal(res),
        res.log is None,
        text_view(res.text) == Some(text@),
{
    let mut durations: Vec<u64> = Vec::new();
    durations.push(200);
    durations.push(100);
    durations.push(200);
    durations.push(0);
    let mut tones: Vec<(Note, u64)> = Vec::new();
    tones.push((Note::C4, 500));
    assert(durations@ == seq![200u64, 100, 200, 0]);
    assert(tones@ == seq![(Note::C4, 500u64)]);
    CardFeedback {
        flash: Flash::Pattern { success: false, durations },
        tones,
        text: Some(text.to_owned()),
        log: None,
    }
}

fn failure_signal(text: String) -> (res: CardFeedback)
    ensures
        is_failure_signal(res),
        text_view(res.text) == Some(text@),
{
    let mut tones: Vec<(Note, u64)> = Vec::new();
    tones.push((Note::C4, 500));
    tones.push((Note::Rest, 200));
    tones.push((Note::C4, 500));
    assert(tones@ == seq![(Note::C4, 500u64), (Note::Rest, 200u64), (Note::C4, 500u64)]);
    CardFeedback { flash: Flash::Once { success: false, millis: 500 }, tones, text: Some(text), log: None }
}

/// The answer to a tap before anything is checked in: a badge that could not
/// be read (`badge_error` describes why) asks to try again and logs the
/// error; a read badge with no tag defined says so; otherwise `None`, and the
/// badge is checked in next.
pub fn badge_feedback(badge_error: Option<&str>, tag_defined: bool) -> (res: Option<CardFeedback>)
    ensures
        match badge_error {
            Some(err) => res matches Some(f) && is_retry_signal(f) && text_view(f.text) == Some("Try again"@)
                && text_view(f.log) == Some("Error getting user ID: "@ + err@),
            None => if !tag_defined {
                res matches Some(f) && is_retry_signal(f) && f.log is None
                    && text_view(f.text) == Some("No check-in tag defined by manager"@)
            } else {
                res is None
            },
        },
{
    match badge_error {
        Some(err) => {
            let mut f = retry_signal("Try again");
            let mut log = "Error getting user ID: ".to_owned();
            push_str(&mut log, err);
            f.log = Some(log);
            Some(f)
        },
        None => if !tag_defined {
            Some(retry_signal("No check-in tag defined by manager"))
        } else {
            None
        },
    }
}

/// The answer to a check-in, at the instant `now` (Unix seconds and
/// nanoseconds): a success flashes the success display, plays a high note and
/// logs the name; a repeat check-in says how long ago the last one was (or
/// just that it happened); a refused badge says its ID is invalid; any other
/// failure is an API error.
pub fn check_in_feedback(outcome: CheckInOutcome, now_seconds: i64, now_nanos: u32) -> (res: CardFeedback)
    ensures
        match outcome {
            CheckInOutcome::CheckedIn { name } => {
                &&& res.flash == Flash::Once { success: true, millis: 500 }
                &&& res.tones@ == seq![(Note::C6, 100u64)]
                &&& res.text is None
                &&& text_view(res.log) == Some("Checked in "@ + name@)
            },
            CheckInOutcome::AlreadyCheckedIn { last_checkin } => {
                &&& is_failure_signal(res)
                &&& text_view(res.text) == Some(match last_checkin {
                    Some(t) => relative_time(t@, (now_seconds, now_nanos)),
                    None => "Already checked in"@,
                })
            },
            CheckInOutcome::Failed(e) => {
                &&& is_failure_signal(res)
                &&& text_view(res.text) == Some(if e matches Error::Message(m) && m@ == "Invalid user ID on badge"@ {
                    "Invalid user ID on badge"@
                } else {
                    "API error"@
                })
            },
        },
{
    match outcome {
        CheckInOutcome::CheckedIn { name } => {
            let mut log = "Checked in ".to_owned();
            push_str(&mut log, name.as_str());
            let mut tones: Vec<(Note, u64)> = Vec::new();
            tones.push((Note::C6, 100));
            assert(tones@ == seq![(Note::C6, 100u64)]);
            CardFeedback { flash: Flash::Once { success: true, millis: 500 }, tones, text: None, log: Some(log) }
        },
        CheckInOutcome::AlreadyCheckedIn { last_checkin } => {
            let text = match last_checkin {
                Some(t) => get_relative_time(t.as_str(), now_seconds, now_nanos),
                None => "Already checked in".to_owned(),
            };
            failure_signal(text)
        },
        CheckInOutcome::Failed(e) => {
            let refused_badge = match &e {
                Error::Message(m) => equal(m.as_str(), "Invalid user ID on badge"),
                Error::Network(_) => false,
            };
            if refused_badge {
                failure_signal("Invalid user ID on badge".to_owned())
            } else {
                failure_signal("API error".to_owned())
            }
        },
    }
}

} // verus!
