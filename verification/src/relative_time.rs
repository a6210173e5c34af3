//! How long ago a check-in happened, in words.
use vstd::prelude::*;
use crate::text::push_str;

verus! {

/// The instant an RFC 3339 text names, as `chrono`'s
/// `DateTime::parse_from_rfc3339` reads it: seconds since the Unix epoch and
/// the nanoseconds past them; `None` when the text is not RFC 3339.
pub uninterp spec fn rfc3339_instant(text: Seq<char>) -> Option<(i64, u32)>;

/// `DateTime::parse_from_rfc3339`, read as the instant's Unix timestamp and
/// its nanoseconds.
#[verifier::external_body]
fn parse_rfc3339(text: &str) -> (res: Option<(i64, u32)>)
    ensures
        res == rfc3339_instant(text@),
{
    match chrono::DateTime::parse_from_rfc3339(text) {
        Ok(t) => Some((t.timestamp(), t.timestamp_subsec_nanos())),
        Err(_) => None,
    }
}

/// Division truncated toward zero, as integer division in Rust.
pub open spec fn tdiv(a: int, b: int) -> int {
    if a >= 0 {
        a / b
    } else {
        -((-a) / b)
    }
}

/// The decimal digits of a non-negative number.
pub open spec fn digits(n: nat) -> Seq<char>
    decreases n,
{
    if n < 10 {
        seq![(('0' as int) + n) as char]
    } else {
        digits(n / 10) + seq![(('0' as int) + n % 10) as char]
    }
}

/// A number as text in decimal, with a minus sign when negative.
pub open spec fn decimal(n: int) -> Seq<char> {
    if n < 0 {
        seq!['-'] + digits((-n) as nat)
    } else {
        digits(n as nat)
    }
}

/// "`n` `label`s ago", without the "s" when `n` is 1.
pub open spec fn ago(n: int, label: Seq<char>) -> Seq<char> {
    decimal(n) + seq![' '] + label + (if n == 1 { Seq::<char>::empty() } else { seq!['s'] }) + " ago"@
}

/// The phrase for an elapsed time given in whole seconds: in the largest
/// unit of which at least one whole has passed, else in seconds.
pub open spec fn phrase(seconds: int) -> Seq<char> {
    let days = tdiv(seconds, 86400);
    let weeks = tdiv(days, 7);
    let hours = tdiv(seconds, 3600);
    let minutes = tdiv(seconds, 60);
    if weeks > 0 {
        ago(weeks, "week"@)
    } else if days > 0 {
        ago(days, "day"@)
    } else if hours > 0 {
        ago(hours, "hour"@)
    } else if minutes > 0 {
        ago(minutes, "minute"@)
    } else {
        ago(seconds, "second"@)
    }
}

/// The phrase for an elapsed time is in the largest of weeks, days, hours
/// and minutes of which at least one whole has passed, counting whole units,
/// and in seconds below a minute (and for a time in the future).
pub proof fn lemma_phrase_units(s: int)
    ensures
        s >= 604800 ==> phrase(s) == ago(s / 604800, "week"@),
        86400 <= s < 604800 ==> phrase(s) == ago(s / 86400, "day"@),
        3600 <= s < 86400 ==> phrase(s) == ago(s / 3600, "hour"@),
        60 <= s < 3600 ==> phrase(s) == ago(s / 60, "minute"@),
        s < 60 ==> phrase(s) == ago(s, "second"@),
{
    if s >= 0 {
        vstd::arithmetic::div_mod::lemma_div_denominator(s, 86400, 7);
        assert(s / 86400 >= 0) by (nonlinear_arith) requires s >= 0;
    } else {
        assert((-s) / 86400 >= 0) by (nonlinear_arith) requires s < 0;
        assert((-s) / 3600 >= 0) by (nonlinear_arith) requires s < 0;
        assert((-s) / 60 >= 0) by (nonlinear_arith) requires s < 0;
        assert(-((-s) / 86400) <= 0);
        assert(tdiv(-((-s) / 86400), 7) <= 0) by {
            assert((((-s) / 86400)) / 7 >= 0) by (nonlinear_arith) requires (-s) / 86400 >= 0;
        }
    }
}

/// "1 `label` ago" for one unit; otherwise the number, the label with an "s",
/// and "ago".
pub proof fn lemma_ago_plural(n: int, label: Seq<char>)
    ensures
        n == 1 ==> ago(n, label) == "1 "@ + label + " ago"@,
        n != 1 ==> ago(n, label) == decimal(n) + " "@ + label + "s ago"@,
{
    reveal_strlit("1 ");
    reveal_strlit(" ");
    reveal_strlit(" ago");
    reveal_strlit("s ago");
    if n == 1 {
        assert(decimal(1) == seq!['1']);
        assert(ago(n, label) =~= "1 "@ + label + " ago"@);
    } else {
        assert(ago(n, label) =~= decimal(n) + " "@ + label + "s ago"@);
    }
}

/// From one whole day up to two, the phrase is "1 day ago".
pub proof fn lemma_phrase_one_day(s: int)
    requires
        86400 <= s < 172800,
    ensures
        phrase(s) == "1 day ago"@,
{
    lemma_phrase_units(s);
    assert(s / 86400 == 1);
    lemma_ago_plural(1, "day"@);
    reveal_strlit("1 ");
    reveal_strlit("day");
    reveal_strlit(" ago");
    reveal_strlit("1 day ago");
    assert("1 "@ + "day"@ + " ago"@ =~= "1 day ago"@);
}

/// The whole seconds from one instant to another, truncated toward zero.
pub open spec fn elapsed_seconds(from: (i64, u32), to: (i64, u32)) -> int {
    tdiv((to.0 - from.0) * 1_000_000_000 + (to.1 - from.1), 1_000_000_000)
}

/// The text for how long ago an RFC 3339 instant was, at the instant `now`
/// (Unix seconds and nanoseconds): "invalid time ago" when the text does not
/// parse.
pub open spec fn relative_time(iso_time: Seq<char>, now: (i64, u32)) -> Seq<char> {
    match rfc3339_instant(iso_time) {
        None => "invalid time ago"@,
        Some(t) => phrase(elapsed_seconds(t, now)),
    }
}

fn digits_text(n: u128) -> (res: String)
    ensures
        res@ == digits(n as nat),
    decreases n,
{
    if n < 10 {
        let mut s = String::new();
        s.push(digit_char(n));
        s
    } else {
        let mut s = digits_text(n / 10);
        s.push(digit_char(n % 10));
        s
    }
}

fn digit_char(d: u128) -> (res: char)
    requires
        d < 10,
    ensures
        res == (('0' as int) + d) as char,
{
    let b = (d as u8) + 48u8;
    b as char
}

fn decimal_text(n: i128) -> (res: String)
    ensures
        res@ == decimal(n as int),
{
    if n < 0 {
        let mut s = String::new();
        s.push('-');
        let magnitude: u128 = if n == i128::MIN { (i128::MAX as u128) + 1 } else { (-n) as u128 };
        let d = digits_text(magnitude);
        push_str(&mut s, d.as_str());
        s
    } else {
        digits_text(n as u128)
    }
}

fn ago_text(n: i128, label: &str) -> (res: String)
    ensures
        res@ == ago(n as int, label@),
{
    let mut s = decimal_text(n);
    s.push(' ');
    push_str(&mut s, label);
    if n != 1 {
        s.push('s');
    }
    push_str(&mut s, " ago");
    proof {
        let e = Seq::<char>::empty();
        if n == 1 {
            assert(decimal(n as int) + seq![' '] + label@ + e == decimal(n as int) + seq![' '] + label@);
        }
    }
    s
}

/// The phrase for an elapsed time in whole seconds.
pub fn phrase_text(seconds: i128) -> (res: String)
    ensures
        res@ == phrase(seconds as int),
{
    if seconds <= 0 {
        return ago_text(seconds, "second");
    }
    let days = seconds / 86400;
    let weeks = days / 7;
    let hours = seconds / 3600;
    let minutes = seconds / 60;
    if weeks > 0 {
        ago_text(weeks, "week")
    } else if days > 0 {
        ago_text(days, "day")
    } else if hours > 0 {
        ago_text(hours, "hour")
    } else if minutes > 0 {
        ago_text(minutes, "minute")
    } else {
        ago_text(seconds, "second")
    }
}

/// How long ago an instant (`None` when its text did not parse) was, at the
/// instant `now`, both as Unix seconds and nanoseconds past them.
pub fn relative_time_since(instant: Option<(i64, u32)>, now_seconds: i64, now_nanos: u32) -> (res: String)
    ensures
        res@ == match instant {
            None => "invalid time ago"@,
            Some(t) => phrase(elapsed_seconds(t, (now_seconds, now_nanos))),
        },
{
    match instant {
        None => "invalid time ago".to_owned(),
        Some((seconds, nanos)) => {
            let total: i128 = ((now_seconds as i128) - (seconds as i128)) * 1_000_000_000
                + ((now_nanos as i128) - (nanos as i128));
            let whole: i128 = if total >= 0 {
                total / 1_000_000_000
            } else {
                -((-total) / 1_000_000_000)
            };
            phrase_text(whole)
        },
    }
}

/// How long ago an RFC 3339 instant was, at the instant `now` given as Unix
/// seconds and nanoseconds past them.
pub fn get_relative_time(iso_time: &str, now_seconds: i64, now_nanos: u32) -> (res: String)
    ensures
        res@ == relative_time(iso_time@, (now_seconds, now_nanos)),
{
    relative_time_since(parse_rfc3339(iso_time), now_seconds, now_nanos)
}

} // verus!
