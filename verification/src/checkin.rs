//! The check-in service's login cookie and check-in request and answer.
use vstd::prelude::*;
use crate::manager::Error;
use crate::text::push_str;

verus! {

/// The pattern that finds the session token in a `Set-Cookie` value.
pub open spec fn auth_cookie_pattern() -> Seq<char> {
    "^auth=(?P<token>[a-f0-9]+);"@
}

pub open spec fn is_token_char(c: char) -> bool {
    ('a' <= c && c <= 'f') || ('0' <= c && c <= '9')
}

/// The number of token characters in `s` from index `i` on, up to the first
/// other character.
pub open spec fn token_run(s: Seq<char>, i: int) -> nat
    decreases s.len() - i,
{
    if 0 <= i < s.len() && is_token_char(s[i]) {
        1 + token_run(s, i + 1)
    } else {
        0
    }
}

/// What the pattern captures in a cookie: the value starts with "auth=",
/// then one or more of `a`-`f` and `0`-`9`, then ';'; the token is those
/// characters.
pub open spec fn auth_cookie_token(s: Seq<char>) -> Option<Seq<char>> {
    let k = token_run(s, 5) as int;
    if s.len() >= 5 && s.subrange(0, 5) == "auth="@ && k >= 1 && 5 + k < s.len() && s[5 + k] == ';' {
        Some(s.subrange(5, 5 + k))
    } else {
        None
    }
}

/// `regex::Regex::new(pattern)`, `captures(text)` and the group `group`,
/// for the session-cookie pattern: the captured token, which the pattern
/// (anchored at the start, greedy over characters that ';' is not among)
/// determines as `auth_cookie_token` states.
#[verifier::external_body]
fn capture_named(pattern: &str, group: &str, text: &str) -> (res: Option<String>)
    requires
        pattern@ == auth_cookie_pattern(),
        group@ == "token"@,
    ensures
        match res {
            Some(t) => auth_cookie_token(text@) == Some(t@),
            None => auth_cookie_token(text@) is None,
        },
{
    regex::Regex::new(pattern).unwrap().captures(text).and_then(|c| c.name(group)).map(|m| m.as_str().to_owned())
}

/// The session token of the last cookie that carries one.
pub open spec fn last_token(cookies: Seq<Seq<char>>) -> Option<Seq<char>>
    decreases cookies.len(),
{
    if cookies.len() == 0 {
        None
    } else {
        match auth_cookie_token(cookies.last()) {
            Some(t) => Some(t),
            None => last_token(cookies.drop_last()),
        }
    }
}

/// Among the `Set-Cookie` values, the session token read is that of the
/// last value that carries one, wherever it stands.
pub proof fn lemma_last_token_is_last_carrier(cookies: Seq<Seq<char>>, j: int)
    requires
        0 <= j < cookies.len(),
        auth_cookie_token(cookies[j]) is Some,
        forall|k: int| j < k < cookies.len() ==> #[trigger] auth_cookie_token(cookies[k]) is None,
    ensures
        last_token(cookies) == auth_cookie_token(cookies[j]),
    decreases cookies.len(),
{
    if j < cookies.len() - 1 {
        assert(auth_cookie_token(cookies[cookies.len() - 1]) is None);
        let rest = cookies.drop_last();
        assert forall|k: int| j < k < rest.len() implies #[trigger] auth_cookie_token(rest[k]) is None by {
            assert(rest[k] == cookies[k]);
            assert(auth_cookie_token(cookies[k]) is None);
        }
        lemma_last_token_is_last_carrier(rest, j);
    }
}

/// When no `Set-Cookie` value carries a session token, none is read.
pub proof fn lemma_last_token_none(cookies: Seq<Seq<char>>)
    requires
        forall|k: int| 0 <= k < cookies.len() ==> #[trigger] auth_cookie_token(cookies[k]) is None,
    ensures
        last_token(cookies) is None,
    decreases cookies.len(),
{
    if cookies.len() > 0 {
        let rest = cookies.drop_last();
        assert(auth_cookie_token(cookies[cookies.len() - 1]) is None);
        assert forall|k: int| 0 <= k < rest.len() implies #[trigger] auth_cookie_token(rest[k]) is None by {
            assert(rest[k] == cookies[k]);
            assert(auth_cookie_token(cookies[k]) is None);
        }
        lemma_last_token_none(rest);
    }
}

proof fn lemma_token_run(t: Seq<char>, rest: Seq<char>, i: int)
    requires
        0 <= i <= t.len(),
        forall|k: int| 0 <= k < t.len() ==> #[trigger] is_token_char(t[k]),
    ensures
        token_run("auth="@ + t + seq![';'] + rest, 5 + i) == t.len() - i,
    decreases t.len() - i,
{
    reveal_strlit("auth=");
    let s = "auth="@ + t + seq![';'] + rest;
    if i < t.len() {
        assert(s[5 + i] == t[i]);
        lemma_token_run(t, rest, i + 1);
    } else {
        assert(s[5 + i] == ';');
    }
}

/// A cookie value "auth=<token>;..." whose token is one or more of `a`-`f`
/// and `0`-`9` carries that token, whatever follows the ';'.
pub proof fn lemma_auth_cookie_token_form(t: Seq<char>, rest: Seq<char>)
    requires
        t.len() >= 1,
        forall|k: int| 0 <= k < t.len() ==> #[trigger] is_token_char(t[k]),
    ensures
        auth_cookie_token("auth="@ + t + seq![';'] + rest) == Some(t),
{
    reveal_strlit("auth=");
    let s = "auth="@ + t + seq![';'] + rest;
    lemma_token_run(t, rest, 0);
    assert(s.subrange(0, 5) =~= "auth="@);
    assert(s[5 + t.len() as int] == ';');
    assert(s.subrange(5, 5 + t.len() as int) =~= t);
}

proof fn lemma_token_run_chars(s: Seq<char>, i: int)
    requires
        0 <= i,
    ensures
        i + token_run(s, i) <= s.len() || token_run(s, i) == 0,
        forall|k: int| i <= k < i + token_run(s, i) ==> #[trigger] is_token_char(s[k]),
    decreases s.len() - i,
{
    if 0 <= i < s.len() && is_token_char(s[i]) {
        lemma_token_run_chars(s, i + 1);
    }
}

/// A cookie value carries a token only in the form "auth=<token>;...": the
/// token is one or more of `a`-`f` and `0`-`9`, right after "auth=" and
/// right before a ';'.
pub proof fn lemma_auth_cookie_token_shape(s: Seq<char>)
    ensures
        auth_cookie_token(s) matches Some(t) ==> {
            &&& t.len() >= 1
            &&& forall|k: int| 0 <= k < t.len() ==> #[trigger] is_token_char(t[k])
            &&& s == "auth="@ + t + seq![';'] + s.subrange(6 + t.len() as int, s.len() as int)
        },
{
    if let Some(t) = auth_cookie_token(s) {
        reveal_strlit("auth=");
        lemma_token_run_chars(s, 5);
        assert forall|k: int| 0 <= k < t.len() implies #[trigger] is_token_char(t[k]) by {
            assert(t[k] == s[5 + k]);
        }
        assert(s =~= "auth="@ + t + seq![';'] + s.subrange(6 + t.len() as int, s.len() as int));
    }
}

pub open spec fn message_is(e: Error, text: Seq<char>) -> bool {
    e matches Error::Message(m) && m@ == text
}

/// The outcome of logging in: a refused login is "Invalid username or
/// password"; otherwise the session token of the last cookie (among the
/// `Set-Cookie` values that are text) that carries one, or "No auth token set
/// by server".
pub fn login_token(succeeded: bool, cookies: &Vec<String>) -> (res: Result<String, Error>)
    ensures
        !succeeded ==> (res matches Err(e) && message_is(e, "Invalid username or password"@)),
        succeeded ==> (match last_token(cookies@.map_values(|c: String| c@)) {
            Some(t) => res matches Ok(r) && r@ == t,
            None => res matches Err(e) && message_is(e, "No auth token set by server"@),
        }),
{
    if !succeeded {
        return Err(Error::Message("Invalid username or password".to_owned()));
    }
    let ghost cv = cookies@.map_values(|c: String| c@);
    let mut auth_token: Option<String> = None;
    let mut i: usize = 0;
    while i < cookies.len()
        invariant
            i <= cookies@.len(),
            cv == cookies@.map_values(|c: String| c@),
            match auth_token {
                Some(t) => last_token(cv.take(i as int)) == Some(t@),
                None => last_token(cv.take(i as int)) is None,
            },
        decreases cookies@.len() - i,
    {
        proof {
            reveal_strlit("^auth=(?P<token>[a-f0-9]+);");
            reveal_strlit("token");
        }
        let found = capture_named("^auth=(?P<token>[a-f0-9]+);", "token", cookies[i].as_str());
        assert(cv.take(i + 1).drop_last() == cv.take(i as int));
        assert(cv.take(i + 1).last() == cookies@[i as int]@);
        if let Some(token) = found {
            auth_token = Some(token);
        }
        i = i + 1;
    }
    assert(cv.take(cookies@.len() as int) == cv);
    match auth_token {
        Some(token) => Ok(token),
        None => Err(Error::Message("No auth token set by server".to_owned())),
    }
}

/// The cookie header that carries a session token.
pub fn cookie_header(token: &str) -> (res: String)
    ensures
        res@ == "auth="@ + token@,
{
    let mut s = "auth=".to_owned();
    push_str(&mut s, token);
    s
}

/// The name of the check-in mutation for checking in or out.
pub open spec fn action_name(check_in: bool) -> Seq<char> {
    if check_in { "check_in"@ } else { "check_out"@ }
}

/// The GraphQL mutation that checks a user in or out of a tag, returning the
/// user's name.
pub open spec fn checkin_query(check_in: bool) -> Seq<char> {
    "mutation($user: ID!, $tag: String!) {\n\t\t\t\t"@ + action_name(check_in)
        + "(user: $user, tag: $tag) {\n\t\t\t\t\tuser {\n\t\t\t\t\t\tname\n\t\t\t\t\t}\n\t\t\t\t}\n\t\t\t}\n\t\t"@
}

/// Checking in and checking out send one mutation text in which only the
/// action's name differs: it opens with the same header, the action's name
/// follows, then its arguments bind the user ID to `user` and the tag to
/// `tag`, and everything after the name is the same for both.
pub proof fn lemma_checkin_query_template(check_in: bool)
    ensures
        ({
            let head = "mutation($user: ID!, $tag: String!) {\n\t\t\t\t"@;
            let args = "(user: $user, tag: $tag)"@;
            let q = checkin_query(check_in);
            let a = (head.len() + action_name(check_in).len()) as int;
            &&& q.subrange(0, head.len() as int) == head
            &&& q.subrange(head.len() as int, a) == action_name(check_in)
            &&& q.subrange(a, a + args.len() as int) == args
            &&& q.subrange(a, q.len() as int)
                == checkin_query(!check_in).subrange((head.len() + action_name(!check_in).len()) as int, checkin_query(!check_in).len() as int)
        }),
{
    let head = "mutation($user: ID!, $tag: String!) {\n\t\t\t\t"@;
    let args = "(user: $user, tag: $tag)"@;
    let tail = "(user: $user, tag: $tag) {\n\t\t\t\t\tuser {\n\t\t\t\t\t\tname\n\t\t\t\t\t}\n\t\t\t\t}\n\t\t\t}\n\t\t"@;
    reveal_strlit("(user: $user, tag: $tag)");
    reveal_strlit("(user: $user, tag: $tag) {\n\t\t\t\t\tuser {\n\t\t\t\t\t\tname\n\t\t\t\t\t}\n\t\t\t\t}\n\t\t\t}\n\t\t");
    let q = checkin_query(check_in);
    let r = checkin_query(!check_in);
    let a = (head.len() + action_name(check_in).len()) as int;
    let b = (head.len() + action_name(!check_in).len()) as int;
    assert(q == head + action_name(check_in) + tail);
    assert(r == head + action_name(!check_in) + tail);
    assert(q.subrange(0, head.len() as int) =~= head);
    assert(q.subrange(head.len() as int, a) =~= action_name(check_in));
    assert(q.subrange(a, q.len() as int) =~= tail);
    assert(r.subrange(b, r.len() as int) =~= tail);
    assert(tail.subrange(0, args.len() as int) =~= args);
    assert(q.subrange(a, a + args.len() as int) =~= tail.subrange(0, args.len() as int));
}

fn action(check_in: bool) -> (res: &'static str)
    ensures
        res@ == action_name(check_in),
{
    if check_in { "check_in" } else { "check_out" }
}

/// The check-in mutation text.
pub fn checkin_mutation(check_in: bool) -> (res: String)
    ensures
        res@ == checkin_query(check_in),
{
    let mut q = "mutation($user: ID!, $tag: String!) {\n\t\t\t\t".to_owned();
    push_str(&mut q, action(check_in));
    push_str(&mut q, "(user: $user, tag: $tag) {\n\t\t\t\t\tuser {\n\t\t\t\t\t\tname\n\t\t\t\t\t}\n\t\t\t\t}\n\t\t\t}\n\t\t");
    q
}

/// Where the checked-in user's name is in the answer: the JSON pointer
/// `/data/<action>/user/name`.
pub fn checkin_name_pointer(check_in: bool) -> (res: String)
    ensures
        res@ == "/data/"@ + action_name(check_in) + "/user/name"@,
{
    let mut p = "/data/".to_owned();
    push_str(&mut p, action(check_in));
    push_str(&mut p, "/user/name");
    p
}

/// What `serde_json` finds in a text at a JSON pointer: `None` when the text
/// is not JSON, `Some(None)` when nothing is at the pointer, `Some(Some(None))`
/// when the value there is not a string, else the string.
pub uninterp spec fn json_string_at(text: Seq<char>, pointer: Seq<char>) -> Option<Option<Option<Seq<char>>>>;

/// The nested option of strings taken by its views.
pub open spec fn opt3_view(v: Option<Option<Option<String>>>) -> Option<Option<Option<Seq<char>>>> {
    match v {
        None => None,
        Some(None) => Some(None),
        Some(Some(None)) => Some(Some(None)),
        Some(Some(Some(s))) => Some(Some(Some(s@))),
    }
}

/// `serde_json::from_str::<Value>(text)`, then `Value::pointer(pointer)` and
/// `Value::as_str` on what is found; the result is named by the text and
/// the pointer.
#[verifier::external_body]
fn json_pointer_string(text: &str, pointer: &str) -> (res: Option<Option<Option<String>>>)
    ensures
        opt3_view(res) == json_string_at(text@, pointer@),
{
    serde_json::from_str::<serde_json::Value>(text).ok().map(|v| v.pointer(pointer).map(|n| n.as_str().map(|s| s.to_owned())))
}

/// Where the checked-in user's name is in the answer.
pub open spec fn name_pointer(check_in: bool) -> Seq<char> {
    "/data/"@ + action_name(check_in) + "/user/name"@
}

/// The outcome of a check-in from the text of its answer: not JSON is
/// "Invalid JSON response"; no name at `/data/<action>/user/name` is "Check
/// in failed. Non-existent user ID? Not logged in?"; a name is the result.
/// A value there that is not a string gives `None` (the kiosk stops there).
pub fn checkin_answer(check_in: bool, text: &str) -> (res: Option<Result<String, Error>>)
    ensures
        match json_string_at(text@, name_pointer(check_in)) {
            None => res matches Some(Err(e)) && message_is(e, "Invalid JSON response"@),
            Some(None) => res matches Some(Err(e))
                && message_is(e, "Check in failed. Non-existent user ID? Not logged in?"@),
            Some(Some(Some(name))) => res matches Some(Ok(r)) && r@ == name,
            Some(Some(None)) => res is None,
        },
{
    let pointer = checkin_name_pointer(check_in);
    match json_pointer_string(text, pointer.as_str()) {
        None => Some(checkin_outcome(None)),
        Some(None) => Some(checkin_outcome(Some(None))),
        Some(Some(None)) => None,
        Some(Some(Some(name))) => Some(checkin_outcome(Some(Some(name)))),
    }
}

/// The outcome of a check-in from its answer: `None` when the answer is not
/// JSON, `Some(None)` when it holds no user name, else the name.
pub fn checkin_outcome(answer: Option<Option<String>>) -> (res: Result<String, Error>)
    ensures
        match answer {
            None => res matches Err(e) && message_is(e, "Invalid JSON response"@),
            Some(None) => res matches Err(e) && message_is(e, "Check in failed. Non-existent user ID? Not logged in?"@),
            Some(Some(name)) => res matches Ok(r) && r@ == name@,
        },
{
    match answer {
        None => Err(Error::Message("Invalid JSON response".to_owned())),
        Some(None) => Err(Error::Message("Check in failed. Non-existent user ID? Not logged in?".to_owned())),
        Some(Some(name)) => Ok(name),
    }
}

} // verus!
