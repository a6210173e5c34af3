//! Sign-in to the manager's web pages: the session cookie and who it
//! belongs to.
use vstd::prelude::*;
use crate::manager::Error;
use crate::server::User;

verus! {

/// The sign-in form.
pub struct LoginInfo {
    pub username: String,
    pub password: String,
}

/// A user whose session cookie was recognised.
#[derive(Debug)]
pub struct AuthenticatedUser(pub User);

/// Why a request is not from a signed-in user.
#[derive(Debug)]
pub enum AuthenticatedUserError {
    Missing,
    Invalid,
    /// Looking the user up failed; the text describes why.
    DBError(String),
}

/// A request without a session cookie is refused as unauthorized (401).
pub fn session_token_missing() -> (res: (u16, AuthenticatedUserError))
    ensures
        res.0 == 401,
        res.1 is Missing,
{
    (401, AuthenticatedUserError::Missing)
}

/// The user a session cookie belongs to, from the lookup by token: none is
/// refused as forbidden (403), a failed lookup as a server error (500).
pub fn session_user(found: Result<Option<User>, String>) -> (res: Result<AuthenticatedUser, (u16, AuthenticatedUserError)>)
    ensures
        match found {
            Ok(Some(u)) => res matches Ok(a) && a.0 == u,
            Ok(None) => res matches Err((s, e)) && s == 403 && e is Invalid,
            Err(m) => res matches Err((s, e)) && s == 500 && e == AuthenticatedUserError::DBError(m),
        },
{
    match found {
        Ok(Some(user)) => Ok(AuthenticatedUser(user)),
        Ok(None) => Err((403, AuthenticatedUserError::Invalid)),
        Err(m) => Err((500, AuthenticatedUserError::DBError(m))),
    }
}

/// The session cookie set after signing in.
#[derive(Debug)]
pub struct SessionCookie {
    pub name: String,
    pub value: String,
    pub path: String,
    pub secure: bool,
    pub http_only: bool,
}

/// What signing in does.
#[derive(Debug)]
pub enum LoginOutcome {
    /// Store the user, set the cookie and go to the device list.
    SignedIn { user: User, cookie: SessionCookie, redirect: String },
    /// Back to the sign-in page.
    Refused { redirect: String },
}

/// Signing in with the check-in service's answer (the session token, or the
/// error): the user is stored with the token, which is set as the "auth"
/// cookie for the whole site, HTTP-only, and secure when `secure` (release
/// builds); a refused sign-in goes back to the sign-in page.
pub fn process_login(info: &LoginInfo, login: Result<String, Error>, secure: bool) -> (res: LoginOutcome)
    ensures
        match login {
            Ok(token) => res matches LoginOutcome::SignedIn { user, cookie, redirect } && {
                &&& user.username@ == info.username@
                &&& user.auth_token@ == token@
                &&& cookie.name@ == "auth"@
                &&& cookie.value@ == token@
                &&& cookie.path@ == "/"@
                &&& cookie.secure == secure
                &&& cookie.http_only
                &&& redirect@ == "/"@
            },
            Err(_) => res matches LoginOutcome::Refused { redirect } && redirect@ == "/auth/login"@,
        },
{
    match login {
        Ok(token) => {
            let user = User { username: info.username.clone(), auth_token: token.clone() };
            let cookie = SessionCookie {
                name: "auth".to_owned(),
                value: token,
                path: "/".to_owned(),
                secure,
                http_only: true,
            };
            LoginOutcome::SignedIn { user, cookie, redirect: "/".to_owned() }
        },
        Err(_) => LoginOutcome::Refused { redirect: "/auth/login".to_owned() },
    }
}

} // verus!
