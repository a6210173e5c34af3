//! The kiosk's side of the manager protocol: signing requests, reading the
//! device status and credential replies, and following the current
//! check-in tag.
use vstd::prelude::*;
use vstd::utf8::encode_utf8;
use crate::auth::{authorization_value, lemma_signed_request_accepted, signed_request_check, SignedRequestError};
use crate::crypto::{ed25519_signature_of, hash_digest, hex_digest, HashAlgorithm, Signer};
use crate::display::DEFAULT_SCROLL_MILLIS;
use crate::hexfmt::{hex_encode, hex_lower};
use crate::text::{equal, push_str};

verus! {

/// Failures of the manager and check-in services.
#[derive(Clone, Debug, PartialEq, Eq)]
pub enum Error {
    /// The request did not complete; the text describes why.
    Network(String),
    /// The service answered with a refusal.
    Message(String),
}

impl Error {
    /// The error as the kiosk reports it: the description of a failed
    /// request, or the service's refusal as it was given.
    pub fn text(&self) -> (res: &str)
        ensures
            res@ == match self {
                Error::Network(t) => t@,
                Error::Message(t) => t@,
            },
    {
        match self {
            Error::Network(t) => t.as_str(),
            Error::Message(t) => t.as_str(),
        }
    }
}

/// What the manager says of this device.
#[derive(Clone, Copy, Debug, PartialEq, Eq)]
pub enum ManagedStatus {
    Pending,
    Unauthorized,
    AuthorizedHasCredentials,
    AuthorizedNoCredentials,
}

impl ManagedStatus {
    /// The name of the status on the wire.
    pub open spec fn name(self) -> Seq<char> {
        match self {
            ManagedStatus::Pending => "Pending"@,
            ManagedStatus::Unauthorized => "Unauthorized"@,
            ManagedStatus::AuthorizedHasCredentials => "AuthorizedHasCredentials"@,
            ManagedStatus::AuthorizedNoCredentials => "AuthorizedNoCredentials"@,
        }
    }

    /// The status a name stands for, if any.
    pub open spec fn named(s: Seq<char>) -> Option<ManagedStatus> {
        if s == "Pending"@ {
            Some(ManagedStatus::Pending)
        } else if s == "Unauthorized"@ {
            Some(ManagedStatus::Unauthorized)
        } else if s == "AuthorizedHasCredentials"@ {
            Some(ManagedStatus::AuthorizedHasCredentials)
        } else if s == "AuthorizedNoCredentials"@ {
            Some(ManagedStatus::AuthorizedNoCredentials)
        } else {
            None
        }
    }

    pub fn as_str(&self) -> (res: &'static str)
        ensures
            res@ == self.name(),
    {
        match self {
            ManagedStatus::Pending => "Pending",
            ManagedStatus::Unauthorized => "Unauthorized",
            ManagedStatus::AuthorizedHasCredentials => "AuthorizedHasCredentials",
            ManagedStatus::AuthorizedNoCredentials => "AuthorizedNoCredentials",
        }
    }

    pub fn from_name(s: &str) -> (res: Option<ManagedStatus>)
        ensures
            res == ManagedStatus::named(s@),
    {
        if equal(s, "Pending") {
            Some(ManagedStatus::Pending)
        } else if equal(s, "Unauthorized") {
            Some(ManagedStatus::Unauthorized)
        } else if equal(s, "AuthorizedHasCredentials") {
            Some(ManagedStatus::AuthorizedHasCredentials)
        } else if equal(s, "AuthorizedNoCredentials") {
            Some(ManagedStatus::AuthorizedNoCredentials)
        } else {
            None
        }
    }
}

/// Every status reads back as itself from its name.
pub proof fn lemma_status_name_roundtrip(status: ManagedStatus)
    ensures
        ManagedStatus::named(status.name()) == Some(status),
{
    reveal_strlit("Pending");
    reveal_strlit("Unauthorized");
    reveal_strlit("AuthorizedHasCredentials");
    reveal_strlit("AuthorizedNoCredentials");
    assert("Pending"@.len() == 7);
    assert("Unauthorized"@.len() == 12);
    assert("AuthorizedHasCredentials"@.len() == 24);
    assert("AuthorizedNoCredentials"@.len() == 23);
}

/// A status text on the wire is read as the status of the same name, and only
/// that text is: "Pending" is a device awaiting approval, "Unauthorized" a
/// denied one, "AuthorizedHasCredentials" and "AuthorizedNoCredentials" an
/// approved one with and without its check-in account; any other text is no
/// status.
pub proof fn lemma_status_wire_names(s: Seq<char>)
    ensures
        ManagedStatus::named(s) == Some(ManagedStatus::Pending) <==> s == "Pending"@,
        ManagedStatus::named(s) == Some(ManagedStatus::Unauthorized) <==> s == "Unauthorized"@,
        ManagedStatus::named(s) == Some(ManagedStatus::AuthorizedHasCredentials) <==> s == "AuthorizedHasCredentials"@,
        ManagedStatus::named(s) == Some(ManagedStatus::AuthorizedNoCredentials) <==> s == "AuthorizedNoCredentials"@,
        ManagedStatus::named(s) is Some ==> ManagedStatus::named(s).unwrap().name() == s,
{
    reveal_strlit("Pending");
    reveal_strlit("Unauthorized");
    reveal_strlit("AuthorizedHasCredentials");
    reveal_strlit("AuthorizedNoCredentials");
    assert("Pending"@.len() == 7);
    assert("Unauthorized"@.len() == 12);
    assert("AuthorizedHasCredentials"@.len() == 24);
    assert("AuthorizedNoCredentials"@.len() == 23);
}

/// The manager's answer to a request for check-in credentials.
#[derive(Clone, Debug, PartialEq, Eq)]
pub struct CredentialResponse {
    pub success: bool,
    pub error: Option<String>,
    pub details: Option<String>,
}

impl CredentialResponse {
    /// Reads the reply's fields; a reply without `success` did not succeed.
    pub fn from_reply(success: Option<bool>, error: Option<String>, details: Option<String>) -> (res: CredentialResponse)
        ensures
            res.success == (success == Some(true)),
            res.error == error,
            res.details == details,
    {
        CredentialResponse {
            success: match success {
                Some(b) => b,
                None => false,
            },
            error,
            details,
        }
    }
}

/// A request body with the `Authorization` value that signs it.
pub struct SignedRequest {
    pub body: String,
    pub header_value: String,
}

/// The name this device registers under: the SHA-256 of its public key in
/// lower-case hex.
pub fn get_name(signer: &Signer) -> (res: String)
    ensures
        res@ == hex_lower(hash_digest(HashAlgorithm::Sha256, signer.public_bytes())),
        res@.len() == 64,
{
    let public = signer.get_public_key();
    hex_digest(HashAlgorithm::Sha256, &public)
}

/// The `Authorization` value for a public key and a signature.
pub fn authorization_header(public_key: &[u8], signature: &[u8]) -> (res: String)
    ensures
        res@ == authorization_value(public_key@, signature@),
{
    proof {
        reveal_strlit("ed25519 ");
    }
    let mut header_value = "ed25519 ".to_owned();
    let key_text = hex_encode(public_key);
    push_str(&mut header_value, key_text.as_str());
    header_value.push('/');
    let signature_text = hex_encode(signature);
    push_str(&mut header_value, signature_text.as_str());
    header_value
}

/// Signs a request body (its UTF-8 bytes). The manager accepts what a device
/// whose key pair is consistent signs, and learns its public key from it.
pub fn sign_request(signer: &Signer, body: String) -> (res: SignedRequest)
    ensures
        res.body@ == body@,
        res.header_value@ == authorization_value(
            signer.public_bytes(),
            ed25519_signature_of(signer.keypair_bytes(), encode_utf8(body@)),
        ),
        signer.is_consistent() ==> signed_request_check(Some(res.header_value@), Some(encode_utf8(res.body@)))
            == Ok::<Seq<char>, SignedRequestError>(hex_lower(signer.public_bytes())),
{
    let signature = signer.sign(body.as_str().as_bytes());
    let public = signer.get_public_key();
    let header_value = authorization_header(&public, &signature);
    proof {
        if signer.is_consistent() {
            lemma_signed_request_accepted(signer.public_bytes(), signature@, encode_utf8(body@));
        }
    }
    SignedRequest { body, header_value }
}

/// What the kiosk shows after looking up the current tag.
#[derive(Debug)]
pub enum TagNotice {
    /// Nothing to show.
    Quiet,
    /// Scroll a text at the given speed.
    Scroll { text: String, millis_per_column: u64 },
    /// The lookup failed.
    Failed(Error),
}

pub open spec fn tag_view(tag: Option<String>) -> Option<Seq<char>> {
    match tag {
        Some(t) => Some(t@),
        None => None,
    }
}

pub open spec fn scrolls(notice: TagNotice, text: Seq<char>, millis: u64) -> bool {
    notice matches TagNotice::Scroll { text: t, millis_per_column: m } && t@ == text && m == millis
}

/// The message shown when the manager defines no tag.
pub open spec fn no_tag_text() -> Seq<char> {
    "No tag defined by manager"@
}

fn no_tag_notice() -> (res: TagNotice)
    ensures
        scrolls(res, no_tag_text(), 15),
{
    TagNotice::Scroll { text: "No tag defined by manager".to_owned(), millis_per_column: 15 }
}

fn prefixed(prefix: &str, tag: &String) -> (res: String)
    ensures
        res@ == prefix@ + tag@,
{
    let mut text = prefix.to_owned();
    push_str(&mut text, tag.as_str());
    text
}

/// Takes in the result of a tag lookup made on request: a new or changed
/// tag is adopted and announced, an unchanged one is shown again, a missing
/// one is dropped and reported; a failed lookup changes nothing.
pub fn update_tag(current: &mut Option<String>, fetched: Result<Option<String>, Error>) -> (res: TagNotice)
    ensures
        match fetched {
            Ok(Some(t)) => {
                &&& tag_view(*final(current)) == Some(t@)
                &&& if tag_view(*old(current)) == Some(t@) {
                    scrolls(res, "Tag: "@ + t@, DEFAULT_SCROLL_MILLIS)
                } else {
                    scrolls(res, "Using new tag: "@ + t@, DEFAULT_SCROLL_MILLIS)
                }
            },
            Ok(None) => *final(current) is None && scrolls(res, no_tag_text(), 15),
            Err(e) => *final(current) == *old(current) && res == TagNotice::Failed(e),
        },
{
    match fetched {
        Ok(Some(new_tag)) => {
            let same = match current {
                Some(t) => equal(t.as_str(), new_tag.as_str()),
                None => false,
            };
            if !same {
                let text = prefixed("Using new tag: ", &new_tag);
                *current = Some(new_tag);
                TagNotice::Scroll { text, millis_per_column: DEFAULT_SCROLL_MILLIS }
            } else {
                let text = prefixed("Tag: ", &new_tag);
                TagNotice::Scroll { text, millis_per_column: DEFAULT_SCROLL_MILLIS }
            }
        },
        Ok(None) => {
            *current = None;
            no_tag_notice()
        },
        Err(e) => TagNotice::Failed(e),
    }
}

/// Takes in the result of a periodic tag lookup: only a change is adopted
/// and announced; a failed lookup changes nothing.
pub fn poll_tag(current: &mut Option<String>, fetched: Result<Option<String>, Error>) -> (res: TagNotice)
    ensures
        match fetched {
            Ok(Some(t)) => {
                &&& tag_view(*final(current)) == Some(t@)
                &&& if tag_view(*old(current)) == Some(t@) {
                    res is Quiet
                } else {
                    scrolls(res, "Using tag: "@ + t@, DEFAULT_SCROLL_MILLIS)
                }
            },
            Ok(None) => {
                &&& *final(current) is None
                &&& if *old(current) is None { res is Quiet } else { scrolls(res, no_tag_text(), 15) }
            },
            Err(e) => *final(current) == *old(current) && res == TagNotice::Failed(e),
        },
{
    match fetched {
        Ok(Some(new_tag)) => {
            let same = match current {
                Some(t) => equal(t.as_str(), new_tag.as_str()),
                None => false,
            };
            if !same {
                let text = prefixed("Using tag: ", &new_tag);
                *current = Some(new_tag);
                TagNotice::Scroll { text, millis_per_column: DEFAULT_SCROLL_MILLIS }
            } else {
                TagNotice::Quiet
            }
        },
        Ok(None) => {
            if current.is_some() {
                *current = None;
                no_tag_notice()
            } else {
                TagNotice::Quiet
            }
        },
        Err(e) => TagNotice::Failed(e),
    }
}


/// Why the kiosk cannot start.
#[derive(Clone, Copy, Debug, PartialEq, Eq)]
pub enum StartupFailure {
    /// The manager denied this device.
    Denied,
    /// The manager has not approved this device yet.
    NotApproved,
    /// The manager could not be asked.
    ManagerUnreachable,
}

impl StartupFailure {
    /// The text the kiosk scrolls before it stops.
    pub fn display_text(&self) -> (res: &'static str)
        ensures
            res@ == match self {
                StartupFailure::Denied => "Denied access in manager UI"@,
                StartupFailure::NotApproved => "Must approve device in manager UI before use"@,
                StartupFailure::ManagerUnreachable => "Failed to get status from manager (offline?)"@,
            },
    {
        match self {
            StartupFailure::Denied => "Denied access in manager UI",
            StartupFailure::NotApproved => "Must approve device in manager UI before use",
            StartupFailure::ManagerUnreachable => "Failed to get status from manager (offline?)",
        }
    }
}

/// What the kiosk does once the manager has answered with its status.
#[derive(Clone, Copy, Debug, PartialEq, Eq)]
pub enum StartupStep {
    /// Log in to the check-in service with the device's credentials.
    LogIn,
    /// Have the manager create the device's account, then log in.
    CreateCredentials,
    /// Stop.
    Stop(StartupFailure),
}

/// The next step at start-up: an authorized device logs in, creating its
/// account first when it has none; a pending or denied device, or one whose
/// manager did not answer, stops.
pub fn startup_step(status: &Result<ManagedStatus, Error>) -> (res: StartupStep)
    ensures
        res == match status {
            Ok(ManagedStatus::AuthorizedHasCredentials) => StartupStep::LogIn,
            Ok(ManagedStatus::AuthorizedNoCredentials) => StartupStep::CreateCredentials,
            Ok(ManagedStatus::Unauthorized) => StartupStep::Stop(StartupFailure::Denied),
            Ok(ManagedStatus::Pending) => StartupStep::Stop(StartupFailure::NotApproved),
            Err(_) => StartupStep::Stop(StartupFailure::ManagerUnreachable),
        },
{
    match status {
        Ok(ManagedStatus::AuthorizedHasCredentials) => StartupStep::LogIn,
        Ok(ManagedStatus::AuthorizedNoCredentials) => StartupStep::CreateCredentials,
        Ok(ManagedStatus::Unauthorized) => StartupStep::Stop(StartupFailure::Denied),
        Ok(ManagedStatus::Pending) => StartupStep::Stop(StartupFailure::NotApproved),
        Err(_) => StartupStep::Stop(StartupFailure::ManagerUnreachable),
    }
}

/// Whether a failed login with credentials the manager believes exist calls
/// for recreating the account: only when the check-in service refused the
/// username and password (the account may have been deleted).
pub fn should_recreate_credentials(login_error: &Error) -> (res: bool)
    ensures
        res == (login_error matches Error::Message(m) && m@ == "Invalid username or password"@),
{
    match login_error {
        Error::Message(m) => equal(m.as_str(), "Invalid username or password"),
        Error::Network(_) => false,
    }
}

} // verus!
