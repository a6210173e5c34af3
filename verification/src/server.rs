//! The manager server's decisions: what each request does to the stored
//! device record and what it answers.
use vstd::prelude::*;
use vstd::utf8::is_char_boundary;
use vstd::utf8::encode_utf8;
use crate::manager::ManagedStatus;
use crate::order::{sort_strings, sorted, views};

verus! {

/// A kiosk as the server stores it.
#[derive(Debug)]
pub struct Device {
    pub public_key: String,
    pub friendly_name: String,
    pub username: String,
    pub ip_address: String,
    pub authorized: bool,
    pub status_set_by: Option<String>,
    pub pending: bool,
    pub credentials_created: bool,
    pub current_tag: Option<String>,
}

/// The contents of a stored device record.
pub struct DeviceView {
    pub public_key: Seq<char>,
    pub friendly_name: Seq<char>,
    pub username: Seq<char>,
    pub ip_address: Seq<char>,
    pub authorized: bool,
    pub status_set_by: Option<Seq<char>>,
    pub pending: bool,
    pub credentials_created: bool,
    pub current_tag: Option<Seq<char>>,
}

pub open spec fn option_view(s: Option<String>) -> Option<Seq<char>> {
    match s {
        Some(t) => Some(t@),
        None => None,
    }
}

impl View for Device {
    type V = DeviceView;

    open spec fn view(&self) -> DeviceView {
        DeviceView {
            public_key: self.public_key@,
            friendly_name: self.friendly_name@,
            username: self.username@,
            ip_address: self.ip_address@,
            authorized: self.authorized,
            status_set_by: option_view(self.status_set_by),
            pending: self.pending,
            credentials_created: self.credentials_created,
            current_tag: option_view(self.current_tag),
        }
    }
}

/// The status that a device's record gives it.
pub open spec fn device_status(d: DeviceView) -> ManagedStatus {
    if d.pending {
        ManagedStatus::Pending
    } else if d.authorized && d.credentials_created {
        ManagedStatus::AuthorizedHasCredentials
    } else if d.authorized {
        ManagedStatus::AuthorizedNoCredentials
    } else {
        ManagedStatus::Unauthorized
    }
}

impl Device {
    /// The status this device is reported with.
    pub fn status(&self) -> (res: ManagedStatus)
        ensures
            res == device_status(self@),
    {
        if self.pending {
            ManagedStatus::Pending
        } else if self.authorized && self.credentials_created {
            ManagedStatus::AuthorizedHasCredentials
        } else if self.authorized && !self.credentials_created {
            ManagedStatus::AuthorizedNoCredentials
        } else {
            ManagedStatus::Unauthorized
        }
    }
}

/// A user of the management pages.
#[derive(Debug)]
pub struct User {
    pub username: String,
    pub auth_token: String,
}

/// The address a request came from, as text.
#[derive(Debug)]
pub struct IP(String);

impl View for IP {
    type V = Seq<char>;

    closed spec fn view(&self) -> Seq<char> {
        self.0@
    }
}

impl IP {
    /// The client's address, or "Unknown IP" when it is not known.
    pub fn from_client_ip(ip: Option<String>) -> (res: IP)
        ensures
            res@ == match ip {
                Some(a) => a@,
                None => "Unknown IP"@,
            },
    {
        match ip {
            Some(a) => IP(a),
            None => IP("Unknown IP".to_owned()),
        }
    }

    pub fn as_str(&self) -> (res: &str)
        ensures
            res@ == self@,
    {
        self.0.as_str()
    }
}

pub struct InitializeRequest {
    pub username: String,
}

pub struct CredentialsRequest {
    pub username: String,
    pub password: String,
}

pub struct DeviceButtonAction {
    pub username: String,
}

pub struct DeviceTagAction {
    pub username: String,
    pub tag: String,
}

pub struct DeviceRenameAction {
    pub username: String,
    pub name: String,
}

/// The JSON object a request is answered with; absent fields are left out.
#[derive(Debug)]
pub struct Reply {
    pub status: Option<ManagedStatus>,
    pub success: Option<bool>,
    pub error: Option<String>,
    pub details: Option<String>,
}

/// `{"status": ...}`
pub open spec fn is_status_reply(r: Reply, status: ManagedStatus) -> bool {
    r.status == Some(status) && r.success is None && r.error is None && r.details is None
}

/// `{"success": true}`
pub open spec fn is_success_reply(r: Reply) -> bool {
    r.status is None && r.success == Some(true) && r.error is None && r.details is None
}

/// `{"success": false, "error": ..., "details": ...}`
pub open spec fn is_failure_reply(r: Reply, error: Seq<char>, details: Option<Seq<char>>) -> bool {
    r.status is None && r.success == Some(false) && option_view(r.error) == Some(error)
        && option_view(r.details) == details
}

/// `{"error": ..., "details": ...}`
pub open spec fn is_error_reply(r: Reply, error: Seq<char>, details: Option<Seq<char>>) -> bool {
    r.status is None && r.success is None && option_view(r.error) == Some(error)
        && option_view(r.details) == details
}

fn status_reply(status: ManagedStatus) -> (res: Reply)
    ensures
        is_status_reply(res, status),
{
    Reply { status: Some(status), success: None, error: None, details: None }
}

fn success_reply() -> (res: Reply)
    ensures
        is_success_reply(res),
{
    Reply { status: None, success: Some(true), error: None, details: None }
}

fn failure_reply(error: &str, details: Option<String>) -> (res: Reply)
    ensures
        is_failure_reply(res, error@, option_view(details)),
{
    Reply { status: None, success: Some(false), error: Some(error.to_owned()), details }
}

fn error_reply(error: &str, details: Option<String>) -> (res: Reply)
    ensures
        is_error_reply(res, error@, option_view(details)),
{
    Reply { status: None, success: None, error: Some(error.to_owned()), details }
}

/// A change to the stored devices.
#[derive(Debug)]
pub enum DeviceWrite {
    Insert(Device),
    SetIpAddress(String),
    SetAuthorization { authorized: bool, set_by: String },
    SetCredentialsCreated(bool),
    SetCurrentTag(String),
    SetFriendlyName(String),
    Delete,
}

impl DeviceWrite {
    /// The record after the change, given the record before (`None` for none).
    pub open spec fn apply(self, d: Option<DeviceView>) -> Option<DeviceView> {
        match self {
            DeviceWrite::Insert(n) => Some(n@),
            DeviceWrite::Delete => None,
            _ => match d {
                None => None,
                Some(d) => Some(match self {
                    DeviceWrite::SetIpAddress(ip) => DeviceView { ip_address: ip@, ..d },
                    DeviceWrite::SetAuthorization { authorized, set_by } => DeviceView {
                        authorized,
                        status_set_by: Some(set_by@),
                        pending: false,
                        ..d
                    },
                    DeviceWrite::SetCredentialsCreated(b) => DeviceView { credentials_created: b, ..d },
                    DeviceWrite::SetCurrentTag(t) => DeviceView { current_tag: Some(t@), ..d },
                    DeviceWrite::SetFriendlyName(n) => DeviceView { friendly_name: n@, ..d },
                    _ => d,
                }),
            },
        }
    }
}

/// What handling a request does: an optional change to the stored devices,
/// and the answer.
#[derive(Debug)]
pub struct Effect {
    pub write: Option<DeviceWrite>,
    pub reply: Reply,
}

/// The stored record after an effect.
pub open spec fn stored_after(found: Option<DeviceView>, e: Effect) -> Option<DeviceView> {
    match e.write {
        None => found,
        Some(w) => w.apply(found),
    }
}

pub open spec fn device_option_view(d: Option<&Device>) -> Option<DeviceView> {
    match d {
        Some(d) => Some(d@),
        None => None,
    }
}

/// The record of a device that asks for access for the first time: pending,
/// not authorized, without credentials or tag, named by the first 16 bytes of
/// its username.
pub open spec fn is_new_device(n: DeviceView, public_key: Seq<char>, username: Seq<char>, ip: Seq<char>) -> bool {
    &&& n.public_key == public_key
    &&& n.username == username
    &&& encode_utf8(n.friendly_name) == encode_utf8(username).subrange(0, 16)
    &&& n.ip_address == ip
    &&& !n.authorized
    &&& n.status_set_by is None
    &&& n.pending
    &&& !n.credentials_created
    &&& n.current_tag is None
}

/// A device asks for access (`found` is its record, looked up by public key).
/// A known device is answered with its status and its address is recorded;
/// a new device is stored as pending and answered so. The new device's name
/// is the first 16 bytes of its username, which must end on a character
/// boundary.
pub fn initialize(found: Option<&Device>, public_key: &str, request: &InitializeRequest, ip: &IP) -> (res: Effect)
    requires
        found is None ==> is_char_boundary(encode_utf8(request.username@), 16),
    ensures
        match found {
            Some(d) => {
                &&& res.write matches Some(DeviceWrite::SetIpAddress(a)) && a@ == ip@
                &&& stored_after(Some(d@), res) == Some(DeviceView { ip_address: ip@, ..d@ })
                &&& is_status_reply(res.reply, device_status(d@))
            },
            None => {
                &&& res.write matches Some(DeviceWrite::Insert(n)) && is_new_device(n@, public_key@, request.username@, ip@)
                &&& is_status_reply(res.reply, ManagedStatus::Pending)
            },
        },
{
    match found {
        Some(device) => {
            let status = device.status();
            Effect {
                write: Some(DeviceWrite::SetIpAddress(ip.as_str().to_owned())),
                reply: status_reply(status),
            }
        },
        None => {
            let (name, _) = request.username.as_str().split_at(16);
            let device = Device {
                public_key: public_key.to_owned(),
                username: request.username.clone(),
                friendly_name: name.to_owned(),
                ip_address: ip.as_str().to_owned(),
                authorized: false,
                status_set_by: None,
                pending: true,
                credentials_created: false,
                current_tag: None,
            };
            Effect { write: Some(DeviceWrite::Insert(device)), reply: status_reply(ManagedStatus::Pending) }
        },
    }
}

/// A device asks for check-in credentials (`found` is its record, looked up
/// by public key): an unknown device, or one that is pending or not
/// authorized, is refused with this answer; otherwise `None`, and the
/// account is created next.
pub fn create_credentials(found: Option<&Device>) -> (res: Option<Reply>)
    ensures
        match found {
            None => res matches Some(r) && is_error_reply(r, "Unknown device"@, None),
            Some(d) => if d.pending || !d.authorized {
                res matches Some(r) && is_error_reply(r, "Unauthorized or pending device"@, None)
            } else {
                res is None
            },
        },
{
    match found {
        Some(device) => {
            if device.pending || !device.authorized {
                Some(error_reply("Unauthorized or pending device", None))
            } else {
                None
            }
        },
        None => Some(error_reply("Unknown device", None)),
    }
}

/// The account for a device was created (`Ok`), or not, with the error's
/// description: on success the device is recorded as having credentials.
pub fn create_credentials_outcome(created: Result<(), String>) -> (res: Effect)
    ensures
        match created {
            Ok(_) => {
                &&& res.write matches Some(DeviceWrite::SetCredentialsCreated(b)) && b
                &&& forall|d: DeviceView| #[trigger] stored_after(Some(d), res) == Some(DeviceView { credentials_created: true, ..d })
                &&& is_success_reply(res.reply)
            },
            Err(details) => {
                &&& res.write is None
                &&& is_error_reply(res.reply, "Failed to create user with credentials"@, Some(details@))
            },
        },
{
    match created {
        Ok(_) => Effect { write: Some(DeviceWrite::SetCredentialsCreated(true)), reply: success_reply() },
        Err(details) => Effect {
            write: None,
            reply: error_reply("Failed to create user with credentials", Some(details)),
        },
    }
}

fn not_found() -> (res: Effect)
    ensures
        res.write is None,
        is_failure_reply(res.reply, "Device not found"@, None),
{
    Effect { write: None, reply: failure_reply("Device not found", None) }
}

/// An administrator authorizes a device (`found` is its record, looked up by
/// username): it is no longer pending, is authorized, and records who did it.
pub fn authorize_device(user: &User, found: Option<&Device>) -> (res: Effect)
    ensures
        match found {
            Some(d) => {
                &&& res.write matches Some(DeviceWrite::SetAuthorization { authorized: a, set_by: u }) && a && u@ == user.username@
                &&& stored_after(Some(d@), res) == Some(DeviceView {
                    authorized: true,
                    status_set_by: Some(user.username@),
                    pending: false,
                    ..d@
                })
                &&& is_success_reply(res.reply)
            },
            None => res.write is None && is_failure_reply(res.reply, "Device not found"@, None),
        },
{
    match found {
        Some(_) => Effect {
            write: Some(DeviceWrite::SetAuthorization { authorized: true, set_by: user.username.clone() }),
            reply: success_reply(),
        },
        None => not_found(),
    }
}

/// An administrator rejects a device: it is no longer pending, is not
/// authorized, and records who did it.
pub fn reject_device(user: &User, found: Option<&Device>) -> (res: Effect)
    ensures
        match found {
            Some(d) => {
                &&& res.write matches Some(DeviceWrite::SetAuthorization { authorized: a, set_by: u }) && !a && u@ == user.username@
                &&& stored_after(Some(d@), res) == Some(DeviceView {
                    authorized: false,
                    status_set_by: Some(user.username@),
                    pending: false,
                    ..d@
                })
                &&& is_success_reply(res.reply)
            },
            None => res.write is None && is_failure_reply(res.reply, "Device not found"@, None),
        },
{
    match found {
        Some(_) => Effect {
            write: Some(DeviceWrite::SetAuthorization { authorized: false, set_by: user.username.clone() }),
            reply: success_reply(),
        },
        None => not_found(),
    }
}

/// An administrator asks a device to renew its credentials: an unknown device
/// is answered with this; otherwise `None`, and its account is deleted next.
pub fn force_renew_device(found: Option<&Device>) -> (res: Option<Effect>)
    ensures
        match found {
            None => res matches Some(e) && e.write is None && is_failure_reply(e.reply, "Device not found"@, None),
            Some(_) => res is None,
        },
{
    match found {
        Some(_) => None,
        None => Some(not_found()),
    }
}

/// The device's account was deleted (`Ok`), or not: on success the device is
/// recorded as having no credentials, so that it asks for new ones.
pub fn force_renew_outcome(deleted: Result<(), String>) -> (res: Effect)
    ensures
        match deleted {
            Ok(_) => {
                &&& res.write matches Some(DeviceWrite::SetCredentialsCreated(b)) && !b
                &&& forall|d: DeviceView| #[trigger] stored_after(Some(d), res) == Some(DeviceView { credentials_created: false, ..d })
                &&& is_success_reply(res.reply)
            },
            Err(details) => {
                &&& res.write is None
                &&& is_failure_reply(res.reply, "Failed to delete user account"@, Some(details@))
            },
        },
{
    match deleted {
        Ok(_) => Effect { write: Some(DeviceWrite::SetCredentialsCreated(false)), reply: success_reply() },
        Err(details) => Effect { write: None, reply: failure_reply("Failed to delete user account", Some(details)) },
    }
}

/// How deleting a device proceeds.
#[derive(Debug)]
pub enum DeletePlan {
    /// Done with this effect.
    Done(Effect),
    /// The device's check-in account must be deleted first.
    RemoveAccountFirst,
}

/// An administrator deletes a device: an unknown device is answered so; a
/// device with credentials has its account deleted first; another is removed.
pub fn delete_device(found: Option<&Device>) -> (res: DeletePlan)
    ensures
        match found {
            None => res matches DeletePlan::Done(e) && e.write is None && is_failure_reply(e.reply, "Device not found"@, None),
            Some(d) => if d.credentials_created {
                res is RemoveAccountFirst
            } else {
                res matches DeletePlan::Done(e) && e.write matches Some(DeviceWrite::Delete) && is_success_reply(e.reply)
            },
        },
{
    match found {
        Some(device) => {
            if device.credentials_created {
                DeletePlan::RemoveAccountFirst
            } else {
                DeletePlan::Done(Effect { write: Some(DeviceWrite::Delete), reply: success_reply() })
            }
        },
        None => DeletePlan::Done(not_found()),
    }
}

/// The device's account was deleted (`Ok`), or not: on success the device is
/// removed; otherwise it stays and the failure is reported.
pub fn delete_device_outcome(deleted: Result<(), String>) -> (res: Effect)
    ensures
        match deleted {
            Ok(_) => {
                &&& res.write matches Some(DeviceWrite::Delete)
                &&& forall|d: DeviceView| #[trigger] stored_after(Some(d), res) is None
                &&& is_success_reply(res.reply)
            },
            Err(details) => {
                &&& res.write is None
                &&& is_failure_reply(res.reply, "Failed to delete device's checkin2 account"@, Some(details@))
            },
        },
{
    match deleted {
        Ok(_) => Effect { write: Some(DeviceWrite::Delete), reply: success_reply() },
        Err(details) => Effect {
            write: None,
            reply: failure_reply("Failed to delete device's checkin2 account", Some(details)),
        },
    }
}

/// An administrator sets the tag a device checks people in to.
pub fn set_tag(request: &DeviceTagAction, found: Option<&Device>) -> (res: Effect)
    ensures
        match found {
            Some(d) => {
                &&& res.write matches Some(DeviceWrite::SetCurrentTag(t)) && t@ == request.tag@
                &&& stored_after(Some(d@), res) == Some(DeviceView { current_tag: Some(request.tag@), ..d@ })
                &&& is_success_reply(res.reply)
            },
            None => res.write is None && is_failure_reply(res.reply, "Device not found"@, None),
        },
{
    match found {
        Some(_) => Effect { write: Some(DeviceWrite::SetCurrentTag(request.tag.clone())), reply: success_reply() },
        None => not_found(),
    }
}

/// An administrator renames a device.
pub fn rename_device(request: &DeviceRenameAction, found: Option<&Device>) -> (res: Effect)
    ensures
        match found {
            Some(d) => {
                &&& res.write matches Some(DeviceWrite::SetFriendlyName(n)) && n@ == request.name@
                &&& stored_after(Some(d@), res) == Some(DeviceView { friendly_name: request.name@, ..d@ })
                &&& is_success_reply(res.reply)
            },
            None => res.write is None && is_failure_reply(res.reply, "Device not found"@, None),
        },
{
    match found {
        Some(_) => Effect { write: Some(DeviceWrite::SetFriendlyName(request.name.clone())), reply: success_reply() },
        None => not_found(),
    }
}

/// The answer to a device asking for its tag: its current tag, if any, and
/// all tag names in order.
#[derive(Debug)]
pub struct TagListing {
    pub current: Option<String>,
    pub all: Vec<String>,
}

/// Lists the tags (none when they could not be fetched) in order, with the
/// asking device's current tag.
pub fn get_tag(tags: Option<Vec<String>>, current: Option<String>) -> (res: TagListing)
    ensures
        option_view(res.current) == option_view(current),
        sorted(views(res.all@)),
        views(res.all@).to_multiset() == match tags {
            Some(t) => views(t@).to_multiset(),
            None => Seq::<Seq<char>>::empty().to_multiset(),
        },
{
    let list = match tags {
        Some(t) => t,
        None => Vec::new(),
    };
    proof {
        if tags is None {
            assert(views(list@) =~= Seq::<Seq<char>>::empty());
        }
    }
    TagListing { current, all: sort_strings(list) }
}

/// A tag as the device page offers it: its name, and whether the device
/// checks in to it.
#[derive(Debug)]
pub struct TagChoice {
    pub name: String,
    pub selected: bool,
}

/// The tags offered for a device, in the given order, the device's current
/// tag selected.
pub fn tag_choices(tags: &Vec<String>, current: &Option<String>) -> (res: Vec<TagChoice>)
    ensures
        res@.len() == tags@.len(),
        forall|i: int| 0 <= i < tags@.len() ==> {
            &&& (#[trigger] res@[i]).name@ == tags@[i]@
            &&& res@[i].selected == (option_view(*current) == Some(tags@[i]@))
        },
{
    let mut res: Vec<TagChoice> = Vec::new();
    let mut i: usize = 0;
    while i < tags.len()
        invariant
            i <= tags@.len(),
            res@.len() == i,
            forall|j: int| 0 <= j < i ==> {
                &&& (#[trigger] res@[j]).name@ == tags@[j]@
                &&& res@[j].selected == (option_view(*current) == Some(tags@[j]@))
            },
        decreases tags@.len() - i,
    {
        let selected = match current {
            Some(c) => crate::text::equal(c.as_str(), tags[i].as_str()),
            None => false,
        };
        res.push(TagChoice { name: tags[i].clone(), selected });
        i = i + 1;
    }
    res
}


/// The status text a device is answered with names its record's state: a
/// device awaiting a decision is "Pending", a rejected one "Unauthorized",
/// and an approved one "AuthorizedHasCredentials" or
/// "AuthorizedNoCredentials" as its check-in account exists or not.
pub proof fn lemma_device_status_wire_name(d: DeviceView)
    ensures
        device_status(d).name() == "Pending"@ <==> d.pending,
        device_status(d).name() == "Unauthorized"@ <==> !d.pending && !d.authorized,
        device_status(d).name() == "AuthorizedHasCredentials"@ <==> !d.pending && d.authorized && d.credentials_created,
        device_status(d).name() == "AuthorizedNoCredentials"@ <==> !d.pending && d.authorized && !d.credentials_created,
{
    reveal_strlit("Pending");
    reveal_strlit("Unauthorized");
    reveal_strlit("AuthorizedHasCredentials");
    reveal_strlit("AuthorizedNoCredentials");
    assert("Pending"@.len() == 7);
    assert("Unauthorized"@.len() == 12);
    assert("AuthorizedHasCredentials"@.len() == 24);
    assert("AuthorizedNoCredentials"@.len() == 23);
}

/// A device that asks for access for the first time is pending.
pub proof fn lemma_new_device_pending(n: DeviceView, public_key: Seq<char>, username: Seq<char>, ip: Seq<char>)
    requires
        is_new_device(n, public_key, username, ip),
    ensures
        device_status(n) == ManagedStatus::Pending,
{
}

/// Once authorized, a device is reported as authorized, with or without
/// credentials as its record says.
pub proof fn lemma_authorized_status(d: DeviceView, by: Seq<char>)
    ensures
        device_status(DeviceView { authorized: true, status_set_by: Some(by), pending: false, ..d })
            == if d.credentials_created {
            ManagedStatus::AuthorizedHasCredentials
        } else {
            ManagedStatus::AuthorizedNoCredentials
        },
{
}

/// Once rejected, a device is reported as unauthorized.
pub proof fn lemma_rejected_status(d: DeviceView, by: Seq<char>)
    ensures
        device_status(DeviceView { authorized: false, status_set_by: Some(by), pending: false, ..d })
            == ManagedStatus::Unauthorized,
{
}

/// A device that was allowed to ask for credentials and got them is
/// reported as having them.
pub proof fn lemma_credentials_created_status(d: DeviceView)
    requires
        !d.pending,
        d.authorized,
    ensures
        device_status(DeviceView { credentials_created: true, ..d }) == ManagedStatus::AuthorizedHasCredentials,
{
}

/// After its credentials are renewed, an authorized device is reported as
/// needing new ones, and no device as having them.
pub proof fn lemma_renewed_status(d: DeviceView)
    ensures
        device_status(DeviceView { credentials_created: false, ..d }) != ManagedStatus::AuthorizedHasCredentials,
        !d.pending && d.authorized ==> device_status(DeviceView { credentials_created: false, ..d })
            == ManagedStatus::AuthorizedNoCredentials,
{
}

/// Recording a device's address, tag or name does not change its status.
pub proof fn lemma_status_unchanged(d: DeviceView, ip: Seq<char>, tag: Seq<char>, name: Seq<char>)
    ensures
        device_status(DeviceView { ip_address: ip, ..d }) == device_status(d),
        device_status(DeviceView { current_tag: Some(tag), ..d }) == device_status(d),
        device_status(DeviceView { friendly_name: name, ..d }) == device_status(d),
{
}

} // verus!
