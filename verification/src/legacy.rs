//! The first version of the manager protocol, in which a device was either
//! pending, unauthorized or authorized.
use vstd::prelude::*;
use crate::text::equal;

verus! {

/// What the first manager said of a device.
#[derive(Clone, Copy, Debug, PartialEq, Eq)]
pub enum ManagedStatus {
    Pending,
    Unauthorized,
    Authorized,
}

impl ManagedStatus {
    pub open spec fn name(self) -> Seq<char> {
        match self {
            ManagedStatus::Pending => "Pending"@,
            ManagedStatus::Unauthorized => "Unauthorized"@,
            ManagedStatus::Authorized => "Authorized"@,
        }
    }

    pub open spec fn named(s: Seq<char>) -> Option<ManagedStatus> {
        if s == "Pending"@ {
            Some(ManagedStatus::Pending)
        } else if s == "Unauthorized"@ {
            Some(ManagedStatus::Unauthorized)
        } else if s == "Authorized"@ {
            Some(ManagedStatus::Authorized)
        } else {
            None
        }
    }

    pub fn as_str(&self) -> (res: &'static str)
        ensures
            res@ == self.name(),
    {
        match self {
            ManagedStatus::Pending => "Pending",
            ManagedStatus::Unauthorized => "Unauthorized",
            ManagedStatus::Authorized => "Authorized",
        }
    }

    pub fn from_name(s: &str) -> (res: Option<ManagedStatus>)
        ensures
            res == ManagedStatus::named(s@),
    {
        if equal(s, "Pending") {
            Some(ManagedStatus::Pending)
        } else if equal(s, "Unauthorized") {
            Some(ManagedStatus::Unauthorized)
        } else if equal(s, "Authorized") {
            Some(ManagedStatus::Authorized)
        } else {
            None
        }
    }
}

/// The first manager answered every device that asked for access with
/// "Pending".
pub fn initialize() -> (res: ManagedStatus)
    ensures
        res == ManagedStatus::Pending,
{
    ManagedStatus::Pending
}

} // verus!
