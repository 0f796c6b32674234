//! System facts the scheduler consults.
//!
//! Detecting the running platform needs the platform interface and lives
//! with the surrounding application; this module holds the detected
//! facts and the decisions taken over them.

use vstd::prelude::*;

use crate::strings::{chars_to_string, dec_of, dec_pad2, push_decimal, push_pad2};
use crate::types::{UserPermissions, WindowsVersion};

verus! {

/// A major-minor version pair of the operating system.
#[derive(Debug, Clone, Copy, PartialEq, Eq, Structural)]
pub struct OsVersion {
    pub major: u32,
    pub minor: u32,
}

/// Detected platform facts: version and user permissions, absent until
/// the application reports them.
#[derive(Debug, Clone, Copy, PartialEq, Eq, Structural)]
pub struct SystemCompatibility {
    /// The detected platform version.
    pub windows_version: Option<WindowsVersion>,
    /// The detected user permissions.
    pub user_permissions: Option<UserPermissions>,
}

impl Default for SystemCompatibility {
    /// Nothing detected yet.
    fn default() -> (r: Self)
        ensures
            r.windows_version is None,
            r.user_permissions is None,
    {
        SystemCompatibility { windows_version: None, user_permissions: None }
    }
}

impl SystemCompatibility {
    /// A checker with nothing detected yet.
    pub fn new() -> (r: Self)
        ensures
            r.windows_version is None,
            r.user_permissions is None,
    {
        Self::default()
    }

    /// The detected platform version.
    pub fn get_windows_version(&self) -> (r: &Option<WindowsVersion>)
        ensures
            r == &self.windows_version,
    {
        &self.windows_version
    }

    /// The detected user permissions.
    pub fn get_user_permissions(&self) -> (r: &Option<UserPermissions>)
        ensures
            r == &self.user_permissions,
    {
        &self.user_permissions
    }

    /// Whether the detected version is one the scheduler supports.
    pub fn is_system_supported(&self) -> (r: bool)
        ensures
            r == match self.windows_version {
                Some(v) => (v.major == 10 && v.minor == 0) || (v.major == 6 && (v.minor == 1
                    || v.minor == 2 || v.minor == 3)),
                None => false,
            },
    {
        match &self.windows_version {
            Some(v) => (v.major == 10 && v.minor == 0) || (v.major == 6 && (v.minor == 1
                || v.minor == 2 || v.minor == 3)),
            None => false,
        }
    }

    /// The detected version reduced to a known major-minor pair, or
    /// zeros when unknown.
    pub fn get_os_version(&self) -> (r: OsVersion)
        ensures
            r == match self.windows_version {
                Some(v) => if (v.major == 10 && v.minor == 0) || (v.major == 6 && (v.minor == 1
                    || v.minor == 2 || v.minor == 3)) {
                    OsVersion { major: v.major, minor: v.minor }
                } else {
                    OsVersion { major: 0, minor: 0 }
                },
                None => OsVersion { major: 0, minor: 0 },
            },
    {
        match &self.windows_version {
            Some(v) => {
                if (v.major == 10 && v.minor == 0) || (v.major == 6 && (v.minor == 1 || v.minor
                    == 2 || v.minor == 3)) {
                    OsVersion { major: v.major, minor: v.minor }
                } else {
                    OsVersion { major: 0, minor: 0 }
                }
            },
            None => OsVersion { major: 0, minor: 0 },
        }
    }
}

/// Whether the system reports a pending restart. The portable build
/// never does.
pub fn is_reboot_pending() -> (r: bool)
    ensures
        !r,
{
    false
}

/// Spec text of an uptime span in milliseconds: whole days followed by a
/// zero-padded clock, or the clock alone within the first day.
pub open spec fn uptime_text(uptime_ms: u64) -> Seq<char> {
    let total = uptime_ms as int / 1000;
    let days = total / 86400;
    let hours = (total % 86400) / 3600;
    let minutes = (total % 3600) / 60;
    let seconds = total % 60;
    if days > 0 {
        dec_of(days) + seq!['天', ' '] + dec_pad2(hours) + seq![':'] + dec_pad2(minutes)
            + seq![':'] + dec_pad2(seconds)
    } else {
        dec_pad2(hours) + seq![':'] + dec_pad2(minutes) + seq![':'] + dec_pad2(seconds)
    }
}

/// Renders an uptime span in milliseconds.
#[verifier::rlimit(60)]
pub fn format_uptime(uptime_ms: u64) -> (r: String)
    ensures
        r@ == uptime_text(uptime_ms),
{
    let total: u64 = uptime_ms / 1000;
    let days: u64 = total / 86400;
    let hours: u64 = (total % 86400) / 3600;
    let minutes: u64 = (total % 3600) / 60;
    let seconds: u64 = total % 60;
    let mut out: Vec<char> = Vec::new();
    if days > 0 {
        push_decimal(&mut out, days);
        out.push('天');
        out.push(' ');
    }
    push_pad2(&mut out, hours);
    out.push(':');
    push_pad2(&mut out, minutes);
    out.push(':');
    push_pad2(&mut out, seconds);
    proof {
        assert(out@ =~= uptime_text(uptime_ms));
    }
    chars_to_string(&out)
}

} // verus!
