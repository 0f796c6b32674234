//! Selection of the terminal action's invocation method.
//!
//! Running the actual shutdown command is input/output and lives with
//! the surrounding application; what stands here is the decision which
//! method to prefer, given the platform version and the user's
//! permissions, and the executor's reported state.

use vstd::prelude::*;

use crate::types::{ShutdownMethod, UserPermissions};

verus! {

/// The preferred method: the platform interface on new systems with
/// shutdown permission, the command line everywhere else.
pub open spec fn spec_select_method(version_major: Option<u32>, can_shutdown: bool) -> ShutdownMethod {
    if can_shutdown {
        match version_major {
            Some(major) => if major >= 10 {
                ShutdownMethod::WinAPI
            } else {
                ShutdownMethod::Command
            },
            None => ShutdownMethod::Command,
        }
    } else {
        ShutdownMethod::Command
    }
}

/// Spec text of the executor's reported state.
pub open spec fn shutdown_info_text(method: ShutdownMethod, perms: UserPermissions) -> Seq<char> {
    "首选方法: "@ + (match method {
        ShutdownMethod::Command => "Command"@,
        ShutdownMethod::WinAPI => "WinAPI"@,
    }) + ", 用户权限: 可关机="@ + (if perms.can_shutdown {
        "true"@
    } else {
        "false"@
    }) + ", 管理员="@ + (if perms.is_admin {
        "true"@
    } else {
        "false"@
    })
}

/// Chooses and reports how the terminal action will be invoked.
#[derive(Debug, Clone, Copy, PartialEq, Eq, Structural)]
pub struct ShutdownExecutor {
    /// The method the executor will try first.
    pub preferred_method: ShutdownMethod,
    /// What the current user may do.
    pub user_permissions: UserPermissions,
}

impl ShutdownExecutor {
    /// What the current user may do, as far as a portable build can
    /// tell: nothing is assumed without a platform check, so both
    /// capabilities read false until the application reports otherwise.
    pub fn check_user_permissions() -> (r: UserPermissions)
        ensures
            r == (UserPermissions { can_shutdown: false, is_admin: false }),
    {
        UserPermissions { can_shutdown: false, is_admin: false }
    }

    /// Whether the process is elevated, as far as a portable build can
    /// tell.
    pub fn is_admin() -> (r: bool)
        ensures
            !r,
    {
        false
    }

    /// Picks the invocation method for a platform version and a
    /// permission set.
    pub fn select_method(version_major: Option<u32>, can_shutdown: bool) -> (r: ShutdownMethod)
        ensures
            r == spec_select_method(version_major, can_shutdown),
    {
        if can_shutdown {
            match version_major {
                Some(major) => if major >= 10 {
                    ShutdownMethod::WinAPI
                } else {
                    ShutdownMethod::Command
                },
                None => ShutdownMethod::Command,
            }
        } else {
            ShutdownMethod::Command
        }
    }

    /// Builds an executor from the portable permission check, with no
    /// platform version known.
    pub fn new() -> (r: Self)
        ensures
            r.user_permissions == (UserPermissions { can_shutdown: false, is_admin: false }),
            r.preferred_method == spec_select_method(None, false),
    {
        let user_permissions = Self::check_user_permissions();
        let preferred_method = Self::select_method(None, user_permissions.can_shutdown);
        ShutdownExecutor { preferred_method, user_permissions }
    }

    /// Builds an executor from a detected platform version and
    /// permission set, as the application reports them.
    pub fn with_environment(version_major: Option<u32>, user_permissions: UserPermissions) -> (r:
        Self)
        ensures
            r.user_permissions == user_permissions,
            r.preferred_method == spec_select_method(version_major, user_permissions.can_shutdown),
    {
        let preferred_method = Self::select_method(version_major, user_permissions.can_shutdown);
        ShutdownExecutor { preferred_method, user_permissions }
    }

    /// Whether a delayed shutdown is already scheduled with the system.
    /// The portable build never schedules one.
    pub fn has_pending_shutdown(&self) -> (r: bool)
        ensures
            !r,
    {
        false
    }

    /// Reports the chosen method and the user's permissions.
    pub fn get_shutdown_info(&self) -> (r: String)
        ensures
            r@ == shutdown_info_text(self.preferred_method, self.user_permissions),
    {
        let mut r = String::from_str("首选方法: ");
        match self.preferred_method {
            ShutdownMethod::Command => r.append("Command"),
            ShutdownMethod::WinAPI => r.append("WinAPI"),
        }
        r.append(", 用户权限: 可关机=");
        if self.user_permissions.can_shutdown {
            r.append("true");
        } else {
            r.append("false");
        }
        r.append(", 管理员=");
        if self.user_permissions.is_admin {
            r.append("true");
        } else {
            r.append("false");
        }
        proof {
            assert(r@ =~= shutdown_info_text(self.preferred_method, self.user_permissions));
        }
        r
    }
}

} // verus!
