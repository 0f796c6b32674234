use qtshut::system::{format_uptime, is_reboot_pending, OsVersion, SystemCompatibility};
use qtshut::types::{UserPermissions, WindowsVersion};

#[test]
fn test_system_compatibility_creation() {
    let compat = SystemCompatibility::new();
    assert!(compat.windows_version.is_none());
    assert!(compat.user_permissions.is_none());
}

#[test]
fn test_format_uptime() {
    assert_eq!(format_uptime(0), "00:00:00");
    assert_eq!(format_uptime(3661000), "01:01:01");
    assert_eq!(format_uptime(90061000), "1天 01:01:01");
}

#[test]
fn test_system_support_decisions() {
    let mut compat = SystemCompatibility::new();
    assert!(!compat.is_system_supported());
    assert_eq!(compat.get_os_version(), OsVersion { major: 0, minor: 0 });

    compat.windows_version = Some(WindowsVersion { major: 10, minor: 0, build: 19041 });
    compat.user_permissions = Some(UserPermissions { can_shutdown: true, is_admin: false });
    assert!(compat.is_system_supported());
    assert_eq!(compat.get_os_version(), OsVersion { major: 10, minor: 0 });
    assert!(compat.get_user_permissions().is_some());

    compat.windows_version = Some(WindowsVersion { major: 5, minor: 1, build: 2600 });
    assert!(!compat.is_system_supported());
    assert_eq!(compat.get_os_version(), OsVersion { major: 0, minor: 0 });
}

#[test]
fn test_reboot_pending() {
    assert!(!is_reboot_pending());
}
