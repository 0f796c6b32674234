use qtshut::shutdown::ShutdownExecutor;
use qtshut::types::{ShutdownMethod, UserPermissions};

#[test]
fn test_shutdown_executor_creation() {
    let executor = ShutdownExecutor::new();
    assert_eq!(executor.preferred_method, ShutdownMethod::Command);
    assert!(!executor.user_permissions.can_shutdown);
    assert!(!executor.has_pending_shutdown());
}

#[test]
fn test_get_shutdown_info() {
    let executor = ShutdownExecutor::new();
    let info = executor.get_shutdown_info();
    assert!(!info.is_empty());
    assert!(info.contains("Command"));
    assert!(info.contains("可关机=false"));
}

#[test]
fn test_method_selection() {
    assert_eq!(ShutdownExecutor::select_method(Some(10), true), ShutdownMethod::WinAPI);
    assert_eq!(ShutdownExecutor::select_method(Some(6), true), ShutdownMethod::Command);
    assert_eq!(ShutdownExecutor::select_method(None, true), ShutdownMethod::Command);
    assert_eq!(ShutdownExecutor::select_method(Some(10), false), ShutdownMethod::Command);
}

#[test]
fn test_with_environment() {
    let perms = UserPermissions { can_shutdown: true, is_admin: true };
    let executor = ShutdownExecutor::with_environment(Some(10), perms);
    assert_eq!(executor.preferred_method, ShutdownMethod::WinAPI);
    let info = executor.get_shutdown_info();
    assert!(info.contains("WinAPI"));
    assert!(info.contains("管理员=true"));
}
