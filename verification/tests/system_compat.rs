use qtshut::system_compat::{SystemCompatibility, WindowsProductType, WindowsVersion};

#[test]
fn test_windows_version_name_detection() {
    let compat = SystemCompatibility::new();

    let name = compat.get_windows_version_name(10, 0, 19041, &WindowsProductType::Workstation);
    assert_eq!(name, "Windows 10");

    let name = compat.get_windows_version_name(10, 0, 22000, &WindowsProductType::Workstation);
    assert_eq!(name, "Windows 11");

    let name = compat.get_windows_version_name(6, 1, 7601, &WindowsProductType::Workstation);
    assert_eq!(name, "Windows 7");
}

#[test]
fn test_shutdown_support_check() {
    let mut compat = SystemCompatibility::new();

    compat.windows_version = Some(WindowsVersion {
        major: 10,
        minor: 0,
        build: 19041,
        service_pack: String::new(),
        product_type: WindowsProductType::Workstation,
        version_name: "Windows 10".to_string(),
    });

    assert!(compat.is_shutdown_supported());
    assert!(compat.requires_admin_privileges());
}

#[test]
fn test_compatibility_report_generation() {
    let mut compat = SystemCompatibility::new();

    compat.windows_version = Some(WindowsVersion {
        major: 10,
        minor: 0,
        build: 19041,
        service_pack: String::new(),
        product_type: WindowsProductType::Workstation,
        version_name: "Windows 10".to_string(),
    });

    let report = compat.generate_compatibility_report();
    assert!(report.contains("Windows 10"));
    assert!(report.contains("定时关机支持: 是"));
}

#[test]
fn test_unknown_platform_assumed_restricted() {
    let compat = SystemCompatibility::new();
    assert!(!compat.is_shutdown_supported());
    assert!(compat.requires_admin_privileges());
    assert!(!compat.has_admin_privileges());
    let report = compat.generate_compatibility_report();
    assert!(report.contains("操作系统: 未知"));
    assert!(report.contains("定时关机支持: 否"));
}

#[test]
fn test_fallback_version_name() {
    let compat = SystemCompatibility::new();
    let name = compat.get_windows_version_name(5, 1, 2600, &WindowsProductType::Workstation);
    assert_eq!(name, "Windows 5.1");
}
