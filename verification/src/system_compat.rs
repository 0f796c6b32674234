//! Platform compatibility decisions.
//!
//! Detecting the running platform version and the process's elevation
//! needs the platform interface and lives with the surrounding
//! application; what stands here are the detected facts, the naming of
//! versions, and the compatibility report built over them.

use vstd::prelude::*;

use crate::strings::{chars_to_string, dec_of, push_decimal};

verus! {

/// A detected platform version with its surroundings.
#[derive(Debug, Clone, PartialEq)]
pub struct WindowsVersion {
    pub major: u32,
    pub minor: u32,
    pub build: u32,
    /// Service pack text, empty when none.
    pub service_pack: String,
    /// Whether a workstation or a server edition runs.
    pub product_type: WindowsProductType,
    /// The version's market name.
    pub version_name: String,
}

/// Edition of the running platform.
#[derive(Debug, Clone, Copy, PartialEq, Eq, Structural)]
pub enum WindowsProductType {
    Workstation,
    Server,
    Unknown,
}

/// Spec text of a product type's name.
pub open spec fn product_type_text(t: WindowsProductType) -> Seq<char> {
    match t {
        WindowsProductType::Workstation => "Workstation"@,
        WindowsProductType::Server => "Server"@,
        WindowsProductType::Unknown => "Unknown"@,
    }
}

/// Spec text of a version's market name.
pub open spec fn version_name_text(
    major: u32,
    minor: u32,
    build: u32,
    product_type: WindowsProductType,
) -> Seq<char> {
    if major == 10 && minor == 0 {
        if build >= 22000 {
            "Windows 11"@
        } else {
            match product_type {
                WindowsProductType::Workstation => "Windows 10"@,
                WindowsProductType::Server => "Windows Server 2016/2019/2022"@,
                WindowsProductType::Unknown => "Windows 10/Server"@,
            }
        }
    } else if major == 6 && minor == 3 {
        match product_type {
            WindowsProductType::Workstation => "Windows 8.1"@,
            WindowsProductType::Server => "Windows Server 2012 R2"@,
            WindowsProductType::Unknown => "Windows 8.1/Server 2012 R2"@,
        }
    } else if major == 6 && minor == 2 {
        match product_type {
            WindowsProductType::Workstation => "Windows 8"@,
            WindowsProductType::Server => "Windows Server 2012"@,
            WindowsProductType::Unknown => "Windows 8/Server 2012"@,
        }
    } else if major == 6 && minor == 1 {
        match product_type {
            WindowsProductType::Workstation => "Windows 7"@,
            WindowsProductType::Server => "Windows Server 2008 R2"@,
            WindowsProductType::Unknown => "Windows 7/Server 2008 R2"@,
        }
    } else if major == 6 && minor == 0 {
        match product_type {
            WindowsProductType::Workstation => "Windows Vista"@,
            WindowsProductType::Server => "Windows Server 2008"@,
            WindowsProductType::Unknown => "Windows Vista/Server 2008"@,
        }
    } else {
        "Windows "@ + dec_of(major as int) + "."@ + dec_of(minor as int)
    }
}

/// Checks and reports platform compatibility over detected facts.
#[derive(Debug, Clone, PartialEq)]
pub struct SystemCompatibility {
    /// The detected platform version, absent until the application
    /// reports it.
    pub windows_version: Option<WindowsVersion>,
    /// Whether the process runs elevated, as the application reports it.
    pub admin_privileges: bool,
}

impl Default for SystemCompatibility {
    /// Nothing detected yet.
    fn default() -> (r: Self)
        ensures
            r.windows_version is None,
            !r.admin_privileges,
    {
        SystemCompatibility { windows_version: None, admin_privileges: false }
    }
}

impl SystemCompatibility {
    /// A checker with nothing detected yet.
    pub fn new() -> (r: Self)
        ensures
            r.windows_version is None,
            !r.admin_privileges,
    {
        Self::default()
    }

    /// Names a version by its numbers and edition.
    #[verifier::rlimit(60)]
    pub fn get_windows_version_name(
        &self,
        major: u32,
        minor: u32,
        build: u32,
        product_type: &WindowsProductType,
    ) -> (r: String)
        ensures
            r@ == version_name_text(major, minor, build, *product_type),
    {
        if major == 10 && minor == 0 {
            if build >= 22000 {
                "Windows 11".to_owned()
            } else {
                match product_type {
                    WindowsProductType::Workstation => "Windows 10".to_owned(),
                    WindowsProductType::Server => "Windows Server 2016/2019/2022".to_owned(),
                    WindowsProductType::Unknown => "Windows 10/Server".to_owned(),
                }
            }
        } else if major == 6 && minor == 3 {
            match product_type {
                WindowsProductType::Workstation => "Windows 8.1".to_owned(),
                WindowsProductType::Server => "Windows Server 2012 R2".to_owned(),
                WindowsProductType::Unknown => "Windows 8.1/Server 2012 R2".to_owned(),
            }
        } else if major == 6 && minor == 2 {
            match product_type {
                WindowsProductType::Workstation => "Windows 8".to_owned(),
                WindowsProductType::Server => "Windows Server 2012".to_owned(),
                WindowsProductType::Unknown => "Windows 8/Server 2012".to_owned(),
            }
        } else if major == 6 && minor == 1 {
            match product_type {
                WindowsProductType::Workstation => "Windows 7".to_owned(),
                WindowsProductType::Server => "Windows Server 2008 R2".to_owned(),
                WindowsProductType::Unknown => "Windows 7/Server 2008 R2".to_owned(),
            }
        } else if major == 6 && minor == 0 {
            match product_type {
                WindowsProductType::Workstation => "Windows Vista".to_owned(),
                WindowsProductType::Server => "Windows Server 2008".to_owned(),
                WindowsProductType::Unknown => "Windows Vista/Server 2008".to_owned(),
            }
        } else {
            let mut out: Vec<char> = Vec::new();
            out.push('W');
            out.push('i');
            out.push('n');
            out.push('d');
            out.push('o');
            out.push('w');
            out.push('s');
            out.push(' ');
            push_decimal(&mut out, major as u64);
            out.push('.');
            push_decimal(&mut out, minor as u64);
            proof {
                reveal_strlit("Windows ");
                reveal_strlit(".");
                assert(out@ =~= version_name_text(major, minor, build, *product_type));
            }
            chars_to_string(&out)
        }
    }

    /// Whether the detected platform supports the scheduled shutdown:
    /// any version from the sixth line on.
    pub fn is_shutdown_supported(&self) -> (r: bool)
        ensures
            r == match self.windows_version {
                Some(v) => v.major >= 6,
                None => false,
            },
    {
        match &self.windows_version {
            Some(v) => v.major >= 6,
            None => false,
        }
    }

    /// Whether the platform gates the shutdown behind elevation: known
    /// versions from the sixth line on do; an unknown platform is
    /// assumed to.
    pub fn requires_admin_privileges(&self) -> (r: bool)
        ensures
            r == match self.windows_version {
                Some(v) => v.major >= 6,
                None => true,
            },
    {
        match &self.windows_version {
            Some(v) => v.major >= 6,
            None => true,
        }
    }

    /// The detected platform version.
    pub fn get_windows_version(&self) -> (r: &Option<WindowsVersion>)
        ensures
            r == &self.windows_version,
    {
        &self.windows_version
    }

    /// Whether the process runs elevated, as reported.
    pub fn has_admin_privileges(&self) -> (r: bool)
        ensures
            r == self.admin_privileges,
    {
        self.admin_privileges
    }

    /// Builds the compatibility report. Its text names the platform,
    /// states the three decisions, and warns where the action may fail.
    #[verifier::rlimit(100)]
    #[verifier::spinoff_prover]
    pub fn generate_compatibility_report(&self) -> (r: String)
        ensures
            r@ == report_text(*self),
    {
        let mut r = String::from_str("=== QtShut 系统兼容性报告 ===\n\n");
        match &self.windows_version {
            Some(v) => {
                r.append("操作系统: ");
                r.append(v.version_name.as_str());
                r.append("\n版本号: ");
                let major_text = crate::strings::u64_to_string(v.major as u64);
                r.append(major_text.as_str());
                r.append(".");
                let minor_text = crate::strings::u64_to_string(v.minor as u64);
                r.append(minor_text.as_str());
                r.append(".");
                let build_text = crate::strings::u64_to_string(v.build as u64);
                r.append(build_text.as_str());
                r.append("\n");
                if v.service_pack.unicode_len() > 0 {
                    r.append("服务包: ");
                    r.append(v.service_pack.as_str());
                    r.append("\n");
                }
                r.append("产品类型: ");
                match v.product_type {
                    WindowsProductType::Workstation => r.append("Workstation"),
                    WindowsProductType::Server => r.append("Server"),
                    WindowsProductType::Unknown => r.append("Unknown"),
                }
                r.append("\n\n");
            },
            None => {
                r.append("操作系统: 未知\n\n");
            },
        }
        let ghost head = r@;
        proof {
            assert(head =~= "=== QtShut 系统兼容性报告 ===\n\n"@ + (match self.windows_version {
                Some(v) => "操作系统: "@ + v.version_name@ + "\n版本号: "@ + dec_of(v.major as int)
                    + "."@ + dec_of(v.minor as int) + "."@ + dec_of(v.build as int) + "\n"@ + (
                if v.service_pack@.len() > 0 {
                    "服务包: "@ + v.service_pack@ + "\n"@
                } else {
                    Seq::<char>::empty()
                }) + "产品类型: "@ + product_type_text(v.product_type) + "\n\n"@,
                None => "操作系统: 未知\n\n"@,
            }));
        }
        let tail = self.report_tail();
        r.append(tail.as_str());
        proof {
            assert(r@ =~= report_text(*self));
        }
        r
    }

    /// Builds the decision lines and closing warnings of the report.
    #[verifier::rlimit(100)]
    #[verifier::spinoff_prover]
    fn report_tail(&self) -> (r: String)
        ensures
            r@ == report_tail_text(*self),
    {
        let mut r = String::from_str("定时关机支持: ");
        if self.is_shutdown_supported() {
            r.append("是");
        } else {
            r.append("否");
        }
        r.append("\n需要管理员权限: ");
        if self.requires_admin_privileges() {
            r.append("是");
        } else {
            r.append("否");
        }
        r.append("\n当前具有管理员权限: ");
        if self.has_admin_privileges() {
            r.append("是");
        } else {
            r.append("否");
        }
        r.append("\n");
        if self.requires_admin_privileges() && !self.has_admin_privileges() {
            r.append("\n警告: 当前程序没有管理员权限，可能无法执行关机操作。\n建议以管理员身份运行程序。\n");
        }
        if !self.is_shutdown_supported() {
            r.append("\n错误: 当前系统不支持定时关机功能。\n");
        }
        proof {
            assert(r@ =~= report_tail_text(*self));
        }
        r
    }
}

/// Spec text of the decision lines and closing warnings of the report.
pub open spec fn report_tail_text(c: SystemCompatibility) -> Seq<char> {
    let supported = match c.windows_version {
        Some(v) => v.major >= 6,
        None => false,
    };
    let requires_admin = match c.windows_version {
        Some(v) => v.major >= 6,
        None => true,
    };
    "定时关机支持: "@ + (if supported {
        "是"@
    } else {
        "否"@
    }) + "\n需要管理员权限: "@ + (if requires_admin {
        "是"@
    } else {
        "否"@
    }) + "\n当前具有管理员权限: "@ + (if c.admin_privileges {
        "是"@
    } else {
        "否"@
    }) + "\n"@ + (if requires_admin && !c.admin_privileges {
        "\n警告: 当前程序没有管理员权限，可能无法执行关机操作。\n建议以管理员身份运行程序。\n"@
    } else {
        Seq::<char>::empty()
    }) + (if !supported {
        "\n错误: 当前系统不支持定时关机功能。\n"@
    } else {
        Seq::<char>::empty()
    })
}

/// Spec text of the whole compatibility report.
pub open spec fn report_text(c: SystemCompatibility) -> Seq<char> {
    "=== QtShut 系统兼容性报告 ===\n\n"@ + (match c.windows_version {
        Some(v) => "操作系统: "@ + v.version_name@ + "\n版本号: "@ + dec_of(v.major as int) + "."@
            + dec_of(v.minor as int) + "."@ + dec_of(v.build as int) + "\n"@ + (if v.service_pack@.len()
            > 0 {
            "服务包: "@ + v.service_pack@ + "\n"@
        } else {
            Seq::<char>::empty()
        }) + "产品类型: "@ + product_type_text(v.product_type) + "\n\n"@,
        None => "操作系统: 未知\n\n"@,
    }) + report_tail_text(c)
}

} // verus!
