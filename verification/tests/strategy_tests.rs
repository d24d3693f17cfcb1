use env_check::error::InstallError;
use env_check::strategy::select_strategy;
use env_check::strategy::CpuArch;
use env_check::strategy::HostFacts;
use env_check::strategy::InstallStrategy;
use env_check::strategy::OsFamily;

fn facts(os: OsFamily, arch: CpuArch) -> HostFacts {
    HostFacts {
        os,
        arch,
        brew_responds: false,
        apt_responds: false,
        yum_responds: false,
        dnf_responds: false,
        pacman_responds: false,
    }
}

#[test]
fn windows_x64_gets_pinned_64_bit_installer() {
    let r = select_strategy(&facts(OsFamily::Windows, CpuArch::X64)).unwrap();
    match r {
        InstallStrategy::DirectDownload { url, architecture } => {
            assert_eq!(
                url,
                "https://github.com/git-for-windows/git/releases/download/v2.51.0.windows.1/Git-2.51.0-64-bit.exe"
            );
            assert_eq!(architecture, CpuArch::X64);
        }
        other => panic!("expected a direct download, got {:?}", other),
    }
}

#[test]
fn windows_x86_gets_pinned_32_bit_installer() {
    let r = select_strategy(&facts(OsFamily::Windows, CpuArch::X86)).unwrap();
    match r {
        InstallStrategy::DirectDownload { url, architecture } => {
            assert_eq!(
                url,
                "https://github.com/git-for-windows/git/releases/download/v2.42.0.windows.2/Git-2.42.0.2-32-bit.exe"
            );
            assert_eq!(architecture, CpuArch::X86);
        }
        other => panic!("expected a direct download, got {:?}", other),
    }
}

#[test]
fn windows_arm64_gets_pinned_arm64_installer() {
    let r = select_strategy(&facts(OsFamily::Windows, CpuArch::Arm64)).unwrap();
    match r {
        InstallStrategy::DirectDownload { url, architecture } => {
            assert_eq!(
                url,
                "https://github.com/git-for-windows/git/releases/download/v2.51.0.windows.1/Git-2.51.0-arm64.exe"
            );
            assert_eq!(architecture, CpuArch::Arm64);
        }
        other => panic!("expected a direct download, got {:?}", other),
    }
}

#[test]
fn windows_unknown_architecture_is_unsupported() {
    let r = select_strategy(&facts(OsFamily::Windows, CpuArch::Other));
    assert_eq!(r, Err(InstallError::UnsupportedPlatform));
}

#[test]
fn macos_with_homebrew_uses_brew_install() {
    let mut f = facts(OsFamily::MacOs, CpuArch::Arm64);
    f.brew_responds = true;
    let r = select_strategy(&f).unwrap();
    match r {
        InstallStrategy::PackageManagerCommand { executable, arguments } => {
            assert_eq!(executable, "brew");
            assert_eq!(arguments, vec!["install".to_string(), "git".to_string()]);
        }
        other => panic!("expected a package-manager command, got {:?}", other),
    }
}

#[test]
fn macos_without_homebrew_is_missing_prerequisite() {
    let r = select_strategy(&facts(OsFamily::MacOs, CpuArch::Arm64));
    assert_eq!(r, Err(InstallError::PrerequisiteMissing));
}

#[test]
fn linux_apt_has_first_priority() {
    let mut f = facts(OsFamily::Linux, CpuArch::X64);
    f.apt_responds = true;
    f.yum_responds = true;
    f.dnf_responds = true;
    f.pacman_responds = true;
    let r = select_strategy(&f).unwrap();
    match r {
        InstallStrategy::PackageManagerCommand { executable, arguments } => {
            assert_eq!(executable, "sh");
            assert_eq!(
                arguments,
                vec!["-c".to_string(), "sudo apt update && sudo apt install -y git".to_string()]
            );
        }
        other => panic!("expected a package-manager command, got {:?}", other),
    }
}

#[test]
fn linux_yum_before_dnf_and_pacman() {
    let mut f = facts(OsFamily::Linux, CpuArch::X64);
    f.yum_responds = true;
    f.dnf_responds = true;
    f.pacman_responds = true;
    let r = select_strategy(&f).unwrap();
    match r {
        InstallStrategy::PackageManagerCommand { executable, arguments } => {
            assert_eq!(executable, "sudo");
            assert_eq!(
                arguments,
                vec![
                    "yum".to_string(),
                    "install".to_string(),
                    "-y".to_string(),
                    "git".to_string()
                ]
            );
        }
        other => panic!("expected a package-manager command, got {:?}", other),
    }
}

#[test]
fn linux_dnf_before_pacman() {
    let mut f = facts(OsFamily::Linux, CpuArch::X64);
    f.dnf_responds = true;
    f.pacman_responds = true;
    let r = select_strategy(&f).unwrap();
    match r {
        InstallStrategy::PackageManagerCommand { executable, arguments } => {
            assert_eq!(executable, "sudo");
            assert_eq!(
                arguments,
                vec![
                    "dnf".to_string(),
                    "install".to_string(),
                    "-y".to_string(),
                    "git".to_string()
                ]
            );
        }
        other => panic!("expected a package-manager command, got {:?}", other),
    }
}

#[test]
fn linux_pacman_as_last_resort() {
    let mut f = facts(OsFamily::Linux, CpuArch::X64);
    f.pacman_responds = true;
    let r = select_strategy(&f).unwrap();
    match r {
        InstallStrategy::PackageManagerCommand { executable, arguments } => {
            assert_eq!(executable, "sudo");
            assert_eq!(
                arguments,
                vec![
                    "pacman".to_string(),
                    "-S".to_string(),
                    "--noconfirm".to_string(),
                    "git".to_string()
                ]
            );
        }
        other => panic!("expected a package-manager command, got {:?}", other),
    }
}

#[test]
fn linux_without_any_package_manager_fails() {
    let r = select_strategy(&facts(OsFamily::Linux, CpuArch::X64));
    assert_eq!(r, Err(InstallError::NoPackageManagerFound));
}

#[test]
fn unknown_os_is_unsupported() {
    let r = select_strategy(&facts(OsFamily::Other, CpuArch::X64));
    assert_eq!(r, Err(InstallError::UnsupportedPlatform));
}

#[test]
fn selection_is_deterministic_for_equal_facts() {
    let mut f = facts(OsFamily::Linux, CpuArch::X64);
    f.dnf_responds = true;
    assert_eq!(select_strategy(&f), select_strategy(&f));
    let g = facts(OsFamily::MacOs, CpuArch::X86);
    assert_eq!(select_strategy(&g), select_strategy(&g));
}
