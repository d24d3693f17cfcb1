//! Acquisition strategy selection: a pure function of immutable host facts.
//!
//! Windows hosts get a pinned, architecture-specific installer download;
//! macOS and Linux hosts get a native package-manager command, probing a
//! fixed priority list on Linux (apt, then yum, then dnf, then pacman).

use vstd::prelude::*;

use crate::error::InstallError;

verus! {

/// The operating-system family of the host.
#[derive(Debug, Clone, Copy, PartialEq, Eq, Structural)]
pub enum OsFamily {
    Windows,
    MacOs,
    Linux,
    Other,
}

/// The CPU architecture of the host.
#[derive(Debug, Clone, Copy, PartialEq, Eq, Structural)]
pub enum CpuArch {
    X64,
    X86,
    Arm64,
    Other,
}

/// The immutable facts strategy selection depends on: OS family, CPU
/// architecture, and which package managers answered a version probe.
#[derive(Debug, Clone, Copy, PartialEq, Eq, Structural)]
pub struct HostFacts {
    pub os: OsFamily,
    pub arch: CpuArch,
    /// Whether Homebrew answered a version probe (macOS).
    pub brew_responds: bool,
    /// Whether apt answered a version probe (Linux).
    pub apt_responds: bool,
    /// Whether yum answered a version probe (Linux).
    pub yum_responds: bool,
    /// Whether dnf answered a version probe (Linux).
    pub dnf_responds: bool,
    /// Whether pacman answered a version probe (Linux).
    pub pacman_responds: bool,
}

/// The acquisition path chosen for an absent tool: either a direct download
/// of a pinned installer, or one native package-manager command.
#[derive(Debug, Clone, PartialEq, Eq)]
pub enum InstallStrategy {
    DirectDownload { url: String, architecture: CpuArch },
    PackageManagerCommand { executable: String, arguments: Vec<String> },
}

/// The pinned installer download for a Windows architecture.
pub open spec fn windows_url(arch: CpuArch) -> Seq<char>
    recommends
        arch != CpuArch::Other,
{
    match arch {
        CpuArch::X64 => "https://github.com/git-for-windows/git/releases/download/v2.51.0.windows.1/Git-2.51.0-64-bit.exe"@,
        CpuArch::X86 => "https://github.com/git-for-windows/git/releases/download/v2.42.0.windows.2/Git-2.42.0.2-32-bit.exe"@,
        CpuArch::Arm64 => "https://github.com/git-for-windows/git/releases/download/v2.51.0.windows.1/Git-2.51.0-arm64.exe"@,
        CpuArch::Other => Seq::empty(),
    }
}

/// Whether selection succeeds on these facts.
pub open spec fn select_ok(f: HostFacts) -> bool {
    match f.os {
        OsFamily::Windows => f.arch != CpuArch::Other,
        OsFamily::MacOs => f.brew_responds,
        OsFamily::Linux => f.apt_responds || f.yum_responds || f.dnf_responds
            || f.pacman_responds,
        OsFamily::Other => false,
    }
}

/// The failure kind selection reports when it cannot succeed.
pub open spec fn select_err(f: HostFacts) -> InstallError
    recommends
        !select_ok(f),
{
    match f.os {
        OsFamily::Windows => InstallError::UnsupportedPlatform,
        OsFamily::MacOs => InstallError::PrerequisiteMissing,
        OsFamily::Linux => InstallError::NoPackageManagerFound,
        OsFamily::Other => InstallError::UnsupportedPlatform,
    }
}

/// Whether the chosen strategy is a direct download (Windows) rather than a
/// package-manager command.
pub open spec fn select_is_download(f: HostFacts) -> bool {
    f.os is Windows
}

/// The executable of the chosen package-manager command.
pub open spec fn select_exe(f: HostFacts) -> Seq<char>
    recommends
        select_ok(f) && !select_is_download(f),
{
    match f.os {
        OsFamily::MacOs => "brew"@,
        OsFamily::Linux => if f.apt_responds {
            "sh"@
        } else {
            "sudo"@
        },
        OsFamily::Windows => Seq::empty(),
        OsFamily::Other => Seq::empty(),
    }
}

/// The argument vector of the chosen package-manager command.
pub open spec fn select_args(f: HostFacts) -> Seq<Seq<char>>
    recommends
        select_ok(f) && !select_is_download(f),
{
    match f.os {
        OsFamily::MacOs => seq!["install"@, "git"@],
        OsFamily::Linux => if f.apt_responds {
            seq!["-c"@, "sudo apt update && sudo apt install -y git"@]
        } else if f.yum_responds {
            seq!["yum"@, "install"@, "-y"@, "git"@]
        } else if f.dnf_responds {
            seq!["dnf"@, "install"@, "-y"@, "git"@]
        } else {
            seq!["pacman"@, "-S"@, "--noconfirm"@, "git"@]
        },
        OsFamily::Windows => Seq::empty(),
        OsFamily::Other => Seq::empty(),
    }
}

/// What a correct selection result for these facts looks like, component by
/// component.
pub open spec fn selection_matches(f: HostFacts, r: Result<InstallStrategy, InstallError>) -> bool {
    match r {
        Ok(s) => select_ok(f) && match s {
            InstallStrategy::DirectDownload { url, architecture } => select_is_download(f)
                && url@ == windows_url(f.arch) && architecture == f.arch,
            InstallStrategy::PackageManagerCommand { executable, arguments } => !select_is_download(
                f,
            ) && executable@ == select_exe(f) && arguments@.map_values(|a: String| a@)
                == select_args(f),
        },
        Err(e) => !select_ok(f) && e == select_err(f),
    }
}

/// Whether two strategies agree in every observable component.
pub open spec fn strategy_views_equal(a: InstallStrategy, b: InstallStrategy) -> bool {
    match (a, b) {
        (
            InstallStrategy::DirectDownload { url: u1, architecture: a1 },
            InstallStrategy::DirectDownload { url: u2, architecture: a2 },
        ) => u1@ == u2@ && a1 == a2,
        (
            InstallStrategy::PackageManagerCommand { executable: e1, arguments: g1 },
            InstallStrategy::PackageManagerCommand { executable: e2, arguments: g2 },
        ) => e1@ == e2@ && g1@.map_values(|a: String| a@) == g2@.map_values(|a: String| a@),
        _ => false,
    }
}

/// Chooses the acquisition strategy for these host facts.
///
/// Windows yields a pinned architecture-specific download (or
/// `UnsupportedPlatform` for an unknown architecture); macOS yields a
/// Homebrew command when Homebrew responded (`PrerequisiteMissing`
/// otherwise); Linux yields the command of the first responding package
/// manager in the order apt, yum, dnf, pacman (`NoPackageManagerFound` when
/// none responded); any other OS yields `UnsupportedPlatform`.
pub fn select_strategy(f: &HostFacts) -> (r: Result<InstallStrategy, InstallError>)
    ensures
        selection_matches(*f, r),
        r is Ok <==> select_ok(*f),
{
    match f.os {
        OsFamily::Windows => {
            let url: &'static str = match f.arch {
                CpuArch::X64 => "https://github.com/git-for-windows/git/releases/download/v2.51.0.windows.1/Git-2.51.0-64-bit.exe",
                CpuArch::X86 => "https://github.com/git-for-windows/git/releases/download/v2.42.0.windows.2/Git-2.42.0.2-32-bit.exe",
                CpuArch::Arm64 => "https://github.com/git-for-windows/git/releases/download/v2.51.0.windows.1/Git-2.51.0-arm64.exe",
                CpuArch::Other => {
                    return Err(InstallError::UnsupportedPlatform);
                },
            };
            Ok(
                InstallStrategy::DirectDownload {
                    url: String::from_str(url),
                    architecture: f.arch,
                },
            )
        },
        OsFamily::MacOs => {
            if f.brew_responds {
                let mut arguments: Vec<String> = Vec::new();
                arguments.push(String::from_str("install"));
                arguments.push(String::from_str("git"));
                proof {
                    assert(arguments@.map_values(|a: String| a@) =~= select_args(*f));
                }
                Ok(
                    InstallStrategy::PackageManagerCommand {
                        executable: String::from_str("brew"),
                        arguments,
                    },
                )
            } else {
                Err(InstallError::PrerequisiteMissing)
            }
        },
        OsFamily::Linux => {
            if f.apt_responds {
                let mut arguments: Vec<String> = Vec::new();
                arguments.push(String::from_str("-c"));
                arguments.push(String::from_str("sudo apt update && sudo apt install -y git"));
                proof {
                    assert(arguments@.map_values(|a: String| a@) =~= select_args(*f));
                }
                Ok(
                    InstallStrategy::PackageManagerCommand {
                        executable: String::from_str("sh"),
                        arguments,
                    },
                )
            } else if f.yum_responds {
                let mut arguments: Vec<String> = Vec::new();
                arguments.push(String::from_str("yum"));
                arguments.push(String::from_str("install"));
                arguments.push(String::from_str("-y"));
                arguments.push(String::from_str("git"));
                proof {
                    assert(arguments@.map_values(|a: String| a@) =~= select_args(*f));
                }
                Ok(
                    InstallStrategy::PackageManagerCommand {
                        executable: String::from_str("sudo"),
                        arguments,
                    },
                )
            } else if f.dnf_responds {
                let mut arguments: Vec<String> = Vec::new();
                arguments.push(String::from_str("dnf"));
                arguments.push(String::from_str("install"));
                arguments.push(String::from_str("-y"));
                arguments.push(String::from_str("git"));
                proof {
                    assert(arguments@.map_values(|a: String| a@) =~= select_args(*f));
                }
                Ok(
                    InstallStrategy::PackageManagerCommand {
                        executable: String::from_str("sudo"),
                        arguments,
                    },
                )
            } else if f.pacman_responds {
                let mut arguments: Vec<String> = Vec::new();
                arguments.push(String::from_str("pacman"));
                arguments.push(String::from_str("-S"));
                arguments.push(String::from_str("--noconfirm"));
                arguments.push(String::from_str("git"));
                proof {
                    assert(arguments@.map_values(|a: String| a@) =~= select_args(*f));
                }
                Ok(
                    InstallStrategy::PackageManagerCommand {
                        executable: String::from_str("sudo"),
                        arguments,
                    },
                )
            } else {
                Err(InstallError::NoPackageManagerFound)
            }
        },
        OsFamily::Other => Err(InstallError::UnsupportedPlatform),
    }
}

/// Law: strategy selection is a pure function of the host facts.  Any two
/// results that are correct selections for the same facts agree: they
/// succeed or fail together, failures carry the same kind, and successes
/// carry the same strategy in every observable component.
pub proof fn lemma_strategy_selection_deterministic(
    f: HostFacts,
    r1: Result<InstallStrategy, InstallError>,
    r2: Result<InstallStrategy, InstallError>,
)
    requires
        selection_matches(f, r1),
        selection_matches(f, r2),
    ensures
        r1 is Ok == r2 is Ok,
        r1 matches Err(e1) ==> (r2 matches Err(e2) && e1 == e2),
        r1 matches Ok(s1) ==> (r2 matches Ok(s2) && strategy_views_equal(s1, s2)),
{
}

} // verus!
