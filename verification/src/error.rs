//! The failure taxonomy of the installer.

use vstd::prelude::*;

use crate::text::dec_int;
use crate::text::i32_dec;

verus! {

/// Everything that can go wrong while detecting, acquiring, installing or
/// reverifying the managed tool.  Every component reports a typed failure;
/// nothing in the library panics.
#[derive(Debug, Clone, Copy, PartialEq, Eq)]
pub enum InstallError {
    /// An executable could not be spawned at all (missing or unrunnable).
    SpawnFailed,
    /// The download failed: transport error, failed chunk read, or an
    /// unsuccessful HTTP status.
    NetworkError,
    /// The byte count found on disk after persisting the download differs
    /// from the byte count read from the network.
    IncompleteWrite,
    /// The host operating system or CPU architecture is not supported.
    UnsupportedPlatform,
    /// No package manager from the fixed priority list responded on Linux.
    NoPackageManagerFound,
    /// The package manager this platform relies on is itself absent.
    PrerequisiteMissing,
    /// The installer process exited with a non-zero or unknown exit code and
    /// the tool is still absent; `code` is `None` when the exit code was
    /// unavailable.
    InstallProcessFailed { code: Option<i32> },
    /// The installer reported success but reverification still finds the
    /// tool absent.
    VerificationFailed,
}

impl InstallError {
    /// The human-readable description of this failure.  For a failed
    /// installer process it names the exit code, with -1 standing in for an
    /// unknown one; for a failed reverification it advises that a PATH
    /// refresh or an application restart may be needed.
    pub open spec fn describe(self) -> Seq<char> {
        match self {
            InstallError::SpawnFailed => "the installer process could not be started"@,
            InstallError::NetworkError => "the download failed"@,
            InstallError::IncompleteWrite => "the installer file size does not match the downloaded byte count; the write may be incomplete"@,
            InstallError::UnsupportedPlatform => "this operating system or architecture is not supported"@,
            InstallError::NoPackageManagerFound => "no supported package manager was found (apt, yum, dnf, pacman); install Git manually"@,
            InstallError::PrerequisiteMissing => "Homebrew was not found; install Homebrew first or install Git manually"@,
            InstallError::InstallProcessFailed { code } => "the installer exited with code "@
                + dec_int(
                match code {
                    Some(c) => c as int,
                    None => -1,
                },
            ),
            InstallError::VerificationFailed => "the install finished, but Git is still not detected; a PATH refresh or an application restart may be needed"@,
        }
    }

    /// Renders [`Self::describe`] as an owned string.
    pub fn message(&self) -> (s: String)
        ensures
            s@ == self.describe(),
    {
        match self {
            InstallError::SpawnFailed => String::from_str(
                "the installer process could not be started",
            ),
            InstallError::NetworkError => String::from_str("the download failed"),
            InstallError::IncompleteWrite => String::from_str(
                "the installer file size does not match the downloaded byte count; the write may be incomplete",
            ),
            InstallError::UnsupportedPlatform => String::from_str(
                "this operating system or architecture is not supported",
            ),
            InstallError::NoPackageManagerFound => String::from_str(
                "no supported package manager was found (apt, yum, dnf, pacman); install Git manually",
            ),
            InstallError::PrerequisiteMissing => String::from_str(
                "Homebrew was not found; install Homebrew first or install Git manually",
            ),
            InstallError::InstallProcessFailed { code } => {
                let c: i32 = match code {
                    Some(c) => *c,
                    None => -1,
                };
                String::from_str("the installer exited with code ").concat(i32_dec(c).as_str())
            },
            InstallError::VerificationFailed => String::from_str(
                "the install finished, but Git is still not detected; a PATH refresh or an application restart may be needed",
            ),
        }
    }
}

} // verus!
