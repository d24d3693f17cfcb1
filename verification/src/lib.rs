//! Detection and installation of a required external tool (the `git`
//! version-control binary).
//!
//! The crate holds the verified logic of the installer: parsing the tool's
//! version output, choosing a platform-specific acquisition strategy,
//! accounting for download progress, relaying installer output lines, and the
//! orchestrating state machine that sequences detection, acquisition,
//! installation and reverification.  All process, network and file I/O is
//! performed by the surrounding application, which feeds plain values into
//! these functions and carries their decisions out.

pub mod download;
pub mod error;
pub mod orchestrator;
pub mod runner;
pub mod status;
pub mod strategy;
pub mod text;

pub use error::InstallError;
pub use status::EnvItem;
pub use status::ProbeOutcome;
