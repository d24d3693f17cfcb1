//! The installer orchestrator: a verified state machine that sequences
//! detection, strategy selection, acquisition, installation and
//! reverification.
//!
//! The machine is driven by the surrounding application: every call of
//! [`Orchestrator::step`] consumes one observed event and returns a
//! [`Directive`] — a temporary file to delete first, the progress events to
//! emit, and the next thing to do.  Strategy selection is pure, so the
//! machine performs it inside the step that consumes the detection result:
//! it passes through `SelectingStrategy` without resting there.  The
//! orchestrator owns the lifecycle of the downloaded installer file and
//! orders its removal on every path that lets go of it, so no terminal
//! state holds a file.

use vstd::prelude::*;

use crate::error::InstallError;
use crate::runner::ExitStatus;
use crate::status::EnvItem;
use crate::status::opt_view;
use crate::strategy::HostFacts;
use crate::strategy::InstallStrategy;
use crate::strategy::select_args;
use crate::strategy::select_err;
use crate::strategy::select_exe;
use crate::strategy::select_is_download;
use crate::strategy::select_ok;
use crate::strategy::select_strategy;
use crate::strategy::windows_url;

verus! {

/// The states of one orchestration run.
#[derive(Debug, Clone, Copy, PartialEq, Eq, Structural)]
pub enum InstallState {
    Idle,
    Detecting,
    AlreadySatisfied,
    SelectingStrategy,
    Acquiring,
    Installing,
    Verifying,
    Succeeded,
    Failed,
}

/// Whether a state ends the run.
pub open spec fn is_terminal(s: InstallState) -> bool {
    s is AlreadySatisfied || s is Succeeded || s is Failed
}

/// What the application must do next on the orchestrator's behalf, feeding
/// what it observes back in as the next event.
#[derive(Debug, PartialEq, Eq)]
pub enum Action {
    /// Probe the tool with a version query: the initial detection and the
    /// reverification alike.
    Detect,
    /// Fetch the installer at `url` into a fresh, uniquely named temporary
    /// file, with progress accounting and size reverification.
    Download { url: String },
    /// Spawn `executable` with `arguments`, relay its output lines as
    /// progress events, and wait for its exit.
    Run { executable: String, arguments: Vec<String> },
    /// The run has reached a terminal state; nothing further will be asked.
    Finish { outcome: Result<String, InstallError> },
}

/// One decision of the state machine: a temporary file to delete first (if
/// any), the progress events to emit in order, and what to do next.
#[derive(Debug, PartialEq, Eq)]
pub struct Directive {
    pub remove_file: Option<String>,
    pub events: Vec<String>,
    pub action: Action,
}

/// Everything the application can observe on the orchestrator's behalf.
#[derive(Debug)]
pub enum InstallEvent {
    /// Begin the run.
    Start,
    /// A detection probe resolved to this status (initial detection or
    /// reverification, depending on the state).
    Detected(EnvItem),
    /// The download step finished.  `file` names the temporary installer
    /// file as far as one exists on disk, even partially written; the
    /// outcome is `Ok` only for a complete, size-verified file.
    Downloaded { file: Option<String>, outcome: Result<(), InstallError> },
    /// The installer process finished: it exited with the given status, or
    /// could not be spawned at all.
    InstallerFinished(Result<ExitStatus, InstallError>),
}

/// The views of a vector of strings.
pub open spec fn string_views(v: Vec<String>) -> Seq<Seq<char>> {
    v@.map_values(|s: String| s@)
}

/// The silent-install argument vector handed to the downloaded Windows
/// installer.
pub open spec fn windows_silent_args() -> Seq<Seq<char>> {
    seq![
        "/VERYSILENT"@,
        "/NORESTART"@,
        "/NOCANCEL"@,
        "/SP-"@,
        "/CLOSEAPPLICATIONS"@,
        "/RESTARTAPPLICATIONS"@,
        "/COMPONENTS=ext\\shellhere,ext\\guihere,gitlfs,assoc,assoc_sh"@,
    ]
}

/// The version shown in summaries: the reported one, or "unknown".
pub open spec fn version_or_unknown(v: Option<Seq<char>>) -> Seq<char> {
    match v {
        Some(s) => s,
        None => "unknown"@,
    }
}

/// Progress event: the run is probing for the tool.
pub open spec fn m_checking() -> Seq<char> {
    "Checking whether Git is installed..."@
}

/// Success summary when the tool was present from the start.
pub open spec fn m_already(v: Option<Seq<char>>) -> Seq<char> {
    "Git is already installed. Version: "@ + version_or_unknown(v)
}

/// Progress event: the tool is absent and installation begins.
pub open spec fn m_not_installed() -> Seq<char> {
    "Git is not installed, starting installation..."@
}

/// Progress event: the installer download begins.
pub open spec fn m_downloading(url: Seq<char>) -> Seq<char> {
    "Downloading Git installer from "@ + url
}

/// Progress event: installation proceeds through the package manager.
pub open spec fn m_package_manager() -> Seq<char> {
    "Installing Git via the system package manager..."@
}

/// Progress event: the download is complete and the installer starts.
pub open spec fn m_download_done() -> Seq<char> {
    "Download complete, starting the installer..."@
}

/// Progress event: the installer finished and reverification begins.
pub open spec fn m_verifying() -> Seq<char> {
    "Installer finished, verifying the installation..."@
}

/// Success summary after an install that reverified.
pub open spec fn m_success(v: Option<Seq<char>>) -> Seq<char> {
    "Git installed successfully. Version: "@ + version_or_unknown(v)
}

/// Failure event carrying the error's description.
pub open spec fn m_failed(e: InstallError) -> Seq<char> {
    "Installation failed: "@ + e.describe()
}

/// The failure reported when reverification still finds the tool absent:
/// blamed on the installer process when it did not exit successfully (with
/// its exit code), on the environment otherwise.
pub open spec fn verify_fail_error(o: Orchestrator) -> InstallError
    recommends
        o.last_exit is Some,
{
    if o.last_exit->Some_0.success {
        InstallError::VerificationFailed
    } else {
        InstallError::InstallProcessFailed { code: o.last_exit->Some_0.code }
    }
}

/// Which events the machine can consume in which states.  `SelectingStrategy`
/// consumes none: selection is pure and happens inside the step that learns
/// the tool is absent.
pub open spec fn accepts(s: InstallState, ev: InstallEvent) -> bool {
    match s {
        InstallState::Idle => ev is Start,
        InstallState::Detecting => ev is Detected,
        InstallState::Acquiring => ev matches InstallEvent::Downloaded { file, outcome }
            && (outcome is Ok ==> file is Some),
        InstallState::Installing => ev is InstallerFinished,
        InstallState::Verifying => ev is Detected,
        _ => false,
    }
}

/// One orchestration run: the immutable host facts, the current state, the
/// temporary installer file while the run holds one, and the exit status of
/// the installer process once one has run.
pub struct Orchestrator {
    pub facts: HostFacts,
    pub state: InstallState,
    pub temp_file: Option<String>,
    pub last_exit: Option<ExitStatus>,
}

fn msg_checking() -> (s: String)
    ensures
        s@ == m_checking(),
{
    String::from_str("Checking whether Git is installed...")
}

fn msg_version_text(v: &Option<String>) -> (s: String)
    ensures
        s@ == version_or_unknown(opt_view(*v)),
{
    match v {
        Some(x) => x.clone(),
        None => String::from_str("unknown"),
    }
}

fn msg_already(v: &Option<String>) -> (s: String)
    ensures
        s@ == m_already(opt_view(*v)),
{
    String::from_str("Git is already installed. Version: ").concat(msg_version_text(v).as_str())
}

fn msg_not_installed() -> (s: String)
    ensures
        s@ == m_not_installed(),
{
    String::from_str("Git is not installed, starting installation...")
}

fn msg_downloading(url: &str) -> (s: String)
    ensures
        s@ == m_downloading(url@),
{
    String::from_str("Downloading Git installer from ").concat(url)
}

fn msg_package_manager() -> (s: String)
    ensures
        s@ == m_package_manager(),
{
    String::from_str("Installing Git via the system package manager...")
}

fn msg_download_done() -> (s: String)
    ensures
        s@ == m_download_done(),
{
    String::from_str("Download complete, starting the installer...")
}

fn msg_verifying() -> (s: String)
    ensures
        s@ == m_verifying(),
{
    String::from_str("Installer finished, verifying the installation...")
}

fn msg_success(v: &Option<String>) -> (s: String)
    ensures
        s@ == m_success(opt_view(*v)),
{
    String::from_str("Git installed successfully. Version: ").concat(msg_version_text(v).as_str())
}

fn msg_failed(e: InstallError) -> (s: String)
    ensures
        s@ == m_failed(e),
{
    String::from_str("Installation failed: ").concat(e.message().as_str())
}

fn windows_silent_args_exec() -> (r: Vec<String>)
    ensures
        string_views(r) == windows_silent_args(),
{
    let mut r: Vec<String> = Vec::new();
    r.push(String::from_str("/VERYSILENT"));
    r.push(String::from_str("/NORESTART"));
    r.push(String::from_str("/NOCANCEL"));
    r.push(String::from_str("/SP-"));
    r.push(String::from_str("/CLOSEAPPLICATIONS"));
    r.push(String::from_str("/RESTARTAPPLICATIONS"));
    r.push(String::from_str("/COMPONENTS=ext\\shellhere,ext\\guihere,gitlfs,assoc,assoc_sh"));
    proof {
        assert(string_views(r) =~= windows_silent_args());
    }
    r
}

impl Orchestrator {
    /// The machine's invariant: it holds a temporary file only while the
    /// installer is running, and it reaches `Verifying` only after
    /// observing the installer's exit.
    pub open spec fn wf(self) -> bool {
        &&& (self.temp_file is Some ==> self.state is Installing)
        &&& (self.state is Verifying ==> self.last_exit is Some)
    }

    /// A fresh run for these host facts, in the idle state.
    pub fn new(facts: HostFacts) -> (o: Orchestrator)
        ensures
            o.facts == facts,
            o.state is Idle,
            o.temp_file is None,
            o.last_exit is None,
            o.wf(),
    {
        Orchestrator { facts, state: InstallState::Idle, temp_file: None, last_exit: None }
    }

    /// Consumes one observed event and decides what happens next.
    ///
    /// The contract walks the state machine: entry starts a detection
    /// probe; a detection hit ends the run at once with the pre-existing
    /// version and no network or process activity; a miss selects the
    /// strategy and either downloads, runs the package manager, or fails
    /// with the selection error after only the not-installed notice; a
    /// verified download starts the silent installer; an installer exit —
    /// successful or not — always leads to reverification, with the
    /// temporary file's removal ordered on every path that leaves
    /// `Installing`; and reverification alone decides success, blaming a
    /// failed installer process or the environment as the recorded exit
    /// status warrants.  No terminal state holds a temporary file.
    pub fn step(&mut self, ev: InstallEvent) -> (d: Directive)
        requires
            old(self).wf(),
            !is_terminal(old(self).state),
            !(old(self).state is SelectingStrategy),
            accepts(old(self).state, ev),
        ensures
            final(self).wf(),
            final(self).facts == old(self).facts,
            d.events@.len() >= 1,
            is_terminal(final(self).state) ==> final(self).temp_file is None,
            old(self).temp_file is Some && final(self).temp_file is None ==> d.remove_file == old(
                self,
            ).temp_file,
            d.action matches Action::Finish { .. } <==> is_terminal(final(self).state),
            old(self).state is Idle ==> {
                &&& final(self).state is Detecting
                &&& final(self).temp_file == old(self).temp_file
                &&& final(self).last_exit == old(self).last_exit
                &&& d.remove_file is None
                &&& d.action is Detect
                &&& string_views(d.events) == seq![m_checking()]
            },
            old(self).state is Detecting ==> (ev matches InstallEvent::Detected(st) ==> {
                &&& st.installed ==> {
                    &&& final(self).state is AlreadySatisfied
                    &&& d.remove_file is None
                    &&& d.action matches Action::Finish { outcome: Ok(m) } && m@ == m_already(
                        opt_view(st.version),
                    )
                    &&& string_views(d.events) == seq![m_already(opt_view(st.version))]
                }
                &&& !st.installed && !select_ok(old(self).facts) ==> {
                    &&& final(self).state is Failed
                    &&& d.remove_file is None
                    &&& d.action matches Action::Finish { outcome: Err(e) } && e == select_err(
                        old(self).facts,
                    )
                    &&& string_views(d.events) == seq![m_not_installed()]
                }
                &&& !st.installed && select_ok(old(self).facts) && select_is_download(
                    old(self).facts,
                ) ==> {
                    &&& final(self).state is Acquiring
                    &&& final(self).temp_file is None
                    &&& d.remove_file is None
                    &&& d.action matches Action::Download { url } && url@ == windows_url(
                        old(self).facts.arch,
                    )
                    &&& string_views(d.events) == seq![
                        m_not_installed(),
                        m_downloading(windows_url(old(self).facts.arch)),
                    ]
                }
                &&& !st.installed && select_ok(old(self).facts) && !select_is_download(
                    old(self).facts,
                ) ==> {
                    &&& final(self).state is Installing
                    &&& final(self).temp_file is None
                    &&& d.remove_file is None
                    &&& d.action matches Action::Run { executable, arguments } && executable@
                        == select_exe(old(self).facts) && string_views(arguments) == select_args(
                        old(self).facts,
                    )
                    &&& string_views(d.events) == seq![m_not_installed(), m_package_manager()]
                }
            }),
            old(self).state is Acquiring ==> (ev matches InstallEvent::Downloaded {
                file,
                outcome,
            } ==> {
                &&& outcome is Ok ==> {
                    &&& final(self).state is Installing
                    &&& final(self).temp_file == file
                    &&& d.remove_file is None
                    &&& d.action matches Action::Run { executable, arguments } && Some(executable@)
                        == opt_view(file) && string_views(arguments) == windows_silent_args()
                    &&& string_views(d.events) == seq![m_download_done()]
                }
                &&& outcome matches Err(e) ==> {
                    &&& final(self).state is Failed
                    &&& final(self).temp_file is None
                    &&& d.remove_file == file
                    &&& d.action matches Action::Finish { outcome: Err(e2) } && e2 == e
                    &&& string_views(d.events) == seq![m_failed(e)]
                }
            }),
            old(self).state is Installing ==> (ev matches InstallEvent::InstallerFinished(
                res,
            ) ==> {
                &&& final(self).temp_file is None
                &&& d.remove_file == old(self).temp_file
                &&& res matches Ok(exit) ==> {
                    &&& final(self).state is Verifying
                    &&& final(self).last_exit == Some(exit)
                    &&& d.action is Detect
                    &&& string_views(d.events) == seq![m_verifying()]
                }
                &&& res matches Err(e) ==> {
                    &&& final(self).state is Failed
                    &&& d.action matches Action::Finish { outcome: Err(e2) } && e2 == e
                    &&& string_views(d.events) == seq![m_failed(e)]
                }
            }),
            old(self).state is Verifying ==> (ev matches InstallEvent::Detected(st) ==> {
                &&& d.remove_file is None
                &&& st.installed ==> {
                    &&& final(self).state is Succeeded
                    &&& d.action matches Action::Finish { outcome: Ok(m) } && m@ == m_success(
                        opt_view(st.version),
                    )
                    &&& string_views(d.events) == seq![m_success(opt_view(st.version))]
                }
                &&& !st.installed ==> {
                    &&& final(self).state is Failed
                    &&& d.action matches Action::Finish { outcome: Err(e) } && e
                        == verify_fail_error(*old(self))
                    &&& string_views(d.events) == seq![m_failed(verify_fail_error(*old(self)))]
                }
            }),
    {
        match (self.state, ev) {
            (InstallState::Idle, InstallEvent::Start) => {
                self.state = InstallState::Detecting;
                let mut events: Vec<String> = Vec::new();
                events.push(msg_checking());
                proof {
                    assert(string_views(events) =~= seq![m_checking()]);
                }
                Directive { remove_file: None, events, action: Action::Detect }
            },
            (InstallState::Detecting, InstallEvent::Detected(st)) => {
                if st.installed {
                    self.state = InstallState::AlreadySatisfied;
                    let m = msg_already(&st.version);
                    let mut events: Vec<String> = Vec::new();
                    events.push(m.clone());
                    proof {
                        assert(string_views(events) =~= seq![m_already(opt_view(st.version))]);
                    }
                    Directive {
                        remove_file: None,
                        events,
                        action: Action::Finish { outcome: Ok(m) },
                    }
                } else {
                    match select_strategy(&self.facts) {
                        Ok(InstallStrategy::DirectDownload { url, .. }) => {
                            self.state = InstallState::Acquiring;
                            let mut events: Vec<String> = Vec::new();
                            events.push(msg_not_installed());
                            events.push(msg_downloading(url.as_str()));
                            proof {
                                assert(string_views(events) =~= seq![
                                    m_not_installed(),
                                    m_downloading(url@),
                                ]);
                            }
                            Directive { remove_file: None, events, action: Action::Download { url } }
                        },
                        Ok(InstallStrategy::PackageManagerCommand { executable, arguments }) => {
                            self.state = InstallState::Installing;
                            let mut events: Vec<String> = Vec::new();
                            events.push(msg_not_installed());
                            events.push(msg_package_manager());
                            proof {
                                assert(string_views(events) =~= seq![
                                    m_not_installed(),
                                    m_package_manager(),
                                ]);
                            }
                            Directive {
                                remove_file: None,
                                events,
                                action: Action::Run { executable, arguments },
                            }
                        },
                        Err(e) => {
                            self.state = InstallState::Failed;
                            let mut events: Vec<String> = Vec::new();
                            events.push(msg_not_installed());
                            proof {
                                assert(string_views(events) =~= seq![m_not_installed()]);
                            }
                            Directive {
                                remove_file: None,
                                events,
                                action: Action::Finish { outcome: Err(e) },
                            }
                        },
                    }
                }
            },
            (InstallState::Acquiring, InstallEvent::Downloaded { file, outcome }) => {
                match outcome {
                    Ok(_) => {
                        let path = file.unwrap();
                        self.state = InstallState::Installing;
                        self.temp_file = Some(path.clone());
                        let arguments = windows_silent_args_exec();
                        let mut events: Vec<String> = Vec::new();
                        events.push(msg_download_done());
                        proof {
                            assert(string_views(events) =~= seq![m_download_done()]);
                        }
                        Directive {
                            remove_file: None,
                            events,
                            action: Action::Run { executable: path, arguments },
                        }
                    },
                    Err(e) => {
                        self.state = InstallState::Failed;
                        let mut events: Vec<String> = Vec::new();
                        events.push(msg_failed(e));
                        proof {
                            assert(string_views(events) =~= seq![m_failed(e)]);
                        }
                        Directive {
                            remove_file: file,
                            events,
                            action: Action::Finish { outcome: Err(e) },
                        }
                    },
                }
            },
            (InstallState::Installing, InstallEvent::InstallerFinished(res)) => {
                let removed = match &self.temp_file {
                    Some(p) => Some(p.clone()),
                    None => None,
                };
                self.temp_file = None;
                match res {
                    Ok(exit) => {
                        self.state = InstallState::Verifying;
                        self.last_exit = Some(exit);
                        let mut events: Vec<String> = Vec::new();
                        events.push(msg_verifying());
                        proof {
                            assert(string_views(events) =~= seq![m_verifying()]);
                        }
                        Directive { remove_file: removed, events, action: Action::Detect }
                    },
                    Err(e) => {
                        self.state = InstallState::Failed;
                        let mut events: Vec<String> = Vec::new();
                        events.push(msg_failed(e));
                        proof {
                            assert(string_views(events) =~= seq![m_failed(e)]);
                        }
                        Directive {
                            remove_file: removed,
                            events,
                            action: Action::Finish { outcome: Err(e) },
                        }
                    },
                }
            },
            (InstallState::Verifying, InstallEvent::Detected(st)) => {
                if st.installed {
                    self.state = InstallState::Succeeded;
                    let m = msg_success(&st.version);
                    let mut events: Vec<String> = Vec::new();
                    events.push(m.clone());
                    proof {
                        assert(string_views(events) =~= seq![m_success(opt_view(st.version))]);
                    }
                    Directive {
                        remove_file: None,
                        events,
                        action: Action::Finish { outcome: Ok(m) },
                    }
                } else {
                    let ex = self.last_exit.unwrap();
                    let e = if ex.success {
                        InstallError::VerificationFailed
                    } else {
                        InstallError::InstallProcessFailed { code: ex.code }
                    };
                    self.state = InstallState::Failed;
                    let mut events: Vec<String> = Vec::new();
                    events.push(msg_failed(e));
                    proof {
                        assert(string_views(events) =~= seq![m_failed(e)]);
                    }
                    Directive {
                        remove_file: None,
                        events,
                        action: Action::Finish { outcome: Err(e) },
                    }
                }
            },
            _ => vstd::pervasive::unreached(),
        }
    }
}

} // verus!
