//! Starting a core of our own, through the system service or as a child process.

use crate::client;
use crate::client::MihomoClient;
use crate::config::Platform;
use crate::notes::Notes;
use crate::number;
use crate::paths;
use crate::text;
use vstd::prelude::*;

verus! {

/// The steps of starting a core.
#[derive(Debug, Clone, Copy, PartialEq, Eq, Structural)]
pub enum StartStep {
    Done,
    /// Get the service going.
    Bootstrap,
    /// Find the core's program.
    Locate,
    /// Get its configuration ready.
    Prepare,
    /// Let the service start it.
    ByService,
    /// Start it as a child process.
    ByChild,
}

impl StartStep {
    /// How many steps are ahead at most.
    pub open spec fn rank(self) -> nat {
        match self {
            StartStep::Done => 0,
            StartStep::ByChild => 1,
            StartStep::ByService => 2,
            StartStep::Prepare => 3,
            StartStep::Locate => 4,
            StartStep::Bootstrap => 5,
        }
    }
}

/// What is told before a core is started: a pid file that names a dead process is stale, and that
/// the service is left out is told once.
pub open spec fn start_notes(stale: Option<u32>, direct: bool) -> Seq<Seq<char>> {
    let first = match stale {
        Some(pid) => seq![
            "removed stale managed core pid file (pid="@ + number::dec(pid as nat) + ")"@,
        ],
        None => seq![],
    };
    if direct {
        first.push(
            "direct-core mode: skip service IPC (set VERGE_TUI_USE_SERVICE_IPC=1 to enable)"@,
        )
    } else {
        first
    }
}

/// Begins to start a core, unless one of ours is running. `pid` is what the pid file names and
/// whether that process is alive. Gives the first step, and whether the pid file is removed.
pub fn try_start_managed_mihomo(
    running: bool,
    pid: Option<(u32, bool)>,
    use_service: bool,
    direct_mode_logged: &mut bool,
) -> (r: (StartStep, bool, Notes))
    ensures
        if running {
            r.0 == StartStep::Done && !r.1 && r.2@ == Seq::<Seq<char>>::empty()
                && *final(direct_mode_logged) == *old(direct_mode_logged)
        } else {
            let stale = match pid {
                Some((p, false)) => Some(p),
                _ => None,
            };
            let direct = !use_service && !*old(direct_mode_logged);
            &&& r.0 == if use_service {
                StartStep::Bootstrap
            } else {
                StartStep::Locate
            }
            &&& r.1 == stale is Some
            &&& r.2@ == start_notes(stale, direct)
            &&& *final(direct_mode_logged) == (*old(direct_mode_logged) || !use_service)
        },
{
    let mut notes = Notes::none();
    if running {
        return (StartStep::Done, false, notes);
    }
    let mut stale = false;
    if let Some((p, alive)) = pid {
        if !alive {
            stale = true;
            notes.add(
                text::cat3(
                    "removed stale managed core pid file (pid=",
                    number::to_dec(p as u64).as_str(),
                    ")",
                ),
            );
        }
    }
    let direct = !use_service && !*direct_mode_logged;
    if direct {
        notes.add(
            "direct-core mode: skip service IPC (set VERGE_TUI_USE_SERVICE_IPC=1 to enable)".to_owned(),
        );
        *direct_mode_logged = true;
    }
    proof {
        let named = match pid {
            Some((p, false)) => Some(p),
            _ => None,
        };
        assert(notes@ =~= start_notes(named, direct));
    }
    if use_service {
        (StartStep::Bootstrap, stale, notes)
    } else {
        (StartStep::Locate, stale, notes)
    }
}

/// The step after a step that went well or not.
pub open spec fn start_after(step: StartStep, ok: bool, use_service: bool) -> StartStep {
    match step {
        StartStep::Done => StartStep::Done,
        StartStep::Bootstrap => StartStep::Locate,
        StartStep::Locate => if ok {
            StartStep::Prepare
        } else {
            StartStep::Done
        },
        StartStep::Prepare => if !ok {
            StartStep::Done
        } else if use_service {
            StartStep::ByService
        } else {
            StartStep::ByChild
        },
        StartStep::ByService => if ok {
            StartStep::Done
        } else {
            StartStep::ByChild
        },
        StartStep::ByChild => StartStep::Done,
    }
}

pub fn start_next(step: StartStep, ok: bool, use_service: bool) -> (r: (StartStep, Notes))
    ensures
        r.0 == start_after(step, ok, use_service),
        r.1@ == if step == StartStep::Locate && !ok {
            seq![
                "cannot auto-start mihomo: no executable found (set VERGE_TUI_CORE_BIN or install verge-mihomo)"@,
            ]
        } else {
            seq![]
        },
        step == StartStep::Done || r.0.rank() < step.rank(),
{
    let next = match step {
        StartStep::Done => StartStep::Done,
        StartStep::Bootstrap => StartStep::Locate,
        StartStep::Locate => {
            if !ok {
                return (
                    StartStep::Done,
                    Notes::say(
                        "cannot auto-start mihomo: no executable found (set VERGE_TUI_CORE_BIN or install verge-mihomo)",
                    ),
                );
            }
            StartStep::Prepare
        },
        StartStep::Prepare => {
            if !ok {
                StartStep::Done
            } else if use_service {
                StartStep::ByService
            } else {
                StartStep::ByChild
            }
        },
        StartStep::ByService => {
            if ok {
                StartStep::Done
            } else {
                StartStep::ByChild
            }
        },
        StartStep::ByChild => StartStep::Done,
    };
    (next, Notes::none())
}

/// The service is used only where the environment asks for it; where it does not start the core, a
/// child process does.
pub proof fn law_service_is_optional(step: StartStep, ok: bool)
    requires
        step != StartStep::ByService,
    ensures
        start_after(step, ok, false) != StartStep::ByService,
        start_after(step, ok, false) != StartStep::Bootstrap,
        start_after(StartStep::ByService, false, true) == StartStep::ByChild,
{
}

/// What is told before a core is started as a child with the tunnel on. `caps` is whether the
/// program has the capabilities, where that is known.
pub fn tun_start_notes(tun: bool, caps: Option<bool>, hint: String) -> (r: Notes)
    ensures
        r@ == if !tun {
            seq![]
        } else if caps == Some(false) {
            seq![
                "starting direct core in tun mode; if tun fails, grant NET_ADMIN/NET_RAW to verge-mihomo or enable service IPC"@,
                hint@,
            ]
        } else {
            seq![
                "starting direct core in tun mode; if tun fails, grant NET_ADMIN/NET_RAW to verge-mihomo or enable service IPC"@,
            ]
        },
{
    if !tun {
        return Notes::none();
    }
    let mut notes = Notes::say(
        "starting direct core in tun mode; if tun fails, grant NET_ADMIN/NET_RAW to verge-mihomo or enable service IPC",
    );
    if let Some(granted) = caps {
        if !granted {
            notes.add(hint);
            assert(notes@ =~= seq![
                "starting direct core in tun mode; if tun fails, grant NET_ADMIN/NET_RAW to verge-mihomo or enable service IPC"@,
                hint@,
            ]);
        }
    }
    notes
}

/// What is told of a child process that was looked after.
#[derive(Debug)]
pub enum ChildState {
    Running,
    Exited(String),
    Lost(String),
}

/// Whether a child process is given up, and what is told about it.
pub fn reap_managed_core(state: &ChildState) -> (r: (bool, Notes))
    ensures
        r.0 == !(state is Running),
        r.1@ == match state {
            ChildState::Running => seq![],
            ChildState::Exited(status) => seq!["managed mihomo exited: "@ + status@],
            ChildState::Lost(err) => seq!["managed mihomo wait failed: "@ + err@],
        },
{
    match state {
        ChildState::Running => (false, Notes::none()),
        ChildState::Exited(status) => (
            true,
            Notes::one(text::cat2("managed mihomo exited: ", status.as_str())),
        ),
        ChildState::Lost(err) => (
            true,
            Notes::one(text::cat2("managed mihomo wait failed: ", err.as_str())),
        ),
    }
}

pub open spec fn service_primary() -> Seq<char> {
    "/tmp/verge/clash-verge-service.sock"@
}

pub open spec fn service_legacy() -> Seq<char> {
    "/tmp/clash-verge-service.sock"@
}

/// The socket of the service, and where it used to be.
pub fn service_sockets() -> (r: (&'static str, &'static str))
    ensures
        r.0@ == service_primary(),
        r.1@ == service_legacy(),
{
    ("/tmp/verge/clash-verge-service.sock", "/tmp/clash-verge-service.sock")
}

/// Whether the service's socket is linked to where it used to be: it is missing, and the old one is
/// there.
pub fn service_link_needed(platform: Platform, primary_exists: bool, legacy_exists: bool) -> (r: bool)
    ensures
        r == (platform != Platform::Windows && !primary_exists && legacy_exists),
{
    platform != Platform::Windows && !primary_exists && legacy_exists
}

/// What came of linking the service's socket.
#[derive(Debug)]
pub enum LinkOutcome {
    /// Its directory could not be made.
    NoDirectory(String, String),
    Linked,
    /// It could not be linked; whether it is there all the same.
    Failed(String, bool),
}

pub fn service_link_notes(outcome: LinkOutcome) -> (r: Notes)
    ensures
        r@ == match outcome {
            LinkOutcome::NoDirectory(dir, err) => seq![
                "service IPC compat mkdir failed: "@ + dir@ + " ("@ + err@ + ")"@,
            ],
            LinkOutcome::Linked => seq![
                "service IPC compat linked: "@ + service_primary() + " -> "@ + service_legacy(),
            ],
            LinkOutcome::Failed(err, there) => if there {
                seq![]
            } else {
                seq![
                    "service IPC compat link failed: "@ + service_primary() + " -> "@
                        + service_legacy() + " ("@ + err@ + ")"@,
                ]
            },
        },
{
    let (primary, legacy) = service_sockets();
    match outcome {
        LinkOutcome::NoDirectory(dir, err) => Notes::one(
            text::cat5(
                "service IPC compat mkdir failed: ",
                dir.as_str(),
                " (",
                err.as_str(),
                ")",
            ),
        ),
        LinkOutcome::Linked => Notes::one(
            text::cat4("service IPC compat linked: ", primary, " -> ", legacy),
        ),
        LinkOutcome::Failed(err, there) => {
            if there {
                return Notes::none();
            }
            let head = text::cat4("service IPC compat link failed: ", primary, " -> ", legacy);
            Notes::one(text::cat4(head.as_str(), " (", err.as_str(), ")"))
        },
    }
}

/// The steps of getting the service going.
#[derive(Debug, Clone, Copy, PartialEq, Eq, Structural)]
pub enum BootstrapStep {
    /// Whether the service is ready.
    Done(bool),
    /// Link its socket where that is needed.
    Link,
    /// Is its socket there?
    Look,
    /// It is: wait for the service.
    Await,
    /// Make the directory of the socket.
    MakeDirectory,
    /// Is there a program that starts services?
    FindStarter,
    /// Have it start the service.
    Probe,
    /// Is the socket there now?
    LookAgain,
    /// Is the service's own program there?
    FindProgram,
    /// Wait for the service after the attempt to start it.
    AwaitStarted,
}

pub open spec fn bootstrap_after(step: BootstrapStep, ok: bool) -> BootstrapStep {
    match step {
        BootstrapStep::Done(r) => BootstrapStep::Done(r),
        BootstrapStep::Link => BootstrapStep::Look,
        BootstrapStep::Look => if ok {
            BootstrapStep::Await
        } else {
            BootstrapStep::MakeDirectory
        },
        BootstrapStep::Await => BootstrapStep::Done(ok),
        BootstrapStep::MakeDirectory => BootstrapStep::FindStarter,
        BootstrapStep::FindStarter => if ok {
            BootstrapStep::Probe
        } else {
            BootstrapStep::LookAgain
        },
        BootstrapStep::Probe => BootstrapStep::LookAgain,
        BootstrapStep::LookAgain => if ok {
            BootstrapStep::AwaitStarted
        } else {
            BootstrapStep::FindProgram
        },
        BootstrapStep::FindProgram => BootstrapStep::AwaitStarted,
        BootstrapStep::AwaitStarted => BootstrapStep::Done(ok),
    }
}

/// What is told at a step; `detail` is what the starting program said, or where the service's own
/// program is.
pub open spec fn bootstrap_notes(step: BootstrapStep, ok: bool, detail: Seq<char>) -> Seq<Seq<char>> {
    if step == BootstrapStep::Probe {
        seq![
            "service probe: "@ + detail,
            if ok {
                "requested start for clash-verge-service.service"@
            } else {
                "service needs privilege. run once: sudo systemctl start clash-verge-service.service"@
            },
        ]
    } else if step == BootstrapStep::FindProgram && ok {
        seq!["service binary detected but not started directly (needs root service): "@ + detail]
    } else if step == BootstrapStep::AwaitStarted && !ok {
        seq!["service IPC not ready; fallback to user-mode core process"@]
    } else {
        seq![]
    }
}

pub open spec fn bootstrap_rank(step: BootstrapStep) -> nat {
    match step {
        BootstrapStep::Done(_) => 0,
        BootstrapStep::Await => 1,
        BootstrapStep::AwaitStarted => 1,
        BootstrapStep::FindProgram => 2,
        BootstrapStep::LookAgain => 3,
        BootstrapStep::Probe => 4,
        BootstrapStep::FindStarter => 5,
        BootstrapStep::MakeDirectory => 6,
        BootstrapStep::Look => 7,
        BootstrapStep::Link => 8,
    }
}

/// The first step.
pub fn try_bootstrap_service_ipc() -> (r: BootstrapStep)
    ensures
        r == BootstrapStep::Link,
{
    BootstrapStep::Link
}

fn tell_bootstrap(step: BootstrapStep, ok: bool, detail: &str) -> (r: Notes)
    ensures
        r@ == bootstrap_notes(step, ok, detail@),
{
    if step == BootstrapStep::Probe {
        let mut notes = Notes::one(text::cat2("service probe: ", detail));
        if ok {
            notes.add("requested start for clash-verge-service.service".to_owned());
        } else {
            notes.add(
                "service needs privilege. run once: sudo systemctl start clash-verge-service.service".to_owned(),
            );
        }
        assert(notes@ =~= bootstrap_notes(step, ok, detail@));
        notes
    } else if step == BootstrapStep::FindProgram && ok {
        Notes::one(
            text::cat2(
                "service binary detected but not started directly (needs root service): ",
                detail,
            ),
        )
    } else if step == BootstrapStep::AwaitStarted && !ok {
        Notes::say("service IPC not ready; fallback to user-mode core process")
    } else {
        Notes::none()
    }
}

pub fn bootstrap_next(step: BootstrapStep, ok: bool, detail: &str) -> (r: (BootstrapStep, Notes))
    ensures
        r.0 == bootstrap_after(step, ok),
        r.1@ == bootstrap_notes(step, ok, detail@),
        step is Done || bootstrap_rank(r.0) < bootstrap_rank(step),
{
    let next = match step {
        BootstrapStep::Done(ready) => BootstrapStep::Done(ready),
        BootstrapStep::Link => BootstrapStep::Look,
        BootstrapStep::Look => {
            if ok {
                BootstrapStep::Await
            } else {
                BootstrapStep::MakeDirectory
            }
        },
        BootstrapStep::Await => BootstrapStep::Done(ok),
        BootstrapStep::MakeDirectory => BootstrapStep::FindStarter,
        BootstrapStep::FindStarter => {
            if ok {
                BootstrapStep::Probe
            } else {
                BootstrapStep::LookAgain
            }
        },
        BootstrapStep::Probe => BootstrapStep::LookAgain,
        BootstrapStep::LookAgain => {
            if ok {
                BootstrapStep::AwaitStarted
            } else {
                BootstrapStep::FindProgram
            }
        },
        BootstrapStep::FindProgram => BootstrapStep::AwaitStarted,
        BootstrapStep::AwaitStarted => BootstrapStep::Done(ok),
    };
    (next, tell_bootstrap(step, ok, detail))
}

/// The service counts as ready only when it was waited for and answered.
pub proof fn law_service_ready_means_awaited(step: BootstrapStep, ok: bool)
    requires
        !(step is Done),
    ensures
        bootstrap_after(step, ok) == BootstrapStep::Done(true) ==> ok && (step is Await
            || step is AwaitStarted),
{
}

pub const SERVICE_WAIT_RETRIES: u8 = 6;

/// How long the service has been waited for.
#[derive(Debug)]
pub struct ServiceWait {
    pub tries: u8,
    pub last_error: Option<String>,
}

#[derive(Debug)]
pub enum ServiceReply {
    /// Its socket is missing.
    Absent,
    Ready,
    Failed(String),
}

#[derive(Debug, Clone, Copy, PartialEq, Eq, Structural)]
pub enum WaitVerdict {
    Ready,
    /// Pause, then try again.
    Again,
    /// Pause, then give up.
    GiveUp,
}

impl ServiceWait {
    pub fn new() -> (r: ServiceWait)
        ensures
            r.tries == 0,
            r.last_error is None,
    {
        ServiceWait { tries: 0, last_error: None }
    }

    /// Takes in what came of a try. The last error is remembered.
    pub fn wait_service_ipc_ready(&mut self, reply: ServiceReply) -> (r: (WaitVerdict, Notes))
        requires
            old(self).tries < SERVICE_WAIT_RETRIES,
        ensures
            final(self).tries == old(self).tries + 1,
            text::opt_text(final(self).last_error) == match reply {
                ServiceReply::Failed(err) => Some(err@),
                _ => text::opt_text(old(self).last_error),
            },
            r.0 == if reply is Ready {
                WaitVerdict::Ready
            } else if final(self).tries < SERVICE_WAIT_RETRIES {
                WaitVerdict::Again
            } else {
                WaitVerdict::GiveUp
            },
            r.1@ == if reply is Ready {
                seq!["clash-verge-service IPC is ready"@]
            } else {
                seq![]
            },
    {
        self.tries = self.tries + 1;
        match reply {
            ServiceReply::Ready => {
                return (
                    WaitVerdict::Ready,
                    Notes::say("clash-verge-service IPC is ready"),
                );
            },
            ServiceReply::Failed(err) => {
                self.last_error = Some(err);
            },
            ServiceReply::Absent => {},
        }
        if self.tries < SERVICE_WAIT_RETRIES {
            (WaitVerdict::Again, Notes::none())
        } else {
            (WaitVerdict::GiveUp, Notes::none())
        }
    }

    pub open spec fn spec_error(self) -> Seq<char> {
        match self.last_error {
            Some(err) => err@,
            None => "-"@,
        }
    }

    /// What is told when the service was waited for in vain.
    pub fn timeout_note(&self, platform: Platform, primary_exists: bool, legacy_exists: bool) -> (r:
        Notes)
        ensures
            r@ == if platform == Platform::Windows {
                seq!["service IPC wait timeout: last_err="@ + self.spec_error()]
            } else {
                seq![
                    "service IPC wait timeout: primary="@ + number::bool_text(primary_exists)
                        + ", legacy="@ + number::bool_text(legacy_exists) + ", last_err="@
                        + self.spec_error(),
                ]
            },
    {
        let err = match &self.last_error {
            Some(err) => err.as_str(),
            None => "-",
        };
        if platform == Platform::Windows {
            return Notes::one(text::cat2("service IPC wait timeout: last_err=", err));
        }
        let head = text::cat4(
            "service IPC wait timeout: primary=",
            number::bool_str(primary_exists),
            ", legacy=",
            number::bool_str(legacy_exists),
        );
        Notes::one(text::cat3(head.as_str(), ", last_err=", err))
    }
}

/// What the service is asked to start.
#[derive(Debug)]
pub struct ServiceRequest {
    pub core_path: String,
    pub core_ipc_path: String,
    pub config_path: String,
    pub config_dir: String,
    pub log_directory: String,
    pub max_log_size: u64,
    pub max_log_files: u64,
}

/// Where a core of our own writes its logs.
pub fn core_logs_dir(platform: Platform, config_home: &str) -> (r: String)
    ensures
        r@ == paths::joined(platform, config_home@, "logs"@),
{
    paths::join(platform, config_home, "logs")
}

pub fn service_request(
    platform: Platform,
    core: &str,
    config_home: &str,
    config: &str,
    socket: &str,
) -> (r: ServiceRequest)
    ensures
        r.core_path@ == core@,
        r.core_ipc_path@ == socket@,
        r.config_path@ == config@,
        r.config_dir@ == config_home@,
        r.log_directory@ == paths::joined(platform, config_home@, "logs"@),
        r.max_log_size == 8 * 1024 * 1024,
        r.max_log_files == 4,
{
    ServiceRequest {
        core_path: core.to_owned(),
        core_ipc_path: socket.to_owned(),
        config_path: config.to_owned(),
        config_dir: config_home.to_owned(),
        log_directory: core_logs_dir(platform, config_home),
        max_log_size: 8388608,
        max_log_files: 4,
    }
}

/// Whether the service has taken the request, by its code and its message, and what is told.
pub fn after_service_request(reply: Result<(i64, String), String>) -> (r: (bool, Notes))
    ensures
        r.0 == (reply is Ok && reply->Ok_0.0 <= 0),
        r.1@ == match reply {
            Ok((code, message)) => if code > 0 {
                seq!["service start core failed: "@ + message@]
            } else {
                seq!["core start requested via clash-verge-service"@]
            },
            Err(err) => seq!["service ipc unavailable: "@ + err@],
        },
{
    match reply {
        Ok((code, message)) => {
            if code > 0 {
                (
                    false,
                    Notes::one(text::cat2("service start core failed: ", message.as_str())),
                )
            } else {
                (true, Notes::say("core start requested via clash-verge-service"))
            }
        },
        Err(err) => (false, Notes::one(text::cat2("service ipc unavailable: ", err.as_str()))),
    }
}

/// The steps of having the service start a core.
#[derive(Debug, Clone, Copy, PartialEq, Eq, Structural)]
pub enum ServiceStep {
    /// Whether a core was started that answers.
    Done(bool),
    /// Is the service's socket there?
    Look,
    /// Ask the service.
    Request,
    /// Wait for the core.
    Await,
}

pub open spec fn service_after(step: ServiceStep, ok: bool) -> ServiceStep {
    match step {
        ServiceStep::Done(r) => ServiceStep::Done(r),
        ServiceStep::Look => if ok {
            ServiceStep::Request
        } else {
            ServiceStep::Done(false)
        },
        ServiceStep::Request => if ok {
            ServiceStep::Await
        } else {
            ServiceStep::Done(false)
        },
        ServiceStep::Await => ServiceStep::Done(ok),
    }
}

/// The first step.
pub fn try_start_managed_mihomo_by_service() -> (r: ServiceStep)
    ensures
        r == ServiceStep::Look,
{
    ServiceStep::Look
}

pub fn service_next(step: ServiceStep, ok: bool) -> (r: ServiceStep)
    ensures
        r == service_after(step, ok),
{
    match step {
        ServiceStep::Done(started) => ServiceStep::Done(started),
        ServiceStep::Look => {
            if ok {
                ServiceStep::Request
            } else {
                ServiceStep::Done(false)
            }
        },
        ServiceStep::Request => {
            if ok {
                ServiceStep::Await
            } else {
                ServiceStep::Done(false)
            }
        },
        ServiceStep::Await => ServiceStep::Done(ok),
    }
}

/// Who has started the core.
#[derive(Debug, Clone, Copy, PartialEq, Eq, Structural)]
pub enum Launcher {
    Service,
    Child,
}

/// Where a core that was started is reached: its socket, its address and its secret, and its log.
#[derive(Debug)]
pub struct LaunchTarget {
    pub socket: String,
    pub http: String,
    pub secret: String,
    pub log: String,
}

/// The steps of waiting for a core that was started.
#[derive(Debug, Clone, Copy, PartialEq, Eq, Structural)]
pub enum LaunchStep {
    /// Pause, then ask on the socket; so many times at most.
    Socket(u8),
    /// Ask over HTTP.
    Http,
    /// Read the end of the core's log.
    ReadLog,
    Done(bool),
}

pub open spec fn launch_tries(launcher: Launcher) -> u8 {
    match launcher {
        Launcher::Service => 35,
        Launcher::Child => 30,
    }
}

pub fn launch_begin(launcher: Launcher) -> (r: LaunchStep)
    ensures
        r == LaunchStep::Socket(launch_tries(launcher)),
{
    match launcher {
        Launcher::Service => LaunchStep::Socket(35),
        Launcher::Child => LaunchStep::Socket(30),
    }
}

/// Whether the child process is looked after at a step, before the core is asked.
pub fn launch_reaps(launcher: Launcher, step: LaunchStep) -> (r: bool)
    ensures
        r == (launcher == Launcher::Child && step is Socket),
{
    match step {
        LaunchStep::Socket(_) => launcher == Launcher::Child,
        _ => false,
    }
}

/// What came of asking a core that was started.
#[derive(Debug, Clone, Copy, PartialEq, Eq, Structural)]
pub enum LaunchReply {
    Answered,
    Silent,
    /// The child process has ended, and the core was not asked.
    Gone,
}

/// Whether `c` is the client that the core is asked with at a step.
pub open spec fn is_launch_client(step: LaunchStep, target: LaunchTarget, c: MihomoClient) -> bool {
    match step {
        LaunchStep::Socket(_) => {
            &&& text::trimmed(target.socket@).len() > 0
            &&& c.endpoint is LocalSocket
            &&& c.endpoint->socket_path@ == text::trimmed(target.socket@)
            &&& c.secret is None
        },
        LaunchStep::Http => client::connects(target.http@, target.secret@, c),
        _ => false,
    }
}

/// Whether there is a client to ask the core with at a step.
pub open spec fn can_ask(step: LaunchStep, target: LaunchTarget) -> bool {
    match step {
        LaunchStep::Socket(_) => text::trimmed(target.socket@).len() > 0,
        LaunchStep::Http => client::can_connect(target.http@, target.secret@),
        _ => false,
    }
}

/// The client that the core is asked with at a step.
pub fn launch_client(step: LaunchStep, target: &LaunchTarget) -> (r: Option<MihomoClient>)
    ensures
        match r {
            Some(c) => can_ask(step, *target) && is_launch_client(step, *target, c),
            None => !can_ask(step, *target),
        },
{
    let made = match step {
        LaunchStep::Socket(_) => MihomoClient::new_local_socket(target.socket.as_str()),
        LaunchStep::Http => MihomoClient::new(target.http.as_str(), Some(target.secret.as_str())),
        _ => {
            return None;
        },
    };
    match made {
        Ok(c) => Some(c),
        Err(_) => None,
    }
}

/// Whether the core has answered at a step.
pub open spec fn has_answered(step: LaunchStep, reply: LaunchReply, target: LaunchTarget) -> bool {
    reply == LaunchReply::Answered && can_ask(step, target)
}

/// The step after a step. A core that a child process runs, and that does not answer, is explained
/// by its log.
pub open spec fn launch_after(
    launcher: Launcher,
    step: LaunchStep,
    reply: LaunchReply,
    answered: bool,
) -> LaunchStep {
    match step {
        LaunchStep::Socket(left) => if answered {
            LaunchStep::Done(true)
        } else if reply == LaunchReply::Gone || left <= 1 {
            LaunchStep::Http
        } else {
            LaunchStep::Socket((left - 1) as u8)
        },
        LaunchStep::Http => if answered {
            LaunchStep::Done(true)
        } else {
            match launcher {
                Launcher::Service => LaunchStep::Done(false),
                Launcher::Child => LaunchStep::ReadLog,
            }
        },
        LaunchStep::ReadLog => LaunchStep::Done(false),
        LaunchStep::Done(r) => LaunchStep::Done(r),
    }
}

/// What is told at a step of waiting.
pub open spec fn launch_notes(
    launcher: Launcher,
    step: LaunchStep,
    answered: bool,
    target: LaunchTarget,
) -> Seq<Seq<char>> {
    match step {
        LaunchStep::Socket(_) => if answered {
            match launcher {
                Launcher::Service => seq![
                    "managed mihomo ready by service on socket: "@ + target.socket@,
                ],
                Launcher::Child => seq!["managed mihomo ready on socket: "@ + target.socket@],
            }
        } else {
            seq![]
        },
        LaunchStep::Http => if answered {
            match launcher {
                Launcher::Service => seq![
                    "managed mihomo ready by service on HTTP controller: "@ + target.http@,
                ],
                Launcher::Child => seq![
                    "managed mihomo ready on HTTP controller: "@ + target.http@,
                ],
            }
        } else {
            match launcher {
                Launcher::Service => seq![
                    "service launched core, but controller not ready in time (socket="@
                        + target.socket@ + ", http="@ + target.http@ + ")"@,
                ],
                Launcher::Child => seq![
                    "managed mihomo not ready (socket="@ + target.socket@ + ", http="@
                        + target.http@ + "); check "@ + target.log@,
                ],
            }
        },
        _ => seq![],
    }
}

pub open spec fn launch_rank(step: LaunchStep) -> nat {
    match step {
        LaunchStep::Done(_) => 0,
        LaunchStep::ReadLog => 1,
        LaunchStep::Http => 2,
        LaunchStep::Socket(left) => left as nat + 3,
    }
}

fn launch_success(launcher: Launcher, on_socket: bool, place: &str) -> (r: Notes)
    ensures
        r@ == match (launcher, on_socket) {
            (Launcher::Service, true) => seq![
                "managed mihomo ready by service on socket: "@ + place@,
            ],
            (Launcher::Child, true) => seq!["managed mihomo ready on socket: "@ + place@],
            (Launcher::Service, false) => seq![
                "managed mihomo ready by service on HTTP controller: "@ + place@,
            ],
            (Launcher::Child, false) => seq![
                "managed mihomo ready on HTTP controller: "@ + place@,
            ],
        },
{
    let head = match (launcher, on_socket) {
        (Launcher::Service, true) => "managed mihomo ready by service on socket: ",
        (Launcher::Child, true) => "managed mihomo ready on socket: ",
        (Launcher::Service, false) => "managed mihomo ready by service on HTTP controller: ",
        (Launcher::Child, false) => "managed mihomo ready on HTTP controller: ",
    };
    Notes::one(text::cat2(head, place))
}

fn tell_launch(launcher: Launcher, step: LaunchStep, answered: bool, target: &LaunchTarget) -> (r:
    Notes)
    ensures
        r@ == launch_notes(launcher, step, answered, *target),
{
    let socket = target.socket.as_str();
    let http = target.http.as_str();
    match step {
        LaunchStep::Socket(_) => {
            if answered {
                launch_success(launcher, true, socket)
            } else {
                Notes::none()
            }
        },
        LaunchStep::Http => {
            if answered {
                return launch_success(launcher, false, http);
            }
            match launcher {
                Launcher::Service => Notes::one(
                    text::cat5(
                        "service launched core, but controller not ready in time (socket=",
                        socket,
                        ", http=",
                        http,
                        ")",
                    ),
                ),
                Launcher::Child => {
                    let head = text::cat5(
                        "managed mihomo not ready (socket=",
                        socket,
                        ", http=",
                        http,
                        "); check ",
                    );
                    Notes::one(text::cat2(head.as_str(), target.log.as_str()))
                },
            }
        },
        _ => Notes::none(),
    }
}

/// What follows a step of waiting: the next step, whether the pid file is removed since the core is
/// the service's, and what is told.
pub struct LaunchNext {
    pub step: LaunchStep,
    pub forget_pid: bool,
    pub notes: Notes,
}

/// Takes in what came of asking a core that was started. The panel connects to the first endpoint
/// on which the core answers.
pub fn launch_next(
    mihomo: &mut MihomoClient,
    launcher: Launcher,
    step: LaunchStep,
    reply: LaunchReply,
    target: &LaunchTarget,
) -> (r: LaunchNext)
    ensures
        ({
            let answered = has_answered(step, reply, *target);
            &&& r.step == launch_after(launcher, step, reply, answered)
            &&& r.forget_pid == (answered && launcher == Launcher::Service)
            &&& r.notes@ == launch_notes(launcher, step, answered, *target)
            &&& if answered {
                is_launch_client(step, *target, *final(mihomo))
            } else {
                *final(mihomo) == *old(mihomo)
            }
        }),
        step is Done || launch_rank(r.step) < launch_rank(step),
{
    let mut answered = false;
    if reply == LaunchReply::Answered {
        if let Some(c) = launch_client(step, target) {
            *mihomo = c;
            answered = true;
        }
    }
    let notes = tell_launch(launcher, step, answered, target);
    let next = match step {
        LaunchStep::Socket(left) => {
            if answered {
                LaunchStep::Done(true)
            } else if reply == LaunchReply::Gone || left <= 1 {
                LaunchStep::Http
            } else {
                LaunchStep::Socket(left - 1)
            }
        },
        LaunchStep::Http => {
            if answered {
                LaunchStep::Done(true)
            } else {
                match launcher {
                    Launcher::Service => LaunchStep::Done(false),
                    Launcher::Child => LaunchStep::ReadLog,
                }
            }
        },
        LaunchStep::ReadLog => LaunchStep::Done(false),
        LaunchStep::Done(done) => LaunchStep::Done(done),
    };
    LaunchNext { step: next, forget_pid: answered && launcher == Launcher::Service, notes }
}

/// A core counts as started only when it has answered.
pub proof fn law_started_means_answered(
    launcher: Launcher,
    step: LaunchStep,
    reply: LaunchReply,
    target: LaunchTarget,
)
    requires
        !(step is Done),
    ensures
        ({
            let answered = has_answered(step, reply, target);
            let next = launch_after(launcher, step, reply, answered);
            &&& next == LaunchStep::Done(true) <==> answered
            &&& next == LaunchStep::Done(false) ==> step is Http || step is ReadLog
        }),
{
}

/// What a core of our own is started with as a child process.
pub fn child_arguments(config_home: &str, config: &str, socket: &str, platform: Platform) -> (r: Vec<
    String,
>)
    ensures
        text::texts(r@) == seq![
            "-d"@,
            config_home@,
            "-f"@,
            config@,
            if platform == Platform::Windows {
                "-ext-ctl-pipe"@
            } else {
                "-ext-ctl-unix"@
            },
            socket@,
        ],
{
    let mut r: Vec<String> = Vec::new();
    r.push("-d".to_owned());
    r.push(config_home.to_owned());
    r.push("-f".to_owned());
    r.push(config.to_owned());
    if platform == Platform::Windows {
        r.push("-ext-ctl-pipe".to_owned());
    } else {
        r.push("-ext-ctl-unix".to_owned());
    }
    r.push(socket.to_owned());
    assert(text::texts(r@) =~= seq![
        "-d"@,
        config_home@,
        "-f"@,
        config@,
        if platform == Platform::Windows {
            "-ext-ctl-pipe"@
        } else {
            "-ext-ctl-unix"@
        },
        socket@,
    ]);
    r
}

/// The log of a core that runs as a child process.
pub fn core_log_path(platform: Platform, config_home: &str) -> (r: String)
    ensures
        r@ == paths::joined(
            platform,
            paths::joined(platform, config_home@, "logs"@),
            "managed-core.log"@,
        ),
{
    paths::join(platform, core_logs_dir(platform, config_home).as_str(), "managed-core.log")
}

/// What is said when the child process cannot be started.
pub fn spawn_failure(core: &str, config_home: &str, config: &str) -> (r: String)
    ensures
        r@ == "spawn "@ + core@ + " failed (home "@ + config_home@ + ", config "@ + config@ + ")"@,
{
    let head = text::cat5("spawn ", core, " failed (home ", config_home, ", config ");
    text::cat3(head.as_str(), config, ")")
}

/// What is told of a child process that was started.
pub open spec fn spawn_notes(
    pid: Option<u32>,
    core: Seq<char>,
    config: Seq<char>,
    log: Seq<char>,
) -> Seq<Seq<char>> {
    let first = match pid {
        Some(p) => seq!["managed core pid: "@ + number::dec(p as nat)],
        None => seq![],
    };
    first.push("spawned managed mihomo: "@ + core + " (config: "@ + config + ")"@).push(
        "managed core log file: "@ + log,
    )
}

pub fn after_spawn(pid: Option<u32>, core: &str, config: &str, log: &str) -> (r: Notes)
    ensures
        r@ == spawn_notes(pid, core@, config@, log@),
{
    let mut notes = match pid {
        Some(p) => Notes::one(text::cat2("managed core pid: ", number::to_dec(p as u64).as_str())),
        None => Notes::none(),
    };
    notes.add(text::cat5("spawned managed mihomo: ", core, " (config: ", config, ")"));
    notes.add(text::cat2("managed core log file: ", log));
    notes
}

/// Lines of the core's log, as they are told.
pub open spec fn core_log_notes(lines: Seq<Seq<char>>) -> Seq<Seq<char>> {
    lines.map_values(|l: Seq<char>| "core-log> "@ + l)
}

pub fn tell_core_log(lines: &Vec<String>) -> (r: Notes)
    ensures
        r@ == core_log_notes(text::texts(lines@)),
{
    let ghost all = text::texts(lines@);
    let ghost wanted = core_log_notes(all);
    let mut notes = Notes::none();
    let mut i: usize = 0;
    assert(notes@ =~= wanted.take(0));
    while i < lines.len()
        invariant
            i <= lines@.len(),
            all == text::texts(lines@),
            wanted == core_log_notes(all),
            notes@ == wanted.take(i as int),
        decreases lines@.len() - i,
    {
        notes.add(text::cat2("core-log> ", lines[i].as_str()));
        assert(wanted[i as int] == "core-log> "@ + lines@[i as int]@);
        assert(wanted.take(i + 1) =~= wanted.take(i as int).push(wanted[i as int]));
        i = i + 1;
    }
    assert(wanted.take(i as int) =~= wanted);
    notes
}

} // verus!
