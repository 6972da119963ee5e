//! Leaving the panel: cleaning up, and what becomes of the core.

use crate::config::Platform;
use crate::config::VergeConfig;
use crate::notes::Notes;
use crate::number;
use crate::session::App;
use crate::text;
use vstd::prelude::*;

verus! {

/// The steps of cleaning up.
#[derive(Debug, Clone, Copy, PartialEq, Eq, Structural)]
pub enum CleanupStep {
    Done,
    /// Switch the tunnel off.
    TunOff,
    /// Switch the system's proxy off. The flag tells that the state has changed.
    ProxyOff(bool),
    /// Save the state.
    Save,
}

/// The first step of cleaning up, and what is told.
pub fn cleanup_before_exit(verge: &VergeConfig) -> (r: (CleanupStep, Notes))
    ensures
        r.0 == if !verge.auto_cleanup_on_exit {
            CleanupStep::Done
        } else if verge.enable_tun_mode {
            CleanupStep::TunOff
        } else {
            CleanupStep::ProxyOff(false)
        },
        r.1@ == if verge.auto_cleanup_on_exit {
            seq![]
        } else {
            seq!["exit cleanup disabled by config (set cleanup-on-exit on to enable)"@]
        },
{
    if !verge.auto_cleanup_on_exit {
        return (
            CleanupStep::Done,
            Notes::say("exit cleanup disabled by config (set cleanup-on-exit on to enable)"),
        );
    }
    if verge.enable_tun_mode {
        (CleanupStep::TunOff, Notes::none())
    } else {
        (CleanupStep::ProxyOff(false), Notes::none())
    }
}

/// The settings that the system's proxy is switched off with.
pub fn proxy_off(verge: &VergeConfig) -> (r: VergeConfig)
    ensures
        r == (VergeConfig { enable_system_proxy: false, ..*verge }),
{
    let mut off = verge.clone();
    off.enable_system_proxy = false;
    off
}

pub open spec fn cleanup_after(step: CleanupStep, ok: bool, verge: VergeConfig) -> CleanupStep {
    match step {
        CleanupStep::TunOff => CleanupStep::ProxyOff(ok),
        CleanupStep::ProxyOff(changed) => if changed || (ok && verge.enable_system_proxy) {
            CleanupStep::Save
        } else {
            CleanupStep::Done
        },
        _ => CleanupStep::Done,
    }
}

/// The settings after a step of cleaning up: what was switched off is off.
pub open spec fn cleaned(step: CleanupStep, ok: bool, verge: VergeConfig) -> VergeConfig {
    match step {
        CleanupStep::TunOff => if ok {
            VergeConfig { enable_tun_mode: false, ..verge }
        } else {
            verge
        },
        CleanupStep::ProxyOff(_) => if ok {
            VergeConfig { enable_system_proxy: false, ..verge }
        } else {
            verge
        },
        _ => verge,
    }
}

pub open spec fn cleanup_notes(
    step: CleanupStep,
    result: Result<(), Seq<char>>,
    platform: Platform,
) -> Seq<Seq<char>> {
    match (step, result) {
        (CleanupStep::TunOff, Ok(_)) => seq!["exit cleanup: tun disabled"@],
        (CleanupStep::TunOff, Err(err)) => if platform == Platform::Linux {
            seq![
                "exit cleanup: disable tun failed: "@ + err,
                "hint: run scripts/proxy-clean-linux.sh --yes if routes/rules remain"@,
            ]
        } else {
            seq!["exit cleanup: disable tun failed: "@ + err]
        },
        (CleanupStep::ProxyOff(_), Ok(_)) => seq!["exit cleanup: system proxy disabled"@],
        (CleanupStep::ProxyOff(_), Err(err)) => seq![
            "exit cleanup: clear system proxy failed: "@ + err,
        ],
        (CleanupStep::Save, Err(err)) => seq!["exit cleanup: save state failed: "@ + err],
        _ => seq![],
    }
}

pub fn cleanup_next(
    step: CleanupStep,
    verge: &mut VergeConfig,
    result: Result<(), String>,
    platform: Platform,
) -> (r: (CleanupStep, Notes))
    ensures
        r.0 == cleanup_after(step, result is Ok, *old(verge)),
        *final(verge) == cleaned(step, result is Ok, *old(verge)),
        r.1@ == cleanup_notes(step, crate::run::plain_result(result), platform),
{
    match (step, result) {
        (CleanupStep::TunOff, Ok(_)) => {
            verge.enable_tun_mode = false;
            (CleanupStep::ProxyOff(true), Notes::say("exit cleanup: tun disabled"))
        },
        (CleanupStep::TunOff, Err(err)) => {
            let line = text::cat2("exit cleanup: disable tun failed: ", err.as_str());
            let mut notes = Notes::one(line);
            if platform == Platform::Linux {
                notes.add(
                    "hint: run scripts/proxy-clean-linux.sh --yes if routes/rules remain".to_owned(),
                );
                assert(notes@ =~= seq![
                    "exit cleanup: disable tun failed: "@ + err@,
                    "hint: run scripts/proxy-clean-linux.sh --yes if routes/rules remain"@,
                ]);
            }
            (CleanupStep::ProxyOff(false), notes)
        },
        (CleanupStep::ProxyOff(changed), Ok(_)) => {
            let was_on = verge.enable_system_proxy;
            verge.enable_system_proxy = false;
            let notes = Notes::say("exit cleanup: system proxy disabled");
            if changed || was_on {
                (CleanupStep::Save, notes)
            } else {
                (CleanupStep::Done, notes)
            }
        },
        (CleanupStep::ProxyOff(changed), Err(err)) => {
            let notes = Notes::one(
                text::cat2("exit cleanup: clear system proxy failed: ", err.as_str()),
            );
            if changed {
                (CleanupStep::Save, notes)
            } else {
                (CleanupStep::Done, notes)
            }
        },
        (CleanupStep::Save, Err(err)) => (
            CleanupStep::Done,
            Notes::one(text::cat2("exit cleanup: save state failed: ", err.as_str())),
        ),
        _ => (CleanupStep::Done, Notes::none()),
    }
}

/// A clean-up where everything goes well leaves both the tunnel and the system's proxy off.
pub proof fn law_cleanup_turns_off(verge: VergeConfig)
    requires
        verge.auto_cleanup_on_exit,
    ensures
        ({
            let tun = if verge.enable_tun_mode {
                cleaned(CleanupStep::TunOff, true, verge)
            } else {
                verge
            };
            let end = cleaned(CleanupStep::ProxyOff(verge.enable_tun_mode), true, tun);
            &&& !end.enable_tun_mode
            &&& !end.enable_system_proxy
            &&& cleanup_after(CleanupStep::ProxyOff(verge.enable_tun_mode), true, tun)
                == CleanupStep::Save <==> end != verge
        }),
{
}

/// The steps of leaving.
#[derive(Debug, Clone, Copy, PartialEq, Eq, Structural)]
pub enum ShutdownStep {
    /// Leave the core running.
    Leave,
    /// Clean up, then stop the core.
    CleanThenStop,
}

/// What happens to the core when the panel is left.
pub fn shutdown(app: &App) -> (r: ShutdownStep)
    ensures
        r == if app.screen.keeps_backend(
            app.verge().backend_exit_policy,
            app.verge().keep_core_on_exit,
        ) {
            ShutdownStep::Leave
        } else {
            ShutdownStep::CleanThenStop
        },
{
    if app.effective_keep_core_on_exit() {
        ShutdownStep::Leave
    } else {
        ShutdownStep::CleanThenStop
    }
}

/// What is told when the panel is left: before the core is stopped, or as it is left running, where
/// `pid` is that of the child process, if there is one.
pub fn shutdown_notes(step: ShutdownStep, child: Option<u32>) -> (r: Notes)
    ensures
        r@ == match step {
            ShutdownStep::CleanThenStop => seq!["exit: stopping backend"@],
            ShutdownStep::Leave => match child {
                Some(pid) => seq![
                    "exit: keeping backend running"@,
                    "leaving managed core running in background (pid="@ + number::dec(pid as nat)
                        + ")"@,
                ],
                None => seq!["exit: keeping backend running"@],
            },
        },
{
    match step {
        ShutdownStep::CleanThenStop => Notes::say("exit: stopping backend"),
        ShutdownStep::Leave => {
            let mut notes = Notes::say("exit: keeping backend running");
            if let Some(pid) = child {
                notes.add(
                    text::cat3(
                        "leaving managed core running in background (pid=",
                        number::to_dec(pid as u64).as_str(),
                        ")",
                    ),
                );
                assert(notes@ =~= seq![
                    "exit: keeping backend running"@,
                    "leaving managed core running in background (pid="@ + number::dec(pid as nat)
                        + ")"@,
                ]);
            }
            notes
        },
    }
}

/// How the core is stopped.
#[derive(Debug, Clone, Copy, PartialEq, Eq, Structural)]
pub enum StopStep {
    Done,
    /// End the child process.
    Kill,
    /// End the process with this pid.
    Terminate(u32),
}

/// How the core is stopped: as a child, or else by the pid that was kept. `child` is the pid of the
/// child process, 0 where it has none.
pub fn stop_managed_core_backend(child: Option<u32>, kept: Option<u32>) -> (r: (StopStep, Notes))
    ensures
        r.0 == match (child, kept) {
            (Some(_), _) => StopStep::Kill,
            (None, Some(pid)) => StopStep::Terminate(pid),
            (None, None) => StopStep::Done,
        },
        r.1@ == match (child, kept) {
            (Some(pid), _) => seq![
                "stopping managed core child (pid="@ + number::dec(pid as nat) + ")"@,
            ],
            (None, Some(_)) => seq![],
            (None, None) => seq!["managed core stop: no child handle and no pid file"@],
        },
{
    match (child, kept) {
        (Some(pid), _) => (
            StopStep::Kill,
            Notes::one(
                text::cat3(
                    "stopping managed core child (pid=",
                    number::to_dec(pid as u64).as_str(),
                    ")",
                ),
            ),
        ),
        (None, Some(pid)) => (StopStep::Terminate(pid), Notes::none()),
        (None, None) => (
            StopStep::Done,
            Notes::say("managed core stop: no child handle and no pid file"),
        ),
    }
}

/// What is told of a process that was to be ended; the pid file goes only where it was.
pub fn after_terminate(pid: u32, ended: bool) -> (r: (bool, Notes))
    ensures
        r.0 == ended,
        r.1@ == if ended {
            seq!["sent terminate signal to managed core pid="@ + number::dec(pid as nat)]
        } else {
            seq![
                "failed to terminate pid="@ + number::dec(pid as nat) + " (or already exited)"@,
            ]
        },
{
    let id = number::to_dec(pid as u64);
    if ended {
        (
            true,
            Notes::one(
                text::cat2("sent terminate signal to managed core pid=", id.as_str()),
            ),
        )
    } else {
        (
            false,
            Notes::one(
                text::cat3("failed to terminate pid=", id.as_str(), " (or already exited)"),
            ),
        )
    }
}

} // verus!
