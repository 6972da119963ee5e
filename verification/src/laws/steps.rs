//! What follows what: the outcomes of work outside, and the order of the steps.

use crate::apply;
use crate::apply::ActivateStep;
use crate::config::{Platform, VergeConfig};
use crate::health;
use crate::health::ReadyStep;
use crate::launch;
use crate::launch::{BootstrapStep, LaunchReply, LaunchStep, Launcher, ServiceStep, StartStep};
use crate::leave;
use crate::leave::CleanupStep;
use crate::number;
use crate::process;
use crate::process::TerminateStep;
use crate::run;
use crate::run::{NextModel, Operation, ProxyPurpose, ReconnectStep, Saved, Step};
use crate::subscription::FetchMode;
use crate::tick;
use crate::tick::TickStep;
use crate::update;
use crate::update::{ImportStep, UpdateStep};
use vstd::prelude::*;

verus! {

/// How a yes or a no is written.
pub open spec fn yes_word(yes: bool) -> Seq<char> {
    if yes {
        "true"@
    } else {
        "false"@
    }
}

/// Where the state cannot be saved, the command ends with the error. Else what was to be said is
/// said, the next update is set, the panel connects anew, or the system's proxy, where it is on,
/// follows.
pub proof fn law_after_save(verge: VergeConfig, line: Seq<char>, what: Seq<char>, err: Seq<char>)
    ensures
        forall|saved: Saved<Seq<char>>|
            #[trigger] run::after_saving(saved, verge, Err(err)) == (NextModel {
                notes: seq![],
                step: Step::Fail(err),
            }),
        run::after_saving(Saved::Say(line), verge, Ok(())) == (NextModel {
            notes: seq![line],
            step: Step::Done,
        }),
        run::after_saving(Saved::Schedule(what), verge, Ok(())) == (NextModel {
            notes: seq![],
            step: Step::Do(Operation::Schedule(what)),
        }),
        run::after_saving(Saved::Reconnect(line), verge, Ok(())) == (NextModel {
            notes: seq![],
            step: Step::Reconnect(line),
        }),
        run::after_saving(Saved::Reapply(line, what), verge, Ok(())) == (NextModel {
            notes: seq![line],
            step: if verge.enable_system_proxy {
                Step::SetProxy(ProxyPurpose::Again(what))
            } else {
                Step::Done
            },
        }),
{
}

/// A switch of the system's proxy that went well is saved and told. One that failed is told, and
/// the settings go back to what they were, where that is remembered; nothing is saved.
pub proof fn law_after_proxy(
    verge: VergeConfig,
    original: Option<bool>,
    what: Seq<char>,
    err: Seq<char>,
)
    ensures
        run::after_setting_proxy(ProxyPurpose::Switch(original), verge, Ok(())) == (NextModel {
            notes: seq![],
            step: Step::Save(
                Saved::Say("system proxy applied => "@ + yes_word(verge.enable_system_proxy)),
            ),
        }),
        run::after_setting_proxy(ProxyPurpose::Switch(original), verge, Err(err)) == (NextModel {
            notes: seq!["apply system proxy failed: "@ + err],
            step: Step::Done,
        }),
        run::after_setting_proxy(ProxyPurpose::Again(what), verge, Ok(())) == (NextModel {
            notes: seq!["system proxy re-applied with new "@ + what],
            step: Step::Done,
        }),
        run::after_setting_proxy(ProxyPurpose::Again(what), verge, Err(err)) == (NextModel {
            notes: seq!["re-apply system proxy failed: "@ + err],
            step: Step::Done,
        }),
        original is Some ==> run::proxy_reverted(verge, ProxyPurpose::Switch(original)) == (
        VergeConfig { enable_system_proxy: original->0, ..verge }),
        original is None ==> run::proxy_reverted(verge, ProxyPurpose::Switch(original)) == verge,
        run::proxy_reverted(verge, ProxyPurpose::Again(what)) == verge,
{
}

/// A switch of the tunnel that went well is saved and told; one that failed is told.
pub proof fn law_after_tun(verge: VergeConfig, err: Seq<char>)
    ensures
        run::after_setting_tun(verge, Ok(())) == (NextModel {
            notes: seq![],
            step: Step::Save(Saved::Say("tun applied => "@ + yes_word(verge.enable_tun_mode))),
        }),
        run::after_setting_tun(verge, Err(err)) == (NextModel {
            notes: seq!["apply tun failed: "@ + err],
            step: Step::Done,
        }),
{
}

/// Once a group has another node, the proxies are asked for; where it could not, only the error is
/// told.
pub proof fn law_after_switch(group: Seq<char>, node: Seq<char>, err: Seq<char>)
    ensures
        run::after_choosing(group, node, false, Ok(())) == (NextModel {
            notes: seq!["switched: "@ + group + " -> "@ + node],
            step: Step::Do(Operation::RefreshProxies),
        }),
        run::after_choosing(group, node, true, Ok(())) == (NextModel {
            notes: seq!["switched by cursor: "@ + group + " -> "@ + node],
            step: Step::Do(Operation::RefreshProxies),
        }),
        forall|by_cursor: bool| #[trigger]
            run::after_choosing(group, node, by_cursor, Err(err)) == (NextModel {
                notes: seq!["switch failed: "@ + err],
                step: Step::Done,
            }),
{
}

/// A delay test tells the node and its delay, or why there is none.
pub proof fn law_delay_is_told(node: Seq<char>, url: Seq<char>, ms: u64, err: Seq<char>)
    ensures
        run::delay_note(node, url, false, Ok(ms)) == "delay "@ + node + ": "@ + number::dec(
            ms as nat,
        ) + " ms"@,
        run::delay_note(node, url, true, Ok(ms)) == "delay "@ + node + ": "@ + number::dec(
            ms as nat,
        ) + " ms"@ + " ("@ + url + ")"@,
        run::delay_note(node, url, false, Err(err)) == "delay failed: "@ + err,
        run::delay_note(node, url, true, Err(err)) == "delay failed for "@ + node + ": "@ + err,
{
}

/// A new connection: where a core answers, it gets the current profile and then its streams are
/// read; where none answers, neither is done.
pub proof fn law_reconnect_order(a: bool, b: bool)
    ensures
        run::reconnect_after(ReconnectStep::Ready, true) == ReconnectStep::Apply,
        run::reconnect_after(ReconnectStep::Ready, false) == ReconnectStep::Done,
        run::reconnect_after(run::reconnect_after(ReconnectStep::Ready, true), a)
            == ReconnectStep::Streams,
        run::reconnect_after(ReconnectStep::Streams, b) == ReconnectStep::Done,
        run::reconnect_after(ReconnectStep::Done, b) == ReconnectStep::Done,
{
}

/// The first tick: where a core answers, it gets the current profile, is asked for its proxies, its
/// streams are read, and the tunnel is switched on where it is to be on. Where none answers, all of
/// that is left out.
pub proof fn law_boot_order(tun: bool, tick: u64, failures: u8, ok: bool, boot: bool)
    ensures
        tick::tick_after(TickStep::Reap, ok, true, tun, tick, failures) == TickStep::Boot,
        tick::tick_after(TickStep::Reap, ok, false, tun, tick, failures) == TickStep::AutoUpdate,
        tick::tick_after(TickStep::Boot, true, boot, tun, tick, failures) == TickStep::BootApply,
        tick::tick_after(TickStep::Boot, false, boot, tun, tick, failures) == TickStep::AutoUpdate,
        tick::tick_after(TickStep::BootApply, ok, boot, tun, tick, failures)
            == TickStep::BootRefresh,
        tick::tick_after(TickStep::BootRefresh, ok, boot, tun, tick, failures)
            == TickStep::BootStreams,
        tick::tick_after(TickStep::BootStreams, ok, boot, true, tick, failures)
            == TickStep::BootTun,
        tick::tick_after(TickStep::BootStreams, ok, boot, false, tick, failures)
            == TickStep::AutoUpdate,
        tick::tick_after(TickStep::BootTun, ok, boot, tun, tick, failures) == TickStep::AutoUpdate,
{
}

/// Every tick updates by the clock, takes in what was sent, asks for the proxies after a delay test
/// has ended, and records what flows. On every twenty-fifth the core is asked whether it answers;
/// the second failure in a row leads to a recovery, and that, where it goes well, to the streams
/// and the proxies.
pub proof fn law_tick_order(tun: bool, tick: u64, failures: u8, ok: bool, boot: bool)
    ensures
        tick::tick_after(TickStep::AutoUpdate, ok, boot, tun, tick, failures) == TickStep::Receive,
        tick::tick_after(TickStep::Receive, true, boot, tun, tick, failures)
            == TickStep::RefreshTested,
        tick::tick_after(TickStep::Receive, false, boot, tun, tick, failures) == TickStep::Sample,
        tick::tick_after(TickStep::RefreshTested, ok, boot, tun, tick, failures)
            == TickStep::Sample,
        tick::tick_after(TickStep::Sample, ok, boot, tun, tick, failures) == TickStep::Probe
            <==> tick % 25 == 0,
        tick % 25 != 0 ==> tick::tick_after(TickStep::Sample, ok, boot, tun, tick, failures)
            == TickStep::Done,
        tick::tick_after(TickStep::Probe, false, boot, tun, tick, 0) == TickStep::Done,
        failures >= 1 ==> tick::tick_after(TickStep::Probe, false, boot, tun, tick, failures)
            == TickStep::Recover,
        tick::tick_after(TickStep::Probe, true, boot, tun, tick, failures) == TickStep::Done,
        tick::tick_after(TickStep::Recover, true, boot, tun, tick, failures)
            == TickStep::RecoverStreams,
        tick::tick_after(TickStep::Recover, false, boot, tun, tick, failures) == TickStep::Done,
        tick::tick_after(TickStep::RecoverStreams, ok, boot, tun, tick, failures)
            == TickStep::RecoverRefresh,
        tick::tick_after(TickStep::RecoverRefresh, ok, boot, tun, tick, failures) == TickStep::Done,
        tick::failures_after(failures, true) == 0,
        failures < 255 ==> tick::failures_after(failures, false) == failures + 1,
        failures == 255 ==> tick::failures_after(failures, false) == 255,
{
}

/// A tick tells that no core answers at the start, that the tunnel could not be switched on, and
/// that a recovery is tried; and nothing else.
pub proof fn law_tick_tells(step: TickStep, failures: u8, err: Seq<char>)
    ensures
        tick::tick_notes(TickStep::Boot, Ok(false), failures) == seq![
            "mihomo api unavailable; skip proxy/traffic initialization"@,
        ],
        tick::tick_notes(TickStep::Boot, Ok(true), failures).len() == 0,
        tick::tick_notes(TickStep::BootTun, Err(err), failures) == seq![
            "apply tun on boot failed: "@ + err,
        ],
        tick::tick_notes(TickStep::BootTun, Ok(true), failures).len() == 0,
        tick::tick_notes(TickStep::Probe, Ok(true), failures).len() == 0,
        tick::tick_notes(TickStep::Probe, Ok(false), failures) == if failures >= 1 {
            seq!["mihomo health degraded, trying recovery"@]
        } else {
            seq![]
        },
        step != TickStep::Boot && step != TickStep::BootTun && step != TickStep::Probe
            ==> forall|result: Result<bool, Seq<char>>| #[trigger]
            tick::tick_notes(step, result, failures).len() == 0,
{
}

/// The next update is due after as many minutes as are set, and never where none are.
pub proof fn law_update_interval(minutes: u64, reason: Seq<char>, left: u64)
    ensures
        tick::update_delay(0) is None,
        0 < minutes <= 307445734561825860 ==> tick::update_delay(minutes) == Some(
            (60 * minutes) as u64,
        ),
        minutes > 307445734561825860 ==> tick::update_delay(minutes) == Some(u64::MAX),
        tick::schedule_note(0, reason) == "auto subscription update disabled ("@ + reason + ")"@,
        minutes > 0 ==> tick::schedule_note(minutes, reason)
            == "auto subscription update scheduled every "@ + number::dec(minutes as nat)
            + " min ("@ + reason + ")"@,
        tick::status_line(0, Some(left)) == "autosub: disabled"@,
        minutes > 0 ==> tick::status_line(minutes, Some(left)) == "autosub: every "@ + number::dec(
            minutes as nat,
        ) + " min, next in "@ + number::dec(left as nat) + "s"@,
{
}

/// A subscription is asked for directly, then through the core of our own, then through the
/// system's proxy, until one of these goes well.
pub proof fn law_fetch_order()
    ensures
        update::after_fetching(FetchMode::Direct, false) == UpdateStep::Fetch(FetchMode::SelfProxy),
        update::after_fetching(FetchMode::SelfProxy, false) == UpdateStep::Fetch(
            FetchMode::SystemProxy,
        ),
        update::after_fetching(FetchMode::SystemProxy, false) == UpdateStep::Done(false),
        forall|mode: FetchMode| #[trigger]
            update::after_fetching(mode, true) == UpdateStep::Updated,
        update::import_after(FetchMode::Direct, false) == ImportStep::Fetch(FetchMode::SelfProxy),
        update::import_after(FetchMode::SelfProxy, false) == ImportStep::Fetch(
            FetchMode::SystemProxy,
        ),
        update::import_after(FetchMode::SystemProxy, false) == ImportStep::Done,
        forall|mode: FetchMode| #[trigger]
            update::import_after(mode, true) == ImportStep::Activate,
{
}

/// How a mode is called.
pub open spec fn mode_word(mode: FetchMode) -> Seq<char> {
    match mode {
        FetchMode::Direct => "direct"@,
        FetchMode::SelfProxy => "self_proxy"@,
        FetchMode::SystemProxy => "system_proxy"@,
    }
}

/// Every fetch is told with its mode; after the last failure it is told that all have failed.
pub proof fn law_fetch_is_told(
    mode: FetchMode,
    name: Seq<char>,
    uid: Seq<char>,
    updated: Seq<char>,
    err: Seq<char>,
)
    ensures
        mode.spec_label() == mode_word(mode),
        update::fetch_notes(mode, name, uid, Ok(updated)) == seq![
            "subscription updated: "@ + updated + " ("@ + uid + ") via "@ + mode_word(mode),
        ],
        update::import_notes(mode, Ok((name, uid))) == seq![
            "imported profile: "@ + name + " ("@ + uid + ") via "@ + mode_word(mode),
        ],
        update::fetch_notes(mode, name, uid, Err(err))[0] == "update "@ + name + " ("@ + uid
            + ") via "@ + mode_word(mode) + " failed: "@ + err,
        update::import_notes(mode, Err(err))[0] == "import ("@ + mode_word(mode) + ") failed: "@
            + err,
        mode != FetchMode::SystemProxy ==> update::fetch_notes(mode, name, uid, Err(err)).len() == 1
            && update::import_notes(mode, Err(err)).len() == 1,
        mode == FetchMode::SystemProxy ==> update::fetch_notes(mode, name, uid, Err(err)).len() == 2
            && update::fetch_notes(mode, name, uid, Err(err))[1] == "subscription update failed: "@
            + name + " ("@ + uid + ")"@ && update::import_notes(mode, Err(err)).len() == 2
            && update::import_notes(mode, Err(err))[1] == "import failed after retries"@,
{
}

/// Every answer is counted, the good ones as good.
pub proof fn law_answers_are_counted(answers: Seq<bool>)
    ensures
        update::yes_count(answers) == answers.filter(|yes: bool| yes).len(),
        update::yes_count(answers) <= answers.len(),
    decreases answers.len(),
{
    reveal(Seq::filter);
    if answers.len() > 0 {
        law_answers_are_counted(answers.drop_last());
    }
}

/// A profile becomes the current one step by step, each only where the one before went well: it is
/// saved, a core is asked for, it gets the profile, and is asked for its proxies.
pub proof fn law_activation_order(name: Seq<char>, err: Seq<char>, ok: bool)
    ensures
        apply::activate_after(ActivateStep::Save, true) == ActivateStep::Probe,
        apply::activate_after(ActivateStep::Probe, true) == ActivateStep::Apply,
        apply::activate_after(ActivateStep::Apply, true) == ActivateStep::Refresh,
        apply::activate_after(ActivateStep::Refresh, ok) == ActivateStep::Done,
        forall|step: ActivateStep| #[trigger]
            apply::activate_after(step, false) == ActivateStep::Done,
        apply::activate_notes(ActivateStep::Save, name, Ok(())) == seq![
            "current profile => "@ + name,
        ],
        apply::activate_notes(ActivateStep::Save, name, Err(err)) == seq![
            "save current profile failed: "@ + err,
        ],
        apply::activate_notes(ActivateStep::Probe, name, Err(err)) == seq![
            "mihomo api unavailable, profile only switched in local state"@,
        ],
        apply::activate_notes(ActivateStep::Probe, name, Ok(())).len() == 0,
        apply::activate_notes(ActivateStep::Apply, name, Ok(())) == seq![
            "profile config applied to mihomo"@,
        ],
        apply::activate_notes(ActivateStep::Apply, name, Err(err)) == seq![
            "apply profile to mihomo failed: "@ + err,
        ],
{
}

/// A core that refuses a path says so in one of two ways; no other error is taken for that.
pub proof fn law_path_refusal(before: Seq<char>, after: Seq<char>, error: Seq<char>)
    ensures
        apply::is_path_refusal(before + "SAFE_PATHS"@ + after),
        apply::is_path_refusal(before + "path is not subpath of home directory"@ + after),
        apply::is_path_refusal(error) ==> exists|a: Seq<char>, b: Seq<char>|
            error == #[trigger] (a + "SAFE_PATHS"@ + b) || error == a
                + "path is not subpath of home directory"@ + b,
{
    lemma_text_within(before, "SAFE_PATHS"@, after);
    lemma_text_within(before, "path is not subpath of home directory"@, after);
    if apply::is_path_refusal(error) {
        if crate::text::has_text(error, "SAFE_PATHS"@) {
            lemma_text_splits(error, "SAFE_PATHS"@);
        } else {
            lemma_text_splits(error, "path is not subpath of home directory"@);
            let (a, b) = choose|a: Seq<char>, b: Seq<char>|
                error == #[trigger] (a + "path is not subpath of home directory"@ + b);
            let other = a + "SAFE_PATHS"@ + b;
        }
    }
}

/// A text occurs where it was put.
pub proof fn lemma_text_within(before: Seq<char>, middle: Seq<char>, after: Seq<char>)
    ensures
        crate::text::has_text(before + middle + after, middle),
{
    let s = before + middle + after;
    assert(s.subrange(before.len() as int, (before.len() + middle.len()) as int) =~= middle);
    assert(crate::text::stands_at(s, middle, before.len() as int));
}

/// A text that holds another is that one with something before and behind it.
pub proof fn lemma_text_splits(s: Seq<char>, p: Seq<char>)
    requires
        crate::text::has_text(s, p),
    ensures
        exists|a: Seq<char>, b: Seq<char>| s == #[trigger] (a + p + b),
{
    let i = choose|i: int| crate::text::stands_at(s, p, i);
    let a = s.take(i);
    let b = s.skip(i + p.len());
    assert(s =~= a + s.subrange(i, i + p.len()) + b);
    assert(s == a + p + b);
}

/// Cleaning up switches the tunnel off and then the system's proxy, each where that goes well, and
/// saves the state exactly where it has changed.
pub proof fn law_cleanup(verge: VergeConfig, tun_ok: bool, proxy_ok: bool)
    requires
        verge.enable_tun_mode,
    ensures
        ({
            let second = leave::cleanup_after(CleanupStep::TunOff, tun_ok, verge);
            let between = leave::cleaned(CleanupStep::TunOff, tun_ok, verge);
            let third = leave::cleanup_after(second, proxy_ok, between);
            let after = leave::cleaned(second, proxy_ok, between);
            &&& second is ProxyOff
            &&& after == (VergeConfig {
                enable_tun_mode: !tun_ok,
                enable_system_proxy: verge.enable_system_proxy && !proxy_ok,
                ..verge
            })
            &&& third == if after == verge {
                CleanupStep::Done
            } else {
                CleanupStep::Save
            }
        }),
        leave::cleanup_after(CleanupStep::Save, tun_ok, verge) == CleanupStep::Done,
        leave::cleaned(CleanupStep::Save, tun_ok, verge) == verge,
{
}

/// Where the tunnel is off, only the system's proxy is switched off.
pub proof fn law_cleanup_without_tun(verge: VergeConfig, ok: bool)
    ensures
        ({
            let first = CleanupStep::ProxyOff(false);
            let after = leave::cleaned(first, ok, verge);
            &&& after == (VergeConfig {
                enable_system_proxy: verge.enable_system_proxy && !ok,
                ..verge
            })
            &&& leave::cleanup_after(first, ok, verge) == if after == verge {
                CleanupStep::Done
            } else {
                CleanupStep::Save
            }
        }),
{
}

/// What cleaning up tells.
pub proof fn law_cleanup_tells(err: Seq<char>, changed: bool, platform: Platform)
    ensures
        leave::cleanup_notes(CleanupStep::TunOff, Ok(()), platform) == seq![
            "exit cleanup: tun disabled"@,
        ],
        leave::cleanup_notes(CleanupStep::TunOff, Err(err), platform)[0]
            == "exit cleanup: disable tun failed: "@ + err,
        leave::cleanup_notes(CleanupStep::TunOff, Err(err), platform).len() == if platform
            == Platform::Linux {
            2int
        } else {
            1int
        },
        leave::cleanup_notes(CleanupStep::ProxyOff(changed), Ok(()), platform) == seq![
            "exit cleanup: system proxy disabled"@,
        ],
        leave::cleanup_notes(CleanupStep::ProxyOff(changed), Err(err), platform) == seq![
            "exit cleanup: clear system proxy failed: "@ + err,
        ],
        leave::cleanup_notes(CleanupStep::Save, Err(err), platform) == seq![
            "exit cleanup: save state failed: "@ + err,
        ],
        leave::cleanup_notes(CleanupStep::Save, Ok(()), platform).len() == 0,
{
}

/// The search for a core: a socket on which one answers, then the one that is connected, then one
/// of our own, then the controller of another program. The connected one is left out where the
/// panel wants a core of its own and is not on a socket, and the controller of another program
/// wherever the panel wants a core of its own.
pub proof fn law_search_order(ok: bool, independent: bool, local: bool)
    ensures
        health::ready_after(ReadyStep::AdoptSocket, true, independent, local)
            == ReadyStep::CheckAdopted,
        health::ready_after(ReadyStep::AdoptSocket, false, true, false) == ReadyStep::Start,
        health::ready_after(ReadyStep::AdoptSocket, false, true, true) == ReadyStep::CheckConnected,
        health::ready_after(ReadyStep::AdoptSocket, false, false, local)
            == ReadyStep::CheckConnected,
        health::ready_after(ReadyStep::CheckAdopted, ok, independent, local) == ReadyStep::Done(ok),
        health::ready_after(ReadyStep::CheckConnected, true, independent, local)
            == ReadyStep::Done(true),
        health::ready_after(ReadyStep::CheckConnected, false, independent, local)
            == ReadyStep::Start,
        health::ready_after(ReadyStep::Start, true, independent, local) == ReadyStep::CheckStarted,
        health::ready_after(ReadyStep::Start, false, true, local) == ReadyStep::CheckStarted,
        health::ready_after(ReadyStep::Start, false, false, local) == ReadyStep::AdoptInstead,
        health::ready_after(ReadyStep::AdoptInstead, ok, independent, local)
            == ReadyStep::CheckStarted,
        health::ready_after(ReadyStep::CheckStarted, true, independent, local)
            == ReadyStep::Done(true),
        health::ready_after(ReadyStep::CheckStarted, false, true, local) == ReadyStep::Done(false),
        health::ready_after(ReadyStep::CheckStarted, false, false, local)
            == ReadyStep::AdoptController,
        health::ready_after(ReadyStep::AdoptController, ok, independent, local)
            == ReadyStep::CheckController,
        health::ready_after(ReadyStep::CheckController, ok, independent, local)
            == ReadyStep::Done(ok),
{
}

/// What the search for a core tells.
pub proof fn law_search_tells(
    independent: bool,
    local: bool,
    err: Seq<char>,
    v: Seq<char>,
    at: Seq<char>,
)
    ensures
        health::ready_notes(ReadyStep::AdoptSocket, Ok(false), true, false) == seq![
            "independent mode enabled: skip adopting external HTTP controller"@,
        ],
        health::ready_notes(ReadyStep::AdoptSocket, Ok(true), independent, local).len() == 0,
        health::ready_notes(ReadyStep::AdoptSocket, Ok(false), false, local).len() == 0,
        health::ready_notes(ReadyStep::AdoptSocket, Ok(false), independent, true).len() == 0,
        health::ready_notes(ReadyStep::Start, Err(err), independent, local) == seq![
            "start managed mihomo failed: "@ + err,
        ],
        health::health_note(at, Ok(v)) == "mihomo controller online ("@ + at + "): "@ + v,
        health::health_note(at, Err(err)) == "mihomo controller unreachable ("@ + at + "): "@ + err
            + ". check core process, external-controller, secret, or local socket path"@,
{
}

/// Starting a core: its program is looked for, its configuration is made, and it is started, each
/// where the one before went well; by the service where that is asked for, and else, or where the
/// service fails, as a child process.
pub proof fn law_start_order(ok: bool, service: bool)
    ensures
        launch::start_after(StartStep::Bootstrap, ok, service) == StartStep::Locate,
        launch::start_after(StartStep::Locate, true, service) == StartStep::Prepare,
        launch::start_after(StartStep::Locate, false, service) == StartStep::Done,
        launch::start_after(StartStep::Prepare, true, true) == StartStep::ByService,
        launch::start_after(StartStep::Prepare, true, false) == StartStep::ByChild,
        launch::start_after(StartStep::Prepare, false, service) == StartStep::Done,
        launch::start_after(StartStep::ByService, true, service) == StartStep::Done,
        launch::start_after(StartStep::ByService, false, service) == StartStep::ByChild,
        launch::start_after(StartStep::ByChild, ok, service) == StartStep::Done,
{
}

/// The service is brought up only where its socket is not there, and is waited for in any case.
pub proof fn law_bootstrap_order(ok: bool)
    ensures
        launch::bootstrap_after(BootstrapStep::Link, ok) == BootstrapStep::Look,
        launch::bootstrap_after(BootstrapStep::Look, true) == BootstrapStep::Await,
        launch::bootstrap_after(BootstrapStep::Await, ok) == BootstrapStep::Done(ok),
        launch::bootstrap_after(BootstrapStep::Look, false) == BootstrapStep::MakeDirectory,
        launch::bootstrap_after(BootstrapStep::MakeDirectory, ok) == BootstrapStep::FindStarter,
        launch::bootstrap_after(BootstrapStep::FindStarter, true) == BootstrapStep::Probe,
        launch::bootstrap_after(BootstrapStep::FindStarter, false) == BootstrapStep::LookAgain,
        launch::bootstrap_after(BootstrapStep::Probe, ok) == BootstrapStep::LookAgain,
        launch::bootstrap_after(BootstrapStep::LookAgain, true) == BootstrapStep::AwaitStarted,
        launch::bootstrap_after(BootstrapStep::LookAgain, false) == BootstrapStep::FindProgram,
        launch::bootstrap_after(BootstrapStep::FindProgram, ok) == BootstrapStep::AwaitStarted,
        launch::bootstrap_after(BootstrapStep::AwaitStarted, ok) == BootstrapStep::Done(ok),
        launch::service_after(ServiceStep::Look, true) == ServiceStep::Request,
        launch::service_after(ServiceStep::Request, true) == ServiceStep::Await,
        launch::service_after(ServiceStep::Await, ok) == ServiceStep::Done(ok),
        launch::service_after(ServiceStep::Look, false) == ServiceStep::Done(false),
        launch::service_after(ServiceStep::Request, false) == ServiceStep::Done(false),
{
}

/// A core that was started is asked on its socket up to 35 times, or 30 where it is a child
/// process, and once over HTTP after that.
pub proof fn law_asked_so_often(launcher: Launcher, silent: nat)
    ensures
        launch::launch_tries(Launcher::Service) == 35,
        launch::launch_tries(Launcher::Child) == 30,
        silent < launch::launch_tries(launcher) ==> asked_in_silence(launcher, silent)
            == LaunchStep::Socket((launch::launch_tries(launcher) - silent) as u8),
        asked_in_silence(launcher, launch::launch_tries(launcher) as nat) == LaunchStep::Http,
    decreases silent,
{
    if 0 < silent < launch::launch_tries(launcher) {
        law_asked_so_often(launcher, (silent - 1) as nat);
    }
    let tries = launch::launch_tries(launcher) as nat;
    if silent + 1 != tries {
        lemma_silence(launcher, (tries - 1) as nat);
    } else {
        lemma_silence(launcher, silent);
    }
}

proof fn lemma_silence(launcher: Launcher, silent: nat)
    requires
        silent < launch::launch_tries(launcher),
    ensures
        asked_in_silence(launcher, silent) == LaunchStep::Socket(
            (launch::launch_tries(launcher) - silent) as u8,
        ),
    decreases silent,
{
    if silent > 0 {
        lemma_silence(launcher, (silent - 1) as nat);
    }
}

/// The step after so many questions that were not answered.
pub open spec fn asked_in_silence(launcher: Launcher, silent: nat) -> LaunchStep
    decreases silent,
{
    if silent == 0 {
        LaunchStep::Socket(launch::launch_tries(launcher))
    } else {
        launch::launch_after(
            launcher,
            asked_in_silence(launcher, (silent - 1) as nat),
            LaunchReply::Silent,
            false,
        )
    }
}

/// A core that answers is started; a child process that has ended is no longer asked on its socket;
/// and where a child process does not answer at all, its log is read.
pub proof fn law_wait_for_core(launcher: Launcher, left: u8, reply: LaunchReply)
    ensures
        launch::launch_after(launcher, LaunchStep::Socket(left), reply, true) == LaunchStep::Done(
            true,
        ),
        launch::launch_after(launcher, LaunchStep::Socket(left), LaunchReply::Gone, false)
            == LaunchStep::Http,
        launch::launch_after(launcher, LaunchStep::Http, reply, true) == LaunchStep::Done(true),
        launch::launch_after(Launcher::Child, LaunchStep::Http, reply, false)
            == LaunchStep::ReadLog,
        launch::launch_after(Launcher::Service, LaunchStep::Http, reply, false) == LaunchStep::Done(
            false,
        ),
        launch::launch_after(launcher, LaunchStep::ReadLog, reply, false) == LaunchStep::Done(
            false,
        ),
{
}

/// A process is asked to end, is looked after twenty times, and only then forced; one that is not
/// there any more counts as ended.
pub proof fn law_termination(pid: u32, platform: Platform, left: u8)
    ensures
        pid > 0 && platform != Platform::Windows ==> process::terminate_start(pid, platform)
            == TerminateStep::Look,
        pid == 0 || platform == Platform::Windows ==> process::terminate_start(pid, platform)
            == TerminateStep::Done(false),
        process::terminate_after(TerminateStep::Look, false) == TerminateStep::Done(true),
        process::terminate_after(TerminateStep::Look, true) == TerminateStep::Ask,
        process::terminate_after(TerminateStep::Ask, false) == TerminateStep::Done(false),
        process::terminate_after(TerminateStep::Ask, true) == TerminateStep::Wait(20),
        process::terminate_after(TerminateStep::Wait(left), false) == TerminateStep::Done(true),
        left > 1 ==> process::terminate_after(TerminateStep::Wait(left), true)
            == TerminateStep::Wait((left - 1) as u8),
        process::terminate_after(TerminateStep::Wait(1), true) == TerminateStep::Force,
        process::terminate_after(TerminateStep::Force, true) == TerminateStep::Done(true),
        process::terminate_after(TerminateStep::Force, false) == TerminateStep::Done(false),
{
}

/// What starting a core tells.
pub proof fn law_start_tells(
    pid: u32,
    core: Seq<char>,
    config: Seq<char>,
    log: Seq<char>,
    target: launch::LaunchTarget,
    left: u8,
)
    ensures
        launch::spawn_notes(Some(pid), core, config, log) =~= seq![
            "managed core pid: "@ + number::dec(pid as nat),
            "spawned managed mihomo: "@ + core + " (config: "@ + config + ")"@,
            "managed core log file: "@ + log,
        ],
        launch::launch_notes(Launcher::Child, LaunchStep::Socket(left), true, target) == seq![
            "managed mihomo ready on socket: "@ + target.socket@,
        ],
        launch::launch_notes(Launcher::Service, LaunchStep::Socket(left), true, target) == seq![
            "managed mihomo ready by service on socket: "@ + target.socket@,
        ],
        launch::launch_notes(Launcher::Child, LaunchStep::Http, true, target) == seq![
            "managed mihomo ready on HTTP controller: "@ + target.http@,
        ],
        launch::launch_notes(Launcher::Service, LaunchStep::Http, true, target) == seq![
            "managed mihomo ready by service on HTTP controller: "@ + target.http@,
        ],
        launch::launch_notes(Launcher::Child, LaunchStep::Http, false, target) == seq![
            "managed mihomo not ready (socket="@ + target.socket@ + ", http="@ + target.http@
                + "); check "@ + target.log@,
        ],
        launch::launch_notes(Launcher::Child, LaunchStep::Socket(left), false, target).len() == 0,
        launch::launch_notes(Launcher::Service, LaunchStep::Socket(left), false, target).len() == 0,
{
}

} // verus!
