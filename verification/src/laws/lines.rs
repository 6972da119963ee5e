//! What typed lines do, from the words to the work that is asked for.

use crate::command;
use crate::command::Command;
use crate::config;
use crate::config::{BackendExitPolicy, VergeConfig};
use crate::laws::words;
use crate::number;
use crate::profile;
use crate::run;
use crate::run::{NextModel, Operation, ProxyPurpose, Saved, Step};
use crate::screen::Screen;
use crate::session::App;
use vstd::prelude::*;

verus! {

type Words = Seq<Seq<char>>;

/// The words of the commands, told apart by their lengths and first letters.
proof fn lemma_words_differ()
    ensures
        "help"@.len() == 4 && "help"@[0] == 'h' && "help"@[1] == 'e',
        "sysproxy"@.len() == 8 && "sysproxy"@[0] == 's' && "sysproxy"@[1] == 'y',
        "doctor"@.len() == 6 && "doctor"@[0] == 'd' && "doctor"@[1] == 'o',
        "logpath"@.len() == 7 && "logpath"@[0] == 'l' && "logpath"@[1] == 'o',
        "health"@.len() == 6 && "health"@[0] == 'h' && "health"@[1] == 'e',
        "adopt"@.len() == 5 && "adopt"@[0] == 'a' && "adopt"@[1] == 'd',
        "import"@.len() == 6 && "import"@[0] == 'i' && "import"@[1] == 'm',
        "reload"@.len() == 6 && "reload"@[0] == 'r' && "reload"@[1] == 'e',
        "update"@.len() == 6 && "update"@[0] == 'u' && "update"@[1] == 'p',
        "autosub"@.len() == 7 && "autosub"@[0] == 'a' && "autosub"@[1] == 'u',
        "switch"@.len() == 6 && "switch"@[0] == 's' && "switch"@[1] == 'w',
        "delay"@.len() == 5 && "delay"@[0] == 'd' && "delay"@[1] == 'e',
        "mode"@.len() == 4 && "mode"@[0] == 'm' && "mode"@[1] == 'o',
        "cleanup"@.len() == 7 && "cleanup"@[0] == 'c' && "cleanup"@[1] == 'l',
        "backend"@.len() == 7 && "backend"@[0] == 'b' && "backend"@[1] == 'a',
        "toggle"@.len() == 6 && "toggle"@[0] == 't' && "toggle"@[1] == 'o',
        "set"@.len() == 3 && "set"@[0] == 's' && "set"@[1] == 'e',
        "use"@.len() == 3 && "use"@[0] == 'u' && "use"@[1] == 's',
        "save"@.len() == 4 && "save"@[0] == 's' && "save"@[1] == 'a',
        "quit"@.len() == 4 && "quit"@[0] == 'q' && "quit"@[1] == 'u',
        "exit"@.len() == 4 && "exit"@[0] == 'e' && "exit"@[1] == 'x',
        "on"@.len() == 2 && "on"@[0] == 'o' && "on"@[1] == 'n',
        "off"@.len() == 3 && "off"@[0] == 'o' && "off"@[1] == 'f',
        "proxies"@.len() == 7 && "proxies"@[0] == 'p' && "proxies"@[1] == 'r',
        "subscriptions"@.len() == 13 && "subscriptions"@[0] == 's' && "subscriptions"@[1] == 'u',
        "selected"@.len() == 8 && "selected"@[0] == 's' && "selected"@[1] == 'e',
        "all"@.len() == 3 && "all"@[0] == 'a' && "all"@[1] == 'l',
        "now"@.len() == 3 && "now"@[0] == 'n' && "now"@[1] == 'o',
        "status"@.len() == 6 && "status"@[0] == 's' && "status"@[1] == 't',
        "disable"@.len() == 7 && "disable"@[0] == 'd' && "disable"@[1] == 'i',
        "rule"@.len() == 4 && "rule"@[0] == 'r' && "rule"@[1] == 'u',
        "global"@.len() == 6 && "global"@[0] == 'g' && "global"@[1] == 'l',
        "direct"@.len() == 6 && "direct"@[0] == 'd' && "direct"@[1] == 'i',
        "start"@.len() == 5 && "start"@[0] == 's' && "start"@[1] == 't',
        "stop"@.len() == 4 && "stop"@[0] == 's' && "stop"@[1] == 't',
        "keep"@.len() == 4 && "keep"@[0] == 'k' && "keep"@[1] == 'e',
        "policy"@.len() == 6 && "policy"@[0] == 'p' && "policy"@[1] == 'o',
        "tun"@.len() == 3 && "tun"@[0] == 't' && "tun"@[1] == 'u',
        "controller"@.len() == 10 && "controller"@[0] == 'c' && "controller"@[1] == 'o',
        "secret"@.len() == 6 && "secret"@[0] == 's' && "secret"@[1] == 'e',
        "mixed-port"@.len() == 10 && "mixed-port"@[0] == 'm' && "mixed-port"@[1] == 'i',
        "proxy-host"@.len() == 10 && "proxy-host"@[0] == 'p' && "proxy-host"@[1] == 'r',
        "cleanup-on-exit"@.len() == 15 && "cleanup-on-exit"@[0] == 'c'
            && "cleanup-on-exit"@[1] == 'l',
        "keep-core-on-exit"@.len() == 17 && "keep-core-on-exit"@[0] == 'k'
            && "keep-core-on-exit"@[1] == 'e',
        "backend-exit-policy"@.len() == 19 && "backend-exit-policy"@[0] == 'b'
            && "backend-exit-policy"@[1] == 'a',
        "auto-update"@.len() == 11 && "auto-update"@[0] == 'a' && "auto-update"@[1] == 'u',
        "profiles"@.len() == 8 && "profiles"@[0] == 'p' && "profiles"@[1] == 'r',
        "proxy"@.len() == 5 && "proxy"@[0] == 'p' && "proxy"@[1] == 'r',
{
    reveal_strlit("help");
    reveal_strlit("sysproxy");
    reveal_strlit("doctor");
    reveal_strlit("logpath");
    reveal_strlit("health");
    reveal_strlit("adopt");
    reveal_strlit("import");
    reveal_strlit("reload");
    reveal_strlit("update");
    reveal_strlit("autosub");
    reveal_strlit("switch");
    reveal_strlit("delay");
    reveal_strlit("mode");
    reveal_strlit("cleanup");
    reveal_strlit("backend");
    reveal_strlit("toggle");
    reveal_strlit("set");
    reveal_strlit("use");
    reveal_strlit("save");
    reveal_strlit("quit");
    reveal_strlit("exit");
    reveal_strlit("on");
    reveal_strlit("off");
    reveal_strlit("proxies");
    reveal_strlit("subscriptions");
    reveal_strlit("selected");
    reveal_strlit("all");
    reveal_strlit("now");
    reveal_strlit("status");
    reveal_strlit("disable");
    reveal_strlit("rule");
    reveal_strlit("global");
    reveal_strlit("direct");
    reveal_strlit("start");
    reveal_strlit("stop");
    reveal_strlit("keep");
    reveal_strlit("policy");
    reveal_strlit("tun");
    reveal_strlit("controller");
    reveal_strlit("secret");
    reveal_strlit("mixed-port");
    reveal_strlit("proxy-host");
    reveal_strlit("cleanup-on-exit");
    reveal_strlit("keep-core-on-exit");
    reveal_strlit("backend-exit-policy");
    reveal_strlit("auto-update");
    reveal_strlit("profiles");
    reveal_strlit("proxy");
}

/// How a policy is written.
pub open spec fn policy_word(policy: BackendExitPolicy) -> Seq<char> {
    match policy {
        BackendExitPolicy::AlwaysOn => "always-on"@,
        BackendExitPolicy::AlwaysOff => "always-off"@,
        BackendExitPolicy::Query => "query"@,
    }
}

/// The policy under which the backend always stays, or always ends.
pub open spec fn kept_always(keep: bool) -> BackendExitPolicy {
    if keep {
        BackendExitPolicy::AlwaysOn
    } else {
        BackendExitPolicy::AlwaysOff
    }
}

/// The lines on where the log files are.
pub open spec fn log_places(app: App) -> Seq<Seq<char>> {
    let first = match app.file_log_path {
        Some(p) => "log file => "@ + p@,
        None => "log file is not available"@,
    };
    match app.session_log_path {
        Some(p) => seq![first, "session log => "@ + p@],
        None => seq![first],
    }
}

/// Whether a typed line leaves the settings and the screen, and only asks for `step`.
pub open spec fn asks_for(app: App, line: Words, step: Step<Seq<char>>) -> bool {
    let c = command::command_of(line);
    &&& run::step_for(app, c) == (NextModel { notes: seq![], step })
    &&& leaves(app, line)
}

/// Whether a typed line leaves the settings and the screen, and only tells something.
pub open spec fn tells(app: App, line: Words, note: Seq<char>) -> bool {
    let c = command::command_of(line);
    &&& run::step_for(app, c) == (NextModel { notes: seq![note], step: Step::Done })
    &&& leaves(app, line)
}

/// Whether a typed line leaves the settings and the screen.
pub open spec fn leaves(app: App, line: Words) -> bool {
    let c = command::command_of(line);
    &&& run::screen_for(app, c) == app.screen
    &&& forall|before: VergeConfig, after: VergeConfig| #[trigger]
        run::sets(c, before, after) ==> after == before
}

/// Commands of fixed words ask for the work that they name, whatever follows them: `doctor`,
/// `health`, `adopt`, `reload proxies`, `reload subscriptions`.
pub proof fn law_commands_on_the_core(app: App, rest: Words)
    ensures
        asks_for(app, seq!["doctor"@] + rest, Step::Do(Operation::Doctor)),
        asks_for(app, seq!["health"@] + rest, Step::Do(Operation::EnsureReady)),
        asks_for(app, seq!["adopt"@] + rest, Step::Adopt),
        asks_for(app, seq!["reload"@, "proxies"@] + rest, Step::Do(Operation::RefreshProxies)),
        asks_for(app, seq!["reload"@, "subscriptions"@] + rest, Step::Do(Operation::UpdateAll)),
{
    lemma_words_differ();
    let l0: Words = seq!["doctor"@] + rest;
    assert(l0[0] == "doctor"@ && l0.len() >= 1);
    let l1: Words = seq!["health"@] + rest;
    assert(l1[0] == "health"@ && l1.len() >= 1);
    let l2: Words = seq!["adopt"@] + rest;
    assert(l2[0] == "adopt"@ && l2.len() >= 1);
    let l3: Words = seq!["reload"@, "proxies"@] + rest;
    assert(l3[0] == "reload"@ && l3[1] == "proxies"@ && l3.len() >= 2);
    let l4: Words = seq!["reload"@, "subscriptions"@] + rest;
    assert(l4[0] == "reload"@ && l4[1] == "subscriptions"@ && l4.len() >= 2);
}

/// Commands of fixed words ask for the work that they name, whatever follows them: `update
/// selected`, `update all`, `autosub status`, `cleanup`, `backend status`.
pub proof fn law_commands_on_updates(app: App, rest: Words)
    ensures
        asks_for(app, seq!["update"@, "selected"@] + rest, Step::Do(Operation::UpdateSelected)),
        asks_for(app, seq!["update"@, "all"@] + rest, Step::Do(Operation::UpdateAll)),
        asks_for(app, seq!["autosub"@, "status"@] + rest, Step::Do(Operation::AutoSubStatus)),
        asks_for(app, seq!["cleanup"@] + rest, Step::Do(Operation::Cleanup)),
        asks_for(app, seq!["backend"@, "status"@] + rest, Step::Do(Operation::BackendStatus)),
{
    lemma_words_differ();
    let l0: Words = seq!["update"@, "selected"@] + rest;
    assert(l0[0] == "update"@ && l0[1] == "selected"@ && l0.len() >= 2);
    let l1: Words = seq!["update"@, "all"@] + rest;
    assert(l1[0] == "update"@ && l1[1] == "all"@ && l1.len() >= 2);
    let l2: Words = seq!["autosub"@, "status"@] + rest;
    assert(l2[0] == "autosub"@ && l2[1] == "status"@ && l2.len() >= 2);
    let l3: Words = seq!["cleanup"@] + rest;
    assert(l3[0] == "cleanup"@ && l3.len() >= 1);
    let l4: Words = seq!["backend"@, "status"@] + rest;
    assert(l4[0] == "backend"@ && l4[1] == "status"@ && l4.len() >= 2);
}

/// Commands of fixed words ask for the work that they name, whatever follows them: `backend start`,
/// `backend stop`, `save`.
pub proof fn law_commands_on_the_backend(app: App, rest: Words)
    ensures
        asks_for(
            app,
            seq!["backend"@, "start"@] + rest,
            Step::DoBoth(Operation::EnsureReady, Operation::RefreshProxies),
        ),
        asks_for(
            app,
            seq!["backend"@, "stop"@] + rest,
            Step::DoBoth(Operation::Cleanup, Operation::StopBackend),
        ),
        asks_for(app, seq!["save"@] + rest, Step::Save(Saved::Say("state saved"@))),
{
    lemma_words_differ();
    let l0: Words = seq!["backend"@, "start"@] + rest;
    assert(l0[0] == "backend"@ && l0[1] == "start"@ && l0.len() >= 2);
    let l1: Words = seq!["backend"@, "stop"@] + rest;
    assert(l1[0] == "backend"@ && l1[1] == "stop"@ && l1.len() >= 2);
    let l2: Words = seq!["save"@] + rest;
    assert(l2[0] == "save"@ && l2.len() >= 1);
}

/// Where nothing follows, `update` is for the selected profile, and `autosub` and `backend` tell
/// how things stand.
pub proof fn law_short_commands(app: App)
    ensures
        asks_for(app, seq!["update"@], Step::Do(Operation::UpdateSelected)),
        asks_for(app, seq!["autosub"@], Step::Do(Operation::AutoSubStatus)),
        asks_for(app, seq!["backend"@], Step::Do(Operation::BackendStatus)),
        run::step_for(app, command::command_of(seq![]))
            == (NextModel { notes: seq![], step: Step::Done }),
        leaves(app, seq![]),
{
    lemma_words_differ();
    let l0: Words = seq!["update"@];
    assert(l0[0] == "update"@ && l0.len() >= 1);
    let l1: Words = seq!["autosub"@];
    assert(l1[0] == "autosub"@ && l1.len() >= 1);
    let l2: Words = seq!["backend"@];
    assert(l2[0] == "backend"@ && l2.len() >= 1);
}

/// `switch` lets the group that is named first use the node that is named second.
pub proof fn law_typed_switch(app: App, group: Seq<char>, node: Seq<char>, rest: Words)
    ensures
        asks_for(
            app,
            seq!["switch"@, group, node] + rest,
            Step::Do(Operation::Switch(group, node, false)),
        ),
        tells(app, seq!["switch"@, group], "usage: switch <group> <proxy>"@),
        tells(app, seq!["switch"@], "usage: switch <group> <proxy>"@),
{
    lemma_words_differ();
    let l0: Words = seq!["switch"@, group, node] + rest;
    assert(l0[0] == "switch"@ && l0[1] == group && l0[2] == node && l0.len() >= 3);
    let l1: Words = seq!["switch"@, group];
    assert(l1[0] == "switch"@ && l1[1] == group && l1.len() >= 2);
    let l2: Words = seq!["switch"@];
    assert(l2[0] == "switch"@ && l2.len() >= 1);
}

/// `import` imports what it names.
pub proof fn law_typed_import(app: App, url: Seq<char>, rest: Words)
    ensures
        asks_for(app, seq!["import"@, url] + rest, Step::Do(Operation::Import(url))),
        tells(app, seq!["import"@], "usage: import <url>"@),
{
    lemma_words_differ();
    let l0: Words = seq!["import"@, url] + rest;
    assert(l0[0] == "import"@ && l0[1] == url && l0.len() >= 2);
    let l1: Words = seq!["import"@];
    assert(l1[0] == "import"@ && l1.len() >= 1);
}

/// `update` with the uid of a profile updates that profile.
pub proof fn law_typed_update(app: App, uid: Seq<char>, rest: Words)
    requires
        uid != "selected"@,
        uid != "all"@,
    ensures
        asks_for(app, seq!["update"@, uid] + rest, Step::Do(Operation::Update(uid))),
{
    lemma_words_differ();
    let l0: Words = seq!["update"@, uid] + rest;
    assert(l0[0] == "update"@ && l0[1] == uid && l0.len() >= 2);
}

/// `mode` asks the core for the mode that it names, where there is such a mode.
pub proof fn law_typed_mode(app: App, mode: Seq<char>, rest: Words)
    ensures
        mode == "rule"@ || mode == "global"@ || mode == "direct"@
            ==> asks_for(app, seq!["mode"@, mode] + rest, Step::Do(Operation::Mode(mode))),
        !(mode == "rule"@ || mode == "global"@ || mode == "direct"@)
            ==> tells(app, seq!["mode"@, mode] + rest, "mode must be one of: rule, global, direct"@),
        tells(app, seq!["mode"@], "usage: mode <rule|global|direct>"@),
{
    lemma_words_differ();
    let l0: Words = seq!["mode"@, mode] + rest;
    assert(l0[0] == "mode"@ && l0[1] == mode && l0.len() >= 2);
    let l1: Words = seq!["mode"@];
    assert(l1[0] == "mode"@ && l1.len() >= 1);
}

/// `delay` tests the node that it names, at the address and with the limit that it names; or else
/// at the configured address, and with a limit of five seconds.
pub proof fn law_typed_delay(app: App, node: Seq<char>, url: Seq<char>, ms: u64, rest: Words)
    requires
        node != "all"@,
        node != "selected"@,
    ensures
        asks_for(
            app,
            seq!["delay"@, node, url, number::dec(ms as nat)] + rest,
            Step::Do(Operation::Delay(node, url, ms, false)),
        ),
        asks_for(
            app,
            seq!["delay"@, node, url],
            Step::Do(Operation::Delay(node, url, 5000, false)),
        ),
        asks_for(
            app,
            seq!["delay"@, node],
            Step::Do(Operation::Delay(node, app.verge().default_delay_test_url@, 5000, false)),
        ),
        tells(app, seq!["delay"@], "usage: delay <proxy|selected|all> [url] [timeout_ms]"@),
{
    lemma_words_differ();
    let l0: Words = seq!["delay"@, node, url, number::dec(ms as nat)] + rest;
    assert(l0[0] == "delay"@ && l0[1] == node && l0[2] == url);
    assert(l0[3] == number::dec(ms as nat) && l0.len() >= 4);
    let l1: Words = seq!["delay"@, node, url];
    assert(l1[0] == "delay"@ && l1[1] == node && l1[2] == url && l1.len() >= 3);
    let l2: Words = seq!["delay"@, node];
    assert(l2[0] == "delay"@ && l2[1] == node && l2.len() >= 2);
    let l3: Words = seq!["delay"@];
    assert(l3[0] == "delay"@ && l3.len() >= 1);
    number::law_numeral_round_trip(ms as nat, u64::MAX as nat);
}

/// `delay all` tests all nodes in the same way.
pub proof fn law_typed_delay_all(app: App, url: Seq<char>, ms: u64, rest: Words)
    ensures
        asks_for(
            app,
            seq!["delay"@, "all"@, url, number::dec(ms as nat)] + rest,
            Step::Do(Operation::TestAll(url, ms)),
        ),
        asks_for(app, seq!["delay"@, "all"@, url], Step::Do(Operation::TestAll(url, 5000))),
        asks_for(
            app,
            seq!["delay"@, "all"@],
            Step::Do(Operation::TestAll(app.verge().default_delay_test_url@, 5000)),
        ),
{
    lemma_words_differ();
    let l0: Words = seq!["delay"@, "all"@, url, number::dec(ms as nat)] + rest;
    assert(l0[0] == "delay"@ && l0[1] == "all"@ && l0[2] == url);
    assert(l0[3] == number::dec(ms as nat) && l0.len() >= 4);
    let l1: Words = seq!["delay"@, "all"@, url];
    assert(l1[0] == "delay"@ && l1[1] == "all"@ && l1[2] == url && l1.len() >= 3);
    let l2: Words = seq!["delay"@, "all"@];
    assert(l2[0] == "delay"@ && l2[1] == "all"@ && l2.len() >= 2);
    number::law_numeral_round_trip(ms as nat, u64::MAX as nat);
}

/// `delay selected` tests the node under the cursor in the same way, where there is one.
pub proof fn law_typed_delay_selected(
    app: App,
    group: Seq<char>,
    node: Seq<char>,
    url: Seq<char>,
    ms: u64,
    rest: Words,
)
    ensures
        app.selection() == Some((group, node))
            ==> asks_for(
                app,
                seq!["delay"@, "selected"@, url, number::dec(ms as nat)] + rest,
                Step::Do(Operation::Delay(node, url, ms, false)),
            ),
        app.selection() == Some((group, node))
            ==> asks_for(
                app,
                seq!["delay"@, "selected"@],
                Step::Do(Operation::Delay(node, app.verge().default_delay_test_url@, 5000, false)),
            ),
        app.selection() is None
            ==> tells(app, seq!["delay"@, "selected"@] + rest, "no proxy selection"@),
{
    lemma_words_differ();
    let l0: Words = seq!["delay"@, "selected"@, url, number::dec(ms as nat)] + rest;
    assert(l0[0] == "delay"@ && l0[1] == "selected"@ && l0[2] == url);
    assert(l0[3] == number::dec(ms as nat) && l0.len() >= 4);
    let l1: Words = seq!["delay"@, "selected"@];
    assert(l1[0] == "delay"@ && l1[1] == "selected"@ && l1.len() >= 2);
    let l2: Words = seq!["delay"@, "selected"@] + rest;
    assert(l2[0] == "delay"@ && l2[1] == "selected"@ && l2.len() >= 2);
    number::law_numeral_round_trip(ms as nat, u64::MAX as nat);
}

/// Whether the profile at `i` is the first one with a uid.
pub open spec fn is_first_profile(app: App, uid: Seq<char>, i: int) -> bool {
    &&& 0 <= i < app.store.state.profiles.len()
    &&& app.store.state.profiles@[i].uid@ == uid
    &&& forall|j: int| 0 <= j < i ==> (#[trigger] app.store.state.profiles@[j]).uid@ != uid
}

/// Whether no profile has a uid.
pub open spec fn is_no_profile(app: App, uid: Seq<char>) -> bool {
    forall|j: int|
        0 <= j < app.store.state.profiles@.len() ==> (#[trigger] app.store.state.profiles@[j]).uid@
            != uid
}

/// Whether a typed line puts the cursor on the profile at `i` and makes it the current one.
pub open spec fn uses(app: App, line: Words, i: int) -> bool {
    let c = command::command_of(line);
    &&& run::step_for(app, c) == (NextModel { notes: seq![], step: Step::Do(Operation::Activate) })
    &&& run::screen_for(app, c) == (Screen { selected_profile_idx: i as usize, ..app.screen })
}

/// Whether a typed line begins with `step`, leaves the screen, and changes the settings to what
/// `change` makes of them.
pub open spec fn changes(
    app: App,
    line: Words,
    step: Step<Seq<char>>,
    change: spec_fn(VergeConfig, VergeConfig) -> bool,
) -> bool {
    let c = command::command_of(line);
    &&& run::step_for(app, c) == (NextModel { notes: seq![], step })
    &&& run::screen_for(app, c) == app.screen
    &&& forall|before: VergeConfig, after: VergeConfig| #[trigger]
        run::sets(c, before, after) ==> change(before, after)
}

/// `sysproxy` switches the system's proxy on, off, or to the other side; it is then set, and on
/// failure a toggle goes back.
pub proof fn law_typed_sysproxy(app: App, rest: Words)
    ensures
        changes(
            app,
            seq!["sysproxy"@, "on"@] + rest,
            Step::SetProxy(ProxyPurpose::Switch(None)),
            |before: VergeConfig,
            after: VergeConfig| after == (VergeConfig { enable_system_proxy: true, ..before }),
        ),
        changes(
            app,
            seq!["sysproxy"@, "off"@] + rest,
            Step::SetProxy(ProxyPurpose::Switch(None)),
            |before: VergeConfig,
            after: VergeConfig| after == (VergeConfig { enable_system_proxy: false, ..before }),
        ),
        changes(
            app,
            seq!["sysproxy"@, "toggle"@] + rest,
            Step::SetProxy(ProxyPurpose::Switch(Some(app.verge().enable_system_proxy))),
            |before: VergeConfig,
            after: VergeConfig| after
                == (VergeConfig { enable_system_proxy: !before.enable_system_proxy, ..before }),
        ),
        changes(
            app,
            seq!["toggle"@, "sysproxy"@] + rest,
            Step::SetProxy(ProxyPurpose::Switch(Some(app.verge().enable_system_proxy))),
            |before: VergeConfig,
            after: VergeConfig| after
                == (VergeConfig { enable_system_proxy: !before.enable_system_proxy, ..before }),
        ),
        changes(
            app,
            seq!["sysproxy"@],
            Step::SetProxy(ProxyPurpose::Switch(Some(app.verge().enable_system_proxy))),
            |before: VergeConfig,
            after: VergeConfig| after
                == (VergeConfig { enable_system_proxy: !before.enable_system_proxy, ..before }),
        ),
{
    lemma_words_differ();
    let l0: Words = seq!["sysproxy"@, "on"@] + rest;
    assert(l0[0] == "sysproxy"@ && l0[1] == "on"@ && l0.len() >= 2);
    let l1: Words = seq!["sysproxy"@, "off"@] + rest;
    assert(l1[0] == "sysproxy"@ && l1[1] == "off"@ && l1.len() >= 2);
    let l2: Words = seq!["sysproxy"@, "toggle"@] + rest;
    assert(l2[0] == "sysproxy"@ && l2[1] == "toggle"@ && l2.len() >= 2);
    let l3: Words = seq!["toggle"@, "sysproxy"@] + rest;
    assert(l3[0] == "toggle"@ && l3[1] == "sysproxy"@ && l3.len() >= 2);
    let l4: Words = seq!["sysproxy"@];
    assert(l4[0] == "sysproxy"@ && l4.len() >= 1);
}

/// `toggle tun` switches the tunnel to the other side, and remembers the side it was on.
pub proof fn law_typed_tun(app: App, rest: Words)
    ensures
        changes(
            app,
            seq!["toggle"@, "tun"@] + rest,
            Step::SetTun(app.verge().enable_tun_mode),
            |before: VergeConfig,
            after: VergeConfig| after
                == (VergeConfig { enable_tun_mode: !before.enable_tun_mode, ..before }),
        ),
{
    lemma_words_differ();
    let l0: Words = seq!["toggle"@, "tun"@] + rest;
    assert(l0[0] == "toggle"@ && l0[1] == "tun"@ && l0.len() >= 2);
}

/// `set controller` and `set secret` keep what they name, save it, and connect anew.
pub proof fn law_typed_controller(app: App, value: Seq<char>, rest: Words)
    ensures
        changes(
            app,
            seq!["set"@, "controller"@, value] + rest,
            Step::Save(Saved::Reconnect("controller set to "@ + value)),
            |before: VergeConfig,
            after: VergeConfig| after.controller_url@ == value
                && after == (VergeConfig { controller_url: after.controller_url, ..before }),
        ),
        changes(
            app,
            seq!["set"@, "secret"@, value] + rest,
            Step::Save(Saved::Reconnect("secret updated"@)),
            |before: VergeConfig,
            after: VergeConfig| after.secret@ == value
                && after == (VergeConfig { secret: after.secret, ..before }),
        ),
{
    lemma_words_differ();
    let l0: Words = seq!["set"@, "controller"@, value] + rest;
    assert(l0[0] == "set"@ && l0[1] == "controller"@ && l0[2] == value && l0.len() >= 3);
    let l1: Words = seq!["set"@, "secret"@, value] + rest;
    assert(l1[0] == "set"@ && l1[1] == "secret"@ && l1[2] == value && l1.len() >= 3);
}

/// `set mixed-port` keeps every port that there is, and refuses numbers that are none.
pub proof fn law_typed_port(app: App, port: nat, rest: Words)
    ensures
        port <= 65535
            ==> changes(
                app,
                seq!["set"@, "mixed-port"@, number::dec(port)] + rest,
                Step::Save(Saved::Reapply("mixed-port set to "@ + number::dec(port), "port"@)),
                |before: VergeConfig,
                after: VergeConfig| after == (VergeConfig { mixed_port: port as u16, ..before }),
            ),
        port > 65535
            ==> tells(
                app,
                seq!["set"@, "mixed-port"@, number::dec(port)] + rest,
                "usage: set mixed-port <port>"@,
            ),
{
    lemma_words_differ();
    let l0: Words = seq!["set"@, "mixed-port"@, number::dec(port)] + rest;
    assert(l0[0] == "set"@ && l0[1] == "mixed-port"@);
    assert(l0[2] == number::dec(port) && l0.len() >= 3);
    words::law_numerals_are_read(seq![], 0, port, 65535);
}

/// `set proxy-host` keeps the host that it names, saves it, and lets the system's proxy follow.
pub proof fn law_typed_host(app: App, host: Seq<char>, rest: Words)
    ensures
        changes(
            app,
            seq!["set"@, "proxy-host"@, host] + rest,
            Step::Save(Saved::Reapply("proxy-host set to "@ + host, "host"@)),
            |before: VergeConfig,
            after: VergeConfig| after.proxy_host@ == host
                && after == (VergeConfig { proxy_host: after.proxy_host, ..before }),
        ),
{
    lemma_words_differ();
    let l0: Words = seq!["set"@, "proxy-host"@, host] + rest;
    assert(l0[0] == "set"@ && l0[1] == "proxy-host"@ && l0[2] == host && l0.len() >= 3);
}

/// `autosub` and `set auto-update` keep the minutes that they name, and `off` stands for none; the
/// next update is then set anew.
pub proof fn law_typed_interval(app: App, minutes: u64, rest: Words)
    ensures
        changes(
            app,
            seq!["autosub"@, number::dec(minutes as nat)] + rest,
            Step::Save(Saved::Schedule("user"@)),
            |before: VergeConfig,
            after: VergeConfig| after
                == (VergeConfig { auto_update_subscription_minutes: minutes, ..before }),
        ),
        changes(
            app,
            seq!["set"@, "auto-update"@, number::dec(minutes as nat)] + rest,
            Step::Save(Saved::Schedule("set"@)),
            |before: VergeConfig,
            after: VergeConfig| after
                == (VergeConfig { auto_update_subscription_minutes: minutes, ..before }),
        ),
        changes(
            app,
            seq!["autosub"@, "off"@] + rest,
            Step::Save(Saved::Schedule("user"@)),
            |before: VergeConfig,
            after: VergeConfig| after
                == (VergeConfig { auto_update_subscription_minutes: 0, ..before }),
        ),
        changes(
            app,
            seq!["autosub"@, "disable"@] + rest,
            Step::Save(Saved::Schedule("user"@)),
            |before: VergeConfig,
            after: VergeConfig| after
                == (VergeConfig { auto_update_subscription_minutes: 0, ..before }),
        ),
        changes(
            app,
            seq!["set"@, "auto-update"@, "off"@] + rest,
            Step::Save(Saved::Schedule("set"@)),
            |before: VergeConfig,
            after: VergeConfig| after
                == (VergeConfig { auto_update_subscription_minutes: 0, ..before }),
        ),
{
    lemma_words_differ();
    let l0: Words = seq!["autosub"@, number::dec(minutes as nat)] + rest;
    assert(l0[0] == "autosub"@ && l0[1] == number::dec(minutes as nat) && l0.len() >= 2);
    let l1: Words = seq!["set"@, "auto-update"@, number::dec(minutes as nat)] + rest;
    assert(l1[0] == "set"@ && l1[1] == "auto-update"@);
    assert(l1[2] == number::dec(minutes as nat) && l1.len() >= 3);
    let l2: Words = seq!["autosub"@, "off"@] + rest;
    assert(l2[0] == "autosub"@ && l2[1] == "off"@ && l2.len() >= 2);
    let l3: Words = seq!["autosub"@, "disable"@] + rest;
    assert(l3[0] == "autosub"@ && l3[1] == "disable"@ && l3.len() >= 2);
    let l4: Words = seq!["set"@, "auto-update"@, "off"@] + rest;
    assert(l4[0] == "set"@ && l4[1] == "auto-update"@ && l4[2] == "off"@ && l4.len() >= 3);
    number::law_numeral_round_trip(minutes as nat, u64::MAX as nat);
    lemma_numeral_is_no_word(minutes as nat);
    reveal_strlit("off");
    assert(crate::text::lowered("off"@) =~= "off"@);
    assert(crate::text::lowered(number::dec(minutes as nat))[0] == number::dec(minutes as nat)[0]);
}

/// A numeral starts with a digit.
proof fn lemma_numeral_is_no_word(n: nat)
    ensures
        number::dec(n).len() > 0,
        '0' <= number::dec(n)[0] <= '9',
{
    number::lemma_dec_digits(n);
    assert(number::is_digit(number::dec(n)[0]));
}

/// `autosub now` updates all subscriptions, and then sets the next update anew.
pub proof fn law_typed_autosub_now(app: App, rest: Words)
    ensures
        run::step_for(app, command::command_of(seq!["autosub"@, "now"@] + rest)).step
            == Step::DoBoth(Operation::UpdateAll, Operation::Schedule("manual"@)),
        run::step_for(app, command::command_of(seq!["autosub"@, "now"@] + rest)).notes
            == seq!["autosub: manual trigger"@],
        leaves(app, seq!["autosub"@, "now"@] + rest),
{
    lemma_words_differ();
    let l0: Words = seq!["autosub"@, "now"@] + rest;
    assert(l0[0] == "autosub"@ && l0[1] == "now"@ && l0.len() >= 2);
}

/// `set cleanup-on-exit` keeps what its word for a switch means.
pub proof fn law_typed_cleanup_on_exit(app: App, value: Seq<char>, on: bool, rest: Words)
    ensures
        config::switch_of(value) == Some(on)
            ==> changes(
                app,
                seq!["set"@, "cleanup-on-exit"@, value] + rest,
                Step::Save(
                    Saved::Say("cleanup-on-exit => "@ + (if on { "true"@ } else { "false"@ })),
                ),
                |before: VergeConfig,
                after: VergeConfig| after == (VergeConfig { auto_cleanup_on_exit: on, ..before }),
            ),
        config::switch_of(value) is None
            ==> tells(
                app,
                seq!["set"@, "cleanup-on-exit"@, value] + rest,
                "usage: set cleanup-on-exit <on|off>"@,
            ),
{
    lemma_words_differ();
    let l0: Words = seq!["set"@, "cleanup-on-exit"@, value] + rest;
    assert(l0[0] == "set"@ && l0[1] == "cleanup-on-exit"@ && l0[2] == value && l0.len() >= 3);
}

/// `backend keep` and `set keep-core-on-exit` let the backend always stay, or always end.
pub proof fn law_typed_keep(app: App, value: Seq<char>, keep: bool, rest: Words)
    requires
        config::switch_of(value) == Some(keep),
    ensures
        changes(
            app,
            seq!["backend"@, "keep"@, value] + rest,
            Step::Save(Saved::Say("backend-exit-policy => "@ + policy_word(kept_always(keep)))),
            |before: VergeConfig,
            after: VergeConfig| after
                == (VergeConfig {
                    keep_core_on_exit: keep,
                    backend_exit_policy: kept_always(keep),
                    ..before
                }),
        ),
        changes(
            app,
            seq!["set"@, "keep-core-on-exit"@, value] + rest,
            Step::Save(Saved::Say("backend-exit-policy => "@ + policy_word(kept_always(keep)))),
            |before: VergeConfig,
            after: VergeConfig| after
                == (VergeConfig {
                    keep_core_on_exit: keep,
                    backend_exit_policy: kept_always(keep),
                    ..before
                }),
        ),
{
    lemma_words_differ();
    let l0: Words = seq!["backend"@, "keep"@, value] + rest;
    assert(l0[0] == "backend"@ && l0[1] == "keep"@ && l0[2] == value && l0.len() >= 3);
    let l1: Words = seq!["set"@, "keep-core-on-exit"@, value] + rest;
    assert(l1[0] == "set"@ && l1[1] == "keep-core-on-exit"@ && l1[2] == value && l1.len() >= 3);
}

/// `backend policy` and `set backend-exit-policy` keep the policy that they name; the answer of old
/// stays only where it will be asked for.
pub proof fn law_typed_policy(app: App, value: Seq<char>, policy: BackendExitPolicy, rest: Words)
    requires
        config::policy_of(value) == Some(policy),
    ensures
        changes(
            app,
            seq!["backend"@, "policy"@, value] + rest,
            Step::Save(Saved::Say("backend-exit-policy => "@ + policy_word(policy))),
            |before: VergeConfig,
            after: VergeConfig| after.backend_exit_policy == policy
                && after
                    == (VergeConfig {
                        backend_exit_policy: policy,
                        keep_core_on_exit: after.keep_core_on_exit,
                        ..before
                    })
                && (policy == BackendExitPolicy::AlwaysOn ==> after.keep_core_on_exit)
                && (policy == BackendExitPolicy::AlwaysOff ==> !after.keep_core_on_exit)
                && (policy == BackendExitPolicy::Query
                    ==> after.keep_core_on_exit == before.keep_core_on_exit),
        ),
        changes(
            app,
            seq!["set"@, "backend-exit-policy"@, value] + rest,
            Step::Save(Saved::Say("backend-exit-policy => "@ + policy_word(policy))),
            |before: VergeConfig,
            after: VergeConfig| after.backend_exit_policy == policy
                && after
                    == (VergeConfig {
                        backend_exit_policy: policy,
                        keep_core_on_exit: after.keep_core_on_exit,
                        ..before
                    })
                && (policy == BackendExitPolicy::AlwaysOn ==> after.keep_core_on_exit)
                && (policy == BackendExitPolicy::AlwaysOff ==> !after.keep_core_on_exit)
                && (policy == BackendExitPolicy::Query
                    ==> after.keep_core_on_exit == before.keep_core_on_exit),
        ),
{
    lemma_words_differ();
    let l0: Words = seq!["backend"@, "policy"@, value] + rest;
    assert(l0[0] == "backend"@ && l0[1] == "policy"@ && l0[2] == value && l0.len() >= 3);
    let l1: Words = seq!["set"@, "backend-exit-policy"@, value] + rest;
    assert(l1[0] == "set"@ && l1[1] == "backend-exit-policy"@ && l1[2] == value && l1.len() >= 3);
}

/// `use` puts the cursor on the first profile with the uid, and makes it the current one; where
/// there is none, it says so.
pub proof fn law_typed_use(app: App, uid: Seq<char>, i: int, rest: Words)
    ensures
        is_first_profile(app, uid, i) ==> uses(app, seq!["use"@, uid] + rest, i),
        is_no_profile(app, uid)
            ==> tells(app, seq!["use"@, uid] + rest, "profile not found: "@ + uid),
        tells(app, seq!["use"@], "usage: use <profile_uid>"@),
{
    lemma_words_differ();
    let l0: Words = seq!["use"@, uid] + rest;
    assert(l0[0] == "use"@ && l0[1] == uid && l0.len() >= 2);
    let l1: Words = seq!["use"@];
    assert(l1[0] == "use"@ && l1.len() >= 1);
    profile::lemma_profile_index(app.store.state.profiles@, uid);
    let n = profile::profile_index(app.store.state.profiles@, uid);
    assert(0 <= i < n ==> app.store.state.profiles@[i].uid@ != uid);
    assert(0 <= n < i && n < app.store.state.profiles@.len()
        ==> app.store.state.profiles@[n].uid@ == uid);
}

/// `help` shows the help and does nothing else.
pub proof fn law_typed_help(app: App, rest: Words)
    ensures
        run::screen_for(app, command::command_of(seq!["help"@] + rest))
            == (Screen { show_help_overlay: true, ..app.screen }),
        run::step_for(app, command::command_of(seq!["help"@] + rest))
            == (NextModel { notes: seq![], step: Step::Done }),
        forall|before: VergeConfig, after: VergeConfig| #[trigger] run::sets(
            command::command_of(seq!["help"@] + rest),
            before,
            after,
        )
            ==> after == before,
{
    lemma_words_differ();
    let l0: Words = seq!["help"@] + rest;
    assert(l0[0] == "help"@ && l0.len() >= 1);
}

/// `quit` and `exit` mean the same.
pub proof fn law_typed_quit(app: App, rest: Words)
    ensures
        command::command_of(seq!["quit"@] + rest) == Command::<Seq<char>>::Quit,
        command::command_of(seq!["exit"@] + rest) == Command::<Seq<char>>::Quit,
        run::step_for(app, Command::Quit) == (NextModel { notes: seq![], step: Step::Done }),
{
    lemma_words_differ();
    let l0: Words = seq!["quit"@] + rest;
    assert(l0[0] == "quit"@ && l0.len() >= 1);
    let l1: Words = seq!["exit"@] + rest;
    assert(l1[0] == "exit"@ && l1.len() >= 1);
}

/// `logpath` tells where the log files are, as far as there are any.
pub proof fn law_typed_logpath(app: App, rest: Words)
    ensures
        run::step_for(app, command::command_of(seq!["logpath"@] + rest)).step
            == Step::<Seq<char>>::Done,
        run::step_for(app, command::command_of(seq!["logpath"@] + rest)).notes == log_places(app),
        leaves(app, seq!["logpath"@] + rest),
{
    lemma_words_differ();
    let l0: Words = seq!["logpath"@] + rest;
    assert(l0[0] == "logpath"@ && l0.len() >= 1);
    assert(run::step_for(app, command::command_of(l0)).notes =~= log_places(app));
}

/// A word that is not known in its place is told, and nothing else is done.
pub proof fn law_unknown_words(app: App, word: Seq<char>, rest: Words)
    ensures
        word != "on"@ && word != "off"@ && word != "toggle"@
            ==> tells(app, seq!["sysproxy"@, word] + rest, "usage: sysproxy [on|off|toggle]"@),
        word != "proxies"@ && word != "subscriptions"@
            ==> tells(app, seq!["reload"@, word] + rest, "usage: reload proxies|subscriptions"@),
        word != "sysproxy"@ && word != "tun"@
            ==> tells(app, seq!["toggle"@, word] + rest, "usage: toggle sysproxy|tun"@),
        config::switch_of(word) is None
            ==> tells(app, seq!["backend"@, "keep"@, word] + rest, "usage: backend keep <on|off>"@),
        config::policy_of(word) is None
            ==> tells(
                app,
                seq!["backend"@, "policy"@, word] + rest,
                "usage: backend policy <always-on|always-off|query>"@,
            ),
{
    lemma_words_differ();
    let l0: Words = seq!["sysproxy"@, word] + rest;
    assert(l0[0] == "sysproxy"@ && l0[1] == word && l0.len() >= 2);
    let l1: Words = seq!["reload"@, word] + rest;
    assert(l1[0] == "reload"@ && l1[1] == word && l1.len() >= 2);
    let l2: Words = seq!["toggle"@, word] + rest;
    assert(l2[0] == "toggle"@ && l2[1] == word && l2.len() >= 2);
    let l3: Words = seq!["backend"@, "keep"@, word] + rest;
    assert(l3[0] == "backend"@ && l3[1] == "keep"@ && l3[2] == word && l3.len() >= 3);
    let l4: Words = seq!["backend"@, "policy"@, word] + rest;
    assert(l4[0] == "backend"@ && l4[1] == "policy"@ && l4[2] == word && l4.len() >= 3);
}

/// A command that lacks a word tells what it needs, and nothing else is done.
pub proof fn law_missing_words(app: App)
    ensures
        tells(app, seq!["reload"@], "usage: reload proxies|subscriptions"@),
        tells(app, seq!["toggle"@], "usage: toggle sysproxy|tun"@),
        tells(app, seq!["backend"@, "keep"@], "usage: backend keep <on|off>"@),
        tells(
            app,
            seq!["backend"@, "policy"@],
            "usage: backend policy <always-on|always-off|query>"@,
        ),
        tells(app, seq!["set"@, "controller"@], "usage: set controller <url>"@),
        tells(app, seq!["set"@, "secret"@], "usage: set secret <secret>"@),
        tells(app, seq!["set"@, "mixed-port"@], "usage: set mixed-port <port>"@),
        tells(app, seq!["set"@, "proxy-host"@], "usage: set proxy-host <host>"@),
        tells(app, seq!["set"@, "cleanup-on-exit"@], "usage: set cleanup-on-exit <on|off>"@),
        tells(app, seq!["set"@, "keep-core-on-exit"@], "usage: set keep-core-on-exit <on|off>"@),
        tells(
            app,
            seq!["set"@, "backend-exit-policy"@],
            "usage: set backend-exit-policy <always-on|always-off|query>"@,
        ),
        tells(app, seq!["set"@, "auto-update"@], "usage: set auto-update <off|minutes>"@),
{
    lemma_words_differ();
    let l0: Words = seq!["reload"@];
    assert(l0[0] == "reload"@ && l0.len() >= 1);
    let l1: Words = seq!["toggle"@];
    assert(l1[0] == "toggle"@ && l1.len() >= 1);
    let l2: Words = seq!["backend"@, "keep"@];
    assert(l2[0] == "backend"@ && l2[1] == "keep"@ && l2.len() >= 2);
    let l3: Words = seq!["backend"@, "policy"@];
    assert(l3[0] == "backend"@ && l3[1] == "policy"@ && l3.len() >= 2);
    let l4: Words = seq!["set"@, "controller"@];
    assert(l4[0] == "set"@ && l4[1] == "controller"@ && l4.len() >= 2);
    let l5: Words = seq!["set"@, "secret"@];
    assert(l5[0] == "set"@ && l5[1] == "secret"@ && l5.len() >= 2);
    let l6: Words = seq!["set"@, "mixed-port"@];
    assert(l6[0] == "set"@ && l6[1] == "mixed-port"@ && l6.len() >= 2);
    let l7: Words = seq!["set"@, "proxy-host"@];
    assert(l7[0] == "set"@ && l7[1] == "proxy-host"@ && l7.len() >= 2);
    let l8: Words = seq!["set"@, "cleanup-on-exit"@];
    assert(l8[0] == "set"@ && l8[1] == "cleanup-on-exit"@ && l8.len() >= 2);
    let l9: Words = seq!["set"@, "keep-core-on-exit"@];
    assert(l9[0] == "set"@ && l9[1] == "keep-core-on-exit"@ && l9.len() >= 2);
    let l10: Words = seq!["set"@, "backend-exit-policy"@];
    assert(l10[0] == "set"@ && l10[1] == "backend-exit-policy"@ && l10.len() >= 2);
    let l11: Words = seq!["set"@, "auto-update"@];
    assert(l11[0] == "set"@ && l11[1] == "auto-update"@ && l11.len() >= 2);
}

/// The first word decides: a line that starts with no command is told to be unknown.
pub proof fn law_words_that_mean_nothing(app: App, line: Words)
    requires
        line.len() > 0,
        line[0] != "help"@,
        line[0] != "sysproxy"@,
        line[0] != "doctor"@,
        line[0] != "logpath"@,
        line[0] != "health"@,
        line[0] != "adopt"@,
        line[0] != "import"@,
        line[0] != "reload"@,
        line[0] != "update"@,
        line[0] != "autosub"@,
        line[0] != "switch"@,
        line[0] != "delay"@,
        line[0] != "mode"@,
        line[0] != "cleanup"@,
        line[0] != "backend"@,
        line[0] != "toggle"@,
        line[0] != "set"@,
        line[0] != "use"@,
        line[0] != "save"@,
        line[0] != "quit"@,
        line[0] != "exit"@,
    ensures
        tells(app, line, "unknown command: "@ + line[0]),
{
    lemma_words_differ();
}

} // verus!
