//! What is shown and told: figures, lists and lines.

use crate::apply;
use crate::config;
use crate::config::BackendExitPolicy;
use crate::figures;
use crate::laws::lines;
use crate::laws::steps;
use crate::number;
use crate::process;
use crate::profile::ProfileItem;
use crate::proxies::Group;
use crate::render;
use crate::report;
use crate::report::DoctorFacts;
use crate::screen::{ExitConfirmChoice, ProxyFocus, Tab};
use crate::session;
use crate::session::App;
use crate::text;
use vstd::prelude::*;

verus! {

/// A number with at least two digits.
pub open spec fn two_digits(n: nat) -> Seq<char> {
    if n < 10 {
        seq!['0'] + number::dec(n)
    } else {
        number::dec(n)
    }
}

/// A time is written as hours, minutes and seconds.
pub proof fn law_times(hours: nat, minutes: nat, seconds: nat)
    requires
        minutes < 60,
        seconds < 60,
    ensures
        figures::hms(hours * 3600 + minutes * 60 + seconds) == two_digits(hours) + ":"@
            + two_digits(minutes) + ":"@ + two_digits(seconds),
        hours < 24 ==> figures::time_of_day(hours * 3600 + minutes * 60 + seconds) == two_digits(
            hours,
        ) + ":"@ + two_digits(minutes) + ":"@ + two_digits(seconds),
{
    let t = hours * 3600 + minutes * 60 + seconds;
    assert(t / 3600 == hours && (t % 3600) / 60 == minutes && t % 60 == seconds);
    if hours < 24 {
        assert(t % 86400 == t);
    }
}

/// A day later the clock shows the same.
pub proof fn law_clock_repeats(seconds: nat, days: nat)
    ensures
        figures::time_of_day(seconds + 86400 * days) == figures::time_of_day(seconds),
{
    assert((seconds + 86400 * days) % 86400 == seconds % 86400) by (nonlinear_arith);
}

/// An amount is written in the greatest unit of which it holds one, with one digit behind the point
/// that is not rounded up.
pub proof fn law_sizes(n: nat)
    ensures
        n < 1024 ==> figures::size_text(n) == number::dec(n) + " "@ + "B"@,
        1024 <= n < 1024 * 1024 ==> figures::size_text(n) == number::dec(n / 1024) + "."@
            + number::dec((n % 1024) * 10 / 1024) + " "@ + "KB"@,
        1024 * 1024 <= n < 1024 * 1024 * 1024 ==> figures::size_text(n) == number::dec(
            n / 1048576,
        ) + "."@ + number::dec(((n / 1024) % 1024) * 10 / 1024) + " "@ + "MB"@,
        1024 * 1024 * 1024 <= n < 1024 * 1024 * 1024 * 1024 ==> figures::size_text(n)
            == number::dec(n / 1073741824) + "."@ + number::dec(((n / 1048576) % 1024) * 10 / 1024)
            + " "@ + "GB"@,
        n >= 1024 * 1024 * 1024 * 1024 ==> figures::size_text(n) == number::dec(
            n / 1099511627776,
        ) + "."@ + number::dec(((n / 1073741824) % 1024) * 10 / 1024) + " "@ + "TB"@,
{
}

/// Padding puts blanks behind a text, or before it, up to the width, and takes nothing away.
pub proof fn law_padding(s: Seq<char>, width: nat)
    ensures
        figures::padded_right(s, width) == s + Seq::new(
            if s.len() < width {
                (width - s.len()) as nat
            } else {
                0
            },
            |i: int| ' ',
        ),
        figures::padded_left(s, width) == Seq::new(
            if s.len() < width {
                (width - s.len()) as nat
            } else {
                0
            },
            |i: int| ' ',
        ) + s,
    decreases width - s.len(),
{
    if s.len() < width {
        let n = (width - s.len()) as nat;
        let m = (n - 1) as nat;
        law_padding(s.push(' '), width);
        law_padding(seq![' '] + s, width);
        assert(s.push(' ') + Seq::new(m, |i: int| ' ') =~= s + Seq::new(n, |i: int| ' '));
        assert(Seq::new(m, |i: int| ' ') + (seq![' '] + s) =~= Seq::new(n, |i: int| ' ') + s);
    } else {
        assert(s + Seq::new(0, |i: int| ' ') =~= s);
        assert(Seq::new(0, |i: int| ' ') + s =~= s);
    }
}

/// A line of the log starts with the time.
pub proof fn law_log_lines(seconds: nat, message: Seq<char>)
    ensures
        session::log_line(seconds, message) == "["@ + figures::time_of_day(seconds) + "] "@
            + message,
{
}

/// How a switch is shown.
pub proof fn law_switches_are_shown(on: bool, marked: bool)
    ensures
        render::on_off(true) == "ON"@,
        render::on_off(false) == "OFF"@,
        render::enabled(true) == "ENABLED"@,
        render::enabled(false) == "DISABLED"@,
        render::marker(true) == "*"@,
        render::marker(false) == " "@,
        number::bool_text(true) == "true"@,
        number::bool_text(false) == "false"@,
        config::policy_label(BackendExitPolicy::AlwaysOn) == "always-on"@,
        config::policy_label(BackendExitPolicy::AlwaysOff) == "always-off"@,
        config::policy_label(BackendExitPolicy::Query) == "query"@,
{
}

/// The head of the panel tells how long it runs, its current profile, both switches, the
/// controller, and which tab is shown.
pub proof fn law_header(app: App, uptime: nat)
    ensures
        ({
            let head = render::header(app, uptime);
            let v = app.store.state.verge;
            let current = match app.store.state.current {
                Some(uid) => uid@,
                None => "-"@,
            };
            let sys = if v.enable_system_proxy {
                "ON"@
            } else {
                "OFF"@
            };
            let tun = if v.enable_tun_mode {
                "ON"@
            } else {
                "OFF"@
            };
            &&& head.len() == 3
            &&& head[0] == " VERGE-TUI  uptime "@ + figures::hms(uptime) + "  ticks "@
                + number::dec(app.tick_count as nat) + "  profile "@ + current + "  "@
            &&& head[1] == " SYS:"@ + sys + "  TUN:"@ + tun + "  Controller:"@
                + app.mihomo.spec_label() + " "@
            &&& app.screen.tab_index == 0 ==> head[2] == "["@ + "Overview"@ + "]"@ + "  "@
                + "Profiles"@ + "  "@ + "Proxies"@ + "  "@ + "Logs"@
            &&& app.screen.tab_index == 1 ==> head[2] == "Overview"@ + "  "@ + ("["@ + "Profiles"@
                + "]"@) + "  "@ + "Proxies"@ + "  "@ + "Logs"@
            &&& app.screen.tab_index == 2 ==> head[2] == "Overview"@ + "  "@ + "Profiles"@ + "  "@
                + ("["@ + "Proxies"@ + "]"@) + "  "@ + "Logs"@
            &&& app.screen.tab_index == 3 ==> head[2] == "Overview"@ + "  "@ + "Profiles"@ + "  "@
                + "Proxies"@ + "  "@ + ("["@ + "Logs"@ + "]"@)
        }),
{
}

/// The overview tells the current profile by its name, how many profiles and groups there are,
/// where the proxy is, both switches, and how the panel is left.
pub proof fn law_overview(app: App, i: int)
    ensures
        ({
            let lines = render::overview(app);
            let v = app.store.state.verge;
            let keep = app.screen.keeps_backend(v.backend_exit_policy, v.keep_core_on_exit);
            &&& lines.len() == 8
            &&& app.store.state.current is None ==> lines[0] == "Current Profile : "@ + "-"@
            &&& lines[1] == "Profiles Count  : "@ + number::dec(app.store.state.profiles@.len())
            &&& lines[2] == "Proxy Groups    : "@ + number::dec(app.proxy_groups@.len())
            &&& lines[3] == "Proxy Endpoint  : "@ + v.proxy_host@ + ":"@ + number::dec(
                v.mixed_port as nat,
            )
            &&& lines[4] == "System Proxy    : "@ + (if v.enable_system_proxy {
                "ENABLED"@
            } else {
                "DISABLED"@
            })
            &&& lines[5] == "TUN Mode        : "@ + (if v.enable_tun_mode {
                "ENABLED"@
            } else {
                "DISABLED"@
            })
            &&& v.auto_update_subscription_minutes == 0 ==> lines[6] == "Auto Update     : "@
                + "DISABLED"@
            &&& v.auto_update_subscription_minutes > 0 ==> lines[6] == "Auto Update     : "@ + (
            number::dec(v.auto_update_subscription_minutes as nat) + " min"@)
            &&& lines[7] == "Exit Policy     : cleanup="@ + steps::yes_word(v.auto_cleanup_on_exit)
                + " backend="@ + lines::policy_word(v.backend_exit_policy) + " (effective keep="@
                + steps::yes_word(keep) + ")"@
        }),
        app.store.state.current is Some && 0 <= i < app.store.state.profiles@.len()
            && app.store.state.profiles@[i].uid@ == app.store.state.current->0@ && (forall|j: int|
            0 <= j < i ==> (#[trigger] app.store.state.profiles@[j]).uid@
                != app.store.state.current->0@) ==> render::overview(app)[0]
            == "Current Profile : "@ + app.store.state.profiles@[i].name@ && apply::current_index(
            app.store.state,
        ) == Some(i),
{
    if app.store.state.current is Some {
        let uid = app.store.state.current->0@;
        let profiles = app.store.state.profiles@;
        crate::profile::lemma_profile_index(profiles, uid);
        let n = crate::profile::profile_index(profiles, uid);
        assert(0 <= i < n ==> profiles[i].uid@ != uid);
        assert(0 <= n < i && n < profiles.len() ==> profiles[n].uid@ == uid);
    }
}

/// The greatest of some values is one of them, and none is greater.
pub proof fn law_greatest(values: Seq<u64>)
    requires
        values.len() > 0,
    ensures
        values.contains(render::greatest(values)),
        forall|i: int| 0 <= i < values.len() ==> #[trigger] values[i] <= render::greatest(values),
    decreases values.len(),
{
    if values.len() == 1 {
        assert(values[0] == render::greatest(values));
    } else {
        let front = values.drop_last();
        law_greatest(front);
        let g = render::greatest(front);
        let k = front.index_of(g);
        assert(values[k] == g);
        assert(values[values.len() - 1] == values.last());
        assert forall|i: int| 0 <= i < values.len() implies #[trigger] values[i]
            <= render::greatest(values) by {
            if i < front.len() {
                assert(front[i] == values[i]);
            }
        }
    }
}

/// A profile is shown with its uid and its name, a star where it is the current one, and how much
/// of its plan is used: what was sent up and down together.
pub proof fn law_profiles_are_shown(app: App, p: ProfileItem)
    ensures
        ({
            let current = app.store.state.current is Some && app.store.state.current->0@ == p.uid@;
            let star = if current {
                "*"@
            } else {
                " "@
            };
            let item = render::profile_item(app, p);
            let lines = render::profile_detail(app, p);
            &&& p.extra is None ==> item == star + " ["@ + p.uid@ + "] "@ + p.name@
            &&& p.extra is Some ==> item == star + " ["@ + p.uid@ + "] "@ + p.name@ + (" usage="@
                + number::dec((p.extra->0.upload + p.extra->0.download) as nat) + "/"@
                + number::dec(p.extra->0.total as nat))
            &&& lines.len() == 7
            &&& lines[0] == "Name       : "@ + p.name@
            &&& lines[1] == "UID        : "@ + p.uid@
            &&& lines[2] == "Current    : "@ + (if current {
                "YES"@
            } else {
                "NO"@
            })
            &&& lines[3] == "Updated    : "@ + number::dec(p.updated as nat)
            &&& lines[4] == "URL        : "@ + p.url@
            &&& p.extra is Some ==> lines[5] == "Usage      : "@ + (figures::size_text(
                (p.extra->0.upload + p.extra->0.download) as nat,
            ) + "/"@ + figures::size_text(p.extra->0.total as nat))
            &&& p.extra is Some ==> lines[6] == "Expire     : "@ + number::dec(
                p.extra->0.expire as nat,
            )
            &&& p.extra is None ==> lines[5] == "Usage      : "@ + "-/-"@ && lines[6]
                == "Expire     : "@ + "-"@
        }),
{
    assert(render::profile_item(app, p) =~= render::profile_item(app, p) + seq![]);
}

/// The overview shows the first eight profiles.
pub proof fn law_snapshot(app: App, i: int)
    ensures
        ({
            let profiles = app.store.state.profiles@;
            let shown = render::snapshot(app);
            &&& shown.len() == if profiles.len() < 8 {
                profiles.len()
            } else {
                8
            }
            &&& 0 <= i < shown.len() ==> shown[i] == (if app.store.state.current is Some
                && app.store.state.current->0@ == profiles[i].uid@ {
                "*"@
            } else {
                " "@
            }) + " "@ + profiles[i].name@
        }),
{
}

/// The totals of a session.
pub proof fn law_session_totals(app: App)
    ensures
        ({
            let lines = render::session_stats(app);
            &&& lines.len() == 4
            &&& lines[0] == "Upload Total   : "@ + figures::size_text(
                app.connections.upload_total as nat,
            )
            &&& lines[1] == "Download Total : "@ + figures::size_text(
                app.connections.download_total as nat,
            )
            &&& lines[2] == "Tick Rate      : 200ms"@
            &&& lines[3] == "Rendered Ticks : "@ + number::dec(app.tick_count as nat)
        }),
{
}

/// A group is shown with its kind, its name and its choice.
pub proof fn law_groups_are_shown(g: Group)
    ensures
        render::group_item(g) == "["@ + g.kind + "] "@ + g.name + " -> "@ + g.now,
{
}

/// A candidate is shown with a star where the group has chosen it, and with the delay that is known
/// of it.
pub proof fn law_candidates_are_shown(name: Seq<char>, now: Seq<char>, delays: Map<Seq<char>, u64>)
    ensures
        ({
            let star = if name == now {
                "*"@
            } else {
                " "@
            };
            &&& delays.dom().contains(name) ==> render::candidate_item(name, now, delays) == star
                + " "@ + figures::padded_right(name, 36) + " "@ + (figures::padded_left(
                number::dec(delays[name] as nat),
                4,
            ) + "ms"@)
            &&& !delays.dom().contains(name) ==> render::candidate_item(name, now, delays) == star
                + " "@ + figures::padded_right(name, 36) + " "@ + "   - "@
            &&& delays.dom().contains(name) ==> render::delay_text(name, delays) == number::dec(
                delays[name] as nat,
            ) + " ms"@
            &&& !delays.dom().contains(name) ==> render::delay_text(name, delays) == "-"@
        }),
{
}

/// The candidates that are shown are those of the group under the cursor, in their order.
pub proof fn law_shown_candidates(app: App, i: int)
    ensures
        app.screen.selected_group_idx < app.groups().len() ==> {
            let g = app.groups()[app.screen.selected_group_idx as int];
            &&& render::candidates(app).len() == g.candidates.len()
            &&& 0 <= i < g.candidates.len() ==> render::candidates(app)[i] == render::candidate_item(
                g.candidates[i],
                g.now,
                app.delay_cache@,
            )
        },
        app.screen.selected_group_idx >= app.groups().len() ==> render::candidates(app) == seq![
            "No proxy group"@,
        ],
{
}

/// A delay test of all nodes is shown as it stands.
pub proof fn law_test_is_shown(app: App)
    ensures
        app.bulk.running ==> render::bulk_status(app) == "RUNNING "@ + number::dec(
            app.bulk.done as nat,
        ) + "/"@ + number::dec(app.bulk.total as nat),
        !app.bulk.running && app.bulk.total > 0 ==> render::bulk_status(app) == "DONE "@
            + number::dec(app.bulk.success as nat) + "/"@ + number::dec(app.bulk.total as nat),
        !app.bulk.running && app.bulk.total == 0 ==> render::bulk_status(app) == "IDLE"@,
{
}

/// What is told of the group under the cursor, and of the candidate in it.
pub proof fn law_group_detail(app: App, g: Group)
    ensures
        ({
            let lines = render::group_detail(app, g);
            let at = app.screen.selected_proxy_idx as int;
            let name = if at < g.candidates.len() {
                g.candidates[at]
            } else {
                "-"@
            };
            &&& lines.len() == 7
            &&& lines[0] == "Group   : "@ + g.name
            &&& lines[1] == "Type    : "@ + g.kind
            &&& lines[2] == "Now     : "@ + g.now
            &&& lines[3] == "Select  : "@ + name
            &&& lines[4] == "Delay   : "@ + render::delay_text(name, app.delay_cache@)
            &&& lines[5] == "Choices : "@ + number::dec(g.candidates.len())
            &&& lines[6] == "Bulk    : "@ + render::bulk_status(app) + " (ok "@ + number::dec(
                app.bulk.success as nat,
            ) + ", fail "@ + number::dec(app.bulk.failed as nat) + ")"@
        }),
{
}

/// A line of the log that tells of a failure stands out, and so does one that tells of a success,
/// where it tells of no failure.
pub proof fn law_tones(before: Seq<char>, after: Seq<char>, line: Seq<char>)
    ensures
        render::tone_of(before + "failed"@ + after) == render::LogTone::Alarm,
        render::tone_of(before + "error"@ + after) == render::LogTone::Alarm,
        !text::has_text(line, "failed"@) && !text::has_text(line, "error"@) ==> (render::tone_of(
            line,
        ) == render::LogTone::Success <==> text::has_text(line, "imported"@) || text::has_text(
            line,
            "switched"@,
        ) || text::has_text(line, "applied"@)),
        render::tone_of(line) == render::LogTone::Alarm ==> text::has_text(line, "failed"@)
            || text::has_text(line, "error"@),
{
    steps::lemma_text_within(before, "failed"@, after);
    steps::lemma_text_within(before, "error"@, after);
}

/// The question on leaving marks the answer that Enter would take.
pub proof fn law_exit_question(app: App)
    ensures
        ({
            let lines = render::exit_question(app);
            &&& lines.len() == 9
            &&& lines[2] == "Current policy: "@ + lines::policy_word(
                app.store.state.verge.backend_exit_policy,
            )
            &&& app.screen.exit_confirm_choice == ExitConfirmChoice::KeepBackend ==> lines[5]
                == "[*] Keep Backend Running"@ && lines[6] == "[ ] Stop Backend And Cleanup"@
            &&& app.screen.exit_confirm_choice == ExitConfirmChoice::StopBackend ==> lines[5]
                == "[ ] Keep Backend Running"@ && lines[6] == "[*] Stop Backend And Cleanup"@
        }),
{
}

/// The hints name the keys of the tab that is shown.
pub proof fn law_hints(focus: ProxyFocus)
    ensures
        render::hints(Tab::Overview, focus)
            == "h/l,Tab: switch tab\nr: refresh proxies\n:: command mode\nq: quit"@,
        render::hints(Tab::Profiles, focus)
            == "j/k: move profile\nEnter: set current\nu: refresh subscription\nuse <uid>\n:help"@,
        render::hints(Tab::Proxies, ProxyFocus::Groups)
            == "j/k: select group\nEnter: focus candidates\nTab/h/l: switch tab\n:help"@,
        render::hints(Tab::Logs, focus) == "Scroll with terminal\n:save persist state\nq: quit"@,
{
}

/// What is told at the start.
pub proof fn law_boot_is_told(app: App, independent: bool, service: bool)
    ensures
        ({
            let lines = report::boot_notes(app, independent, service);
            let v = app.store.state.verge;
            &&& lines.len() >= 3
            &&& lines[0] == "startup: root="@ + app.store.paths.root@ + ", profiles="@
                + number::dec(app.store.state.profiles@.len()) + ", current="@ + (
            match app.store.state.current {
                Some(uid) => uid@,
                None => "-"@,
            }) + ", controller="@ + v.controller_url@ + ", mixed-port="@ + number::dec(
                v.mixed_port as nat,
            ) + ", sys="@ + steps::yes_word(v.enable_system_proxy) + ", tun="@ + steps::yes_word(
                v.enable_tun_mode,
            )
            &&& lines[1] == "startup mode: independent-core="@ + steps::yes_word(independent)
                + ", service-ipc="@ + steps::yes_word(service)
            &&& app.file_log_path is Some ==> lines.len() >= 4 && lines[3] == "file log: "@
                + app.file_log_path->0@
            &&& app.session_log_path is Some ==> lines.last() == "session log: "@
                + app.session_log_path->0@
        }),
{
}

/// What is told of the backend.
pub proof fn law_backend_is_told(app: App, pid: u32, alive: bool)
    ensures
        ({
            let lines = report::backend_notes(app, Some((pid, alive)));
            let none = report::backend_notes(app, None);
            let v = app.store.state.verge;
            let keep = app.screen.keeps_backend(v.backend_exit_policy, v.keep_core_on_exit);
            &&& lines.len() == 3 && none.len() == 3
            &&& lines[0] == "backend endpoint: "@ + app.mihomo.spec_label()
            &&& lines[1] == "backend-exit-policy="@ + lines::policy_word(v.backend_exit_policy)
                + " (effective keep="@ + steps::yes_word(keep) + ")"@
            &&& lines[2] == "managed core pid="@ + number::dec(pid as nat) + ", alive="@
                + steps::yes_word(alive)
            &&& none[2] == "managed core pid file: not found"@
        }),
{
}

/// What the check-up tells of the panel itself.
pub proof fn law_doctor_tells(
    app: App,
    f: DoctorFacts,
    platform: config::Platform,
    pid: u32,
    alive: bool,
)
    ensures
        ({
            let lines = report::doctor_state(app, f);
            let v = app.store.state.verge;
            let keep = app.screen.keeps_backend(v.backend_exit_policy, v.keep_core_on_exit);
            &&& lines.len() == 4
            &&& lines[0] == "doctor: independent-core="@ + steps::yes_word(f.independent)
                + ", service-ipc="@ + steps::yes_word(f.service)
            &&& lines[1] == "doctor: endpoint="@ + app.mihomo.spec_label()
            &&& lines[2] == "doctor: state mixed-port="@ + number::dec(v.mixed_port as nat)
                + ", sysproxy="@ + steps::yes_word(v.enable_system_proxy)
            &&& lines[3] == "doctor: cleanup-on-exit="@ + steps::yes_word(v.auto_cleanup_on_exit)
                + " backend-exit-policy="@ + lines::policy_word(v.backend_exit_policy)
                + " (effective keep="@ + steps::yes_word(keep) + ") "@ + crate::tick::status_line(
                v.auto_update_subscription_minutes,
                f.remaining,
            )
        }),
        report::doctor_core(f, platform).last() == "doctor: service ipc primary exists="@
            + steps::yes_word(f.primary_exists) + " legacy exists="@ + steps::yes_word(
            f.legacy_exists,
        ),
        f.core is Some ==> report::doctor_core(f, platform).contains(
            "doctor: core-bin="@ + f.core->0@,
        ),
        f.core is None ==> report::doctor_core(f, platform).contains(
            "doctor: core-bin not found in PATH"@,
        ),
        f.core is Some && f.caps == Some(false) ==> report::doctor_core(f, platform).contains(
            process::privilege_hint(platform, Some(f.core->0@)),
        ),
        f.pid == Some((pid, alive)) ==> report::doctor_core(f, platform).contains(
            "doctor: managed-core pid="@ + number::dec(pid as nat) + ", alive="@
                + steps::yes_word(alive),
        ),
{
    let d = report::doctor_core(f, platform);
    let n = if f.pid is Some {
        1int
    } else {
        0int
    };
    let m = n + if f.core_port is Some {
        1int
    } else {
        0int
    };
    if f.pid == Some((pid, alive)) {
        assert(d[0] == "doctor: managed-core pid="@ + number::dec(pid as nat) + ", alive="@
            + steps::yes_word(alive));
    }
    if f.core is Some {
        assert(d[m] == "doctor: core-bin="@ + f.core->0@);
        if f.caps == Some(false) {
            assert(d[m + 2] == process::privilege_hint(platform, Some(f.core->0@)));
        }
    } else {
        assert(d[m] == "doctor: core-bin not found in PATH"@);
    }
}

/// The start also tells how the panel will be left, and a missing log file is not told.
pub proof fn law_boot_policy_is_told(app: App, independent: bool, service: bool)
    ensures
        ({
            let lines = report::boot_notes(app, independent, service);
            let v = app.store.state.verge;
            &&& lines[2] == "startup policy: autosub="@ + number::dec(
                v.auto_update_subscription_minutes as nat,
            ) + "min cleanup-on-exit="@ + steps::yes_word(v.auto_cleanup_on_exit)
                + " backend-exit-policy="@ + lines::policy_word(v.backend_exit_policy)
                + " (legacy keep-core-on-exit="@ + steps::yes_word(v.keep_core_on_exit) + ")"@
            &&& app.file_log_path is None && app.session_log_path is None ==> lines.len() == 3
        }),
{
}

/// What the check-up tells of the core where it has the privileges that the tunnel needs, and of
/// its port.
pub proof fn law_doctor_core_tells(
    f: DoctorFacts,
    platform: config::Platform,
    path: String,
    port: u16,
)
    requires
        f.pid is None,
        f.core_port == Some(Some(port)),
        f.core == Some(path),
    ensures
        ({
            let lines = report::doctor_core(f, platform);
            &&& lines[0] == "doctor: core mixed-port="@ + ("Some("@ + number::dec(port as nat)
                + ")"@)
            &&& lines[1] == "doctor: core-bin="@ + path@
            &&& f.caps == Some(true) ==> lines.len() == 4 && lines[2]
                == "doctor: linux tun caps=true"@
            &&& f.caps == Some(false) ==> lines.len() == 5 && lines[2]
                == "doctor: linux tun caps=false"@
            &&& f.caps is None ==> lines.len() == 3
        }),
{
}

/// The rest of the question on leaving.
pub proof fn law_exit_question_lines(app: App)
    ensures
        ({
            let lines = render::exit_question(app);
            &&& lines[0] == "Exit verge-tui"@
            &&& lines[1] == ""@ && lines[4] == ""@ && lines[7] == ""@
            &&& lines[3] == "Choose what to do with backend when leaving UI:"@
        }),
{
}

} // verus!
