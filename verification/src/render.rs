//! The texts on the screen.

use crate::apply;
use crate::config;
use crate::figures;
use crate::number;
use crate::profile::ProfileItem;
use crate::proxies;
use crate::proxies::ProxyGroupView;
use crate::screen::ExitConfirmChoice;
use crate::screen::ProxyFocus;
use crate::screen::Tab;
use crate::session::App;
use crate::text;
use std::collections::VecDeque;
use vstd::prelude::*;

verus! {

/// The part of an overlay's side that is left free at either end, in percent.
pub fn overlay_margin(percent: u16) -> (r: u16)
    requires
        percent <= 100,
    ensures
        r == (100 - percent) / 2,
{
    (100 - percent) / 2
}

pub open spec fn on_off(on: bool) -> Seq<char> {
    if on {
        "ON"@
    } else {
        "OFF"@
    }
}

fn on_off_text(on: bool) -> (r: &'static str)
    ensures
        r@ == on_off(on),
{
    if on {
        "ON"
    } else {
        "OFF"
    }
}

pub open spec fn enabled(on: bool) -> Seq<char> {
    if on {
        "ENABLED"@
    } else {
        "DISABLED"@
    }
}

fn enabled_text(on: bool) -> (r: &'static str)
    ensures
        r@ == enabled(on),
{
    if on {
        "ENABLED"
    } else {
        "DISABLED"
    }
}

/// A tab's title, in brackets where the tab is shown.
pub open spec fn tab_label(tab: Tab, shown: bool) -> Seq<char> {
    if shown {
        "["@ + tab.spec_title() + "]"@
    } else {
        tab.spec_title()
    }
}

fn tab_text(tab: Tab, shown: bool) -> (r: String)
    ensures
        r@ == tab_label(tab, shown),
{
    if shown {
        text::cat3("[", tab.title(), "]")
    } else {
        tab.title().to_owned()
    }
}

/// The row of tabs.
pub open spec fn tabs_line(index: int) -> Seq<char> {
    tab_label(Tab::Overview, index == 0) + "  "@ + tab_label(Tab::Profiles, index == 1) + "  "@
        + tab_label(Tab::Proxies, index == 2) + "  "@ + tab_label(Tab::Logs, index == 3)
}

/// The head of the screen; `uptime` in seconds.
pub open spec fn header(app: App, uptime: nat) -> Seq<Seq<char>> {
    seq![
        " VERGE-TUI  uptime "@ + figures::hms(uptime) + "  ticks "@ + number::dec(
            app.tick_count as nat,
        ) + "  profile "@ + (match app.store.state.current {
            Some(uid) => uid@,
            None => "-"@,
        }) + "  "@,
        " SYS:"@ + on_off(app.verge().enable_system_proxy) + "  TUN:"@ + on_off(
            app.verge().enable_tun_mode,
        ) + "  Controller:"@ + app.mihomo.spec_label() + " "@,
        tabs_line(app.screen.tab_index as int),
    ]
}

pub fn header_lines(app: &App, uptime: u64) -> (r: Vec<String>)
    ensures
        text::texts(r@) == header(*app, uptime as nat),
{
    let current = match &app.store.state.current {
        Some(uid) => uid.as_str(),
        None => "-",
    };
    let a = text::cat5(
        " VERGE-TUI  uptime ",
        figures::duration_hms(uptime).as_str(),
        "  ticks ",
        number::to_dec(app.tick_count).as_str(),
        "  profile ",
    );
    let b = text::cat5(
        " SYS:",
        on_off_text(app.store.state.verge.enable_system_proxy),
        "  TUN:",
        on_off_text(app.store.state.verge.enable_tun_mode),
        "  Controller:",
    );
    let i: usize = app.screen.tab_index;
    let c = text::cat4(
        tab_text(Tab::Overview, i == 0).as_str(),
        "  ",
        tab_text(Tab::Profiles, i == 1).as_str(),
        "  ",
    );
    let c = text::cat4(
        c.as_str(),
        tab_text(Tab::Proxies, i == 2).as_str(),
        "  ",
        tab_text(Tab::Logs, i == 3).as_str(),
    );
    let mut r: Vec<String> = Vec::new();
    r.push(text::cat3(a.as_str(), current, "  "));
    r.push(text::cat3(b.as_str(), app.mihomo.endpoint_label().as_str(), " "));
    r.push(c);
    assert(text::texts(r@) =~= header(*app, uptime as nat));
    r
}

/// How many lines of the log the feed shows.
pub const FEED_LINES: usize = 6;

/// The last lines of the log, oldest first.
pub fn event_feed(logs: &VecDeque<String>) -> (r: Vec<String>)
    ensures
        r@ == if logs@.len() > FEED_LINES {
            logs@.skip(logs@.len() - FEED_LINES)
        } else {
            logs@
        },
{
    let from: usize = if logs.len() > FEED_LINES {
        logs.len() - FEED_LINES
    } else {
        0
    };
    let ghost wanted = logs@.skip(from as int);
    let mut r: Vec<String> = Vec::new();
    let mut i: usize = from;
    while i < logs.len()
        invariant
            from <= i <= logs@.len(),
            wanted == logs@.skip(from as int),
            r@ == wanted.take(i - from),
        decreases logs@.len() - i,
    {
        r.push(logs[i].clone());
        assert(wanted.take(i + 1 - from) =~= wanted.take(i - from).push(logs@[i as int]));
        i = i + 1;
    }
    assert(wanted.take(i - from) =~= wanted);
    assert(from == 0 ==> wanted =~= logs@);
    r
}

/// The keys that are told for a tab.
pub open spec fn hints(tab: Tab, focus: ProxyFocus) -> Seq<char> {
    match tab {
        Tab::Overview => "h/l,Tab: switch tab\nr: refresh proxies\n:: command mode\nq: quit"@,
        Tab::Profiles => "j/k: move profile\nEnter: set current\nu: refresh subscription\nuse <uid>\n:help"@,
        Tab::Proxies => if focus == ProxyFocus::Groups {
            "j/k: select group\nEnter: focus candidates\nTab/h/l: switch tab\n:help"@
        } else {
            "[/],↑/↓/k: move node\nEnter: switch  t/T: delay\n←/h/j/Esc: back groups\n(tab locked)"@
        },
        Tab::Logs => "Scroll with terminal\n:save persist state\nq: quit"@,
    }
}

pub fn key_hints(tab: Tab, focus: ProxyFocus) -> (r: &'static str)
    ensures
        r@ == hints(tab, focus),
{
    match tab {
        Tab::Overview => "h/l,Tab: switch tab\nr: refresh proxies\n:: command mode\nq: quit",
        Tab::Profiles => "j/k: move profile\nEnter: set current\nu: refresh subscription\nuse <uid>\n:help",
        Tab::Proxies => {
            if focus == ProxyFocus::Groups {
                "j/k: select group\nEnter: focus candidates\nTab/h/l: switch tab\n:help"
            } else {
                "[/],↑/↓/k: move node\nEnter: switch  t/T: delay\n←/h/j/Esc: back groups\n(tab locked)"
            }
        },
        Tab::Logs => "Scroll with terminal\n:save persist state\nq: quit",
    }
}

/// The line where commands are typed.
pub fn command_text(app: &App) -> (r: String)
    ensures
        r@ == if app.screen.command_mode {
            ":"@ + app.command_input@
        } else {
            "Press ':' for commands"@
        },
{
    if app.screen.command_mode {
        text::cat2(":", app.command_input.as_str())
    } else {
        "Press ':' for commands".to_owned()
    }
}

/// The name of the current profile.
pub open spec fn current_name(app: App) -> Seq<char> {
    match apply::current_index(app.store.state) {
        Some(i) => app.store.state.profiles@[i].name@,
        None => "-"@,
    }
}

fn current_profile_name(app: &App) -> (r: String)
    ensures
        r@ == current_name(*app),
{
    match apply::current_profile(&app.store.state) {
        Some(i) => app.store.state.profiles[i].name.clone(),
        None => "-".to_owned(),
    }
}

/// How often subscriptions are updated.
pub open spec fn update_interval(minutes: u64) -> Seq<char> {
    if minutes == 0 {
        "DISABLED"@
    } else {
        number::dec(minutes as nat) + " min"@
    }
}

/// The state of the core, as the overview tells it.
pub open spec fn overview(app: App) -> Seq<Seq<char>> {
    let v = app.verge();
    seq![
        "Current Profile : "@ + current_name(app),
        "Profiles Count  : "@ + number::dec(app.store.state.profiles@.len()),
        "Proxy Groups    : "@ + number::dec(app.proxy_groups@.len()),
        "Proxy Endpoint  : "@ + v.proxy_host@ + ":"@ + number::dec(v.mixed_port as nat),
        "System Proxy    : "@ + enabled(v.enable_system_proxy),
        "TUN Mode        : "@ + enabled(v.enable_tun_mode),
        "Auto Update     : "@ + update_interval(v.auto_update_subscription_minutes),
        "Exit Policy     : cleanup="@ + number::bool_text(v.auto_cleanup_on_exit) + " backend="@
            + config::policy_label(v.backend_exit_policy) + " (effective keep="@
            + number::bool_text(
            app.screen.keeps_backend(v.backend_exit_policy, v.keep_core_on_exit),
        ) + ")"@,
    ]
}

pub fn overview_lines(app: &App) -> (r: Vec<String>)
    ensures
        text::texts(r@) == overview(*app),
{
    let v = &app.store.state.verge;
    let mut r: Vec<String> = Vec::new();
    r.push(text::cat2("Current Profile : ", current_profile_name(app).as_str()));
    r.push(
        text::cat2(
            "Profiles Count  : ",
            number::to_dec(app.store.state.profiles.len() as u64).as_str(),
        ),
    );
    r.push(
        text::cat2(
            "Proxy Groups    : ",
            number::to_dec(app.proxy_groups.len() as u64).as_str(),
        ),
    );
    r.push(
        text::cat4(
            "Proxy Endpoint  : ",
            v.proxy_host.as_str(),
            ":",
            number::to_dec(v.mixed_port as u64).as_str(),
        ),
    );
    r.push(text::cat2("System Proxy    : ", enabled_text(v.enable_system_proxy)));
    r.push(text::cat2("TUN Mode        : ", enabled_text(v.enable_tun_mode)));
    let minutes: u64 = v.auto_update_subscription_minutes;
    let interval = if minutes == 0 {
        "DISABLED".to_owned()
    } else {
        text::cat2(number::to_dec(minutes).as_str(), " min")
    };
    r.push(text::cat2("Auto Update     : ", interval.as_str()));
    let policy = text::cat5(
        "Exit Policy     : cleanup=",
        number::bool_str(v.auto_cleanup_on_exit),
        " backend=",
        config::backend_exit_policy_label(v.backend_exit_policy),
        " (effective keep=",
    );
    r.push(
        text::cat3(policy.as_str(), number::bool_str(app.effective_keep_core_on_exit()), ")"),
    );
    assert(text::texts(r@) =~= overview(*app));
    r
}

/// The greatest of some values, 1 where there are none.
pub open spec fn greatest(values: Seq<u64>) -> u64
    decreases values.len(),
{
    if values.len() == 0 {
        1
    } else if values.len() == 1 {
        values[0]
    } else {
        let rest = greatest(values.drop_last());
        if values.last() >= rest {
            values.last()
        } else {
            rest
        }
    }
}

/// The greatest value of a history.
pub fn history_max(history: &VecDeque<u64>) -> (r: u64)
    ensures
        r == greatest(history@),
{
    if history.len() == 0 {
        return 1;
    }
    let mut best: u64 = history[0];
    let mut i: usize = 1;
    assert(history@.take(1).len() == 1);
    while i < history.len()
        invariant
            1 <= i <= history@.len(),
            best == greatest(history@.take(i as int)),
        decreases history@.len() - i,
    {
        assert(history@.take(i + 1).drop_last() == history@.take(i as int));
        assert(history@.take(i + 1).last() == history@[i as int]);
        if history[i] >= best {
            best = history[i];
        }
        i = i + 1;
    }
    assert(history@.take(i as int) == history@);
    best
}

/// The greatest value is one of them, and none is greater.
pub proof fn law_greatest(values: Seq<u64>)
    requires
        values.len() > 0,
    ensures
        values.contains(greatest(values)),
        forall|i: int| 0 <= i < values.len() ==> #[trigger] values[i] <= greatest(values),
    decreases values.len(),
{
    if values.len() == 1 {
        assert(values[0] == greatest(values));
    } else {
        let front = values.drop_last();
        law_greatest(front);
        let rest = greatest(front);
        let k = choose|k: int| 0 <= k < front.len() && front[k] == rest;
        assert(values[k] == rest);
        assert(values[values.len() - 1] == values.last());
        assert forall|i: int| 0 <= i < values.len() implies #[trigger] values[i] <= greatest(
            values,
        ) by {
            if i < front.len() {
                assert(front[i] == values[i]);
            }
        }
    }
}

/// The titles of the two gauges.
pub fn gauge_titles(app: &App) -> (r: (String, String))
    ensures
        r.0@ == "Upload "@ + figures::size_text(app.traffic.up as nat),
        r.1@ == "Download "@ + figures::size_text(app.traffic.down as nat),
{
    (
        text::cat2("Upload ", figures::format_bytes(app.traffic.up).as_str()),
        text::cat2("Download ", figures::format_bytes(app.traffic.down).as_str()),
    )
}

/// Whether a profile is the current one.
pub open spec fn is_current(app: App, uid: Seq<char>) -> bool {
    text::opt_text(app.store.state.current) == Some(uid)
}

fn names_current(app: &App, uid: &str) -> (r: bool)
    ensures
        r == is_current(*app, uid@),
{
    match &app.store.state.current {
        Some(current) => text::same(current.as_str(), uid),
        None => false,
    }
}

pub open spec fn marker(marked: bool) -> Seq<char> {
    if marked {
        "*"@
    } else {
        " "@
    }
}

fn marker_text(marked: bool) -> (r: &'static str)
    ensures
        r@ == marker(marked),
{
    if marked {
        "*"
    } else {
        " "
    }
}

/// How many profiles the overview shows.
pub const SNAPSHOT_LINES: usize = 8;

/// The first profiles, the current one marked.
pub open spec fn snapshot(app: App) -> Seq<Seq<char>> {
    let profiles = app.store.state.profiles@;
    let n = if profiles.len() > SNAPSHOT_LINES {
        SNAPSHOT_LINES as nat
    } else {
        profiles.len()
    };
    Seq::new(
        n,
        |i: int| marker(is_current(app, profiles[i].uid@)) + " "@ + profiles[i].name@,
    )
}

pub fn profile_snapshot(app: &App) -> (r: Vec<String>)
    ensures
        text::texts(r@) == snapshot(*app),
{
    let profiles = &app.store.state.profiles;
    let n: usize = if profiles.len() > SNAPSHOT_LINES {
        SNAPSHOT_LINES
    } else {
        profiles.len()
    };
    let ghost wanted = snapshot(*app);
    let mut r: Vec<String> = Vec::new();
    let mut i: usize = 0;
    assert(text::texts(r@) =~= wanted.take(0));
    while i < n
        invariant
            i <= n <= profiles@.len(),
            n == wanted.len(),
            *profiles == app.store.state.profiles,
            wanted == snapshot(*app),
            text::texts(r@) == wanted.take(i as int),
        decreases n - i,
    {
        let ghost before = r@;
        let current = names_current(app, profiles[i].uid.as_str());
        r.push(text::cat3(marker_text(current), " ", profiles[i].name.as_str()));
        assert(text::texts(r@) =~= text::texts(before).push(wanted[i as int]));
        assert(wanted.take(i + 1) =~= wanted.take(i as int).push(wanted[i as int]));
        i = i + 1;
    }
    assert(wanted.take(i as int) =~= wanted);
    r
}

/// What the overview tells of the session.
pub open spec fn session_stats(app: App) -> Seq<Seq<char>> {
    seq![
        "Upload Total   : "@ + figures::size_text(app.connections.upload_total as nat),
        "Download Total : "@ + figures::size_text(app.connections.download_total as nat),
        "Tick Rate      : 200ms"@,
        "Rendered Ticks : "@ + number::dec(app.tick_count as nat),
    ]
}

pub fn session_stat_lines(app: &App) -> (r: Vec<String>)
    ensures
        text::texts(r@) == session_stats(*app),
{
    let mut r: Vec<String> = Vec::new();
    r.push(
        text::cat2(
            "Upload Total   : ",
            figures::format_bytes(app.connections.upload_total).as_str(),
        ),
    );
    r.push(
        text::cat2(
            "Download Total : ",
            figures::format_bytes(app.connections.download_total).as_str(),
        ),
    );
    r.push("Tick Rate      : 200ms".to_owned());
    r.push(text::cat2("Rendered Ticks : ", number::to_dec(app.tick_count).as_str()));
    assert(text::texts(r@) =~= session_stats(*app));
    r
}

/// Whether what a profile has used can be added up.
pub open spec fn usage_fits(p: ProfileItem) -> bool {
    match p.extra {
        Some(e) => e.upload + e.download <= u64::MAX,
        None => true,
    }
}

/// A profile in the list of profiles.
pub open spec fn profile_item(app: App, p: ProfileItem) -> Seq<char> {
    marker(is_current(app, p.uid@)) + " ["@ + p.uid@ + "] "@ + p.name@ + (match p.extra {
        Some(e) => " usage="@ + number::dec((e.upload + e.download) as nat) + "/"@ + number::dec(
            e.total as nat,
        ),
        None => seq![],
    })
}

fn profile_item_text(app: &App, p: &ProfileItem) -> (r: String)
    requires
        usage_fits(*p),
    ensures
        r@ == profile_item(*app, *p),
{
    let current = names_current(app, p.uid.as_str());
    let head = text::cat5(
        marker_text(current),
        " [",
        p.uid.as_str(),
        "] ",
        p.name.as_str(),
    );
    match p.extra {
        Some(e) => {
            let usage = text::cat4(
                " usage=",
                number::to_dec(e.upload + e.download).as_str(),
                "/",
                number::to_dec(e.total).as_str(),
            );
            text::cat2(head.as_str(), usage.as_str())
        },
        None => {
            assert(head@ + Seq::<char>::empty() =~= head@);
            head
        },
    }
}

/// The list of profiles.
pub fn profile_items(app: &App) -> (r: Vec<String>)
    requires
        forall|i: int|
            0 <= i < app.store.state.profiles@.len() ==> usage_fits(
                #[trigger] app.store.state.profiles@[i],
            ),
    ensures
        r@.len() == app.store.state.profiles@.len(),
        forall|i: int|
            0 <= i < r@.len() ==> (#[trigger] r@[i])@ == profile_item(
                *app,
                app.store.state.profiles@[i],
            ),
{
    let profiles = &app.store.state.profiles;
    let mut r: Vec<String> = Vec::new();
    let mut i: usize = 0;
    while i < profiles.len()
        invariant
            i <= profiles@.len(),
            *profiles == app.store.state.profiles,
            r@.len() == i,
            forall|k: int|
                0 <= k < profiles@.len() ==> usage_fits(
                    #[trigger] app.store.state.profiles@[k],
                ),
            forall|k: int|
                0 <= k < i ==> (#[trigger] r@[k])@ == profile_item(*app, profiles@[k]),
        decreases profiles@.len() - i,
    {
        assert(usage_fits(app.store.state.profiles@[i as int]));
        r.push(profile_item_text(app, &profiles[i]));
        i = i + 1;
    }
    r
}

/// What is told of the chosen profile.
pub open spec fn profile_detail(app: App, p: ProfileItem) -> Seq<Seq<char>> {
    seq![
        "Name       : "@ + p.name@,
        "UID        : "@ + p.uid@,
        "Current    : "@ + (if is_current(app, p.uid@) {
            "YES"@
        } else {
            "NO"@
        }),
        "Updated    : "@ + number::dec(p.updated as nat),
        "URL        : "@ + p.url@,
        "Usage      : "@ + (match p.extra {
            Some(e) => figures::size_text((e.upload + e.download) as nat) + "/"@
                + figures::size_text(e.total as nat),
            None => "-/-"@,
        }),
        "Expire     : "@ + (match p.extra {
            Some(e) => number::dec(e.expire as nat),
            None => "-"@,
        }),
    ]
}

pub fn profile_detail_lines(app: &App) -> (r: Vec<String>)
    requires
        app.screen.selected_profile_idx < app.store.state.profiles@.len() ==> usage_fits(
            app.store.state.profiles@[app.screen.selected_profile_idx as int],
        ),
    ensures
        text::texts(r@) == if app.screen.selected_profile_idx < app.store.state.profiles@.len() {
            profile_detail(
                *app,
                app.store.state.profiles@[app.screen.selected_profile_idx as int],
            )
        } else {
            seq!["No profile loaded"@]
        },
{
    let mut r: Vec<String> = Vec::new();
    let p = match app.selected_profile() {
        Some(p) => p,
        None => {
            r.push("No profile loaded".to_owned());
            assert(text::texts(r@) =~= seq!["No profile loaded"@]);
            return r;
        },
    };
    r.push(text::cat2("Name       : ", p.name.as_str()));
    r.push(text::cat2("UID        : ", p.uid.as_str()));
    let current = if names_current(app, p.uid.as_str()) {
        "YES"
    } else {
        "NO"
    };
    r.push(text::cat2("Current    : ", current));
    r.push(text::cat2("Updated    : ", number::to_dec(p.updated).as_str()));
    r.push(text::cat2("URL        : ", p.url.as_str()));
    let usage = match p.extra {
        Some(e) => text::cat3(
            figures::format_bytes(e.upload + e.download).as_str(),
            "/",
            figures::format_bytes(e.total).as_str(),
        ),
        None => "-/-".to_owned(),
    };
    r.push(text::cat2("Usage      : ", usage.as_str()));
    let expire = match p.extra {
        Some(e) => number::to_dec(e.expire),
        None => "-".to_owned(),
    };
    r.push(text::cat2("Expire     : ", expire.as_str()));
    assert(text::texts(r@) =~= profile_detail(*app, *p));
    r
}

/// A group in the list of groups.
pub open spec fn group_item(g: proxies::Group) -> Seq<char> {
    "["@ + g.kind + "] "@ + g.name + " -> "@ + g.now
}

/// The list of groups.
pub fn group_items(app: &App) -> (r: Vec<String>)
    ensures
        r@.len() == app.groups().len(),
        forall|i: int| 0 <= i < r@.len() ==> (#[trigger] r@[i])@ == group_item(app.groups()[i]),
{
    let groups = &app.proxy_groups;
    let mut r: Vec<String> = Vec::new();
    let mut i: usize = 0;
    while i < groups.len()
        invariant
            i <= groups@.len(),
            *groups == app.proxy_groups,
            r@.len() == i,
            forall|k: int| 0 <= k < i ==> (#[trigger] r@[k])@ == group_item(app.groups()[k]),
        decreases groups@.len() - i,
    {
        let g = &groups[i];
        assert(app.groups()[i as int] == g@);
        let head = text::cat4("[", g.kind.as_str(), "] ", g.name.as_str());
        r.push(text::cat3(head.as_str(), " -> ", g.now.as_str()));
        i = i + 1;
    }
    r
}

/// A candidate in the list of candidates: the group's choice is marked, and its delay is told
/// where it is known.
pub open spec fn candidate_item(
    candidate: Seq<char>,
    now: Seq<char>,
    delays: Map<Seq<char>, u64>,
) -> Seq<char> {
    marker(candidate == now) + " "@ + figures::padded_right(candidate, 36) + " "@
        + if delays.contains_key(candidate) {
        figures::padded_left(number::dec(delays[candidate] as nat), 4) + "ms"@
    } else {
        "   - "@
    }
}

fn candidate_text(app: &App, candidate: &str, now: &str) -> (r: String)
    ensures
        r@ == candidate_item(candidate@, now@, app.delay_cache@),
{
    let delay = match app.delay_cache.get(candidate) {
        Some(d) => text::cat2(
            figures::pad_left(number::to_dec(*d).as_str(), 4).as_str(),
            "ms",
        ),
        None => "   - ".to_owned(),
    };
    text::cat5(
        marker_text(text::same(candidate, now)),
        " ",
        figures::pad_right(candidate, 36).as_str(),
        " ",
        delay.as_str(),
    )
}

/// The list of candidates of the chosen group.
pub open spec fn candidates(app: App) -> Seq<Seq<char>> {
    if app.screen.selected_group_idx < app.groups().len() {
        let g = app.groups()[app.screen.selected_group_idx as int];
        g.candidates.map_values(|c: Seq<char>| candidate_item(c, g.now, app.delay_cache@))
    } else {
        seq!["No proxy group"@]
    }
}

pub fn candidate_items(app: &App) -> (r: Vec<String>)
    ensures
        text::texts(r@) == candidates(*app),
{
    let mut r: Vec<String> = Vec::new();
    if app.screen.selected_group_idx >= app.proxy_groups.len() {
        r.push("No proxy group".to_owned());
        assert(text::texts(r@) =~= seq!["No proxy group"@]);
        return r;
    }
    let group = &app.proxy_groups[app.screen.selected_group_idx];
    let ghost g = group@;
    let ghost wanted = candidates(*app);
    assert(app.groups()[app.screen.selected_group_idx as int] == g);
    let mut i: usize = 0;
    assert(text::texts(r@) =~= wanted.take(0));
    while i < group.candidates.len()
        invariant
            i <= group.candidates@.len(),
            g == group@,
            wanted == g.candidates.map_values(
                |c: Seq<char>| candidate_item(c, g.now, app.delay_cache@),
            ),
            text::texts(r@) == wanted.take(i as int),
        decreases group.candidates@.len() - i,
    {
        let ghost before = r@;
        r.push(candidate_text(app, group.candidates[i].as_str(), group.now.as_str()));
        assert(g.candidates[i as int] == group.candidates@[i as int]@);
        assert(wanted[i as int] == candidate_item(
            g.candidates[i as int],
            g.now,
            app.delay_cache@,
        ));
        assert(text::texts(r@) =~= text::texts(before).push(wanted[i as int]));
        assert(wanted.take(i + 1) =~= wanted.take(i as int).push(wanted[i as int]));
        i = i + 1;
    }
    assert(wanted.take(i as int) =~= wanted);
    r
}

/// The titles of the lists of groups and of candidates.
pub fn proxy_titles(focus: ProxyFocus) -> (r: (&'static str, &'static str))
    ensures
        r.0@ == if focus == ProxyFocus::Groups {
            "Groups [Focus] (j/k, Enter)"@
        } else {
            "Groups (left/h/j back)"@
        },
        r.1@ == if focus == ProxyFocus::Groups {
            "Candidates (select group then Enter)"@
        } else {
            "Candidates [Focus] ([/], Enter, t/T)"@
        },
{
    if focus == ProxyFocus::Groups {
        ("Groups [Focus] (j/k, Enter)", "Candidates (select group then Enter)")
    } else {
        ("Groups (left/h/j back)", "Candidates [Focus] ([/], Enter, t/T)")
    }
}

/// The place in the list of candidates that is shown as chosen.
pub fn shown_candidate(app: &App) -> (r: Option<usize>)
    ensures
        r == if app.has_candidates() {
            Some(app.screen.selected_proxy_idx)
        } else {
            None
        },
{
    let g: usize = app.screen.selected_group_idx;
    if g < app.proxy_groups.len() {
        assert(app.groups()[g as int] == app.proxy_groups@[g as int]@);
        if app.proxy_groups[g].candidates.len() > 0 {
            return Some(app.screen.selected_proxy_idx);
        }
    }
    None
}

/// How far a test of all nodes is.
pub open spec fn bulk_status(app: App) -> Seq<char> {
    if app.bulk.running {
        "RUNNING "@ + number::dec(app.bulk.done as nat) + "/"@ + number::dec(app.bulk.total as nat)
    } else if app.bulk.total > 0 {
        "DONE "@ + number::dec(app.bulk.success as nat) + "/"@ + number::dec(app.bulk.total as nat)
    } else {
        "IDLE"@
    }
}

fn bulk_status_text(app: &App) -> (r: String)
    ensures
        r@ == bulk_status(*app),
{
    let total = number::to_dec(app.bulk.total as u64);
    if app.bulk.running {
        text::cat4(
            "RUNNING ",
            number::to_dec(app.bulk.done as u64).as_str(),
            "/",
            total.as_str(),
        )
    } else if app.bulk.total > 0 {
        text::cat4(
            "DONE ",
            number::to_dec(app.bulk.success as u64).as_str(),
            "/",
            total.as_str(),
        )
    } else {
        "IDLE".to_owned()
    }
}

/// The name of the chosen candidate of a group.
pub open spec fn chosen_name(g: proxies::Group, index: int) -> Seq<char> {
    if index < g.candidates.len() {
        g.candidates[index]
    } else {
        "-"@
    }
}

/// The delay of a node, as the detail tells it.
pub open spec fn delay_text(name: Seq<char>, delays: Map<Seq<char>, u64>) -> Seq<char> {
    if delays.contains_key(name) {
        number::dec(delays[name] as nat) + " ms"@
    } else {
        "-"@
    }
}

/// What is told of the chosen group.
pub open spec fn group_detail(app: App, g: proxies::Group) -> Seq<Seq<char>> {
    let name = chosen_name(g, app.screen.selected_proxy_idx as int);
    seq![
        "Group   : "@ + g.name,
        "Type    : "@ + g.kind,
        "Now     : "@ + g.now,
        "Select  : "@ + name,
        "Delay   : "@ + delay_text(name, app.delay_cache@),
        "Choices : "@ + number::dec(g.candidates.len()),
        "Bulk    : "@ + bulk_status(app) + " (ok "@ + number::dec(app.bulk.success as nat)
            + ", fail "@ + number::dec(app.bulk.failed as nat) + ")"@,
    ]
}

fn detail_of(app: &App, group: &ProxyGroupView) -> (r: Vec<String>)
    ensures
        text::texts(r@) == group_detail(*app, group@),
{
    let i: usize = app.screen.selected_proxy_idx;
    let name = if i < group.candidates.len() {
        assert(group@.candidates[i as int] == group.candidates@[i as int]@);
        group.candidates[i].clone()
    } else {
        "-".to_owned()
    };
    let delay = match app.delay_cache.get(name.as_str()) {
        Some(d) => text::cat2(number::to_dec(*d).as_str(), " ms"),
        None => "-".to_owned(),
    };
    let mut r: Vec<String> = Vec::new();
    r.push(text::cat2("Group   : ", group.name.as_str()));
    r.push(text::cat2("Type    : ", group.kind.as_str()));
    r.push(text::cat2("Now     : ", group.now.as_str()));
    r.push(text::cat2("Select  : ", name.as_str()));
    r.push(text::cat2("Delay   : ", delay.as_str()));
    r.push(
        text::cat2(
            "Choices : ",
            number::to_dec(group.candidates.len() as u64).as_str(),
        ),
    );
    let bulk = text::cat5(
        "Bulk    : ",
        bulk_status_text(app).as_str(),
        " (ok ",
        number::to_dec(app.bulk.success as u64).as_str(),
        ", fail ",
    );
    r.push(
        text::cat3(bulk.as_str(), number::to_dec(app.bulk.failed as u64).as_str(), ")"),
    );
    assert(text::texts(r@) =~= group_detail(*app, group@));
    r
}

pub fn selection_detail_lines(app: &App) -> (r: Vec<String>)
    ensures
        text::texts(r@) == if app.screen.selected_group_idx < app.groups().len() {
            group_detail(*app, app.groups()[app.screen.selected_group_idx as int])
        } else {
            seq!["No proxy group selected"@]
        },
{
    if app.screen.selected_group_idx < app.proxy_groups.len() {
        let group = &app.proxy_groups[app.screen.selected_group_idx];
        assert(app.groups()[app.screen.selected_group_idx as int] == group@);
        return detail_of(app, group);
    }
    let mut r: Vec<String> = Vec::new();
    r.push("No proxy group selected".to_owned());
    assert(text::texts(r@) =~= seq!["No proxy group selected"@]);
    r
}

/// How a line of the log is coloured.
#[derive(Debug, Clone, Copy, PartialEq, Eq, Structural)]
pub enum LogTone {
    Alarm,
    Success,
    Plain,
}

pub open spec fn tone_of(line: Seq<char>) -> LogTone {
    if text::has_text(line, "failed"@) || text::has_text(line, "error"@) {
        LogTone::Alarm
    } else if text::has_text(line, "imported"@) || text::has_text(line, "switched"@)
        || text::has_text(line, "applied"@) {
        LogTone::Success
    } else {
        LogTone::Plain
    }
}

pub fn log_tone(line: &str) -> (r: LogTone)
    ensures
        r == tone_of(line@),
{
    if text::contains(line, "failed") || text::contains(line, "error") {
        LogTone::Alarm
    } else if text::contains(line, "imported") || text::contains(line, "switched")
        || text::contains(line, "applied") {
        LogTone::Success
    } else {
        LogTone::Plain
    }
}

/// What is told beside the log; `uptime` in seconds.
pub fn log_info_lines(app: &App, uptime: u64) -> (r: Vec<String>)
    ensures
        text::texts(r@) == seq![
            "Entries: "@ + number::dec(app.logs@.len()),
            "Uptime : "@ + figures::hms(uptime as nat),
            ""@,
            "Use ':' to run"@,
            "commands"@,
            "help/save/quit"@,
            "delay selected/all"@,
        ],
{
    let mut r: Vec<String> = Vec::new();
    r.push(text::cat2("Entries: ", number::to_dec(app.logs.len() as u64).as_str()));
    r.push(text::cat2("Uptime : ", figures::duration_hms(uptime).as_str()));
    r.push("".to_owned());
    r.push("Use ':' to run".to_owned());
    r.push("commands".to_owned());
    r.push("help/save/quit".to_owned());
    r.push("delay selected/all".to_owned());
    assert(text::texts(r@) =~= seq![
        "Entries: "@ + number::dec(app.logs@.len()),
        "Uptime : "@ + figures::hms(uptime as nat),
        ""@,
        "Use ':' to run"@,
        "commands"@,
        "help/save/quit"@,
        "delay selected/all"@,
    ]);
    r
}

/// What the user is asked when the panel is left, and which of the two answers is chosen.
pub open spec fn exit_question(app: App) -> Seq<Seq<char>> {
    let keep = app.screen.exit_confirm_choice == ExitConfirmChoice::KeepBackend;
    seq![
        "Exit verge-tui"@,
        ""@,
        "Current policy: "@ + config::policy_label(app.verge().backend_exit_policy),
        "Choose what to do with backend when leaving UI:"@,
        ""@,
        if keep {
            "[*] Keep Backend Running"@
        } else {
            "[ ] Keep Backend Running"@
        },
        if keep {
            "[ ] Stop Backend And Cleanup"@
        } else {
            "[*] Stop Backend And Cleanup"@
        },
        ""@,
        "Enter: confirm | Esc: cancel | ←/→ or h/l/j/k: switch"@,
    ]
}

pub fn exit_question_lines(app: &App) -> (r: Vec<String>)
    ensures
        text::texts(r@) == exit_question(*app),
{
    let keep = app.screen.exit_confirm_choice == ExitConfirmChoice::KeepBackend;
    let mut r: Vec<String> = Vec::new();
    r.push("Exit verge-tui".to_owned());
    r.push("".to_owned());
    r.push(
        text::cat2(
            "Current policy: ",
            config::backend_exit_policy_label(app.store.state.verge.backend_exit_policy),
        ),
    );
    r.push("Choose what to do with backend when leaving UI:".to_owned());
    r.push("".to_owned());
    if keep {
        r.push("[*] Keep Backend Running".to_owned());
        r.push("[ ] Stop Backend And Cleanup".to_owned());
    } else {
        r.push("[ ] Keep Backend Running".to_owned());
        r.push("[*] Stop Backend And Cleanup".to_owned());
    }
    r.push("".to_owned());
    r.push("Enter: confirm | Esc: cancel | ←/→ or h/l/j/k: switch".to_owned());
    assert(text::texts(r@) =~= exit_question(*app));
    r
}

} // verus!
