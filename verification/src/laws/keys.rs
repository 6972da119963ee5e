//! What keys do, tab by tab.

use crate::config::BackendExitPolicy;
use crate::proxies::Group;
use crate::run::{NextModel, Operation, Step};
use crate::screen;
use crate::screen::{ExitConfirmChoice, ProxyFocus, Screen};
use crate::session;
use crate::session::{App, Key, KeyAction, KeyEffect};
use crate::text;
use vstd::prelude::*;

verus! {

/// Whether a key changes the screen to `after`, and nothing else.
pub open spec fn shows(app: App, key: Key, after: Screen) -> bool {
    app.key_effect(key) == (KeyEffect {
        screen: after,
        input: app.command_input@,
        keep: app.store.state.verge.keep_core_on_exit,
        action: KeyAction::Nothing,
    })
}

/// Whether a key asks for something, and changes nothing.
pub open spec fn asks(app: App, key: Key, action: KeyAction<Seq<char>>) -> bool {
    app.key_effect(key) == (KeyEffect {
        screen: app.screen,
        input: app.command_input@,
        keep: app.store.state.verge.keep_core_on_exit,
        action,
    })
}

/// Whether nothing lies over the tab that is shown.
pub open spec fn in_plain_sight(app: App) -> bool {
    &&& !app.screen.show_exit_confirm_overlay
    &&& !app.screen.show_help_overlay
    &&& !app.screen.command_mode
}

/// The place behind a place in a ring.
pub open spec fn place_after(i: int, len: int) -> int {
    if i + 1 < len {
        i + 1
    } else {
        0
    }
}

/// The place before a place in a ring.
pub open spec fn place_before(i: int, len: int) -> int {
    if i > 0 {
        i - 1
    } else {
        len - 1
    }
}

/// A cursor that moves by one goes to the next place, or to the one before, and from one end of the
/// list to the other.
pub proof fn law_cursor_moves(i: int, len: int)
    requires
        0 <= i < len,
    ensures
        screen::wrapped(i, len, 1) == place_after(i, len),
        screen::wrapped(i, len, -1) == place_before(i, len),
        screen::wrapped(i, 0, 1) == 0,
        screen::wrapped(i, 0, -1) == 0,
{
    if i + 1 < len {
        vstd::arithmetic::div_mod::lemma_small_mod((i + 1) as nat, len as nat);
    } else {
        vstd::arithmetic::div_mod::lemma_mod_self_0(len);
    }
    if i > 0 {
        vstd::arithmetic::div_mod::lemma_small_mod((i - 1) as nat, len as nat);
    } else {
        vstd::arithmetic::div_mod::lemma_fundamental_div_mod_converse(-1, len, -1, len - 1);
    }
}

/// On the list of profiles the arrows, and `k` and `j`, move the cursor; Enter makes the profile
/// under it the current one, and `u` updates it.
pub proof fn law_keys_on_profiles(app: App)
    requires
        app.valid(),
        in_plain_sight(app),
        app.screen.tab_index == 1,
    ensures
        ({
            let s = app.screen;
            let n = app.store.state.profiles.len() as int;
            let down = Screen {
                selected_profile_idx: place_after(s.selected_profile_idx as int, n) as usize,
                ..s
            };
            let up = Screen {
                selected_profile_idx: place_before(s.selected_profile_idx as int, n) as usize,
                ..s
            };
            &&& n > 0 ==> shows(app, Key::Down, down) && shows(app, Key::Char('j'), down)
            &&& n > 0 ==> shows(app, Key::Up, up) && shows(app, Key::Char('k'), up)
            &&& n == 0 ==> shows(app, Key::Down, s) && shows(app, Key::Up, s)
        }),
        asks(app, Key::Enter, KeyAction::ActivateProfile),
        asks(app, Key::Char('u'), KeyAction::UpdateSelected),
{
    let n = app.store.state.profiles@.len() as int;
    if n > 0 {
        law_cursor_moves(app.screen.selected_profile_idx as int, n);
    }
}

/// On the list of groups the arrows, and `k` and `j`, move the cursor, and the other cursor goes to
/// what the group under it has chosen, or to its first candidate; Enter leads to the candidates.
pub proof fn law_keys_on_groups(app: App)
    requires
        app.valid(),
        in_plain_sight(app),
        app.screen.tab_index == 2,
        app.screen.proxy_focus == ProxyFocus::Groups,
    ensures
        ({
            let s = app.screen;
            let n = app.groups().len() as int;
            let i = s.selected_group_idx as int;
            let down = app.key_effect(Key::Down).screen;
            let up = app.key_effect(Key::Up).screen;
            &&& n > 0 ==> down.selected_group_idx == place_after(i, n) && up.selected_group_idx
                == place_before(i, n)
            &&& n > 0 ==> on_choice(app.groups()[place_after(i, n)], down.selected_proxy_idx as int)
                && on_choice(app.groups()[place_before(i, n)], up.selected_proxy_idx as int)
            &&& shows(
                app,
                Key::Down,
                Screen {
                    selected_group_idx: down.selected_group_idx,
                    selected_proxy_idx: down.selected_proxy_idx,
                    ..s
                },
            )
            &&& shows(
                app,
                Key::Up,
                Screen {
                    selected_group_idx: up.selected_group_idx,
                    selected_proxy_idx: up.selected_proxy_idx,
                    ..s
                },
            )
            &&& app.key_effect(Key::Char('j')) == app.key_effect(Key::Down)
            &&& app.key_effect(Key::Char('k')) == app.key_effect(Key::Up)
            &&& n > 0 && app.groups()[i].candidates.len() > 0 ==> shows(
                app,
                Key::Enter,
                Screen { proxy_focus: ProxyFocus::Candidates, ..s },
            )
            &&& n == 0 || app.groups()[i].candidates.len() == 0 ==> asks(
                app,
                Key::Enter,
                KeyAction::Say("selected group has no candidates"@),
            )
        }),
{
    let n = app.groups().len() as int;
    let i = app.screen.selected_group_idx as int;
    if n > 0 {
        assert(n == app.proxy_groups.len());
        law_cursor_moves(i, n);
        let a = place_after(i, n);
        let b = place_before(i, n);
        lemma_on_choice(app.groups(), a);
        lemma_on_choice(app.groups(), b);
        assert(app.groups()[a].candidates.len() == app.proxy_groups@[a].candidates.len());
        assert(app.groups()[b].candidates.len() == app.proxy_groups@[b].candidates.len());
    }
}

/// Whether a cursor stands on what a group has chosen, the first where there are several, or else
/// on its first candidate.
pub open spec fn on_choice(g: Group, at: int) -> bool {
    if g.candidates.contains(g.now) {
        &&& 0 <= at < g.candidates.len()
        &&& g.candidates[at] == g.now
        &&& forall|k: int| 0 <= k < at ==> #[trigger] g.candidates[k] != g.now
    } else {
        at == 0
    }
}

proof fn lemma_first_place(list: Seq<Seq<char>>, t: Seq<char>)
    ensures
        0 <= screen::first_place(list, t) <= list.len(),
        screen::first_place(list, t) < list.len() <==> list.contains(t),
        screen::first_place(list, t) < list.len() ==> list[screen::first_place(list, t)] == t,
        forall|k: int| 0 <= k < screen::first_place(list, t) ==> #[trigger] list[k] != t,
    decreases list.len(),
{
    if list.len() > 0 {
        if list[0] == t {
            assert(list.contains(list[0]));
        } else {
            let rest = list.skip(1);
            lemma_first_place(rest, t);
            assert forall|k: int| 0 <= k < screen::first_place(list, t) implies #[trigger] list[k]
                != t by {
                if k > 0 {
                    assert(rest[k - 1] == list[k]);
                }
            }
            if list.contains(t) {
                let k = list.index_of(t);
                assert(rest[k - 1] == t);
            }
            if rest.contains(t) {
                let k = rest.index_of(t);
                assert(list[k + 1] == t);
            }
        }
    }
}

proof fn lemma_on_choice(groups: Seq<Group>, i: int)
    requires
        0 <= i < groups.len(),
    ensures
        on_choice(groups[i], screen::synced_proxy(groups, i, 0)),
        0 <= screen::synced_proxy(groups, i, 0) <= groups[i].candidates.len(),
{
    lemma_first_place(groups[i].candidates, groups[i].now);
}

/// New groups leave the cursor on the group where it was, or bring it to the first one; in the
/// group it goes to what is chosen there, and stays where nothing is.
pub proof fn law_cursor_follows_choice(s: Screen, groups: Seq<Group>)
    requires
        0 < groups.len() <= usize::MAX,
        forall|i: int| 0 <= i < groups.len() ==> (#[trigger] groups[i]).candidates.len() <= usize::MAX,
    ensures
        ({
            let after = s.synced(groups);
            let g = groups[after.selected_group_idx as int];
            &&& after.selected_group_idx == if s.selected_group_idx < groups.len() {
                s.selected_group_idx
            } else {
                0
            }
            &&& g.candidates.contains(g.now) ==> on_choice(g, after.selected_proxy_idx as int)
            &&& !g.candidates.contains(g.now) ==> after.selected_proxy_idx == if s.selected_proxy_idx
                < g.candidates.len() {
                s.selected_proxy_idx
            } else {
                0
            }
            &&& after == (Screen {
                selected_group_idx: after.selected_group_idx,
                selected_proxy_idx: after.selected_proxy_idx,
                ..s
            })
        }),
{
    let i = screen::synced_group(groups, s.selected_group_idx as int);
    lemma_first_place(groups[i].candidates, groups[i].now);
}

/// On the candidates of a group the arrows move the cursor; Enter lets the group use the node under
/// it, `t` tests that node and `T` all nodes; Left and Escape, and `h` and `j`, lead back to the
/// groups.
pub proof fn law_keys_on_candidates(app: App)
    requires
        app.valid(),
        in_plain_sight(app),
        app.screen.tab_index == 2,
        app.screen.proxy_focus == ProxyFocus::Candidates,
    ensures
        ({
            let s = app.screen;
            let back = Screen { proxy_focus: ProxyFocus::Groups, ..s };
            &&& shows(app, Key::Left, back) && shows(app, Key::Esc, back)
            &&& shows(app, Key::Char('h'), back) && shows(app, Key::Char('j'), back)
        }),
        ({
            let s = app.screen;
            let n = app.groups()[s.selected_group_idx as int].candidates.len() as int;
            let down = Screen {
                selected_proxy_idx: place_after(s.selected_proxy_idx as int, n) as usize,
                ..s
            };
            let up = Screen {
                selected_proxy_idx: place_before(s.selected_proxy_idx as int, n) as usize,
                ..s
            };
            app.groups().len() > 0 && n > 0 ==> {
                &&& shows(app, Key::Down, down) && shows(app, Key::Char(']'), down)
                &&& shows(app, Key::Up, up) && shows(app, Key::Char('k'), up) && shows(
                    app,
                    Key::Char('['),
                    up,
                )
            }
        }),
        asks(app, Key::Enter, KeyAction::SwitchProxy),
        asks(app, Key::Char('t'), KeyAction::TestDelay),
        asks(app, Key::Char('T'), KeyAction::TestAll),
{
    let s = app.screen;
    if app.groups().len() > 0 && app.groups()[s.selected_group_idx as int].candidates.len() > 0 {
        law_cursor_moves(
            s.selected_proxy_idx as int,
            app.groups()[s.selected_group_idx as int].candidates.len() as int,
        );
    }
}

/// What Enter and `t` are about is the node under the cursor, in the group under the cursor: that
/// group is to use that node, or that node is tested.
pub proof fn law_node_under_cursor(app: App)
    requires
        app.valid(),
    ensures
        ({
            let g = app.groups()[app.screen.selected_group_idx as int];
            let node = g.candidates[app.screen.selected_proxy_idx as int];
            let url = app.store.state.verge.default_delay_test_url@;
            if app.groups().len() > 0 && g.candidates.len() > 0 {
                &&& app.selection() == Some((g.name, node))
                &&& app.key_step(KeyAction::SwitchProxy) == (NextModel {
                    notes: seq![],
                    step: Step::Do(Operation::Switch(g.name, node, true)),
                })
                &&& app.key_step(KeyAction::TestDelay) == (NextModel {
                    notes: seq![],
                    step: Step::Do(Operation::Delay(node, url, 5000, true)),
                })
            } else {
                &&& app.selection() is None
                &&& app.key_step(KeyAction::SwitchProxy) == (NextModel {
                    notes: seq!["no proxy selection"@],
                    step: Step::Done,
                })
                &&& app.key_step(KeyAction::TestDelay) == (NextModel {
                    notes: seq!["no proxy selection"@],
                    step: Step::Done,
                })
            }
        }),
{
}

/// The other keys that ask for work ask for the work that they name.
pub proof fn law_keys_ask_for_work(app: App, line: Seq<char>)
    ensures
        app.key_step(KeyAction::TestAll) == (NextModel {
            notes: seq![],
            step: Step::Do(
                Operation::TestAll(app.store.state.verge.default_delay_test_url@, 5000),
            ),
        }),
        app.key_step(KeyAction::RefreshProxies) == (NextModel {
            notes: seq![],
            step: Step::Do(Operation::RefreshProxies),
        }),
        app.key_step(KeyAction::ActivateProfile) == (NextModel {
            notes: seq![],
            step: Step::Do(Operation::Activate),
        }),
        app.key_step(KeyAction::UpdateSelected) == (NextModel {
            notes: seq![],
            step: Step::Do(Operation::UpdateSelected),
        }),
        app.key_step(KeyAction::SaveExitChoice) == (NextModel {
            notes: seq![],
            step: Step::Do(Operation::SaveExitChoice),
        }),
        app.key_step(KeyAction::Say(line)) == (NextModel { notes: seq![line], step: Step::Done }),
        app.key_step(KeyAction::Nothing) == (NextModel { notes: seq![], step: Step::Done }),
{
}

/// On every tab that does not take the key for itself: `q` is the wish to leave, `:` opens an empty
/// command line, `r` asks for the proxies, and Tab and the arrows lead around the four tabs.
pub proof fn law_common_keys(app: App)
    requires
        app.valid(),
        in_plain_sight(app),
        app.screen.proxy_focus == ProxyFocus::Groups,
    ensures
        ({
            let s = app.screen;
            let next = Screen { tab_index: place_after(s.tab_index as int, 4) as usize, ..s };
            let previous = Screen { tab_index: place_before(s.tab_index as int, 4) as usize, ..s };
            &&& shows(app, Key::Tab, next) && shows(app, Key::Right, next) && shows(
                app,
                Key::Char('l'),
                next,
            )
            &&& shows(app, Key::BackTab, previous) && shows(app, Key::Left, previous) && shows(
                app,
                Key::Char('h'),
                previous,
            )
            &&& asks(app, Key::Char('r'), KeyAction::RefreshProxies)
            &&& app.key_effect(Key::Char(':')) == (KeyEffect {
                screen: Screen { command_mode: true, ..s },
                input: seq![],
                keep: app.store.state.verge.keep_core_on_exit,
                action: KeyAction::Nothing,
            })
        }),
{
    law_cursor_moves(app.screen.tab_index as int, 4);
}

/// The tabs stand in their order.
pub proof fn law_order_of_tabs(s: Screen)
    ensures
        screen::tab_at(0) == screen::Tab::Overview,
        screen::tab_at(1) == screen::Tab::Profiles,
        screen::tab_at(2) == screen::Tab::Proxies,
        screen::tab_at(3) == screen::Tab::Logs,
        screen::Tab::Overview.spec_title() == "Overview"@,
        screen::Tab::Profiles.spec_title() == "Profiles"@,
        screen::Tab::Proxies.spec_title() == "Proxies"@,
        screen::Tab::Logs.spec_title() == "Logs"@,
{
}

/// A wish to leave is granted at once where the policy is to keep the backend always, or never;
/// else the user is asked, and the answer of the last time is offered.
pub proof fn law_leaving(s: Screen, policy: BackendExitPolicy, keep: bool)
    ensures
        policy != BackendExitPolicy::Query ==> s.leaving(policy, keep) == (Screen {
            should_quit: true,
            show_exit_confirm_overlay: false,
            exit_keep_backend_override: Some(policy == BackendExitPolicy::AlwaysOn),
            ..s
        }),
        policy == BackendExitPolicy::Query ==> s.leaving(policy, keep) == (Screen {
            show_exit_confirm_overlay: true,
            exit_keep_backend_override: None,
            exit_confirm_choice: if keep {
                ExitConfirmChoice::KeepBackend
            } else {
                ExitConfirmChoice::StopBackend
            },
            ..s
        }),
{
}

/// `q` and the command `quit` are the same wish to leave.
pub proof fn law_quit_by_key_or_line(app: App)
    requires
        in_plain_sight(app),
    ensures
        shows(
            app,
            Key::Char('q'),
            app.screen.leaving(
                app.store.state.verge.backend_exit_policy,
                app.store.state.verge.keep_core_on_exit,
            ),
        ),
        crate::run::screen_for(app, crate::command::Command::Quit) == app.screen.leaving(
            app.store.state.verge.backend_exit_policy,
            app.store.state.verge.keep_core_on_exit,
        ),
{
}

/// Where the user is asked what happens to the backend, the keys choose an answer, Enter takes it,
/// and Escape takes the wish to leave back.
pub proof fn law_keys_at_the_question(app: App)
    requires
        app.screen.show_exit_confirm_overlay,
    ensures
        ({
            let s = app.screen;
            let keep = Screen { exit_confirm_choice: ExitConfirmChoice::KeepBackend, ..s };
            let stop = Screen { exit_confirm_choice: ExitConfirmChoice::StopBackend, ..s };
            let kept = s.exit_confirm_choice == ExitConfirmChoice::KeepBackend;
            &&& shows(app, Key::Left, keep) && shows(app, Key::Up, keep) && shows(
                app,
                Key::BackTab,
                keep,
            )
            &&& shows(app, Key::Char('h'), keep) && shows(app, Key::Char('k'), keep)
            &&& shows(app, Key::Right, stop) && shows(app, Key::Down, stop) && shows(
                app,
                Key::Tab,
                stop,
            )
            &&& shows(app, Key::Char('l'), stop) && shows(app, Key::Char('j'), stop)
            &&& shows(app, Key::Esc, Screen { show_exit_confirm_overlay: false, ..s })
            &&& app.key_effect(Key::Enter) == (KeyEffect {
                screen: Screen {
                    show_exit_confirm_overlay: false,
                    should_quit: true,
                    exit_keep_backend_override: Some(kept),
                    ..s
                },
                input: app.command_input@,
                keep: kept,
                action: KeyAction::SaveExitChoice,
            })
        }),
{
}

/// The answer that was given decides whether the backend stays, and where none was given, the
/// policy.
pub proof fn law_backend_stays(s: Screen, policy: BackendExitPolicy, keep: bool)
    ensures
        s.exit_keep_backend_override is Some ==> s.keeps_backend(policy, keep)
            == s.exit_keep_backend_override->0,
        s.exit_keep_backend_override is None && policy == BackendExitPolicy::AlwaysOn
            ==> s.keeps_backend(policy, keep),
        s.exit_keep_backend_override is None && policy == BackendExitPolicy::AlwaysOff
            ==> !s.keeps_backend(policy, keep),
        s.exit_keep_backend_override is None && policy == BackendExitPolicy::Query
            ==> s.keeps_backend(policy, keep) == keep,
{
}

/// On the command line Backspace takes back the last character, Escape the whole line, and Enter
/// runs it without the white space around it; nothing is run where nothing is typed.
pub proof fn law_typing(app: App, typed: App, c: char)
    requires
        app.screen.command_mode,
        !app.screen.show_exit_confirm_overlay,
        !app.screen.show_help_overlay,
        typed.screen == app.screen,
        typed.command_input@ == app.key_effect(Key::Char(c)).input,
    ensures
        app.key_effect(Key::Char(c)) == (KeyEffect {
            screen: app.screen,
            input: app.command_input@.push(c),
            keep: app.store.state.verge.keep_core_on_exit,
            action: KeyAction::Nothing,
        }),
        typed.key_effect(Key::Backspace).input == app.command_input@,
        app.command_input@.len() == 0 ==> app.key_effect(Key::Backspace).input.len() == 0,
        app.key_effect(Key::Esc) == (KeyEffect {
            screen: Screen { command_mode: false, ..app.screen },
            input: seq![],
            keep: app.store.state.verge.keep_core_on_exit,
            action: KeyAction::Nothing,
        }),
        app.key_effect(Key::Enter) == (KeyEffect {
            screen: Screen { command_mode: false, ..app.screen },
            input: seq![],
            keep: app.store.state.verge.keep_core_on_exit,
            action: if text::trimmed(app.command_input@).len() > 0 {
                KeyAction::Run(text::trimmed(app.command_input@))
            } else {
                KeyAction::Nothing
            },
        }),
{
    assert(app.command_input@.push(c).drop_last() =~= app.command_input@);
}

/// A queue with a limit keeps the newest values in their order, up to the limit.
pub proof fn law_queue_keeps_newest<T>(queue: Seq<T>, value: T, cap: nat)
    requires
        0 < cap,
        queue.len() <= cap,
    ensures
        ({
            let all = queue.push(value);
            session::capped_push(queue, value, cap) == if all.len() <= cap {
                all
            } else {
                all.skip(all.len() - cap)
            }
        }),
{
    let all = queue.push(value);
    assert(queue.len() == cap ==> queue.skip(1).push(value) =~= all.skip(1));
}

/// In a valid state every cursor is on something that is there, as far as there is anything, and
/// the candidates have the focus only while their tab is shown.
pub proof fn law_cursors_are_on_something(app: App)
    requires
        app.valid(),
    ensures
        app.screen.tab_index < 4,
        app.store.state.profiles@.len() > 0 ==> app.screen.selected_profile_idx
            < app.store.state.profiles@.len(),
        app.groups().len() > 0 ==> app.screen.selected_group_idx < app.groups().len(),
        app.groups().len() > 0 && app.groups()[app.screen.selected_group_idx as int].candidates.len()
            > 0 ==> app.screen.selected_proxy_idx
            < app.groups()[app.screen.selected_group_idx as int].candidates.len(),
        app.screen.proxy_focus == ProxyFocus::Candidates ==> app.screen.tab_index == 2,
        app.logs@.len() <= 200,
        app.traffic_up_history@.len() <= 120,
        app.traffic_down_history@.len() <= 120,
{
}

} // verus!
