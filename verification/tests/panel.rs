use std::collections::VecDeque;
use verge_tui::bulk::{BulkDelay, BulkDelayEvent, BulkStart};
use verge_tui::client::{
    ConnectionsResp, MihomoClient, ProxiesResp, ProxyHistory, ProxyNode, TrafficResp,
};
use verge_tui::command::{parse_command, Command};
use verge_tui::config::{BackendExitPolicy, Platform, VergeConfig};
use verge_tui::json::{object, single, text_value, Json};
use verge_tui::profile::{AppPaths, ProfileExtra, StateStore};
use verge_tui::proxies::{
    collect_bulk_delay_targets, extract_proxy_groups, is_builtin_policy_node, ProxyGroupView,
};
use verge_tui::render::{
    candidate_items, command_text, event_feed, exit_question_lines, gauge_titles, group_items,
    header_lines, history_max, key_hints, log_info_lines, log_tone, overlay_margin,
    overview_lines, profile_detail_lines, profile_items, profile_snapshot, proxy_titles,
    selection_detail_lines, session_stat_lines, shown_candidate, LogTone,
};
use verge_tui::report::{log_files, started_notes, DoctorFacts};
use verge_tui::run::{
    after_adopt, after_delay, after_mode, after_proxy, after_reconnect, after_save, after_switch,
    after_tun, Operation, ProxyPurpose, Saved, Step,
};
use verge_tui::screen::{wrap_index, ExitConfirmChoice, ProxyFocus, Screen, Tab};
use verge_tui::session::{push_capped, App, Key, KeyAction};
use verge_tui::subscription::{FetchMode, ImportResult};
use verge_tui::leave::{
    after_terminate, cleanup_before_exit, cleanup_next, proxy_off, shutdown, shutdown_notes,
    stop_managed_core_backend, CleanupStep, ShutdownStep, StopStep,
};
use verge_tui::tick::{auto_update_status_line, schedule_next_auto_update, AutoUpdate, TickStep};
use verge_tui::tunnel::{
    after_tun_check, after_tun_explain, after_tun_patch, apply_tun_mode, TunStep,
};
use verge_tui::update::{
    after_fetch, after_import, after_update_apply, after_update_ready, after_updated,
    begin_import,
    refresh_all_profile_subscriptions, refresh_profile_subscription_by_uid,
    refresh_selected_profile_subscription, refresh_summary, select_imported, ImportStep, UpdateStep,
};
use vstd::hash_map::StringHashMap;

fn node(name: &str, now: Option<&str>, all: Option<Vec<&str>>) -> (String, ProxyNode) {
    (
        name.to_string(),
        ProxyNode {
            name: name.to_string(),
            kind: "Selector".to_string(),
            now: now.map(|s| s.to_string()),
            all: all.map(|v| v.into_iter().map(|s| s.to_string()).collect()),
            history: Some(vec![ProxyHistory { delay: 1 }]),
        },
    )
}

#[test]
fn every_group_is_kept_once() {
    let found = extract_proxy_groups(&ProxiesResp {
        proxies: vec![
            node("b", None, Some(vec!["x"])),
            node("a", None, Some(vec!["y"])),
            node("n", None, None),
            node("c", None, Some(vec!["z"])),
            node("b", None, Some(vec!["w"])),
        ],
    });
    let names: Vec<&str> = found.iter().map(|g| g.name.as_str()).collect();
    assert_eq!(names, vec!["a", "b", "b", "c"]);
}

fn groups() -> Vec<ProxyGroupView> {
    extract_proxy_groups(&ProxiesResp {
        proxies: vec![
            node("n1", None, None),
            node("Media", None, Some(vec!["Auto", "n3", "DIRECT"])),
            node("Auto", Some("n2"), Some(vec!["n1", "n2", "reject", "Media"])),
            node("Empty", None, Some(vec![])),
        ],
    })
}

fn app() -> App {
    let paths = AppPaths::resolve(Some("/r".to_string()), None, Platform::Linux).expect("paths");
    let store = StateStore::load_or_init(paths, None);
    let mihomo = MihomoClient::new("http://127.0.0.1:9097", None).expect("client");
    App::new(store, mihomo)
}

fn full_app() -> App {
    let mut a = app();
    for (n, name) in [(1u64, "A"), (2, "B"), (3, "C")] {
        let result =
            ImportResult { name: name.to_string(), yaml: String::new(), extra: None };
        a.store.import_profile(format!("https://{name}"), n, result, n);
    }
    a.take_groups(groups());
    a
}

#[test]
fn groups_are_sorted_by_name() {
    let g = groups();
    let names: Vec<&str> = g.iter().map(|g| g.name.as_str()).collect();
    assert_eq!(names, vec!["Auto", "Empty", "Media"]);
    assert_eq!(g[0].now, "n2");
    assert_eq!(g[2].now, "-");
    assert_eq!(g[0].kind, "Selector");
    assert_eq!(g[2].candidates, vec!["Auto", "n3", "DIRECT"]);
}

#[test]
fn targets_are_nodes_alone() {
    assert!(is_builtin_policy_node("Reject-Drop"));
    assert!(!is_builtin_policy_node("DIRECTED"));
    assert_eq!(collect_bulk_delay_targets(&groups()), vec!["n1", "n2", "n3"]);
    assert!(collect_bulk_delay_targets(&vec![]).is_empty());
}

#[test]
fn bulk_tests_are_started_once() {
    let mut bulk = BulkDelay::new();
    match bulk.start_bulk_delay_test(&vec![], "u", 5) {
        BulkStart::Refused(line) => assert_eq!(line, "no testable nodes found for bulk delay"),
        other => panic!("{other:?}"),
    }
    match bulk.start_bulk_delay_test(&groups(), "u", 5) {
        BulkStart::Test(nodes) => assert_eq!(nodes, vec!["n1", "n2", "n3"]),
        other => panic!("{other:?}"),
    }
    assert!(bulk.running);
    assert_eq!(bulk.total, 3);
    match bulk.start_bulk_delay_test(&groups(), "u", 5) {
        BulkStart::Refused(line) => assert_eq!(line, "bulk delay is already running"),
        other => panic!("{other:?}"),
    }
}

#[test]
fn bulk_tests_are_followed() {
    let mut bulk = BulkDelay::new();
    let mut delays: StringHashMap<u64> = StringHashMap::new();
    let events = vec![
        BulkDelayEvent::Started { total: 2, url: "u".to_string(), timeout_ms: 9 },
        BulkDelayEvent::Item { node: "a".to_string(), delay: Some(30), error: None },
        BulkDelayEvent::Item {
            node: "b".to_string(),
            delay: None,
            error: Some("timeout".to_string()),
        },
        BulkDelayEvent::Finished,
    ];
    let (notes, finished) = bulk.take_in(&mut delays, events);
    assert!(finished);
    assert!(!bulk.running);
    assert_eq!(bulk.success + bulk.failed, bulk.done);
    assert_eq!(delays.get("a"), Some(&30));
    assert_eq!(
        notes.lines,
        vec![
            "bulk delay started: 2 nodes, url=u, timeout=9ms",
            "delay failed: b (timeout)",
            "bulk delay progress: 2/2 (ok 1, fail 1)",
            "bulk delay finished: 1/2 ok, 1 failed",
        ]
    );
    let (notes, finished) = bulk.take_in(&mut delays, vec![]);
    assert!(!finished);
    assert!(notes.lines.is_empty());
}

#[test]
fn progress_is_told_every_twenty_nodes() {
    let mut bulk = BulkDelay::new();
    let mut delays: StringHashMap<u64> = StringHashMap::new();
    let mut events = vec![BulkDelayEvent::Started { total: 50, url: String::new(), timeout_ms: 1 }];
    for i in 0..45 {
        events.push(BulkDelayEvent::Item { node: format!("n{i}"), delay: Some(1), error: None });
    }
    let (notes, _) = bulk.take_in(&mut delays, events);
    assert_eq!(
        notes.lines[1..],
        [
            "bulk delay progress: 20/50 (ok 20, fail 0)",
            "bulk delay progress: 40/50 (ok 40, fail 0)",
        ]
    );
}

#[test]
fn cursors_run_in_a_ring() {
    assert_eq!(wrap_index(0, 3, -1), 2);
    assert_eq!(wrap_index(2, 3, 1), 0);
    assert_eq!(wrap_index(5, 0, 1), 0);
    assert_eq!(wrap_index(1, 4, -9), 0);
    assert_eq!(wrap_index(7, 4, 0), 3);
    for c in 0..5usize {
        for d in -7..7isize {
            assert_eq!(wrap_index(wrap_index(c, 5, d), 5, -d), c);
        }
    }
}

#[test]
fn tabs_run_in_a_ring() {
    let mut s = Screen::new();
    assert_eq!(s.current_tab(), Tab::Overview);
    s.switch_tab_prev();
    assert_eq!(s.current_tab(), Tab::Logs);
    s.switch_tab_next();
    assert_eq!(s.current_tab(), Tab::Overview);
    s.switch_tab_next();
    assert_eq!(s.current_tab().title(), "Profiles");
}

#[test]
fn cursors_come_back_to_the_groups() {
    let mut s = Screen::new();
    s.selected_group_idx = 9;
    s.selected_proxy_idx = 9;
    s.move_group_cursor(&groups(), 1);
    assert!(s.selected_group_idx < 3);
    s.selected_group_idx = 9;
    s.move_group_cursor(&vec![], 1);
    assert_eq!(s.selected_group_idx, 9);
}

#[test]
fn cursors_follow_the_groups() {
    let mut a = full_app();
    assert_eq!(a.screen.selected_proxy_idx, 1);
    assert_eq!(a.selected_group_and_proxy(), Some(("Auto", "n2")));
    a.screen.move_group_cursor(&a.proxy_groups, 1);
    assert_eq!(a.selected_group_and_proxy(), None);
    a.screen.move_group_cursor(&a.proxy_groups, 1);
    assert_eq!(a.selected_group_and_proxy(), Some(("Media", "Auto")));
    a.screen.move_candidate_cursor(&a.proxy_groups, -1);
    assert_eq!(a.selected_group_and_proxy(), Some(("Media", "DIRECT")));
    a.take_groups(vec![]);
    assert_eq!(a.screen.selected_group_idx, 0);
    assert_eq!(a.screen.selected_proxy_idx, 0);
}

#[test]
fn logs_and_histories_are_capped() {
    let mut a = app();
    for i in 0..205 {
        a.push_log(3661, &format!("m{i}"));
    }
    assert_eq!(a.logs.len(), 200);
    assert_eq!(a.logs[0], "[01:01:01] m5");
    a.traffic = TrafficResp { up: 7, down: 9 };
    for _ in 0..130 {
        a.push_traffic_samples();
    }
    assert_eq!(a.traffic_up_history.len(), 120);
    assert_eq!(a.traffic_down_history[119], 9);
    let mut q: VecDeque<u64> = VecDeque::new();
    push_capped(&mut q, 1, 0);
    assert_eq!(q.len(), 1);
}

fn press(a: &mut App, keys: &str) -> KeyAction<String> {
    let mut last = KeyAction::Nothing;
    for c in keys.chars() {
        last = a.handle_key(Key::Char(c));
    }
    last
}

#[test]
fn typed_lines_are_run() {
    let mut a = full_app();
    press(&mut a, ": toogle x");
    assert_eq!(a.command_input, " toogle x");
    assert!(a.screen.command_mode);
    a.handle_key(Key::Backspace);
    match a.handle_key(Key::Enter) {
        KeyAction::Run(line) => assert_eq!(line, "toogle"),
        other => panic!("{other:?}"),
    }
    assert!(!a.screen.command_mode);
    assert_eq!(a.command_input, "");
    let next = a.execute_command("toogle");
    assert_eq!(next.notes.lines, vec!["unknown command: toogle"]);
    press(&mut a, ":  ");
    assert!(matches!(a.handle_key(Key::Enter), KeyAction::Nothing));
    press(&mut a, ":x");
    a.handle_key(Key::Esc);
    assert!(!a.screen.command_mode);
}

#[test]
fn keys_move_in_the_profiles() {
    let mut a = full_app();
    a.handle_key(Key::Tab);
    press(&mut a, "j");
    assert_eq!(a.selected_profile().map(|p| p.name.as_str()), Some("B"));
    press(&mut a, "kk");
    assert_eq!(a.selected_profile().map(|p| p.name.as_str()), Some("C"));
    assert!(matches!(press(&mut a, "u"), KeyAction::UpdateSelected));
    assert!(matches!(a.handle_key(Key::Enter), KeyAction::ActivateProfile));
    press(&mut a, "h");
    assert_eq!(a.screen.current_tab(), Tab::Overview);
}

#[test]
fn candidates_lock_the_tabs() {
    let mut a = full_app();
    press(&mut a, "ll");
    assert_eq!(a.screen.current_tab(), Tab::Proxies);
    a.handle_key(Key::Enter);
    assert_eq!(a.screen.proxy_focus, ProxyFocus::Candidates);
    for key in [Key::Tab, Key::BackTab, Key::Right, Key::Char('l')] {
        a.handle_key(key);
        assert_eq!(a.screen.current_tab(), Tab::Proxies);
        assert_eq!(a.screen.proxy_focus, ProxyFocus::Candidates);
    }
    press(&mut a, "]");
    assert_eq!(a.selected_group_and_proxy(), Some(("Auto", "reject")));
    press(&mut a, "[");
    assert!(matches!(a.handle_key(Key::Enter), KeyAction::SwitchProxy));
    assert!(matches!(press(&mut a, "t"), KeyAction::TestDelay));
    assert!(matches!(press(&mut a, "T"), KeyAction::TestAll));
    assert!(matches!(press(&mut a, "r"), KeyAction::RefreshProxies));
    press(&mut a, "j");
    assert_eq!(a.screen.proxy_focus, ProxyFocus::Groups);
    press(&mut a, "j");
    match a.handle_key(Key::Enter) {
        KeyAction::Say(line) => assert_eq!(line, "selected group has no candidates"),
        other => panic!("{other:?}"),
    }
    a.handle_key(Key::Left);
    assert_eq!(a.screen.current_tab(), Tab::Profiles);
}

#[test]
fn help_takes_all_keys() {
    let mut a = full_app();
    a.execute_command("help");
    assert!(a.screen.show_help_overlay);
    press(&mut a, "q:l");
    assert!(a.screen.show_help_overlay);
    assert!(!a.screen.should_quit);
    a.handle_key(Key::Esc);
    assert!(!a.screen.show_help_overlay);
}

#[test]
fn leaving_follows_the_policy() {
    let mut a = app();
    a.store.state.verge.backend_exit_policy = BackendExitPolicy::AlwaysOff;
    press(&mut a, "q");
    assert!(a.screen.should_quit);
    assert!(!a.effective_keep_core_on_exit());
    assert_eq!(shutdown(&a), ShutdownStep::CleanThenStop);
    let mut a = app();
    a.store.state.verge.backend_exit_policy = BackendExitPolicy::AlwaysOn;
    a.store.state.verge.keep_core_on_exit = false;
    a.execute_command("exit");
    assert!(a.screen.should_quit);
    assert_eq!(shutdown(&a), ShutdownStep::Leave);
}

#[test]
fn leaving_may_ask() {
    let mut a = app();
    press(&mut a, "q");
    assert!(a.screen.show_exit_confirm_overlay);
    assert!(!a.screen.should_quit);
    assert_eq!(a.screen.exit_confirm_choice, ExitConfirmChoice::KeepBackend);
    a.handle_key(Key::Esc);
    assert!(!a.screen.show_exit_confirm_overlay);
    press(&mut a, "qj");
    assert_eq!(a.screen.exit_confirm_choice, ExitConfirmChoice::StopBackend);
    press(&mut a, "h");
    assert_eq!(a.screen.exit_confirm_choice, ExitConfirmChoice::KeepBackend);
    press(&mut a, "l");
    assert!(matches!(a.handle_key(Key::Enter), KeyAction::SaveExitChoice));
    assert!(a.screen.should_quit);
    assert!(!a.store.state.verge.keep_core_on_exit);
    assert!(!a.effective_keep_core_on_exit());
}

fn said(line: &str) -> String {
    match parse_command(line) {
        Command::Say(s) => s,
        other => panic!("{other:?}"),
    }
}

#[test]
fn commands_are_read() {
    assert!(matches!(parse_command(""), Command::Nothing));
    assert!(matches!(parse_command("sysproxy"), Command::ToggleSysProxy));
    assert!(matches!(parse_command("toggle sysproxy"), Command::ToggleSysProxy));
    assert!(matches!(parse_command("sysproxy on"), Command::SysProxy(true)));
    assert!(matches!(parse_command("toggle tun"), Command::ToggleTun));
    assert!(matches!(parse_command("import https://a b"), Command::Import(u) if u == "https://a"));
    assert!(matches!(parse_command("reload proxies"), Command::RefreshProxies));
    assert!(matches!(parse_command("reload subscriptions"), Command::UpdateAll));
    assert!(matches!(parse_command("update"), Command::UpdateSelected));
    assert!(matches!(parse_command("update all"), Command::UpdateAll));
    assert!(matches!(parse_command("update R1"), Command::Update(u) if u == "R1"));
    assert!(matches!(parse_command("autosub"), Command::AutoSubStatus));
    assert!(matches!(parse_command("autosub now"), Command::AutoSubNow));
    assert!(matches!(parse_command("autosub 60"), Command::AutoUpdate(60, r) if r == "user"));
    assert!(matches!(parse_command("autosub 0"), Command::AutoUpdate(0, _)));
    assert!(matches!(parse_command("set auto-update OFF"), Command::AutoUpdate(0, r) if r == "set"));
    assert!(matches!(parse_command("switch g p"), Command::Switch(g, p) if g == "g" && p == "p"));
    assert!(matches!(parse_command("delay all u 7"), Command::DelayAll(Some(u), 7) if u == "u"));
    assert!(matches!(parse_command("delay selected"), Command::DelaySelected(None, 5000)));
    assert!(matches!(parse_command("delay n u x"), Command::DelayNode(_, Some(_), 5000)));
    assert!(matches!(parse_command("mode direct"), Command::Mode(m) if m == "direct"));
    assert!(matches!(parse_command("backend"), Command::BackendStatus));
    assert!(matches!(parse_command("backend stop"), Command::BackendStop));
    assert!(matches!(parse_command("backend keep off"), Command::Keep(false)));
    assert!(matches!(parse_command("set keep-core-on-exit yes"), Command::Keep(true)));
    assert!(matches!(
        parse_command("backend policy query"),
        Command::Policy(BackendExitPolicy::Query)
    ));
    assert!(matches!(parse_command("set mixed-port 7890"), Command::SetMixedPort(7890)));
    assert!(matches!(parse_command("quit"), Command::Quit));
}

#[test]
fn misuse_is_told() {
    assert_eq!(said("toogle sysproxy"), "unknown command: toogle");
    assert_eq!(said("reload"), "usage: reload proxies|subscriptions");
    assert_eq!(said("reload profiles"), "usage: reload proxies|subscriptions");
    assert_eq!(said("sysproxy maybe"), "usage: sysproxy [on|off|toggle]");
    assert_eq!(said("import"), "usage: import <url>");
    assert_eq!(said("autosub x"), "usage: autosub [off|status|now|<minutes>]");
    assert_eq!(said("switch g"), "usage: switch <group> <proxy>");
    assert_eq!(said("delay"), "usage: delay <proxy|selected|all> [url] [timeout_ms]");
    assert_eq!(said("mode"), "usage: mode <rule|global|direct>");
    assert_eq!(said("mode x"), "mode must be one of: rule, global, direct");
    assert_eq!(said("backend keep"), "usage: backend keep <on|off>");
    assert_eq!(
        said("backend policy x"),
        "usage: backend policy <always-on|always-off|query>"
    );
    assert!(said("backend x").starts_with("usage: backend [status|"));
    assert_eq!(said("toggle"), "usage: toggle sysproxy|tun");
    assert_eq!(said("set mixed-port 70000"), "usage: set mixed-port <port>");
    assert_eq!(said("set cleanup-on-exit x"), "usage: set cleanup-on-exit <on|off>");
    assert_eq!(said("set controller"), "usage: set controller <url>");
    assert_eq!(said("set auto-update x"), "usage: set auto-update <off|minutes>");
    assert!(said("set").starts_with("usage: set controller <url> | set secret"));
    assert_eq!(said("use"), "usage: use <profile_uid>");
}

#[test]
fn commands_begin_with_a_step() {
    let mut a = full_app();
    let next = a.execute_command("backend stop");
    assert!(matches!(next.step, Step::DoBoth(Operation::Cleanup, Operation::StopBackend)));
    let next = a.execute_command("set controller http://x");
    assert_eq!(a.store.state.verge.controller_url, "http://x");
    assert!(matches!(next.step, Step::Save(Saved::Reconnect(l)) if l == "controller set to http://x"));
    let next = a.execute_command("backend keep off");
    assert_eq!(a.store.state.verge.backend_exit_policy, BackendExitPolicy::AlwaysOff);
    assert!(matches!(next.step, Step::Save(Saved::Say(l)) if l == "backend-exit-policy => always-off"));
    let next = a.execute_command("delay selected");
    assert!(matches!(
        next.step,
        Step::Do(Operation::Delay(n, u, 5000, false)) if n == "n2" && u == "http://cp.cloudflare.com"
    ));
    let next = a.execute_command("use R3");
    assert!(matches!(next.step, Step::Do(Operation::Activate)));
    assert_eq!(a.screen.selected_profile_idx, 2);
    let next = a.execute_command("use R9");
    assert_eq!(next.notes.lines, vec!["profile not found: R9"]);
    let next = a.execute_command("logpath");
    assert_eq!(next.notes.lines, vec!["log file is not available"]);
    a.file_log_path = Some("/l".to_string());
    a.session_log_path = Some("/s".to_string());
    let next = a.execute_command("logpath");
    assert_eq!(next.notes.lines, vec!["log file => /l", "session log => /s"]);
    let next = a.execute_command("autosub now");
    assert_eq!(next.notes.lines, vec!["autosub: manual trigger"]);
    assert!(matches!(next.step, Step::DoBoth(Operation::UpdateAll, Operation::Schedule(r)) if r == "manual"));
}

#[test]
fn keys_begin_with_a_step() {
    let a = full_app();
    let next = a.begin_key_action(KeyAction::SwitchProxy);
    assert!(matches!(next.step, Step::Do(Operation::Switch(g, p, true)) if g == "Auto" && p == "n2"));
    let next = app().begin_key_action(KeyAction::TestDelay);
    assert_eq!(next.notes.lines, vec!["no proxy selection"]);
    let next = a.begin_key_action(KeyAction::TestAll);
    assert!(matches!(next.step, Step::Do(Operation::TestAll(_, 5000))));
}

#[test]
fn failed_toggles_are_taken_back() {
    let mut a = app();
    let next = a.execute_command("toggle sysproxy");
    assert!(a.store.state.verge.enable_system_proxy);
    let purpose = match next.step {
        Step::SetProxy(p) => p,
        other => panic!("{other:?}"),
    };
    let next = after_proxy(purpose, &mut a.store.state.verge, Err("e".to_string()));
    assert!(!a.store.state.verge.enable_system_proxy);
    assert_eq!(next.notes.lines, vec!["apply system proxy failed: e"]);
    let next = a.execute_command("sysproxy on");
    let purpose = match next.step {
        Step::SetProxy(p) => p,
        other => panic!("{other:?}"),
    };
    let _ = after_proxy(purpose, &mut a.store.state.verge, Err("e".to_string()));
    assert!(a.store.state.verge.enable_system_proxy);
    let next = a.execute_command("toggle tun");
    let original = match next.step {
        Step::SetTun(b) => b,
        other => panic!("{other:?}"),
    };
    let next = after_tun(original, &mut a.store.state.verge, Err("e".to_string()));
    assert!(!a.store.state.verge.enable_tun_mode);
    assert_eq!(next.notes.lines, vec!["apply tun failed: e"]);
}

#[test]
fn steps_follow_outcomes() {
    let mut verge = VergeConfig::default();
    verge.enable_system_proxy = true;
    let next = after_proxy(ProxyPurpose::Switch(None), &mut verge, Ok(()));
    assert!(matches!(next.step, Step::Save(Saved::Say(l)) if l == "system proxy applied => true"));
    let next = after_save(
        Saved::Reapply("mixed-port set to 1".to_string(), "port".to_string()),
        &verge,
        Ok(()),
    );
    assert_eq!(next.notes.lines, vec!["mixed-port set to 1"]);
    let purpose = match next.step {
        Step::SetProxy(p) => p,
        other => panic!("{other:?}"),
    };
    let next = after_proxy(purpose, &mut verge, Ok(()));
    assert_eq!(next.notes.lines, vec!["system proxy re-applied with new port"]);
    let next =
        after_proxy(ProxyPurpose::Again("host".to_string()), &mut verge, Err("e".to_string()));
    assert_eq!(next.notes.lines, vec!["re-apply system proxy failed: e"]);
    let next = after_save(Saved::Say("x".to_string()), &verge, Err("disk".to_string()));
    assert!(matches!(next.step, Step::Fail(e) if e == "disk"));
    let next = after_save(Saved::Schedule("set".to_string()), &verge, Ok(()));
    assert!(matches!(next.step, Step::Do(Operation::Schedule(r)) if r == "set"));
    let next = after_tun(false, &mut verge, Ok(()));
    assert!(matches!(next.step, Step::Save(Saved::Say(l)) if l == "tun applied => false"));
    let next = after_reconnect("secret updated".to_string(), Ok(()));
    assert_eq!(next.notes.lines, vec!["secret updated"]);
    assert!(matches!(next.step, Step::Do(Operation::RefreshProxies)));
    assert!(matches!(after_reconnect("x".to_string(), Err("e".to_string())).step, Step::Fail(_)));
    assert!(matches!(after_adopt(true).step, Step::Done));
    assert!(matches!(
        after_adopt(false).step,
        Step::DoBoth(Operation::StartCore, Operation::CheckHealth)
    ));
    let next = after_switch("g", "p", true, Ok(()));
    assert_eq!(next.notes.lines, vec!["switched by cursor: g -> p"]);
    let next = after_switch("g", "p", false, Err("e".to_string()));
    assert_eq!(next.notes.lines, vec!["switch failed: e"]);
    assert_eq!(after_mode("rule", Ok(())).lines, vec!["mode changed to rule"]);
    assert_eq!(
        after_mode("rule", Err("e".to_string())).lines,
        vec!["change mode failed: e"]
    );
}

#[test]
fn delays_are_remembered() {
    let mut delays: StringHashMap<u64> = StringHashMap::new();
    let notes = after_delay(&mut delays, "n", "u", true, Ok(42));
    assert_eq!(notes.lines, vec!["delay n: 42 ms (u)"]);
    assert_eq!(delays.get("n"), Some(&42));
    let notes = after_delay(&mut delays, "m", "u", false, Ok(1));
    assert_eq!(notes.lines, vec!["delay m: 1 ms"]);
    let notes = after_delay(&mut delays, "n", "u", true, Err("e".to_string()));
    assert_eq!(notes.lines, vec!["delay failed for n: e"]);
    assert_eq!(delays.get("n"), Some(&42));
    let notes = after_delay(&mut delays, "n", "u", false, Err("e".to_string()));
    assert_eq!(notes.lines, vec!["delay failed: e"]);
}

fn tick(a: &mut App, answers: &[(TickStep, Result<bool, String>)]) -> (Vec<TickStep>, Vec<String>) {
    let mut step = a.on_tick();
    let mut steps = Vec::new();
    let mut told = Vec::new();
    while step != TickStep::Done {
        steps.push(step);
        let answer = answers
            .iter()
            .find(|(s, _)| *s == step)
            .map(|(_, r)| r.clone())
            .unwrap_or(Ok(false));
        let (next, notes) = a.tick_next(step, answer);
        told.extend(notes.lines);
        step = next;
    }
    (steps, told)
}

#[test]
fn the_first_tick_boots() {
    let mut a = app();
    a.store.state.verge.enable_tun_mode = true;
    let (steps, told) = tick(
        &mut a,
        &[(TickStep::Boot, Ok(true)), (TickStep::BootTun, Err("e".to_string()))],
    );
    assert_eq!(
        steps,
        vec![
            TickStep::Reap,
            TickStep::Boot,
            TickStep::BootApply,
            TickStep::BootRefresh,
            TickStep::BootStreams,
            TickStep::BootTun,
            TickStep::AutoUpdate,
            TickStep::Receive,
            TickStep::Sample,
        ]
    );
    assert_eq!(told, vec!["apply tun on boot failed: e"]);
    assert!(!a.bootstrap_pending);
    let (steps, _) = tick(&mut a, &[(TickStep::Receive, Ok(true))]);
    assert_eq!(
        steps,
        vec![
            TickStep::Reap,
            TickStep::AutoUpdate,
            TickStep::Receive,
            TickStep::RefreshTested,
            TickStep::Sample,
        ]
    );
    let mut b = app();
    let (_, told) = tick(&mut b, &[]);
    assert_eq!(told, vec!["mihomo api unavailable; skip proxy/traffic initialization"]);
}

#[test]
fn the_second_failure_starts_a_recovery() {
    let mut a = app();
    a.bootstrap_pending = false;
    a.tick_count = 24;
    let (steps, _) = tick(&mut a, &[]);
    assert_eq!(steps.last(), Some(&TickStep::Probe));
    assert_eq!(a.health_probe_failures, 1);
    a.tick_count = 49;
    let (steps, told) = tick(&mut a, &[(TickStep::Recover, Ok(true))]);
    assert_eq!(
        steps[4..],
        [
            TickStep::Probe,
            TickStep::Recover,
            TickStep::RecoverStreams,
            TickStep::RecoverRefresh,
        ]
    );
    assert_eq!(told, vec!["mihomo health degraded, trying recovery"]);
    assert_eq!(a.health_probe_failures, 0);
    a.tick_count = 50;
    let (steps, _) = tick(&mut a, &[]);
    assert_eq!(steps.last(), Some(&TickStep::Sample));
}

#[test]
fn the_last_sample_counts() {
    let mut a = app();
    let traffic = vec![TrafficResp { up: 1, down: 2 }, TrafficResp { up: 3, down: 4 }];
    a.take_streams(&traffic, &vec![]);
    assert_eq!(a.traffic, TrafficResp { up: 3, down: 4 });
    assert_eq!(a.connections, ConnectionsResp { upload_total: 0, download_total: 0 });
}

#[test]
fn updates_go_by_the_clock() {
    let (delay, notes) = schedule_next_auto_update(60, "user");
    assert_eq!(delay, Some(3600));
    assert_eq!(notes.lines, vec!["auto subscription update scheduled every 60 min (user)"]);
    let (delay, notes) = schedule_next_auto_update(0, "set");
    assert_eq!(delay, None);
    assert_eq!(notes.lines, vec!["auto subscription update disabled (set)"]);
    assert_eq!(schedule_next_auto_update(u64::MAX, "x").0, Some(u64::MAX));
    assert_eq!(auto_update_status_line(0, Some(3)), "autosub: disabled");
    assert_eq!(auto_update_status_line(5, Some(3)), "autosub: every 5 min, next in 3s");
    let mut a = app();
    assert_eq!(a.maybe_run_auto_update(false).0, AutoUpdate::Wait);
    let (verdict, notes) = a.maybe_run_auto_update(true);
    assert_eq!(verdict, AutoUpdate::Skip);
    assert_eq!(notes.lines, vec!["auto subscription update skipped: no profiles"]);
    let mut a = full_app();
    assert_eq!(a.maybe_run_auto_update(true).0, AutoUpdate::Run);
    assert_eq!(a.maybe_run_auto_update(true).0, AutoUpdate::Wait);
    a.auto_update_done();
    assert_eq!(a.maybe_run_auto_update(true).0, AutoUpdate::Run);
}

#[test]
fn tunnels_are_switched() {
    let (step, notes) = apply_tun_mode(true);
    assert!(matches!(step, TunStep::Patch(_)));
    assert_eq!(
        notes.lines,
        vec!["apply tun requested: enable=true, device=vergetui0, stack=gvisor, auto-route=true, dns-hijack=any:53"]
    );
    assert!(matches!(after_tun_patch(Ok(())), TunStep::Check));
    assert!(matches!(
        after_tun_patch(Err("x".to_string())),
        TunStep::Failed(e) if e == "apply tun config through mihomo api failed"
    ));
    let (step, notes) = after_tun_check(None, true, "e");
    assert!(matches!(step, TunStep::Done));
    assert!(notes.lines.is_empty());
    let off = single("tun", single("enable", Json::Bool(false)));
    let (step, notes) = after_tun_check(Some(&off), true, "ep");
    assert!(matches!(step, TunStep::Explain));
    assert_eq!(
        notes.lines,
        vec!["tun post-check: enable=Some(false), device=-, stack=-, endpoint=ep"]
    );
    assert!(matches!(after_tun_check(Some(&off), false, "ep").0, TunStep::Done));
    let on = single(
        "tun",
        object(vec![
            ("enable".to_string(), Json::Bool(true)),
            ("device".to_string(), text_value("d")),
            ("stack".to_string(), text_value("s")),
        ]),
    );
    let (step, notes) = after_tun_check(Some(&on), true, "ep");
    assert!(matches!(step, TunStep::Done));
    assert_eq!(
        notes.lines,
        vec!["tun post-check: enable=Some(true), device=d, stack=s, endpoint=ep"]
    );
    let tails =
        vec!["x Start TUN listening error: y operation not permitted".to_string()];
    let (step, notes) = after_tun_explain(&tails, "hint".to_string());
    assert!(matches!(step, TunStep::Failed(e) if e.contains("missing NET_ADMIN/root")));
    assert_eq!(notes.lines[1], "hint");
    let (step, _) = after_tun_explain(&vec![], "hint".to_string());
    assert!(matches!(
        step,
        TunStep::Failed(e) if e == "tun enable rejected by core (tun.enable stayed false)"
    ));
}

#[test]
fn cleaning_up_turns_off() {
    let mut verge = VergeConfig::default();
    verge.enable_tun_mode = true;
    verge.enable_system_proxy = true;
    assert!(!proxy_off(&verge).enable_system_proxy);
    let (step, _) = cleanup_before_exit(&verge);
    assert_eq!(step, CleanupStep::TunOff);
    let (step, notes) = cleanup_next(step, &mut verge, Ok(()), Platform::Linux);
    assert_eq!(step, CleanupStep::ProxyOff(true));
    assert_eq!(notes.lines, vec!["exit cleanup: tun disabled"]);
    let (step, notes) = cleanup_next(step, &mut verge, Ok(()), Platform::Linux);
    assert_eq!(step, CleanupStep::Save);
    assert_eq!(notes.lines, vec!["exit cleanup: system proxy disabled"]);
    assert!(!verge.enable_tun_mode);
    assert!(!verge.enable_system_proxy);
    let (step, notes) = cleanup_next(step, &mut verge, Err("e".to_string()), Platform::Linux);
    assert_eq!(step, CleanupStep::Done);
    assert_eq!(notes.lines, vec!["exit cleanup: save state failed: e"]);
    let (step, _) = cleanup_before_exit(&verge);
    assert_eq!(step, CleanupStep::ProxyOff(false));
    assert_eq!(cleanup_next(step, &mut verge, Ok(()), Platform::Linux).0, CleanupStep::Done);
    verge.enable_tun_mode = true;
    let (step, notes) =
        cleanup_next(CleanupStep::TunOff, &mut verge, Err("e".to_string()), Platform::Linux);
    assert_eq!(step, CleanupStep::ProxyOff(false));
    assert!(verge.enable_tun_mode);
    assert_eq!(notes.lines.len(), 2);
    verge.auto_cleanup_on_exit = false;
    let (step, notes) = cleanup_before_exit(&verge);
    assert_eq!(step, CleanupStep::Done);
    assert_eq!(
        notes.lines,
        vec!["exit cleanup disabled by config (set cleanup-on-exit on to enable)"]
    );
}

#[test]
fn backends_are_stopped_or_left() {
    let (step, notes) = stop_managed_core_backend(Some(3), Some(4));
    assert_eq!(step, StopStep::Kill);
    assert_eq!(notes.lines, vec!["stopping managed core child (pid=3)"]);
    assert_eq!(stop_managed_core_backend(None, Some(4)).0, StopStep::Terminate(4));
    let (step, notes) = stop_managed_core_backend(None, None);
    assert_eq!(step, StopStep::Done);
    assert_eq!(notes.lines, vec!["managed core stop: no child handle and no pid file"]);
    assert_eq!(
        after_terminate(4, true).1.lines,
        vec!["sent terminate signal to managed core pid=4"]
    );
    assert_eq!(
        after_terminate(4, false).1.lines,
        vec!["failed to terminate pid=4 (or already exited)"]
    );
    assert_eq!(
        shutdown_notes(ShutdownStep::Leave, Some(5)).lines,
        vec![
            "exit: keeping backend running",
            "leaving managed core running in background (pid=5)",
        ]
    );
    assert_eq!(
        shutdown_notes(ShutdownStep::CleanThenStop, None).lines,
        vec!["exit: stopping backend"]
    );
}

#[test]
fn subscriptions_are_updated_in_three_modes() {
    let a = full_app();
    let (step, found, _) = refresh_profile_subscription_by_uid(&a.store, "R2");
    assert_eq!(step, UpdateStep::Fetch(FetchMode::Direct));
    assert_eq!(found.expect("profile").name, "B");
    let (step, _, notes) = refresh_profile_subscription_by_uid(&a.store, "R9");
    assert_eq!(step, UpdateStep::Done(false));
    assert_eq!(notes.lines, vec!["profile not found: R9"]);
    let (step, notes) = after_fetch(FetchMode::Direct, "B", "R2", Err("e".to_string()));
    assert_eq!(step, UpdateStep::Fetch(FetchMode::SelfProxy));
    assert_eq!(notes.lines, vec!["update B (R2) via direct failed: e"]);
    let (step, notes) = after_fetch(FetchMode::SystemProxy, "B", "R2", Err("e".to_string()));
    assert_eq!(step, UpdateStep::Done(false));
    assert_eq!(notes.lines[1], "subscription update failed: B (R2)");
    let (step, notes) = after_fetch(FetchMode::SelfProxy, "B", "R2", Ok("B2".to_string()));
    assert_eq!(step, UpdateStep::Updated);
    assert_eq!(notes.lines, vec!["subscription updated: B2 (R2) via self_proxy"]);
    assert_eq!(after_updated(&a.store, "R2"), UpdateStep::Done(true));
    assert_eq!(after_updated(&a.store, "R1"), UpdateStep::EnsureReady);
    assert_eq!(after_update_ready(true).0, UpdateStep::Apply);
    let (step, notes) = after_update_ready(false);
    assert_eq!(step, UpdateStep::Done(true));
    assert_eq!(notes.lines, vec!["mihomo unavailable, updated profile saved locally only"]);
    assert_eq!(after_update_apply("B", Ok(())).0, UpdateStep::Refresh);
    let (_, notes) = after_update_apply("B", Err("e".to_string()));
    assert_eq!(notes.lines, vec!["apply updated profile to mihomo failed: e"]);
}

#[test]
fn all_subscriptions_are_counted() {
    let a = full_app();
    let (uids, notes) = refresh_all_profile_subscriptions(&a.store);
    assert_eq!(uids, vec!["R1", "R2", "R3"]);
    assert!(notes.lines.is_empty());
    let (uids, notes) = refresh_all_profile_subscriptions(&app().store);
    assert!(uids.is_empty());
    assert_eq!(notes.lines, vec!["no profiles to update"]);
    assert_eq!(refresh_selected_profile_subscription(&a).0.as_deref(), Some("R1"));
    let (uid, notes) = refresh_selected_profile_subscription(&app());
    assert_eq!(uid, None);
    assert_eq!(notes.lines, vec!["no profile selected"]);
    assert_eq!(
        refresh_summary(&vec![true, false, true]).lines,
        vec!["subscription refresh completed: ok 2, failed 1"]
    );
}

#[test]
fn imports_are_tried_in_three_modes() {
    assert_eq!(begin_import(), ImportStep::Fetch(FetchMode::Direct));
    let (step, notes) =
        after_import(FetchMode::Direct, Ok(("A".to_string(), "R1".to_string())));
    assert_eq!(step, ImportStep::Activate);
    assert_eq!(notes.lines, vec!["imported profile: A (R1) via direct"]);
    let (step, notes) = after_import(FetchMode::Direct, Err("e".to_string()));
    assert_eq!(step, ImportStep::Fetch(FetchMode::SelfProxy));
    assert_eq!(notes.lines, vec!["import (direct) failed: e"]);
    let (step, notes) = after_import(FetchMode::SystemProxy, Err("e".to_string()));
    assert_eq!(step, ImportStep::Done);
    assert_eq!(
        notes.lines,
        vec!["import (system_proxy) failed: e", "import failed after retries"]
    );
    let mut s = Screen::new();
    select_imported(&mut s, 3);
    assert_eq!(s.selected_profile_idx, 2);
    select_imported(&mut s, 0);
    assert_eq!(s.selected_profile_idx, 0);
}

#[test]
fn profiles_are_activated() {
    let mut a = full_app();
    a.screen.selected_profile_idx = 1;
    let (_, activation, _) = a.activate_selected_profile();
    let activation = activation.expect("activation");
    assert_eq!(activation.name, "B");
    assert_eq!(activation.file, "R2.yaml");
    assert_eq!(a.store.state.current.as_deref(), Some("R2"));
    let (_, activation, notes) = app().activate_selected_profile();
    assert!(activation.is_none());
    assert_eq!(notes.lines, vec!["no profile selected"]);
}

#[test]
fn the_start_is_told() {
    let mut a = app();
    a.file_log_path = Some("/r/logs/verge-tui.log".to_string());
    let notes = a.log_boot_diagnostics(true, false);
    assert_eq!(
        notes.lines,
        vec![
            "startup: root=/r, profiles=0, current=-, controller=http://127.0.0.1:9097, mixed-port=7897, sys=false, tun=false",
            "startup mode: independent-core=true, service-ipc=false",
            "startup policy: autosub=0min cleanup-on-exit=true backend-exit-policy=query (legacy keep-core-on-exit=true)",
            "file log: /r/logs/verge-tui.log",
        ]
    );
    let (dir, main, session) = log_files(&a.store.paths, 77);
    assert_eq!(dir, "/r/logs");
    assert_eq!(main, "/r/logs/verge-tui.log");
    assert_eq!(session, "/r/logs/session-77.log");
    assert_eq!(started_notes(Ok(())).lines.len(), 2);
    assert_eq!(
        started_notes(Err("e".to_string())).lines[1],
        "apply system proxy on boot failed: e"
    );
}

#[test]
fn the_backend_is_told() {
    let a = app();
    assert_eq!(
        a.backend_status(Some((9, true))).lines,
        vec![
            "backend endpoint: http://127.0.0.1:9097/",
            "backend-exit-policy=query (effective keep=true)",
            "managed core pid=9, alive=true",
        ]
    );
    assert_eq!(a.backend_status(None).lines[2], "managed core pid file: not found");
}

#[test]
fn diagnoses_are_told() {
    let a = app();
    let facts = DoctorFacts {
        independent: true,
        service: false,
        remaining: None,
        pid: Some((9, false)),
        core_port: Some(Some(7897)),
        core: Some("/c".to_string()),
        caps: Some(false),
        primary_exists: false,
        legacy_exists: true,
    };
    let lines = a.doctor(&facts, Platform::Linux).lines;
    assert_eq!(
        lines[..8],
        [
            "doctor: independent-core=true, service-ipc=false",
            "doctor: endpoint=http://127.0.0.1:9097/",
            "doctor: state mixed-port=7897, sysproxy=false",
            "doctor: cleanup-on-exit=true backend-exit-policy=query (effective keep=true) autosub: disabled",
            "doctor: managed-core pid=9, alive=false",
            "doctor: core mixed-port=Some(7897)",
            "doctor: core-bin=/c",
            "doctor: linux tun caps=false",
        ]
    );
    assert!(lines[8].starts_with("tun permission hint"));
    assert_eq!(lines[9], "doctor: service ipc primary exists=false legacy exists=true");
    let bare = DoctorFacts { pid: None, core_port: None, core: None, caps: None, ..facts };
    let lines = a.doctor(&bare, Platform::Linux).lines;
    assert_eq!(lines[4], "doctor: core-bin not found in PATH");
    assert_eq!(lines.len(), 6);
}

#[test]
fn the_head_is_drawn() {
    let a = full_app();
    assert_eq!(
        header_lines(&a, 61),
        vec![
            " VERGE-TUI  uptime 00:01:01  ticks 0  profile R1  ",
            " SYS:OFF  TUN:OFF  Controller:http://127.0.0.1:9097/ ",
            "[Overview]  Profiles  Proxies  Logs",
        ]
    );
    assert_eq!(command_text(&a), "Press ':' for commands");
    assert_eq!(overlay_margin(90), 5);
    assert!(key_hints(Tab::Proxies, ProxyFocus::Candidates).ends_with("(tab locked)"));
    assert!(key_hints(Tab::Logs, ProxyFocus::Groups).starts_with("Scroll"));
    let mut b = app();
    press(&mut b, ":ab");
    assert_eq!(command_text(&b), ":ab");
}

#[test]
fn the_overview_is_drawn() {
    let mut a = full_app();
    a.store.state.verge.auto_update_subscription_minutes = 30;
    assert_eq!(
        overview_lines(&a),
        vec![
            "Current Profile : A",
            "Profiles Count  : 3",
            "Proxy Groups    : 3",
            "Proxy Endpoint  : 127.0.0.1:7897",
            "System Proxy    : DISABLED",
            "TUN Mode        : DISABLED",
            "Auto Update     : 30 min",
            "Exit Policy     : cleanup=true backend=query (effective keep=true)",
        ]
    );
    assert_eq!(profile_snapshot(&a), vec!["* A", "  B", "  C"]);
    a.traffic = TrafficResp { up: 2048, down: 5 };
    assert_eq!(gauge_titles(&a), ("Upload 2.0 KB".to_string(), "Download 5 B".to_string()));
    assert_eq!(
        session_stat_lines(&a),
        vec![
            "Upload Total   : 0 B",
            "Download Total : 0 B",
            "Tick Rate      : 200ms",
            "Rendered Ticks : 0",
        ]
    );
    assert_eq!(history_max(&VecDeque::new()), 1);
    assert_eq!(history_max(&VecDeque::from(vec![3, 9, 2])), 9);
    assert_eq!(history_max(&VecDeque::from(vec![0])), 0);
}

#[test]
fn profiles_are_drawn() {
    let mut a = full_app();
    a.store.state.profiles[1].extra =
        Some(ProfileExtra { upload: 1024, download: 1024, total: 4096, expire: 5 });
    assert_eq!(
        profile_items(&a),
        vec!["* [R1] A", "  [R2] B usage=2048/4096", "  [R3] C"]
    );
    assert_eq!(profile_detail_lines(&a)[5], "Usage      : -/-");
    a.screen.selected_profile_idx = 1;
    assert_eq!(
        profile_detail_lines(&a),
        vec![
            "Name       : B",
            "UID        : R2",
            "Current    : NO",
            "Updated    : 2",
            "URL        : https://B",
            "Usage      : 2.0 KB/4.0 KB",
            "Expire     : 5",
        ]
    );
    assert_eq!(profile_detail_lines(&app()), vec!["No profile loaded"]);
}

#[test]
fn proxies_are_drawn() {
    let mut a = full_app();
    a.delay_cache.insert("n2".to_string(), 42);
    assert_eq!(group_items(&a)[0], "[Selector] Auto -> n2");
    let items = candidate_items(&a);
    assert_eq!(items[0], format!("  {:<36}    - ", "n1"));
    assert_eq!(items[1], format!("* {:<36} {:>4}ms", "n2", 42));
    assert_eq!(shown_candidate(&a), Some(1));
    assert_eq!(
        selection_detail_lines(&a),
        vec![
            "Group   : Auto",
            "Type    : Selector",
            "Now     : n2",
            "Select  : n2",
            "Delay   : 42 ms",
            "Choices : 4",
            "Bulk    : IDLE (ok 0, fail 0)",
        ]
    );
    a.bulk.total = 4;
    a.bulk.done = 3;
    a.bulk.success = 2;
    a.bulk.failed = 1;
    assert_eq!(selection_detail_lines(&a)[6], "Bulk    : DONE 2/4 (ok 2, fail 1)");
    a.bulk.running = true;
    assert_eq!(selection_detail_lines(&a)[6], "Bulk    : RUNNING 3/4 (ok 2, fail 1)");
    assert_eq!(proxy_titles(ProxyFocus::Groups).0, "Groups [Focus] (j/k, Enter)");
    let b = app();
    assert_eq!(candidate_items(&b), vec!["No proxy group"]);
    assert_eq!(selection_detail_lines(&b), vec!["No proxy group selected"]);
    assert_eq!(shown_candidate(&b), None);
}

#[test]
fn logs_are_drawn() {
    assert_eq!(log_tone("x failed"), LogTone::Alarm);
    assert_eq!(log_tone("applied with error"), LogTone::Alarm);
    assert_eq!(log_tone("switched: a -> b"), LogTone::Success);
    assert_eq!(log_tone("hello"), LogTone::Plain);
    let mut a = app();
    for i in 0..8 {
        a.push_log(0, &format!("{i}"));
    }
    let feed = event_feed(&a.logs);
    assert_eq!(feed.len(), 6);
    assert_eq!(feed[0], "[00:00:00] 2");
    assert_eq!(feed[5], "[00:00:00] 7");
    assert_eq!(log_info_lines(&a, 5)[..2], ["Entries: 8", "Uptime : 00:00:05"]);
}

#[test]
fn the_question_is_drawn() {
    let mut a = app();
    let lines = exit_question_lines(&a);
    assert_eq!(lines[2], "Current policy: query");
    assert_eq!(lines[5], "[*] Keep Backend Running");
    assert_eq!(lines[6], "[ ] Stop Backend And Cleanup");
    a.screen.exit_confirm_choice = ExitConfirmChoice::StopBackend;
    let lines = exit_question_lines(&a);
    assert_eq!(lines[5], "[ ] Keep Backend Running");
    assert_eq!(lines[6], "[*] Stop Backend And Cleanup");
}
