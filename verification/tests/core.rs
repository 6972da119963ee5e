use serde_yaml_ng::{Mapping, Value};
use verge_tui::apply::{
    activate_next, after_copy, after_reload, after_reload_copy, after_set_port,
    apply_current_profile_to_core, apply_profile_file_to_core, current_profile,
    ensure_runtime_port_alignment, refresh_note, skip_current_note, stream_failure_note,
    ActivateStep, ApplyStep, CopyReply, CopyStep, SafeCopy,
};
use verge_tui::client::{MihomoClient, VersionResp};
use verge_tui::config::{Platform, VergeConfig};
use verge_tui::health::{
    adopt_controller, after_adopt_save, begin_adopt, check_mihomo_health, ensure_mihomo_ready,
    ready_next, ReadyStep, SearchStep, SocketReply, SocketSearch,
};
use verge_tui::hint::{
    clash_verge_app_home_candidates, detect_clash_verge_api_hint, existing_socket_candidates,
    hint_from,
    local_socket_candidates, normalize_controller_url, pick_socket_for_spawn, read_hint,
    yaml_string_like, yaml_to_u16, ClashVergeApiHint, HintStep,
};
use verge_tui::launch::{
    after_service_request, after_spawn, bootstrap_next, child_arguments, core_log_path,
    launch_begin, launch_client, launch_next, launch_reaps, reap_managed_core,
    service_link_needed, service_link_notes, service_next, service_request, service_sockets,
    spawn_failure, start_next, tell_core_log, try_bootstrap_service_ipc, try_start_managed_mihomo,
    try_start_managed_mihomo_by_service, tun_start_notes, BootstrapStep, ChildState, LaunchReply,
    LaunchStep, LaunchTarget, Launcher, LinkOutcome, ServiceReply, ServiceStep, ServiceWait,
    StartStep, WaitVerdict,
};
use verge_tui::process::{
    alive_marker, core_binary_places, core_has_linux_tun_caps, executable_places,
    managed_core_pid_file_path, pid_file_content, read_managed_core_pid, run_command_probe,
    service_binary_places, tail_text_lines, terminate_next, terminate_pid, tun_privilege_hint,
    PlaceSearch, PlaceStep, TerminateStep,
};
use verge_tui::profile::{AppPaths, StateStore};
use verge_tui::runtime::{
    build_runtime_config, choose_runtime, clash_runtime_path, core_home,
    ensure_tun_defaults_in_mapping, fill_runtime, managed_http_controller_url,
    pick_runtime_mixed_port, prefers_independent_core, prefers_service_ipc, runtime_config_path,
    runtime_profile_path, RuntimeChoice,
};
use verge_tui::run::{reconnect_next, recreate_client, ReconnectStep};
use verge_tui::subscription::ImportResult;

fn version(v: &str) -> VersionResp {
    VersionResp { version: v.to_string(), meta: None }
}

fn mapping(text: &str) -> Mapping {
    serde_yaml_ng::from_str(text).expect("mapping")
}

fn store() -> StateStore {
    let paths = AppPaths::resolve(Some("/r".to_string()), None, Platform::Linux).expect("paths");
    let mut s = StateStore::load_or_init(paths, None);
    for (n, name) in [(1u64, "A"), (2, "B")] {
        let result = ImportResult {
            name: name.to_string(),
            yaml: "proxies: []".to_string(),
            extra: None,
        };
        s.import_profile(format!("https://{name}"), n, result, n);
    }
    s
}

fn hint(config: &str, verge: Option<&str>) -> ClashVergeApiHint {
    read_hint(Platform::Linux, "/h/app", config, verge).expect("hint")
}

#[test]
fn controllers_are_normalised() {
    assert_eq!(normalize_controller_url("  "), None);
    assert_eq!(normalize_controller_url(":9090"), Some("http://127.0.0.1:9090".to_string()));
    assert_eq!(normalize_controller_url(" h:1 "), Some("http://h:1".to_string()));
    assert_eq!(normalize_controller_url("https://h"), Some("https://h".to_string()));
}

#[test]
fn scalars_are_read() {
    assert_eq!(yaml_string_like(&Value::from("a")), Some("a".to_string()));
    assert_eq!(yaml_string_like(&Value::from(true)), Some("true".to_string()));
    assert_eq!(yaml_string_like(&Value::from(12u64)), Some("12".to_string()));
    assert_eq!(yaml_string_like(&Value::from(-3i64)), Some("-3".to_string()));
    assert_eq!(yaml_string_like(&Value::Null), None);
    assert_eq!(yaml_to_u16(&Value::from(7890u64)), Some(7890));
    assert_eq!(yaml_to_u16(&Value::from(65537u64)), Some(1));
    assert_eq!(yaml_to_u16(&Value::from(" 80 ")), Some(80));
    assert_eq!(yaml_to_u16(&Value::from("65536")), None);
    assert_eq!(yaml_to_u16(&Value::from(-1i64)), None);
    assert_eq!(yaml_to_u16(&Value::from(true)), None);
}

#[test]
fn hints_are_read() {
    let h = hint(
        "external-controller: 127.0.0.1:9097\nexternal-controller-unix: ' /s.sock '\nsecret: 123\nmixed-port: 7890\n",
        Some("enable_external_controller: false\nclash_core: ' verge-mihomo-alpha '\n"),
    );
    assert_eq!(h.controller_url.as_deref(), Some("http://127.0.0.1:9097"));
    assert_eq!(h.socket_path.as_deref(), Some("/s.sock"));
    assert_eq!(h.secret.as_deref(), Some("123"));
    assert_eq!(h.mixed_port, Some(7890));
    assert_eq!(h.enable_external_controller, Some(false));
    assert_eq!(h.clash_core.as_deref(), Some("verge-mihomo-alpha"));
    assert_eq!(h.app_home, "/h/app");
    assert_eq!(h.source_config, "/h/app/config.yaml");
    assert!(read_hint(Platform::Linux, "/h", "- a", None).is_none());
    let h = hint("external-controller-pipe: p", Some("- broken"));
    assert_eq!(h.socket_path.as_deref(), Some("p"));
    assert_eq!(h.enable_external_controller, None);
    let h = hint("external-controller-unix: ''\nexternal-controller-pipe: p", None);
    assert_eq!(h.socket_path, None);
    let tagged = mapping("external-controller: !x ':1'\n");
    assert_eq!(
        hint_from(Platform::Linux, "/d", &tagged, None).controller_url.as_deref(),
        Some("http://127.0.0.1:1")
    );
}

#[test]
fn homes_of_clash_verge_are_listed_once() {
    let a = clash_verge_app_home_candidates(
        Platform::Linux,
        Some("/home/u/.local/share"),
        Some("/home/u"),
    );
    assert_eq!(
        a,
        vec![
            "/home/u/.local/share/io.github.clash-verge-rev.clash-verge-rev",
            "/home/u/.local/share/io.github.clash-verge-rev.clash-verge-rev.dev",
        ]
    );
    let on = Platform::Linux;
    assert_eq!(clash_verge_app_home_candidates(on, Some("/x"), Some("/home/u")).len(), 4);
    assert!(clash_verge_app_home_candidates(on, None, None).is_empty());
    assert_eq!(
        clash_verge_app_home_candidates(on, Some("/h//.local/share"), Some("/h")),
        vec![
            "/h//.local/share/io.github.clash-verge-rev.clash-verge-rev",
            "/h//.local/share/io.github.clash-verge-rev.clash-verge-rev.dev",
        ]
    );
}

#[test]
fn the_first_home_with_a_mapping_tells() {
    let begin =
        || detect_clash_verge_api_hint(Platform::Linux, Some("/x"), Some("/home/u"));
    let mut search = begin();
    assert_eq!(search.dirs.len(), 4);
    assert!(matches!(
        search.step(),
        HintStep::Read { config, verge }
            if config == "/x/io.github.clash-verge-rev.clash-verge-rev/config.yaml"
                && verge == "/x/io.github.clash-verge-rev.clash-verge-rev/verge.yaml"
    ));
    assert!(matches!(search.next(None, Some("a: 1".to_string())), HintStep::Read { .. }));
    assert!(matches!(search.next(Some("- a".to_string()), None), HintStep::Read { .. }));
    let config = "external-controller: :9000".to_string();
    let verge = "clash_core: verge-mihomo-alpha".to_string();
    match search.next(Some(config), Some(verge)) {
        HintStep::Done(Some(found)) => {
            assert_eq!(
                found.app_home,
                "/home/u/.local/share/io.github.clash-verge-rev.clash-verge-rev"
            );
            assert_eq!(found.controller_url.as_deref(), Some("http://127.0.0.1:9000"));
            assert_eq!(found.clash_core.as_deref(), Some("verge-mihomo-alpha"));
        }
        step => panic!("{step:?}"),
    }
    let mut search = begin();
    for _ in 0..3 {
        assert!(matches!(search.next(None, None), HintStep::Read { .. }));
    }
    assert!(matches!(search.next(None, None), HintStep::Done(None)));
}

#[test]
fn the_first_place_that_is_there_is_found() {
    let places = vec!["/a".to_string(), "/b".to_string(), "/c".to_string()];
    let mut search = PlaceSearch::new(places);
    assert!(matches!(search.step(), PlaceStep::Look(p) if p == "/a"));
    assert!(matches!(search.next(false), PlaceStep::Look(p) if p == "/b"));
    assert!(matches!(search.next(true), PlaceStep::Done(Some(p)) if p == "/b"));
    let mut search = PlaceSearch::new(vec!["/a".to_string()]);
    assert!(matches!(search.next(false), PlaceStep::Done(None)));
    assert!(matches!(search.next(true), PlaceStep::Done(None)));
    assert!(matches!(PlaceSearch::new(vec![]).step(), PlaceStep::Done(None)));
}

#[test]
fn sockets_are_listed() {
    let h = hint("external-controller-unix: /z.sock", None);
    assert_eq!(
        local_socket_candidates(Platform::Linux, &h),
        vec![
            "/h/app/verge/verge-mihomo.sock",
            "/tmp/verge/verge-mihomo.sock",
            "/var/tmp/verge/verge-mihomo.sock",
            "/z.sock",
        ]
    );
    assert_eq!(
        existing_socket_candidates(Platform::Linux, Some(&h)),
        vec![
            "/var/tmp/verge/verge-mihomo.sock",
            "/tmp/verge/verge-mihomo.sock",
            "/tmp/verge-tui/verge-mihomo.sock",
            "/h/app/verge/verge-mihomo.sock",
            "/z.sock",
        ]
    );
    assert_eq!(existing_socket_candidates(Platform::Linux, None).len(), 3);
    assert_eq!(pick_socket_for_spawn(Some(&h), false, Platform::Linux), "/z.sock");
    assert_eq!(
        pick_socket_for_spawn(Some(&h), true, Platform::Linux),
        "/tmp/verge-tui/verge-mihomo.sock"
    );
    assert_eq!(
        pick_socket_for_spawn(None, false, Platform::Windows),
        r"\\.\pipe\verge-tui-mihomo"
    );
}

#[test]
fn the_environment_chooses_the_core() {
    assert!(prefers_independent_core(None));
    assert!(prefers_independent_core(Some("1")));
    assert!(!prefers_independent_core(Some(" false ")));
    assert!(!prefers_service_ipc(None));
    assert!(prefers_service_ipc(Some("TRUE")));
    assert!(!prefers_service_ipc(Some("yes")));
}

#[test]
fn ports_are_picked() {
    assert_eq!(pick_runtime_mixed_port(7897, &|_p: u16| true), 7897);
    assert_eq!(pick_runtime_mixed_port(7897, &|p: u16| p > 17_900), 17_901);
    assert_eq!(pick_runtime_mixed_port(7897, &|_p: u16| false), 7897);
    assert_eq!(managed_http_controller_url(7897), "http://127.0.0.1:9097");
    assert_eq!(managed_http_controller_url(65000), "http://127.0.0.1:65535");
}

#[test]
fn tunnels_are_completed() {
    let mut map = mapping("a: 1\ntun:\n  enable: true\n  stack: system\n");
    ensure_tun_defaults_in_mapping(&mut map, false);
    let tun = map.get("tun").and_then(Value::as_mapping).expect("tun");
    assert_eq!(tun.get("enable"), Some(&Value::from(false)));
    assert_eq!(tun.get("stack"), Some(&Value::from("system")));
    assert_eq!(tun.get("device"), Some(&Value::from("vergetui0")));
    assert_eq!(tun.get("dns-hijack"), Some(&Value::Sequence(vec![Value::from("any:53")])));
    assert_eq!(tun.len(), 7);
    assert_eq!(map.get("a"), Some(&Value::from(1)));
    let mut bare = mapping("tun: true");
    ensure_tun_defaults_in_mapping(&mut bare, true);
    assert_eq!(bare.get("tun").and_then(Value::as_mapping).map(|t| t.len()), Some(7));
}

#[test]
fn configurations_are_made_from_profiles() {
    let mut map = mapping("proxies: [x]\nmode: global\nsecret: old\n");
    fill_runtime(&mut map, 17_900, "", "/s.sock", Platform::Linux);
    assert_eq!(map.get("mixed-port"), Some(&Value::from(17_900)));
    assert_eq!(map.get("tproxy-port"), Some(&Value::from(17_904)));
    assert_eq!(map.get("mode"), Some(&Value::from("rule")));
    assert_eq!(map.get("external-controller"), Some(&Value::from("127.0.0.1:19100")));
    assert_eq!(map.get("external-controller-unix"), Some(&Value::from("/s.sock")));
    assert_eq!(map.get("secret"), Some(&Value::from("old")));
    assert_eq!(map.get("proxies"), Some(&Value::Sequence(vec![Value::from("x")])));
    let mut win = mapping("{}");
    fill_runtime(&mut win, 65_534, "k", "p", Platform::Windows);
    assert_eq!(win.get("port"), Some(&Value::from(65_535)));
    assert!(win.get("redir-port").is_none());
    assert!(win.get("tproxy-port").is_none());
    assert_eq!(win.get("external-controller-pipe"), Some(&Value::from("p")));
    assert_eq!(win.get("secret"), Some(&Value::from("k")));
}

#[test]
fn configurations_are_written() {
    let mut verge = VergeConfig::default();
    let (text, notes) = build_runtime_config(
        &mut verge,
        "proxies: []",
        "/p.yaml",
        "/s",
        Platform::MacOs,
        &|p: u16| p == 17_897,
    );
    let text = text.expect("built").expect("written");
    let map = mapping(&text);
    assert_eq!(map.get("mixed-port"), Some(&Value::from(17_897)));
    assert_eq!(map.get("redir-port"), Some(&Value::from(17_900)));
    assert!(map.get("tproxy-port").is_none());
    assert_eq!(verge.mixed_port, 17_897);
    assert_eq!(
        notes.lines,
        vec!["managed core mixed-port adjusted: 7897 -> 17897 (port conflict)"]
    );
    let (text, notes) =
        build_runtime_config(&mut verge, "[", "/p.yaml", "/s", Platform::Linux, &|_p: u16| true);
    assert_eq!(text.unwrap_err(), "parse yaml failed: /p.yaml");
    assert!(notes.lines.is_empty());
}

#[test]
fn the_source_of_a_configuration_is_chosen() {
    let s = store();
    let path = runtime_profile_path(&s);
    assert_eq!(path.as_deref(), Some("/r/profiles/R1.yaml"));
    let h = hint("a: 1", None);
    assert_eq!(clash_runtime_path(Platform::Linux, &h), "/h/app/clash-verge.yaml");
    let (c, notes) = choose_runtime(Platform::Linux, path.clone(), Some(&h), false, true, true, true);
    assert!(matches!(c, Ok(RuntimeChoice::Use { config, .. }) if config == "/h/app/clash-verge.yaml"));
    assert!(notes.lines.is_empty());
    let (c, _) = choose_runtime(Platform::Linux, path.clone(), Some(&h), false, false, true, true);
    assert!(matches!(c, Ok(RuntimeChoice::Use { config, .. }) if config == "/h/app/config.yaml"));
    let (c, _) = choose_runtime(Platform::Linux, path.clone(), Some(&h), true, true, true, true);
    assert!(matches!(c, Ok(RuntimeChoice::Build { profile }) if profile == "/r/profiles/R1.yaml"));
    let (c, notes) = choose_runtime(Platform::Linux, path.clone(), Some(&h), true, true, true, false);
    assert!(matches!(c, Ok(RuntimeChoice::Use { .. })));
    assert_eq!(
        notes.lines,
        vec!["selected TUI profile file missing: /r/profiles/R1.yaml. fallback runtime config => /h/app/config.yaml"]
    );
    let (c, _) = choose_runtime(Platform::Linux, path, None, true, false, false, false);
    assert_eq!(c.unwrap_err(), "selected TUI profile file missing: /r/profiles/R1.yaml");
    let (c, notes) = choose_runtime(Platform::Linux, None, Some(&h), true, true, true, false);
    assert!(c.is_ok());
    assert_eq!(
        notes.lines,
        vec!["no TUI profile found; fallback runtime config => /h/app/config.yaml"]
    );
    let (c, _) = choose_runtime(Platform::Linux, None, None, true, false, false, false);
    assert_eq!(c.unwrap_err(), "no profile available to build runtime config");
    assert_eq!(core_home(&s), "/r/core-home");
    assert_eq!(runtime_config_path(Platform::Linux, "/r/core-home"), "/r/core-home/verge-tui-runtime.yaml");
}

#[test]
fn an_unknown_current_profile_gives_no_document() {
    let mut s = store();
    s.state.current = Some("R9".to_string());
    assert_eq!(runtime_profile_path(&s), None);
    s.state.current = None;
    assert_eq!(runtime_profile_path(&s).as_deref(), Some("/r/profiles/R1.yaml"));
}

#[test]
fn programs_are_looked_for_on_windows() {
    let dirs = vec!["D:\\bin".to_string()];
    let places = core_binary_places(None, Some("C:\\core"), &dirs, Platform::Windows);
    assert_eq!(
        places[..5].to_vec(),
        vec!["C:\\core", "C:\\core.exe", "C:\\core.bat", "C:\\core.cmd", "C:\\core"]
    );
    assert_eq!(places[5], "D:\\bin\\verge-mihomo.exe");
    let places = core_binary_places(None, Some("my\\core"), &dirs, Platform::Windows);
    assert_eq!(places[..2].to_vec(), vec!["my\\core", "D:\\bin\\my\\core.exe"]);
    let places = core_binary_places(None, Some("my\\core"), &dirs, Platform::Linux);
    assert_eq!(places[0], "D:\\bin/my\\core");
}

#[test]
fn programs_are_looked_for() {
    let dirs = vec!["/usr/bin".to_string(), "/opt".to_string()];
    assert_eq!(
        core_binary_places(Some("/x/core"), None, &dirs, Platform::Linux),
        vec![
            "/x/core",
            "/usr/bin/verge-mihomo",
            "/opt/verge-mihomo",
            "/usr/bin/verge-mihomo-alpha",
            "/opt/verge-mihomo-alpha",
        ]
    );
    let one = vec!["/b".to_string()];
    assert_eq!(
        core_binary_places(None, Some(" ./my/core "), &one, Platform::Linux),
        vec!["./my/core", "/b/./my/core", "/b/verge-mihomo", "/b/verge-mihomo-alpha"]
    );
    assert_eq!(
        core_binary_places(None, Some("verge-mihomo-alpha"), &one, Platform::Linux),
        vec!["/b/verge-mihomo-alpha", "/b/verge-mihomo"]
    );
    assert_eq!(
        executable_places(&vec!["C:\\b".to_string()], "systemctl", Platform::Windows),
        vec![
            "C:\\b\\systemctl.exe",
            "C:\\b\\systemctl.bat",
            "C:\\b\\systemctl.cmd",
            "C:\\b\\systemctl",
        ]
    );
    assert_eq!(
        service_binary_places(None, &one, Platform::Linux),
        vec![
            "/usr/bin/clash-verge-service",
            "/usr/bin/clash-verge-service",
            "/b/clash-verge-service",
        ]
    );
}

#[test]
fn privileges_are_told() {
    assert_eq!(
        tun_privilege_hint(Platform::Linux, Some("/c")),
        "tun permission hint: run `sudo setcap cap_net_admin,cap_net_raw+ep /c` or start privileged service `sudo systemctl restart clash-verge-service.service`"
    );
    assert!(tun_privilege_hint(Platform::Linux, None).contains("/usr/bin/verge-mihomo`"));
    assert!(tun_privilege_hint(Platform::MacOs, None).contains("elevated privileges"));
    let both = "/c cap_net_admin,CAP_NET_RAW=ep";
    assert_eq!(core_has_linux_tun_caps(Platform::Linux, Some(both)), Some(true));
    assert_eq!(core_has_linux_tun_caps(Platform::Linux, Some("/c cap_net_admin=ep")), Some(false));
    assert_eq!(core_has_linux_tun_caps(Platform::Linux, Some(" \n")), Some(false));
    assert_eq!(core_has_linux_tun_caps(Platform::Linux, None), None);
    assert_eq!(core_has_linux_tun_caps(Platform::MacOs, Some(both)), None);
}

#[test]
fn probes_are_told() {
    assert_eq!(
        run_command_probe("sudo", "[\"-n\"]", false, Some(1), "out", " err "),
        "sudo [\"-n\"] => ok=false, code=1, msg=err"
    );
    assert_eq!(
        run_command_probe("a", "[]", true, None, "out\n", " "),
        "a [] => ok=true, code=-1, msg=out"
    );
    assert_eq!(
        run_command_probe("a", "[]", false, Some(-15), "", ""),
        "a [] => ok=false, code=-15, msg=no output"
    );
}

#[test]
fn pids_are_kept() {
    let content = pid_file_content(4242, "/s", "/c.yaml", 3661);
    assert_eq!(content, "pid=4242\nsocket=/s\nconfig=/c.yaml\nupdated=01:01:01\n");
    assert_eq!(read_managed_core_pid(&content), Some(4242));
    assert_eq!(read_managed_core_pid("x\n pid=a\n  pid=7 \npid=8"), Some(7));
    assert_eq!(read_managed_core_pid("pid=4294967296"), None);
    assert_eq!(read_managed_core_pid(""), None);
    assert_eq!(managed_core_pid_file_path(&store()), "/r/core-home/managed-core.pid");
    assert_eq!(alive_marker(9, Platform::Linux), Some("/proc/9".to_string()));
    assert_eq!(alive_marker(9, Platform::MacOs), None);
}

#[test]
fn logs_are_cut_to_their_end() {
    assert_eq!(tail_text_lines(" a \nb\nc\n", 2), vec!["b", "c"]);
    assert_eq!(tail_text_lines(" a \nb", 5), vec!["a", "b"]);
    assert!(tail_text_lines("a\nb", 0).is_empty());
}

#[test]
fn processes_are_ended_step_by_step() {
    assert_eq!(terminate_pid(0, Platform::Linux), TerminateStep::Done(false));
    assert_eq!(terminate_pid(7, Platform::Windows), TerminateStep::Done(false));
    let mut step = terminate_pid(7, Platform::Linux);
    assert_eq!(step, TerminateStep::Look);
    assert_eq!(terminate_next(step, false), TerminateStep::Done(true));
    step = terminate_next(step, true);
    assert_eq!(step, TerminateStep::Ask);
    assert_eq!(terminate_next(step, false), TerminateStep::Done(false));
    step = terminate_next(step, true);
    let mut looks = 0;
    while let TerminateStep::Wait(_) = step {
        looks += 1;
        step = terminate_next(step, true);
    }
    assert_eq!(looks, 20);
    assert_eq!(step, TerminateStep::Force);
    assert_eq!(terminate_next(step, true), TerminateStep::Done(true));
    assert_eq!(terminate_next(TerminateStep::Wait(3), false), TerminateStep::Done(true));
}

#[test]
fn health_is_told() {
    let client = MihomoClient::new_local_socket("/s").expect("client");
    let (ok, notes) = check_mihomo_health(&client, Ok(version("v1.19")));
    assert!(ok);
    assert_eq!(notes.lines, vec!["mihomo controller online (local:///s): v1.19"]);
    let (ok, notes) = check_mihomo_health(&client, Err("GET /version failed".to_string()));
    assert!(!ok);
    assert_eq!(
        notes.lines,
        vec!["mihomo controller unreachable (local:///s): GET /version failed. check core process, external-controller, secret, or local socket path"]
    );
}

fn ready_path(answers: &[bool], independent: bool, local: bool) -> (Vec<ReadyStep>, Vec<String>) {
    let mut step = ensure_mihomo_ready();
    let mut steps = vec![step];
    let mut told = Vec::new();
    for answer in answers {
        let (next, notes) = ready_next(step, Ok(*answer), independent, local);
        told.extend(notes.lines);
        step = next;
        steps.push(step);
    }
    (steps, told)
}

#[test]
fn a_running_core_is_taken_over_first() {
    let (steps, told) = ready_path(&[true, true], true, false);
    assert_eq!(
        steps,
        vec![ReadyStep::AdoptSocket, ReadyStep::CheckAdopted, ReadyStep::Done(true)]
    );
    assert!(told.is_empty());
}

#[test]
fn an_independent_panel_starts_its_core() {
    let (steps, told) = ready_path(&[false, true, false], true, false);
    assert_eq!(
        steps,
        vec![
            ReadyStep::AdoptSocket,
            ReadyStep::Start,
            ReadyStep::CheckStarted,
            ReadyStep::Done(false),
        ]
    );
    assert_eq!(told, vec!["independent mode enabled: skip adopting external HTTP controller"]);
    let (steps, _) = ready_path(&[false, true], true, true);
    assert_eq!(steps[2], ReadyStep::Done(true));
}

#[test]
fn another_controller_is_the_last_resort() {
    let (steps, _) = ready_path(&[false, false, true, false, true, true], false, false);
    assert_eq!(
        steps,
        vec![
            ReadyStep::AdoptSocket,
            ReadyStep::CheckConnected,
            ReadyStep::Start,
            ReadyStep::CheckStarted,
            ReadyStep::AdoptController,
            ReadyStep::CheckController,
            ReadyStep::Done(true),
        ]
    );
    let (next, notes) = ready_next(ReadyStep::Start, Err("no".to_string()), false, false);
    assert_eq!(next, ReadyStep::AdoptInstead);
    assert_eq!(notes.lines, vec!["start managed mihomo failed: no"]);
    let (next, _) = ready_next(ReadyStep::Start, Err("no".to_string()), true, false);
    assert_eq!(next, ReadyStep::CheckStarted);
}

#[test]
fn sockets_are_taken_over() {
    let mut mihomo = MihomoClient::new("http://h", None).expect("client");
    let sockets = vec!["/r".to_string(), "/s".to_string(), "/t".to_string()];
    let mut search = SocketSearch::new(sockets);
    assert!(matches!(search.step(), SearchStep::Ask(s) if s == "/r"));
    let (step, notes) = search.adopt_existing_local_socket(&mut mihomo, SocketReply::Missing);
    assert!(matches!(step, SearchStep::Ask(s) if s == "/s"));
    assert!(notes.lines.is_empty());
    assert!(!mihomo.is_local_socket());
    let found = SocketReply::Version(version("v1"));
    let (step, notes) = search.adopt_existing_local_socket(&mut mihomo, found);
    assert!(matches!(step, SearchStep::Done(true)));
    assert_eq!(notes.lines, vec!["adopted existing mihomo socket => /s (mihomo v1)"]);
    assert_eq!(mihomo.endpoint_label(), "local:///s");
    let found = SocketReply::Version(version("v1"));
    let (_, notes) = search.adopt_existing_local_socket(&mut mihomo, found);
    assert!(notes.lines.is_empty());
}

#[test]
fn searches_end_with_the_last_socket() {
    let mut mihomo = MihomoClient::new("http://h", None).expect("client");
    let sockets = vec!["/r".to_string(), "/s".to_string(), "/t".to_string()];
    let mut search = SocketSearch::new(sockets);
    let (_, notes) = search
        .adopt_clash_verge_socket(&mut mihomo, SocketReply::Unreachable("e".to_string()));
    assert_eq!(notes.lines, vec!["socket candidate unreachable: /r (e)"]);
    let (_, notes) =
        search.adopt_clash_verge_socket(&mut mihomo, SocketReply::Unusable("e".to_string()));
    assert_eq!(notes.lines, vec!["adopt local socket failed: /s (e)"]);
    let (step, notes) = search.adopt_clash_verge_socket(&mut mihomo, SocketReply::Missing);
    assert!(notes.lines.is_empty());
    assert!(matches!(step, SearchStep::Done(false)));
    let mut search = SocketSearch::new(vec!["/t".to_string()]);
    let found = SocketReply::Version(version("v2"));
    let (step, notes) = search.adopt_clash_verge_socket(&mut mihomo, found);
    assert!(matches!(step, SearchStep::Done(true)));
    assert_eq!(notes.lines, vec!["adopted local socket => /t (mihomo v2)"]);
    assert_eq!(mihomo.endpoint_label(), "local:///t");
    assert!(matches!(SocketSearch::new(vec![]).step(), SearchStep::Done(false)));
    let mut search = SocketSearch::new(vec![" ".to_string()]);
    let found = SocketReply::Version(version("v2"));
    let (step, notes) = search.adopt_clash_verge_socket(&mut mihomo, found);
    assert!(matches!(step, SearchStep::Done(false)));
    assert_eq!(notes.lines, vec!["adopt local socket failed:   (empty socket path)"]);
    assert_eq!(mihomo.endpoint_label(), "local:///t");
}

#[test]
fn controllers_are_taken_over() {
    let (sockets, notes) = begin_adopt(Platform::Linux, None);
    assert!(sockets.is_empty());
    assert_eq!(notes.lines, vec!["no clash-verge config.yaml found for controller auto-detect"]);
    let h = hint("external-controller: :9000\nsecret: k\nmixed-port: 1\n", None);
    let (sockets, notes) = begin_adopt(Platform::Linux, Some(&h));
    assert!(sockets.is_empty());
    assert_eq!(notes.lines, vec!["detected clash-verge config: /h/app/config.yaml"]);
    let mut verge = VergeConfig::default();
    let (save, notes) = adopt_controller(&mut verge, &h);
    assert!(save);
    assert!(notes.lines.is_empty());
    assert_eq!(verge.controller_url, "http://127.0.0.1:9000");
    assert_eq!(verge.secret, "k");
    assert_eq!(verge.mixed_port, 1);
    let (save, notes) = adopt_controller(&mut verge, &h);
    assert!(!save);
    assert_eq!(notes.lines, vec!["controller auto-detect found same settings; no update"]);
    let mut mihomo = MihomoClient::new_local_socket("/s").expect("client");
    let notes = after_adopt_save(&mut mihomo, &verge, Ok(()));
    assert_eq!(notes.lines, vec!["adopted controller => http://127.0.0.1:9000"]);
    assert_eq!(mihomo.authorization().as_deref(), Some("Bearer k"));
    verge.controller_url = "x".to_string();
    let notes = after_adopt_save(&mut mihomo, &verge, Ok(()));
    assert_eq!(
        notes.lines,
        vec!["build detected controller client failed: invalid controller URL: x"]
    );
    let notes = after_adopt_save(&mut mihomo, &verge, Err("e".to_string()));
    assert_eq!(notes.lines, vec!["save auto-detected controller failed: e"]);
}

#[test]
fn closed_controllers_leave_the_sockets() {
    let off = hint("external-controller: ''", Some("enable-external-controller: false"));
    let (sockets, _) = begin_adopt(Platform::Linux, Some(&off));
    assert_eq!(sockets.len(), 3);
    let mut verge = VergeConfig::default();
    let (save, notes) = adopt_controller(&mut verge, &off);
    assert!(!save);
    assert_eq!(
        notes.lines,
        vec!["clash-verge external-controller is disabled, and no local socket path was reachable"]
    );
    let empty = hint("a: 1", None);
    let (_, notes) = adopt_controller(&mut verge, &empty);
    assert_eq!(
        notes.lines,
        vec!["clash-verge external-controller is empty; cannot connect by HTTP API"]
    );
}

#[test]
fn cores_are_started_step_by_step() {
    let mut logged = false;
    let (step, remove, notes) = try_start_managed_mihomo(false, Some((7, false)), false, &mut logged);
    assert_eq!(step, StartStep::Locate);
    assert!(remove);
    assert!(logged);
    assert_eq!(
        notes.lines,
        vec![
            "removed stale managed core pid file (pid=7)",
            "direct-core mode: skip service IPC (set VERGE_TUI_USE_SERVICE_IPC=1 to enable)",
        ]
    );
    let (_, remove, notes) = try_start_managed_mihomo(false, Some((7, true)), false, &mut logged);
    assert!(!remove);
    assert!(notes.lines.is_empty());
    let (step, _, _) = try_start_managed_mihomo(true, None, true, &mut logged);
    assert_eq!(step, StartStep::Done);
    let (step, _, _) = try_start_managed_mihomo(false, None, true, &mut logged);
    assert_eq!(step, StartStep::Bootstrap);
    assert_eq!(start_next(StartStep::Bootstrap, false, true).0, StartStep::Locate);
    let (step, notes) = start_next(StartStep::Locate, false, false);
    assert_eq!(step, StartStep::Done);
    assert!(notes.lines[0].starts_with("cannot auto-start mihomo: no executable found"));
    assert_eq!(start_next(StartStep::Locate, true, false).0, StartStep::Prepare);
    assert_eq!(start_next(StartStep::Prepare, true, false).0, StartStep::ByChild);
    assert_eq!(start_next(StartStep::Prepare, true, true).0, StartStep::ByService);
    assert_eq!(start_next(StartStep::ByService, false, true).0, StartStep::ByChild);
    assert_eq!(start_next(StartStep::ByService, true, true).0, StartStep::Done);
}

#[test]
fn children_are_looked_after() {
    let (gone, notes) = reap_managed_core(&ChildState::Exited("exit status: 1".to_string()));
    assert!(gone);
    assert_eq!(notes.lines, vec!["managed mihomo exited: exit status: 1"]);
    let (gone, notes) = reap_managed_core(&ChildState::Lost("e".to_string()));
    assert!(gone);
    assert_eq!(notes.lines, vec!["managed mihomo wait failed: e"]);
    assert!(!reap_managed_core(&ChildState::Running).0);
    assert!(tun_start_notes(false, None, "h".to_string()).lines.is_empty());
    assert_eq!(tun_start_notes(true, Some(true), "h".to_string()).lines.len(), 1);
    assert_eq!(tun_start_notes(true, Some(false), "h".to_string()).lines[1], "h");
}

#[test]
fn the_service_is_waited_for() {
    let mut wait = ServiceWait::new();
    for _ in 0..5 {
        let (v, _) = wait.wait_service_ipc_ready(ServiceReply::Failed("refused".to_string()));
        assert_eq!(v, WaitVerdict::Again);
    }
    let (v, _) = wait.wait_service_ipc_ready(ServiceReply::Absent);
    assert_eq!(v, WaitVerdict::GiveUp);
    assert_eq!(
        wait.timeout_note(Platform::Linux, true, false).lines,
        vec!["service IPC wait timeout: primary=true, legacy=false, last_err=refused"]
    );
    assert_eq!(
        ServiceWait::new().timeout_note(Platform::Windows, true, false).lines,
        vec!["service IPC wait timeout: last_err=-"]
    );
    let mut wait = ServiceWait::new();
    let (v, notes) = wait.wait_service_ipc_ready(ServiceReply::Ready);
    assert_eq!(v, WaitVerdict::Ready);
    assert_eq!(notes.lines, vec!["clash-verge-service IPC is ready"]);
}

#[test]
fn the_service_is_linked_and_probed() {
    let (primary, legacy) = service_sockets();
    assert_eq!(primary, "/tmp/verge/clash-verge-service.sock");
    assert_eq!(legacy, "/tmp/clash-verge-service.sock");
    assert!(service_link_needed(Platform::Linux, false, true));
    assert!(!service_link_needed(Platform::Linux, true, true));
    assert!(!service_link_needed(Platform::Windows, false, true));
    assert_eq!(
        service_link_notes(LinkOutcome::Linked).lines,
        vec!["service IPC compat linked: /tmp/verge/clash-verge-service.sock -> /tmp/clash-verge-service.sock"]
    );
    assert!(service_link_notes(LinkOutcome::Failed("e".to_string(), true)).lines.is_empty());
    assert!(service_link_notes(LinkOutcome::Failed("e".to_string(), false)).lines[0].ends_with("(e)"));
    assert_eq!(
        service_link_notes(LinkOutcome::NoDirectory("/tmp/verge".to_string(), "e".to_string())).lines,
        vec!["service IPC compat mkdir failed: /tmp/verge (e)"]
    );
}

#[test]
fn the_service_is_brought_up() {
    let mut step = try_bootstrap_service_ipc();
    assert_eq!(step, BootstrapStep::Link);
    let mut steps = Vec::new();
    let mut lines = Vec::new();
    while !matches!(step, BootstrapStep::Done(_)) {
        steps.push(step);
        let ok = matches!(step, BootstrapStep::FindStarter | BootstrapStep::FindProgram);
        let (next, mut notes) = bootstrap_next(step, ok, "/s");
        lines.append(&mut notes.lines);
        step = next;
    }
    assert_eq!(step, BootstrapStep::Done(false));
    assert_eq!(
        steps,
        vec![
            BootstrapStep::Link,
            BootstrapStep::Look,
            BootstrapStep::MakeDirectory,
            BootstrapStep::FindStarter,
            BootstrapStep::Probe,
            BootstrapStep::LookAgain,
            BootstrapStep::FindProgram,
            BootstrapStep::AwaitStarted,
        ]
    );
    assert_eq!(
        lines,
        vec![
            "service probe: /s",
            "service needs privilege. run once: sudo systemctl start clash-verge-service.service",
            "service binary detected but not started directly (needs root service): /s",
            "service IPC not ready; fallback to user-mode core process",
        ]
    );
    let (next, notes) = bootstrap_next(BootstrapStep::Probe, true, "m");
    assert_eq!(next, BootstrapStep::LookAgain);
    assert_eq!(
        notes.lines,
        vec!["service probe: m", "requested start for clash-verge-service.service"]
    );
    let (next, notes) = bootstrap_next(BootstrapStep::FindStarter, false, "");
    assert_eq!(next, BootstrapStep::LookAgain);
    assert!(notes.lines.is_empty());
    assert_eq!(bootstrap_next(BootstrapStep::LookAgain, true, "").0, BootstrapStep::AwaitStarted);
    let (next, notes) = bootstrap_next(BootstrapStep::FindProgram, false, "");
    assert_eq!(next, BootstrapStep::AwaitStarted);
    assert!(notes.lines.is_empty());
    let (next, notes) = bootstrap_next(BootstrapStep::AwaitStarted, true, "");
    assert_eq!(next, BootstrapStep::Done(true));
    assert!(notes.lines.is_empty());
}

#[test]
fn services_that_are_there_are_only_waited_for() {
    let (next, _) = bootstrap_next(BootstrapStep::Look, true, "");
    assert_eq!(next, BootstrapStep::Await);
    let (next, notes) = bootstrap_next(next, false, "");
    assert_eq!(next, BootstrapStep::Done(false));
    assert!(notes.lines.is_empty());
    assert_eq!(bootstrap_next(BootstrapStep::Await, true, "").0, BootstrapStep::Done(true));
}

#[test]
fn services_start_cores() {
    let step = try_start_managed_mihomo_by_service();
    assert_eq!(step, ServiceStep::Look);
    assert_eq!(service_next(step, false), ServiceStep::Done(false));
    assert_eq!(service_next(step, true), ServiceStep::Request);
    assert_eq!(service_next(ServiceStep::Request, false), ServiceStep::Done(false));
    assert_eq!(service_next(ServiceStep::Request, true), ServiceStep::Await);
    assert_eq!(service_next(ServiceStep::Await, true), ServiceStep::Done(true));
    assert_eq!(service_next(ServiceStep::Await, false), ServiceStep::Done(false));
}

#[test]
fn the_service_is_asked() {
    let r = service_request(Platform::Linux, "/c", "/home", "/cfg", "/s");
    assert_eq!(r.core_path, "/c");
    assert_eq!(r.core_ipc_path, "/s");
    assert_eq!(r.config_path, "/cfg");
    assert_eq!(r.config_dir, "/home");
    assert_eq!(r.log_directory, "/home/logs");
    assert_eq!(r.max_log_size, 8_388_608);
    let (ok, notes) = after_service_request(Ok((1, "busy".to_string())));
    assert!(!ok);
    assert_eq!(notes.lines, vec!["service start core failed: busy"]);
    assert!(after_service_request(Ok((0, String::new()))).0);
    let (ok, notes) = after_service_request(Err("e".to_string()));
    assert!(!ok);
    assert_eq!(notes.lines, vec!["service ipc unavailable: e"]);
}

fn target() -> LaunchTarget {
    LaunchTarget {
        socket: "/s".to_string(),
        http: "http://h".to_string(),
        secret: "k".to_string(),
        log: "/l".to_string(),
    }
}

fn tries(launcher: Launcher) -> (u32, LaunchStep) {
    let mut mihomo = MihomoClient::new("http://old", None).expect("client");
    let mut step = launch_begin(launcher);
    let mut n = 0;
    while let LaunchStep::Socket(_) = step {
        n += 1;
        step = launch_next(&mut mihomo, launcher, step, LaunchReply::Silent, &target()).step;
    }
    assert_eq!(mihomo.endpoint_label(), "http://old/");
    (n, step)
}

#[test]
fn started_cores_are_waited_for() {
    assert_eq!(tries(Launcher::Service), (35, LaunchStep::Http));
    assert_eq!(tries(Launcher::Child), (30, LaunchStep::Http));
    let mut mihomo = MihomoClient::new("http://old", None).expect("client");
    let begin = launch_begin(Launcher::Child);
    let to = target();
    let next = launch_next(&mut mihomo, Launcher::Child, begin, LaunchReply::Gone, &to);
    assert_eq!(next.step, LaunchStep::Http);
    let next = launch_next(&mut mihomo, Launcher::Child, next.step, LaunchReply::Silent, &to);
    assert_eq!(next.step, LaunchStep::ReadLog);
    assert_eq!(
        next.notes.lines,
        vec!["managed mihomo not ready (socket=/s, http=http://h); check /l"]
    );
    let next = launch_next(&mut mihomo, Launcher::Child, next.step, LaunchReply::Silent, &to);
    assert_eq!(next.step, LaunchStep::Done(false));
    assert!(next.notes.lines.is_empty());
    let http = LaunchStep::Http;
    let next = launch_next(&mut mihomo, Launcher::Service, http, LaunchReply::Silent, &to);
    assert_eq!(next.step, LaunchStep::Done(false));
    assert!(!next.forget_pid);
    assert_eq!(
        next.notes.lines,
        vec!["service launched core, but controller not ready in time (socket=/s, http=http://h)"]
    );
    assert_eq!(mihomo.endpoint_label(), "http://old/");
    assert!(launch_reaps(Launcher::Child, begin));
    assert!(!launch_reaps(Launcher::Child, http));
    assert!(!launch_reaps(Launcher::Service, begin));
}

#[test]
fn cores_that_answer_are_connected_to() {
    let mut mihomo = MihomoClient::new("http://old", None).expect("client");
    let begin = launch_begin(Launcher::Child);
    let to = target();
    let next = launch_next(&mut mihomo, Launcher::Child, begin, LaunchReply::Answered, &to);
    assert_eq!(next.step, LaunchStep::Done(true));
    assert!(!next.forget_pid);
    assert_eq!(next.notes.lines, vec!["managed mihomo ready on socket: /s"]);
    assert_eq!(mihomo.endpoint_label(), "local:///s");
    assert_eq!(mihomo.authorization(), None);
    let http = LaunchStep::Http;
    let next = launch_next(&mut mihomo, Launcher::Service, http, LaunchReply::Answered, &to);
    assert_eq!(next.step, LaunchStep::Done(true));
    assert!(next.forget_pid);
    assert_eq!(
        next.notes.lines,
        vec!["managed mihomo ready by service on HTTP controller: http://h"]
    );
    assert_eq!(mihomo.endpoint_label(), "http://h/");
    assert_eq!(mihomo.authorization().as_deref(), Some("Bearer k"));
}

#[test]
fn cores_are_asked_where_they_listen() {
    let socket = launch_client(launch_begin(Launcher::Child), &target()).expect("client");
    assert_eq!(socket.endpoint_label(), "local:///s");
    let http = launch_client(LaunchStep::Http, &target()).expect("client");
    assert_eq!(http.endpoint_label(), "http://h/");
    assert!(launch_client(LaunchStep::ReadLog, &target()).is_none());
    assert!(launch_client(LaunchStep::Done(true), &target()).is_none());
    let mut blank = target();
    blank.socket = " ".to_string();
    assert!(launch_client(launch_begin(Launcher::Child), &blank).is_none());
    let mut mihomo = MihomoClient::new("http://old", None).expect("client");
    let begin = launch_begin(Launcher::Service);
    let next = launch_next(&mut mihomo, Launcher::Service, begin, LaunchReply::Answered, &blank);
    assert_eq!(next.step, LaunchStep::Socket(34));
    assert_eq!(mihomo.endpoint_label(), "http://old/");
}

#[test]
fn connecting_anew_goes_step_by_step() {
    let mut mihomo = MihomoClient::new("http://old", None).expect("client");
    let mut verge = VergeConfig::default();
    verge.controller_url = "http://h".to_string();
    verge.secret = "k".to_string();
    assert_eq!(recreate_client(&mut mihomo, &verge), Ok(ReconnectStep::Ready));
    assert_eq!(mihomo.endpoint_label(), "http://h/");
    assert_eq!(mihomo.authorization().as_deref(), Some("Bearer k"));
    verge.controller_url = "x".to_string();
    assert_eq!(
        recreate_client(&mut mihomo, &verge),
        Err("invalid controller URL: x".to_string())
    );
    assert_eq!(mihomo.endpoint_label(), "http://h/");
    assert_eq!(reconnect_next(ReconnectStep::Ready, false), ReconnectStep::Done);
    assert_eq!(reconnect_next(ReconnectStep::Ready, true), ReconnectStep::Apply);
    assert_eq!(reconnect_next(ReconnectStep::Apply, false), ReconnectStep::Streams);
    assert_eq!(reconnect_next(ReconnectStep::Streams, false), ReconnectStep::Done);
    assert_eq!(reconnect_next(ReconnectStep::Done, true), ReconnectStep::Done);
}

#[test]
fn children_are_spawned() {
    assert_eq!(
        child_arguments("/h", "/c", "/s", Platform::Linux),
        vec!["-d", "/h", "-f", "/c", "-ext-ctl-unix", "/s"]
    );
    assert_eq!(child_arguments("/h", "/c", "/s", Platform::Windows)[4], "-ext-ctl-pipe");
    assert_eq!(core_log_path(Platform::Linux, "/h"), "/h/logs/managed-core.log");
    assert_eq!(spawn_failure("/b", "/h", "/c"), "spawn /b failed (home /h, config /c)");
    assert_eq!(
        after_spawn(Some(3), "/b", "/c", "/l").lines,
        vec![
            "managed core pid: 3",
            "spawned managed mihomo: /b (config: /c)",
            "managed core log file: /l",
        ]
    );
    assert_eq!(after_spawn(None, "/b", "/c", "/l").lines.len(), 2);
    assert_eq!(tell_core_log(&vec!["x".to_string()]).lines, vec!["core-log> x"]);
}

#[test]
fn profiles_are_given_to_the_core() {
    let step = apply_profile_file_to_core("/p".to_string(), false);
    assert!(matches!(step, ApplyStep::Failed(e) if e == "profile file not found: /p"));
    let step = apply_profile_file_to_core("/p".to_string(), true);
    assert!(matches!(step, ApplyStep::Reload(p) if p == "/p"));
    assert!(matches!(after_reload(Ok(())), ApplyStep::ReadPort));
    assert!(matches!(after_reload(Err("x SAFE_PATHS".to_string())), ApplyStep::Copy));
    let refused = "path is not subpath of home directory: /a".to_string();
    assert!(matches!(after_reload(Err(refused)), ApplyStep::Copy));
    assert!(matches!(after_reload(Err("x".to_string())), ApplyStep::Failed(e) if e == "x"));
    assert!(matches!(after_copy(Ok("/c".to_string())), ApplyStep::ReloadCopy(c) if c == "/c"));
    assert!(matches!(after_copy(Err("e".to_string())), ApplyStep::Failed(_)));
    assert!(matches!(after_reload_copy("/p", "/c", Ok(())), ApplyStep::Done));
    assert!(matches!(
        after_reload_copy("/p", "/c", Err("e".to_string())),
        ApplyStep::Failed(e) if e == "reload failed after safe-path copy. src=/p, copied=/c"
    ));
    assert!(matches!(ensure_runtime_port_alignment(7, Some(7)), ApplyStep::Done));
    assert!(matches!(ensure_runtime_port_alignment(7, None), ApplyStep::SetPort(None)));
    assert!(matches!(
        after_set_port(7, Some(8), Err("e".to_string())),
        ApplyStep::Failed(e) if e == "runtime mixed-port alignment failed: desired=7, current=Some(8)"
    ));
    assert!(matches!(after_set_port(7, None, Ok(())), ApplyStep::Done));
}

#[test]
fn copies_are_written_where_the_core_may_read() {
    let h = hint("a: 1", None);
    let mut copy = SafeCopy::copy_profile_to_safe_path(&store(), Some(&h), "R1.yaml");
    assert!(matches!(
        copy.step(),
        CopyStep::Try(d, t)
            if d == "/r/core-home/verge-tui-profiles" && t == "/r/core-home/verge-tui-profiles/R1.yaml"
    ));
    let step = copy.next(CopyReply::NoDirectory("e".to_string()));
    assert!(matches!(step, CopyStep::Try(d, _) if d == "/h/app/verge-tui-profiles"));
    assert_eq!(copy.last_error, "create /r/core-home/verge-tui-profiles failed: e");
    let step = copy.next(CopyReply::NotWritten("f".to_string()));
    assert!(matches!(
        step,
        CopyStep::Done(Err(e))
            if e == "write safe-path profile failed: write /h/app/verge-tui-profiles/R1.yaml failed: f"
    ));
    let mut copy = SafeCopy::copy_profile_to_safe_path(&store(), None, "R1.yaml");
    let step = copy.next(CopyReply::Written);
    assert!(matches!(
        step,
        CopyStep::Done(Ok(t)) if t == "/r/core-home/verge-tui-profiles/R1.yaml"
    ));
}

#[test]
fn current_profiles_are_told() {
    let mut s = store();
    assert_eq!(current_profile(&s.state), Some(0));
    s.state.current = Some("R2".to_string());
    assert_eq!(current_profile(&s.state), Some(1));
    s.state.current = None;
    assert_eq!(current_profile(&s.state), None);
    assert_eq!(
        apply_current_profile_to_core("A", Ok(())).lines,
        vec!["applied current profile to mihomo: A"]
    );
    assert_eq!(
        apply_current_profile_to_core("A", Err("e".to_string())).lines,
        vec!["apply current profile failed: e"]
    );
    assert_eq!(
        skip_current_note("/p").lines,
        vec!["skip apply current profile: missing file /p"]
    );
    assert_eq!(refresh_note(Ok(())).lines, vec!["proxy list refreshed"]);
    assert_eq!(
        refresh_note(Err("e".to_string())).lines,
        vec!["refresh proxies failed: e"]
    );
    assert_eq!(stream_failure_note(true, "e").lines, vec!["traffic ws unavailable: e"]);
    assert_eq!(stream_failure_note(false, "e").lines, vec!["connections ws unavailable: e"]);
}

#[test]
fn activation_goes_on_while_it_goes_well() {
    let (step, notes) = activate_next(ActivateStep::Save, "A", Ok(()));
    assert_eq!(step, ActivateStep::Probe);
    assert_eq!(notes.lines, vec!["current profile => A"]);
    let (step, notes) = activate_next(ActivateStep::Save, "A", Err("e".to_string()));
    assert_eq!(step, ActivateStep::Done);
    assert_eq!(notes.lines, vec!["save current profile failed: e"]);
    let (step, notes) = activate_next(ActivateStep::Probe, "A", Err("e".to_string()));
    assert_eq!(step, ActivateStep::Done);
    assert_eq!(
        notes.lines,
        vec!["mihomo api unavailable, profile only switched in local state"]
    );
    assert_eq!(activate_next(ActivateStep::Probe, "A", Ok(())).0, ActivateStep::Apply);
    let (step, notes) = activate_next(ActivateStep::Apply, "A", Ok(()));
    assert_eq!(step, ActivateStep::Refresh);
    assert_eq!(notes.lines, vec!["profile config applied to mihomo"]);
    let (_, notes) = activate_next(ActivateStep::Apply, "A", Err("e".to_string()));
    assert_eq!(notes.lines, vec!["apply profile to mihomo failed: e"]);
}
