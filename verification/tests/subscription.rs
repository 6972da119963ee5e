use verge_tui::config::{Platform, VergeConfig};
use verge_tui::profile::{
    AppPaths, AppState, ProfileExtra, ProfileItem, StateStore, StoreError,
};
use verge_tui::subscription::{
    file_name, import_request, import_sources, import_subscription, parse_kv_u64, parse_name,
    parse_subscription_userinfo, validate_yaml, FetchMode, Header, ImportError, ImportOptions,
    ImportResult, ProxyChoice, Reply,
};

fn header(name: &str, value: &str) -> Header {
    Header { name: name.to_string(), value: Some(value.to_string()) }
}

fn reply(status: u16, body: &str, headers: Vec<Header>) -> Reply {
    Reply { status, status_text: format!("{status} X"), headers, body: body.to_string() }
}

fn store() -> StateStore {
    let paths = AppPaths::resolve(Some("/r".to_string()), None, Platform::Linux).expect("paths");
    StateStore::load_or_init(paths, None)
}

fn result(name: &str) -> ImportResult {
    ImportResult { name: name.to_string(), yaml: "proxies: []".to_string(), extra: None }
}

#[test]
fn documents_need_proxies() {
    assert!(validate_yaml("proxies: []").is_ok());
    assert!(validate_yaml("proxy-providers: {}").is_ok());
    assert!(matches!(validate_yaml("rules: []"), Err(ImportError::NoProxies)));
    assert!(matches!(validate_yaml("- a"), Err(ImportError::InvalidYaml)));
    assert!(matches!(validate_yaml("a: ["), Err(ImportError::InvalidYaml)));
}

#[test]
fn replies_become_subscriptions() {
    let headers = vec![
        header("Content-Disposition", "attachment; filename=\"My Sub\""),
        header("X-Subscription-Userinfo", "upload=1; download=2; total=10; expire=99"),
    ];
    let r = import_subscription("https://h/sub", &reply(200, "\u{feff}proxies: []", headers))
        .expect("subscription");
    assert_eq!(r.name, "My Sub");
    assert_eq!(r.yaml, "proxies: []");
    assert_eq!(r.extra, Some(ProfileExtra { upload: 1, download: 2, total: 10, expire: 99 }));
}

#[test]
fn bad_replies_are_told() {
    let e = import_subscription("https://h", &reply(404, "proxies: []", vec![])).unwrap_err();
    assert_eq!(e.message(), "subscription request failed with status 404 X");
    let e = import_subscription("https://h", &reply(200, "<html>", vec![])).unwrap_err();
    assert_eq!(e.message(), "invalid YAML subscription");
    let e = import_subscription("https://h", &reply(200, "a: 1", vec![])).unwrap_err();
    assert_eq!(e.message(), "subscription does not contain proxies or proxy-providers");
}

#[test]
fn profiles_are_named() {
    assert_eq!(file_name("attachment; filename=\"a b.yaml\""), Some("a b.yaml".to_string()));
    assert_eq!(
        file_name("attachment; filename*=UTF-8''%E6%9C%BA%E5%9C%BA"),
        Some("机场".to_string())
    );
    assert_eq!(file_name("inline"), None);
    assert_eq!(file_name("a; filename*=UTF-8''%FF; filename=x"), Some("x".to_string()));
    assert_eq!(file_name("a; filename*=UTF-8''a%2fb%4A+c"), Some("a/bJ+c".to_string()));
    assert_eq!(file_name("a; filename*=UTF-8''100%zz%4%%41%"), Some("100%zz%4%A%".to_string()));
    assert_eq!(parse_name("https://h/path/sub.yaml?x=1", &vec![]), "sub.yaml");
    assert_eq!(parse_name("https://h/", &vec![]), "Remote Profile");
    assert_eq!(parse_name("mailto:x", &vec![]), "Remote Profile");
}

#[test]
fn usage_is_read() {
    assert_eq!(parse_kv_u64("upload=1; download = 2 ;x", "download"), Some(2));
    assert_eq!(parse_kv_u64("upload=a; upload=3", "upload"), Some(3));
    assert_eq!(parse_kv_u64("upload=1", "total"), None);
    let h = vec![Header { name: "subscription-userinfo".to_string(), value: None }];
    assert_eq!(parse_subscription_userinfo(&h), None);
    let h = vec![header("subscription-userinfo", "total=5")];
    assert_eq!(
        parse_subscription_userinfo(&h),
        Some(ProfileExtra { upload: 0, download: 0, total: 5, expire: 0 })
    );
}

#[test]
fn requests_follow_the_mode() {
    let verge = VergeConfig::default();
    let plan = import_request(&FetchMode::Direct.options(), &verge);
    assert_eq!(plan.timeout_seconds, 20);
    assert_eq!(plan.redirects, 10);
    assert!(matches!(plan.proxy, ProxyChoice::Bypass));
    assert_eq!(plan.user_agent, "verge-tui/0.1.0");
    let plan = import_request(&FetchMode::SelfProxy.options(), &verge);
    assert!(matches!(plan.proxy, ProxyChoice::Through(p) if p == "http://127.0.0.1:7897"));
    let plan = import_request(&FetchMode::SystemProxy.options(), &verge);
    assert!(matches!(plan.proxy, ProxyChoice::System));
    let options = ImportOptions {
        timeout_seconds: 7,
        user_agent: Some("ua".to_string()),
        ..ImportOptions::default()
    };
    let plan = import_request(&options, &verge);
    assert_eq!(plan.timeout_seconds, 7);
    assert_eq!(plan.user_agent, "ua");
}

#[test]
fn modes_come_one_after_the_other() {
    assert_eq!(FetchMode::Direct.label(), "direct");
    assert_eq!(FetchMode::Direct.next(), Some(FetchMode::SelfProxy));
    assert_eq!(FetchMode::SelfProxy.next(), Some(FetchMode::SystemProxy));
    assert_eq!(FetchMode::SystemProxy.next(), None);
}

#[test]
fn files_of_links_are_read_line_by_line() {
    let content = "# mine\nhttps://a/1\n\n  http://b/2 \nftp://c\n";
    assert_eq!(import_sources("subs.txt", Some(content)), vec!["https://a/1", "http://b/2"]);
    assert_eq!(import_sources("https://a", None), vec!["https://a"]);
}

#[test]
fn paths_come_from_the_environment_or_the_home() {
    let p = AppPaths::resolve(
        Some("/x".to_string()),
        Some("/home/u".to_string()),
        Platform::Linux,
    )
    .expect("paths");
    assert_eq!(p.state_file, "/x/state.yaml");
    let p = AppPaths::resolve(None, Some("/home/u".to_string()), Platform::Linux).expect("paths");
    assert_eq!(p.root, "/home/u/.config/verge-tui");
    assert_eq!(p.profiles_dir, "/home/u/.config/verge-tui/profiles");
    let (root, profiles) = p.ensure();
    assert_eq!(root.failure, "create root dir failed: /home/u/.config/verge-tui");
    assert_eq!(profiles.path, "/home/u/.config/verge-tui/profiles");
    let e = AppPaths::resolve(None, None, Platform::Linux).unwrap_err();
    assert!(matches!(e, StoreError::HomeNotFound));
    assert_eq!(e.message(), "home directory not found");
}

#[test]
fn the_first_import_becomes_current() {
    let mut s = store();
    let p = s.import_profile("https://a".to_string(), 100, result("A"), 101);
    assert_eq!(p.uid, "R100");
    assert_eq!(p.file, "R100.yaml");
    assert_eq!(p.updated, 101);
    assert_eq!(s.state.current.as_deref(), Some("R100"));
    s.import_profile("https://b".to_string(), 200, result("B"), 201);
    assert_eq!(s.state.current.as_deref(), Some("R100"));
    assert_eq!(s.state.profiles.len(), 2);
    assert_eq!(s.state.profiles[1].name, "B");
    assert_eq!(StateStore::new_profile_file(200), "R200.yaml");
    assert_eq!(s.profile_path("R200.yaml"), "/r/profiles/R200.yaml");
    assert_eq!(s.save().0, "/r/state.yaml");
}

#[test]
fn updates_keep_who_a_profile_is() {
    let mut s = store();
    s.import_profile("https://a".to_string(), 100, result("A"), 101);
    let source = s.update_source("R100").expect("source");
    assert_eq!(source.url, "https://a");
    assert_eq!(source.path, "/r/profiles/R100.yaml");
    let p = s.update_profile("R100", result("New"), 300).expect("profile");
    assert_eq!(p.uid, "R100");
    assert_eq!(p.url, "https://a");
    assert_eq!(p.name, "A");
    assert_eq!(p.updated, 300);
    assert_eq!(s.state.profiles[0].updated, 300);
    let e = s.update_profile("R1", result("X"), 1).unwrap_err();
    assert_eq!(e.message(), "profile not found: R1");
}

#[test]
fn profiles_without_a_url_are_not_updated() {
    let mut s = store();
    s.state = AppState {
        verge: VergeConfig::default(),
        current: None,
        profiles: vec![ProfileItem {
            uid: "L".to_string(),
            name: " ".to_string(),
            file: "L.yaml".to_string(),
            url: " ".to_string(),
            updated: 0,
            extra: None,
        }],
    };
    let e = s.update_source("L").unwrap_err();
    assert_eq!(e.message(), "profile has empty url: L");
    s.state.profiles[0].url = "https://l".to_string();
    let p = s.update_profile("L", result("Named"), 5).expect("profile");
    assert_eq!(p.name, "Named");
}
