use verge_tui::config::{
    apply_system_proxy, backend_exit_policy_label, parse_backend_exit_policy, parse_on_off,
    BackendExitPolicy, Platform, VergeConfig,
};
use verge_tui::figures::{
    duration_hms, epoch_hms, format_bytes, gauge_scale, now_secs, pad_left, pad_right,
};
use verge_tui::notes::Notes;
use verge_tui::number::{bool_str, parse_u16, parse_u32, parse_u64, to_dec, to_dec2};
use verge_tui::order::{insert_unique, is_before};
use verge_tui::paths::{has_directory, is_same_path, join, parent};
use verge_tui::text::{
    contains, ends_with, lines, rest_after_last, split_on, split_once, starts_with, strip_prefix,
    to_lower, to_upper, trim, trim_leading, trim_trailing, words,
};

#[test]
fn text_is_trimmed_and_split() {
    assert_eq!(trim(" \t a b \n"), "a b");
    assert_eq!(trim("\u{3000}x\u{a0}"), "x");
    assert_eq!(words("  toggle   sysproxy "), vec!["toggle", "sysproxy"]);
    assert!(words(" \t ").is_empty());
    assert_eq!(split_once("a=b=c", '='), Some(("a".to_string(), "b=c".to_string())));
    assert_eq!(split_once("abc", '='), None);
    assert_eq!(split_on("a;;b", ';'), vec!["a", "", "b"]);
    assert_eq!(split_on("", ';'), vec![""]);
    assert_eq!(lines("a\r\nb\n\nc\r"), vec!["a", "b", "", "c\r"]);
    assert!(lines("").is_empty());
}

#[test]
fn text_is_searched() {
    assert!(starts_with("filename=x", "filename="));
    assert!(!starts_with("file", "filename="));
    assert!(ends_with("X-Subscription-Userinfo", "-Userinfo"));
    assert!(contains("a SAFE_PATHS b", "SAFE_PATHS"));
    assert!(contains("abc", ""));
    assert!(!contains("", "a"));
    assert_eq!(strip_prefix("pid=7", "pid="), Some("7".to_string()));
    assert_eq!(strip_prefix("7", "pid="), None);
    assert_eq!(trim_leading("//a/", '/'), "a/");
    assert_eq!(trim_trailing("\"a\"\"", '"'), "\"a");
    assert_eq!(rest_after_last("UTF-8''a''b", "''"), "b");
    assert_eq!(rest_after_last("abc", "''"), "abc");
    assert_eq!(to_lower("AbÄ"), "abÄ");
    assert_eq!(to_upper("reject-drop"), "REJECT-DROP");
}

#[test]
fn numerals_are_read_and_written() {
    assert_eq!(parse_u64("18446744073709551615"), Some(u64::MAX));
    assert_eq!(parse_u64("18446744073709551616"), None);
    assert_eq!(parse_u64("+12"), Some(12));
    assert_eq!(parse_u64("-1"), None);
    assert_eq!(parse_u64("+"), None);
    assert_eq!(parse_u64(""), None);
    assert_eq!(parse_u64("1 "), None);
    assert_eq!(parse_u32("4294967296"), None);
    assert_eq!(parse_u16("65535"), Some(65535));
    assert_eq!(parse_u16("65536"), None);
    assert_eq!(to_dec(0), "0");
    assert_eq!(to_dec(7890), "7890");
    assert_eq!(parse_u64(&to_dec(u64::MAX)), Some(u64::MAX));
    assert_eq!(to_dec2(7), "07");
    assert_eq!(to_dec2(123), "123");
    assert_eq!(bool_str(true), "true");
    assert_eq!(bool_str(false), "false");
}

#[test]
fn names_are_ordered() {
    assert!(is_before("Auto", "auto"));
    assert!(is_before("a", "ab"));
    assert!(!is_before("a", "a"));
    let mut list: Vec<String> = Vec::new();
    for name in ["b", "a", "c", "a"] {
        insert_unique(&mut list, name.to_string());
    }
    assert_eq!(list, vec!["a", "b", "c"]);
}

#[test]
fn paths_are_joined_and_taken_apart() {
    let on = Platform::Linux;
    assert_eq!(join(on, "/root", "core-home"), "/root/core-home");
    assert_eq!(join(on, "/root/", "core-home"), "/root/core-home");
    assert_eq!(join(on, "/root", "/etc"), "/etc");
    assert_eq!(join(on, "", "a"), "a");
    assert_eq!(join(on, "d", "C:\\core"), "d/C:\\core");
    assert_eq!(parent(on, "/a/b/c.yaml"), Some("/a/b".to_string()));
    assert_eq!(parent(on, "/a"), Some("/".to_string()));
    assert_eq!(parent(on, "/"), None);
    assert!(has_directory(on, "/usr/bin/verge-mihomo"));
    assert!(has_directory(on, "bin/verge-mihomo"));
    assert!(!has_directory(on, "verge-mihomo"));
    assert!(!has_directory(on, "C:\\verge-mihomo"));
}

#[test]
fn windows_paths_are_joined() {
    let on = Platform::Windows;
    assert_eq!(join(on, "C:\\a", "b"), "C:\\a\\b");
    assert_eq!(join(on, "C:\\a\\", "b"), "C:\\a\\b");
    assert_eq!(join(on, "C:/a/", "b"), "C:/a/b");
    assert_eq!(join(on, "C:", "x"), "C:x");
    assert_eq!(join(on, "", "x"), "x");
    assert_eq!(join(on, "d", "C:\\core"), "C:\\core");
    assert_eq!(join(on, "d", "C:core"), "C:core");
    assert_eq!(join(on, "C:\\a", "\\x"), "C:\\x");
    assert_eq!(join(on, "C:\\a", "/x"), "C:/x");
    assert_eq!(join(on, "\\\\host\\share\\a", "b"), "\\\\host\\share\\a\\b");
    assert_eq!(join(on, "\\\\host\\share\\a", "\\b"), "\\\\host\\share\\b");
    assert_eq!(join(on, "\\\\?\\C:\\a", "b/../c"), "\\\\?\\C:\\a\\c");
    assert_eq!(join(on, "\\\\?\\C:\\a", "\\c"), "\\\\?\\C:\\c");
}

#[test]
fn windows_paths_are_taken_apart() {
    let on = Platform::Windows;
    assert_eq!(parent(on, "C:\\a\\b"), Some("C:\\a".to_string()));
    assert_eq!(parent(on, "C:\\a"), Some("C:\\".to_string()));
    assert_eq!(parent(on, "C:\\"), None);
    assert_eq!(parent(on, "C:a"), Some("C:".to_string()));
    assert_eq!(parent(on, "a/b\\c"), Some("a/b".to_string()));
    assert_eq!(parent(on, "a"), Some(String::new()));
    assert!(has_directory(on, "C:\\verge-mihomo"));
    assert!(has_directory(on, "bin\\verge-mihomo"));
    assert!(has_directory(on, "C:verge-mihomo"));
    assert!(!has_directory(on, "verge-mihomo"));
}

#[test]
fn dots_behind_drives_count_for_nothing() {
    let on = Platform::Windows;
    assert!(!has_directory(on, "C:."));
    assert!(!has_directory(on, "C:.\\"));
    assert!(has_directory(on, "C:.x"));
    assert!(has_directory(on, "C:.\\x"));
    assert!(has_directory(on, ".\\x"));
    assert!(is_same_path(on, "C:.\\x", "C:x"));
    assert!(is_same_path(on, "C:.", "C:"));
    assert!(!is_same_path(on, ".\\x", "x"));
    assert_eq!(parent(on, "C:."), None);
    assert_eq!(parent(on, "C:.\\"), None);
    assert_eq!(parent(on, "C:.\\x"), Some("C:.".to_string()));
    assert_eq!(parent(on, "C:.x"), Some("C:".to_string()));
    assert_eq!(parent(on, "."), Some(String::new()));
    assert_eq!(parent(Platform::Linux, "C:."), Some(String::new()));
}

#[test]
fn paths_are_compared_by_parts() {
    let on = Platform::Linux;
    assert!(is_same_path(on, "/h//.local/share/", "/h/.local/./share"));
    assert!(!is_same_path(on, "/h/a", "h/a"));
    assert!(!is_same_path(on, "./a", "a"));
    assert!(!is_same_path(on, "/a/../b", "/b"));
    assert!(!is_same_path(on, "a\\b", "a/b"));
    assert!(is_same_path(Platform::Windows, "a\\b", "a/b"));
    assert!(is_same_path(Platform::Windows, "c:\\a", "C:/a"));
    assert!(!is_same_path(Platform::Windows, "C:\\A", "C:\\a"));
    assert!(!is_same_path(Platform::Windows, "C:a", "C:\\a"));
}

#[test]
fn times_and_sizes_are_told() {
    assert_eq!(epoch_hms(86_400 + 3_661), "01:01:01");
    assert_eq!(duration_hms(360_000), "100:00:00");
    assert_eq!(now_secs(None), 0);
    assert_eq!(now_secs(Some(17)), 17);
    assert_eq!(format_bytes(0), "0 B");
    assert_eq!(format_bytes(1023), "1023 B");
    assert_eq!(format_bytes(1024), "1.0 KB");
    assert_eq!(format_bytes(1536), "1.5 KB");
    assert_eq!(format_bytes(5 * 1024 * 1024 * 1024 * 1024 * 1024), "5120.0 TB");
    assert_eq!(gauge_scale(100), 120);
    assert_eq!(gauge_scale(u64::MAX), u64::MAX / 10);
    assert_eq!(pad_right("ab", 4), "ab  ");
    assert_eq!(pad_right("abcde", 4), "abcde");
    assert_eq!(pad_left("7", 4), "   7");
}

#[test]
fn switches_are_read() {
    for word in ["on", "1", "true", "yes", " ON "] {
        assert_eq!(parse_on_off(word), Some(true));
    }
    for word in ["off", "0", "False", "no"] {
        assert_eq!(parse_on_off(word), Some(false));
    }
    assert_eq!(parse_on_off("maybe"), None);
}

#[test]
fn policies_are_read_and_told() {
    assert_eq!(parse_backend_exit_policy("always_on"), Some(BackendExitPolicy::AlwaysOn));
    assert_eq!(parse_backend_exit_policy("OFF"), Some(BackendExitPolicy::AlwaysOff));
    assert_eq!(parse_backend_exit_policy("ask"), Some(BackendExitPolicy::Query));
    assert_eq!(parse_backend_exit_policy("never"), None);
    for policy in [
        BackendExitPolicy::AlwaysOn,
        BackendExitPolicy::AlwaysOff,
        BackendExitPolicy::Query,
    ] {
        assert_eq!(parse_backend_exit_policy(backend_exit_policy_label(policy)), Some(policy));
    }
    assert_eq!(BackendExitPolicy::default(), BackendExitPolicy::Query);
}

#[test]
fn keeping_follows_the_policy() {
    let mut a = VergeConfig::default();
    let mut b = VergeConfig::default();
    a.set_keep(false);
    b.set_policy(BackendExitPolicy::AlwaysOff);
    assert_eq!(a.keep_core_on_exit, b.keep_core_on_exit);
    assert_eq!(a.backend_exit_policy, b.backend_exit_policy);
    assert!(!a.keep_core_on_exit);
    a.set_policy(BackendExitPolicy::Query);
    assert!(!a.keep_core_on_exit);
    a.set_keep(true);
    assert_eq!(a.backend_exit_policy, BackendExitPolicy::AlwaysOn);
}

#[test]
fn settings_start_as_documented() {
    let c = VergeConfig::default();
    assert_eq!(c.controller_url, "http://127.0.0.1:9097");
    assert_eq!(c.mixed_port, 7897);
    assert_eq!(c.proxy_host, "127.0.0.1");
    assert!(c.auto_cleanup_on_exit);
    assert!(c.keep_core_on_exit);
    assert_eq!(c.auto_update_subscription_minutes, 0);
}

#[test]
fn system_proxy_is_described() {
    let mut c = VergeConfig::default();
    c.enable_system_proxy = true;
    let p = apply_system_proxy(&c, Platform::Linux);
    assert!(p.enable);
    assert_eq!(p.host, "127.0.0.1");
    assert_eq!(p.port, 7897);
    assert_eq!(
        p.bypass,
        "localhost,127.0.0.1,192.168.0.0/16,10.0.0.0/8,172.16.0.0/12,::1"
    );
    c.system_proxy_bypass = "example.org".to_string();
    let p = apply_system_proxy(&c, Platform::MacOs);
    assert!(p.bypass.ends_with("<local>,example.org"));
}

#[test]
fn notes_keep_their_order() {
    let mut notes = Notes::say("a");
    notes.add("b".to_string());
    notes.append(Notes::one("c".to_string()));
    assert_eq!(notes.lines, vec!["a", "b", "c"]);
    assert!(Notes::none().lines.is_empty());
}
