//! The command line of the panel: what a typed line asks for.

use crate::config;
use crate::config::BackendExitPolicy;
use crate::number;
use crate::text;
use vstd::prelude::*;

verus! {

/// A command, with its texts of type `T`: `String` in the program, a sequence of characters in
/// contracts.
#[derive(Debug)]
pub enum Command<T> {
    Nothing,
    /// A line for the log, and nothing else: how a command is used, or that it is unknown.
    Say(T),
    Help,
    SysProxy(bool),
    ToggleSysProxy,
    ToggleTun,
    Doctor,
    LogPath,
    Health,
    Adopt,
    Import(T),
    RefreshProxies,
    UpdateSelected,
    UpdateAll,
    Update(T),
    AutoSubNow,
    AutoSubStatus,
    /// The interval of automatic updates in minutes, 0 for none, and what the log calls the reason.
    AutoUpdate(u64, T),
    Switch(T, T),
    /// A delay test of all nodes, with the address and the time limit.
    DelayAll(Option<T>, u64),
    DelaySelected(Option<T>, u64),
    DelayNode(T, Option<T>, u64),
    Mode(T),
    Cleanup,
    BackendStatus,
    BackendStart,
    BackendStop,
    Keep(bool),
    Policy(BackendExitPolicy),
    SetController(T),
    SetSecret(T),
    SetMixedPort(u16),
    SetProxyHost(T),
    SetCleanup(bool),
    Use(T),
    Save,
    Quit,
}

impl View for Command<String> {
    type V = Command<Seq<char>>;

    open spec fn view(&self) -> Command<Seq<char>> {
        match self {
            Command::Nothing => Command::Nothing,
            Command::Say(s) => Command::Say(s@),
            Command::Help => Command::Help,
            Command::SysProxy(b) => Command::SysProxy(*b),
            Command::ToggleSysProxy => Command::ToggleSysProxy,
            Command::ToggleTun => Command::ToggleTun,
            Command::Doctor => Command::Doctor,
            Command::LogPath => Command::LogPath,
            Command::Health => Command::Health,
            Command::Adopt => Command::Adopt,
            Command::Import(s) => Command::Import(s@),
            Command::RefreshProxies => Command::RefreshProxies,
            Command::UpdateSelected => Command::UpdateSelected,
            Command::UpdateAll => Command::UpdateAll,
            Command::Update(s) => Command::Update(s@),
            Command::AutoSubNow => Command::AutoSubNow,
            Command::AutoSubStatus => Command::AutoSubStatus,
            Command::AutoUpdate(n, s) => Command::AutoUpdate(*n, s@),
            Command::Switch(a, b) => Command::Switch(a@, b@),
            Command::DelayAll(u, n) => Command::DelayAll(text::opt_text(*u), *n),
            Command::DelaySelected(u, n) => Command::DelaySelected(text::opt_text(*u), *n),
            Command::DelayNode(s, u, n) => Command::DelayNode(s@, text::opt_text(*u), *n),
            Command::Mode(s) => Command::Mode(s@),
            Command::Cleanup => Command::Cleanup,
            Command::BackendStatus => Command::BackendStatus,
            Command::BackendStart => Command::BackendStart,
            Command::BackendStop => Command::BackendStop,
            Command::Keep(b) => Command::Keep(*b),
            Command::Policy(p) => Command::Policy(*p),
            Command::SetController(s) => Command::SetController(s@),
            Command::SetSecret(s) => Command::SetSecret(s@),
            Command::SetMixedPort(n) => Command::SetMixedPort(*n),
            Command::SetProxyHost(s) => Command::SetProxyHost(s@),
            Command::SetCleanup(b) => Command::SetCleanup(*b),
            Command::Use(s) => Command::Use(s@),
            Command::Save => Command::Save,
            Command::Quit => Command::Quit,
        }
    }
}

/// The word at a place of a line, if the line is that long.
pub open spec fn word_at(words: Seq<Seq<char>>, i: int) -> Option<Seq<char>> {
    if i < words.len() {
        Some(words[i])
    } else {
        None
    }
}

fn word(words: &Vec<String>, i: usize) -> (r: Option<String>)
    ensures
        text::opt_text(r) == word_at(text::texts(words@), i as int),
{
    if i < words.len() {
        assert(text::texts(words@)[i as int] == words@[i as int]@);
        Some(words[i].clone())
    } else {
        None
    }
}

fn say(line: &str) -> (r: Command<String>)
    ensures
        r@ == Command::Say(line@),
{
    Command::Say(line.to_owned())
}

pub open spec fn sysproxy_command(arg: Option<Seq<char>>) -> Command<Seq<char>> {
    match arg {
        None => Command::ToggleSysProxy,
        Some(v) => if v == "on"@ {
            Command::SysProxy(true)
        } else if v == "off"@ {
            Command::SysProxy(false)
        } else if v == "toggle"@ {
            Command::ToggleSysProxy
        } else {
            Command::Say("usage: sysproxy [on|off|toggle]"@)
        },
    }
}

fn parse_sysproxy(arg: Option<String>) -> (r: Command<String>)
    ensures
        r@ == sysproxy_command(text::opt_text(arg)),
{
    match arg {
        None => Command::ToggleSysProxy,
        Some(v) => {
            let v = v.as_str();
            if text::same(v, "on") {
                Command::SysProxy(true)
            } else if text::same(v, "off") {
                Command::SysProxy(false)
            } else if text::same(v, "toggle") {
                Command::ToggleSysProxy
            } else {
                say("usage: sysproxy [on|off|toggle]")
            }
        },
    }
}

pub open spec fn reload_command(arg: Option<Seq<char>>) -> Command<Seq<char>> {
    match arg {
        Some(v) => if v == "proxies"@ {
            Command::RefreshProxies
        } else if v == "subscriptions"@ {
            Command::UpdateAll
        } else {
            Command::Say("usage: reload proxies|subscriptions"@)
        },
        None => Command::Say("usage: reload proxies|subscriptions"@),
    }
}

fn parse_reload(arg: Option<String>) -> (r: Command<String>)
    ensures
        r@ == reload_command(text::opt_text(arg)),
{
    if let Some(v) = arg {
        if text::same(v.as_str(), "proxies") {
            return Command::RefreshProxies;
        }
        if text::same(v.as_str(), "subscriptions") {
            return Command::UpdateAll;
        }
    }
    say("usage: reload proxies|subscriptions")
}

pub open spec fn update_command(arg: Option<Seq<char>>) -> Command<Seq<char>> {
    match arg {
        None => Command::UpdateSelected,
        Some(v) => if v == "selected"@ {
            Command::UpdateSelected
        } else if v == "all"@ {
            Command::UpdateAll
        } else {
            Command::Update(v)
        },
    }
}

fn parse_update(arg: Option<String>) -> (r: Command<String>)
    ensures
        r@ == update_command(text::opt_text(arg)),
{
    match arg {
        None => Command::UpdateSelected,
        Some(v) => {
            if text::same(v.as_str(), "selected") {
                Command::UpdateSelected
            } else if text::same(v.as_str(), "all") {
                Command::UpdateAll
            } else {
                Command::Update(v)
            }
        },
    }
}

pub open spec fn autosub_command(arg: Option<Seq<char>>) -> Command<Seq<char>> {
    match arg {
        None => Command::AutoSubStatus,
        Some(v) => if v == "now"@ {
            Command::AutoSubNow
        } else if v == "status"@ {
            Command::AutoSubStatus
        } else if v == "off"@ || v == "disable"@ {
            Command::AutoUpdate(0, "user"@)
        } else {
            match number::number_of(v, u64::MAX as nat) {
                Some(minutes) => Command::AutoUpdate(minutes as u64, "user"@),
                None => Command::Say("usage: autosub [off|status|now|<minutes>]"@),
            }
        },
    }
}

fn parse_autosub(arg: Option<String>) -> (r: Command<String>)
    ensures
        r@ == autosub_command(text::opt_text(arg)),
{
    match arg {
        None => Command::AutoSubStatus,
        Some(v) => {
            let v = v.as_str();
            if text::same(v, "now") {
                return Command::AutoSubNow;
            }
            if text::same(v, "status") {
                return Command::AutoSubStatus;
            }
            if text::same(v, "off") || text::same(v, "disable") {
                return Command::AutoUpdate(0, "user".to_owned());
            }
            match number::parse_u64(v) {
                Some(minutes) => Command::AutoUpdate(minutes, "user".to_owned()),
                None => say("usage: autosub [off|status|now|<minutes>]"),
            }
        },
    }
}

/// The time limit of a delay test in milliseconds: five seconds unless the line names another.
pub open spec fn delay_limit(arg: Option<Seq<char>>) -> u64 {
    match arg {
        Some(v) => match number::number_of(v, u64::MAX as nat) {
            Some(n) => n as u64,
            None => 5000,
        },
        None => 5000,
    }
}

pub open spec fn delay_command(words: Seq<Seq<char>>) -> Command<Seq<char>> {
    let url = word_at(words, 2);
    let limit = delay_limit(word_at(words, 3));
    match word_at(words, 1) {
        None => Command::Say("usage: delay <proxy|selected|all> [url] [timeout_ms]"@),
        Some(v) => if v == "all"@ {
            Command::DelayAll(url, limit)
        } else if v == "selected"@ {
            Command::DelaySelected(url, limit)
        } else {
            Command::DelayNode(v, url, limit)
        },
    }
}

fn parse_delay(words: &Vec<String>) -> (r: Command<String>)
    ensures
        r@ == delay_command(text::texts(words@)),
{
    let url = word(words, 2);
    let mut limit: u64 = 5000;
    if let Some(v) = word(words, 3) {
        if let Some(n) = number::parse_u64(v.as_str()) {
            limit = n;
        }
    }
    match word(words, 1) {
        None => say("usage: delay <proxy|selected|all> [url] [timeout_ms]"),
        Some(v) => {
            if text::same(v.as_str(), "all") {
                Command::DelayAll(url, limit)
            } else if text::same(v.as_str(), "selected") {
                Command::DelaySelected(url, limit)
            } else {
                Command::DelayNode(v, url, limit)
            }
        },
    }
}

pub open spec fn mode_command(arg: Option<Seq<char>>) -> Command<Seq<char>> {
    match arg {
        None => Command::Say("usage: mode <rule|global|direct>"@),
        Some(v) => if v == "rule"@ || v == "global"@ || v == "direct"@ {
            Command::Mode(v)
        } else {
            Command::Say("mode must be one of: rule, global, direct"@)
        },
    }
}

fn parse_mode(arg: Option<String>) -> (r: Command<String>)
    ensures
        r@ == mode_command(text::opt_text(arg)),
{
    match arg {
        None => say("usage: mode <rule|global|direct>"),
        Some(v) => {
            if text::same(v.as_str(), "rule") || text::same(v.as_str(), "global") || text::same(
                v.as_str(),
                "direct",
            ) {
                Command::Mode(v)
            } else {
                say("mode must be one of: rule, global, direct")
            }
        },
    }
}

pub open spec fn keep_command(arg: Option<Seq<char>>, usage: Seq<char>) -> Command<Seq<char>> {
    match arg {
        Some(v) => match config::switch_of(v) {
            Some(keep) => Command::Keep(keep),
            None => Command::Say(usage),
        },
        None => Command::Say(usage),
    }
}

fn parse_keep(arg: Option<String>, usage: &str) -> (r: Command<String>)
    ensures
        r@ == keep_command(text::opt_text(arg), usage@),
{
    if let Some(v) = arg {
        if let Some(keep) = config::parse_on_off(v.as_str()) {
            return Command::Keep(keep);
        }
    }
    say(usage)
}

pub open spec fn policy_command(arg: Option<Seq<char>>, usage: Seq<char>) -> Command<Seq<char>> {
    match arg {
        Some(v) => match config::policy_of(v) {
            Some(policy) => Command::Policy(policy),
            None => Command::Say(usage),
        },
        None => Command::Say(usage),
    }
}

fn parse_policy(arg: Option<String>, usage: &str) -> (r: Command<String>)
    ensures
        r@ == policy_command(text::opt_text(arg), usage@),
{
    if let Some(v) = arg {
        if let Some(policy) = config::parse_backend_exit_policy(v.as_str()) {
            return Command::Policy(policy);
        }
    }
    say(usage)
}

pub open spec fn backend_command(words: Seq<Seq<char>>) -> Command<Seq<char>> {
    match word_at(words, 1) {
        None => Command::BackendStatus,
        Some(v) => if v == "status"@ {
            Command::BackendStatus
        } else if v == "start"@ {
            Command::BackendStart
        } else if v == "stop"@ {
            Command::BackendStop
        } else if v == "keep"@ {
            keep_command(word_at(words, 2), "usage: backend keep <on|off>"@)
        } else if v == "policy"@ {
            policy_command(
                word_at(words, 2),
                "usage: backend policy <always-on|always-off|query>"@,
            )
        } else {
            Command::Say(
                "usage: backend [status|start|stop|keep <on|off>|policy <always-on|always-off|query>]"@,
            )
        },
    }
}

fn parse_backend(words: &Vec<String>) -> (r: Command<String>)
    ensures
        r@ == backend_command(text::texts(words@)),
{
    match word(words, 1) {
        None => Command::BackendStatus,
        Some(v) => {
            let v = v.as_str();
            if text::same(v, "status") {
                Command::BackendStatus
            } else if text::same(v, "start") {
                Command::BackendStart
            } else if text::same(v, "stop") {
                Command::BackendStop
            } else if text::same(v, "keep") {
                parse_keep(word(words, 2), "usage: backend keep <on|off>")
            } else if text::same(v, "policy") {
                parse_policy(
                    word(words, 2),
                    "usage: backend policy <always-on|always-off|query>",
                )
            } else {
                say(
                    "usage: backend [status|start|stop|keep <on|off>|policy <always-on|always-off|query>]",
                )
            }
        },
    }
}

pub open spec fn toggle_command(arg: Option<Seq<char>>) -> Command<Seq<char>> {
    match arg {
        Some(v) => if v == "sysproxy"@ {
            Command::ToggleSysProxy
        } else if v == "tun"@ {
            Command::ToggleTun
        } else {
            Command::Say("usage: toggle sysproxy|tun"@)
        },
        None => Command::Say("usage: toggle sysproxy|tun"@),
    }
}

fn parse_toggle(arg: Option<String>) -> (r: Command<String>)
    ensures
        r@ == toggle_command(text::opt_text(arg)),
{
    if let Some(v) = arg {
        if text::same(v.as_str(), "sysproxy") {
            return Command::ToggleSysProxy;
        }
        if text::same(v.as_str(), "tun") {
            return Command::ToggleTun;
        }
    }
    say("usage: toggle sysproxy|tun")
}

pub open spec fn mixed_port_command(arg: Option<Seq<char>>) -> Command<Seq<char>> {
    match arg {
        Some(v) => match number::number_of(v, u16::MAX as nat) {
            Some(port) => Command::SetMixedPort(port as u16),
            None => Command::Say("usage: set mixed-port <port>"@),
        },
        None => Command::Say("usage: set mixed-port <port>"@),
    }
}

fn parse_mixed_port(arg: Option<String>) -> (r: Command<String>)
    ensures
        r@ == mixed_port_command(text::opt_text(arg)),
{
    if let Some(v) = arg {
        if let Some(port) = number::parse_u16(v.as_str()) {
            return Command::SetMixedPort(port);
        }
    }
    say("usage: set mixed-port <port>")
}

pub open spec fn set_cleanup_command(arg: Option<Seq<char>>) -> Command<Seq<char>> {
    match arg {
        Some(v) => match config::switch_of(v) {
            Some(enabled) => Command::SetCleanup(enabled),
            None => Command::Say("usage: set cleanup-on-exit <on|off>"@),
        },
        None => Command::Say("usage: set cleanup-on-exit <on|off>"@),
    }
}

fn parse_set_cleanup(arg: Option<String>) -> (r: Command<String>)
    ensures
        r@ == set_cleanup_command(text::opt_text(arg)),
{
    if let Some(v) = arg {
        if let Some(enabled) = config::parse_on_off(v.as_str()) {
            return Command::SetCleanup(enabled);
        }
    }
    say("usage: set cleanup-on-exit <on|off>")
}

pub open spec fn auto_update_command(arg: Option<Seq<char>>) -> Command<Seq<char>> {
    match arg {
        Some(v) => if text::lowered(v) == "off"@ {
            Command::AutoUpdate(0, "set"@)
        } else {
            match number::number_of(v, u64::MAX as nat) {
                Some(minutes) => Command::AutoUpdate(minutes as u64, "set"@),
                None => Command::Say("usage: set auto-update <off|minutes>"@),
            }
        },
        None => Command::Say("usage: set auto-update <off|minutes>"@),
    }
}

fn parse_auto_update(arg: Option<String>) -> (r: Command<String>)
    ensures
        r@ == auto_update_command(text::opt_text(arg)),
{
    if let Some(v) = arg {
        if text::same(text::to_lower(v.as_str()).as_str(), "off") {
            return Command::AutoUpdate(0, "set".to_owned());
        }
        if let Some(minutes) = number::parse_u64(v.as_str()) {
            return Command::AutoUpdate(minutes, "set".to_owned());
        }
    }
    say("usage: set auto-update <off|minutes>")
}

pub open spec fn set_usage() -> Seq<char> {
    "usage: set controller <url> | set secret <secret> | set mixed-port <port> | set proxy-host <host> | set cleanup-on-exit <on|off> | set keep-core-on-exit <on|off> | set backend-exit-policy <always-on|always-off|query> | set auto-update <off|minutes>"@
}

pub open spec fn set_command(words: Seq<Seq<char>>) -> Command<Seq<char>> {
    let arg = word_at(words, 2);
    match word_at(words, 1) {
        None => Command::Say(set_usage()),
        Some(v) => if v == "controller"@ {
            match arg {
                Some(url) => Command::SetController(url),
                None => Command::Say("usage: set controller <url>"@),
            }
        } else if v == "secret"@ {
            match arg {
                Some(secret) => Command::SetSecret(secret),
                None => Command::Say("usage: set secret <secret>"@),
            }
        } else if v == "mixed-port"@ {
            mixed_port_command(arg)
        } else if v == "proxy-host"@ {
            match arg {
                Some(host) => Command::SetProxyHost(host),
                None => Command::Say("usage: set proxy-host <host>"@),
            }
        } else if v == "cleanup-on-exit"@ {
            set_cleanup_command(arg)
        } else if v == "keep-core-on-exit"@ {
            keep_command(arg, "usage: set keep-core-on-exit <on|off>"@)
        } else if v == "backend-exit-policy"@ {
            policy_command(arg, "usage: set backend-exit-policy <always-on|always-off|query>"@)
        } else if v == "auto-update"@ {
            auto_update_command(arg)
        } else {
            Command::Say(set_usage())
        },
    }
}

fn say_set_usage() -> (r: Command<String>)
    ensures
        r@ == Command::Say(set_usage()),
{
    say(
        "usage: set controller <url> | set secret <secret> | set mixed-port <port> | set proxy-host <host> | set cleanup-on-exit <on|off> | set keep-core-on-exit <on|off> | set backend-exit-policy <always-on|always-off|query> | set auto-update <off|minutes>",
    )
}

fn parse_set(words: &Vec<String>) -> (r: Command<String>)
    ensures
        r@ == set_command(text::texts(words@)),
{
    let arg = word(words, 2);
    match word(words, 1) {
        None => say_set_usage(),
        Some(v) => {
            let v = v.as_str();
            if text::same(v, "controller") {
                match arg {
                    Some(url) => Command::SetController(url),
                    None => say("usage: set controller <url>"),
                }
            } else if text::same(v, "secret") {
                match arg {
                    Some(secret) => Command::SetSecret(secret),
                    None => say("usage: set secret <secret>"),
                }
            } else if text::same(v, "mixed-port") {
                parse_mixed_port(arg)
            } else if text::same(v, "proxy-host") {
                match arg {
                    Some(host) => Command::SetProxyHost(host),
                    None => say("usage: set proxy-host <host>"),
                }
            } else if text::same(v, "cleanup-on-exit") {
                parse_set_cleanup(arg)
            } else if text::same(v, "keep-core-on-exit") {
                parse_keep(arg, "usage: set keep-core-on-exit <on|off>")
            } else if text::same(v, "backend-exit-policy") {
                parse_policy(arg, "usage: set backend-exit-policy <always-on|always-off|query>")
            } else if text::same(v, "auto-update") {
                parse_auto_update(arg)
            } else {
                say_set_usage()
            }
        },
    }
}

/// What the words of a line ask for.
pub open spec fn command_of(words: Seq<Seq<char>>) -> Command<Seq<char>> {
    let arg = word_at(words, 1);
    match word_at(words, 0) {
        None => Command::Nothing,
        Some(v) => if v == "help"@ {
            Command::Help
        } else if v == "sysproxy"@ {
            sysproxy_command(arg)
        } else if v == "doctor"@ {
            Command::Doctor
        } else if v == "logpath"@ {
            Command::LogPath
        } else if v == "health"@ {
            Command::Health
        } else if v == "adopt"@ {
            Command::Adopt
        } else if v == "import"@ {
            match arg {
                Some(url) => Command::Import(url),
                None => Command::Say("usage: import <url>"@),
            }
        } else if v == "reload"@ {
            reload_command(arg)
        } else if v == "update"@ {
            update_command(arg)
        } else if v == "autosub"@ {
            autosub_command(arg)
        } else if v == "switch"@ {
            match (arg, word_at(words, 2)) {
                (Some(group), Some(proxy)) => Command::Switch(group, proxy),
                _ => Command::Say("usage: switch <group> <proxy>"@),
            }
        } else if v == "delay"@ {
            delay_command(words)
        } else if v == "mode"@ {
            mode_command(arg)
        } else if v == "cleanup"@ {
            Command::Cleanup
        } else if v == "backend"@ {
            backend_command(words)
        } else if v == "toggle"@ {
            toggle_command(arg)
        } else if v == "set"@ {
            set_command(words)
        } else if v == "use"@ {
            match arg {
                Some(uid) => Command::Use(uid),
                None => Command::Say("usage: use <profile_uid>"@),
            }
        } else if v == "save"@ {
            Command::Save
        } else if v == "quit"@ || v == "exit"@ {
            Command::Quit
        } else {
            Command::Say("unknown command: "@ + v)
        },
    }
}

/// Reads a line.
pub fn parse_command(line: &str) -> (r: Command<String>)
    ensures
        r@ == command_of(text::words_of(line@)),
{
    let words = text::words(line);
    let arg = word(&words, 1);
    let v = match word(&words, 0) {
        None => {
            return Command::Nothing;
        },
        Some(v) => v,
    };
    let v = v.as_str();
    if text::same(v, "help") {
        Command::Help
    } else if text::same(v, "sysproxy") {
        parse_sysproxy(arg)
    } else if text::same(v, "doctor") {
        Command::Doctor
    } else if text::same(v, "logpath") {
        Command::LogPath
    } else if text::same(v, "health") {
        Command::Health
    } else if text::same(v, "adopt") {
        Command::Adopt
    } else if text::same(v, "import") {
        match arg {
            Some(url) => Command::Import(url),
            None => say("usage: import <url>"),
        }
    } else if text::same(v, "reload") {
        parse_reload(arg)
    } else if text::same(v, "update") {
        parse_update(arg)
    } else if text::same(v, "autosub") {
        parse_autosub(arg)
    } else if text::same(v, "switch") {
        match (arg, word(&words, 2)) {
            (Some(group), Some(proxy)) => Command::Switch(group, proxy),
            _ => say("usage: switch <group> <proxy>"),
        }
    } else if text::same(v, "delay") {
        parse_delay(&words)
    } else if text::same(v, "mode") {
        parse_mode(arg)
    } else if text::same(v, "cleanup") {
        Command::Cleanup
    } else if text::same(v, "backend") {
        parse_backend(&words)
    } else if text::same(v, "toggle") {
        parse_toggle(arg)
    } else if text::same(v, "set") {
        parse_set(&words)
    } else if text::same(v, "use") {
        match arg {
            Some(uid) => Command::Use(uid),
            None => say("usage: use <profile_uid>"),
        }
    } else if text::same(v, "save") {
        Command::Save
    } else if text::same(v, "quit") || text::same(v, "exit") {
        Command::Quit
    } else {
        Command::Say(text::cat2("unknown command: ", v))
    }
}

/// No two of the first words of the commands that are told apart here are equal.
proof fn lemma_first_words_differ(v: Seq<char>)
    requires
        v == "sysproxy"@ || v == "toggle"@ || v == "backend"@ || v == "set"@,
    ensures
        v != "help"@,
        v != "doctor"@,
        v != "logpath"@,
        v != "health"@,
        v != "adopt"@,
        v != "import"@,
        v != "reload"@,
        v != "update"@,
        v != "autosub"@,
        v != "switch"@,
        v != "delay"@,
        v != "mode"@,
        v != "cleanup"@,
        v == "toggle"@ ==> v != "backend"@ && v != "sysproxy"@,
        v == "set"@ ==> v != "backend"@ && v != "toggle"@ && v != "sysproxy"@,
        v == "backend"@ ==> v != "sysproxy"@,
{
    reveal_strlit("sysproxy");
    reveal_strlit("toggle");
    reveal_strlit("backend");
    reveal_strlit("set");
    reveal_strlit("help");
    reveal_strlit("doctor");
    reveal_strlit("logpath");
    reveal_strlit("health");
    reveal_strlit("adopt");
    reveal_strlit("import");
    reveal_strlit("reload");
    reveal_strlit("update");
    reveal_strlit("autosub");
    reveal_strlit("switch");
    reveal_strlit("delay");
    reveal_strlit("mode");
    reveal_strlit("cleanup");
    assert("sysproxy"@.len() == 8 && "sysproxy"@[0] == 's');
    assert("toggle"@.len() == 6 && "toggle"@[0] == 't');
    assert("backend"@.len() == 7 && "backend"@[0] == 'b');
    assert("set"@.len() == 3 && "set"@[0] == 's');
    assert("help"@.len() == 4 && "help"@[0] == 'h');
    assert("doctor"@.len() == 6 && "doctor"@[0] == 'd');
    assert("logpath"@.len() == 7 && "logpath"@[0] == 'l');
    assert("health"@.len() == 6 && "health"@[0] == 'h');
    assert("adopt"@.len() == 5 && "adopt"@[0] == 'a');
    assert("import"@.len() == 6 && "import"@[0] == 'i');
    assert("reload"@.len() == 6 && "reload"@[0] == 'r');
    assert("update"@.len() == 6 && "update"@[0] == 'u');
    assert("autosub"@.len() == 7 && "autosub"@[0] == 'a');
    assert("switch"@.len() == 6 && "switch"@[0] == 's');
    assert("delay"@.len() == 5 && "delay"@[0] == 'd');
    assert("mode"@.len() == 4 && "mode"@[0] == 'm');
    assert("cleanup"@.len() == 7 && "cleanup"@[0] == 'c');
}

/// `sysproxy`, `sysproxy toggle` and `toggle sysproxy` mean the same, whatever follows.
pub proof fn law_sysproxy_spellings(rest: Seq<Seq<char>>)
    ensures
        command_of(seq!["toggle"@, "sysproxy"@] + rest) == Command::<Seq<char>>::ToggleSysProxy,
        command_of(seq!["sysproxy"@, "toggle"@] + rest) == Command::<Seq<char>>::ToggleSysProxy,
        command_of(seq!["sysproxy"@]) == Command::<Seq<char>>::ToggleSysProxy,
{
    lemma_first_words_differ("toggle"@);
    lemma_first_words_differ("sysproxy"@);
    reveal_strlit("on");
    reveal_strlit("off");
    reveal_strlit("toggle");
    let a = seq!["toggle"@, "sysproxy"@] + rest;
    assert(a[0] == "toggle"@ && a[1] == "sysproxy"@);
    let b = seq!["sysproxy"@, "toggle"@] + rest;
    assert(b[0] == "sysproxy"@ && b[1] == "toggle"@);
}

/// `backend keep` and `set keep-core-on-exit` mean the same.
pub proof fn law_keep_spellings(v: Seq<char>, keep: bool, rest: Seq<Seq<char>>)
    requires
        config::switch_of(v) == Some(keep),
    ensures
        command_of(seq!["backend"@, "keep"@, v] + rest) == Command::<Seq<char>>::Keep(keep),
        command_of(seq!["set"@, "keep-core-on-exit"@, v] + rest) == Command::<Seq<char>>::Keep(
            keep,
        ),
{
    lemma_first_words_differ("backend"@);
    lemma_first_words_differ("set"@);
    lemma_settings_differ();
    let a = seq!["backend"@, "keep"@, v] + rest;
    assert(a[0] == "backend"@ && a[1] == "keep"@ && a[2] == v);
    let b = seq!["set"@, "keep-core-on-exit"@, v] + rest;
    assert(b[0] == "set"@ && b[1] == "keep-core-on-exit"@ && b[2] == v);
}

/// `backend policy` and `set backend-exit-policy` mean the same.
pub proof fn law_policy_spellings(v: Seq<char>, policy: BackendExitPolicy, rest: Seq<Seq<char>>)
    requires
        config::policy_of(v) == Some(policy),
    ensures
        command_of(seq!["backend"@, "policy"@, v] + rest) == Command::<Seq<char>>::Policy(policy),
        command_of(seq!["set"@, "backend-exit-policy"@, v] + rest) == Command::<Seq<char>>::Policy(
            policy,
        ),
{
    lemma_first_words_differ("backend"@);
    lemma_first_words_differ("set"@);
    lemma_settings_differ();
    let a = seq!["backend"@, "policy"@, v] + rest;
    assert(a[0] == "backend"@ && a[1] == "policy"@ && a[2] == v);
    let b = seq!["set"@, "backend-exit-policy"@, v] + rest;
    assert(b[0] == "set"@ && b[1] == "backend-exit-policy"@ && b[2] == v);
}

proof fn lemma_settings_differ()
    ensures
        "keep"@ != "status"@,
        "keep"@ != "start"@,
        "keep"@ != "stop"@,
        "policy"@ != "status"@,
        "policy"@ != "start"@,
        "policy"@ != "stop"@,
        "policy"@ != "keep"@,
        "keep-core-on-exit"@ != "controller"@,
        "keep-core-on-exit"@ != "secret"@,
        "keep-core-on-exit"@ != "mixed-port"@,
        "keep-core-on-exit"@ != "proxy-host"@,
        "keep-core-on-exit"@ != "cleanup-on-exit"@,
        "backend-exit-policy"@ != "controller"@,
        "backend-exit-policy"@ != "secret"@,
        "backend-exit-policy"@ != "mixed-port"@,
        "backend-exit-policy"@ != "proxy-host"@,
        "backend-exit-policy"@ != "cleanup-on-exit"@,
        "backend-exit-policy"@ != "keep-core-on-exit"@,
{
    reveal_strlit("keep");
    reveal_strlit("policy");
    reveal_strlit("status");
    reveal_strlit("start");
    reveal_strlit("stop");
    reveal_strlit("keep-core-on-exit");
    reveal_strlit("backend-exit-policy");
    reveal_strlit("controller");
    reveal_strlit("secret");
    reveal_strlit("mixed-port");
    reveal_strlit("proxy-host");
    reveal_strlit("cleanup-on-exit");
    assert("keep"@.len() == 4 && "keep"@[0] == 'k');
    assert("policy"@.len() == 6 && "policy"@[0] == 'p');
    assert("status"@.len() == 6 && "status"@[0] == 's');
    assert("start"@.len() == 5 && "start"@[0] == 's');
    assert("stop"@.len() == 4 && "stop"@[0] == 's');
    assert("keep-core-on-exit"@.len() == 17 && "keep-core-on-exit"@[0] == 'k');
    assert("backend-exit-policy"@.len() == 19 && "backend-exit-policy"@[0] == 'b');
    assert("controller"@.len() == 10 && "controller"@[0] == 'c');
    assert("secret"@.len() == 6 && "secret"@[0] == 's');
    assert("mixed-port"@.len() == 10 && "mixed-port"@[0] == 'm');
    assert("proxy-host"@.len() == 10 && "proxy-host"@[0] == 'p');
    assert("cleanup-on-exit"@.len() == 15 && "cleanup-on-exit"@[0] == 'c');
}

/// A line whose first word is no command is told to be unknown, and does nothing else.
pub proof fn law_unknown_command(words: Seq<Seq<char>>)
    requires
        words.len() > 0,
        !is_command_word(words[0]),
    ensures
        command_of(words) == Command::Say("unknown command: "@ + words[0]),
{
}

/// The first words of the commands.
pub open spec fn is_command_word(v: Seq<char>) -> bool {
    v == "help"@ || v == "sysproxy"@ || v == "doctor"@ || v == "logpath"@ || v == "health"@ || v
        == "adopt"@ || v == "import"@ || v == "reload"@ || v == "update"@ || v == "autosub"@ || v
        == "switch"@ || v == "delay"@ || v == "mode"@ || v == "cleanup"@ || v == "backend"@ || v
        == "toggle"@ || v == "set"@ || v == "use"@ || v == "save"@ || v == "quit"@ || v == "exit"@
}

} // verus!
