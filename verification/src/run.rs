//! Carrying out commands: each outcome of work outside leads to the next step.

use crate::client;
use crate::client::MihomoClient;
use crate::command;
use crate::command::Command;
use crate::config;
use crate::config::VergeConfig;
use crate::notes::Notes;
use crate::number;
use crate::profile;
use crate::screen::Screen;
use crate::session::App;
use crate::session::KeyAction;
use crate::text;
use crate::weburl;
use vstd::hash_map::StringHashMap;
use vstd::prelude::*;

verus! {

/// Work that is done as a whole, with texts of type `T`.
#[derive(Debug)]
pub enum Operation<T> {
    Doctor,
    /// Make sure that the core answers, and tell.
    EnsureReady,
    /// Start a core of our own.
    StartCore,
    /// Ask the core whether it answers, and tell.
    CheckHealth,
    RefreshProxies,
    Import(T),
    Activate,
    UpdateSelected,
    UpdateAll,
    Update(T),
    AutoSubStatus,
    /// Set the time of the next update of all subscriptions, for a reason.
    Schedule(T),
    /// Let a group choose a node. The flag tells that the cursor was on the node.
    Switch(T, T, bool),
    /// Test a node with an address and a time limit. The flag tells that the cursor was on it.
    Delay(T, T, u64, bool),
    TestAll(T, u64),
    Mode(T),
    Cleanup,
    BackendStatus,
    StopBackend,
    SaveExitChoice,
}

/// What follows once the state is saved.
#[derive(Debug)]
pub enum Saved<T> {
    Say(T),
    Schedule(T),
    /// Connect anew, then say this.
    Reconnect(T),
    /// Say this; then the system's proxy follows the new port or host, where it is on.
    Reapply(T, T),
}

/// Why the system's proxy is set.
#[derive(Debug)]
pub enum ProxyPurpose<T> {
    /// It was switched. Where it cannot be set, it goes back to this.
    Switch(Option<bool>),
    /// It follows something new.
    Again(T),
}

#[derive(Debug)]
pub enum Step<T> {
    Done,
    /// The command ends with an error.
    Fail(T),
    Do(Operation<T>),
    /// Two operations, one after the other.
    DoBoth(Operation<T>, Operation<T>),
    /// Set the system's proxy to what the settings say.
    SetProxy(ProxyPurpose<T>),
    /// Save the state.
    Save(Saved<T>),
    /// Switch the tunnel to what the settings say; it was this before.
    SetTun(bool),
    /// Connect to the controller anew.
    Reconnect(T),
    /// Look for a running core of Clash Verge, then ask whether the core answers.
    Adopt,
}

impl View for Operation<String> {
    type V = Operation<Seq<char>>;

    open spec fn view(&self) -> Operation<Seq<char>> {
        match self {
            Operation::Doctor => Operation::Doctor,
            Operation::EnsureReady => Operation::EnsureReady,
            Operation::StartCore => Operation::StartCore,
            Operation::CheckHealth => Operation::CheckHealth,
            Operation::RefreshProxies => Operation::RefreshProxies,
            Operation::Import(s) => Operation::Import(s@),
            Operation::Activate => Operation::Activate,
            Operation::UpdateSelected => Operation::UpdateSelected,
            Operation::UpdateAll => Operation::UpdateAll,
            Operation::Update(s) => Operation::Update(s@),
            Operation::AutoSubStatus => Operation::AutoSubStatus,
            Operation::Schedule(s) => Operation::Schedule(s@),
            Operation::Switch(a, b, c) => Operation::Switch(a@, b@, *c),
            Operation::Delay(a, b, n, c) => Operation::Delay(a@, b@, *n, *c),
            Operation::TestAll(s, n) => Operation::TestAll(s@, *n),
            Operation::Mode(s) => Operation::Mode(s@),
            Operation::Cleanup => Operation::Cleanup,
            Operation::BackendStatus => Operation::BackendStatus,
            Operation::StopBackend => Operation::StopBackend,
            Operation::SaveExitChoice => Operation::SaveExitChoice,
        }
    }
}

impl View for Saved<String> {
    type V = Saved<Seq<char>>;

    open spec fn view(&self) -> Saved<Seq<char>> {
        match self {
            Saved::Say(s) => Saved::Say(s@),
            Saved::Schedule(s) => Saved::Schedule(s@),
            Saved::Reconnect(s) => Saved::Reconnect(s@),
            Saved::Reapply(a, b) => Saved::Reapply(a@, b@),
        }
    }
}

impl View for ProxyPurpose<String> {
    type V = ProxyPurpose<Seq<char>>;

    open spec fn view(&self) -> ProxyPurpose<Seq<char>> {
        match self {
            ProxyPurpose::Switch(b) => ProxyPurpose::Switch(*b),
            ProxyPurpose::Again(s) => ProxyPurpose::Again(s@),
        }
    }
}

impl View for Step<String> {
    type V = Step<Seq<char>>;

    open spec fn view(&self) -> Step<Seq<char>> {
        match self {
            Step::Done => Step::Done,
            Step::Fail(s) => Step::Fail(s@),
            Step::Do(o) => Step::Do(o@),
            Step::DoBoth(a, b) => Step::DoBoth(a@, b@),
            Step::SetProxy(p) => Step::SetProxy(p@),
            Step::Save(s) => Step::Save(s@),
            Step::SetTun(b) => Step::SetTun(*b),
            Step::Reconnect(s) => Step::Reconnect(s@),
            Step::Adopt => Step::Adopt,
        }
    }
}

/// Lines for the log, and the step after them.
pub struct Next {
    pub notes: Notes,
    pub step: Step<String>,
}

pub struct NextModel {
    pub notes: Seq<Seq<char>>,
    pub step: Step<Seq<char>>,
}

impl View for Next {
    type V = NextModel;

    open spec fn view(&self) -> NextModel {
        NextModel { notes: self.notes@, step: self.step@ }
    }
}

pub open spec fn to_step(step: Step<Seq<char>>) -> NextModel {
    NextModel { notes: seq![], step }
}

pub open spec fn only_say(line: Seq<char>) -> NextModel {
    NextModel { notes: seq![line], step: Step::Done }
}

fn go(step: Step<String>) -> (r: Next)
    ensures
        r@ == to_step(step@),
{
    Next { notes: Notes::none(), step }
}

fn say(line: String) -> (r: Next)
    ensures
        r@ == only_say(line@),
{
    Next { notes: Notes::one(line), step: Step::Done }
}

/// What a command does to the settings at once.
pub open spec fn sets(c: Command<Seq<char>>, before: VergeConfig, after: VergeConfig) -> bool {
    match c {
        Command::SysProxy(on) => after == (VergeConfig { enable_system_proxy: on, ..before }),
        Command::ToggleSysProxy => after == (VergeConfig {
            enable_system_proxy: !before.enable_system_proxy,
            ..before
        }),
        Command::ToggleTun => after == (VergeConfig {
            enable_tun_mode: !before.enable_tun_mode,
            ..before
        }),
        Command::AutoUpdate(minutes, _) => after == (VergeConfig {
            auto_update_subscription_minutes: minutes,
            ..before
        }),
        Command::Keep(keep) => after == config::with_keep(before, keep),
        Command::Policy(policy) => after == config::with_policy(before, policy),
        Command::SetController(url) => after.controller_url@ == url && after == (VergeConfig {
            controller_url: after.controller_url,
            ..before
        }),
        Command::SetSecret(secret) => after.secret@ == secret && after == (VergeConfig {
            secret: after.secret,
            ..before
        }),
        Command::SetMixedPort(port) => after == (VergeConfig { mixed_port: port, ..before }),
        Command::SetProxyHost(host) => after.proxy_host@ == host && after == (VergeConfig {
            proxy_host: after.proxy_host,
            ..before
        }),
        Command::SetCleanup(on) => after == (VergeConfig { auto_cleanup_on_exit: on, ..before }),
        _ => after == before,
    }
}

pub open spec fn policy_note(policy: config::BackendExitPolicy) -> Seq<char> {
    "backend-exit-policy => "@ + config::policy_label(policy)
}

/// The step that a command begins with, as far as the settings tell.
pub open spec fn first_step(c: Command<Seq<char>>, verge: VergeConfig) -> NextModel {
    match c {
        Command::Say(line) => only_say(line),
        Command::SysProxy(_) => to_step(Step::SetProxy(ProxyPurpose::Switch(None))),
        Command::ToggleSysProxy => to_step(
            Step::SetProxy(ProxyPurpose::Switch(Some(verge.enable_system_proxy))),
        ),
        Command::ToggleTun => to_step(Step::SetTun(verge.enable_tun_mode)),
        Command::Doctor => to_step(Step::Do(Operation::Doctor)),
        Command::Health => to_step(Step::Do(Operation::EnsureReady)),
        Command::Adopt => to_step(Step::Adopt),
        Command::Import(url) => to_step(Step::Do(Operation::Import(url))),
        Command::RefreshProxies => to_step(Step::Do(Operation::RefreshProxies)),
        Command::UpdateSelected => to_step(Step::Do(Operation::UpdateSelected)),
        Command::UpdateAll => to_step(Step::Do(Operation::UpdateAll)),
        Command::Update(uid) => to_step(Step::Do(Operation::Update(uid))),
        Command::AutoSubNow => NextModel {
            notes: seq!["autosub: manual trigger"@],
            step: Step::DoBoth(Operation::UpdateAll, Operation::Schedule("manual"@)),
        },
        Command::AutoSubStatus => to_step(Step::Do(Operation::AutoSubStatus)),
        Command::AutoUpdate(_, reason) => to_step(Step::Save(Saved::Schedule(reason))),
        Command::Switch(group, proxy) => to_step(
            Step::Do(Operation::Switch(group, proxy, false)),
        ),
        Command::DelayAll(url, limit) => to_step(
            Step::Do(Operation::TestAll(or_default(url, verge), limit)),
        ),
        Command::DelayNode(node, url, limit) => to_step(
            Step::Do(Operation::Delay(node, or_default(url, verge), limit, false)),
        ),
        Command::Mode(mode) => to_step(Step::Do(Operation::Mode(mode))),
        Command::Cleanup => to_step(Step::Do(Operation::Cleanup)),
        Command::BackendStatus => to_step(Step::Do(Operation::BackendStatus)),
        Command::BackendStart => to_step(
            Step::DoBoth(Operation::EnsureReady, Operation::RefreshProxies),
        ),
        Command::BackendStop => to_step(
            Step::DoBoth(Operation::Cleanup, Operation::StopBackend),
        ),
        Command::Keep(keep) => to_step(
            Step::Save(
                Saved::Say(policy_note(config::with_keep(verge, keep).backend_exit_policy)),
            ),
        ),
        Command::Policy(policy) => to_step(Step::Save(Saved::Say(policy_note(policy)))),
        Command::SetController(url) => to_step(
            Step::Save(Saved::Reconnect("controller set to "@ + url)),
        ),
        Command::SetSecret(_) => to_step(Step::Save(Saved::Reconnect("secret updated"@))),
        Command::SetMixedPort(port) => to_step(
            Step::Save(
                Saved::Reapply("mixed-port set to "@ + number::dec(port as nat), "port"@),
            ),
        ),
        Command::SetProxyHost(host) => to_step(
            Step::Save(Saved::Reapply("proxy-host set to "@ + host, "host"@)),
        ),
        Command::SetCleanup(on) => to_step(
            Step::Save(Saved::Say("cleanup-on-exit => "@ + number::bool_text(on))),
        ),
        Command::Save => to_step(Step::Save(Saved::Say("state saved"@))),
        _ => to_step(Step::Done),
    }
}

/// The address of a delay test: the one that is named, or else the configured one.
pub open spec fn or_default(url: Option<Seq<char>>, verge: VergeConfig) -> Seq<char> {
    match url {
        Some(u) => u,
        None => verge.default_delay_test_url@,
    }
}

fn url_or_default(url: Option<String>, verge: &VergeConfig) -> (r: String)
    ensures
        r@ == or_default(text::opt_text(url), *verge),
{
    match url {
        Some(u) => u,
        None => verge.default_delay_test_url.clone(),
    }
}

/// Changes the settings as a command says, where it is one that does.
fn change_settings(verge: &mut VergeConfig, c: &Command<String>)
    ensures
        sets(c@, *old(verge), *final(verge)),
{
    match c {
        Command::SysProxy(on) => {
            verge.enable_system_proxy = *on;
        },
        Command::ToggleSysProxy => {
            verge.enable_system_proxy = !verge.enable_system_proxy;
        },
        Command::ToggleTun => {
            verge.enable_tun_mode = !verge.enable_tun_mode;
        },
        Command::AutoUpdate(minutes, _) => {
            verge.auto_update_subscription_minutes = *minutes;
        },
        Command::Keep(keep) => verge.set_keep(*keep),
        Command::Policy(policy) => verge.set_policy(*policy),
        Command::SetController(url) => {
            verge.controller_url = url.clone();
        },
        Command::SetSecret(secret) => {
            verge.secret = secret.clone();
        },
        Command::SetMixedPort(port) => {
            verge.mixed_port = *port;
        },
        Command::SetProxyHost(host) => {
            verge.proxy_host = host.clone();
        },
        Command::SetCleanup(on) => {
            verge.auto_cleanup_on_exit = *on;
        },
        _ => {},
    }
}

fn policy_line(policy: config::BackendExitPolicy) -> (r: String)
    ensures
        r@ == policy_note(policy),
{
    text::cat2("backend-exit-policy => ", config::backend_exit_policy_label(policy))
}

/// The step that a command begins with; `verge` are the settings before it.
fn begin(verge: &VergeConfig, c: &Command<String>) -> (r: Next)
    ensures
        r@ == first_step(c@, *verge),
{
    match c {
        Command::Say(line) => say(line.clone()),
        Command::SysProxy(_) => go(Step::SetProxy(ProxyPurpose::Switch(None))),
        Command::ToggleSysProxy => go(
            Step::SetProxy(ProxyPurpose::Switch(Some(verge.enable_system_proxy))),
        ),
        Command::ToggleTun => go(Step::SetTun(verge.enable_tun_mode)),
        Command::Doctor => go(Step::Do(Operation::Doctor)),
        Command::Health => go(Step::Do(Operation::EnsureReady)),
        Command::Adopt => go(Step::Adopt),
        Command::Import(url) => go(Step::Do(Operation::Import(url.clone()))),
        Command::RefreshProxies => go(Step::Do(Operation::RefreshProxies)),
        Command::UpdateSelected => go(Step::Do(Operation::UpdateSelected)),
        Command::UpdateAll => go(Step::Do(Operation::UpdateAll)),
        Command::Update(uid) => go(Step::Do(Operation::Update(uid.clone()))),
        Command::AutoSubNow => Next {
            notes: Notes::say("autosub: manual trigger"),
            step: Step::DoBoth(
                Operation::UpdateAll,
                Operation::Schedule("manual".to_owned()),
            ),
        },
        Command::AutoSubStatus => go(Step::Do(Operation::AutoSubStatus)),
        Command::AutoUpdate(_, reason) => go(Step::Save(Saved::Schedule(reason.clone()))),
        Command::Switch(group, proxy) => go(
            Step::Do(Operation::Switch(group.clone(), proxy.clone(), false)),
        ),
        Command::DelayAll(url, limit) => go(
            Step::Do(Operation::TestAll(url_or_default(copy_text(url), verge), *limit)),
        ),
        Command::DelayNode(node, url, limit) => go(
            Step::Do(Operation::Delay(
                    node.clone(),
                    url_or_default(copy_text(url), verge),
                    *limit,
                    false,
                )),
        ),
        Command::Mode(mode) => go(Step::Do(Operation::Mode(mode.clone()))),
        Command::Cleanup => go(Step::Do(Operation::Cleanup)),
        Command::BackendStatus => go(Step::Do(Operation::BackendStatus)),
        Command::BackendStart => go(
            Step::DoBoth(Operation::EnsureReady, Operation::RefreshProxies),
        ),
        Command::BackendStop => go(Step::DoBoth(Operation::Cleanup, Operation::StopBackend)),
        Command::Keep(keep) => {
            let policy = if *keep {
                config::BackendExitPolicy::AlwaysOn
            } else {
                config::BackendExitPolicy::AlwaysOff
            };
            go(Step::Save(Saved::Say(policy_line(policy))))
        },
        Command::Policy(policy) => go(Step::Save(Saved::Say(policy_line(*policy)))),
        Command::SetController(url) => go(
            Step::Save(Saved::Reconnect(text::cat2("controller set to ", url.as_str()))),
        ),
        Command::SetSecret(_) => go(Step::Save(Saved::Reconnect("secret updated".to_owned()))),
        Command::SetMixedPort(port) => {
            let line = text::cat2("mixed-port set to ", number::to_dec(*port as u64).as_str());
            go(Step::Save(Saved::Reapply(line, "port".to_owned())))
        },
        Command::SetProxyHost(host) => {
            let line = text::cat2("proxy-host set to ", host.as_str());
            go(Step::Save(Saved::Reapply(line, "host".to_owned())))
        },
        Command::SetCleanup(on) => go(
            Step::Save(
                Saved::Say(text::cat2("cleanup-on-exit => ", number::bool_str(*on))),
            ),
        ),
        Command::Save => go(Step::Save(Saved::Say("state saved".to_owned()))),
        _ => go(Step::Done),
    }
}

/// Where the log files are.
pub open spec fn log_path_notes(file: Option<Seq<char>>, session: Option<Seq<char>>) -> Seq<
    Seq<char>,
> {
    let first = match file {
        Some(path) => seq!["log file => "@ + path],
        None => seq!["log file is not available"@],
    };
    match session {
        Some(path) => first.push("session log => "@ + path),
        None => first,
    }
}

/// The step that a command begins with.
pub open spec fn step_for(app: App, c: Command<Seq<char>>) -> NextModel {
    match c {
        Command::LogPath => NextModel {
            notes: log_path_notes(
                text::opt_text(app.file_log_path),
                text::opt_text(app.session_log_path),
            ),
            step: Step::Done,
        },
        Command::DelaySelected(url, limit) => match app.selection() {
            Some((_, node)) => to_step(
                Step::Do(Operation::Delay(node, or_default(url, app.verge()), limit, false)),
            ),
            None => only_say("no proxy selection"@),
        },
        Command::Use(uid) => if profile::profile_index(app.store.state.profiles@, uid)
            < app.store.state.profiles@.len() {
            to_step(Step::Do(Operation::Activate))
        } else {
            only_say("profile not found: "@ + uid)
        },
        _ => first_step(c, app.verge()),
    }
}

/// What a command shows at once.
pub open spec fn screen_for(app: App, c: Command<Seq<char>>) -> Screen {
    match c {
        Command::Help => Screen { show_help_overlay: true, ..app.screen },
        Command::Quit => app.screen.leaving(
            app.verge().backend_exit_policy,
            app.verge().keep_core_on_exit,
        ),
        Command::Use(uid) => {
            let i = profile::profile_index(app.store.state.profiles@, uid);
            if i < app.store.state.profiles@.len() {
                Screen { selected_profile_idx: i as usize, ..app.screen }
            } else {
                app.screen
            }
        },
        _ => app.screen,
    }
}

impl App {
    /// Whether `after` is this state with another screen and other settings, as a command says.
    pub open spec fn commanded(self, c: Command<Seq<char>>, after: App) -> bool {
        &&& after.screen == screen_for(self, c)
        &&& sets(c, self.verge(), after.verge())
        &&& after == crate::session::with_verge(
            App { screen: after.screen, ..self },
            after.verge(),
        )
    }

    /// Begins a typed command.
    pub fn execute_command(&mut self, line: &str) -> (r: Next)
        requires
            old(self).valid(),
        ensures
            ({
                let c = command::command_of(text::words_of(line@));
                &&& r@ == step_for(*old(self), c)
                &&& old(self).commanded(c, *final(self))
            }),
            final(self).valid(),
    {
        let c = command::parse_command(line);
        let ghost before = *self;
        let (screen, next) = self.begin_command(&c);
        let next = match next {
            Some(next) => next,
            None => begin(&self.store.state.verge, &c),
        };
        self.screen = screen;
        change_settings(&mut self.store.state.verge, &c);
        proof {
            lemma_command_keeps_fit(before, c@);
        }
        next
    }

    /// The screen that a command leads to, and the step, where the settings do not tell it.
    fn begin_command(&self, c: &Command<String>) -> (r: (Screen, Option<Next>))
        ensures
            r.0 == screen_for(*self, c@),
            match r.1 {
                Some(next) => next@ == step_for(*self, c@),
                None => step_for(*self, c@) == first_step(c@, self.verge()),
            },
    {
        let mut screen = self.screen;
        match c {
            Command::Help => {
                screen.show_help_overlay = true;
                (screen, None)
            },
            Command::Quit => {
                screen.request_quit(
                    self.store.state.verge.backend_exit_policy,
                    self.store.state.verge.keep_core_on_exit,
                );
                (screen, None)
            },
            Command::LogPath => (screen, Some(self.log_paths())),
            Command::DelaySelected(url, limit) => {
                let next = match self.selected_group_and_proxy() {
                    Some((_, node)) => {
                        let url = url_or_default(copy_text(url), &self.store.state.verge);
                        go(Step::Do(Operation::Delay(node.to_owned(), url, *limit, false)))
                    },
                    None => say("no proxy selection".to_owned()),
                };
                (screen, Some(next))
            },
            Command::Use(uid) => match profile::find_profile(
                &self.store.state.profiles,
                uid.as_str(),
            ) {
                Some(i) => {
                    screen.selected_profile_idx = i;
                    (screen, Some(go(Step::Do(Operation::Activate))))
                },
                None => (
                    screen,
                    Some(say(text::cat2("profile not found: ", uid.as_str()))),
                ),
            },
            _ => (screen, None),
        }
    }

    fn log_paths(&self) -> (r: Next)
        ensures
            r@.notes == log_path_notes(
                text::opt_text(self.file_log_path),
                text::opt_text(self.session_log_path),
            ),
            r@.step == Step::<Seq<char>>::Done,
    {
        let mut notes = match &self.file_log_path {
            Some(path) => Notes::one(text::cat2("log file => ", path.as_str())),
            None => Notes::say("log file is not available"),
        };
        if let Some(path) = &self.session_log_path {
            notes.add(text::cat2("session log => ", path.as_str()));
        }
        Next { notes, step: Step::Done }
    }

    /// The step that a key asks for.
    pub open spec fn key_step(self, action: KeyAction<Seq<char>>) -> NextModel {
        let url = self.verge().default_delay_test_url@;
        match action {
            KeyAction::Say(line) => only_say(line),
            KeyAction::SaveExitChoice => to_step(Step::Do(Operation::SaveExitChoice)),
            KeyAction::ActivateProfile => to_step(Step::Do(Operation::Activate)),
            KeyAction::UpdateSelected => to_step(Step::Do(Operation::UpdateSelected)),
            KeyAction::SwitchProxy => match self.selection() {
                Some((group, proxy)) => to_step(Step::Do(Operation::Switch(group, proxy, true))),
                None => only_say("no proxy selection"@),
            },
            KeyAction::TestDelay => match self.selection() {
                Some((_, proxy)) => to_step(Step::Do(Operation::Delay(proxy, url, 5000, true))),
                None => only_say("no proxy selection"@),
            },
            KeyAction::TestAll => to_step(Step::Do(Operation::TestAll(url, 5000))),
            KeyAction::RefreshProxies => to_step(Step::Do(Operation::RefreshProxies)),
            _ => to_step(Step::Done),
        }
    }

    /// Begins what a key asks for; typed lines aside.
    pub fn begin_key_action(&self, action: KeyAction<String>) -> (r: Next)
        ensures
            r@ == self.key_step(action@),
    {
        match action {
            KeyAction::Say(line) => say(line),
            KeyAction::SaveExitChoice => go(Step::Do(Operation::SaveExitChoice)),
            KeyAction::ActivateProfile => go(Step::Do(Operation::Activate)),
            KeyAction::UpdateSelected => go(Step::Do(Operation::UpdateSelected)),
            KeyAction::SwitchProxy => match self.selected_group_and_proxy() {
                Some((group, proxy)) => go(
                    Step::Do(Operation::Switch(group.to_owned(), proxy.to_owned(), true)),
                ),
                None => say("no proxy selection".to_owned()),
            },
            KeyAction::TestDelay => match self.selected_group_and_proxy() {
                Some((_, proxy)) => {
                    let url = self.store.state.verge.default_delay_test_url.clone();
                    go(Step::Do(Operation::Delay(proxy.to_owned(), url, 5000, true)))
                },
                None => say("no proxy selection".to_owned()),
            },
            KeyAction::TestAll => go(
                Step::Do(
                    Operation::TestAll(
                        self.store.state.verge.default_delay_test_url.clone(),
                        5000,
                    ),
                ),
            ),
            KeyAction::RefreshProxies => go(Step::Do(Operation::RefreshProxies)),
            _ => go(Step::Done),
        }
    }
}

proof fn lemma_command_keeps_fit(app: App, c: Command<Seq<char>>)
    requires
        app.valid(),
    ensures
        screen_for(app, c).fits(app.groups(), app.store.state.profiles@.len()),
{
    if let Command::Use(uid) = c {
        profile::lemma_profile_index(app.store.state.profiles@, uid);
        assert(app.store.state.profiles@.len() == app.store.state.profiles.len());
    }
}

fn copy_text(s: &Option<String>) -> (r: Option<String>)
    ensures
        r == *s,
{
    match s {
        Some(t) => Some(t.clone()),
        None => None,
    }
}

/// What follows a save. The state stays changed where it fails.
pub open spec fn after_saving(
    saved: Saved<Seq<char>>,
    verge: VergeConfig,
    result: Result<(), Seq<char>>,
) -> NextModel {
    match result {
        Err(err) => to_step(Step::Fail(err)),
        Ok(_) => match saved {
            Saved::Say(line) => only_say(line),
            Saved::Schedule(reason) => to_step(Step::Do(Operation::Schedule(reason))),
            Saved::Reconnect(line) => to_step(Step::Reconnect(line)),
            Saved::Reapply(line, what) => if verge.enable_system_proxy {
                NextModel {
                    notes: seq![line],
                    step: Step::SetProxy(ProxyPurpose::Again(what)),
                }
            } else {
                only_say(line)
            },
        },
    }
}

pub open spec fn plain_result<A>(r: Result<A, String>) -> Result<A, Seq<char>> {
    match r {
        Ok(a) => Ok(a),
        Err(e) => Err(e@),
    }
}

pub fn after_save(saved: Saved<String>, verge: &VergeConfig, result: Result<(), String>) -> (r: Next)
    ensures
        r@ == after_saving(saved@, *verge, plain_result(result)),
{
    if let Err(err) = result {
        return go(Step::Fail(err));
    }
    match saved {
        Saved::Say(line) => say(line),
        Saved::Schedule(reason) => go(Step::Do(Operation::Schedule(reason))),
        Saved::Reconnect(line) => go(Step::Reconnect(line)),
        Saved::Reapply(line, what) => {
            if verge.enable_system_proxy {
                Next {
                    notes: Notes::one(line),
                    step: Step::SetProxy(ProxyPurpose::Again(what)),
                }
            } else {
                say(line)
            }
        },
    }
}

/// The settings after the system's proxy could not be set.
pub open spec fn proxy_reverted(verge: VergeConfig, purpose: ProxyPurpose<Seq<char>>) -> VergeConfig {
    match purpose {
        ProxyPurpose::Switch(Some(original)) => VergeConfig {
            enable_system_proxy: original,
            ..verge
        },
        _ => verge,
    }
}

/// What follows once the system's proxy was to be set.
pub open spec fn after_setting_proxy(
    purpose: ProxyPurpose<Seq<char>>,
    verge: VergeConfig,
    result: Result<(), Seq<char>>,
) -> NextModel {
    match (purpose, result) {
        (ProxyPurpose::Switch(_), Ok(_)) => to_step(
            Step::Save(
                Saved::Say(
                    "system proxy applied => "@ + number::bool_text(verge.enable_system_proxy),
                ),
            ),
        ),
        (ProxyPurpose::Switch(_), Err(err)) => only_say("apply system proxy failed: "@ + err),
        (ProxyPurpose::Again(what), Ok(_)) => only_say(
            "system proxy re-applied with new "@ + what,
        ),
        (ProxyPurpose::Again(_), Err(err)) => only_say("re-apply system proxy failed: "@ + err),
    }
}

pub fn after_proxy(
    purpose: ProxyPurpose<String>,
    verge: &mut VergeConfig,
    result: Result<(), String>,
) -> (r: Next)
    ensures
        r@ == after_setting_proxy(purpose@, *old(verge), plain_result(result)),
        *final(verge) == if result is Ok {
            *old(verge)
        } else {
            proxy_reverted(*old(verge), purpose@)
        },
{
    match (purpose, result) {
        (ProxyPurpose::Switch(_), Ok(_)) => go(
            Step::Save(
                Saved::Say(
                    text::cat2(
                        "system proxy applied => ",
                        number::bool_str(verge.enable_system_proxy),
                    ),
                ),
            ),
        ),
        (ProxyPurpose::Switch(original), Err(err)) => {
            if let Some(on) = original {
                verge.enable_system_proxy = on;
            }
            say(text::cat2("apply system proxy failed: ", err.as_str()))
        },
        (ProxyPurpose::Again(what), Ok(_)) => say(
            text::cat2("system proxy re-applied with new ", what.as_str()),
        ),
        (ProxyPurpose::Again(_), Err(err)) => say(
            text::cat2("re-apply system proxy failed: ", err.as_str()),
        ),
    }
}

/// What follows once the tunnel was to be switched.
pub open spec fn after_setting_tun(verge: VergeConfig, result: Result<(), Seq<char>>) -> NextModel {
    match result {
        Ok(_) => to_step(
            Step::Save(
                Saved::Say("tun applied => "@ + number::bool_text(verge.enable_tun_mode)),
            ),
        ),
        Err(err) => only_say("apply tun failed: "@ + err),
    }
}

pub fn after_tun(original: bool, verge: &mut VergeConfig, result: Result<(), String>) -> (r: Next)
    ensures
        r@ == after_setting_tun(*old(verge), plain_result(result)),
        *final(verge) == if result is Ok {
            *old(verge)
        } else {
            VergeConfig { enable_tun_mode: original, ..*old(verge) }
        },
{
    match result {
        Ok(_) => go(
            Step::Save(
                Saved::Say(
                    text::cat2("tun applied => ", number::bool_str(verge.enable_tun_mode)),
                ),
            ),
        ),
        Err(err) => {
            verge.enable_tun_mode = original;
            say(text::cat2("apply tun failed: ", err.as_str()))
        },
    }
}

/// The steps of connecting anew.
#[derive(Debug, Clone, Copy, PartialEq, Eq, Structural)]
pub enum ReconnectStep {
    Done,
    /// Make sure that a core answers.
    Ready,
    /// Give it the current profile.
    Apply,
    /// Read its streams.
    Streams,
}

/// Connects to the configured controller, or gives the error.
pub fn recreate_client(mihomo: &mut MihomoClient, verge: &VergeConfig) -> (r: Result<
    ReconnectStep,
    String,
>)
    ensures
        if client::can_connect(verge.controller_url@, verge.secret@) {
            &&& r == Ok::<ReconnectStep, String>(ReconnectStep::Ready)
            &&& client::connects(verge.controller_url@, verge.secret@, *final(mihomo))
        } else {
            &&& r is Err
            &&& r->Err_0@ == if weburl::url_parsed(verge.controller_url@) is None {
                "invalid controller URL: "@ + verge.controller_url@
            } else {
                "invalid authorization header"@
            }
            &&& *final(mihomo) == *old(mihomo)
        },
{
    match MihomoClient::new(verge.controller_url.as_str(), Some(verge.secret.as_str())) {
        Ok(made) => {
            *mihomo = made;
            Ok(ReconnectStep::Ready)
        },
        Err(err) => Err(err.message()),
    }
}

/// The step after a step: the profile is given and the streams are read only where a core answers.
pub open spec fn reconnect_after(step: ReconnectStep, ok: bool) -> ReconnectStep {
    match step {
        ReconnectStep::Done => ReconnectStep::Done,
        ReconnectStep::Ready => if ok {
            ReconnectStep::Apply
        } else {
            ReconnectStep::Done
        },
        ReconnectStep::Apply => ReconnectStep::Streams,
        ReconnectStep::Streams => ReconnectStep::Done,
    }
}

pub fn reconnect_next(step: ReconnectStep, ok: bool) -> (r: ReconnectStep)
    ensures
        r == reconnect_after(step, ok),
{
    match step {
        ReconnectStep::Done => ReconnectStep::Done,
        ReconnectStep::Ready => {
            if ok {
                ReconnectStep::Apply
            } else {
                ReconnectStep::Done
            }
        },
        ReconnectStep::Apply => ReconnectStep::Streams,
        ReconnectStep::Streams => ReconnectStep::Done,
    }
}

/// What follows once the panel was to connect anew.
pub fn after_reconnect(line: String, result: Result<(), String>) -> (r: Next)
    ensures
        match result {
            Ok(_) => r@ == (NextModel {
                notes: seq![line@],
                step: Step::Do(Operation::RefreshProxies),
            }),
            Err(err) => r@ == to_step(Step::Fail(err@)),
        },
{
    match result {
        Ok(_) => Next { notes: Notes::one(line), step: Step::Do(Operation::RefreshProxies) },
        Err(err) => go(Step::Fail(err)),
    }
}

/// What follows the search for a running core: one of our own, where none answers.
pub fn after_adopt(healthy: bool) -> (r: Next)
    ensures
        r@ == if healthy {
            to_step(Step::Done)
        } else {
            to_step(Step::DoBoth(Operation::StartCore, Operation::CheckHealth))
        },
{
    if healthy {
        go(Step::Done)
    } else {
        go(Step::DoBoth(Operation::StartCore, Operation::CheckHealth))
    }
}

/// What follows a wish that a group choose a node.
pub open spec fn after_choosing(
    group: Seq<char>,
    proxy: Seq<char>,
    by_cursor: bool,
    result: Result<(), Seq<char>>,
) -> NextModel {
    match result {
        Ok(_) => NextModel {
            notes: seq![
                (if by_cursor {
                    "switched by cursor: "@
                } else {
                    "switched: "@
                }) + group + " -> "@ + proxy,
            ],
            step: Step::Do(Operation::RefreshProxies),
        },
        Err(err) => only_say("switch failed: "@ + err),
    }
}

pub fn after_switch(group: &str, proxy: &str, by_cursor: bool, result: Result<(), String>) -> (r:
    Next)
    ensures
        r@ == after_choosing(group@, proxy@, by_cursor, plain_result(result)),
{
    match result {
        Ok(_) => {
            let head = if by_cursor {
                "switched by cursor: "
            } else {
                "switched: "
            };
            Next {
                notes: Notes::one(text::cat4(head, group, " -> ", proxy)),
                step: Step::Do(Operation::RefreshProxies),
            }
        },
        Err(err) => say(text::cat2("switch failed: ", err.as_str())),
    }
}

/// What is told of a delay test of one node.
pub open spec fn delay_note(
    node: Seq<char>,
    url: Seq<char>,
    by_cursor: bool,
    result: Result<u64, Seq<char>>,
) -> Seq<char> {
    match result {
        Ok(delay) => {
            let line = "delay "@ + node + ": "@ + number::dec(delay as nat) + " ms"@;
            if by_cursor {
                line + " ("@ + url + ")"@
            } else {
                line
            }
        },
        Err(err) => if by_cursor {
            "delay failed for "@ + node + ": "@ + err
        } else {
            "delay failed: "@ + err
        },
    }
}

/// Takes in the outcome of a delay test of one node. A delay is remembered for the node.
pub fn after_delay(
    delays: &mut StringHashMap<u64>,
    node: &str,
    url: &str,
    by_cursor: bool,
    result: Result<u64, String>,
) -> (r: Notes)
    ensures
        r@ == seq![delay_note(node@, url@, by_cursor, plain_result(result))],
        final(delays)@ == match result {
            Ok(delay) => old(delays)@.insert(node@, delay),
            Err(_) => old(delays)@,
        },
{
    match result {
        Ok(delay) => {
            delays.insert(node.to_owned(), delay);
            let line = text::cat5("delay ", node, ": ", number::to_dec(delay).as_str(), " ms");
            if by_cursor {
                Notes::one(text::cat4(line.as_str(), " (", url, ")"))
            } else {
                Notes::one(line)
            }
        },
        Err(err) => {
            if by_cursor {
                Notes::one(text::cat4("delay failed for ", node, ": ", err.as_str()))
            } else {
                Notes::one(text::cat2("delay failed: ", err.as_str()))
            }
        },
    }
}

/// What is told of a change of the core's mode.
pub fn after_mode(mode: &str, result: Result<(), String>) -> (r: Notes)
    ensures
        r@ == match result {
            Ok(_) => seq!["mode changed to "@ + mode@],
            Err(err) => seq!["change mode failed: "@ + err@],
        },
{
    match result {
        Ok(_) => Notes::one(text::cat2("mode changed to ", mode)),
        Err(err) => Notes::one(text::cat2("change mode failed: ", err.as_str())),
    }
}

/// A switch of the system's proxy that could not be carried out leaves the settings as they were,
/// where the command was to toggle it.
pub proof fn law_failed_toggle_restores(verge: VergeConfig, toggled: VergeConfig)
    requires
        sets(Command::ToggleSysProxy, verge, toggled),
    ensures
        first_step(Command::ToggleSysProxy, verge).step == Step::<Seq<char>>::SetProxy(
            ProxyPurpose::Switch(Some(verge.enable_system_proxy)),
        ),
        proxy_reverted(toggled, ProxyPurpose::Switch(Some(verge.enable_system_proxy))) == verge,
{
}

/// The same holds of the tunnel.
pub proof fn law_failed_tun_toggle_restores(verge: VergeConfig, toggled: VergeConfig)
    requires
        sets(Command::ToggleTun, verge, toggled),
    ensures
        first_step(Command::ToggleTun, verge).step == Step::<Seq<char>>::SetTun(
            verge.enable_tun_mode,
        ),
        (VergeConfig { enable_tun_mode: verge.enable_tun_mode, ..toggled }) == verge,
{
}

/// Keeping the backend is the policy that always keeps it, and not keeping it the one that never
/// does.
pub proof fn law_keep_is_always(keep: bool, before: VergeConfig, after: VergeConfig)
    ensures
        ({
            let policy = if keep {
                config::BackendExitPolicy::AlwaysOn
            } else {
                config::BackendExitPolicy::AlwaysOff
            };
            &&& sets(Command::Keep(keep), before, after) <==> sets(
                Command::Policy(policy),
                before,
                after,
            )
            &&& first_step(Command::Keep(keep), before) == first_step(
                Command::Policy(policy),
                before,
            )
        }),
{
    config::law_keep_is_policy(before, keep);
}

/// The command that stops the backend cleans up first, whatever the settings are.
pub proof fn law_stop_cleans_first(verge: VergeConfig)
    ensures
        first_step(Command::BackendStop, verge).step == Step::DoBoth(
            Operation::<Seq<char>>::Cleanup,
            Operation::StopBackend,
        ),
{
}

/// Only a command that changes settings changes them.
pub proof fn law_other_commands_keep_settings(
    c: Command<Seq<char>>,
    before: VergeConfig,
    after: VergeConfig,
)
    requires
        sets(c, before, after),
        before != after,
    ensures
        first_step(c, before).step is Save || first_step(c, before).step is SetProxy || first_step(
            c,
            before,
        ).step is SetTun,
{
}

/// How many steps a command takes from a step on, at most.
pub open spec fn step_rank(step: Step<Seq<char>>) -> nat {
    match step {
        Step::Done => 0,
        Step::Fail(_) => 0,
        Step::Do(Operation::Switch(_, _, _)) => 2,
        Step::Do(_) => 1,
        Step::DoBoth(_, _) => 1,
        Step::SetProxy(ProxyPurpose::Switch(_)) => 2,
        Step::SetProxy(ProxyPurpose::Again(_)) => 1,
        Step::Save(Saved::Say(_)) => 1,
        Step::Save(Saved::Schedule(_)) => 2,
        Step::Save(Saved::Reapply(_, _)) => 2,
        Step::Save(Saved::Reconnect(_)) => 3,
        Step::SetTun(_) => 2,
        Step::Reconnect(_) => 2,
        Step::Adopt => 2,
    }
}

/// Every command comes to its end, whatever comes of its steps.
pub proof fn law_commands_end(
    saved: Saved<Seq<char>>,
    purpose: ProxyPurpose<Seq<char>>,
    verge: VergeConfig,
    group: Seq<char>,
    proxy: Seq<char>,
    flag: bool,
    result: Result<(), Seq<char>>,
)
    ensures
        step_rank(after_saving(saved, verge, result).step) < step_rank(Step::Save(saved)),
        step_rank(after_setting_proxy(purpose, verge, result).step) < step_rank(
            Step::SetProxy(purpose),
        ),
        step_rank(after_setting_tun(verge, result).step) < step_rank(Step::SetTun(flag)),
        step_rank(after_choosing(group, proxy, flag, result).step) < step_rank(
            Step::Do(Operation::Switch(group, proxy, flag)),
        ),
        step_rank(Step::Do(Operation::RefreshProxies)) < step_rank(Step::Reconnect(group)),
        step_rank(Step::DoBoth(Operation::StartCore, Operation::CheckHealth)) < step_rank(
            Step::Adopt,
        ),
{
}

} // verus!
