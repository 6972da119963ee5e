//! The state of the running panel, and what a key does to it.

use crate::bulk::BulkDelay;
use crate::bulk::BulkModel;
use crate::client::ConnectionsResp;
use crate::client::MihomoClient;
use crate::client::TrafficResp;
use crate::config::VergeConfig;
use crate::figures;
use crate::profile::AppState;
use crate::profile::ProfileItem;
use crate::profile::StateStore;
use crate::proxies;
use crate::proxies::ProxyGroupView;
use crate::screen;
use crate::screen::ExitConfirmChoice;
use crate::screen::ProxyFocus;
use crate::screen::Screen;
use crate::screen::Tab;
use crate::text;
use std::collections::VecDeque;
use vstd::hash_map::StringHashMap;
use vstd::prelude::*;

verus! {

pub const LOG_LIMIT: usize = 200;

pub const TRAFFIC_HISTORY_LIMIT: usize = 120;

pub struct App {
    pub screen: Screen,
    pub command_input: String,
    pub bootstrap_pending: bool,
    pub tick_count: u64,
    pub store: StateStore,
    pub mihomo: MihomoClient,
    pub proxy_groups: Vec<ProxyGroupView>,
    pub traffic: TrafficResp,
    pub connections: ConnectionsResp,
    pub traffic_up_history: VecDeque<u64>,
    pub traffic_down_history: VecDeque<u64>,
    pub delay_cache: StringHashMap<u64>,
    pub bulk: BulkDelay,
    pub health_probe_failures: u8,
    pub direct_mode_logged: bool,
    pub auto_update_running: bool,
    pub file_log_path: Option<String>,
    pub session_log_path: Option<String>,
    pub logs: VecDeque<String>,
}

/// A queue that holds no more than a number of values, after one more: the oldest makes room.
pub open spec fn capped_push<T>(queue: Seq<T>, value: T, cap: nat) -> Seq<T> {
    if queue.len() >= cap && queue.len() > 0 {
        queue.skip(1).push(value)
    } else {
        queue.push(value)
    }
}

pub fn push_capped(queue: &mut VecDeque<u64>, value: u64, cap: usize)
    ensures
        final(queue)@ == capped_push(old(queue)@, value, cap as nat),
{
    let ghost before = queue@;
    if queue.len() >= cap {
        let _ = queue.pop_front();
        assert(before.len() > 0 ==> queue@ == before.skip(1));
    }
    queue.push_back(value);
}

/// A capped queue never grows over its limit, and the newest value is in it.
pub proof fn law_queue_stays_capped<T>(queue: Seq<T>, value: T, cap: nat)
    requires
        0 < cap,
        queue.len() <= cap,
    ensures
        capped_push(queue, value, cap).len() <= cap,
        capped_push(queue, value, cap).last() == value,
{
}

/// The settings in a state.
pub open spec fn with_verge(app: App, verge: VergeConfig) -> App {
    App {
        store: StateStore { state: AppState { verge, ..app.store.state }, ..app.store },
        ..app
    }
}

/// A line of the log.
pub open spec fn log_line(seconds: nat, message: Seq<char>) -> Seq<char> {
    "["@ + figures::time_of_day(seconds) + "] "@ + message
}

#[derive(Debug, Clone, Copy, PartialEq, Eq, Structural)]
pub enum Key {
    Char(char),
    Esc,
    Enter,
    Tab,
    BackTab,
    Left,
    Right,
    Up,
    Down,
    Backspace,
    Other,
}

/// What a key asks the program to do, beyond changing what is shown.
#[derive(Debug)]
pub enum KeyAction<T> {
    Nothing,
    Say(T),
    /// Keep the answer on what happens to the backend.
    SaveExitChoice,
    /// Run a typed line.
    Run(T),
    ActivateProfile,
    UpdateSelected,
    SwitchProxy,
    TestDelay,
    TestAll,
    RefreshProxies,
}

impl View for KeyAction<String> {
    type V = KeyAction<Seq<char>>;

    open spec fn view(&self) -> KeyAction<Seq<char>> {
        match self {
            KeyAction::Nothing => KeyAction::Nothing,
            KeyAction::Say(s) => KeyAction::Say(s@),
            KeyAction::SaveExitChoice => KeyAction::SaveExitChoice,
            KeyAction::Run(s) => KeyAction::Run(s@),
            KeyAction::ActivateProfile => KeyAction::ActivateProfile,
            KeyAction::UpdateSelected => KeyAction::UpdateSelected,
            KeyAction::SwitchProxy => KeyAction::SwitchProxy,
            KeyAction::TestDelay => KeyAction::TestDelay,
            KeyAction::TestAll => KeyAction::TestAll,
            KeyAction::RefreshProxies => KeyAction::RefreshProxies,
        }
    }
}

/// The screen, the typed line and the remembered answer after a key, and what is to be done.
pub struct KeyEffect {
    pub screen: Screen,
    pub input: Seq<char>,
    pub keep: bool,
    pub action: KeyAction<Seq<char>>,
}

pub open spec fn goes_up(key: Key) -> bool {
    key == Key::Up || key == Key::Char('k')
}

pub open spec fn goes_down(key: Key) -> bool {
    key == Key::Down || key == Key::Char('j')
}

pub open spec fn goes_left(key: Key) -> bool {
    key == Key::Left || key == Key::Char('h')
}

pub open spec fn goes_right(key: Key) -> bool {
    key == Key::Right || key == Key::Char('l')
}

/// What a key leads to: a new typed line only where it changes.
pub struct KeyOutcome {
    pub screen: Screen,
    pub input: Option<String>,
    pub keep: bool,
    pub action: KeyAction<String>,
}

impl KeyOutcome {
    /// Whether this is the effect `e`, where `input` was typed before.
    pub open spec fn gives(self, e: KeyEffect, input: Seq<char>) -> bool {
        &&& self.screen == e.screen
        &&& e.input == match self.input {
            Some(s) => s@,
            None => input,
        }
        &&& self.keep == e.keep
        &&& self.action@ == e.action
    }
}

pub open spec fn opt_gives(o: Option<KeyOutcome>, e: Option<KeyEffect>, input: Seq<char>) -> bool {
    match o {
        Some(outcome) => e is Some && outcome.gives(e->0, input),
        None => e is None,
    }
}

fn is_up(key: Key) -> (r: bool)
    ensures
        r == goes_up(key),
{
    key == Key::Up || key == Key::Char('k')
}

fn is_down(key: Key) -> (r: bool)
    ensures
        r == goes_down(key),
{
    key == Key::Down || key == Key::Char('j')
}

fn is_left(key: Key) -> (r: bool)
    ensures
        r == goes_left(key),
{
    key == Key::Left || key == Key::Char('h')
}

fn is_right(key: Key) -> (r: bool)
    ensures
        r == goes_right(key),
{
    key == Key::Right || key == Key::Char('l')
}

fn no_text() -> (r: String)
    ensures
        r@ == Seq::<char>::empty(),
{
    let r = String::new();
    assert(r@ =~= Seq::<char>::empty());
    r
}

/// No key makes the screen point at something that is not there.
pub proof fn lemma_key_keeps_fit(app: App, key: Key)
    requires
        app.screen.fits(app.groups(), app.store.state.profiles@.len()),
    ensures
        app.key_effect(key).screen.fits(app.groups(), app.store.state.profiles@.len()),
{
    let s = app.screen;
    let n = app.store.state.profiles@.len();
    if n > 0 {
        screen::law_wrap_returns(s.selected_profile_idx as int, n as int, 1);
        screen::law_wrap_returns(s.selected_profile_idx as int, n as int, -1);
    }
    assert(app.proxy_groups@.len() == app.proxy_groups.len());
    assert forall|i: int| 0 <= i < app.groups().len() implies (
    #[trigger] app.groups()[i]).candidates.len() <= usize::MAX by {
        assert(app.groups()[i] == app.proxy_groups@[i]@);
        assert(app.proxy_groups@[i].candidates@.len() == app.proxy_groups@[i].candidates.len());
    }
    screen::lemma_group_moved_fits(s, app.groups(), 1);
    screen::lemma_group_moved_fits(s, app.groups(), -1);
}

impl App {
    /// The panel as it starts.
    pub fn new(store: StateStore, mihomo: MihomoClient) -> (r: App)
        ensures
            r.screen == Screen::initial(),
            r.store == store,
            r.mihomo == mihomo,
            r.bootstrap_pending,
            r.tick_count == 0,
            r.command_input@ == Seq::<char>::empty(),
            r.proxy_groups@.len() == 0,
            r.traffic == (TrafficResp { up: 0, down: 0 }),
            r.connections == (ConnectionsResp { upload_total: 0, download_total: 0 }),
            r.traffic_up_history@.len() == 0,
            r.traffic_down_history@.len() == 0,
            r.delay_cache@ == Map::<Seq<char>, u64>::empty(),
            r.bulk@ == BulkModel::initial(),
            r.health_probe_failures == 0,
            !r.direct_mode_logged,
            !r.auto_update_running,
            r.file_log_path is None,
            r.session_log_path is None,
            r.logs@.len() == 0,
            r.valid(),
    {
        let app = App {
            screen: Screen::new(),
            command_input: String::new(),
            bootstrap_pending: true,
            tick_count: 0,
            store,
            mihomo,
            proxy_groups: Vec::new(),
            traffic: TrafficResp { up: 0, down: 0 },
            connections: ConnectionsResp { upload_total: 0, download_total: 0 },
            traffic_up_history: VecDeque::new(),
            traffic_down_history: VecDeque::new(),
            delay_cache: StringHashMap::new(),
            bulk: BulkDelay::new(),
            health_probe_failures: 0,
            direct_mode_logged: false,
            auto_update_running: false,
            file_log_path: None,
            session_log_path: None,
            logs: VecDeque::new(),
        };
        assert(app.command_input@ =~= Seq::<char>::empty());
        app
    }

    pub open spec fn groups(self) -> Seq<proxies::Group> {
        proxies::groups_view(self.proxy_groups@)
    }

    pub open spec fn verge(self) -> VergeConfig {
        self.store.state.verge
    }

    /// What holds of the state at all times.
    pub open spec fn valid(self) -> bool {
        &&& self.screen.fits(self.groups(), self.store.state.profiles@.len())
        &&& self.traffic_up_history@.len() <= TRAFFIC_HISTORY_LIMIT
        &&& self.traffic_down_history@.len() <= TRAFFIC_HISTORY_LIMIT
        &&& self.logs@.len() <= LOG_LIMIT
    }

    /// Writes a line to the log, and gives the line for the files.
    pub fn push_log(&mut self, seconds: u64, message: &str) -> (line: String)
        ensures
            line@ == log_line(seconds as nat, message@),
            final(self).logs@ == capped_push(old(self).logs@, line, LOG_LIMIT as nat),
            *final(self) == (App { logs: final(self).logs, ..*old(self) }),
            old(self).valid() ==> final(self).valid(),
    {
        let ghost before = self.logs@;
        if self.logs.len() >= LOG_LIMIT {
            let _ = self.logs.pop_front();
            assert(self.logs@ == before.skip(1));
        }
        let stamp = figures::epoch_hms(seconds);
        let line = text::cat4("[", stamp.as_str(), "] ", message);
        self.logs.push_back(line.clone());
        line
    }

    /// Records what flows now.
    pub fn push_traffic_samples(&mut self)
        ensures
            final(self).traffic_up_history@ == capped_push(
                old(self).traffic_up_history@,
                old(self).traffic.up,
                TRAFFIC_HISTORY_LIMIT as nat,
            ),
            final(self).traffic_down_history@ == capped_push(
                old(self).traffic_down_history@,
                old(self).traffic.down,
                TRAFFIC_HISTORY_LIMIT as nat,
            ),
            *final(self) == (App {
                traffic_up_history: final(self).traffic_up_history,
                traffic_down_history: final(self).traffic_down_history,
                ..*old(self)
            }),
            old(self).valid() ==> final(self).valid(),
    {
        push_capped(&mut self.traffic_up_history, self.traffic.up, TRAFFIC_HISTORY_LIMIT);
        push_capped(&mut self.traffic_down_history, self.traffic.down, TRAFFIC_HISTORY_LIMIT);
    }

    pub fn effective_keep_core_on_exit(&self) -> (r: bool)
        ensures
            r == self.screen.keeps_backend(
                self.verge().backend_exit_policy,
                self.verge().keep_core_on_exit,
            ),
    {
        self.screen.effective_keep_core_on_exit(
            self.store.state.verge.backend_exit_policy,
            self.store.state.verge.keep_core_on_exit,
        )
    }

    pub fn selected_profile(&self) -> (r: Option<&ProfileItem>)
        ensures
            match r {
                Some(p) => self.screen.selected_profile_idx < self.store.state.profiles@.len() && *p
                    == self.store.state.profiles@[self.screen.selected_profile_idx as int],
                None => self.screen.selected_profile_idx >= self.store.state.profiles@.len(),
            },
    {
        if self.screen.selected_profile_idx < self.store.state.profiles.len() {
            Some(&self.store.state.profiles[self.screen.selected_profile_idx])
        } else {
            None
        }
    }

    /// The chosen group and the chosen candidate in it.
    pub open spec fn selection(self) -> Option<(Seq<char>, Seq<char>)> {
        let g = self.screen.selected_group_idx;
        let p = self.screen.selected_proxy_idx;
        if g < self.groups().len() && p < self.groups()[g as int].candidates.len() {
            Some((self.groups()[g as int].name, self.groups()[g as int].candidates[p as int]))
        } else {
            None
        }
    }

    pub fn selected_group_and_proxy(&self) -> (r: Option<(&str, &str)>)
        ensures
            match r {
                Some((group, proxy)) => self.selection() == Some((group@, proxy@)),
                None => self.selection() is None,
            },
    {
        let g: usize = self.screen.selected_group_idx;
        let p: usize = self.screen.selected_proxy_idx;
        if g >= self.proxy_groups.len() {
            return None;
        }
        let group = &self.proxy_groups[g];
        assert(self.groups()[g as int] == group@);
        if p >= group.candidates.len() {
            return None;
        }
        assert(group@.candidates[p as int] == group.candidates@[p as int]@);
        Some((group.name.as_str(), group.candidates[p].as_str()))
    }

    /// Whether the chosen group has candidates.
    pub open spec fn has_candidates(self) -> bool {
        &&& self.screen.selected_group_idx < self.groups().len()
        &&& self.groups()[self.screen.selected_group_idx as int].candidates.len() > 0
    }

    fn group_has_candidates(&self) -> (r: bool)
        ensures
            r == self.has_candidates(),
    {
        let g: usize = self.screen.selected_group_idx;
        if g >= self.proxy_groups.len() {
            return false;
        }
        assert(self.groups()[g as int] == self.proxy_groups@[g as int]@);
        self.proxy_groups[g].candidates.len() > 0
    }

    /// Takes in new groups.
    pub fn take_groups(&mut self, groups: Vec<ProxyGroupView>)
        ensures
            final(self).proxy_groups == groups,
            final(self).screen == old(self).screen.synced(proxies::groups_view(groups@)),
            *final(self) == (App {
                proxy_groups: final(self).proxy_groups,
                screen: final(self).screen,
                ..*old(self)
            }),
            old(self).valid() ==> final(self).valid(),
    {
        self.proxy_groups = groups;
        self.screen.sync_proxy_cursor(&self.proxy_groups);
    }

    /// The effect of a key when nothing is changed but the screen.
    pub open spec fn showing(self, screen: Screen) -> KeyEffect {
        KeyEffect {
            screen,
            input: self.command_input@,
            keep: self.verge().keep_core_on_exit,
            action: KeyAction::Nothing,
        }
    }

    /// The effect of a key that only asks for something.
    pub open spec fn asking(self, action: KeyAction<Seq<char>>) -> KeyEffect {
        KeyEffect { action, ..self.showing(self.screen) }
    }

    /// Keys while the user is asked what happens to the backend.
    pub open spec fn exit_key(self, key: Key) -> KeyEffect {
        let s = self.screen;
        if key == Key::Esc {
            self.showing(Screen { show_exit_confirm_overlay: false, ..s })
        } else if goes_left(key) || goes_up(key) || key == Key::BackTab {
            self.showing(
                Screen { exit_confirm_choice: ExitConfirmChoice::KeepBackend, ..s },
            )
        } else if goes_right(key) || goes_down(key) || key == Key::Tab {
            self.showing(
                Screen { exit_confirm_choice: ExitConfirmChoice::StopBackend, ..s },
            )
        } else if key == Key::Enter {
            KeyEffect {
                keep: s.exit_confirm_choice == ExitConfirmChoice::KeepBackend,
                action: KeyAction::SaveExitChoice,
                ..self.showing(s.confirmed())
            }
        } else {
            self.showing(s)
        }
    }

    /// Keys while a command is typed.
    pub open spec fn typing_key(self, key: Key) -> KeyEffect {
        let input = self.command_input@;
        let left = Screen { command_mode: false, ..self.screen };
        match key {
            Key::Esc => KeyEffect { input: seq![], ..self.showing(left) },
            Key::Backspace => KeyEffect {
                input: if input.len() == 0 {
                    input
                } else {
                    input.drop_last()
                },
                ..self.showing(self.screen)
            },
            Key::Enter => KeyEffect {
                input: seq![],
                action: if text::trimmed(input).len() == 0 {
                    KeyAction::Nothing
                } else {
                    KeyAction::Run(text::trimmed(input))
                },
                ..self.showing(left)
            },
            Key::Char(c) => KeyEffect { input: input.push(c), ..self.showing(self.screen) },
            _ => self.showing(self.screen),
        }
    }

    /// Keys that the list of profiles takes for itself.
    pub open spec fn profiles_key(self, key: Key) -> Option<KeyEffect> {
        let n = self.store.state.profiles@.len();
        if goes_up(key) {
            Some(self.showing(self.screen.profile_moved(n, -1)))
        } else if goes_down(key) {
            Some(self.showing(self.screen.profile_moved(n, 1)))
        } else if key == Key::Enter {
            Some(self.asking(KeyAction::ActivateProfile))
        } else if key == Key::Char('u') {
            Some(self.asking(KeyAction::UpdateSelected))
        } else {
            None
        }
    }

    /// Keys that the list of groups takes for itself.
    pub open spec fn groups_key(self, key: Key) -> Option<KeyEffect> {
        if goes_up(key) {
            Some(self.showing(self.screen.group_moved(self.groups(), -1)))
        } else if goes_down(key) {
            Some(self.showing(self.screen.group_moved(self.groups(), 1)))
        } else if key == Key::Enter {
            if self.has_candidates() {
                Some(
                    self.showing(Screen { proxy_focus: ProxyFocus::Candidates, ..self.screen }),
                )
            } else {
                Some(self.asking(KeyAction::Say("selected group has no candidates"@)))
            }
        } else {
            None
        }
    }

    /// Keys that the list of candidates takes for itself.
    pub open spec fn candidates_key(self, key: Key) -> Option<KeyEffect> {
        if goes_left(key) || key == Key::Esc || key == Key::Char('j') {
            Some(self.showing(Screen { proxy_focus: ProxyFocus::Groups, ..self.screen }))
        } else if goes_up(key) || key == Key::Char('[') {
            Some(self.showing(self.screen.candidate_moved(self.groups(), -1)))
        } else if key == Key::Down || key == Key::Char(']') {
            Some(self.showing(self.screen.candidate_moved(self.groups(), 1)))
        } else if key == Key::Enter {
            Some(self.asking(KeyAction::SwitchProxy))
        } else if key == Key::Char('t') {
            Some(self.asking(KeyAction::TestDelay))
        } else if key == Key::Char('T') {
            Some(self.asking(KeyAction::TestAll))
        } else {
            None
        }
    }

    /// Keys that mean the same on every tab.
    pub open spec fn common_key(self, key: Key) -> KeyEffect {
        let s = self.screen;
        let locked = screen::tab_at(s.tab_index as int) == Tab::Proxies && s.proxy_focus
            == ProxyFocus::Candidates;
        if key == Key::Char('q') {
            self.showing(
                s.leaving(self.verge().backend_exit_policy, self.verge().keep_core_on_exit),
            )
        } else if key == Key::Char(':') {
            KeyEffect { input: seq![], ..self.showing(Screen { command_mode: true, ..s }) }
        } else if key == Key::Char('r') {
            self.asking(KeyAction::RefreshProxies)
        } else if !locked && (key == Key::Tab || goes_right(key)) {
            self.showing(s.at_next_tab())
        } else if !locked && (key == Key::BackTab || goes_left(key)) {
            self.showing(s.at_previous_tab())
        } else {
            self.showing(s)
        }
    }

    /// The keys of the shown tab, where it takes the key for itself.
    pub open spec fn tab_key(self, key: Key) -> Option<KeyEffect> {
        match screen::tab_at(self.screen.tab_index as int) {
            Tab::Profiles => self.profiles_key(key),
            Tab::Proxies => match self.screen.proxy_focus {
                ProxyFocus::Groups => self.groups_key(key),
                ProxyFocus::Candidates => self.candidates_key(key),
            },
            _ => None,
        }
    }

    pub open spec fn key_effect(self, key: Key) -> KeyEffect {
        if self.screen.show_exit_confirm_overlay {
            self.exit_key(key)
        } else if self.screen.show_help_overlay {
            self.showing(
                Screen {
                    show_help_overlay: key != Key::Esc,
                    ..self.screen
                },
            )
        } else if self.screen.command_mode {
            self.typing_key(key)
        } else {
            match self.tab_key(key) {
                Some(effect) => effect,
                None => self.common_key(key),
            }
        }
    }

    /// Whether `after` and `action` are the effect `e` on this state.
    pub open spec fn has_effect(
        self,
        e: KeyEffect,
        after: App,
        action: KeyAction<Seq<char>>,
    ) -> bool {
        &&& after.screen == e.screen
        &&& after.command_input@ == e.input
        &&& action == e.action
        &&& after == with_verge(
            App { screen: after.screen, command_input: after.command_input, ..self },
            VergeConfig { keep_core_on_exit: e.keep, ..self.verge() },
        )
    }

    fn exit_outcome(&self, key: Key) -> (r: KeyOutcome)
        ensures
            r.gives(self.exit_key(key), self.command_input@),
    {
        let mut screen = self.screen;
        if key == Key::Esc {
            screen.show_exit_confirm_overlay = false;
        } else if is_left(key) || is_up(key) || key == Key::BackTab {
            screen.exit_confirm_choice = ExitConfirmChoice::KeepBackend;
        } else if is_right(key) || is_down(key) || key == Key::Tab {
            screen.exit_confirm_choice = ExitConfirmChoice::StopBackend;
        } else if key == Key::Enter {
            let keep = screen.confirm_quit_by_choice();
            return KeyOutcome { screen, input: None, keep, action: KeyAction::SaveExitChoice };
        }
        self.shown(screen)
    }

    /// The outcome of a key that only changes the screen.
    fn shown(&self, screen: Screen) -> (r: KeyOutcome)
        ensures
            r.gives(self.showing(screen), self.command_input@),
    {
        KeyOutcome {
            screen,
            input: None,
            keep: self.store.state.verge.keep_core_on_exit,
            action: KeyAction::Nothing,
        }
    }

    /// The outcome of a key that only asks for something.
    fn asked(&self, action: KeyAction<String>) -> (r: KeyOutcome)
        ensures
            r.gives(self.asking(action@), self.command_input@),
    {
        KeyOutcome {
            screen: self.screen,
            input: None,
            keep: self.store.state.verge.keep_core_on_exit,
            action,
        }
    }

    pub fn handle_command_mode_key(&self, key: Key) -> (r: KeyOutcome)
        ensures
            r.gives(self.typing_key(key), self.command_input@),
    {
        let mut screen = self.screen;
        let keep = self.store.state.verge.keep_core_on_exit;
        match key {
            Key::Esc => {
                screen.command_mode = false;
                KeyOutcome { screen, input: Some(no_text()), keep, action: KeyAction::Nothing }
            },
            Key::Backspace => {
                let mut input = self.command_input.clone();
                let _ = input.pop();
                assert(self.command_input@.len() == 0 ==> input@ =~= self.command_input@);
                KeyOutcome { screen, input: Some(input), keep, action: KeyAction::Nothing }
            },
            Key::Enter => {
                let line = text::trim(self.command_input.as_str());
                screen.command_mode = false;
                let action = if line.as_str().is_empty() {
                    KeyAction::Nothing
                } else {
                    KeyAction::Run(line)
                };
                KeyOutcome { screen, input: Some(no_text()), keep, action }
            },
            Key::Char(c) => {
                let mut input = self.command_input.clone();
                input.push(c);
                KeyOutcome { screen, input: Some(input), keep, action: KeyAction::Nothing }
            },
            _ => self.shown(screen),
        }
    }

    fn profiles_outcome(&self, key: Key) -> (r: Option<KeyOutcome>)
        ensures
            opt_gives(r, self.profiles_key(key), self.command_input@),
    {
        let mut screen = self.screen;
        let count: usize = self.store.state.profiles.len();
        if is_up(key) {
            screen.move_profile_cursor(count, -1);
            Some(self.shown(screen))
        } else if is_down(key) {
            screen.move_profile_cursor(count, 1);
            Some(self.shown(screen))
        } else if key == Key::Enter {
            Some(self.asked(KeyAction::ActivateProfile))
        } else if key == Key::Char('u') {
            Some(self.asked(KeyAction::UpdateSelected))
        } else {
            None
        }
    }

    fn groups_outcome(&self, key: Key) -> (r: Option<KeyOutcome>)
        requires
            self.screen.group_fits(self.groups()),
        ensures
            opt_gives(r, self.groups_key(key), self.command_input@),
            r is Some ==> r->0.screen.group_fits(self.groups()),
    {
        let mut screen = self.screen;
        if is_up(key) {
            screen.move_group_cursor(&self.proxy_groups, -1);
            Some(self.shown(screen))
        } else if is_down(key) {
            screen.move_group_cursor(&self.proxy_groups, 1);
            Some(self.shown(screen))
        } else if key == Key::Enter {
            if self.group_has_candidates() {
                screen.proxy_focus = ProxyFocus::Candidates;
                Some(self.shown(screen))
            } else {
                Some(self.asked(KeyAction::Say("selected group has no candidates".to_owned())))
            }
        } else {
            None
        }
    }

    fn candidates_outcome(&self, key: Key) -> (r: Option<KeyOutcome>)
        requires
            self.screen.group_fits(self.groups()),
        ensures
            opt_gives(r, self.candidates_key(key), self.command_input@),
            r is Some ==> r->0.screen.group_fits(self.groups()),
    {
        let mut screen = self.screen;
        if is_left(key) || key == Key::Esc || key == Key::Char('j') {
            screen.proxy_focus = ProxyFocus::Groups;
            Some(self.shown(screen))
        } else if is_up(key) || key == Key::Char('[') {
            screen.move_candidate_cursor(&self.proxy_groups, -1);
            Some(self.shown(screen))
        } else if key == Key::Down || key == Key::Char(']') {
            screen.move_candidate_cursor(&self.proxy_groups, 1);
            Some(self.shown(screen))
        } else if key == Key::Enter {
            Some(self.asked(KeyAction::SwitchProxy))
        } else if key == Key::Char('t') {
            Some(self.asked(KeyAction::TestDelay))
        } else if key == Key::Char('T') {
            Some(self.asked(KeyAction::TestAll))
        } else {
            None
        }
    }

    fn common_outcome(&self, key: Key) -> (r: KeyOutcome)
        requires
            self.screen.tab_index < screen::TAB_COUNT,
        ensures
            r.gives(self.common_key(key), self.command_input@),
    {
        let mut screen = self.screen;
        let keep = self.store.state.verge.keep_core_on_exit;
        let lock_tab_switch = screen.current_tab() == Tab::Proxies && screen.proxy_focus
            == ProxyFocus::Candidates;
        if key == Key::Char('q') {
            screen.request_quit(self.store.state.verge.backend_exit_policy, keep);
        } else if key == Key::Char(':') {
            screen.command_mode = true;
            return KeyOutcome {
                screen,
                input: Some(no_text()),
                keep,
                action: KeyAction::Nothing,
            };
        } else if key == Key::Char('r') {
            return self.asked(KeyAction::RefreshProxies);
        } else if !lock_tab_switch && (key == Key::Tab || is_right(key)) {
            screen.switch_tab_next();
        } else if !lock_tab_switch && (key == Key::BackTab || is_left(key)) {
            screen.switch_tab_prev();
        }
        self.shown(screen)
    }

    fn tab_outcome(&self, key: Key) -> (r: Option<KeyOutcome>)
        requires
            self.screen.group_fits(self.groups()),
        ensures
            opt_gives(r, self.tab_key(key), self.command_input@),
    {
        match self.screen.current_tab() {
            Tab::Profiles => self.profiles_outcome(key),
            Tab::Proxies => match self.screen.proxy_focus {
                ProxyFocus::Groups => self.groups_outcome(key),
                ProxyFocus::Candidates => self.candidates_outcome(key),
            },
            _ => None,
        }
    }

    fn key_outcome(&self, key: Key) -> (r: KeyOutcome)
        requires
            self.screen.group_fits(self.groups()),
            self.screen.tab_index < screen::TAB_COUNT,
        ensures
            r.gives(self.key_effect(key), self.command_input@),
    {
        if self.screen.show_exit_confirm_overlay {
            return self.exit_outcome(key);
        }
        if self.screen.show_help_overlay {
            let mut screen = self.screen;
            screen.show_help_overlay = !(key == Key::Esc);
            return self.shown(screen);
        }
        if self.screen.command_mode {
            return self.handle_command_mode_key(key);
        }
        match self.tab_outcome(key) {
            Some(outcome) => outcome,
            None => self.common_outcome(key),
        }
    }

    /// Reacts to a key that was pressed.
    pub fn handle_key(&mut self, key: Key) -> (r: KeyAction<String>)
        requires
            old(self).valid(),
        ensures
            old(self).has_effect(old(self).key_effect(key), *final(self), r@),
            final(self).valid(),
    {
        proof {
            lemma_key_keeps_fit(*self, key);
        }
        let outcome = self.key_outcome(key);
        self.screen = outcome.screen;
        self.store.state.verge.keep_core_on_exit = outcome.keep;
        if let Some(input) = outcome.input {
            self.command_input = input;
        }
        outcome.action
    }
}

/// While the candidates have the focus, no key leads to another tab.
pub proof fn law_focus_locks_tabs(app: App, key: Key)
    requires
        app.valid(),
        app.screen.proxy_focus == ProxyFocus::Candidates,
    ensures
        app.key_effect(key).screen.tab_index == app.screen.tab_index,
{
}

/// Escape closes whatever is open: the question, the help or the command line. Until then the help
/// lets no other key through.
pub proof fn law_escape_closes(app: App, key: Key)
    ensures
        app.screen.show_exit_confirm_overlay ==> !app.key_effect(
            Key::Esc,
        ).screen.show_exit_confirm_overlay,
        !app.screen.show_exit_confirm_overlay && app.screen.show_help_overlay ==> !app.key_effect(
            Key::Esc,
        ).screen.show_help_overlay,
        !app.screen.show_exit_confirm_overlay && !app.screen.show_help_overlay
            && app.screen.command_mode ==> !app.key_effect(Key::Esc).screen.command_mode,
        !app.screen.show_exit_confirm_overlay && app.screen.show_help_overlay && key != Key::Esc
            ==> app.key_effect(key) == app.asking(KeyAction::Nothing),
{
}

/// What is typed is what is run: a line of plain characters, then Enter.
pub proof fn law_typing_runs_line(app: App, c: char)
    requires
        app.screen.command_mode,
        !app.screen.show_exit_confirm_overlay,
        !app.screen.show_help_overlay,
    ensures
        app.key_effect(Key::Char(c)).input == app.command_input@.push(c),
        app.key_effect(Key::Char(c)).screen == app.screen,
        app.key_effect(Key::Enter).input.len() == 0,
        !app.key_effect(Key::Enter).screen.command_mode,
        text::trimmed(app.command_input@).len() > 0 ==> app.key_effect(Key::Enter).action
            == KeyAction::Run(text::trimmed(app.command_input@)),
{
}

} // verus!
