//! What the user sees and has chosen: tabs, cursors, overlays.

use crate::config::BackendExitPolicy;
use crate::proxies;
use crate::proxies::ProxyGroupView;
use crate::text;
use vstd::prelude::*;

verus! {

#[derive(Debug, Clone, Copy, PartialEq, Eq, Structural)]
pub enum Tab {
    Overview,
    Profiles,
    Proxies,
    Logs,
}

impl Tab {
    pub open spec fn spec_title(self) -> Seq<char> {
        match self {
            Tab::Overview => "Overview"@,
            Tab::Profiles => "Profiles"@,
            Tab::Proxies => "Proxies"@,
            Tab::Logs => "Logs"@,
        }
    }

    pub fn title(self) -> (r: &'static str)
        ensures
            r@ == self.spec_title(),
    {
        match self {
            Tab::Overview => "Overview",
            Tab::Profiles => "Profiles",
            Tab::Proxies => "Proxies",
            Tab::Logs => "Logs",
        }
    }
}

pub const TAB_COUNT: usize = 4;

/// The tab at a place in the row of tabs.
pub open spec fn tab_at(index: int) -> Tab {
    if index == 0 {
        Tab::Overview
    } else if index == 1 {
        Tab::Profiles
    } else if index == 2 {
        Tab::Proxies
    } else {
        Tab::Logs
    }
}

#[derive(Debug, Clone, Copy, PartialEq, Eq, Structural)]
pub enum ProxyFocus {
    Groups,
    Candidates,
}

#[derive(Debug, Clone, Copy, PartialEq, Eq, Structural)]
pub enum ExitConfirmChoice {
    KeepBackend,
    StopBackend,
}

#[derive(Debug, Clone, Copy, PartialEq, Eq, Structural)]
pub struct Screen {
    pub tab_index: usize,
    pub command_mode: bool,
    pub show_help_overlay: bool,
    pub show_exit_confirm_overlay: bool,
    pub exit_confirm_choice: ExitConfirmChoice,
    pub exit_keep_backend_override: Option<bool>,
    pub should_quit: bool,
    pub selected_group_idx: usize,
    pub selected_proxy_idx: usize,
    pub proxy_focus: ProxyFocus,
    pub selected_profile_idx: usize,
}

/// `curr` moved by `delta` in a ring of `len` places.
pub open spec fn wrapped(curr: int, len: int, delta: int) -> int {
    if len == 0 {
        0
    } else {
        (curr + delta) % len
    }
}

pub fn wrap_index(curr: usize, len: usize, delta: isize) -> (r: usize)
    ensures
        r == wrapped(curr as int, len as int, delta as int),
        len > 0 ==> r < len,
{
    if len == 0 {
        return 0;
    }
    let at: usize = curr % len;
    let step: usize = if delta >= 0 {
        (delta as usize) % len
    } else {
        let back: usize = ((-(delta + 1)) as usize) % len + 1;
        len - back
    };
    proof {
        let l = len as int;
        if delta >= 0 {
            assert(step as int == (delta as int) % l);
        } else {
            let m = -(delta as int) - 1;
            // m == l * q + m % l, so step == l - 1 - m % l == delta + l * (q + 1).
            let q = m / l;
            assert(m == l * q + m % l) by {
                vstd::arithmetic::div_mod::lemma_fundamental_div_mod(m, l);
            }
            assert(step as int == (delta as int) + l * (q + 1)) by (nonlinear_arith)
                requires
                    m == -(delta as int) - 1,
                    m == l * q + m % l,
                    step as int == l - (m % l + 1),
            ;
            vstd::arithmetic::div_mod::lemma_small_mod(step as nat, len as nat);
            vstd::arithmetic::div_mod::lemma_mod_multiples_vanish(q + 1, delta as int, l);
            assert(step as int == (delta as int) % l);
        }
        vstd::arithmetic::div_mod::lemma_add_mod_noop(curr as int, delta as int, l);
        assert(((at + step) as int) % l == (curr + delta) % l);
    }
    if at >= len - step {
        proof {
            vstd::arithmetic::div_mod::lemma_small_mod((at + step - len) as nat, len as nat);
            vstd::arithmetic::div_mod::lemma_mod_multiples_vanish(-1, (at + step) as int, len as int);
            assert((len as int) * (-1) + (at + step) == at + step - len);
        }
        at - (len - step)
    } else {
        proof {
            vstd::arithmetic::div_mod::lemma_small_mod((at + step) as nat, len as nat);
        }
        at + step
    }
}

/// Going somewhere in the ring and back again ends where it began.
pub proof fn law_wrap_returns(curr: int, len: int, delta: int)
    requires
        0 <= curr < len,
    ensures
        wrapped(wrapped(curr, len, delta), len, -delta) == curr,
        0 <= wrapped(curr, len, delta) < len,
{
    vstd::arithmetic::div_mod::lemma_add_mod_noop(curr + delta, -delta, len);
    vstd::arithmetic::div_mod::lemma_add_mod_noop((curr + delta) % len, -delta, len);
    vstd::arithmetic::div_mod::lemma_mod_twice(curr + delta, len);
    vstd::arithmetic::div_mod::lemma_small_mod(curr as nat, len as nat);
    assert(curr + delta + (-delta) == curr);
    assert(0 <= (curr + delta) % len < len) by (nonlinear_arith)
        requires
            len > 0,
    ;
}

/// Place of the first text that equals `t`; the length when there is none.
pub open spec fn first_place(list: Seq<Seq<char>>, t: Seq<char>) -> int
    decreases list.len(),
{
    if list.len() == 0 || list[0] == t {
        0
    } else {
        1 + first_place(list.skip(1), t)
    }
}

proof fn lemma_first_place(list: Seq<Seq<char>>, t: Seq<char>)
    ensures
        0 <= first_place(list, t) <= list.len(),
        first_place(list, t) < list.len() ==> list[first_place(list, t)] == t,
    decreases list.len(),
{
    if list.len() > 0 && list[0] != t {
        lemma_first_place(list.skip(1), t);
    }
}

fn place_of(list: &Vec<String>, t: &str) -> (r: Option<usize>)
    ensures
        match r {
            Some(i) => i == first_place(text::texts(list@), t@) && i < list@.len(),
            None => first_place(text::texts(list@), t@) == list@.len(),
        },
{
    let ghost all = text::texts(list@);
    let mut i: usize = 0;
    assert(all.skip(0) == all);
    while i < list.len()
        invariant
            i <= list@.len(),
            all == text::texts(list@),
            first_place(all, t@) == i + first_place(all.skip(i as int), t@),
        decreases list@.len() - i,
    {
        assert(all.skip(i as int)[0] == list@[i as int]@);
        if text::same(list[i].as_str(), t) {
            return Some(i);
        }
        assert(all.skip(i as int).skip(1) == all.skip(i + 1));
        i = i + 1;
    }
    None
}

/// The group cursor, brought back to the first group when it points nowhere.
pub open spec fn synced_group(groups: Seq<proxies::Group>, group_idx: int) -> int {
    if group_idx < groups.len() {
        group_idx
    } else {
        0
    }
}

/// The candidate cursor: on the group's choice where that is among the candidates, else where it
/// was, else on the first.
pub open spec fn synced_proxy(groups: Seq<proxies::Group>, group_idx: int, proxy_idx: int) -> int {
    if groups.len() == 0 {
        0
    } else {
        let g = groups[synced_group(groups, group_idx)];
        let at = first_place(g.candidates, g.now);
        if at < g.candidates.len() {
            at
        } else if proxy_idx < g.candidates.len() {
            proxy_idx
        } else {
            0
        }
    }
}

impl Screen {
    /// The screen of a panel that starts.
    pub open spec fn initial() -> Screen {
        Screen {
            tab_index: 0,
            command_mode: false,
            show_help_overlay: false,
            show_exit_confirm_overlay: false,
            exit_confirm_choice: ExitConfirmChoice::KeepBackend,
            exit_keep_backend_override: None,
            should_quit: false,
            selected_group_idx: 0,
            selected_proxy_idx: 0,
            proxy_focus: ProxyFocus::Groups,
            selected_profile_idx: 0,
        }
    }

    pub fn new() -> (r: Screen)
        ensures
            r == Screen::initial(),
            r.fits(seq![], 0),
    {
        Screen {
            tab_index: 0,
            command_mode: false,
            show_help_overlay: false,
            show_exit_confirm_overlay: false,
            exit_confirm_choice: ExitConfirmChoice::KeepBackend,
            exit_keep_backend_override: None,
            should_quit: false,
            selected_group_idx: 0,
            selected_proxy_idx: 0,
            proxy_focus: ProxyFocus::Groups,
            selected_profile_idx: 0,
        }
    }

    /// Whether everything that is chosen exists: the tab, the group and its candidate, and the
    /// profile. The candidates have the focus only while they are in sight.
    pub open spec fn fits(self, groups: Seq<proxies::Group>, profiles: nat) -> bool {
        &&& self.tab_index < TAB_COUNT
        &&& self.group_fits(groups)
        &&& if profiles == 0 {
            self.selected_profile_idx == 0
        } else {
            self.selected_profile_idx < profiles
        }
        &&& self.proxy_focus == ProxyFocus::Candidates ==> self.tab_index == 2
    }

    pub open spec fn group_fits(self, groups: Seq<proxies::Group>) -> bool {
        if groups.len() == 0 {
            self.selected_group_idx == 0 && self.selected_proxy_idx == 0
        } else {
            &&& self.selected_group_idx < groups.len()
            &&& if groups[self.selected_group_idx as int].candidates.len() == 0 {
                self.selected_proxy_idx == 0
            } else {
                self.selected_proxy_idx < groups[self.selected_group_idx as int].candidates.len()
            }
        }
    }

    pub fn current_tab(&self) -> (r: Tab)
        ensures
            r == tab_at(self.tab_index as int),
    {
        if self.tab_index == 0 {
            Tab::Overview
        } else if self.tab_index == 1 {
            Tab::Profiles
        } else if self.tab_index == 2 {
            Tab::Proxies
        } else {
            Tab::Logs
        }
    }

    pub open spec fn at_previous_tab(self) -> Screen {
        Screen {
            tab_index: if self.tab_index == 0 {
                3
            } else {
                (self.tab_index - 1) as usize
            },
            ..self
        }
    }

    pub fn switch_tab_prev(&mut self)
        ensures
            *final(self) == old(self).at_previous_tab(),
    {
        if self.tab_index == 0 {
            self.tab_index = 3;
        } else {
            self.tab_index = self.tab_index - 1;
        }
    }

    pub open spec fn at_next_tab(self) -> Screen {
        Screen { tab_index: ((self.tab_index + 1) % 4) as usize, ..self }
    }

    pub fn switch_tab_next(&mut self)
        requires
            old(self).tab_index < TAB_COUNT,
        ensures
            *final(self) == old(self).at_next_tab(),
    {
        self.tab_index = (self.tab_index + 1) % TAB_COUNT;
    }

    pub open spec fn synced(self, groups: Seq<proxies::Group>) -> Screen {
        Screen {
            selected_group_idx: synced_group(groups, self.selected_group_idx as int) as usize,
            selected_proxy_idx: synced_proxy(
                groups,
                self.selected_group_idx as int,
                self.selected_proxy_idx as int,
            ) as usize,
            ..self
        }
    }

    pub fn sync_proxy_cursor(&mut self, groups: &Vec<ProxyGroupView>)
        ensures
            *final(self) == old(self).synced(proxies::groups_view(groups@)),
            final(self).group_fits(proxies::groups_view(groups@)),
    {
        let ghost all = proxies::groups_view(groups@);
        let ghost before = *self;
        if groups.len() == 0 {
            self.selected_group_idx = 0;
            self.selected_proxy_idx = 0;
            return;
        }
        if self.selected_group_idx >= groups.len() {
            self.selected_group_idx = 0;
        }
        let group = &groups[self.selected_group_idx];
        proof {
            assert(all[self.selected_group_idx as int] == group@);
            lemma_first_place(group@.candidates, group@.now);
        }
        if let Some(i) = place_of(&group.candidates, group.now.as_str()) {
            self.selected_proxy_idx = i;
            return;
        }
        if self.selected_proxy_idx >= group.candidates.len() {
            self.selected_proxy_idx = 0;
        }
    }

    pub fn sync_profile_cursor(&mut self, profiles: usize)
        ensures
            *final(self) == (Screen {
                selected_profile_idx: if old(self).selected_profile_idx < profiles {
                    old(self).selected_profile_idx
                } else {
                    0
                },
                ..*old(self)
            }),
    {
        if self.selected_profile_idx >= profiles {
            self.selected_profile_idx = 0;
        }
    }

    pub open spec fn group_moved(self, groups: Seq<proxies::Group>, delta: int) -> Screen {
        if groups.len() == 0 {
            self
        } else {
            Screen {
                selected_group_idx: wrapped(
                    self.selected_group_idx as int,
                    groups.len() as int,
                    delta,
                ) as usize,
                selected_proxy_idx: 0,
                ..self
            }.synced(groups)
        }
    }

    pub fn move_group_cursor(&mut self, groups: &Vec<ProxyGroupView>, delta: isize)
        ensures
            *final(self) == old(self).group_moved(proxies::groups_view(groups@), delta as int),
            old(self).group_fits(proxies::groups_view(groups@)) ==> final(self).group_fits(
                proxies::groups_view(groups@),
            ),
    {
        if groups.len() == 0 {
            return;
        }
        self.selected_group_idx = wrap_index(self.selected_group_idx, groups.len(), delta);
        self.selected_proxy_idx = 0;
        self.sync_proxy_cursor(groups);
    }

    pub open spec fn candidate_moved(self, groups: Seq<proxies::Group>, delta: int) -> Screen {
        if self.selected_group_idx >= groups.len() {
            self
        } else {
            Screen {
                selected_proxy_idx: wrapped(
                    self.selected_proxy_idx as int,
                    groups[self.selected_group_idx as int].candidates.len() as int,
                    delta,
                ) as usize,
                ..self
            }
        }
    }

    pub fn move_candidate_cursor(&mut self, groups: &Vec<ProxyGroupView>, delta: isize)
        ensures
            *final(self) == old(self).candidate_moved(proxies::groups_view(groups@), delta as int),
            old(self).group_fits(proxies::groups_view(groups@)) ==> final(self).group_fits(
                proxies::groups_view(groups@),
            ),
    {
        if self.selected_group_idx >= groups.len() {
            return;
        }
        assert(proxies::groups_view(groups@)[self.selected_group_idx as int]
            == groups@[self.selected_group_idx as int]@);
        let len: usize = groups[self.selected_group_idx].candidates.len();
        self.selected_proxy_idx = wrap_index(self.selected_proxy_idx, len, delta);
    }

    pub open spec fn profile_moved(self, profiles: nat, delta: int) -> Screen {
        Screen {
            selected_profile_idx: wrapped(
                self.selected_profile_idx as int,
                profiles as int,
                delta,
            ) as usize,
            ..self
        }
    }

    pub fn move_profile_cursor(&mut self, profiles: usize, delta: isize)
        ensures
            *final(self) == old(self).profile_moved(profiles as nat, delta as int),
            profiles == 0 ==> final(self).selected_profile_idx == 0,
            profiles > 0 ==> final(self).selected_profile_idx < profiles,
    {
        self.selected_profile_idx = wrap_index(self.selected_profile_idx, profiles, delta);
    }

    /// The screen after a wish to leave: the policy decides, or else the user is asked.
    pub open spec fn leaving(self, policy: BackendExitPolicy, keep: bool) -> Screen {
        match policy {
            BackendExitPolicy::AlwaysOn => Screen {
                exit_keep_backend_override: Some(true),
                show_exit_confirm_overlay: false,
                should_quit: true,
                ..self
            },
            BackendExitPolicy::AlwaysOff => Screen {
                exit_keep_backend_override: Some(false),
                show_exit_confirm_overlay: false,
                should_quit: true,
                ..self
            },
            BackendExitPolicy::Query => Screen {
                exit_keep_backend_override: None,
                show_exit_confirm_overlay: true,
                exit_confirm_choice: if keep {
                    ExitConfirmChoice::KeepBackend
                } else {
                    ExitConfirmChoice::StopBackend
                },
                ..self
            },
        }
    }

    pub fn request_quit(&mut self, policy: BackendExitPolicy, keep: bool)
        ensures
            *final(self) == old(self).leaving(policy, keep),
    {
        self.exit_keep_backend_override = None;
        self.show_exit_confirm_overlay = false;
        match policy {
            BackendExitPolicy::AlwaysOn => {
                self.exit_keep_backend_override = Some(true);
                self.should_quit = true;
            },
            BackendExitPolicy::AlwaysOff => {
                self.exit_keep_backend_override = Some(false);
                self.should_quit = true;
            },
            BackendExitPolicy::Query => {
                self.show_exit_confirm_overlay = true;
                self.exit_confirm_choice = if keep {
                    ExitConfirmChoice::KeepBackend
                } else {
                    ExitConfirmChoice::StopBackend
                };
            },
        }
    }

    /// The screen after the user has confirmed what happens to the backend.
    pub open spec fn confirmed(self) -> Screen {
        Screen {
            exit_keep_backend_override: Some(
                self.exit_confirm_choice == ExitConfirmChoice::KeepBackend,
            ),
            show_exit_confirm_overlay: false,
            should_quit: true,
            ..self
        }
    }

    /// Takes the chosen answer, and gives it: whether the backend stays.
    pub fn confirm_quit_by_choice(&mut self) -> (keep: bool)
        ensures
            *final(self) == old(self).confirmed(),
            keep == (old(self).exit_confirm_choice == ExitConfirmChoice::KeepBackend),
    {
        let keep = self.exit_confirm_choice == ExitConfirmChoice::KeepBackend;
        self.exit_keep_backend_override = Some(keep);
        self.show_exit_confirm_overlay = false;
        self.should_quit = true;
        keep
    }

    /// Whether the backend stays when the panel is left.
    pub open spec fn keeps_backend(self, policy: BackendExitPolicy, keep: bool) -> bool {
        match self.exit_keep_backend_override {
            Some(k) => k,
            None => match policy {
                BackendExitPolicy::AlwaysOn => true,
                BackendExitPolicy::AlwaysOff => false,
                BackendExitPolicy::Query => keep,
            },
        }
    }

    pub fn effective_keep_core_on_exit(&self, policy: BackendExitPolicy, keep: bool) -> (r: bool)
        ensures
            r == self.keeps_backend(policy, keep),
    {
        if let Some(k) = self.exit_keep_backend_override {
            return k;
        }
        match policy {
            BackendExitPolicy::AlwaysOn => true,
            BackendExitPolicy::AlwaysOff => false,
            BackendExitPolicy::Query => keep,
        }
    }
}

/// Moving a cursor leaves it on something that is there.
pub proof fn lemma_group_moved_fits(s: Screen, groups: Seq<proxies::Group>, delta: int)
    requires
        s.group_fits(groups),
        groups.len() <= usize::MAX,
        forall|i: int|
            0 <= i < groups.len() ==> (#[trigger] groups[i]).candidates.len() <= usize::MAX,
    ensures
        s.group_moved(groups, delta).group_fits(groups),
        s.candidate_moved(groups, delta).group_fits(groups),
{
    if groups.len() > 0 {
        law_wrap_returns(s.selected_group_idx as int, groups.len() as int, delta);
        let i = wrapped(s.selected_group_idx as int, groups.len() as int, delta);
        lemma_first_place(groups[i].candidates, groups[i].now);
        let here = groups[s.selected_group_idx as int].candidates.len() as int;
        if here > 0 {
            law_wrap_returns(s.selected_proxy_idx as int, here, delta);
        }
    }
}

/// A profile that comes in addition leaves the screen fitting.
pub proof fn law_more_profiles_fit(s: Screen, groups: Seq<proxies::Group>, profiles: nat)
    requires
        s.fits(groups, profiles),
    ensures
        s.fits(groups, profiles + 1),
{
}

/// The next tab and the previous tab undo each other.
pub proof fn law_tabs_return(s: Screen)
    requires
        s.tab_index < TAB_COUNT,
    ensures
        s.at_next_tab().at_previous_tab() == s,
        s.at_previous_tab().at_next_tab() == s,
        s.at_next_tab().tab_index < TAB_COUNT,
        s.at_previous_tab().tab_index < TAB_COUNT,
{
}

/// A wish to leave is granted at once unless the policy is to ask. Then the backend stays exactly
/// under the policy that keeps it, whatever answer is remembered.
pub proof fn law_policy_decides_exit(s: Screen, policy: BackendExitPolicy, keep: bool, later: bool)
    requires
        !s.should_quit,
    ensures
        s.leaving(policy, keep).should_quit <==> policy != BackendExitPolicy::Query,
        policy != BackendExitPolicy::Query ==> s.leaving(policy, keep).keeps_backend(policy, later)
            == (policy == BackendExitPolicy::AlwaysOn),
{
}

/// Where the user is asked, the answer that is offered first is the one given last time, and the
/// answer that is confirmed is what happens.
pub proof fn law_answer_is_kept(s: Screen, keep: bool, later: bool)
    ensures
        s.leaving(BackendExitPolicy::Query, keep).confirmed().keeps_backend(
            BackendExitPolicy::Query,
            later,
        ) == keep,
        s.confirmed().keeps_backend(BackendExitPolicy::Query, later) <==> s.exit_confirm_choice
            == ExitConfirmChoice::KeepBackend,
        s.confirmed().should_quit,
{
}

} // verus!
