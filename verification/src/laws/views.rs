//! Values are the texts, numbers and flags that they hold, each in its place.

use crate::apply::ApplyStep;
use crate::bulk::BulkDelay;
use crate::client::MihomoClient;
use crate::command::Command;
use crate::config::{BackendExitPolicy, VergeConfig};
use crate::json::Json;
use crate::json::JsonModel;
use crate::notes::Notes;
use crate::process;
use crate::proxies;
use crate::proxies::ProxyGroupView;
use crate::run;
use crate::run::{Next, Operation, ProxyPurpose, Saved, Step};
use crate::runtime::RuntimeChoice;
use crate::screen::{ExitConfirmChoice, ProxyFocus, Screen};
use crate::session;
use crate::session::{App, KeyAction};
use crate::text;
use vstd::prelude::*;

verus! {

/// An operation is about the texts that it holds, in their order.
pub proof fn law_operations(a: String, b: String, n: u64, flag: bool)
    ensures
        Operation::Switch(a, b, flag)@ == Operation::Switch(a@, b@, flag),
        Operation::Delay(a, b, n, flag)@ == Operation::Delay(a@, b@, n, flag),
        Operation::TestAll(a, n)@ == Operation::TestAll(a@, n),
        Operation::Import(a)@ == Operation::Import(a@),
        Operation::Update(a)@ == Operation::Update(a@),
        Operation::Schedule(a)@ == Operation::Schedule(a@),
        Operation::Mode(a)@ == Operation::Mode(a@),
        Operation::<String>::Doctor@ == Operation::<Seq<char>>::Doctor,
        Operation::<String>::EnsureReady@ == Operation::<Seq<char>>::EnsureReady,
        Operation::<String>::StartCore@ == Operation::<Seq<char>>::StartCore,
        Operation::<String>::CheckHealth@ == Operation::<Seq<char>>::CheckHealth,
        Operation::<String>::RefreshProxies@ == Operation::<Seq<char>>::RefreshProxies,
        Operation::<String>::Activate@ == Operation::<Seq<char>>::Activate,
        Operation::<String>::UpdateSelected@ == Operation::<Seq<char>>::UpdateSelected,
        Operation::<String>::UpdateAll@ == Operation::<Seq<char>>::UpdateAll,
        Operation::<String>::AutoSubStatus@ == Operation::<Seq<char>>::AutoSubStatus,
        Operation::<String>::Cleanup@ == Operation::<Seq<char>>::Cleanup,
        Operation::<String>::BackendStatus@ == Operation::<Seq<char>>::BackendStatus,
        Operation::<String>::StopBackend@ == Operation::<Seq<char>>::StopBackend,
        Operation::<String>::SaveExitChoice@ == Operation::<Seq<char>>::SaveExitChoice,
{
}

/// A step is the step that it names, with what it holds.
pub proof fn law_steps(
    a: String,
    b: String,
    first: Operation<String>,
    second: Operation<String>,
    saved: Saved<String>,
    purpose: ProxyPurpose<String>,
    flag: bool,
    was: Option<bool>,
    next: Next,
)
    ensures
        Step::Do(first)@ == Step::Do(first@),
        Step::DoBoth(first, second)@ == Step::DoBoth(first@, second@),
        Step::Save(saved)@ == Step::Save(saved@),
        Step::SetProxy(purpose)@ == Step::SetProxy(purpose@),
        Step::Fail(a)@ == Step::Fail(a@),
        Step::Reconnect(a)@ == Step::Reconnect(a@),
        Step::<String>::SetTun(flag)@ == Step::<Seq<char>>::SetTun(flag),
        Step::<String>::Done@ == Step::<Seq<char>>::Done,
        Step::<String>::Adopt@ == Step::<Seq<char>>::Adopt,
        Saved::Say(a)@ == Saved::Say(a@),
        Saved::Schedule(a)@ == Saved::Schedule(a@),
        Saved::Reconnect(a)@ == Saved::Reconnect(a@),
        Saved::Reapply(a, b)@ == Saved::Reapply(a@, b@),
        ProxyPurpose::Again(a)@ == ProxyPurpose::Again(a@),
        ProxyPurpose::<String>::Switch(was)@ == ProxyPurpose::<Seq<char>>::Switch(was),
        next@.step == next.step@,
        next@.notes == next.notes@,
{
}

/// A command is the command that it names, with what it holds.
pub proof fn law_commands(
    a: String,
    b: String,
    u: Option<String>,
    n: u64,
    port: u16,
    flag: bool,
    policy: BackendExitPolicy,
)
    ensures
        Command::Say(a)@ == Command::Say(a@),
        Command::Import(a)@ == Command::Import(a@),
        Command::Update(a)@ == Command::Update(a@),
        Command::Switch(a, b)@ == Command::Switch(a@, b@),
        Command::AutoUpdate(n, a)@ == Command::AutoUpdate(n, a@),
        Command::DelayAll(u, n)@ == Command::DelayAll(text::opt_text(u), n),
        Command::DelaySelected(u, n)@ == Command::DelaySelected(text::opt_text(u), n),
        Command::DelayNode(a, u, n)@ == Command::DelayNode(a@, text::opt_text(u), n),
        Command::Mode(a)@ == Command::Mode(a@),
        Command::SetController(a)@ == Command::SetController(a@),
        Command::SetSecret(a)@ == Command::SetSecret(a@),
        Command::SetProxyHost(a)@ == Command::SetProxyHost(a@),
        Command::Use(a)@ == Command::Use(a@),
        Command::<String>::SetMixedPort(port)@ == Command::<Seq<char>>::SetMixedPort(port),
        Command::<String>::SysProxy(flag)@ == Command::<Seq<char>>::SysProxy(flag),
        Command::<String>::Keep(flag)@ == Command::<Seq<char>>::Keep(flag),
        Command::<String>::SetCleanup(flag)@ == Command::<Seq<char>>::SetCleanup(flag),
        Command::<String>::Policy(policy)@ == Command::<Seq<char>>::Policy(policy),
        Command::<String>::ToggleSysProxy@ == Command::<Seq<char>>::ToggleSysProxy,
        Command::<String>::ToggleTun@ == Command::<Seq<char>>::ToggleTun,
        Command::<String>::Cleanup@ == Command::<Seq<char>>::Cleanup,
        Command::<String>::BackendStop@ == Command::<Seq<char>>::BackendStop,
        Command::<String>::BackendStart@ == Command::<Seq<char>>::BackendStart,
        Command::<String>::BackendStatus@ == Command::<Seq<char>>::BackendStatus,
        Command::<String>::Quit@ == Command::<Seq<char>>::Quit,
        Command::<String>::Save@ == Command::<Seq<char>>::Save,
{
}

/// What a key asks for is what it names.
pub proof fn law_key_actions(a: String)
    ensures
        KeyAction::Say(a)@ == KeyAction::Say(a@),
        KeyAction::Run(a)@ == KeyAction::Run(a@),
        KeyAction::<String>::Nothing@ == KeyAction::<Seq<char>>::Nothing,
        KeyAction::<String>::SaveExitChoice@ == KeyAction::<Seq<char>>::SaveExitChoice,
        KeyAction::<String>::ActivateProfile@ == KeyAction::<Seq<char>>::ActivateProfile,
        KeyAction::<String>::UpdateSelected@ == KeyAction::<Seq<char>>::UpdateSelected,
        KeyAction::<String>::SwitchProxy@ == KeyAction::<Seq<char>>::SwitchProxy,
        KeyAction::<String>::TestDelay@ == KeyAction::<Seq<char>>::TestDelay,
        KeyAction::<String>::TestAll@ == KeyAction::<Seq<char>>::TestAll,
        KeyAction::<String>::RefreshProxies@ == KeyAction::<Seq<char>>::RefreshProxies,
{
}

/// The other values with texts in them.
pub proof fn law_other_values(
    a: String,
    b: String,
    port: Option<u16>,
    g: ProxyGroupView,
    bulk: BulkDelay,
    notes: Notes,
    i: int,
)
    ensures
        ApplyStep::Reload(a)@ == ApplyStep::Reload(a@),
        ApplyStep::ReloadCopy(a)@ == ApplyStep::ReloadCopy(a@),
        ApplyStep::Failed(a)@ == ApplyStep::Failed(a@),
        ApplyStep::<String>::SetPort(port)@ == ApplyStep::<Seq<char>>::SetPort(port),
        (RuntimeChoice::Use { home: a, config: b })@ == (RuntimeChoice::Use {
            home: a@,
            config: b@,
        }),
        (RuntimeChoice::Build { profile: a })@ == (RuntimeChoice::Build { profile: a@ }),
        g@.name == g.name@ && g@.kind == g.kind@ && g@.now == g.now@,
        g@.candidates.len() == g.candidates@.len(),
        0 <= i < g.candidates@.len() ==> g@.candidates[i] == g.candidates@[i]@,
        bulk@.running == bulk.running && bulk@.total == bulk.total && bulk@.done == bulk.done,
        bulk@.success == bulk.success && bulk@.failed == bulk.failed,
        bulk@.url == bulk.url@ && bulk@.timeout_ms == bulk.timeout_ms,
        notes@.len() == notes.lines@.len(),
        0 <= i < notes.lines@.len() ==> notes@[i] == notes.lines@[i]@,
{
}

/// The same of texts that may be missing, of lists of texts, and of outcomes.
pub proof fn law_texts(s: String, t: &str, list: Seq<String>, i: int, groups: Seq<ProxyGroupView>)
    ensures
        text::opt_text(Some(s)) == Some(s@),
        text::opt_text(None) is None,
        process::opt_str(Some(t)) == Some(t@),
        process::opt_str(None) is None,
        text::texts(list).len() == list.len(),
        0 <= i < list.len() ==> text::texts(list)[i] == list[i]@,
        run::plain_result(Ok::<(), String>(())) == Ok::<(), Seq<char>>(()),
        run::plain_result(Err::<(), String>(s)) == Err::<(), Seq<char>>(s@),
        proxies::groups_view(groups).len() == groups.len(),
        0 <= i < groups.len() ==> proxies::groups_view(groups)[i] == groups[i]@,
{
}

/// A document holds what it holds.
pub proof fn law_documents(
    s: String,
    n: u64,
    b: bool,
    items: Vec<Json>,
    fields: Vec<(String, Json)>,
    i: int,
)
    ensures
        Json::Text(s)@ == JsonModel::Text(s@),
        Json::Number(n)@ == JsonModel::Number(n),
        Json::Bool(b)@ == JsonModel::Bool(b),
        Json::Null@ == JsonModel::Null,
        Json::Array(items)@ is Array,
        Json::Array(items)@->Array_0.len() == items@.len(),
        0 <= i < items@.len() ==> Json::Array(items)@->Array_0[i] == items@[i]@,
        Json::Object(fields)@ is Object,
        Json::Object(fields)@->Object_0.len() == fields@.len(),
        0 <= i < fields@.len() ==> Json::Object(fields)@->Object_0[i] == (
            fields@[i].0@,
            fields@[i].1@,
        ),
{
}

/// A first start: both switches are off, the proxy is on this machine, nothing is updated by the
/// clock, and the user is asked what happens to the backend.
pub proof fn law_first_settings(v: VergeConfig)
    requires
        v.are_initial(),
    ensures
        !v.enable_system_proxy,
        !v.enable_tun_mode,
        v.proxy_host@ == "127.0.0.1"@,
        v.system_proxy_bypass@.len() == 0,
        v.controller_url@ == "http://127.0.0.1:9097"@,
        v.secret@.len() == 0,
        v.mixed_port == 7897,
        v.default_delay_test_url@ == "http://cp.cloudflare.com"@,
        v.auto_update_subscription_minutes == 0,
        v.auto_cleanup_on_exit,
        v.keep_core_on_exit,
        v.backend_exit_policy == BackendExitPolicy::Query,
{
}

/// The first screen shows the overview, with nothing over it.
pub proof fn law_first_screen()
    ensures
        Screen::initial() == (Screen {
            tab_index: 0,
            command_mode: false,
            show_help_overlay: false,
            show_exit_confirm_overlay: false,
            exit_confirm_choice: ExitConfirmChoice::KeepBackend,
            exit_keep_backend_override: None,
            should_quit: false,
            selected_group_idx: 0,
            selected_proxy_idx: 0,
            proxy_focus: ProxyFocus::Groups,
            selected_profile_idx: 0,
        }),
{
}

/// New settings change nothing else of the state.
pub proof fn law_new_settings(app: App, verge: VergeConfig)
    ensures
        session::with_verge(app, verge).verge() == verge,
        session::with_verge(app, app.verge()) == app,
        session::with_verge(app, verge).store.state.profiles == app.store.state.profiles,
        session::with_verge(app, verge).store.state.current == app.store.state.current,
        session::with_verge(app, verge).screen == app.screen,
        session::with_verge(app, verge).mihomo == app.mihomo,
        app.verge() == app.store.state.verge,
        app.groups() == proxies::groups_view(app.proxy_groups@),
{
}

/// How a controller is shown.
pub proof fn law_controller_labels(c: MihomoClient)
    ensures
        c.endpoint is Http ==> c.spec_label() == c.endpoint->label@,
        c.endpoint is LocalSocket ==> c.spec_label() == "local://"@ + c.endpoint->socket_path@,
{
}

/// The limits of the lists.
pub proof fn law_limits()
    ensures
        session::LOG_LIMIT == 200,
        session::TRAFFIC_HISTORY_LIMIT == 120,
        crate::render::FEED_LINES == 6,
        crate::launch::SERVICE_WAIT_RETRIES == 6,
{
}

} // verus!
