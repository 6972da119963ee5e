//! Requests, searches and the state that they leave.

use crate::apply;
use crate::apply::{CopyStep, SafeCopy};
use crate::client;
use crate::client::{ApiRequest, ClientError, MihomoClient, StreamTarget};
use crate::command::Command;
use crate::config;
use crate::config::{BackendExitPolicy, Platform, VergeConfig};
use crate::health;
use crate::health::{SearchStep, SocketReply, SocketSearch};
use crate::hint;
use crate::hint::{HintSearch, HintStep};
use crate::json;
use crate::laws::steps;
use crate::laws::words;
use crate::launch;
use crate::launch::{BootstrapStep, LaunchReply, LaunchStep, LaunchTarget};
use crate::number;
use crate::order;
use crate::paths;
use crate::process;
use crate::process::{PlaceSearch, PlaceStep};
use crate::run;
use crate::runtime;
use crate::session::{App, KeyAction, KeyEffect};
use crate::text;
use crate::tunnel;
use crate::weburl;
use vstd::prelude::*;

verus! {

/// A command changes the screen and the settings as it says, and nothing else of the state.
pub proof fn law_commands_change_no_more(app: App, c: Command<Seq<char>>, after: App)
    requires
        app.commanded(c, after),
    ensures
        after.screen == run::screen_for(app, c),
        run::sets(c, app.store.state.verge, after.store.state.verge),
        after.store.state.profiles == app.store.state.profiles,
        after.store.state.current == app.store.state.current,
        after.store.paths == app.store.paths,
        after.mihomo == app.mihomo,
        after.proxy_groups == app.proxy_groups,
        after.delay_cache == app.delay_cache,
        after.command_input == app.command_input,
        after.logs == app.logs,
        after.bulk == app.bulk,
        after.tick_count == app.tick_count,
        after.health_probe_failures == app.health_probe_failures,
{
}

/// A key changes the screen, the typed line and the remembered answer as its effect says, and
/// nothing else of the state.
pub proof fn law_keys_change_no_more(
    app: App,
    e: KeyEffect,
    after: App,
    action: KeyAction<Seq<char>>,
)
    requires
        app.has_effect(e, after, action),
    ensures
        after.screen == e.screen,
        after.command_input@ == e.input,
        action == e.action,
        after.store.state.verge == (VergeConfig {
            keep_core_on_exit: e.keep,
            ..app.store.state.verge
        }),
        after.store.state.profiles == app.store.state.profiles,
        after.store.state.current == app.store.state.current,
        after.store.paths == app.store.paths,
        after.mihomo == app.mihomo,
        after.proxy_groups == app.proxy_groups,
        after.delay_cache == app.delay_cache,
        after.logs == app.logs,
        after.bulk == app.bulk,
        after.tick_count == app.tick_count,
{
}

/// A question to the controller is a `GET` of its path, without a body.
pub proof fn law_questions(
    c: MihomoClient,
    path: Seq<char>,
    url: Seq<char>,
    r: Result<ApiRequest, ClientError>,
)
    requires
        c.asks(path, r),
        client::url_at(c.endpoint, path) == Some(url),
    ensures
        r is Ok,
        r->Ok_0.method == client::Method::Get,
        r->Ok_0.url@ == url,
        r->Ok_0.body is None,
        r->Ok_0.force is None,
        r->Ok_0.send_failure@ == "GET "@ + path + " failed"@,
        r->Ok_0.status_failure@ == "GET "@ + path + " returned error status"@,
        text::opt_text(r->Ok_0.decode_failure) == Some("decode response failed: "@ + path),
{
}

/// A stream of a controller at a socket is read there; one of a controller at an address is read at
/// its path there, with the scheme of streams, and with the secret as a token where there is one.
pub proof fn law_streams(
    c: MihomoClient,
    path: Seq<char>,
    r: Result<StreamTarget, ClientError>,
    joined: Seq<char>,
    plain: Seq<char>,
    full: Seq<char>,
)
    requires
        c.reads(path, r),
        path.len() > 0 ==> path[0] != '/',
    ensures
        c.endpoint is LocalSocket ==> r is Ok && r->Ok_0 is Socket && r->Ok_0->socket_path@
            == c.endpoint->socket_path@ && r->Ok_0->Socket_url@ == "ws://localhost/"@ + path,
        c.endpoint is Http && weburl::url_joined(c.endpoint->base_url@, path) == Some(joined)
            && weburl::url_scheme(joined) == Some("http"@) && weburl::url_with_scheme(joined, "ws"@)
            == Some(plain) && c.secret is None ==> r is Ok && r->Ok_0 is Remote
            && r->Ok_0->Remote_url@ == plain,
        c.endpoint is Http && weburl::url_joined(c.endpoint->base_url@, path) == Some(joined)
            && weburl::url_scheme(joined) == Some("https"@) && weburl::url_with_scheme(
            joined,
            "wss"@,
        ) == Some(plain) && c.secret is Some && c.secret->0@.len() > 0 && weburl::url_with_pair(
            plain,
            "token"@,
            c.secret->0@,
        ) == Some(full) ==> r is Ok && r->Ok_0 is Remote && r->Ok_0->Remote_url@ == full,
{
    words::law_without_leading(0, '/', path);
    assert(Seq::new(0, |i: int| '/') + path =~= path);
    reveal_strlit("http");
    reveal_strlit("https");
    assert("http"@.len() == 4 && "https"@.len() == 5);
}

/// A client can be made where the address can be read, and where the secret, if there is one, can
/// stand in a header: it holds no control character but the tab.
pub proof fn law_who_can_connect(url: Seq<char>, secret: Seq<char>)
    ensures
        client::can_connect(url, seq![]) <==> weburl::url_parsed(url) is Some,
        weburl::url_parsed(url) is Some && (forall|i: int|
            0 <= i < secret.len() ==> ' ' <= #[trigger] secret[i] <= '~') ==> client::can_connect(
            url,
            secret,
        ),
        (exists|i: int| 0 <= i < secret.len() && #[trigger] secret[i] == '\n')
            ==> !client::can_connect(url, secret),
        weburl::url_parsed(url) is None ==> !client::can_connect(url, secret),
{
    reveal_strlit("Bearer ");
    let b = client::bearer(secret);
    assert forall|i: int| 0 <= i < secret.len() implies b[i + 7] == secret[i] by {}
    if forall|i: int| 0 <= i < secret.len() ==> ' ' <= #[trigger] secret[i] <= '~' {
        assert forall|i: int| 0 <= i < b.len() implies weburl::header_char(#[trigger] b[i]) by {
            if i >= 7 {
                assert(b[i] == secret[i - 7]);
            }
        }
    }
    if exists|i: int| 0 <= i < secret.len() && #[trigger] secret[i] == '\n' {
        let i = choose|i: int| 0 <= i < secret.len() && #[trigger] secret[i] == '\n';
        assert(b[i + 7] == '\n');
        assert(!weburl::header_char(b[i + 7]));
    }
}

/// Why the controller cannot be asked is said.
pub proof fn law_client_errors(s: String)
    ensures
        ClientError::InvalidUrl(s).spec_message() == "invalid controller URL: "@ + s@,
        ClientError::InvalidAuthorization.spec_message() == "invalid authorization header"@,
        ClientError::EmptySocketPath.spec_message() == "empty socket path"@,
        ClientError::JoinPath(s).spec_message() == "failed to join path: "@ + s@,
        ClientError::JoinStreamPath(s).spec_message() == "failed to join websocket path: "@ + s@,
        ClientError::StreamNeedsHttp.spec_message() == "ws_url is only for http endpoint"@,
        ClientError::UnsupportedScheme(s).spec_message() == "unsupported scheme for websocket: "@
            + s@,
        ClientError::SetScheme.spec_message() == "failed to set websocket scheme"@,
{
}

/// The words for a switch: four for yes and four for no, in whatever case, with white space around
/// them or not; no other word is one.
pub proof fn law_switch_words(value: Seq<char>)
    ensures
        ({
            let v = text::lowered(text::trimmed(value));
            &&& config::switch_of(value) == Some(true) <==> v == "on"@ || v == "1"@ || v == "true"@
                || v == "yes"@
            &&& config::switch_of(value) == Some(false) <==> v == "off"@ || v == "0"@ || v
                == "false"@ || v == "no"@
        }),
{
    reveal_strlit("on");
    reveal_strlit("1");
    reveal_strlit("true");
    reveal_strlit("yes");
    reveal_strlit("off");
    reveal_strlit("0");
    reveal_strlit("false");
    reveal_strlit("no");
    assert("on"@.len() == 2 && "on"@[0] == 'o');
    assert("no"@.len() == 2 && "no"@[0] == 'n');
    assert("1"@.len() == 1 && "1"@[0] == '1');
    assert("0"@.len() == 1 && "0"@[0] == '0');
    assert("true"@.len() == 4 && "false"@.len() == 5);
    assert("yes"@.len() == 3 && "yes"@[0] == 'y');
    assert("off"@.len() == 3 && "off"@[0] == 'o');
}

/// The words for a policy, in the same way.
pub proof fn law_policy_words(value: Seq<char>)
    ensures
        ({
            let v = text::lowered(text::trimmed(value));
            &&& config::policy_of(value) == Some(BackendExitPolicy::AlwaysOn) <==> v
                == "always-on"@ || v == "always_on"@ || v == "on"@
            &&& config::policy_of(value) == Some(BackendExitPolicy::AlwaysOff) <==> v
                == "always-off"@ || v == "always_off"@ || v == "off"@
            &&& config::policy_of(value) == Some(BackendExitPolicy::Query) <==> v == "query"@ || v
                == "ask"@
        }),
{
    reveal_strlit("always-on");
    reveal_strlit("always_on");
    reveal_strlit("on");
    reveal_strlit("always-off");
    reveal_strlit("always_off");
    reveal_strlit("off");
    reveal_strlit("query");
    reveal_strlit("ask");
    assert("always-on"@.len() == 9 && "always_on"@.len() == 9 && "on"@.len() == 2);
    assert("always-off"@.len() == 10 && "always_off"@.len() == 10);
    assert("off"@.len() == 3 && "off"@[0] == 'o');
    assert("ask"@.len() == 3 && "ask"@[0] == 'a');
    assert("query"@.len() == 5);
}

/// The hosts that are never reached through the proxy of the system: this machine, and the networks
/// around it.
pub proof fn law_bypass()
    ensures
        config::default_bypass(Platform::Linux)
            == "localhost,127.0.0.1,192.168.0.0/16,10.0.0.0/8,172.16.0.0/12,::1"@,
        config::default_bypass(Platform::MacOs)
            == "127.0.0.1,192.168.0.0/16,10.0.0.0/8,172.16.0.0/12,localhost,*.local,*.crashlytics.com,<local>"@,
        config::default_bypass(Platform::Windows)
            == "localhost;127.*;192.168.*;10.*;172.16.*;172.17.*;172.18.*;172.19.*;172.20.*;172.21.*;172.22.*;172.23.*;172.24.*;172.25.*;172.26.*;172.27.*;172.28.*;172.29.*;172.30.*;172.31.*;<local>"@,
{
}

/// A search for a core asks on one socket after the other; it ends with the first on which one
/// answers, and that core is then connected. Until then the connection stays.
pub proof fn law_socket_search(
    search: SocketSearch,
    after: SocketSearch,
    before: MihomoClient,
    mihomo: MihomoClient,
    reply: SocketReply,
    step: SearchStep,
)
    requires
        search.at < search.sockets@.len(),
        search.goes_on(after, before, mihomo, reply, step),
    ensures
        after.sockets == search.sockets,
        ({
            let socket = search.sockets@[search.at as int]@;
            &&& reply is Version && text::trimmed(socket).len() > 0 ==> step == SearchStep::Done(
                true,
            ) && mihomo.endpoint is LocalSocket && mihomo.endpoint->socket_path@ == text::trimmed(
                socket,
            )
            &&& !(reply is Version) ==> mihomo == before && step != SearchStep::Done(true)
                && after.at == search.at + 1
            &&& !(reply is Version) && search.at + 1 < search.sockets@.len() ==> step is Ask
                && step->Ask_0@ == search.sockets@[search.at + 1]@
            &&& !(reply is Version) && search.at + 1 == search.sockets@.len() ==> step
                == SearchStep::Done(false)
        }),
{
}

/// What the search tells of a socket.
pub proof fn law_socket_notes(
    label: Seq<char>,
    socket: Seq<char>,
    v: client::VersionResp,
    err: String,
)
    requires
        text::trimmed(socket).len() > 0,
    ensures
        health::adopt_notes(socket, SocketReply::Missing).len() == 0,
        health::adopt_notes(socket, SocketReply::Unusable(err)) == seq![
            "adopt local socket failed: "@ + socket + " ("@ + err@ + ")"@,
        ],
        health::adopt_notes(socket, SocketReply::Unreachable(err)) == seq![
            "socket candidate unreachable: "@ + socket + " ("@ + err@ + ")"@,
        ],
        health::adopt_notes(socket, SocketReply::Version(v)) == seq![
            "adopted local socket => "@ + socket + " (mihomo "@ + v.version@ + ")"@,
        ],
        label != "local://"@ + socket ==> health::existing_notes(
            label,
            socket,
            SocketReply::Version(v),
        ) == seq!["adopted existing mihomo socket => "@ + socket + " (mihomo "@ + v.version@ + ")"@],
        health::existing_notes("local://"@ + socket, socket, SocketReply::Version(v)).len() == 0,
        health::existing_notes(label, socket, SocketReply::Missing).len() == 0,
        health::version_of(Ok(v)) == Ok::<Seq<char>, Seq<char>>(v.version@),
        health::version_of(Err(err)) == Err::<Seq<char>, Seq<char>>(err@),
{
}

/// The other searches look at the place where they are, and are at an end behind the last.
pub proof fn law_searches(
    places: PlaceSearch,
    look: PlaceStep,
    homes: HintSearch,
    read: HintStep,
    copy: SafeCopy,
    attempt: CopyStep,
)
    requires
        places.is_step(look),
        homes.is_step(read),
        copy.is_step(attempt),
    ensures
        places.at < places.places@.len() ==> look is Look && look->Look_0@
            == places.places@[places.at as int]@,
        places.at >= places.places@.len() ==> look == PlaceStep::Done(None),
        homes.at < homes.dirs@.len() ==> read is Read && read->config@ == paths::joined(
            homes.platform,
            homes.dirs@[homes.at as int]@,
            "config.yaml"@,
        ) && read->verge@ == paths::joined(
            homes.platform,
            homes.dirs@[homes.at as int]@,
            "verge.yaml"@,
        ),
        homes.at >= homes.dirs@.len() ==> read == HintStep::Done(None),
        copy.at < copy.dirs@.len() ==> attempt is Try && attempt->Try_0@
            == copy.dirs@[copy.at as int]@ && attempt->Try_1@ == paths::joined(
            copy.platform,
            copy.dirs@[copy.at as int]@,
            copy.file@,
        ),
        copy.at >= copy.dirs@.len() ==> attempt is Done && attempt->Done_0 is Err
            && attempt->Done_0->Err_0@ == "write safe-path profile failed: "@ + copy.last_error@,
{
}

/// Where the files of another program are looked for, as far as the environment names directories.
pub proof fn law_app_homes(platform: Platform, xdg: &str, home: &str)
    ensures
        hint::app_homes(platform, None, None).len() == 0,
        hint::app_homes(platform, Some(xdg), None) == hint::homes_below(platform, seq![], xdg@),
        hint::app_homes(platform, None, Some(home)) == hint::homes_below(
            platform,
            seq![],
            paths::joined(platform, paths::joined(platform, home@, ".local"@), "share"@),
        ),
        hint::app_homes(platform, Some(xdg), Some(home)) == hint::homes_below(
            platform,
            hint::homes_below(platform, seq![], xdg@),
            paths::joined(platform, paths::joined(platform, home@, ".local"@), "share"@),
        ),
{
}

/// A list that takes in others keeps its order, and holds what is in either, each once.
pub proof fn law_all_taken_in(list: Seq<Seq<char>>, more: Seq<Seq<char>>, t: Seq<char>)
    ensures
        hint::with_all_new(list, more).contains(t) <==> list.contains(t) || more.contains(t),
        list.is_prefix_of(hint::with_all_new(list, more)),
    decreases more.len(),
{
    if more.len() > 0 {
        let front = more.drop_last();
        law_all_taken_in(list, front, t);
        law_all_taken_in(list, front, more.last());
        let a = hint::with_all_new(list, front);
        let b = hint::with_all_new(list, more);
        if more.contains(t) {
            let k = more.index_of(t);
            if k < front.len() {
                assert(front[k] == t);
            }
        }
        if front.contains(t) {
            let k = front.index_of(t);
            assert(more[k] == t);
        }
        assert(more[more.len() - 1] == more.last());
        if !a.contains(more.last()) {
            assert(b == a.push(more.last()));
            if a.contains(t) {
                let k = a.index_of(t);
                assert(b[k] == t);
            }
            assert(b[a.len() as int] == more.last());
            if b.contains(t) {
                let k = b.index_of(t);
                if k < a.len() {
                    assert(a[k] == t);
                }
            }
        }
    }
}

/// In an increasing list every text comes before those behind it, so none is there twice.
pub proof fn law_increasing(list: Seq<Seq<char>>, i: int, j: int)
    requires
        order::increasing(list),
        0 <= i < j < list.len(),
    ensures
        order::before(list[i], list[j]),
        list[i] != list[j],
{
    lemma_not_before_itself(list[i]);
}

proof fn lemma_not_before_itself(s: Seq<char>)
    ensures
        !order::before(s, s),
    decreases s.len(),
{
    if s.len() > 0 {
        lemma_not_before_itself(s.skip(1));
    }
}

/// A core that was started has answered where it was asked, on its socket or at its address, and
/// did answer.
pub proof fn law_answers(
    target: LaunchTarget,
    left: u8,
    reply: LaunchReply,
    c: MihomoClient,
)
    ensures
        launch::has_answered(LaunchStep::Socket(left), reply, target) <==> reply
            == LaunchReply::Answered && text::trimmed(target.socket@).len() > 0,
        launch::has_answered(LaunchStep::Http, reply, target) <==> reply == LaunchReply::Answered
            && client::can_connect(target.http@, target.secret@),
        !launch::has_answered(LaunchStep::ReadLog, reply, target),
        launch::is_launch_client(LaunchStep::Socket(left), target, c) ==> c.endpoint is LocalSocket
            && c.endpoint->socket_path@ == text::trimmed(target.socket@) && c.secret is None,
        launch::is_launch_client(LaunchStep::Http, target, c) ==> c.endpoint is Http
            && c.endpoint->base_url@ == target.http@,
{
}

/// What is told while a core is started.
pub proof fn law_launch_lines(pid: u32, detail: Seq<char>, lines: Seq<Seq<char>>, i: int)
    ensures
        launch::start_notes(None, false).len() == 0,
        launch::start_notes(Some(pid), false) == seq![
            "removed stale managed core pid file (pid="@ + number::dec(pid as nat) + ")"@,
        ],
        launch::start_notes(None, true) =~= seq![
            "direct-core mode: skip service IPC (set VERGE_TUI_USE_SERVICE_IPC=1 to enable)"@,
        ],
        launch::bootstrap_notes(BootstrapStep::Probe, true, detail) == seq![
            "service probe: "@ + detail,
            "requested start for clash-verge-service.service"@,
        ],
        launch::bootstrap_notes(BootstrapStep::Probe, false, detail) == seq![
            "service probe: "@ + detail,
            "service needs privilege. run once: sudo systemctl start clash-verge-service.service"@,
        ],
        launch::bootstrap_notes(BootstrapStep::FindProgram, true, detail) == seq![
            "service binary detected but not started directly (needs root service): "@ + detail,
        ],
        launch::bootstrap_notes(BootstrapStep::AwaitStarted, false, detail) == seq![
            "service IPC not ready; fallback to user-mode core process"@,
        ],
        launch::bootstrap_notes(BootstrapStep::AwaitStarted, true, detail).len() == 0,
        launch::bootstrap_notes(BootstrapStep::Await, false, detail).len() == 0,
        launch::core_log_notes(lines).len() == lines.len(),
        0 <= i < lines.len() ==> launch::core_log_notes(lines)[i] == "core-log> "@ + lines[i],
        launch::service_primary() == "/tmp/verge/clash-verge-service.sock"@,
        launch::service_legacy() == "/tmp/clash-verge-service.sock"@,
{
}

/// What is told of ports and of the tunnel.
pub proof fn law_port_and_tun_lines(
    old_port: u16,
    port: u16,
    on: TunState,
    config: json::JsonModel,
    endpoint: Seq<char>,
)
    ensures
        runtime::port_notes(port, port).len() == 0,
        old_port != port ==> runtime::port_notes(old_port, port) == seq![
            "managed core mixed-port adjusted: "@ + number::dec(old_port as nat) + " -> "@
                + number::dec(port as nat) + " (port conflict)"@,
        ],
        apply::port_debug(Some(port)) == "Some("@ + number::dec(port as nat) + ")"@,
        apply::port_debug(None) == "None"@,
        tunnel::bool_debug(Some(true)) == "Some(true)"@,
        tunnel::bool_debug(Some(false)) == "Some(false)"@,
        tunnel::bool_debug(None) == "None"@,
        process::signed_dec(-1) == "-"@ + number::dec(1),
        process::signed_dec(port as int) == number::dec(port as nat),
        json::member(config, "tun"@) is None ==> tunnel::tun_check_note(config, endpoint)
            == "tun post-check: enable="@ + "None"@ + ", device="@ + "-"@ + ", stack="@ + "-"@
            + ", endpoint="@ + endpoint,
        on.holds(config) ==> tunnel::tun_check_note(config, endpoint) == "tun post-check: enable="@
            + (if on.enable {
            "Some(true)"@
        } else {
            "Some(false)"@
        }) + ", device="@ + on.device + ", stack="@ + on.stack + ", endpoint="@ + endpoint,
{
}

/// The tunnel as a core tells it.
pub struct TunState {
    pub enable: bool,
    pub device: Seq<char>,
    pub stack: Seq<char>,
}

impl TunState {
    /// Whether a configuration tells this.
    pub open spec fn holds(self, config: json::JsonModel) -> bool {
        match json::member(config, "tun"@) {
            Some(tun) => {
                &&& json::member(tun, "enable"@) == Some(json::JsonModel::Bool(self.enable))
                &&& json::member(tun, "device"@) == Some(json::JsonModel::Text(self.device))
                &&& json::member(tun, "stack"@) == Some(json::JsonModel::Text(self.stack))
            },
            None => false,
        }
    }
}

/// How a core comes to the privileges that the tunnel needs.
pub proof fn law_privilege_hint(core: Seq<char>)
    ensures
        process::privilege_hint(Platform::Linux, Some(core))
            == "tun permission hint: run `sudo setcap cap_net_admin,cap_net_raw+ep "@ + core
            + "` or start privileged service `sudo systemctl restart clash-verge-service.service`"@,
        process::privilege_hint(Platform::Linux, None)
            == "tun permission hint: run `sudo setcap cap_net_admin,cap_net_raw+ep "@
            + "/usr/bin/verge-mihomo"@
            + "` or start privileged service `sudo systemctl restart clash-verge-service.service`"@,
        process::privilege_hint(Platform::Windows, Some(core))
            == "tun permission hint: run TUI with elevated privileges or use privileged service mode"@,
{
}

/// Whether a text starts or ends with another, or holds it, is what it looks like.
pub proof fn law_parts_of_texts(a: Seq<char>, b: Seq<char>, c: Seq<char>)
    ensures
        text::has_prefix(a + b, a),
        text::has_suffix(a + b, b),
        text::has_text(a + b + c, b),
        text::after_prefix(a + b, a) == Some(b),
        text::has_prefix(a, b) ==> a.len() >= b.len() && a == b + a.skip(b.len() as int),
        text::has_suffix(a, b) ==> a.len() >= b.len() && a == a.take(a.len() - b.len()) + b,
        !text::has_prefix(a, b) ==> text::after_prefix(a, b) is None,
{
    steps::lemma_text_within(a, b, c);
    assert((a + b).subrange(0, a.len() as int) =~= a);
    assert((a + b).subrange(a.len() as int, (a + b).len() as int) =~= b);
    assert((a + b).skip(a.len() as int) =~= b);
    if text::has_prefix(a, b) {
        assert(a =~= a.subrange(0, b.len() as int) + a.skip(b.len() as int));
    }
    if text::has_suffix(a, b) {
        assert(a =~= a.take(a.len() - b.len()) + a.subrange(a.len() - b.len(), a.len() as int));
    }
}

/// An empty secret is none.
pub proof fn law_secrets(secret: &str)
    ensures
        client::effective_secret(None) is None,
        secret@.len() == 0 ==> client::effective_secret(Some(secret)) is None,
        secret@.len() > 0 ==> client::effective_secret(Some(secret)) == Some(secret@),
{
}

/// What is told where a core does not answer that the service was to start, and why the service was
/// waited for in vain.
pub proof fn law_vain_waits(target: LaunchTarget, wait: launch::ServiceWait, c: MihomoClient)
    ensures
        launch::launch_notes(launch::Launcher::Service, LaunchStep::Http, false, target) == seq![
            "service launched core, but controller not ready in time (socket="@ + target.socket@
                + ", http="@ + target.http@ + ")"@,
        ],
        wait.last_error is None ==> wait.spec_error() == "-"@,
        wait.last_error is Some ==> wait.spec_error() == wait.last_error->0@,
        !launch::is_launch_client(LaunchStep::ReadLog, target, c),
        !launch::is_launch_client(LaunchStep::Done(true), target, c),
{
}

} // verus!
