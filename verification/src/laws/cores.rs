//! The core: how it is reached, where it is found, and what it is started with.

use crate::client;
use crate::client::{Endpoint, MihomoClient, ProxyNode};
use crate::config::{Platform, VergeConfig};
use crate::health;
use crate::hint;
use crate::hint::ClashVergeApiHint;
use crate::json;
use crate::json::JsonModel;
use crate::laws::words;
use crate::number;
use crate::order;
use crate::paths;
use crate::proxies;
use crate::proxies::Group;
use crate::runtime;
use crate::runtime::RuntimeChoice;
use crate::text;
use crate::weburl;
use crate::yaml;
use crate::yaml::Yaml;
use vstd::prelude::*;

verus! {

/// Under a name stands the first field with that name.
pub proof fn law_first_field(fields: Seq<(Seq<char>, JsonModel)>, name: Seq<char>, i: int)
    ensures
        0 <= i < fields.len() && fields[i].0 == name && (forall|j: int|
            0 <= j < i ==> (#[trigger] fields[j]).0 != name) ==> json::member(
            JsonModel::Object(fields),
            name,
        ) == Some(fields[i].1),
        (forall|j: int| 0 <= j < fields.len() ==> (#[trigger] fields[j]).0 != name) ==> json::member(
            JsonModel::Object(fields),
            name,
        ) is None,
    decreases fields.len(),
{
    if fields.len() > 0 {
        let rest = fields.skip(1);
        assert(forall|j: int| 0 <= j < rest.len() ==> rest[j] == fields[j + 1]);
        law_first_field(rest, name, i - 1);
        if 0 < i < fields.len() && (forall|j: int| 0 <= j < i ==> (#[trigger] fields[j]).0 != name) {
            assert(fields[0].0 != name);
            assert forall|j: int| 0 <= j < i - 1 implies (#[trigger] rest[j]).0 != name by {
                assert(fields[j + 1].0 != name);
            }
        }
        if forall|j: int| 0 <= j < fields.len() ==> (#[trigger] fields[j]).0 != name {
            assert(fields[0].0 != name);
            assert forall|j: int| 0 <= j < rest.len() implies (#[trigger] rest[j]).0 != name by {
                assert(fields[j + 1].0 != name);
            }
        }
    }
}

/// What a value is read as is what it is; a value of another kind is not read.
pub proof fn law_json_is_read(b: bool, n: u64, s: Seq<char>)
    ensures
        json::as_bool_of(Some(JsonModel::Bool(b))) == Some(b),
        json::as_number_of(Some(JsonModel::Number(n))) == Some(n),
        json::as_text_of(Some(JsonModel::Text(s))) == Some(s),
        json::as_bool_of(Some(JsonModel::Text(s))) is None,
        json::as_number_of(Some(JsonModel::Text(s))) is None,
        json::as_text_of(Some(JsonModel::Number(n))) is None,
        json::as_bool_of(None) is None,
        json::as_number_of(None) is None,
        json::as_text_of(None) is None,
        json::member(JsonModel::Null, s) is None,
{
}

/// The port that a core says it listens on, where it is one.
pub proof fn law_core_port(config: JsonModel, n: u64)
    ensures
        json::member(config, "mixed-port"@) == Some(JsonModel::Number(n)) && n <= 65535
            ==> client::core_mixed_port(config) == Some(n as u16),
        json::member(config, "mixed-port"@) == Some(JsonModel::Number(n)) && n > 65535
            ==> client::core_mixed_port(config) is None,
        json::member(config, "mixed-port"@) is None ==> client::core_mixed_port(config) is None,
{
}

proof fn lemma_tun_words()
    ensures
        "tun"@.len() == 3 && "tun"@[0] == 't',
        "dns"@.len() == 3 && "dns"@[0] == 'd',
        "enable"@.len() == 6 && "enable"@[0] == 'e',
        "device"@.len() == 6 && "device"@[0] == 'd',
        "stack"@.len() == 5,
        "auto-route"@.len() == 10 && "auto-route"@[0] == 'a',
        "strict-route"@.len() == 12,
        "auto-detect-interface"@.len() == 21,
        "dns-hijack"@.len() == 10 && "dns-hijack"@[0] == 'd',
        "enhanced-mode"@.len() == 13 && "enhanced-mode"@[0] == 'e',
        "fake-ip-range"@.len() == 13 && "fake-ip-range"@[0] == 'f',
{
    reveal_strlit("tun");
    reveal_strlit("dns");
    reveal_strlit("enable");
    reveal_strlit("device");
    reveal_strlit("stack");
    reveal_strlit("auto-route");
    reveal_strlit("strict-route");
    reveal_strlit("auto-detect-interface");
    reveal_strlit("dns-hijack");
    reveal_strlit("enhanced-mode");
    reveal_strlit("fake-ip-range");
}

/// What the core is told to switch the tunnel on: the switch, the device and the rest of its
/// settings, and that it answers names itself.
pub proof fn law_tun_on_request()
    ensures
        ({
            let patch = client::tun_patch_model(true);
            let tun = json::member(patch, "tun"@);
            let dns = json::member(patch, "dns"@);
            &&& tun is Some && dns is Some
            &&& json::member(tun->0, "enable"@) == Some(JsonModel::Bool(true))
            &&& json::member(tun->0, "device"@) == Some(JsonModel::Text("vergetui0"@))
            &&& json::member(tun->0, "stack"@) == Some(JsonModel::Text("gvisor"@))
            &&& json::member(tun->0, "auto-route"@) == Some(JsonModel::Bool(true))
            &&& json::member(tun->0, "strict-route"@) == Some(JsonModel::Bool(false))
            &&& json::member(tun->0, "auto-detect-interface"@) == Some(JsonModel::Bool(true))
            &&& json::member(tun->0, "dns-hijack"@) == Some(
                JsonModel::Array(seq![JsonModel::Text("any:53"@)]),
            )
            &&& json::member(dns->0, "enable"@) == Some(JsonModel::Bool(true))
            &&& json::member(dns->0, "enhanced-mode"@) == Some(JsonModel::Text("fake-ip"@))
            &&& json::member(dns->0, "fake-ip-range"@) == Some(JsonModel::Text("198.18.0.1/16"@))
        }),
{
    lemma_tun_words();
    let patch = client::tun_patch_model(true);
    let fields = patch->Object_0;
    law_first_field(fields, "tun"@, 0);
    law_first_field(fields, "dns"@, 1);
    let tun = json::member(patch, "tun"@)->0->Object_0;
    let dns = json::member(patch, "dns"@)->0->Object_0;
    law_first_field(tun, "enable"@, 0);
    law_first_field(tun, "device"@, 1);
    law_first_field(tun, "stack"@, 2);
    law_first_field(tun, "auto-route"@, 3);
    law_first_field(tun, "strict-route"@, 4);
    law_first_field(tun, "auto-detect-interface"@, 5);
    law_first_field(tun, "dns-hijack"@, 6);
    law_first_field(dns, "enable"@, 0);
    law_first_field(dns, "enhanced-mode"@, 1);
    law_first_field(dns, "fake-ip-range"@, 2);
}

/// What the core is told to switch the tunnel off: the switch, and nothing else.
pub proof fn law_tun_off_request(name: Seq<char>)
    ensures
        ({
            let patch = client::tun_patch_model(false);
            let tun = json::member(patch, "tun"@);
            &&& tun is Some
            &&& json::member(tun->0, "enable"@) == Some(JsonModel::Bool(false))
            &&& name != "tun"@ ==> json::member(patch, name) is None
            &&& name != "enable"@ ==> json::member(tun->0, name) is None
        }),
{
    lemma_tun_words();
    let patch = client::tun_patch_model(false);
    let fields = patch->Object_0;
    law_first_field(fields, "tun"@, 0);
    law_first_field(fields, name, 0);
    let tun = json::member(patch, "tun"@)->0->Object_0;
    law_first_field(tun, "enable"@, 0);
    law_first_field(tun, name, 0);
}

/// A controller at a socket is asked at `localhost`; one at an address, there.
pub proof fn law_request_urls(endpoint: Endpoint, path: Seq<char>)
    requires
        path.len() > 0 ==> path[0] != '/',
    ensures
        endpoint is LocalSocket ==> client::url_at(endpoint, seq!['/'] + path) == Some(
            "http://localhost/"@ + path,
        ),
        endpoint is Http ==> client::url_at(endpoint, seq!['/'] + path) == weburl::url_joined(
            endpoint->base_url@,
            seq!['/'] + path,
        ),
{
    words::law_without_leading(1, '/', path);
    assert(Seq::new(1, |i: int| '/') =~= seq!['/']);
}

/// A delay is asked for under the name of the node, with the address and the limit; both texts are
/// written so that they can stand in a URL.
pub proof fn law_delay_request(node: Seq<char>, url: Seq<char>, ms: u64)
    ensures
        MihomoClient::delay_path(node, url, ms) == "/proxies/"@ + weburl::percent_encoded(
            vstd::utf8::encode_utf8(node),
        ) + "/delay?url="@ + weburl::percent_encoded(vstd::utf8::encode_utf8(url)) + "&timeout="@
            + number::dec(ms as nat),
{
}

/// A stream is read from a plain controller in plain, and from a secured one secured.
pub proof fn law_stream_schemes(scheme: Seq<char>)
    ensures
        client::stream_scheme("http"@) == Some("ws"@),
        client::stream_scheme("https"@) == Some("wss"@),
        scheme != "http"@ && scheme != "https"@ ==> client::stream_scheme(scheme) is None,
{
    reveal_strlit("http");
    reveal_strlit("https");
    assert("http"@.len() == 4 && "https"@.len() == 5);
}

/// A client for a controller asks at its address, with its secret where there is one.
pub proof fn law_connection(url: Seq<char>, secret: Seq<char>, c: MihomoClient)
    requires
        client::connects(url, secret, c),
    ensures
        c.endpoint is Http,
        c.endpoint->base_url@ == url,
        weburl::url_parsed(url) == Some(c.endpoint->label@),
        secret.len() > 0 ==> c.secret is Some && c.secret->0@ == secret,
        secret.len() == 0 ==> c.secret is None,
        client::bearer(secret) == "Bearer "@ + secret,
        c.spec_label() == c.endpoint->label@,
{
}

/// Of a whole stream, a frame ends it only where it has ended or broken; and only a value is given
/// on.
pub proof fn law_frames(event: client::StreamEvent)
    ensures
        client::stream_action(event) == client::StreamAction::Stop <==> event
            == client::StreamEvent::Ended || event == client::StreamEvent::Broken,
        client::stream_action(event) == client::StreamAction::Deliver <==> event
            == client::StreamEvent::Value,
{
}

/// A controller is written with or without its scheme and host.
pub proof fn law_controller_spellings(rest: Seq<char>)
    requires
        rest.len() > 0,
        !text::is_space(rest.last()),
    ensures
        hint::controller_url_of("http://"@ + rest) == Some("http://"@ + rest),
        hint::controller_url_of("https://"@ + rest) == Some("https://"@ + rest),
        hint::controller_url_of(":"@ + rest) == Some("http://127.0.0.1:"@ + rest),
        !text::is_space(rest[0]) && rest[0] != ':' && rest[0] != 'h' ==> hint::controller_url_of(
            rest,
        ) == Some("http://"@ + rest),
        hint::controller_url_of(seq![' '] + (":"@ + rest)) == Some("http://127.0.0.1:"@ + rest),
        hint::controller_url_of(seq![]) is None,
{
    reveal_strlit("http://");
    reveal_strlit("https://");
    reveal_strlit(":");
    reveal_strlit("http://127.0.0.1");
    reveal_strlit("http://127.0.0.1:");
    let a = "http://"@ + rest;
    let b = "https://"@ + rest;
    let c = ":"@ + rest;
    assert(a[0] == 'h' && b[0] == 'h' && c[0] == ':');
    assert(a.last() == rest.last() && b.last() == rest.last() && c.last() == rest.last());
    words::law_trim_keeps(a);
    words::law_trim_keeps(b);
    words::law_trim_keeps(c);
    assert(a.subrange(0, 7) =~= "http://"@);
    assert(b.subrange(0, 8) =~= "https://"@);
    assert(c.subrange(0, 1) =~= ":"@);
    if text::has_prefix(c, "http://"@) {
        assert(c.subrange(0, 7)[0] == c[0]);
    }
    if text::has_prefix(c, "https://"@) {
        assert(c.subrange(0, 8)[0] == c[0]);
    }
    assert("http://127.0.0.1"@ + c =~= "http://127.0.0.1:"@ + rest);
    if !text::is_space(rest[0]) && rest[0] != ':' && rest[0] != 'h' {
        words::law_trim_keeps(rest);
        if text::has_prefix(rest, "http://"@) {
            assert(rest.subrange(0, 7)[0] == rest[0]);
        }
        if text::has_prefix(rest, "https://"@) {
            assert(rest.subrange(0, 8)[0] == rest[0]);
        }
        if text::has_prefix(rest, ":"@) {
            assert(rest.subrange(0, 1)[0] == rest[0]);
        }
    }
    words::law_trim_keeps(seq![]);
}

/// What another program's configuration tells: its controller, its socket, its secret as text, and
/// its port in the full range.
pub proof fn law_hint_is_read(
    h: ClashVergeApiHint,
    platform: Platform,
    dir: Seq<char>,
    config: Seq<(Yaml, Yaml)>,
    verge: Option<Seq<(Yaml, Yaml)>>,
    s: Seq<char>,
    port: u16,
)
    requires
        hint::hint_of(h, platform, dir, config, verge),
    ensures
        yaml::lookup(config, "external-controller"@) == Some(Yaml::Text(s)) ==> text::opt_text(
            h.controller_url,
        ) == hint::controller_url_of(s),
        yaml::lookup(config, "external-controller"@) is None ==> h.controller_url is None,
        yaml::lookup(config, "secret"@) == Some(Yaml::Text(s)) ==> text::opt_text(h.secret) == Some(
            s,
        ),
        yaml::lookup(config, "secret"@) == Some(Yaml::Number(s, None)) ==> text::opt_text(h.secret)
            == Some(s),
        yaml::lookup(config, "secret"@) == Some(Yaml::Bool(true)) ==> text::opt_text(h.secret)
            == Some("true"@),
        yaml::lookup(config, "secret"@) is None ==> h.secret is None,
        yaml::lookup(config, "mixed-port"@) == Some(Yaml::Number(s, Some(port as u64)))
            ==> h.mixed_port == Some(port),
        yaml::lookup(config, "mixed-port"@) == Some(Yaml::Text(number::dec(port as nat)))
            ==> h.mixed_port == Some(port),
        yaml::lookup(config, "mixed-port"@) is None ==> h.mixed_port is None,
        yaml::lookup(config, "external-controller-unix"@) == Some(Yaml::Text(s)) && text::trimmed(
            s,
        ).len() > 0 ==> text::opt_text(h.socket_path) == Some(text::trimmed(s)),
        yaml::lookup(config, "external-controller-unix"@) is None && yaml::lookup(
            config,
            "external-controller-pipe"@,
        ) == Some(Yaml::Text(s)) && text::trimmed(s).len() > 0 ==> text::opt_text(h.socket_path)
            == Some(text::trimmed(s)),
        yaml::lookup(config, "external-controller-unix"@) is None && yaml::lookup(
            config,
            "external-controller-pipe"@,
        ) is None ==> h.socket_path is None,
        h.app_home@ == dir,
        h.source_config@ == paths::joined(platform, dir, "config.yaml"@),
{
    let d = number::dec(port as nat);
    number::lemma_dec_digits(port as nat);
    number::law_numeral_round_trip(port as nat, u16::MAX as nat);
    assert(number::is_digit(d[0]) && number::is_digit(d[d.len() - 1]));
    words::law_trim_keeps(d);
}

/// What another program's own settings tell: whether its controller is open, and which core it
/// uses.
pub proof fn law_hint_of_settings(
    h: ClashVergeApiHint,
    platform: Platform,
    dir: Seq<char>,
    config: Seq<(Yaml, Yaml)>,
    verge: Seq<(Yaml, Yaml)>,
    s: Seq<char>,
    open: bool,
)
    requires
        hint::hint_of(h, platform, dir, config, Some(verge)),
    ensures
        yaml::lookup(verge, "enable_external_controller"@) == Some(Yaml::Bool(open))
            ==> h.enable_external_controller == Some(open),
        yaml::lookup(verge, "enable_external_controller"@) is None && yaml::lookup(
            verge,
            "enable-external-controller"@,
        ) == Some(Yaml::Bool(open)) ==> h.enable_external_controller == Some(open),
        yaml::lookup(verge, "clash_core"@) == Some(Yaml::Text(s)) && text::trimmed(s).len() > 0
            ==> text::opt_text(h.clash_core) == Some(text::trimmed(s)),
        yaml::lookup(verge, "clash_core"@) is None ==> h.clash_core is None,
{
}

/// Adopting a controller takes over its address, and its secret and its port where they are told;
/// all else in the settings stays. It is the same controller where all three are the same.
pub proof fn law_adopted_settings(h: ClashVergeApiHint, before: VergeConfig, after: VergeConfig)
    requires
        health::adopts(h, before, after),
    ensures
        h.controller_url == Some(after.controller_url),
        h.secret is Some ==> after.secret == h.secret->0,
        h.secret is None ==> after.secret == before.secret,
        h.mixed_port is Some ==> after.mixed_port == h.mixed_port->0,
        h.mixed_port is None ==> after.mixed_port == before.mixed_port,
        after == (VergeConfig {
            controller_url: after.controller_url,
            secret: after.secret,
            mixed_port: after.mixed_port,
            ..before
        }),
        health::same_controller(before, after) <==> before.controller_url@ == after.controller_url@
            && before.secret@ == after.secret@ && before.mixed_port == after.mixed_port,
        health::sockets_first(h) <==> h.enable_external_controller == Some(false),
{
}

/// A core that answers on a socket is connected to there, without a secret.
pub proof fn law_adopted_socket(c: MihomoClient, socket: Seq<char>, reply: health::SocketReply)
    ensures
        health::found_on(socket, reply) <==> reply is Version && text::trimmed(socket).len() > 0,
        health::is_connected_to(c, socket) ==> c.endpoint is LocalSocket
            && c.endpoint->socket_path@ == text::trimmed(socket) && c.secret is None
            && c.spec_label() == "local://"@ + text::trimmed(socket),
{
}

/// A list that takes in a text holds it once more only where it did not hold it.
pub proof fn law_taken_in_once(list: Seq<Seq<char>>, item: Seq<char>, platform: Platform)
    ensures
        hint::with_new(list, item).contains(item),
        list.contains(item) ==> hint::with_new(list, item) == list,
        !list.contains(item) ==> hint::with_new(list, item) == list.push(item),
        (exists|i: int| 0 <= i < list.len() && paths::same_path(platform, #[trigger] list[i], item))
            ==> hint::with_new_path(platform, list, item) == list,
        (forall|i: int|
            0 <= i < list.len() ==> !paths::same_path(platform, #[trigger] list[i], item))
            ==> hint::with_new_path(platform, list, item) == list.push(item),
{
    if !list.contains(item) {
        assert(list.push(item)[list.len() as int] == item);
    }
}

/// The files of another program are looked for below the directory for data that the environment
/// names, then below `.local/share` in the home directory, released before in development.
pub proof fn law_homes(platform: Platform, list: Seq<Seq<char>>, root: Seq<char>)
    requires
        list.len() == 0,
    ensures
        ({
            let homes = hint::homes_below(platform, list, root);
            &&& homes.len() >= 1
            &&& homes[0] == paths::joined(
                platform,
                root,
                "io.github.clash-verge-rev.clash-verge-rev"@,
            )
            &&& homes.len() == 2 ==> homes[1] == paths::joined(
                platform,
                root,
                "io.github.clash-verge-rev.clash-verge-rev.dev"@,
            )
            &&& homes.len() <= 2
            &&& homes.len() == 1 ==> paths::same_path(
                platform,
                homes[0],
                paths::joined(platform, root, "io.github.clash-verge-rev.clash-verge-rev.dev"@),
            )
        }),
        hint::default_data_home(platform, root) == paths::joined(
            platform,
            paths::joined(platform, root, ".local"@),
            "share"@,
        ),
{
    let a = paths::joined(platform, root, "io.github.clash-verge-rev.clash-verge-rev"@);
    let b = paths::joined(platform, root, "io.github.clash-verge-rev.clash-verge-rev.dev"@);
    law_taken_in_once(list, a, platform);
    law_taken_in_once(seq![a], b, platform);
    assert(list.push(a) =~= seq![a]);
    assert(seq![a][0] == a);
}

/// The sockets that are tried: the known ones, and for another program the one that it tells and
/// the one beside its configuration.
pub proof fn law_tried_sockets(platform: Platform, h: ClashVergeApiHint, path: Seq<char>)
    ensures
        hint::known_sockets() == seq![
            "/var/tmp/verge/verge-mihomo.sock"@,
            "/tmp/verge/verge-mihomo.sock"@,
            "/tmp/verge-tui/verge-mihomo.sock"@,
        ],
        hint::is_local_socket(platform, h, "/tmp/verge/verge-mihomo.sock"@),
        hint::is_local_socket(platform, h, "/var/tmp/verge/verge-mihomo.sock"@),
        h.socket_path is Some ==> hint::is_local_socket(platform, h, h.socket_path->0@),
        paths::parent_of(platform, h.source_config@) is Some ==> hint::is_local_socket(
            platform,
            h,
            paths::joined(
                platform,
                paths::joined(
                    platform,
                    paths::parent_of(platform, h.source_config@)->0,
                    "verge"@,
                ),
                "verge-mihomo.sock"@,
            ),
        ),
        hint::is_local_socket(platform, h, path) && h.socket_path is None && paths::parent_of(
            platform,
            h.source_config@,
        ) is None ==> path == "/tmp/verge/verge-mihomo.sock"@ || path
            == "/var/tmp/verge/verge-mihomo.sock"@,
{
}

/// A core of our own listens on a socket of our own, unless the panel works with another program
/// that tells one.
pub proof fn law_own_socket(h: &ClashVergeApiHint)
    ensures
        hint::spawn_socket(None, true, Platform::Linux) == "/tmp/verge-tui/verge-mihomo.sock"@,
        hint::spawn_socket(None, false, Platform::MacOs) == "/tmp/verge-tui/verge-mihomo.sock"@,
        hint::spawn_socket(Some(h), true, Platform::Linux) == "/tmp/verge-tui/verge-mihomo.sock"@,
        hint::spawn_socket(Some(h), true, Platform::Windows) == r"\\.\pipe\verge-tui-mihomo"@,
        h.socket_path is Some && h.socket_path->0@.len() > 0 ==> forall|platform: Platform|
            #[trigger] hint::spawn_socket(Some(h), false, platform) == h.socket_path->0@,
        h.socket_path is None ==> hint::spawn_socket(Some(h), false, Platform::Linux)
            == "/tmp/verge-tui/verge-mihomo.sock"@,
{
}

/// A core of our own runs with a configuration made of the chosen profile, where its document is
/// there. Only a panel that works with another program uses what that program runs with.
pub proof fn law_runtime_choice(
    platform: Platform,
    path: Seq<char>,
    h: &ClashVergeApiHint,
    runtime: bool,
    source: bool,
    there: bool,
)
    ensures
        runtime::runtime_choice(platform, Some(path), None, true, runtime, source, true) == (
            Ok::<_, Seq<char>>(RuntimeChoice::Build { profile: path }),
            Seq::<Seq<char>>::empty(),
        ),
        runtime::runtime_choice(platform, Some(path), Some(h), true, runtime, source, true) == (
            Ok::<_, Seq<char>>(RuntimeChoice::Build { profile: path }),
            Seq::<Seq<char>>::empty(),
        ),
        runtime::runtime_choice(platform, Some(path), Some(h), false, true, source, there) == (
            Ok::<_, Seq<char>>(
                RuntimeChoice::Use {
                    home: h.app_home@,
                    config: paths::joined(platform, h.app_home@, "clash-verge.yaml"@),
                },
            ),
            Seq::<Seq<char>>::empty(),
        ),
        runtime::runtime_choice(platform, Some(path), Some(h), false, false, true, there) == (
            Ok::<_, Seq<char>>(
                RuntimeChoice::Use { home: h.app_home@, config: h.source_config@ },
            ),
            Seq::<Seq<char>>::empty(),
        ),
        runtime::runtime_choice(platform, Some(path), Some(h), false, false, false, true) == (
            Ok::<_, Seq<char>>(RuntimeChoice::Build { profile: path }),
            Seq::<Seq<char>>::empty(),
        ),
        runtime::runtime_choice(platform, Some(path), Some(h), true, runtime, source, false) == (
            Ok::<_, Seq<char>>(
                RuntimeChoice::Use { home: h.app_home@, config: h.source_config@ },
            ),
            seq![
                "selected TUI profile file missing: "@ + path + ". fallback runtime config => "@
                    + h.source_config@,
            ],
        ),
        runtime::runtime_choice(platform, None, Some(h), true, runtime, source, there) == (
            Ok::<_, Seq<char>>(
                RuntimeChoice::Use { home: h.app_home@, config: h.source_config@ },
            ),
            seq!["no TUI profile found; fallback runtime config => "@ + h.source_config@],
        ),
        runtime::runtime_choice(platform, Some(path), None, true, runtime, source, false) == (
            Err::<RuntimeChoice<Seq<char>>, _>("selected TUI profile file missing: "@ + path),
            Seq::<Seq<char>>::empty(),
        ),
        runtime::runtime_choice(platform, None, None, true, runtime, source, there) == (
            Err::<RuntimeChoice<Seq<char>>, _>("no profile available to build runtime config"@),
            Seq::<Seq<char>>::empty(),
        ),
{
}

/// The profile that a core of our own runs with is the first one with the current uid, and where
/// none is current, the first of all.
pub proof fn law_running_profile(
    profiles: Seq<crate::profile::ProfileItem>,
    uid: Seq<char>,
    i: int,
)
    ensures
        0 <= i < profiles.len() && profiles[i].uid@ == uid && (forall|j: int|
            0 <= j < i ==> (#[trigger] profiles[j]).uid@ != uid) ==> runtime::runtime_profile(
            Some(uid),
            profiles,
        ) == Some(profiles[i]),
        (forall|j: int| 0 <= j < profiles.len() ==> (#[trigger] profiles[j]).uid@ != uid)
            ==> runtime::runtime_profile(Some(uid), profiles) is None,
        profiles.len() > 0 ==> runtime::runtime_profile(None, profiles) == Some(profiles[0]),
        profiles.len() == 0 ==> runtime::runtime_profile(None, profiles) is None,
{
    crate::profile::lemma_profile_index(profiles, uid);
    let n = crate::profile::profile_index(profiles, uid);
    assert(0 <= i < n ==> profiles[i].uid@ != uid);
    assert(0 <= n < i && n < profiles.len() ==> profiles[n].uid@ == uid);
}

/// The mixed port stays where it is free. Else it is the first free one from 17897 on, below 18497;
/// and where none of these is free, it stays.
pub proof fn law_port_choice<F: Fn(u16) -> bool>(
    is_free: F,
    free: spec_fn(u16) -> bool,
    preferred: u16,
    port: u16,
)
    requires
        forall|p: u16, b: bool| #[trigger] call_ensures(is_free, (p,), b) <==> b == free(p),
        runtime::port_choice(is_free, preferred, port),
    ensures
        free(preferred) ==> port == preferred,
        !free(preferred) && (exists|p: u16| 17897 <= p < 18497 && #[trigger] free(p)) ==> 17897
            <= port < 18497 && free(port) && (forall|p: u16|
            17897 <= p < port ==> !#[trigger] free(p)),
        !free(preferred) && (forall|p: u16| 17897 <= p < 18497 ==> !#[trigger] free(p)) ==> port
            == preferred,
{
    if !free(preferred) {
        assert(!call_ensures(is_free, (preferred,), true));
        assert forall|p: u16| call_ensures(is_free, (p,), false) implies !#[trigger] free(p) by {}
    }
}

/// A core of our own is wanted unless the environment says no, and the service only where it says
/// yes.
pub proof fn law_environment(v: Seq<char>)
    ensures
        runtime::wants_own_core(None),
        !runtime::wants_service(None),
        !runtime::wants_own_core(Some(v)) <==> text::trimmed(v) == "0"@ || text::trimmed(v)
            == "false"@ || text::trimmed(v) == "False"@ || text::trimmed(v) == "FALSE"@,
        runtime::wants_service(Some(v)) <==> text::trimmed(v) == "1"@ || text::trimmed(v)
            == "true"@ || text::trimmed(v) == "True"@ || text::trimmed(v) == "TRUE"@,
{
}

/// A node that chooses from others is a group with its name, its kind, its choice and its
/// candidates in their order; any other node is none.
pub proof fn law_groups_of_nodes(node: ProxyNode, i: int)
    ensures
        node.all is None <==> proxies::group_of(node) is None,
        node.all is Some ==> {
            let g = proxies::group_of(node)->0;
            &&& g.name == node.name@
            &&& g.kind == node.kind@
            &&& node.now is Some ==> g.now == node.now->0@
            &&& node.now is None ==> g.now == "-"@
            &&& g.candidates.len() == node.all->0@.len()
            &&& 0 <= i < g.candidates.len() ==> g.candidates[i] == node.all->0@[i]@
        },
{
}

/// Texts are ordered by the first character that differs; a text comes after its own beginnings.
pub proof fn law_order_of_texts(common: Seq<char>, a: char, b: char, x: Seq<char>, y: Seq<char>)
    ensures
        a < b ==> order::before(common + seq![a] + x, common + seq![b] + y) && !order::before(
            common + seq![b] + y,
            common + seq![a] + x,
        ),
        order::before(common, common + seq![a] + x),
        !order::before(common + seq![a] + x, common),
        !order::before(common, common),
    decreases common.len(),
{
    let s = common + seq![a] + x;
    let t = common + seq![b] + y;
    if common.len() > 0 {
        let rest = common.skip(1);
        law_order_of_texts(rest, a, b, x, y);
        assert(s.skip(1) =~= rest + seq![a] + x);
        assert(t.skip(1) =~= rest + seq![b] + y);
        assert(s[0] == common[0] && t[0] == common[0]);
    } else {
        assert(s[0] == a && t[0] == b);
    }
}

/// The policies that are built in, in whatever case they are written, are no nodes to test; groups
/// are none either.
pub proof fn law_tested_nodes(groups: Seq<Group>, name: Seq<char>)
    ensures
        proxies::is_target(groups, name) <==> {
            &&& exists|i: int, k: int|
                0 <= i < groups.len() && 0 <= k < groups[i].candidates.len()
                    && #[trigger] groups[i].candidates[k] == name
            &&& forall|i: int| 0 <= i < groups.len() ==> (#[trigger] groups[i]).name != name
            &&& !(text::uppered(name) == "DIRECT"@ || text::uppered(name) == "REJECT"@
                || text::uppered(name) == "REJECT-DROP"@ || text::uppered(name) == "PASS"@
                || text::uppered(name) == "COMPATIBLE"@)
        },
{
    if proxies::is_candidate(groups, name) {
        let i = choose|i: int|
            0 <= i < groups.len() && (#[trigger] groups[i]).candidates.contains(name);
        let k = groups[i].candidates.index_of(name);
        assert(groups[i].candidates[k] == name);
    }
    if exists|i: int, k: int|
        0 <= i < groups.len() && 0 <= k < groups[i].candidates.len()
            && #[trigger] groups[i].candidates[k] == name {
        let (i, k) = choose|i: int, k: int|
            0 <= i < groups.len() && 0 <= k < groups[i].candidates.len()
                && #[trigger] groups[i].candidates[k] == name;
        assert(groups[i].candidates.contains(name));
    }
}

/// What the tunnel of a core is read as, and what is said where it stayed off.
pub proof fn law_tun_check(config: JsonModel, name: Seq<char>, lines: Seq<Seq<char>>, i: int)
    ensures
        json::member(config, "tun"@) is Some ==> crate::tunnel::tun_member(config, name)
            == json::member(json::member(config, "tun"@)->0, name),
        json::member(config, "tun"@) is None ==> crate::tunnel::tun_member(config, name) is None,
        0 <= i < lines.len() && text::has_text(lines[i], "Start TUN listening error"@)
            && text::has_text(lines[i], "operation not permitted"@) ==> crate::tunnel::tun_rejection(
            lines,
        )
            == "tun enable rejected by core: operation not permitted (missing NET_ADMIN/root privileges)"@,
        (forall|k: int|
            0 <= k < lines.len() ==> !text::has_text(
                #[trigger] lines[k],
                "Start TUN listening error"@,
            )) ==> crate::tunnel::tun_rejection(lines)
            == "tun enable rejected by core (tun.enable stayed false)"@,
{
    if 0 <= i < lines.len() {
        assert(crate::tunnel::tells_no_privilege(lines[i]) ==> crate::tunnel::some_tells_no_privilege(lines));
    }
}

/// A profile that a core may not read where it is, is copied below its own directory, or else below
/// that of another program.
pub proof fn law_safe_directories(platform: Platform, root: Seq<char>, home: Seq<char>)
    ensures
        crate::apply::safe_dirs(platform, root, None) == seq![
            paths::joined(
                platform,
                paths::joined(platform, root, "core-home"@),
                "verge-tui-profiles"@,
            ),
        ],
        crate::apply::safe_dirs(platform, root, Some(home)) == seq![
            paths::joined(
                platform,
                paths::joined(platform, root, "core-home"@),
                "verge-tui-profiles"@,
            ),
            paths::joined(platform, home, "verge-tui-profiles"@),
        ],
{
}

} // verus!
