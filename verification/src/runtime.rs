//! The configuration that a core of our own runs with.

use crate::config::Platform;
use crate::config::VergeConfig;
use crate::hint::ClashVergeApiHint;
use crate::notes::Notes;
use crate::number;
use crate::paths;
use crate::profile;
use crate::profile::ProfileItem;
use crate::profile::StateStore;
use crate::text;
use crate::yaml;
use serde_yaml_ng::Mapping;
use vstd::prelude::*;

verus! {

pub const MANAGED_PORT_FALLBACK_BASE: u16 = 17897;

pub const MANAGED_PORT_FALLBACK_END: u16 = 18497;

/// Whether the environment asks for a core of our own: it does unless it says no.
pub open spec fn wants_own_core(var: Option<Seq<char>>) -> bool {
    match var {
        Some(v) => {
            let v = text::trimmed(v);
            !(v == "0"@ || v == "false"@ || v == "False"@ || v == "FALSE"@)
        },
        None => true,
    }
}

pub fn prefers_independent_core(var: Option<&str>) -> (r: bool)
    ensures
        r == wants_own_core(
            match var {
                Some(v) => Some(v@),
                None => None,
            },
        ),
{
    match var {
        Some(v) => {
            let v = text::trim(v);
            let v = v.as_str();
            !(text::same(v, "0") || text::same(v, "false") || text::same(v, "False") || text::same(
                v,
                "FALSE",
            ))
        },
        None => true,
    }
}

/// Whether the environment asks for the system service: only where it says yes.
pub open spec fn wants_service(var: Option<Seq<char>>) -> bool {
    match var {
        Some(v) => {
            let v = text::trimmed(v);
            v == "1"@ || v == "true"@ || v == "True"@ || v == "TRUE"@
        },
        None => false,
    }
}

pub fn prefers_service_ipc(var: Option<&str>) -> (r: bool)
    ensures
        r == wants_service(
            match var {
                Some(v) => Some(v@),
                None => None,
            },
        ),
{
    match var {
        Some(v) => {
            let v = text::trim(v);
            let v = v.as_str();
            text::same(v, "1") || text::same(v, "true") || text::same(v, "True") || text::same(
                v,
                "TRUE",
            )
        },
        None => false,
    }
}

/// Whether `port` is the one to take, by the answers of `is_free`: the preferred one where it is
/// free; else the first free one of the fallback range; else the preferred one all the same.
pub open spec fn port_choice<F: Fn(u16) -> bool>(is_free: F, preferred: u16, port: u16) -> bool {
    ||| port == preferred && call_ensures(is_free, (preferred,), true)
    ||| {
        &&& call_ensures(is_free, (preferred,), false)
        &&& MANAGED_PORT_FALLBACK_BASE <= port < MANAGED_PORT_FALLBACK_END
        &&& call_ensures(is_free, (port,), true)
        &&& forall|p: u16|
            MANAGED_PORT_FALLBACK_BASE <= p < port ==> #[trigger] call_ensures(is_free, (p,), false)
    }
    ||| {
        &&& call_ensures(is_free, (preferred,), false)
        &&& port == preferred
        &&& forall|p: u16|
            MANAGED_PORT_FALLBACK_BASE <= p < MANAGED_PORT_FALLBACK_END ==> #[trigger] call_ensures(
                is_free,
                (p,),
                false,
            )
    }
}

pub fn pick_runtime_mixed_port<F: Fn(u16) -> bool>(preferred: u16, is_free: &F) -> (r: u16)
    requires
        forall|p: u16| #[trigger] call_requires(*is_free, (p,)),
    ensures
        port_choice(*is_free, preferred, r),
{
    if is_free(preferred) {
        return preferred;
    }
    let mut p: u16 = MANAGED_PORT_FALLBACK_BASE;
    while p < MANAGED_PORT_FALLBACK_END
        invariant
            MANAGED_PORT_FALLBACK_BASE <= p <= MANAGED_PORT_FALLBACK_END,
            call_ensures(*is_free, (preferred,), false),
            forall|q: u16| #[trigger] call_requires(*is_free, (q,)),
            forall|q: u16|
                MANAGED_PORT_FALLBACK_BASE <= q < p ==> #[trigger] call_ensures(
                    *is_free,
                    (q,),
                    false,
                ),
        decreases MANAGED_PORT_FALLBACK_END - p,
    {
        if is_free(p) {
            return p;
        }
        p = p + 1;
    }
    preferred
}

/// A port some places further, or the last one.
pub open spec fn port_after(port: u16, n: nat) -> u16 {
    if port + n > u16::MAX {
        u16::MAX
    } else {
        (port + n) as u16
    }
}

fn later_port(port: u16, n: u16) -> (r: u16)
    ensures
        r == port_after(port, n as nat),
{
    if port > u16::MAX - n {
        u16::MAX
    } else {
        port + n
    }
}

/// The address of the controller of a core of our own.
pub open spec fn controller_host(mixed_port: u16) -> Seq<char> {
    "127.0.0.1:"@ + number::dec(port_after(mixed_port, 1200) as nat)
}

fn controller_address(mixed_port: u16) -> (r: String)
    ensures
        r@ == controller_host(mixed_port),
{
    text::cat2("127.0.0.1:", number::to_dec(later_port(mixed_port, 1200) as u64).as_str())
}

pub fn managed_http_controller_url(mixed_port: u16) -> (r: String)
    ensures
        r@ == "http://"@ + controller_host(mixed_port),
{
    text::cat2("http://", controller_address(mixed_port).as_str())
}

type Entries = Seq<(yaml::Yaml, yaml::Yaml)>;

/// The entries with a value put under a key, unless something stands there.
pub open spec fn put_missing(entries: Entries, key: Seq<char>, value: yaml::Yaml) -> Entries {
    if yaml::lookup(entries, key) is Some {
        entries
    } else {
        yaml::put(entries, key, value)
    }
}

/// The settings of the tunnel, switched, with what is missing filled in.
pub open spec fn with_tun_defaults(tun: Entries, enable: bool) -> Entries {
    let t = yaml::put(tun, "enable"@, yaml::Yaml::Bool(enable));
    let t = put_missing(t, "stack"@, yaml::Yaml::Text("gvisor"@));
    let t = put_missing(t, "device"@, yaml::Yaml::Text("vergetui0"@));
    let t = put_missing(t, "auto-route"@, yaml::Yaml::Bool(true));
    let t = put_missing(t, "strict-route"@, yaml::Yaml::Bool(false));
    let t = put_missing(t, "auto-detect-interface"@, yaml::Yaml::Bool(true));
    put_missing(t, "dns-hijack"@, yaml::Yaml::Sequence(seq![yaml::Yaml::Text("any:53"@)]))
}

/// The settings of the tunnel in a configuration; none where they are no mapping.
pub open spec fn tun_of(entries: Entries) -> Entries {
    match yaml::lookup(entries, "tun"@) {
        Some(y) => match yaml::untagged(y) {
            yaml::Yaml::Mapping(tun) => tun,
            _ => seq![],
        },
        None => seq![],
    }
}

/// A configuration whose tunnel is switched and complete.
pub open spec fn with_tun(entries: Entries, enable: bool) -> Entries {
    yaml::put(entries, "tun"@, yaml::Yaml::Mapping(with_tun_defaults(tun_of(entries), enable)))
}

fn insert_missing(map: &mut Mapping, key: &str, value: serde_yaml_ng::Value)
    ensures
        yaml::yaml_entries(*final(map)) == put_missing(
            yaml::yaml_entries(*old(map)),
            key@,
            yaml::yaml_value(value),
        ),
{
    if yaml::get(map, key).is_none() {
        yaml::insert(map, key, value);
    }
}

pub fn ensure_tun_defaults_in_mapping(map: &mut Mapping, enable: bool)
    ensures
        yaml::yaml_entries(*final(map)) == with_tun(yaml::yaml_entries(*old(map)), enable),
{
    let mut tun = match yaml::get(map, "tun") {
        Some(v) => match v.as_mapping() {
            Some(m) => yaml::copy_of(m),
            None => Mapping::new(),
        },
        None => Mapping::new(),
    };
    assert(yaml::yaml_entries(tun) == tun_of(yaml::yaml_entries(*map)));
    yaml::insert(&mut tun, "enable", yaml::bool_value(enable));
    insert_missing(&mut tun, "stack", yaml::text_value("gvisor"));
    insert_missing(&mut tun, "device", yaml::text_value("vergetui0"));
    insert_missing(&mut tun, "auto-route", yaml::bool_value(true));
    insert_missing(&mut tun, "strict-route", yaml::bool_value(false));
    insert_missing(&mut tun, "auto-detect-interface", yaml::bool_value(true));
    insert_missing(&mut tun, "dns-hijack", yaml::singleton_value(yaml::text_value("any:53")));
    yaml::insert(map, "tun", yaml::mapping_value(tun));
}

pub open spec fn port_value(port: u16) -> yaml::Yaml {
    yaml::Yaml::Number(number::dec(port as nat), Some(port as u64))
}

/// The ports of a core: one beside the other from the mixed port on, as the system knows them.
pub open spec fn with_ports(entries: Entries, port: u16, platform: Platform) -> Entries {
    let e = yaml::put(entries, "mixed-port"@, port_value(port));
    let e = yaml::put(e, "socks-port"@, port_value(port_after(port, 1)));
    let e = yaml::put(e, "port"@, port_value(port_after(port, 2)));
    let e = if platform != Platform::Windows {
        yaml::put(e, "redir-port"@, port_value(port_after(port, 3)))
    } else {
        e
    };
    if platform == Platform::Linux {
        yaml::put(e, "tproxy-port"@, port_value(port_after(port, 4)))
    } else {
        e
    }
}

/// A profile made into the configuration of a core of our own: its ports, its rules, the tunnel
/// off, and its controller on the given port and socket.
pub open spec fn runtime_entries(
    profile: Entries,
    port: u16,
    secret: Seq<char>,
    socket: Seq<char>,
    platform: Platform,
) -> Entries {
    let e = with_ports(profile, port, platform);
    let e = yaml::put(e, "allow-lan"@, yaml::Yaml::Bool(false));
    let e = yaml::put(e, "ipv6"@, yaml::Yaml::Bool(true));
    let e = yaml::put(e, "mode"@, yaml::Yaml::Text("rule"@));
    let e = yaml::put(e, "log-level"@, yaml::Yaml::Text("info"@));
    let e = with_tun(e, false);
    let e = yaml::put(e, "external-controller"@, yaml::Yaml::Text(controller_host(port)));
    let e = if platform == Platform::Windows {
        yaml::put(e, "external-controller-pipe"@, yaml::Yaml::Text(socket))
    } else {
        yaml::put(e, "external-controller-unix"@, yaml::Yaml::Text(socket))
    };
    if secret.len() > 0 {
        yaml::put(e, "secret"@, yaml::Yaml::Text(secret))
    } else {
        e
    }
}

fn fill_ports(map: &mut Mapping, port: u16, platform: Platform)
    ensures
        yaml::yaml_entries(*final(map)) == with_ports(
            yaml::yaml_entries(*old(map)),
            port,
            platform,
        ),
{
    yaml::insert(map, "mixed-port", yaml::number_value(port));
    yaml::insert(map, "socks-port", yaml::number_value(later_port(port, 1)));
    yaml::insert(map, "port", yaml::number_value(later_port(port, 2)));
    if platform != Platform::Windows {
        yaml::insert(map, "redir-port", yaml::number_value(later_port(port, 3)));
    }
    if platform == Platform::Linux {
        yaml::insert(map, "tproxy-port", yaml::number_value(later_port(port, 4)));
    }
}

/// Makes a profile into the configuration of a core of our own.
pub fn fill_runtime(map: &mut Mapping, port: u16, secret: &str, socket: &str, platform: Platform)
    ensures
        yaml::yaml_entries(*final(map)) == runtime_entries(
            yaml::yaml_entries(*old(map)),
            port,
            secret@,
            socket@,
            platform,
        ),
{
    fill_ports(map, port, platform);
    yaml::insert(map, "allow-lan", yaml::bool_value(false));
    yaml::insert(map, "ipv6", yaml::bool_value(true));
    yaml::insert(map, "mode", yaml::text_value("rule"));
    yaml::insert(map, "log-level", yaml::text_value("info"));
    ensure_tun_defaults_in_mapping(map, false);
    yaml::insert(
        map,
        "external-controller",
        yaml::text_value(controller_address(port).as_str()),
    );
    if platform == Platform::Windows {
        yaml::insert(map, "external-controller-pipe", yaml::text_value(socket));
    } else {
        yaml::insert(map, "external-controller-unix", yaml::text_value(socket));
    }
    if !secret.is_empty() {
        yaml::insert(map, "secret", yaml::text_value(secret));
    }
}

/// What is told when the mixed port had to give way.
pub open spec fn port_notes(old_port: u16, port: u16) -> Seq<Seq<char>> {
    if port == old_port {
        seq![]
    } else {
        seq![
            "managed core mixed-port adjusted: "@ + number::dec(old_port as nat) + " -> "@
                + number::dec(port as nat) + " (port conflict)"@,
        ]
    }
}

/// Makes the text of a profile into the text of the configuration of a core of our own. The mixed
/// port may have to give way, and the settings keep the new one. Gives an error for a profile that
/// is no mapping, and no text where the configuration cannot be written.
pub fn build_runtime_config<F: Fn(u16) -> bool>(
    verge: &mut VergeConfig,
    profile: &str,
    profile_path: &str,
    socket: &str,
    platform: Platform,
    is_free: &F,
) -> (r: (Result<Option<String>, String>, Notes))
    requires
        forall|p: u16| #[trigger] call_requires(*is_free, (p,)),
    ensures
        match yaml::yaml_parsed(profile@) {
            None => {
                &&& r.0 is Err && r.0->Err_0@ == "parse yaml failed: "@ + profile_path@
                &&& r.1@ == Seq::<Seq<char>>::empty()
                &&& *final(verge) == *old(verge)
            },
            Some(entries) => {
                let port = final(verge).mixed_port;
                &&& port_choice(*is_free, old(verge).mixed_port, port)
                &&& *final(verge) == (VergeConfig { mixed_port: port, ..*old(verge) })
                &&& r.1@ == port_notes(old(verge).mixed_port, port)
                &&& r.0 is Ok
                &&& text::opt_text(r.0->Ok_0) == yaml::yaml_written(
                    runtime_entries(entries, port, old(verge).secret@, socket@, platform),
                )
            },
        },
{
    let mut map = match yaml::parse_mapping(profile) {
        Ok(map) => map,
        Err(_) => {
            return (Err(text::cat2("parse yaml failed: ", profile_path)), Notes::none());
        },
    };
    let port = pick_runtime_mixed_port(verge.mixed_port, is_free);
    let mut notes = Notes::none();
    if port != verge.mixed_port {
        let head = text::cat4(
            "managed core mixed-port adjusted: ",
            number::to_dec(verge.mixed_port as u64).as_str(),
            " -> ",
            number::to_dec(port as u64).as_str(),
        );
        notes = Notes::one(text::cat2(head.as_str(), " (port conflict)"));
        verge.mixed_port = port;
    }
    fill_runtime(&mut map, port, verge.secret.as_str(), socket, platform);
    match yaml::write_mapping(&map) {
        Ok(s) => (Ok(Some(s)), notes),
        Err(_) => (Ok(None), notes),
    }
}

/// The tunnel keeps every setting that it has, except that it is switched; and once complete it
/// has all that it needs.
pub proof fn law_tun_defaults_keep_settings(tun: Entries, enable: bool, key: Seq<char>)
    ensures
        yaml::lookup(with_tun_defaults(tun, enable), "enable"@) == Some(yaml::Yaml::Bool(enable)),
        key != "enable"@ && yaml::lookup(tun, key) is Some ==> yaml::lookup(
            with_tun_defaults(tun, enable),
            key,
        ) == yaml::lookup(tun, key),
        key == "stack"@ || key == "device"@ || key == "auto-route"@ || key == "strict-route"@ || key
            == "auto-detect-interface"@ || key == "dns-hijack"@ ==> yaml::lookup(
            with_tun_defaults(tun, enable),
            key,
        ) is Some,
{
    reveal_strlit("enable");
    reveal_strlit("stack");
    reveal_strlit("device");
    reveal_strlit("auto-route");
    reveal_strlit("strict-route");
    reveal_strlit("auto-detect-interface");
    reveal_strlit("dns-hijack");
    let t0 = yaml::put(tun, "enable"@, yaml::Yaml::Bool(enable));
    yaml::lemma_put(tun, "enable"@, yaml::Yaml::Bool(enable), key);
    yaml::lemma_put(tun, "enable"@, yaml::Yaml::Bool(enable), "enable"@);
    lemma_defaults_keep(t0, key);
    lemma_defaults_keep(t0, "enable"@);
}

/// The defaults behind the switch leave what stands under a key, and add the rest.
proof fn lemma_defaults_keep(t: Entries, key: Seq<char>)
    ensures
        ({
            let t1 = put_missing(t, "stack"@, yaml::Yaml::Text("gvisor"@));
            let t2 = put_missing(t1, "device"@, yaml::Yaml::Text("vergetui0"@));
            let t3 = put_missing(t2, "auto-route"@, yaml::Yaml::Bool(true));
            let t4 = put_missing(t3, "strict-route"@, yaml::Yaml::Bool(false));
            let t5 = put_missing(t4, "auto-detect-interface"@, yaml::Yaml::Bool(true));
            let t6 = put_missing(
                t5,
                "dns-hijack"@,
                yaml::Yaml::Sequence(seq![yaml::Yaml::Text("any:53"@)]),
            );
            &&& yaml::lookup(t, key) is Some ==> yaml::lookup(t6, key) == yaml::lookup(t, key)
            &&& key == "stack"@ || key == "device"@ || key == "auto-route"@ || key
                == "strict-route"@ || key == "auto-detect-interface"@ || key == "dns-hijack"@
                ==> yaml::lookup(t6, key) is Some
        }),
{
    let t1 = put_missing(t, "stack"@, yaml::Yaml::Text("gvisor"@));
    let t2 = put_missing(t1, "device"@, yaml::Yaml::Text("vergetui0"@));
    let t3 = put_missing(t2, "auto-route"@, yaml::Yaml::Bool(true));
    let t4 = put_missing(t3, "strict-route"@, yaml::Yaml::Bool(false));
    let t5 = put_missing(t4, "auto-detect-interface"@, yaml::Yaml::Bool(true));
    yaml::lemma_put(t, "stack"@, yaml::Yaml::Text("gvisor"@), key);
    yaml::lemma_put(t1, "device"@, yaml::Yaml::Text("vergetui0"@), key);
    yaml::lemma_put(t2, "auto-route"@, yaml::Yaml::Bool(true), key);
    yaml::lemma_put(t3, "strict-route"@, yaml::Yaml::Bool(false), key);
    yaml::lemma_put(t4, "auto-detect-interface"@, yaml::Yaml::Bool(true), key);
    yaml::lemma_put(
        t5,
        "dns-hijack"@,
        yaml::Yaml::Sequence(seq![yaml::Yaml::Text("any:53"@)]),
        key,
    );
}

/// Which keys of a profile a core of our own sets for itself.
pub open spec fn is_runtime_key(key: Seq<char>) -> bool {
    key == "mixed-port"@ || key == "socks-port"@ || key == "port"@ || key == "redir-port"@ || key
        == "tproxy-port"@ || key == "allow-lan"@ || key == "ipv6"@ || key == "mode"@ || key
        == "log-level"@ || key == "tun"@ || key == "external-controller"@ || key
        == "external-controller-pipe"@ || key == "external-controller-unix"@ || key == "secret"@
}

/// Everything else in a profile stays: its proxies, groups and rules.
pub proof fn law_runtime_keeps_profile(
    profile: Entries,
    port: u16,
    secret: Seq<char>,
    socket: Seq<char>,
    platform: Platform,
    key: Seq<char>,
)
    requires
        !is_runtime_key(key),
    ensures
        yaml::lookup(runtime_entries(profile, port, secret, socket, platform), key)
            == yaml::lookup(profile, key),
{
    let e1 = yaml::put(profile, "mixed-port"@, port_value(port));
    yaml::lemma_put(profile, "mixed-port"@, port_value(port), key);
    let e2 = yaml::put(e1, "socks-port"@, port_value(port_after(port, 1)));
    yaml::lemma_put(e1, "socks-port"@, port_value(port_after(port, 1)), key);
    let e3 = yaml::put(e2, "port"@, port_value(port_after(port, 2)));
    yaml::lemma_put(e2, "port"@, port_value(port_after(port, 2)), key);
    let e4 = yaml::put(e3, "redir-port"@, port_value(port_after(port, 3)));
    yaml::lemma_put(e3, "redir-port"@, port_value(port_after(port, 3)), key);
    yaml::lemma_put(e4, "tproxy-port"@, port_value(port_after(port, 4)), key);
    let f0 = with_ports(profile, port, platform);
    let f1 = yaml::put(f0, "allow-lan"@, yaml::Yaml::Bool(false));
    yaml::lemma_put(f0, "allow-lan"@, yaml::Yaml::Bool(false), key);
    let f2 = yaml::put(f1, "ipv6"@, yaml::Yaml::Bool(true));
    yaml::lemma_put(f1, "ipv6"@, yaml::Yaml::Bool(true), key);
    let f3 = yaml::put(f2, "mode"@, yaml::Yaml::Text("rule"@));
    yaml::lemma_put(f2, "mode"@, yaml::Yaml::Text("rule"@), key);
    let f4 = yaml::put(f3, "log-level"@, yaml::Yaml::Text("info"@));
    yaml::lemma_put(f3, "log-level"@, yaml::Yaml::Text("info"@), key);
    let tun = yaml::Yaml::Mapping(with_tun_defaults(tun_of(f4), false));
    let f5 = yaml::put(f4, "tun"@, tun);
    yaml::lemma_put(f4, "tun"@, tun, key);
    let host = yaml::Yaml::Text(controller_host(port));
    let f6 = yaml::put(f5, "external-controller"@, host);
    yaml::lemma_put(f5, "external-controller"@, host, key);
    let f7 = yaml::put(f6, "external-controller-pipe"@, yaml::Yaml::Text(socket));
    yaml::lemma_put(f6, "external-controller-pipe"@, yaml::Yaml::Text(socket), key);
    let g7 = yaml::put(f6, "external-controller-unix"@, yaml::Yaml::Text(socket));
    yaml::lemma_put(f6, "external-controller-unix"@, yaml::Yaml::Text(socket), key);
    yaml::lemma_put(f7, "secret"@, yaml::Yaml::Text(secret), key);
    yaml::lemma_put(g7, "secret"@, yaml::Yaml::Text(secret), key);
}

/// The ports of a core of our own do not collide, as long as they are not at the upper end.
pub proof fn law_runtime_ports_differ(port: u16, i: nat, j: nat)
    requires
        port + 1200 <= u16::MAX,
        i < j <= 1200,
    ensures
        port_after(port, i) < port_after(port, j),
{
}

/// The profile that a core of our own runs with: the current one, or else the first.
pub open spec fn runtime_profile(current: Option<Seq<char>>, profiles: Seq<ProfileItem>) -> Option<
    ProfileItem,
> {
    match current {
        Some(uid) => {
            let i = profile::profile_index(profiles, uid);
            if i < profiles.len() {
                Some(profiles[i])
            } else {
                None
            }
        },
        None => if profiles.len() > 0 {
            Some(profiles[0])
        } else {
            None
        },
    }
}

/// Where the document of that profile is kept.
pub open spec fn runtime_document(store: StateStore) -> Option<Seq<char>> {
    match runtime_profile(text::opt_text(store.state.current), store.state.profiles@) {
        Some(p) => Some(
            paths::joined(store.paths.platform, store.paths.profiles_dir@, p.file@),
        ),
        None => None,
    }
}

pub fn runtime_profile_path(store: &StateStore) -> (r: Option<String>)
    ensures
        text::opt_text(r) == runtime_document(*store),
{
    let profiles = &store.state.profiles;
    match &store.state.current {
        Some(uid) => match profile::find_profile(profiles, uid.as_str()) {
            Some(i) => Some(store.profile_path(profiles[i].file.as_str())),
            None => None,
        },
        None => {
            if profiles.len() > 0 {
                Some(store.profile_path(profiles[0].file.as_str()))
            } else {
                None
            }
        },
    }
}

/// What a core of our own runs with: a directory and a configuration that are there, or a profile
/// that a configuration is made from.
#[derive(Debug)]
pub enum RuntimeChoice<T> {
    Use { home: T, config: T },
    Build { profile: T },
}

impl View for RuntimeChoice<String> {
    type V = RuntimeChoice<Seq<char>>;

    open spec fn view(&self) -> RuntimeChoice<Seq<char>> {
        match self {
            RuntimeChoice::Use { home, config } => RuntimeChoice::Use {
                home: home@,
                config: config@,
            },
            RuntimeChoice::Build { profile } => RuntimeChoice::Build { profile: profile@ },
        }
    }
}

/// The configuration that Clash Verge runs its core with.
pub fn clash_runtime_path(platform: Platform, hint: &ClashVergeApiHint) -> (r: String)
    ensures
        r@ == paths::joined(platform, hint.app_home@, "clash-verge.yaml"@),
{
    paths::join(platform, hint.app_home.as_str(), "clash-verge.yaml")
}

/// The choice, with what is told about it: the choice or the error, then the lines for the log.
pub open spec fn runtime_choice(
    platform: Platform,
    document: Option<Seq<char>>,
    hint: Option<&ClashVergeApiHint>,
    independent: bool,
    runtime_exists: bool,
    source_exists: bool,
    document_exists: bool,
) -> (Result<RuntimeChoice<Seq<char>>, Seq<char>>, Seq<Seq<char>>) {
    if !independent && hint is Some && runtime_exists {
        let config = paths::joined(platform, hint->0.app_home@, "clash-verge.yaml"@);
        (Ok(RuntimeChoice::Use { home: hint->0.app_home@, config }), seq![])
    } else if !independent && hint is Some && source_exists {
        (
            Ok(
                RuntimeChoice::Use {
                    home: hint->0.app_home@,
                    config: hint->0.source_config@,
                },
            ),
            seq![],
        )
    } else {
        match (document, hint) {
            (Some(path), Some(h)) => if document_exists {
                (Ok(RuntimeChoice::Build { profile: path }), seq![])
            } else {
                (
                    Ok(RuntimeChoice::Use { home: h.app_home@, config: h.source_config@ }),
                    seq![
                        "selected TUI profile file missing: "@ + path
                            + ". fallback runtime config => "@ + h.source_config@,
                    ],
                )
            },
            (Some(path), None) => if document_exists {
                (Ok(RuntimeChoice::Build { profile: path }), seq![])
            } else {
                (Err("selected TUI profile file missing: "@ + path), seq![])
            },
            (None, Some(h)) => (
                Ok(RuntimeChoice::Use { home: h.app_home@, config: h.source_config@ }),
                seq!["no TUI profile found; fallback runtime config => "@ + h.source_config@],
            ),
            (None, None) => (Err("no profile available to build runtime config"@), seq![]),
        }
    }
}

pub open spec fn plain_choice(r: Result<RuntimeChoice<String>, String>) -> Result<
    RuntimeChoice<Seq<char>>,
    Seq<char>,
> {
    match r {
        Ok(c) => Ok(c@),
        Err(e) => Err(e@),
    }
}

fn use_source(h: &ClashVergeApiHint) -> (r: RuntimeChoice<String>)
    ensures
        r@ == (RuntimeChoice::Use { home: h.app_home@, config: h.source_config@ }),
{
    RuntimeChoice::Use { home: h.app_home.clone(), config: h.source_config.clone() }
}

/// Chooses what a core of our own runs with. The flags tell which files exist: Clash Verge's
/// runtime configuration, its configuration, and the profile's document.
pub fn choose_runtime(
    platform: Platform,
    document: Option<String>,
    hint: Option<&ClashVergeApiHint>,
    independent: bool,
    runtime_exists: bool,
    source_exists: bool,
    document_exists: bool,
) -> (r: (Result<RuntimeChoice<String>, String>, Notes))
    ensures
        (plain_choice(r.0), r.1@) == runtime_choice(
            platform,
            text::opt_text(document),
            hint,
            independent,
            runtime_exists,
            source_exists,
            document_exists,
        ),
{
    if !independent {
        if let Some(h) = hint {
            if runtime_exists {
                let config = clash_runtime_path(platform, h);
                return (
                    Ok(RuntimeChoice::Use { home: h.app_home.clone(), config }),
                    Notes::none(),
                );
            }
            if source_exists {
                return (Ok(use_source(h)), Notes::none());
            }
        }
    }
    match (document, hint) {
        (Some(path), Some(h)) => {
            if document_exists {
                return (Ok(RuntimeChoice::Build { profile: path }), Notes::none());
            }
            let line = text::cat4(
                "selected TUI profile file missing: ",
                path.as_str(),
                ". fallback runtime config => ",
                h.source_config.as_str(),
            );
            (Ok(use_source(h)), Notes::one(line))
        },
        (Some(path), None) => {
            if document_exists {
                return (Ok(RuntimeChoice::Build { profile: path }), Notes::none());
            }
            (Err(text::cat2("selected TUI profile file missing: ", path.as_str())), Notes::none())
        },
        (None, Some(h)) => {
            let line = text::cat2(
                "no TUI profile found; fallback runtime config => ",
                h.source_config.as_str(),
            );
            (Ok(use_source(h)), Notes::one(line))
        },
        (None, None) => (
            Err("no profile available to build runtime config".to_owned()),
            Notes::none(),
        ),
    }
}

/// Where a core of our own lives.
pub fn core_home(store: &StateStore) -> (r: String)
    ensures
        r@ == paths::joined(store.paths.platform, store.paths.root@, "core-home"@),
{
    paths::join(store.paths.platform, store.paths.root.as_str(), "core-home")
}

/// Where the configuration is written that is made from a profile.
pub fn runtime_config_path(platform: Platform, core_home: &str) -> (r: String)
    ensures
        r@ == paths::joined(platform, core_home@, "verge-tui-runtime.yaml"@),
{
    paths::join(platform, core_home, "verge-tui-runtime.yaml")
}

} // verus!
