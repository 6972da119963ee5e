//! The configuration of a core of our own, key by key.

use crate::config::Platform;
use crate::number;
use crate::runtime;
use crate::yaml;
use crate::yaml::Yaml;
use vstd::prelude::*;

verus! {

type Entries = Seq<(Yaml, Yaml)>;

/// What stands under a key after a value was put where nothing stood.
proof fn lemma_put_missing(e: Entries, key: Seq<char>, value: Yaml, other: Seq<char>)
    ensures
        yaml::lookup(runtime::put_missing(e, key, value), other) == if other == key && yaml::lookup(
            e,
            key,
        ) is None {
            Some(value)
        } else {
            yaml::lookup(e, other)
        },
{
    yaml::lemma_put(e, key, value, other);
}

/// The settings of a tunnel that say nothing about a key have a default there.
pub open spec fn tun_default(key: Seq<char>) -> Option<Yaml> {
    if key == "stack"@ {
        Some(Yaml::Text("gvisor"@))
    } else if key == "device"@ {
        Some(Yaml::Text("vergetui0"@))
    } else if key == "auto-route"@ {
        Some(Yaml::Bool(true))
    } else if key == "strict-route"@ {
        Some(Yaml::Bool(false))
    } else if key == "auto-detect-interface"@ {
        Some(Yaml::Bool(true))
    } else if key == "dns-hijack"@ {
        Some(Yaml::Sequence(seq![Yaml::Text("any:53"@)]))
    } else {
        None
    }
}

/// A tunnel is switched as asked, keeps what it says, and has the default of what it does not say.
pub proof fn law_tun_settings(tun: Entries, enable: bool, key: Seq<char>)
    ensures
        yaml::lookup(runtime::with_tun_defaults(tun, enable), key) == if key == "enable"@ {
            Some(Yaml::Bool(enable))
        } else if yaml::lookup(tun, key) is Some {
            yaml::lookup(tun, key)
        } else {
            tun_default(key)
        },
{
    reveal_strlit("enable");
    reveal_strlit("stack");
    reveal_strlit("device");
    reveal_strlit("auto-route");
    reveal_strlit("strict-route");
    reveal_strlit("auto-detect-interface");
    reveal_strlit("dns-hijack");
    assert("enable"@.len() == 6 && "enable"@[0] == 'e');
    assert("stack"@.len() == 5);
    assert("device"@.len() == 6 && "device"@[0] == 'd');
    assert("auto-route"@.len() == 10 && "auto-route"@[0] == 'a');
    assert("strict-route"@.len() == 12);
    assert("auto-detect-interface"@.len() == 21);
    assert("dns-hijack"@.len() == 10 && "dns-hijack"@[0] == 'd');
    let t0 = yaml::put(tun, "enable"@, Yaml::Bool(enable));
    let t1 = runtime::put_missing(t0, "stack"@, Yaml::Text("gvisor"@));
    let t2 = runtime::put_missing(t1, "device"@, Yaml::Text("vergetui0"@));
    let t3 = runtime::put_missing(t2, "auto-route"@, Yaml::Bool(true));
    let t4 = runtime::put_missing(t3, "strict-route"@, Yaml::Bool(false));
    let t5 = runtime::put_missing(t4, "auto-detect-interface"@, Yaml::Bool(true));
    let hijack = Yaml::Sequence(seq![Yaml::Text("any:53"@)]);
    yaml::lemma_put(tun, "enable"@, Yaml::Bool(enable), key);
    lemma_put_missing(t0, "stack"@, Yaml::Text("gvisor"@), key);
    lemma_put_missing(t1, "device"@, Yaml::Text("vergetui0"@), key);
    lemma_put_missing(t2, "auto-route"@, Yaml::Bool(true), key);
    lemma_put_missing(t3, "strict-route"@, Yaml::Bool(false), key);
    lemma_put_missing(t4, "auto-detect-interface"@, Yaml::Bool(true), key);
    lemma_put_missing(t5, "dns-hijack"@, hijack, key);
}

/// What a configuration says of its tunnel under a key.
pub open spec fn said_of_tun(entries: Entries, key: Seq<char>) -> Option<Yaml> {
    match yaml::lookup(entries, "tun"@) {
        Some(y) => match yaml::untagged(y) {
            Yaml::Mapping(tun) => yaml::lookup(tun, key),
            _ => None,
        },
        None => None,
    }
}

/// Whether `entries` hold a tunnel that is switched as asked and complete, with what `before` said
/// of it.
pub open spec fn holds_tun(entries: Entries, enable: bool, before: Entries) -> bool {
    match yaml::lookup(entries, "tun"@) {
        Some(Yaml::Mapping(tun)) => {
            &&& yaml::lookup(tun, "enable"@) == Some(Yaml::Bool(enable))
            &&& forall|key: Seq<char>|
                key != "enable"@ ==> #[trigger] yaml::lookup(tun, key) == if said_of_tun(
                    before,
                    key,
                ) is Some {
                    said_of_tun(before, key)
                } else {
                    tun_default(key)
                }
        },
        _ => false,
    }
}

/// Switching the tunnel of a configuration changes nothing else in it.
pub proof fn law_tun_switch(entries: Entries, enable: bool, key: Seq<char>)
    ensures
        holds_tun(runtime::with_tun(entries, enable), enable, entries),
        key != "tun"@ ==> yaml::lookup(runtime::with_tun(entries, enable), key) == yaml::lookup(
            entries,
            key,
        ),
{
    let tun = runtime::with_tun_defaults(runtime::tun_of(entries), enable);
    yaml::lemma_put(entries, "tun"@, Yaml::Mapping(tun), key);
    law_tun_settings(runtime::tun_of(entries), enable, "enable"@);
    assert forall|k: Seq<char>| k != "enable"@ implies #[trigger] yaml::lookup(tun, k)
        == if said_of_tun(entries, k) is Some {
        said_of_tun(entries, k)
    } else {
        tun_default(k)
    } by {
        law_tun_settings(runtime::tun_of(entries), enable, k);
        assert(yaml::lookup(Seq::<(Yaml, Yaml)>::empty(), k) is None);
    }
}

/// A port some places further, but no port that there is not.
pub open spec fn port_beside(port: u16, n: nat) -> nat {
    if port + n < 65535 {
        port as nat + n
    } else {
        65535
    }
}

/// A port in a configuration.
pub open spec fn shows_port(entries: Entries, key: Seq<char>, port: nat) -> bool {
    match yaml::lookup(entries, key) {
        Some(Yaml::Number(digits, n)) => digits == number::dec(port) && n == Some(port as u64),
        _ => false,
    }
}

proof fn lemma_keys_differ()
    ensures
        "mixed-port"@.len() == 10 && "mixed-port"@[0] == 'm',
        "socks-port"@.len() == 10 && "socks-port"@[0] == 's',
        "port"@.len() == 4 && "port"@[0] == 'p',
        "redir-port"@.len() == 10 && "redir-port"@[0] == 'r',
        "tproxy-port"@.len() == 11,
        "allow-lan"@.len() == 9 && "allow-lan"@[0] == 'a',
        "ipv6"@.len() == 4 && "ipv6"@[0] == 'i',
        "mode"@.len() == 4 && "mode"@[0] == 'm',
        "log-level"@.len() == 9 && "log-level"@[0] == 'l',
        "tun"@.len() == 3,
        "external-controller"@.len() == 19,
        "external-controller-pipe"@.len() == 24 && "external-controller-pipe"@[20] == 'p',
        "external-controller-unix"@.len() == 24 && "external-controller-unix"@[20] == 'u',
        "secret"@.len() == 6,
{
    reveal_strlit("mixed-port");
    reveal_strlit("socks-port");
    reveal_strlit("port");
    reveal_strlit("redir-port");
    reveal_strlit("tproxy-port");
    reveal_strlit("allow-lan");
    reveal_strlit("ipv6");
    reveal_strlit("mode");
    reveal_strlit("log-level");
    reveal_strlit("tun");
    reveal_strlit("external-controller");
    reveal_strlit("external-controller-pipe");
    reveal_strlit("external-controller-unix");
    reveal_strlit("secret");
}

/// The entries of a configuration before the tunnel is switched.
spec fn before_tun(profile: Entries, port: u16, platform: Platform) -> Entries {
    let e = runtime::with_ports(profile, port, platform);
    let e = yaml::put(e, "allow-lan"@, Yaml::Bool(false));
    let e = yaml::put(e, "ipv6"@, Yaml::Bool(true));
    let e = yaml::put(e, "mode"@, Yaml::Text("rule"@));
    yaml::put(e, "log-level"@, Yaml::Text("info"@))
}

proof fn lemma_before_tun(profile: Entries, port: u16, platform: Platform, key: Seq<char>)
    ensures
        yaml::lookup(before_tun(profile, port, platform), key) == if key == "log-level"@ {
            Some(Yaml::Text("info"@))
        } else if key == "mode"@ {
            Some(Yaml::Text("rule"@))
        } else if key == "ipv6"@ {
            Some(Yaml::Bool(true))
        } else if key == "allow-lan"@ {
            Some(Yaml::Bool(false))
        } else if key == "tproxy-port"@ && platform == Platform::Linux {
            Some(runtime::port_value(runtime::port_after(port, 4)))
        } else if key == "redir-port"@ && platform != Platform::Windows {
            Some(runtime::port_value(runtime::port_after(port, 3)))
        } else if key == "port"@ {
            Some(runtime::port_value(runtime::port_after(port, 2)))
        } else if key == "socks-port"@ {
            Some(runtime::port_value(runtime::port_after(port, 1)))
        } else if key == "mixed-port"@ {
            Some(runtime::port_value(port))
        } else {
            yaml::lookup(profile, key)
        },
{
    let p1 = runtime::port_value(runtime::port_after(port, 1));
    let p2 = runtime::port_value(runtime::port_after(port, 2));
    let p3 = runtime::port_value(runtime::port_after(port, 3));
    let p4 = runtime::port_value(runtime::port_after(port, 4));
    let e1 = yaml::put(profile, "mixed-port"@, runtime::port_value(port));
    yaml::lemma_put(profile, "mixed-port"@, runtime::port_value(port), key);
    let e2 = yaml::put(e1, "socks-port"@, p1);
    yaml::lemma_put(e1, "socks-port"@, p1, key);
    let e3 = yaml::put(e2, "port"@, p2);
    yaml::lemma_put(e2, "port"@, p2, key);
    let e4 = yaml::put(e3, "redir-port"@, p3);
    yaml::lemma_put(e3, "redir-port"@, p3, key);
    yaml::lemma_put(e4, "tproxy-port"@, p4, key);
    let f0 = runtime::with_ports(profile, port, platform);
    let f1 = yaml::put(f0, "allow-lan"@, Yaml::Bool(false));
    yaml::lemma_put(f0, "allow-lan"@, Yaml::Bool(false), key);
    let f2 = yaml::put(f1, "ipv6"@, Yaml::Bool(true));
    yaml::lemma_put(f1, "ipv6"@, Yaml::Bool(true), key);
    let f3 = yaml::put(f2, "mode"@, Yaml::Text("rule"@));
    yaml::lemma_put(f2, "mode"@, Yaml::Text("rule"@), key);
    yaml::lemma_put(f3, "log-level"@, Yaml::Text("info"@), key);
}

proof fn lemma_after_tun(
    profile: Entries,
    port: u16,
    secret: Seq<char>,
    socket: Seq<char>,
    platform: Platform,
    key: Seq<char>,
)
    ensures
        yaml::lookup(
            runtime::runtime_entries(profile, port, secret, socket, platform),
            key,
        ) == if key == "secret"@ && secret.len() > 0 {
            Some(Yaml::Text(secret))
        } else if key == "external-controller-pipe"@ && platform == Platform::Windows {
            Some(Yaml::Text(socket))
        } else if key == "external-controller-unix"@ && platform != Platform::Windows {
            Some(Yaml::Text(socket))
        } else if key == "external-controller"@ {
            Some(Yaml::Text(runtime::controller_host(port)))
        } else {
            yaml::lookup(runtime::with_tun(before_tun(profile, port, platform), false), key)
        },
{
    let f5 = runtime::with_tun(before_tun(profile, port, platform), false);
    let host = Yaml::Text(runtime::controller_host(port));
    let f6 = yaml::put(f5, "external-controller"@, host);
    yaml::lemma_put(f5, "external-controller"@, host, key);
    let f7 = yaml::put(f6, "external-controller-pipe"@, Yaml::Text(socket));
    yaml::lemma_put(f6, "external-controller-pipe"@, Yaml::Text(socket), key);
    let g7 = yaml::put(f6, "external-controller-unix"@, Yaml::Text(socket));
    yaml::lemma_put(f6, "external-controller-unix"@, Yaml::Text(socket), key);
    yaml::lemma_put(f7, "secret"@, Yaml::Text(secret), key);
    yaml::lemma_put(g7, "secret"@, Yaml::Text(secret), key);
}

proof fn lemma_runtime_at(
    profile: Entries,
    port: u16,
    secret: Seq<char>,
    socket: Seq<char>,
    platform: Platform,
    key: Seq<char>,
)
    requires
        key != "tun"@,
    ensures
        key != "secret"@ && key != "external-controller-pipe"@ && key != "external-controller-unix"@
            && key != "external-controller"@ ==> yaml::lookup(
            runtime::runtime_entries(profile, port, secret, socket, platform),
            key,
        ) == yaml::lookup(before_tun(profile, port, platform), key),
{
    lemma_after_tun(profile, port, secret, socket, platform, key);
    law_tun_switch(before_tun(profile, port, platform), false, key);
}

/// A core of our own listens on the mixed port and the ports beside it, for this machine alone.
pub proof fn law_runtime_ports(
    profile: Entries,
    port: u16,
    secret: Seq<char>,
    socket: Seq<char>,
    platform: Platform,
)
    ensures
        ({
            let e = runtime::runtime_entries(profile, port, secret, socket, platform);
            &&& shows_port(e, "mixed-port"@, port as nat)
            &&& shows_port(e, "socks-port"@, port_beside(port, 1))
            &&& shows_port(e, "port"@, port_beside(port, 2))
            &&& platform != Platform::Windows ==> shows_port(e, "redir-port"@, port_beside(port, 3))
            &&& platform == Platform::Windows ==> yaml::lookup(e, "redir-port"@) == yaml::lookup(
                profile,
                "redir-port"@,
            )
            &&& platform == Platform::Linux ==> shows_port(e, "tproxy-port"@, port_beside(port, 4))
            &&& platform != Platform::Linux ==> yaml::lookup(e, "tproxy-port"@) == yaml::lookup(
                profile,
                "tproxy-port"@,
            )
            &&& yaml::lookup(e, "allow-lan"@) == Some(Yaml::Bool(false))
        }),
{
    lemma_keys_differ();
    lemma_before_tun(profile, port, platform, "mixed-port"@);
    lemma_before_tun(profile, port, platform, "socks-port"@);
    lemma_before_tun(profile, port, platform, "port"@);
    lemma_before_tun(profile, port, platform, "redir-port"@);
    lemma_before_tun(profile, port, platform, "tproxy-port"@);
    lemma_before_tun(profile, port, platform, "allow-lan"@);
    lemma_runtime_at(profile, port, secret, socket, platform, "mixed-port"@);
    lemma_runtime_at(profile, port, secret, socket, platform, "socks-port"@);
    lemma_runtime_at(profile, port, secret, socket, platform, "port"@);
    lemma_runtime_at(profile, port, secret, socket, platform, "redir-port"@);
    lemma_runtime_at(profile, port, secret, socket, platform, "tproxy-port"@);
    lemma_runtime_at(profile, port, secret, socket, platform, "allow-lan"@);
}

/// A core of our own starts by its rules and with the tunnel off, whatever the profile says; only
/// the switch of the tunnel turns it on. What else the profile says of the tunnel stays.
pub proof fn law_runtime_starts_without_tun(
    profile: Entries,
    port: u16,
    secret: Seq<char>,
    socket: Seq<char>,
    platform: Platform,
)
    ensures
        ({
            let e = runtime::runtime_entries(profile, port, secret, socket, platform);
            &&& holds_tun(e, false, profile)
            &&& yaml::lookup(e, "mode"@) == Some(Yaml::Text("rule"@))
            &&& yaml::lookup(e, "log-level"@) == Some(Yaml::Text("info"@))
            &&& yaml::lookup(e, "ipv6"@) == Some(Yaml::Bool(true))
        }),
{
    lemma_keys_differ();
    lemma_before_tun(profile, port, platform, "mode"@);
    lemma_before_tun(profile, port, platform, "log-level"@);
    lemma_before_tun(profile, port, platform, "ipv6"@);
    lemma_before_tun(profile, port, platform, "tun"@);
    lemma_runtime_at(profile, port, secret, socket, platform, "mode"@);
    lemma_runtime_at(profile, port, secret, socket, platform, "log-level"@);
    lemma_runtime_at(profile, port, secret, socket, platform, "ipv6"@);
    lemma_after_tun(profile, port, secret, socket, platform, "tun"@);
    law_tun_switch(before_tun(profile, port, platform), false, "mode"@);
}

/// The controller of a core of our own is where the panel looks for it: on the given socket, and on
/// this machine at the port 1200 places behind the mixed port. It asks for the secret where there
/// is one.
pub proof fn law_runtime_controller(
    profile: Entries,
    port: u16,
    secret: Seq<char>,
    socket: Seq<char>,
    platform: Platform,
)
    ensures
        ({
            let e = runtime::runtime_entries(profile, port, secret, socket, platform);
            &&& yaml::lookup(e, "external-controller"@) == Some(
                Yaml::Text("127.0.0.1:"@ + number::dec(port_beside(port, 1200))),
            )
            &&& platform == Platform::Windows ==> yaml::lookup(e, "external-controller-pipe"@)
                == Some(Yaml::Text(socket))
            &&& platform != Platform::Windows ==> yaml::lookup(e, "external-controller-unix"@)
                == Some(Yaml::Text(socket))
            &&& yaml::lookup(e, "secret"@) == if secret.len() > 0 {
                Some(Yaml::Text(secret))
            } else {
                yaml::lookup(profile, "secret"@)
            }
        }),
{
    lemma_keys_differ();
    lemma_after_tun(profile, port, secret, socket, platform, "external-controller"@);
    lemma_after_tun(profile, port, secret, socket, platform, "external-controller-pipe"@);
    lemma_after_tun(profile, port, secret, socket, platform, "external-controller-unix"@);
    lemma_after_tun(profile, port, secret, socket, platform, "secret"@);
    law_tun_switch(before_tun(profile, port, platform), false, "secret"@);
    lemma_before_tun(profile, port, platform, "secret"@);
}

/// Every other key is left as the profile has it.
pub proof fn law_runtime_leaves_the_rest(
    profile: Entries,
    port: u16,
    secret: Seq<char>,
    socket: Seq<char>,
    platform: Platform,
    key: Seq<char>,
)
    requires
        !(key == "mixed-port"@ || key == "socks-port"@ || key == "port"@ || key == "redir-port"@
            || key == "tproxy-port"@ || key == "allow-lan"@ || key == "ipv6"@ || key == "mode"@
            || key == "log-level"@ || key == "tun"@ || key == "external-controller"@ || key
            == "external-controller-pipe"@ || key == "external-controller-unix"@ || key
            == "secret"@),
    ensures
        yaml::lookup(runtime::runtime_entries(profile, port, secret, socket, platform), key)
            == yaml::lookup(profile, key),
{
    lemma_runtime_at(profile, port, secret, socket, platform, key);
    lemma_before_tun(profile, port, platform, key);
}

} // verus!
