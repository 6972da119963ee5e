//! The settings of the control panel.

use crate::text;
use vstd::prelude::*;

verus! {

/// The systems that the panel runs on.
#[derive(Debug, Clone, Copy, PartialEq, Eq, Structural)]
pub enum Platform {
    Linux,
    MacOs,
    Windows,
}

/// What happens to the backend when the panel is left.
#[derive(Debug, Clone, Copy, PartialEq, Eq, Structural)]
pub enum BackendExitPolicy {
    AlwaysOn,
    AlwaysOff,
    Query,
}

impl Default for BackendExitPolicy {
    fn default() -> (r: Self)
        ensures
            r == BackendExitPolicy::Query,
    {
        BackendExitPolicy::Query
    }
}

#[derive(Debug)]
pub struct VergeConfig {
    pub enable_system_proxy: bool,
    pub enable_tun_mode: bool,
    pub proxy_host: String,
    pub system_proxy_bypass: String,
    pub controller_url: String,
    pub secret: String,
    pub mixed_port: u16,
    pub default_delay_test_url: String,
    pub auto_update_subscription_minutes: u64,
    pub auto_cleanup_on_exit: bool,
    pub keep_core_on_exit: bool,
    pub backend_exit_policy: BackendExitPolicy,
}

impl Clone for VergeConfig {
    fn clone(&self) -> (r: Self)
        ensures
            r == *self,
    {
        VergeConfig {
            enable_system_proxy: self.enable_system_proxy,
            enable_tun_mode: self.enable_tun_mode,
            proxy_host: self.proxy_host.clone(),
            system_proxy_bypass: self.system_proxy_bypass.clone(),
            controller_url: self.controller_url.clone(),
            secret: self.secret.clone(),
            mixed_port: self.mixed_port,
            default_delay_test_url: self.default_delay_test_url.clone(),
            auto_update_subscription_minutes: self.auto_update_subscription_minutes,
            auto_cleanup_on_exit: self.auto_cleanup_on_exit,
            keep_core_on_exit: self.keep_core_on_exit,
            backend_exit_policy: self.backend_exit_policy,
        }
    }
}

impl VergeConfig {
    /// Whether these are the settings of a first start.
    pub open spec fn are_initial(self) -> bool {
        &&& !self.enable_system_proxy
        &&& !self.enable_tun_mode
        &&& self.proxy_host@ == "127.0.0.1"@
        &&& self.system_proxy_bypass@ == Seq::<char>::empty()
        &&& self.controller_url@ == "http://127.0.0.1:9097"@
        &&& self.secret@ == Seq::<char>::empty()
        &&& self.mixed_port == 7897
        &&& self.default_delay_test_url@ == "http://cp.cloudflare.com"@
        &&& self.auto_update_subscription_minutes == 0
        &&& self.auto_cleanup_on_exit
        &&& self.keep_core_on_exit
        &&& self.backend_exit_policy == BackendExitPolicy::Query
    }
}

impl Default for VergeConfig {
    fn default() -> (r: Self)
        ensures
            r.are_initial(),
    {
        VergeConfig {
            enable_system_proxy: false,
            enable_tun_mode: false,
            proxy_host: "127.0.0.1".to_owned(),
            system_proxy_bypass: String::new(),
            controller_url: "http://127.0.0.1:9097".to_owned(),
            secret: String::new(),
            mixed_port: 7897,
            default_delay_test_url: "http://cp.cloudflare.com".to_owned(),
            auto_update_subscription_minutes: 0,
            auto_cleanup_on_exit: true,
            keep_core_on_exit: true,
            backend_exit_policy: BackendExitPolicy::Query,
        }
    }
}

/// What a word for a switch means; letter case and surrounding white space do not matter.
pub open spec fn switch_of(value: Seq<char>) -> Option<bool> {
    let v = text::lowered(text::trimmed(value));
    if v == "on"@ || v == "1"@ || v == "true"@ || v == "yes"@ {
        Some(true)
    } else if v == "off"@ || v == "0"@ || v == "false"@ || v == "no"@ {
        Some(false)
    } else {
        None
    }
}

pub fn parse_on_off(value: &str) -> (r: Option<bool>)
    ensures
        r == switch_of(value@),
{
    let v = text::to_lower(text::trim(value).as_str());
    let v = v.as_str();
    if text::same(v, "on") || text::same(v, "1") || text::same(v, "true") || text::same(v, "yes") {
        Some(true)
    } else if text::same(v, "off") || text::same(v, "0") || text::same(v, "false") || text::same(
        v,
        "no",
    ) {
        Some(false)
    } else {
        None
    }
}

/// The exit policy that a word names; letter case and surrounding white space do not matter.
pub open spec fn policy_of(value: Seq<char>) -> Option<BackendExitPolicy> {
    let v = text::lowered(text::trimmed(value));
    if v == "always-on"@ || v == "always_on"@ || v == "on"@ {
        Some(BackendExitPolicy::AlwaysOn)
    } else if v == "always-off"@ || v == "always_off"@ || v == "off"@ {
        Some(BackendExitPolicy::AlwaysOff)
    } else if v == "query"@ || v == "ask"@ {
        Some(BackendExitPolicy::Query)
    } else {
        None
    }
}

pub fn parse_backend_exit_policy(value: &str) -> (r: Option<BackendExitPolicy>)
    ensures
        r == policy_of(value@),
{
    let v = text::to_lower(text::trim(value).as_str());
    let v = v.as_str();
    if text::same(v, "always-on") || text::same(v, "always_on") || text::same(v, "on") {
        Some(BackendExitPolicy::AlwaysOn)
    } else if text::same(v, "always-off") || text::same(v, "always_off") || text::same(v, "off") {
        Some(BackendExitPolicy::AlwaysOff)
    } else if text::same(v, "query") || text::same(v, "ask") {
        Some(BackendExitPolicy::Query)
    } else {
        None
    }
}

pub open spec fn policy_label(policy: BackendExitPolicy) -> Seq<char> {
    match policy {
        BackendExitPolicy::AlwaysOn => "always-on"@,
        BackendExitPolicy::AlwaysOff => "always-off"@,
        BackendExitPolicy::Query => "query"@,
    }
}

pub fn backend_exit_policy_label(policy: BackendExitPolicy) -> (r: &'static str)
    ensures
        r@ == policy_label(policy),
{
    match policy {
        BackendExitPolicy::AlwaysOn => "always-on",
        BackendExitPolicy::AlwaysOff => "always-off",
        BackendExitPolicy::Query => "query",
    }
}

/// The label of a policy names that policy.
pub proof fn law_policy_label_names_policy(policy: BackendExitPolicy)
    ensures
        policy_of(policy_label(policy)) == Some(policy),
{
    reveal_strlit("always-on");
    reveal_strlit("always_on");
    reveal_strlit("on");
    reveal_strlit("always-off");
    reveal_strlit("always_off");
    reveal_strlit("off");
    reveal_strlit("query");
    reveal_strlit("ask");
    let s = policy_label(policy);
    reveal_with_fuel(text::trimmed_start, 2);
    reveal_with_fuel(text::trimmed_end, 2);
    assert(text::trimmed(s) == s);
    assert(text::lowered(s) =~= s);
    assert("query"@[0] == 'q' && "always-off"@[0] == 'a');
    assert("always-off"@.len() == 10 && "always-on"@.len() == 9 && "always_on"@.len() == 9);
}

/// The settings under which the backend is kept: the policy `AlwaysOn` or `AlwaysOff`, and the
/// answer that goes with it.
pub open spec fn with_keep(c: VergeConfig, keep: bool) -> VergeConfig {
    VergeConfig {
        keep_core_on_exit: keep,
        backend_exit_policy: if keep {
            BackendExitPolicy::AlwaysOn
        } else {
            BackendExitPolicy::AlwaysOff
        },
        ..c
    }
}

/// The settings with a new exit policy; the answer follows it, except that `Query` leaves the
/// answer as it was.
pub open spec fn with_policy(c: VergeConfig, policy: BackendExitPolicy) -> VergeConfig {
    VergeConfig {
        backend_exit_policy: policy,
        keep_core_on_exit: match policy {
            BackendExitPolicy::AlwaysOn => true,
            BackendExitPolicy::AlwaysOff => false,
            BackendExitPolicy::Query => c.keep_core_on_exit,
        },
        ..c
    }
}

impl VergeConfig {
    pub fn set_keep(&mut self, keep: bool)
        ensures
            *final(self) == with_keep(*old(self), keep),
    {
        self.keep_core_on_exit = keep;
        self.backend_exit_policy = if keep {
            BackendExitPolicy::AlwaysOn
        } else {
            BackendExitPolicy::AlwaysOff
        };
    }

    pub fn set_policy(&mut self, policy: BackendExitPolicy)
        ensures
            *final(self) == with_policy(*old(self), policy),
    {
        self.backend_exit_policy = policy;
        match policy {
            BackendExitPolicy::AlwaysOn => {
                self.keep_core_on_exit = true;
            },
            BackendExitPolicy::AlwaysOff => {
                self.keep_core_on_exit = false;
            },
            BackendExitPolicy::Query => {},
        }
    }
}

/// Keeping the backend, or not, is the policy `always-on`, or `always-off`.
pub proof fn law_keep_is_policy(c: VergeConfig, keep: bool)
    ensures
        with_keep(c, keep) == with_policy(
            c,
            if keep {
                BackendExitPolicy::AlwaysOn
            } else {
                BackendExitPolicy::AlwaysOff
            },
        ),
{
}

/// What the system's proxy is set to.
#[derive(Debug)]
pub struct SystemProxy {
    pub enable: bool,
    pub host: String,
    pub port: u16,
    pub bypass: String,
}

/// The hosts that are never reached through the proxy.
pub open spec fn default_bypass(platform: Platform) -> Seq<char> {
    match platform {
        Platform::Linux => "localhost,127.0.0.1,192.168.0.0/16,10.0.0.0/8,172.16.0.0/12,::1"@,
        Platform::MacOs => "127.0.0.1,192.168.0.0/16,10.0.0.0/8,172.16.0.0/12,localhost,*.local,*.crashlytics.com,<local>"@,
        Platform::Windows => "localhost;127.*;192.168.*;10.*;172.16.*;172.17.*;172.18.*;172.19.*;172.20.*;172.21.*;172.22.*;172.23.*;172.24.*;172.25.*;172.26.*;172.27.*;172.28.*;172.29.*;172.30.*;172.31.*;<local>"@,
    }
}

fn default_bypass_text(platform: Platform) -> (r: &'static str)
    ensures
        r@ == default_bypass(platform),
{
    match platform {
        Platform::Linux => "localhost,127.0.0.1,192.168.0.0/16,10.0.0.0/8,172.16.0.0/12,::1",
        Platform::MacOs => "127.0.0.1,192.168.0.0/16,10.0.0.0/8,172.16.0.0/12,localhost,*.local,*.crashlytics.com,<local>",
        Platform::Windows => "localhost;127.*;192.168.*;10.*;172.16.*;172.17.*;172.18.*;172.19.*;172.20.*;172.21.*;172.22.*;172.23.*;172.24.*;172.25.*;172.26.*;172.27.*;172.28.*;172.29.*;172.30.*;172.31.*;<local>",
    }
}

/// What the system's proxy has to be set to: on or off as configured, the configured host and
/// port, and the configured exceptions after the default ones.
pub fn apply_system_proxy(verge: &VergeConfig, platform: Platform) -> (r: SystemProxy)
    ensures
        r.enable == verge.enable_system_proxy,
        r.host@ == verge.proxy_host@,
        r.port == verge.mixed_port,
        r.bypass@ == if verge.system_proxy_bypass@.len() == 0 {
            default_bypass(platform)
        } else {
            default_bypass(platform) + ","@ + verge.system_proxy_bypass@
        },
{
    SystemProxy {
        enable: verge.enable_system_proxy,
        host: verge.proxy_host.clone(),
        port: verge.mixed_port,
        bypass: if verge.system_proxy_bypass.as_str().is_empty() {
            default_bypass_text(platform).to_owned()
        } else {
            text::cat3(default_bypass_text(platform), ",", verge.system_proxy_bypass.as_str())
        },
    }
}

} // verus!
