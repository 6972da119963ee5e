//! What the panel tells about itself.

use crate::apply;
use crate::config;
use crate::notes::Notes;
use crate::number;
use crate::paths;
use crate::process;
use crate::profile::AppPaths;
use crate::session::App;
use crate::text;
use crate::tick;
use vstd::prelude::*;

verus! {

/// A text that may be missing.
pub open spec fn or_dash(s: Option<Seq<char>>) -> Seq<char> {
    match s {
        Some(t) => t,
        None => "-"@,
    }
}

/// What is told at the start.
pub open spec fn boot_notes(app: App, independent: bool, service: bool) -> Seq<Seq<char>> {
    let v = app.verge();
    let first = seq![
        "startup: root="@ + app.store.paths.root@ + ", profiles="@ + number::dec(
            app.store.state.profiles@.len(),
        ) + ", current="@ + or_dash(text::opt_text(app.store.state.current)) + ", controller="@
            + v.controller_url@ + ", mixed-port="@ + number::dec(v.mixed_port as nat) + ", sys="@
            + number::bool_text(v.enable_system_proxy) + ", tun="@ + number::bool_text(
            v.enable_tun_mode,
        ),
        "startup mode: independent-core="@ + number::bool_text(independent) + ", service-ipc="@
            + number::bool_text(service),
        "startup policy: autosub="@ + number::dec(v.auto_update_subscription_minutes as nat)
            + "min cleanup-on-exit="@ + number::bool_text(v.auto_cleanup_on_exit)
            + " backend-exit-policy="@ + config::policy_label(v.backend_exit_policy)
            + " (legacy keep-core-on-exit="@ + number::bool_text(v.keep_core_on_exit) + ")"@,
    ];
    let second = match app.file_log_path {
        Some(path) => first.push("file log: "@ + path@),
        None => first,
    };
    match app.session_log_path {
        Some(path) => second.push("session log: "@ + path@),
        None => second,
    }
}

/// What is told of the core's process: its pid, and whether it is alive.
pub open spec fn backend_notes(app: App, pid: Option<(u32, bool)>) -> Seq<Seq<char>> {
    let v = app.verge();
    seq![
        "backend endpoint: "@ + app.mihomo.spec_label(),
        "backend-exit-policy="@ + config::policy_label(v.backend_exit_policy)
            + " (effective keep="@ + number::bool_text(
            app.screen.keeps_backend(v.backend_exit_policy, v.keep_core_on_exit),
        ) + ")"@,
        match pid {
            Some((p, alive)) => "managed core pid="@ + number::dec(p as nat) + ", alive="@
                + number::bool_text(alive),
            None => "managed core pid file: not found"@,
        },
    ]
}

/// What was found out for a diagnosis.
#[derive(Debug)]
pub struct DoctorFacts {
    pub independent: bool,
    pub service: bool,
    /// The seconds until the next update of all subscriptions.
    pub remaining: Option<u64>,
    /// The pid that was kept, and whether the process is alive.
    pub pid: Option<(u32, bool)>,
    /// The core's mixed port; nothing where the core does not tell its settings.
    pub core_port: Option<Option<u16>>,
    /// The core's program.
    pub core: Option<String>,
    /// Whether the program has the capabilities for the tunnel, where that is known.
    pub caps: Option<bool>,
    pub primary_exists: bool,
    pub legacy_exists: bool,
}

/// The first part of a diagnosis: the state of the panel.
pub open spec fn doctor_state(app: App, f: DoctorFacts) -> Seq<Seq<char>> {
    let v = app.verge();
    seq![
        "doctor: independent-core="@ + number::bool_text(f.independent) + ", service-ipc="@
            + number::bool_text(f.service),
        "doctor: endpoint="@ + app.mihomo.spec_label(),
        "doctor: state mixed-port="@ + number::dec(v.mixed_port as nat) + ", sysproxy="@
            + number::bool_text(v.enable_system_proxy),
        "doctor: cleanup-on-exit="@ + number::bool_text(v.auto_cleanup_on_exit)
            + " backend-exit-policy="@ + config::policy_label(v.backend_exit_policy)
            + " (effective keep="@ + number::bool_text(
            app.screen.keeps_backend(v.backend_exit_policy, v.keep_core_on_exit),
        ) + ") "@ + tick::status_line(v.auto_update_subscription_minutes, f.remaining),
    ]
}

/// The second part of a diagnosis: the state of the core.
pub open spec fn doctor_core(f: DoctorFacts, platform: config::Platform) -> Seq<Seq<char>> {
    let a = match f.pid {
        Some((p, alive)) => seq![
            "doctor: managed-core pid="@ + number::dec(p as nat) + ", alive="@ + number::bool_text(
                alive,
            ),
        ],
        None => seq![],
    };
    let b = match f.core_port {
        Some(port) => a.push("doctor: core mixed-port="@ + apply::port_debug(port)),
        None => a,
    };
    let c = match f.core {
        Some(path) => {
            let c = b.push("doctor: core-bin="@ + path@);
            match f.caps {
                Some(true) => c.push("doctor: linux tun caps=true"@),
                Some(false) => c.push("doctor: linux tun caps=false"@).push(
                    process::privilege_hint(platform, Some(path@)),
                ),
                None => c,
            }
        },
        None => b.push("doctor: core-bin not found in PATH"@),
    };
    c.push(
        "doctor: service ipc primary exists="@ + number::bool_text(f.primary_exists)
            + " legacy exists="@ + number::bool_text(f.legacy_exists),
    )
}

/// Where the logs are kept: their directory, the log of all sessions, and the log of the session
/// that started at the given time.
pub fn log_files(kept: &AppPaths, started: u64) -> (r: (String, String, String))
    ensures
        ({
            let dir = paths::joined(kept.platform, kept.root@, "logs"@);
            &&& r.0@ == dir
            &&& r.1@ == paths::joined(kept.platform, dir, "verge-tui.log"@)
            &&& r.2@ == paths::joined(
                kept.platform,
                dir,
                "session-"@ + number::dec(started as nat) + ".log"@,
            )
        }),
{
    let dir = paths::join(kept.platform, kept.root.as_str(), "logs");
    let main = paths::join(kept.platform, dir.as_str(), "verge-tui.log");
    let name = text::cat3("session-", number::to_dec(started).as_str(), ".log");
    let session = paths::join(kept.platform, dir.as_str(), name.as_str());
    (dir, main, session)
}

/// What is told once the panel has started; the outcome is that of setting the system's proxy.
pub fn started_notes(proxy: Result<(), String>) -> (r: Notes)
    ensures
        r@ == match proxy {
            Ok(_) => seq![
                "verge-tui started. Type ':' then 'help' to view commands."@,
                "startup defer: core/bootstrap will continue in background ticks"@,
            ],
            Err(err) => seq![
                "verge-tui started. Type ':' then 'help' to view commands."@,
                "apply system proxy on boot failed: "@ + err@,
                "startup defer: core/bootstrap will continue in background ticks"@,
            ],
        },
{
    let mut notes = Notes::say("verge-tui started. Type ':' then 'help' to view commands.");
    let ghost mut failure = Seq::<char>::empty();
    if let Err(err) = &proxy {
        notes.add(text::cat2("apply system proxy on boot failed: ", err.as_str()));
        proof {
            failure = err@;
        }
    }
    notes.add("startup defer: core/bootstrap will continue in background ticks".to_owned());
    proof {
        if proxy is Ok {
            assert(notes@ =~= seq![
                "verge-tui started. Type ':' then 'help' to view commands."@,
                "startup defer: core/bootstrap will continue in background ticks"@,
            ]);
        } else {
            assert(notes@ =~= seq![
                "verge-tui started. Type ':' then 'help' to view commands."@,
                "apply system proxy on boot failed: "@ + failure,
                "startup defer: core/bootstrap will continue in background ticks"@,
            ]);
        }
    }
    notes
}

impl App {
    pub fn log_boot_diagnostics(&self, independent: bool, service: bool) -> (r: Notes)
        ensures
            r@ == boot_notes(*self, independent, service),
    {
        let v = &self.store.state.verge;
        let current = match &self.store.state.current {
            Some(uid) => uid.as_str(),
            None => "-",
        };
        let a = text::cat5(
            "startup: root=",
            self.store.paths.root.as_str(),
            ", profiles=",
            number::to_dec(self.store.state.profiles.len() as u64).as_str(),
            ", current=",
        );
        let a = text::cat5(
            a.as_str(),
            current,
            ", controller=",
            v.controller_url.as_str(),
            ", mixed-port=",
        );
        let a = text::cat5(
            a.as_str(),
            number::to_dec(v.mixed_port as u64).as_str(),
            ", sys=",
            number::bool_str(v.enable_system_proxy),
            ", tun=",
        );
        let mut notes = Notes::one(
            text::cat2(a.as_str(), number::bool_str(v.enable_tun_mode)),
        );
        notes.add(
            text::cat4(
                "startup mode: independent-core=",
                number::bool_str(independent),
                ", service-ipc=",
                number::bool_str(service),
            ),
        );
        let c = text::cat5(
            "startup policy: autosub=",
            number::to_dec(v.auto_update_subscription_minutes).as_str(),
            "min cleanup-on-exit=",
            number::bool_str(v.auto_cleanup_on_exit),
            " backend-exit-policy=",
        );
        notes.add(
            text::cat5(
                c.as_str(),
                config::backend_exit_policy_label(v.backend_exit_policy),
                " (legacy keep-core-on-exit=",
                number::bool_str(v.keep_core_on_exit),
                ")",
            ),
        );
        if let Some(path) = &self.file_log_path {
            notes.add(text::cat2("file log: ", path.as_str()));
        }
        if let Some(path) = &self.session_log_path {
            notes.add(text::cat2("session log: ", path.as_str()));
        }
        assert(notes@ =~= boot_notes(*self, independent, service));
        notes
    }

    pub fn backend_status(&self, pid: Option<(u32, bool)>) -> (r: Notes)
        ensures
            r@ == backend_notes(*self, pid),
    {
        let v = &self.store.state.verge;
        let mut notes = Notes::one(
            text::cat2("backend endpoint: ", self.mihomo.endpoint_label().as_str()),
        );
        notes.add(
            text::cat5(
                "backend-exit-policy=",
                config::backend_exit_policy_label(v.backend_exit_policy),
                " (effective keep=",
                number::bool_str(self.effective_keep_core_on_exit()),
                ")",
            ),
        );
        match pid {
            Some((p, alive)) => notes.add(
                text::cat4(
                    "managed core pid=",
                    number::to_dec(p as u64).as_str(),
                    ", alive=",
                    number::bool_str(alive),
                ),
            ),
            None => notes.add("managed core pid file: not found".to_owned()),
        }
        assert(notes@ =~= backend_notes(*self, pid));
        notes
    }

    fn doctor_of_state(&self, f: &DoctorFacts) -> (r: Notes)
        ensures
            r@ == doctor_state(*self, *f),
    {
        let v = &self.store.state.verge;
        let mut notes = Notes::one(
            text::cat4(
                "doctor: independent-core=",
                number::bool_str(f.independent),
                ", service-ipc=",
                number::bool_str(f.service),
            ),
        );
        notes.add(text::cat2("doctor: endpoint=", self.mihomo.endpoint_label().as_str()));
        notes.add(
            text::cat4(
                "doctor: state mixed-port=",
                number::to_dec(v.mixed_port as u64).as_str(),
                ", sysproxy=",
                number::bool_str(v.enable_system_proxy),
            ),
        );
        let a = text::cat5(
            "doctor: cleanup-on-exit=",
            number::bool_str(v.auto_cleanup_on_exit),
            " backend-exit-policy=",
            config::backend_exit_policy_label(v.backend_exit_policy),
            " (effective keep=",
        );
        let status = tick::auto_update_status_line(
            v.auto_update_subscription_minutes,
            f.remaining,
        );
        notes.add(
            text::cat4(
                a.as_str(),
                number::bool_str(self.effective_keep_core_on_exit()),
                ") ",
                status.as_str(),
            ),
        );
        assert(notes@ =~= doctor_state(*self, *f));
        notes
    }

    /// A diagnosis from what was found out.
    pub fn doctor(&self, f: &DoctorFacts, platform: config::Platform) -> (r: Notes)
        ensures
            r@ == doctor_state(*self, *f) + doctor_core(*f, platform),
    {
        let mut notes = self.doctor_of_state(f);
        notes.append(doctor_of_core(f, platform));
        notes
    }
}

fn doctor_of_core(f: &DoctorFacts, platform: config::Platform) -> (r: Notes)
    ensures
        r@ == doctor_core(*f, platform),
{
    let mut notes = match f.pid {
        Some((p, alive)) => Notes::one(
            text::cat4(
                "doctor: managed-core pid=",
                number::to_dec(p as u64).as_str(),
                ", alive=",
                number::bool_str(alive),
            ),
        ),
        None => Notes::none(),
    };
    if let Some(port) = f.core_port {
        notes.add(text::cat2("doctor: core mixed-port=", apply::debug_port(port).as_str()));
    }
    match &f.core {
        Some(path) => {
            notes.add(text::cat2("doctor: core-bin=", path.as_str()));
            if let Some(granted) = f.caps {
                if granted {
                    notes.add("doctor: linux tun caps=true".to_owned());
                } else {
                    notes.add("doctor: linux tun caps=false".to_owned());
                    notes.add(process::tun_privilege_hint(platform, Some(path.as_str())));
                }
            }
        },
        None => notes.add("doctor: core-bin not found in PATH".to_owned()),
    }
    notes.add(
        text::cat4(
            "doctor: service ipc primary exists=",
            number::bool_str(f.primary_exists),
            " legacy exists=",
            number::bool_str(f.legacy_exists),
        ),
    );
    notes
}

} // verus!
