//! What happens as time passes: ticks, and updates by the clock.

use crate::client::ConnectionsResp;
use crate::client::TrafficResp;
use crate::notes::Notes;
use crate::number;
use crate::session::App;
use crate::text;
use vstd::prelude::*;

verus! {

/// The steps of a tick, in their order.
#[derive(Debug, Clone, Copy, PartialEq, Eq, Structural)]
pub enum TickStep {
    Done,
    /// Look after the child process.
    Reap,
    /// The first tick: make sure that a core answers, give it the current profile, ask it for its
    /// proxies, read its streams, and switch the tunnel on where it is to be on.
    Boot,
    BootApply,
    BootRefresh,
    BootStreams,
    BootTun,
    /// Update the subscriptions where it is time.
    AutoUpdate,
    /// Take in what the streams and a delay test have sent.
    Receive,
    /// A delay test has ended: ask for the proxies.
    RefreshTested,
    /// Record what flows.
    Sample,
    /// Ask whether the core answers.
    Probe,
    /// It does not: find one that does, read its streams, and ask it for its proxies.
    Recover,
    RecoverStreams,
    RecoverRefresh,
}

impl TickStep {
    /// How many steps are ahead at most.
    pub open spec fn rank(self) -> nat {
        match self {
            TickStep::Done => 0,
            TickStep::RecoverRefresh => 1,
            TickStep::RecoverStreams => 2,
            TickStep::Recover => 3,
            TickStep::Probe => 4,
            TickStep::Sample => 5,
            TickStep::RefreshTested => 6,
            TickStep::Receive => 7,
            TickStep::AutoUpdate => 8,
            TickStep::BootTun => 9,
            TickStep::BootStreams => 10,
            TickStep::BootRefresh => 11,
            TickStep::BootApply => 12,
            TickStep::Boot => 13,
            TickStep::Reap => 14,
        }
    }
}

/// The ticks at which the core is asked whether it answers.
pub open spec fn probes_at(tick: u64) -> bool {
    tick % 25 == 0
}

/// The failed probes in a row, after one more.
pub open spec fn failures_after(failures: u8, ok: bool) -> u8 {
    if ok {
        0
    } else if failures < u8::MAX {
        (failures + 1) as u8
    } else {
        failures
    }
}

/// The step after a step that went well or not, by what the state says.
pub open spec fn tick_after(
    step: TickStep,
    ok: bool,
    boot: bool,
    tun: bool,
    tick: u64,
    failures: u8,
) -> TickStep {
    match step {
        TickStep::Done => TickStep::Done,
        TickStep::Reap => if boot {
            TickStep::Boot
        } else {
            TickStep::AutoUpdate
        },
        TickStep::Boot => if ok {
            TickStep::BootApply
        } else {
            TickStep::AutoUpdate
        },
        TickStep::BootApply => TickStep::BootRefresh,
        TickStep::BootRefresh => TickStep::BootStreams,
        TickStep::BootStreams => if tun {
            TickStep::BootTun
        } else {
            TickStep::AutoUpdate
        },
        TickStep::BootTun => TickStep::AutoUpdate,
        TickStep::AutoUpdate => TickStep::Receive,
        TickStep::Receive => if ok {
            TickStep::RefreshTested
        } else {
            TickStep::Sample
        },
        TickStep::RefreshTested => TickStep::Sample,
        TickStep::Sample => if probes_at(tick) {
            TickStep::Probe
        } else {
            TickStep::Done
        },
        TickStep::Probe => if failures_after(failures, ok) >= 2 {
            TickStep::Recover
        } else {
            TickStep::Done
        },
        TickStep::Recover => if ok {
            TickStep::RecoverStreams
        } else {
            TickStep::Done
        },
        TickStep::RecoverStreams => TickStep::RecoverRefresh,
        TickStep::RecoverRefresh => TickStep::Done,
    }
}

/// What is told at a step of a tick.
pub open spec fn tick_notes(step: TickStep, result: Result<bool, Seq<char>>, failures: u8) -> Seq<
    Seq<char>,
> {
    let ok = result == Ok::<bool, Seq<char>>(true);
    if step == TickStep::Boot && !ok {
        seq!["mihomo api unavailable; skip proxy/traffic initialization"@]
    } else if step == TickStep::BootTun && result is Err {
        seq!["apply tun on boot failed: "@ + result->Err_0]
    } else if step == TickStep::Probe && failures_after(failures, ok) >= 2 {
        seq!["mihomo health degraded, trying recovery"@]
    } else {
        seq![]
    }
}

fn tell_tick(step: TickStep, result: Result<bool, String>, failures: u8) -> (r: Notes)
    ensures
        r@ == tick_notes(step, crate::health::plain_flag(result), failures),
{
    let ok = match &result {
        Ok(b) => *b,
        Err(_) => false,
    };
    if step == TickStep::Boot && !ok {
        return Notes::say("mihomo api unavailable; skip proxy/traffic initialization");
    }
    if step == TickStep::BootTun {
        if let Err(err) = &result {
            return Notes::one(text::cat2("apply tun on boot failed: ", err.as_str()));
        }
    }
    if step == TickStep::Probe && !ok && failures >= 1 {
        return Notes::say("mihomo health degraded, trying recovery");
    }
    Notes::none()
}

impl App {
    /// Begins a tick.
    pub fn on_tick(&mut self) -> (r: TickStep)
        ensures
            r == TickStep::Reap,
            *final(self) == (App {
                tick_count: if old(self).tick_count < u64::MAX {
                    (old(self).tick_count + 1) as u64
                } else {
                    u64::MAX
                },
                ..*old(self)
            }),
            old(self).valid() ==> final(self).valid(),
    {
        if self.tick_count < u64::MAX {
            self.tick_count = self.tick_count + 1;
        }
        TickStep::Reap
    }

    /// Takes in the outcome of a step of a tick. The first tick is taken once; the failed probes
    /// in a row are counted, and a probe or a recovery that goes well ends the row.
    pub fn tick_next(&mut self, step: TickStep, result: Result<bool, String>) -> (r: (
        TickStep,
        Notes,
    ))
        ensures
            ({
                let ok = result == Ok::<bool, String>(true);
                &&& r.0 == tick_after(
                    step,
                    ok,
                    old(self).bootstrap_pending,
                    old(self).verge().enable_tun_mode,
                    old(self).tick_count,
                    old(self).health_probe_failures,
                )
                &&& r.1@ == tick_notes(
                    step,
                    crate::health::plain_flag(result),
                    old(self).health_probe_failures,
                )
                &&& *final(self) == (App {
                    bootstrap_pending: old(self).bootstrap_pending && step != TickStep::Reap,
                    health_probe_failures: if step == TickStep::Probe {
                        failures_after(old(self).health_probe_failures, ok)
                    } else if step == TickStep::Recover && ok {
                        0
                    } else {
                        old(self).health_probe_failures
                    },
                    ..*old(self)
                })
            }),
            step == TickStep::Done || r.0.rank() < step.rank(),
            old(self).valid() ==> final(self).valid(),
    {
        let ok = match &result {
            Ok(b) => *b,
            Err(_) => false,
        };
        let notes = tell_tick(step, result, self.health_probe_failures);
        let next = match step {
            TickStep::Done => TickStep::Done,
            TickStep::Reap => {
                let boot = self.bootstrap_pending;
                self.bootstrap_pending = false;
                if boot {
                    TickStep::Boot
                } else {
                    TickStep::AutoUpdate
                }
            },
            TickStep::Boot => {
                if ok {
                    TickStep::BootApply
                } else {
                    TickStep::AutoUpdate
                }
            },
            TickStep::BootApply => TickStep::BootRefresh,
            TickStep::BootRefresh => TickStep::BootStreams,
            TickStep::BootStreams => {
                if self.store.state.verge.enable_tun_mode {
                    TickStep::BootTun
                } else {
                    TickStep::AutoUpdate
                }
            },
            TickStep::BootTun => TickStep::AutoUpdate,
            TickStep::AutoUpdate => TickStep::Receive,
            TickStep::Receive => {
                if ok {
                    TickStep::RefreshTested
                } else {
                    TickStep::Sample
                }
            },
            TickStep::RefreshTested => TickStep::Sample,
            TickStep::Sample => {
                if self.tick_count % 25 == 0 {
                    TickStep::Probe
                } else {
                    TickStep::Done
                }
            },
            TickStep::Probe => {
                if ok {
                    self.health_probe_failures = 0;
                } else if self.health_probe_failures < u8::MAX {
                    self.health_probe_failures = self.health_probe_failures + 1;
                }
                if self.health_probe_failures >= 2 {
                    TickStep::Recover
                } else {
                    TickStep::Done
                }
            },
            TickStep::Recover => {
                if ok {
                    self.health_probe_failures = 0;
                    TickStep::RecoverStreams
                } else {
                    TickStep::Done
                }
            },
            TickStep::RecoverStreams => TickStep::RecoverRefresh,
            TickStep::RecoverRefresh => TickStep::Done,
        };
        (next, notes)
    }

    /// Takes in what the streams have sent: the last of each counts.
    pub fn take_streams(&mut self, traffic: &Vec<TrafficResp>, connections: &Vec<ConnectionsResp>)
        ensures
            *final(self) == (App {
                traffic: if traffic@.len() > 0 {
                    traffic@.last()
                } else {
                    old(self).traffic
                },
                connections: if connections@.len() > 0 {
                    connections@.last()
                } else {
                    old(self).connections
                },
                ..*old(self)
            }),
            old(self).valid() ==> final(self).valid(),
    {
        if traffic.len() > 0 {
            self.traffic = traffic[traffic.len() - 1];
        }
        if connections.len() > 0 {
            self.connections = connections[connections.len() - 1];
        }
    }
}

/// A recovery is tried only after two failed probes in a row.
pub proof fn law_recovery_needs_two_failures(failures: u8, boot: bool, tun: bool, tick: u64)
    ensures
        tick_after(TickStep::Probe, true, boot, tun, tick, failures) == TickStep::Done,
        tick_after(TickStep::Probe, false, boot, tun, tick, failures) == TickStep::Recover
            <==> failures >= 1,
        failures_after(failures, true) == 0,
{
}

/// How long until the next update of all subscriptions, in seconds; none when they are not updated
/// by the clock.
pub open spec fn update_delay(minutes: u64) -> Option<u64> {
    if minutes == 0 {
        None
    } else if minutes * 60 > u64::MAX {
        Some(u64::MAX)
    } else {
        Some((minutes * 60) as u64)
    }
}

pub open spec fn schedule_note(minutes: u64, reason: Seq<char>) -> Seq<char> {
    if minutes == 0 {
        "auto subscription update disabled ("@ + reason + ")"@
    } else {
        "auto subscription update scheduled every "@ + number::dec(minutes as nat) + " min ("@
            + reason + ")"@
    }
}

/// The seconds until the next update of all subscriptions, and what is told.
pub fn schedule_next_auto_update(minutes: u64, reason: &str) -> (r: (Option<u64>, Notes))
    ensures
        r.0 == update_delay(minutes),
        r.1@ == seq![schedule_note(minutes, reason@)],
{
    if minutes == 0 {
        return (
            None,
            Notes::one(text::cat3("auto subscription update disabled (", reason, ")")),
        );
    }
    let delay: u64 = if minutes > u64::MAX / 60 {
        u64::MAX
    } else {
        minutes * 60
    };
    (
        Some(delay),
        Notes::one(
            text::cat5(
                "auto subscription update scheduled every ",
                number::to_dec(minutes).as_str(),
                " min (",
                reason,
                ")",
            ),
        ),
    )
}

/// What is told of the updates by the clock; `remaining` are the seconds until the next one.
pub fn auto_update_status_line(minutes: u64, remaining: Option<u64>) -> (r: String)
    ensures
        r@ == status_line(minutes, remaining),
{
    if minutes == 0 {
        return "autosub: disabled".to_owned();
    }
    let left: u64 = match remaining {
        Some(secs) => secs,
        None => 0,
    };
    text::cat5(
        "autosub: every ",
        number::to_dec(minutes).as_str(),
        " min, next in ",
        number::to_dec(left).as_str(),
        "s",
    )
}

pub open spec fn status_line(minutes: u64, remaining: Option<u64>) -> Seq<char> {
    if minutes == 0 {
        "autosub: disabled"@
    } else {
        "autosub: every "@ + number::dec(minutes as nat) + " min, next in "@ + number::dec(
            match remaining {
                Some(secs) => secs as nat,
                None => 0,
            },
        ) + "s"@
    }
}

/// What is done about the updates by the clock.
#[derive(Debug, Clone, Copy, PartialEq, Eq, Structural)]
pub enum AutoUpdate {
    /// It is not yet time, or an update is running.
    Wait,
    /// There is nothing to update: set the next time.
    Skip,
    /// Update all, then set the next time.
    Run,
}

impl App {
    /// Whether it is time for an update of all subscriptions; `due` tells that the set time has
    /// come.
    pub fn maybe_run_auto_update(&mut self, due: bool) -> (r: (AutoUpdate, Notes))
        ensures
            ({
                let verdict = if !due || old(self).auto_update_running {
                    AutoUpdate::Wait
                } else if old(self).store.state.profiles@.len() == 0 {
                    AutoUpdate::Skip
                } else {
                    AutoUpdate::Run
                };
                &&& r.0 == verdict
                &&& r.1@ == match verdict {
                    AutoUpdate::Wait => seq![],
                    AutoUpdate::Skip => seq!["auto subscription update skipped: no profiles"@],
                    AutoUpdate::Run => seq!["auto subscription update started"@],
                }
                &&& *final(self) == (App {
                    auto_update_running: old(self).auto_update_running || verdict
                        == AutoUpdate::Run,
                    ..*old(self)
                })
            }),
            old(self).valid() ==> final(self).valid(),
    {
        if !due || self.auto_update_running {
            return (AutoUpdate::Wait, Notes::none());
        }
        if self.store.state.profiles.len() == 0 {
            return (
                AutoUpdate::Skip,
                Notes::say("auto subscription update skipped: no profiles"),
            );
        }
        self.auto_update_running = true;
        (AutoUpdate::Run, Notes::say("auto subscription update started"))
    }

    /// The update of all subscriptions is over.
    pub fn auto_update_done(&mut self)
        ensures
            *final(self) == (App { auto_update_running: false, ..*old(self) }),
            old(self).valid() ==> final(self).valid(),
    {
        self.auto_update_running = false;
    }
}

} // verus!
