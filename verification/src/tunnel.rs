//! Switching the tunnel.

use crate::client;
use crate::json;
use crate::json::Json;
use crate::launch;
use crate::notes::Notes;
use crate::number;
use crate::report;
use crate::text;
use vstd::prelude::*;

verus! {

/// The steps of switching the tunnel.
#[derive(Debug)]
pub enum TunStep {
    Done,
    Failed(String),
    /// Give the core this patch of its settings.
    Patch(Json),
    /// Ask the core for its settings.
    Check,
    /// The core has refused: read the end of its log.
    Explain,
}

/// Begins to switch the tunnel.
pub fn apply_tun_mode(enabled: bool) -> (r: (TunStep, Notes))
    ensures
        r.0 is Patch,
        r.0->Patch_0@ == client::tun_patch_model(enabled),
        r.1@ == seq![
            "apply tun requested: enable="@ + number::bool_text(enabled)
                + ", device=vergetui0, stack=gvisor, auto-route=true, dns-hijack=any:53"@,
        ],
{
    let notes = Notes::one(
        text::cat3(
            "apply tun requested: enable=",
            number::bool_str(enabled),
            ", device=vergetui0, stack=gvisor, auto-route=true, dns-hijack=any:53",
        ),
    );
    (TunStep::Patch(client::tun_patch(enabled)), notes)
}

/// After the core was given the patch.
pub fn after_tun_patch(result: Result<(), String>) -> (r: TunStep)
    ensures
        match result {
            Ok(_) => r is Check,
            Err(_) => r is Failed && r->Failed_0@ == "apply tun config through mihomo api failed"@,
        },
{
    match result {
        Ok(_) => TunStep::Check,
        Err(_) => TunStep::Failed("apply tun config through mihomo api failed".to_owned()),
    }
}

/// A truth value that may be unknown, as it is written for a developer.
pub open spec fn bool_debug(b: Option<bool>) -> Seq<char> {
    match b {
        Some(true) => "Some(true)"@,
        Some(false) => "Some(false)"@,
        None => "None"@,
    }
}

fn debug_bool(b: Option<bool>) -> (r: &'static str)
    ensures
        r@ == bool_debug(b),
{
    match b {
        Some(true) => "Some(true)",
        Some(false) => "Some(false)",
        None => "None",
    }
}

/// What the core's settings say of its tunnel under a name.
pub open spec fn tun_member(config: json::JsonModel, name: Seq<char>) -> Option<json::JsonModel> {
    match json::member(config, "tun"@) {
        Some(tun) => json::member(tun, name),
        None => None,
    }
}

pub open spec fn tun_check_note(config: json::JsonModel, endpoint: Seq<char>) -> Seq<char> {
    "tun post-check: enable="@ + bool_debug(json::as_bool_of(tun_member(config, "enable"@)))
        + ", device="@ + report::or_dash(json::as_text_of(tun_member(config, "device"@))) + ", stack="@
        + report::or_dash(json::as_text_of(tun_member(config, "stack"@))) + ", endpoint="@ + endpoint
}

/// Looks at the core's settings after the tunnel was switched, where they are known: whether the
/// core has refused to switch it on, and what is told.
pub fn after_tun_check(config: Option<&Json>, enabled: bool, endpoint: &str) -> (r: (TunStep, Notes))
    ensures
        match config {
            None => r.0 is Done && r.1@ == Seq::<Seq<char>>::empty(),
            Some(c) => {
                &&& if enabled && json::as_bool_of(tun_member(c@, "enable"@)) != Some(true) {
                    r.0 is Explain
                } else {
                    r.0 is Done
                }
                &&& r.1@ == seq![tun_check_note(c@, endpoint@)]
            },
        },
{
    let config = match config {
        Some(c) => c,
        None => {
            return (TunStep::Done, Notes::none());
        },
    };
    let tun = config.get("tun");
    let enable = json::as_bool(match tun {
        Some(t) => t.get("enable"),
        None => None,
    });
    let device = json::as_text(match tun {
        Some(t) => t.get("device"),
        None => None,
    });
    let stack = json::as_text(match tun {
        Some(t) => t.get("stack"),
        None => None,
    });
    let device = match device {
        Some(s) => s,
        None => "-".to_owned(),
    };
    let stack = match stack {
        Some(s) => s,
        None => "-".to_owned(),
    };
    let head = text::cat5(
        "tun post-check: enable=",
        debug_bool(enable),
        ", device=",
        device.as_str(),
        ", stack=",
    );
    let line = text::cat4(head.as_str(), stack.as_str(), ", endpoint=", endpoint);
    let on = match enable {
        Some(b) => b,
        None => false,
    };
    if enabled && !on {
        (TunStep::Explain, Notes::one(line))
    } else {
        (TunStep::Done, Notes::one(line))
    }
}

/// Whether a line of the core's log tells that it lacks the privilege for the tunnel.
pub open spec fn tells_no_privilege(line: Seq<char>) -> bool {
    text::has_text(line, "Start TUN listening error"@) && text::has_text(
        line,
        "operation not permitted"@,
    )
}

pub open spec fn some_tells_no_privilege(lines: Seq<Seq<char>>) -> bool {
    exists|i: int| 0 <= i < lines.len() && tells_no_privilege(#[trigger] lines[i])
}

/// The error when the core has refused the tunnel.
pub open spec fn tun_rejection(lines: Seq<Seq<char>>) -> Seq<char> {
    if some_tells_no_privilege(lines) {
        "tun enable rejected by core: operation not permitted (missing NET_ADMIN/root privileges)"@
    } else {
        "tun enable rejected by core (tun.enable stayed false)"@
    }
}

/// The error when the core has refused the tunnel, by the end of its log, and what is told.
pub fn after_tun_explain(tails: &Vec<String>, hint: String) -> (r: (TunStep, Notes))
    ensures
        r.0 is Failed,
        r.0->Failed_0@ == tun_rejection(text::texts(tails@)),
        r.1@ == launch::core_log_notes(text::texts(tails@)).push(hint@),
{
    let ghost lines = text::texts(tails@);
    let mut notes = launch::tell_core_log(tails);
    notes.add(hint);
    let mut i: usize = 0;
    while i < tails.len()
        invariant
            i <= tails@.len(),
            lines == text::texts(tails@),
            notes@ == launch::core_log_notes(lines).push(hint@),
            forall|k: int| 0 <= k < i ==> !tells_no_privilege(#[trigger] lines[k]),
        decreases tails@.len() - i,
    {
        assert(lines[i as int] == tails@[i as int]@);
        if text::contains(tails[i].as_str(), "Start TUN listening error") && text::contains(
            tails[i].as_str(),
            "operation not permitted",
        ) {
            return (
                TunStep::Failed(
                    "tun enable rejected by core: operation not permitted (missing NET_ADMIN/root privileges)".to_owned(),
                ),
                notes,
            );
        }
        i = i + 1;
    }
    (
        TunStep::Failed("tun enable rejected by core (tun.enable stayed false)".to_owned()),
        notes,
    )
}

} // verus!
