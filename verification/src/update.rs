//! Importing subscriptions and keeping them up to date.

use crate::notes::Notes;
use crate::number;
use crate::profile;
use crate::profile::ProfileItem;
use crate::profile::StateStore;
use crate::screen::Screen;
use crate::session::App;
use crate::subscription::FetchMode;
use crate::text;
use vstd::prelude::*;

verus! {

/// The steps of updating the subscription of a profile.
#[derive(Debug, Clone, Copy, PartialEq, Eq, Structural)]
pub enum UpdateStep {
    /// Whether it was updated.
    Done(bool),
    /// Fetch it in this mode.
    Fetch(FetchMode),
    /// It was fetched. Is it the current profile?
    Updated,
    /// Make sure that the core answers.
    EnsureReady,
    /// Give the profile to the core.
    Apply,
    /// Ask the core for its proxies.
    Refresh,
}

/// Begins to update the subscription of a profile, which is given with the first step.
pub fn refresh_profile_subscription_by_uid(store: &StateStore, uid: &str) -> (r: (
    UpdateStep,
    Option<ProfileItem>,
    Notes,
))
    ensures
        ({
            let profiles = store.state.profiles@;
            let i = profile::profile_index(profiles, uid@);
            if i >= profiles.len() {
                &&& r.0 == UpdateStep::Done(false)
                &&& r.1 is None
                &&& r.2@ == seq!["profile not found: "@ + uid@]
            } else if text::trimmed(profiles[i].url@).len() == 0 {
                &&& r.0 == UpdateStep::Done(false)
                &&& r.1 is None
                &&& r.2@ == seq!["profile has empty url: "@ + profiles[i].name@]
            } else {
                &&& r.0 == UpdateStep::Fetch(FetchMode::Direct)
                &&& r.1 == Some(profiles[i])
                &&& r.2@ == Seq::<Seq<char>>::empty()
            }
        }),
{
    match profile::find_profile(&store.state.profiles, uid) {
        None => (
            UpdateStep::Done(false),
            None,
            Notes::one(text::cat2("profile not found: ", uid)),
        ),
        Some(i) => {
            let found = &store.state.profiles[i];
            if text::trim(found.url.as_str()).as_str().is_empty() {
                return (
                    UpdateStep::Done(false),
                    None,
                    Notes::one(text::cat2("profile has empty url: ", found.name.as_str())),
                );
            }
            (UpdateStep::Fetch(FetchMode::Direct), Some(found.clone()), Notes::none())
        },
    }
}

/// What follows a fetch: the name of the updated profile, or the error.
pub open spec fn after_fetching(mode: FetchMode, ok: bool) -> UpdateStep {
    if ok {
        UpdateStep::Updated
    } else {
        match mode.spec_next() {
            Some(next) => UpdateStep::Fetch(next),
            None => UpdateStep::Done(false),
        }
    }
}

pub open spec fn fetch_notes(
    mode: FetchMode,
    name: Seq<char>,
    uid: Seq<char>,
    result: Result<Seq<char>, Seq<char>>,
) -> Seq<Seq<char>> {
    match result {
        Ok(updated) => seq![
            "subscription updated: "@ + updated + " ("@ + uid + ") via "@ + mode.spec_label(),
        ],
        Err(err) => {
            let failed = seq![
                "update "@ + name + " ("@ + uid + ") via "@ + mode.spec_label() + " failed: "@
                    + err,
            ];
            if mode.spec_next() is None {
                failed.push("subscription update failed: "@ + name + " ("@ + uid + ")"@)
            } else {
                failed
            }
        },
    }
}

pub open spec fn plain_texts(r: Result<String, String>) -> Result<Seq<char>, Seq<char>> {
    match r {
        Ok(v) => Ok(v@),
        Err(e) => Err(e@),
    }
}

pub fn after_fetch(mode: FetchMode, name: &str, uid: &str, result: Result<String, String>) -> (r: (
    UpdateStep,
    Notes,
))
    ensures
        r.0 == after_fetching(mode, result is Ok),
        r.1@ == fetch_notes(mode, name@, uid@, plain_texts(result)),
{
    match result {
        Ok(updated) => {
            let head = text::cat5(
                "subscription updated: ",
                updated.as_str(),
                " (",
                uid,
                ") via ",
            );
            (UpdateStep::Updated, Notes::one(text::cat2(head.as_str(), mode.label())))
        },
        Err(err) => {
            let head = text::cat5("update ", name, " (", uid, ") via ");
            let mut notes = Notes::one(
                text::cat4(head.as_str(), mode.label(), " failed: ", err.as_str()),
            );
            match mode.next() {
                Some(next) => (UpdateStep::Fetch(next), notes),
                None => {
                    notes.add(text::cat5("subscription update failed: ", name, " (", uid, ")"));
                    (UpdateStep::Done(false), notes)
                },
            }
        },
    }
}

/// After the subscription was updated: only the current profile is given to the core.
pub fn after_updated(store: &StateStore, uid: &str) -> (r: UpdateStep)
    ensures
        r == if text::opt_text(store.state.current) == Some(uid@) {
            UpdateStep::EnsureReady
        } else {
            UpdateStep::Done(true)
        },
{
    match &store.state.current {
        Some(current) => {
            if text::same(current.as_str(), uid) {
                UpdateStep::EnsureReady
            } else {
                UpdateStep::Done(true)
            }
        },
        None => UpdateStep::Done(true),
    }
}

pub fn after_update_ready(ready: bool) -> (r: (UpdateStep, Notes))
    ensures
        r.0 == if ready {
            UpdateStep::Apply
        } else {
            UpdateStep::Done(true)
        },
        r.1@ == if ready {
            seq![]
        } else {
            seq!["mihomo unavailable, updated profile saved locally only"@]
        },
{
    if ready {
        (UpdateStep::Apply, Notes::none())
    } else {
        (
            UpdateStep::Done(true),
            Notes::say("mihomo unavailable, updated profile saved locally only"),
        )
    }
}

pub fn after_update_apply(name: &str, result: Result<(), String>) -> (r: (UpdateStep, Notes))
    ensures
        r.0 == if result is Ok {
            UpdateStep::Refresh
        } else {
            UpdateStep::Done(true)
        },
        r.1@ == match result {
            Ok(_) => seq!["applied updated profile to mihomo: "@ + name@],
            Err(err) => seq!["apply updated profile to mihomo failed: "@ + err@],
        },
{
    match result {
        Ok(_) => (
            UpdateStep::Refresh,
            Notes::one(text::cat2("applied updated profile to mihomo: ", name)),
        ),
        Err(err) => (
            UpdateStep::Done(true),
            Notes::one(text::cat2("apply updated profile to mihomo failed: ", err.as_str())),
        ),
    }
}

/// An update fails only after all three modes have failed.
pub proof fn law_update_fails_last(mode: FetchMode, ok: bool)
    ensures
        after_fetching(mode, ok) == UpdateStep::Done(false) <==> !ok && mode
            == FetchMode::SystemProxy,
        after_fetching(FetchMode::Direct, false) == UpdateStep::Fetch(FetchMode::SelfProxy),
        after_fetching(FetchMode::SelfProxy, false) == UpdateStep::Fetch(FetchMode::SystemProxy),
{
}

/// The profile that the cursor is on, whose subscription is to be updated.
pub fn refresh_selected_profile_subscription(app: &App) -> (r: (Option<String>, Notes))
    ensures
        ({
            let profiles = app.store.state.profiles@;
            let i = app.screen.selected_profile_idx as int;
            if i < profiles.len() {
                &&& text::opt_text(r.0) == Some(profiles[i].uid@)
                &&& r.1@ == Seq::<Seq<char>>::empty()
            } else {
                &&& r.0 is None
                &&& r.1@ == seq!["no profile selected"@]
            }
        }),
{
    match app.selected_profile() {
        Some(p) => (Some(p.uid.clone()), Notes::none()),
        None => (None, Notes::say("no profile selected")),
    }
}

/// The uids of all profiles.
pub open spec fn uids_of(profiles: Seq<ProfileItem>) -> Seq<Seq<char>> {
    Seq::new(profiles.len(), |i: int| profiles[i].uid@)
}

/// The profiles that an update of all updates, in their order.
pub fn refresh_all_profile_subscriptions(store: &StateStore) -> (r: (Vec<String>, Notes))
    ensures
        text::texts(r.0@) == uids_of(store.state.profiles@),
        r.1@ == if store.state.profiles@.len() == 0 {
            seq!["no profiles to update"@]
        } else {
            seq![]
        },
{
    let profiles = &store.state.profiles;
    let ghost wanted = uids_of(profiles@);
    let mut uids: Vec<String> = Vec::new();
    let mut i: usize = 0;
    assert(text::texts(uids@) =~= wanted.take(0));
    while i < profiles.len()
        invariant
            i <= profiles@.len(),
            wanted == uids_of(profiles@),
            text::texts(uids@) == wanted.take(i as int),
        decreases profiles@.len() - i,
    {
        let ghost before = uids@;
        uids.push(profiles[i].uid.clone());
        assert(text::texts(uids@) =~= text::texts(before).push(wanted[i as int]));
        assert(wanted.take(i + 1) =~= wanted.take(i as int).push(wanted[i as int]));
        i = i + 1;
    }
    assert(wanted.take(i as int) =~= wanted);
    if profiles.len() == 0 {
        (uids, Notes::say("no profiles to update"))
    } else {
        (uids, Notes::none())
    }
}

/// How many of the answers are yes.
pub open spec fn yes_count(answers: Seq<bool>) -> nat
    decreases answers.len(),
{
    if answers.len() == 0 {
        0
    } else {
        yes_count(answers.drop_last()) + if answers.last() {
            1nat
        } else {
            0nat
        }
    }
}

/// What is told of an update of all: how many went well, and how many did not.
pub fn refresh_summary(answers: &Vec<bool>) -> (r: Notes)
    ensures
        r@ == seq![
            "subscription refresh completed: ok "@ + number::dec(yes_count(answers@))
                + ", failed "@ + number::dec((answers@.len() - yes_count(answers@)) as nat),
        ],
{
    let mut ok: usize = 0;
    let mut i: usize = 0;
    while i < answers.len()
        invariant
            i <= answers@.len(),
            ok <= i,
            ok == yes_count(answers@.take(i as int)),
        decreases answers@.len() - i,
    {
        assert(answers@.take(i + 1).drop_last() == answers@.take(i as int));
        if answers[i] {
            ok = ok + 1;
        }
        i = i + 1;
    }
    assert(answers@.take(i as int) == answers@);
    let failed: usize = answers.len() - ok;
    Notes::one(
        text::cat4(
            "subscription refresh completed: ok ",
            number::to_dec(ok as u64).as_str(),
            ", failed ",
            number::to_dec(failed as u64).as_str(),
        ),
    )
}

/// The steps of importing a subscription.
#[derive(Debug, Clone, Copy, PartialEq, Eq, Structural)]
pub enum ImportStep {
    Done,
    Fetch(FetchMode),
    /// Make the imported profile the current one.
    Activate,
}

/// The first step.
pub fn begin_import() -> (r: ImportStep)
    ensures
        r == ImportStep::Fetch(FetchMode::Direct),
{
    ImportStep::Fetch(FetchMode::Direct)
}

pub open spec fn import_after(mode: FetchMode, ok: bool) -> ImportStep {
    if ok {
        ImportStep::Activate
    } else {
        match mode.spec_next() {
            Some(next) => ImportStep::Fetch(next),
            None => ImportStep::Done,
        }
    }
}

pub open spec fn import_notes(
    mode: FetchMode,
    result: Result<(Seq<char>, Seq<char>), Seq<char>>,
) -> Seq<Seq<char>> {
    match result {
        Ok((name, uid)) => seq![
            "imported profile: "@ + name + " ("@ + uid + ") via "@ + mode.spec_label(),
        ],
        Err(err) => {
            let failed = seq!["import ("@ + mode.spec_label() + ") failed: "@ + err];
            if mode.spec_next() is None {
                failed.push("import failed after retries"@)
            } else {
                failed
            }
        },
    }
}

pub open spec fn plain_import(r: Result<(String, String), String>) -> Result<
    (Seq<char>, Seq<char>),
    Seq<char>,
> {
    match r {
        Ok((name, uid)) => Ok((name@, uid@)),
        Err(e) => Err(e@),
    }
}

/// After a fetch for an import: the name and the uid of the new profile, or the error.
pub fn after_import(mode: FetchMode, result: Result<(String, String), String>) -> (r: (
    ImportStep,
    Notes,
))
    ensures
        r.0 == import_after(mode, result is Ok),
        r.1@ == import_notes(mode, plain_import(result)),
{
    match result {
        Ok((name, uid)) => {
            let head = text::cat5(
                "imported profile: ",
                name.as_str(),
                " (",
                uid.as_str(),
                ") via ",
            );
            (ImportStep::Activate, Notes::one(text::cat2(head.as_str(), mode.label())))
        },
        Err(err) => {
            let mut notes = Notes::one(
                text::cat4("import (", mode.label(), ") failed: ", err.as_str()),
            );
            match mode.next() {
                Some(next) => (ImportStep::Fetch(next), notes),
                None => {
                    notes.add("import failed after retries".to_owned());
                    (ImportStep::Done, notes)
                },
            }
        },
    }
}

/// An import fails only after all three modes have failed.
pub proof fn law_import_fails_last(mode: FetchMode, ok: bool)
    ensures
        import_after(mode, ok) == ImportStep::Done <==> !ok && mode == FetchMode::SystemProxy,
        import_after(FetchMode::Direct, false) == ImportStep::Fetch(FetchMode::SelfProxy),
        import_after(FetchMode::SelfProxy, false) == ImportStep::Fetch(FetchMode::SystemProxy),
{
}

/// Puts the cursor on the profile that was imported, which is the last one.
pub fn select_imported(screen: &mut Screen, profiles: usize)
    ensures
        *final(screen) == (Screen {
            selected_profile_idx: if profiles == 0 {
                0
            } else {
                (profiles - 1) as usize
            },
            ..*old(screen)
        }),
{
    screen.selected_profile_idx = if profiles == 0 {
        0
    } else {
        profiles - 1
    };
    screen.sync_profile_cursor(profiles);
}

} // verus!
