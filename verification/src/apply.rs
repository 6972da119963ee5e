//! Giving a profile to the core.

use crate::config::Platform;
use crate::hint::ClashVergeApiHint;
use crate::notes::Notes;
use crate::number;
use crate::paths;
use crate::profile;
use crate::profile::AppState;
use crate::profile::StateStore;
use crate::session::App;
use crate::text;
use vstd::prelude::*;

verus! {

/// The steps of giving the document of a profile to the core, with texts of type `T`.
#[derive(Debug)]
pub enum ApplyStep<T> {
    Done,
    Failed(T),
    /// Let the core load the document at this path.
    Reload(T),
    /// Copy the document to where the core may read.
    Copy,
    /// Let the core load the copy at this path.
    ReloadCopy(T),
    /// Ask the core for its mixed port.
    ReadPort,
    /// Give the core the configured mixed port; it had this one.
    SetPort(Option<u16>),
}

impl View for ApplyStep<String> {
    type V = ApplyStep<Seq<char>>;

    open spec fn view(&self) -> ApplyStep<Seq<char>> {
        match self {
            ApplyStep::Done => ApplyStep::Done,
            ApplyStep::Failed(s) => ApplyStep::Failed(s@),
            ApplyStep::Reload(s) => ApplyStep::Reload(s@),
            ApplyStep::Copy => ApplyStep::Copy,
            ApplyStep::ReloadCopy(s) => ApplyStep::ReloadCopy(s@),
            ApplyStep::ReadPort => ApplyStep::ReadPort,
            ApplyStep::SetPort(p) => ApplyStep::SetPort(*p),
        }
    }
}

pub fn apply_profile_file_to_core(path: String, present: bool) -> (r: ApplyStep<String>)
    ensures
        r@ == if present {
            ApplyStep::Reload(path@)
        } else {
            ApplyStep::Failed("profile file not found: "@ + path@)
        },
{
    if present {
        ApplyStep::Reload(path)
    } else {
        ApplyStep::Failed(text::cat2("profile file not found: ", path.as_str()))
    }
}

/// Whether the core refused a document for where it is kept.
pub open spec fn is_path_refusal(error: Seq<char>) -> bool {
    text::has_text(error, "SAFE_PATHS"@) || text::has_text(
        error,
        "path is not subpath of home directory"@,
    )
}

/// After the core was to load the document: its port comes next, or a copy where the core may
/// read, or the error.
pub fn after_reload(result: Result<(), String>) -> (r: ApplyStep<String>)
    ensures
        r@ == match result {
            Ok(_) => ApplyStep::ReadPort,
            Err(err) => if is_path_refusal(err@) {
                ApplyStep::Copy
            } else {
                ApplyStep::Failed(err@)
            },
        },
{
    match result {
        Ok(_) => ApplyStep::ReadPort,
        Err(err) => {
            if text::contains(err.as_str(), "SAFE_PATHS") || text::contains(
                err.as_str(),
                "path is not subpath of home directory",
            ) {
                ApplyStep::Copy
            } else {
                ApplyStep::Failed(err)
            }
        },
    }
}

pub fn after_copy(result: Result<String, String>) -> (r: ApplyStep<String>)
    ensures
        r@ == match result {
            Ok(copied) => ApplyStep::ReloadCopy(copied@),
            Err(err) => ApplyStep::Failed(err@),
        },
{
    match result {
        Ok(copied) => ApplyStep::ReloadCopy(copied),
        Err(err) => ApplyStep::Failed(err),
    }
}

/// After the core was to load the copy. Nothing more follows: its port is left as it is.
pub fn after_reload_copy(path: &str, copied: &str, result: Result<(), String>) -> (r: ApplyStep<
    String,
>)
    ensures
        r@ == if result is Ok {
            ApplyStep::Done
        } else {
            ApplyStep::Failed(
                "reload failed after safe-path copy. src="@ + path@ + ", copied="@ + copied@,
            )
        },
{
    match result {
        Ok(_) => ApplyStep::Done,
        Err(_) => ApplyStep::Failed(
            text::cat4("reload failed after safe-path copy. src=", path, ", copied=", copied),
        ),
    }
}

/// After the core told its mixed port: it is set unless it is the configured one already.
pub fn ensure_runtime_port_alignment(desired: u16, current: Option<u16>) -> (r: ApplyStep<String>)
    ensures
        r@ == if current == Some(desired) {
            ApplyStep::<Seq<char>>::Done
        } else {
            ApplyStep::SetPort(current)
        },
{
    if let Some(port) = current {
        if port == desired {
            return ApplyStep::Done;
        }
    }
    ApplyStep::SetPort(current)
}

/// A port that may be unknown, as it is written for a developer.
pub open spec fn port_debug(port: Option<u16>) -> Seq<char> {
    match port {
        Some(p) => "Some("@ + number::dec(p as nat) + ")"@,
        None => "None"@,
    }
}

pub fn debug_port(port: Option<u16>) -> (r: String)
    ensures
        r@ == port_debug(port),
{
    match port {
        Some(p) => text::cat3("Some(", number::to_dec(p as u64).as_str(), ")"),
        None => "None".to_owned(),
    }
}

pub fn after_set_port(desired: u16, current: Option<u16>, result: Result<(), String>) -> (r:
    ApplyStep<String>)
    ensures
        r@ == if result is Ok {
            ApplyStep::Done
        } else {
            ApplyStep::Failed(
                "runtime mixed-port alignment failed: desired="@ + number::dec(desired as nat)
                    + ", current="@ + port_debug(current),
            )
        },
{
    match result {
        Ok(_) => ApplyStep::Done,
        Err(_) => ApplyStep::Failed(
            text::cat4(
                "runtime mixed-port alignment failed: desired=",
                number::to_dec(desired as u64).as_str(),
                ", current=",
                debug_port(current).as_str(),
            ),
        ),
    }
}

/// The directories where the core may read, in the order in which they are tried: its home, then
/// Clash Verge's.
pub open spec fn safe_dirs(
    platform: Platform,
    root: Seq<char>,
    app_home: Option<Seq<char>>,
) -> Seq<Seq<char>> {
    let own = paths::joined(
        platform,
        paths::joined(platform, root, "core-home"@),
        "verge-tui-profiles"@,
    );
    match app_home {
        Some(home) => seq![own, paths::joined(platform, home, "verge-tui-profiles"@)],
        None => seq![own],
    }
}

/// The search for a directory where a copy can be written.
#[derive(Debug)]
pub struct SafeCopy {
    pub dirs: Vec<String>,
    pub file: String,
    pub at: usize,
    pub last_error: String,
    pub platform: Platform,
}

/// What came of writing a copy to a directory.
#[derive(Debug)]
pub enum CopyReply {
    Written,
    NoDirectory(String),
    NotWritten(String),
}

#[derive(Debug)]
pub enum CopyStep {
    /// Make this directory, and write the copy to this file.
    Try(String, String),
    Done(Result<String, String>),
}

impl SafeCopy {
    pub open spec fn valid(self) -> bool {
        self.at <= self.dirs@.len()
    }

    /// The next step: the directory that is tried now, or the error.
    pub open spec fn is_step(self, step: CopyStep) -> bool {
        if self.at < self.dirs@.len() {
            &&& step is Try
            &&& step->Try_0@ == self.dirs@[self.at as int]@
            &&& step->Try_1@ == paths::joined(
                self.platform,
                self.dirs@[self.at as int]@,
                self.file@,
            )
        } else {
            &&& step is Done
            &&& step->Done_0 is Err
            &&& step->Done_0->Err_0@ == "write safe-path profile failed: "@ + self.last_error@
        }
    }

    pub fn copy_profile_to_safe_path(
        store: &StateStore,
        hint: Option<&ClashVergeApiHint>,
        file: &str,
    ) -> (r: SafeCopy)
        ensures
            r.valid(),
            r.at == 0,
            r.file@ == file@,
            r.platform == store.paths.platform,
            r.last_error@ == Seq::<char>::empty(),
            text::texts(r.dirs@) == safe_dirs(
                store.paths.platform,
                store.paths.root@,
                match hint {
                    Some(h) => Some(h.app_home@),
                    None => None,
                },
            ),
    {
        let platform = store.paths.platform;
        let mut dirs: Vec<String> = Vec::new();
        dirs.push(
            paths::join(
                platform,
                paths::join(platform, store.paths.root.as_str(), "core-home").as_str(),
                "verge-tui-profiles",
            ),
        );
        if let Some(h) = hint {
            dirs.push(paths::join(platform, h.app_home.as_str(), "verge-tui-profiles"));
        }
        assert(text::texts(dirs@) =~= safe_dirs(
            store.paths.platform,
            store.paths.root@,
            match hint {
                Some(h) => Some(h.app_home@),
                None => None,
            },
        ));
        let r = SafeCopy {
            dirs,
            file: file.to_owned(),
            at: 0,
            last_error: String::new(),
            platform,
        };
        assert(r.last_error@ =~= Seq::<char>::empty());
        r
    }

    pub fn step(&self) -> (r: CopyStep)
        requires
            self.valid(),
        ensures
            self.is_step(r),
    {
        if self.at < self.dirs.len() {
            let dir = self.dirs[self.at].clone();
            let target = paths::join(self.platform, dir.as_str(), self.file.as_str());
            CopyStep::Try(dir, target)
        } else {
            CopyStep::Done(
                Err(text::cat2("write safe-path profile failed: ", self.last_error.as_str())),
            )
        }
    }

    /// Takes in what came of the directory that was tried. Where nothing was written, the next one
    /// comes.
    pub fn next(&mut self, reply: CopyReply) -> (r: CopyStep)
        requires
            old(self).at < old(self).dirs@.len(),
        ensures
            final(self).dirs == old(self).dirs,
            final(self).file == old(self).file,
            final(self).platform == old(self).platform,
            match reply {
                CopyReply::Written => {
                    &&& *final(self) == *old(self)
                    &&& r is Done && r->Done_0 is Ok
                    &&& r->Done_0->Ok_0@ == paths::joined(
                        old(self).platform,
                        old(self).dirs@[old(self).at as int]@,
                        old(self).file@,
                    )
                },
                CopyReply::NoDirectory(err) => {
                    &&& final(self).at == old(self).at + 1
                    &&& final(self).last_error@ == "create "@ + old(self).dirs@[old(
                        self,
                    ).at as int]@ + " failed: "@ + err@
                    &&& final(self).is_step(r)
                },
                CopyReply::NotWritten(err) => {
                    &&& final(self).at == old(self).at + 1
                    &&& final(self).last_error@ == "write "@ + paths::joined(
                        old(self).platform,
                        old(self).dirs@[old(self).at as int]@,
                        old(self).file@,
                    ) + " failed: "@ + err@
                    &&& final(self).is_step(r)
                },
            },
            final(self).valid(),
    {
        let dir = self.dirs[self.at].clone();
        let target = paths::join(self.platform, dir.as_str(), self.file.as_str());
        match reply {
            CopyReply::Written => {
                return CopyStep::Done(Ok(target));
            },
            CopyReply::NoDirectory(err) => {
                self.last_error = text::cat4("create ", dir.as_str(), " failed: ", err.as_str());
            },
            CopyReply::NotWritten(err) => {
                self.last_error = text::cat4("write ", target.as_str(), " failed: ", err.as_str());
            },
        }
        assert(self.at < self.dirs.len());
        self.at = self.at + 1;
        self.step()
    }
}

/// The current profile, if there is one: its place among the profiles.
pub open spec fn current_index(state: AppState) -> Option<int> {
    match state.current {
        Some(uid) => {
            let i = profile::profile_index(state.profiles@, uid@);
            if i < state.profiles@.len() {
                Some(i)
            } else {
                None
            }
        },
        None => None,
    }
}

pub fn current_profile(state: &AppState) -> (r: Option<usize>)
    ensures
        match r {
            Some(i) => current_index(*state) == Some(i as int) && i < state.profiles@.len(),
            None => current_index(*state) is None,
        },
{
    match &state.current {
        Some(uid) => profile::find_profile(&state.profiles, uid.as_str()),
        None => None,
    }
}

/// What is told when the document of the current profile is missing.
pub fn skip_current_note(path: &str) -> (r: Notes)
    ensures
        r@ == seq!["skip apply current profile: missing file "@ + path@],
{
    Notes::one(text::cat2("skip apply current profile: missing file ", path))
}

/// What is told of giving the current profile to the core.
pub fn apply_current_profile_to_core(name: &str, result: Result<(), String>) -> (r: Notes)
    ensures
        r@ == match result {
            Ok(_) => seq!["applied current profile to mihomo: "@ + name@],
            Err(err) => seq!["apply current profile failed: "@ + err@],
        },
{
    match result {
        Ok(_) => Notes::one(text::cat2("applied current profile to mihomo: ", name)),
        Err(err) => Notes::one(text::cat2("apply current profile failed: ", err.as_str())),
    }
}

/// The profile that is made the current one.
#[derive(Debug)]
pub struct Activation {
    pub name: String,
    pub file: String,
}

/// The steps of making a profile the current one.
#[derive(Debug, Clone, Copy, PartialEq, Eq, Structural)]
pub enum ActivateStep {
    Done,
    /// Save the state.
    Save,
    /// Ask the core whether it answers.
    Probe,
    /// Give the profile to the core.
    Apply,
    /// Ask the core for its proxies.
    Refresh,
}

impl App {
    /// Makes the chosen profile the current one.
    pub fn activate_selected_profile(&mut self) -> (r: (ActivateStep, Option<Activation>, Notes))
        ensures
            ({
                let profiles = old(self).store.state.profiles@;
                let i = old(self).screen.selected_profile_idx as int;
                if i < profiles.len() {
                    &&& r.0 == ActivateStep::Save
                    &&& r.1 is Some
                    &&& r.1->0.name@ == profiles[i].name@
                    &&& r.1->0.file@ == profiles[i].file@
                    &&& r.2@ == Seq::<Seq<char>>::empty()
                    &&& *final(self) == (App {
                        store: StateStore {
                            state: AppState {
                                current: Some(profiles[i].uid),
                                ..old(self).store.state
                            },
                            ..old(self).store
                        },
                        ..*old(self)
                    })
                } else {
                    &&& r.0 == ActivateStep::Done
                    &&& r.1 is None
                    &&& r.2@ == seq!["no profile selected"@]
                    &&& *final(self) == *old(self)
                }
            }),
            old(self).valid() ==> final(self).valid(),
    {
        let i: usize = self.screen.selected_profile_idx;
        if i >= self.store.state.profiles.len() {
            return (ActivateStep::Done, None, Notes::say("no profile selected"));
        }
        let uid = self.store.state.profiles[i].uid.clone();
        let activation = Activation {
            name: self.store.state.profiles[i].name.clone(),
            file: self.store.state.profiles[i].file.clone(),
        };
        self.store.state.current = Some(uid);
        (ActivateStep::Save, Some(activation), Notes::none())
    }
}

/// The step after a step that went well or not.
pub open spec fn activate_after(step: ActivateStep, ok: bool) -> ActivateStep {
    match step {
        ActivateStep::Save => if ok {
            ActivateStep::Probe
        } else {
            ActivateStep::Done
        },
        ActivateStep::Probe => if ok {
            ActivateStep::Apply
        } else {
            ActivateStep::Done
        },
        ActivateStep::Apply => if ok {
            ActivateStep::Refresh
        } else {
            ActivateStep::Done
        },
        _ => ActivateStep::Done,
    }
}

pub open spec fn activate_notes(
    step: ActivateStep,
    name: Seq<char>,
    result: Result<(), Seq<char>>,
) -> Seq<Seq<char>> {
    match (step, result) {
        (ActivateStep::Save, Ok(_)) => seq!["current profile => "@ + name],
        (ActivateStep::Save, Err(err)) => seq!["save current profile failed: "@ + err],
        (ActivateStep::Probe, Err(_)) => seq![
            "mihomo api unavailable, profile only switched in local state"@,
        ],
        (ActivateStep::Apply, Ok(_)) => seq!["profile config applied to mihomo"@],
        (ActivateStep::Apply, Err(err)) => seq!["apply profile to mihomo failed: "@ + err],
        _ => seq![],
    }
}

pub fn activate_next(step: ActivateStep, name: &str, result: Result<(), String>) -> (r: (
    ActivateStep,
    Notes,
))
    ensures
        r.0 == activate_after(step, result is Ok),
        r.1@ == activate_notes(step, name@, crate::run::plain_result(result)),
{
    match (step, result) {
        (ActivateStep::Save, Ok(_)) => (
            ActivateStep::Probe,
            Notes::one(text::cat2("current profile => ", name)),
        ),
        (ActivateStep::Save, Err(err)) => (
            ActivateStep::Done,
            Notes::one(text::cat2("save current profile failed: ", err.as_str())),
        ),
        (ActivateStep::Probe, Ok(_)) => (ActivateStep::Apply, Notes::none()),
        (ActivateStep::Probe, Err(_)) => (
            ActivateStep::Done,
            Notes::say("mihomo api unavailable, profile only switched in local state"),
        ),
        (ActivateStep::Apply, Ok(_)) => (
            ActivateStep::Refresh,
            Notes::say("profile config applied to mihomo"),
        ),
        (ActivateStep::Apply, Err(err)) => (
            ActivateStep::Done,
            Notes::one(text::cat2("apply profile to mihomo failed: ", err.as_str())),
        ),
        _ => (ActivateStep::Done, Notes::none()),
    }
}

/// What is told of asking the core for its proxies.
pub fn refresh_note(result: Result<(), String>) -> (r: Notes)
    ensures
        r@ == match result {
            Ok(_) => seq!["proxy list refreshed"@],
            Err(err) => seq!["refresh proxies failed: "@ + err@],
        },
{
    match result {
        Ok(_) => Notes::say("proxy list refreshed"),
        Err(err) => Notes::one(text::cat2("refresh proxies failed: ", err.as_str())),
    }
}

/// What is told of a stream that cannot be read: the traffic's or the connections'.
pub fn stream_failure_note(traffic: bool, error: &str) -> (r: Notes)
    ensures
        r@ == seq![
            (if traffic {
                "traffic ws unavailable: "@
            } else {
                "connections ws unavailable: "@
            }) + error@,
        ],
{
    let head = if traffic {
        "traffic ws unavailable: "
    } else {
        "connections ws unavailable: "
    };
    Notes::one(text::cat2(head, error))
}

} // verus!
