//! The profiles and the state that is kept between sessions.

use crate::config::Platform;
use crate::config::VergeConfig;
use crate::number;
use crate::paths;
use crate::subscription::ImportResult;
use crate::text;
use vstd::prelude::*;

verus! {

/// How much of a subscription is used, in bytes, and until when it lasts.
#[derive(Debug, Clone, Copy, PartialEq, Eq, Structural)]
pub struct ProfileExtra {
    pub upload: u64,
    pub download: u64,
    pub total: u64,
    pub expire: u64,
}

impl Default for ProfileExtra {
    fn default() -> (r: Self)
        ensures
            r == (ProfileExtra { upload: 0, download: 0, total: 0, expire: 0 }),
    {
        ProfileExtra { upload: 0, download: 0, total: 0, expire: 0 }
    }
}

#[derive(Debug)]
pub struct ProfileItem {
    pub uid: String,
    pub name: String,
    pub file: String,
    pub url: String,
    pub updated: u64,
    pub extra: Option<ProfileExtra>,
}

impl Clone for ProfileItem {
    fn clone(&self) -> (r: Self)
        ensures
            r == *self,
    {
        ProfileItem {
            uid: self.uid.clone(),
            name: self.name.clone(),
            file: self.file.clone(),
            url: self.url.clone(),
            updated: self.updated,
            extra: self.extra,
        }
    }
}

#[derive(Debug)]
pub struct AppState {
    pub verge: VergeConfig,
    pub current: Option<String>,
    pub profiles: Vec<ProfileItem>,
}

/// Where the state is kept.
#[derive(Debug)]
pub struct AppPaths {
    pub root: String,
    pub state_file: String,
    pub profiles_dir: String,
    /// The system whose paths these are.
    pub platform: Platform,
}

/// Why the state cannot be found or changed.
#[derive(Debug)]
pub enum StoreError {
    HomeNotFound,
    ProfileNotFound(String),
    EmptyUrl(String),
}

impl StoreError {
    pub open spec fn spec_message(self) -> Seq<char> {
        match self {
            StoreError::HomeNotFound => "home directory not found"@,
            StoreError::ProfileNotFound(uid) => "profile not found: "@ + uid@,
            StoreError::EmptyUrl(uid) => "profile has empty url: "@ + uid@,
        }
    }

    pub fn message(&self) -> (r: String)
        ensures
            r@ == self.spec_message(),
    {
        match self {
            StoreError::HomeNotFound => "home directory not found".to_owned(),
            StoreError::ProfileNotFound(uid) => text::cat2("profile not found: ", uid.as_str()),
            StoreError::EmptyUrl(uid) => text::cat2("profile has empty url: ", uid.as_str()),
        }
    }
}

/// A directory that has to exist, and what is said when it cannot be made.
#[derive(Debug)]
pub struct NeededDirectory {
    pub path: String,
    pub failure: String,
}

impl AppPaths {
    /// Whether everything is kept under the directory `root`.
    pub open spec fn are_at(self, root: Seq<char>, platform: Platform) -> bool {
        &&& self.root@ == root
        &&& self.state_file@ == paths::joined(platform, root, "state.yaml"@)
        &&& self.profiles_dir@ == paths::joined(platform, root, "profiles"@)
        &&& self.platform == platform
    }

    /// The paths under the directory that the user chose, or else under the user's home.
    pub fn resolve(custom: Option<String>, home: Option<String>, platform: Platform) -> (r: Result<
        AppPaths,
        StoreError,
    >)
        ensures
            match (custom, home) {
                (Some(c), _) => r is Ok && r->Ok_0.are_at(c@, platform),
                (None, Some(h)) => r is Ok && r->Ok_0.are_at(
                    paths::joined(
                        platform,
                        paths::joined(platform, h@, ".config"@),
                        "verge-tui"@,
                    ),
                    platform,
                ),
                (None, None) => r == Err::<AppPaths, StoreError>(StoreError::HomeNotFound),
            },
    {
        let root = match custom {
            Some(c) => c,
            None => match home {
                Some(h) => paths::join(
                    platform,
                    paths::join(platform, h.as_str(), ".config").as_str(),
                    "verge-tui",
                ),
                None => {
                    return Err(StoreError::HomeNotFound);
                },
            },
        };
        let state_file = paths::join(platform, root.as_str(), "state.yaml");
        let profiles_dir = paths::join(platform, root.as_str(), "profiles");
        Ok(AppPaths { root, state_file, profiles_dir, platform })
    }

    /// The directories that have to exist, the outer one first.
    pub fn ensure(&self) -> (r: (NeededDirectory, NeededDirectory))
        ensures
            r.0.path@ == self.root@,
            r.0.failure@ == "create root dir failed: "@ + self.root@,
            r.1.path@ == self.profiles_dir@,
            r.1.failure@ == "create profiles dir failed: "@ + self.profiles_dir@,
    {
        (
            NeededDirectory {
                path: self.root.clone(),
                failure: text::cat2("create root dir failed: ", self.root.as_str()),
            },
            NeededDirectory {
                path: self.profiles_dir.clone(),
                failure: text::cat2("create profiles dir failed: ", self.profiles_dir.as_str()),
            },
        )
    }
}

/// The state, and where it is kept.
#[derive(Debug)]
pub struct StateStore {
    pub paths: AppPaths,
    pub state: AppState,
}

/// Index of the first profile with the given uid; the number of profiles when there is none.
pub open spec fn profile_index(profiles: Seq<ProfileItem>, uid: Seq<char>) -> int
    decreases profiles.len(),
{
    if profiles.len() == 0 || profiles[0].uid@ == uid {
        0
    } else {
        1 + profile_index(profiles.skip(1), uid)
    }
}

pub proof fn lemma_profile_index(profiles: Seq<ProfileItem>, uid: Seq<char>)
    ensures
        0 <= profile_index(profiles, uid) <= profiles.len(),
        profile_index(profiles, uid) < profiles.len() ==> profiles[profile_index(
            profiles,
            uid,
        )].uid@ == uid,
        forall|i: int|
            0 <= i < profile_index(profiles, uid) ==> (#[trigger] profiles[i]).uid@ != uid,
    decreases profiles.len(),
{
    if profiles.len() > 0 && profiles[0].uid@ != uid {
        let rest = profiles.skip(1);
        lemma_profile_index(rest, uid);
        assert forall|i: int| 0 <= i < profile_index(profiles, uid) implies (
        #[trigger] profiles[i]).uid@ != uid by {
            if i > 0 {
                assert(profiles[i] == rest[i - 1]);
            }
        }
    }
}

/// Finds the first profile with the given uid.
pub fn find_profile(profiles: &Vec<ProfileItem>, uid: &str) -> (r: Option<usize>)
    ensures
        match r {
            Some(i) => i == profile_index(profiles@, uid@) && i < profiles@.len(),
            None => profile_index(profiles@, uid@) == profiles@.len(),
        },
{
    let mut i: usize = 0;
    assert(profiles@.skip(0) == profiles@);
    while i < profiles.len()
        invariant
            i <= profiles@.len(),
            profile_index(profiles@, uid@) == i + profile_index(profiles@.skip(i as int), uid@),
        decreases profiles@.len() - i,
    {
        assert(profiles@.skip(i as int)[0] == profiles@[i as int]);
        assert(profiles@.skip(i as int).skip(1) == profiles@.skip(i + 1));
        if text::same(profiles[i].uid.as_str(), uid) {
            return Some(i);
        }
        i = i + 1;
    }
    assert(profiles@.skip(i as int).len() == 0);
    None
}

/// The profile that an update makes of `p`: its name changes only when it was blank.
pub open spec fn updated_profile(p: ProfileItem, result: ImportResult, updated: u64) -> ProfileItem {
    ProfileItem {
        name: if text::trimmed(p.name@).len() == 0 {
            result.name
        } else {
            p.name
        },
        extra: result.extra,
        updated,
        ..p
    }
}

/// What has to be fetched for an update, and where the document goes.
#[derive(Debug)]
pub struct UpdateSource {
    pub url: String,
    pub path: String,
}

impl AppState {
    /// Whether this is the state of a first start.
    pub open spec fn is_initial(self) -> bool {
        &&& self.verge.are_initial()
        &&& self.current is None
        &&& self.profiles@.len() == 0
    }
}

impl Default for AppState {
    fn default() -> (r: Self)
        ensures
            r.is_initial(),
    {
        AppState { verge: VergeConfig::default(), current: None, profiles: Vec::new() }
    }
}

impl StateStore {
    /// The state that was read, or the initial one when nothing is kept yet.
    pub fn load_or_init(paths: AppPaths, loaded: Option<AppState>) -> (r: StateStore)
        ensures
            r.paths == paths,
            match loaded {
                Some(state) => r.state == state,
                None => r.state.is_initial(),
            },
    {
        match loaded {
            Some(state) => StateStore { paths, state },
            None => StateStore { paths, state: AppState::default() },
        }
    }

    /// The file that the state is written to, and what is said when that fails.
    pub fn save(&self) -> (r: (String, String))
        ensures
            r.0@ == self.paths.state_file@,
            r.1@ == "write state file failed: "@ + self.paths.state_file@,
    {
        (
            self.paths.state_file.clone(),
            text::cat2("write state file failed: ", self.paths.state_file.as_str()),
        )
    }

    /// The path of a profile's document.
    pub fn profile_path(&self, file: &str) -> (r: String)
        ensures
            r@ == paths::joined(self.paths.platform, self.paths.profiles_dir@, file@),
    {
        paths::join(self.paths.platform, self.paths.profiles_dir.as_str(), file)
    }

    /// The name of the file of a profile that was made at the given time.
    pub fn new_profile_file(created: u64) -> (r: String)
        ensures
            r@ == "R"@ + number::dec(created as nat) + ".yaml"@,
    {
        text::cat3("R", number::to_dec(created).as_str(), ".yaml")
    }

    /// Adds a fetched profile at the end. It becomes the current one when there was none.
    pub fn import_profile(
        &mut self,
        url: String,
        created: u64,
        result: ImportResult,
        updated: u64,
    ) -> (r: ProfileItem)
        ensures
            r.uid@ == "R"@ + number::dec(created as nat),
            r.file@ == r.uid@ + ".yaml"@,
            r.name == result.name,
            r.url == url,
            r.updated == updated,
            r.extra == result.extra,
            final(self).paths == old(self).paths,
            final(self).state.verge == old(self).state.verge,
            final(self).state.profiles@ == old(self).state.profiles@.push(r),
            final(self).state.current == match old(self).state.current {
                Some(uid) => Some(uid),
                None => Some(r.uid),
            },
    {
        let uid = text::cat2("R", number::to_dec(created).as_str());
        let profile = ProfileItem {
            file: text::cat2(uid.as_str(), ".yaml"),
            uid,
            name: result.name,
            url,
            updated,
            extra: result.extra,
        };
        let copy = profile.clone();
        self.state.profiles.push(profile);
        if self.state.current.is_none() {
            self.state.current = Some(copy.uid.clone());
        }
        copy
    }

    /// What has to be fetched to update the profile with the given uid.
    pub fn update_source(&self, uid: &str) -> (r: Result<UpdateSource, StoreError>)
        ensures
            ({
                let i = profile_index(self.state.profiles@, uid@);
                if i >= self.state.profiles@.len() {
                    r is Err && r->Err_0 is ProfileNotFound && r->Err_0->ProfileNotFound_0@ == uid@
                } else if text::trimmed(self.state.profiles@[i].url@).len() == 0 {
                    r is Err && r->Err_0 is EmptyUrl && r->Err_0->EmptyUrl_0@ == uid@
                } else {
                    &&& r is Ok
                    &&& r->Ok_0.url@ == self.state.profiles@[i].url@
                    &&& r->Ok_0.path@ == paths::joined(
                        self.paths.platform,
                        self.paths.profiles_dir@,
                        self.state.profiles@[i].file@,
                    )
                }
            }),
    {
        match find_profile(&self.state.profiles, uid) {
            None => Err(StoreError::ProfileNotFound(uid.to_owned())),
            Some(i) => {
                let p = &self.state.profiles[i];
                if text::trim(p.url.as_str()).as_str().is_empty() {
                    Err(StoreError::EmptyUrl(uid.to_owned()))
                } else {
                    Ok(
                        UpdateSource {
                            url: p.url.clone(),
                            path: self.profile_path(p.file.as_str()),
                        },
                    )
                }
            },
        }
    }

    /// Takes over a newly fetched document for the profile with the given uid. Its uid, file and
    /// URL stay, and so does its name unless that was blank.
    pub fn update_profile(&mut self, uid: &str, result: ImportResult, updated: u64) -> (r: Result<
        ProfileItem,
        StoreError,
    >)
        ensures
            ({
                let i = profile_index(old(self).state.profiles@, uid@);
                let profiles = old(self).state.profiles@;
                if i >= profiles.len() {
                    &&& r is Err && r->Err_0 is ProfileNotFound && r->Err_0->ProfileNotFound_0@
                        == uid@
                    &&& *final(self) == *old(self)
                } else if text::trimmed(profiles[i].url@).len() == 0 {
                    &&& r is Err && r->Err_0 is EmptyUrl && r->Err_0->EmptyUrl_0@ == uid@
                    &&& *final(self) == *old(self)
                } else {
                    let p = updated_profile(profiles[i], result, updated);
                    &&& r == Ok::<ProfileItem, StoreError>(p)
                    &&& final(self).state.profiles@ == profiles.update(i, p)
                    &&& final(self).state.verge == old(self).state.verge
                    &&& final(self).state.current == old(self).state.current
                    &&& final(self).paths == old(self).paths
                }
            }),
    {
        let i = match find_profile(&self.state.profiles, uid) {
            None => {
                return Err(StoreError::ProfileNotFound(uid.to_owned()));
            },
            Some(i) => i,
        };
        let mut profile = self.state.profiles[i].clone();
        if text::trim(profile.url.as_str()).as_str().is_empty() {
            return Err(StoreError::EmptyUrl(uid.to_owned()));
        }
        if text::trim(profile.name.as_str()).as_str().is_empty() {
            profile.name = result.name;
        }
        profile.extra = result.extra;
        profile.updated = updated;
        let copy = profile.clone();
        self.state.profiles.set(i, profile);
        Ok(copy)
    }
}

/// An update keeps what tells a profile apart, and a name that is not blank.
pub proof fn law_update_keeps_identity(p: ProfileItem, result: ImportResult, updated: u64)
    ensures
        updated_profile(p, result, updated).uid == p.uid,
        updated_profile(p, result, updated).file == p.file,
        updated_profile(p, result, updated).url == p.url,
        text::trimmed(p.name@).len() > 0 ==> updated_profile(p, result, updated).name == p.name,
{
}

} // verus!
