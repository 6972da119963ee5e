//! What an installed Clash Verge tells about its controller.

use crate::config::Platform;
use crate::number;
use crate::order;
use crate::paths;
use crate::text;
use crate::yaml;
use crate::yaml::Scalar;
use serde_yaml_ng::{Mapping, Value};
use vstd::prelude::*;

verus! {

#[derive(Debug)]
pub struct ClashVergeApiHint {
    pub controller_url: Option<String>,
    pub socket_path: Option<String>,
    pub secret: Option<String>,
    pub mixed_port: Option<u16>,
    pub enable_external_controller: Option<bool>,
    pub clash_core: Option<String>,
    pub app_home: String,
    pub source_config: String,
}

/// The URL that a controller's address stands for: `http` where it names no scheme, and this host
/// where it names a port alone.
pub open spec fn controller_url_of(raw: Seq<char>) -> Option<Seq<char>> {
    let value = text::trimmed(raw);
    if value.len() == 0 {
        None
    } else if text::has_prefix(value, "http://"@) || text::has_prefix(value, "https://"@) {
        Some(value)
    } else if text::has_prefix(value, ":"@) {
        Some("http://127.0.0.1"@ + value)
    } else {
        Some("http://"@ + value)
    }
}

pub fn normalize_controller_url(raw: &str) -> (r: Option<String>)
    ensures
        text::opt_text(r) == controller_url_of(raw@),
{
    let value = text::trim(raw);
    let v = value.as_str();
    if v.is_empty() {
        return None;
    }
    if text::starts_with(v, "http://") || text::starts_with(v, "https://") {
        return Some(value);
    }
    if text::starts_with(v, ":") {
        return Some(text::cat2("http://127.0.0.1", v));
    }
    Some(text::cat2("http://", v))
}

/// A scalar as text.
pub open spec fn string_like(y: yaml::Yaml) -> Option<Seq<char>> {
    match y {
        yaml::Yaml::Text(s) => Some(s),
        yaml::Yaml::Bool(b) => Some(number::bool_text(b)),
        yaml::Yaml::Number(t, _) => Some(t),
        _ => None,
    }
}

pub fn yaml_string_like(v: &Value) -> (r: Option<String>)
    ensures
        text::opt_text(r) == string_like(yaml::yaml_value(*v)),
{
    match yaml::scalar(v) {
        Scalar::Text(s) => Some(s),
        Scalar::Bool(b) => Some(number::bool_str(b).to_owned()),
        Scalar::Number(t, _) => Some(t),
        Scalar::Other => None,
    }
}

/// A port: a numeral, or an unsigned integer, of which the low sixteen bits count.
pub open spec fn port_of(y: yaml::Yaml) -> Option<nat> {
    match y {
        yaml::Yaml::Text(s) => number::number_of(text::trimmed(s), u16::MAX as nat),
        yaml::Yaml::Number(_, Some(n)) => Some(n as nat % 65536),
        _ => None,
    }
}

pub open spec fn opt_port(p: Option<u16>) -> Option<nat> {
    match p {
        Some(n) => Some(n as nat),
        None => None,
    }
}

pub fn yaml_to_u16(v: &Value) -> (r: Option<u16>)
    ensures
        opt_port(r) == port_of(yaml::yaml_value(*v)),
{
    match yaml::scalar(v) {
        Scalar::Text(s) => number::parse_u16(text::trim(s.as_str()).as_str()),
        Scalar::Number(_, Some(n)) => Some((n % 65536) as u16),
        _ => None,
    }
}

/// The text under `key`, tags aside.
pub open spec fn text_under(entries: Seq<(yaml::Yaml, yaml::Yaml)>, key: Seq<char>) -> Option<
    Seq<char>,
> {
    match yaml::lookup(entries, key) {
        Some(y) => match yaml::untagged(y) {
            yaml::Yaml::Text(s) => Some(s),
            _ => None,
        },
        None => None,
    }
}

/// The truth value under `key`, tags aside.
pub open spec fn bool_under(entries: Seq<(yaml::Yaml, yaml::Yaml)>, key: Seq<char>) -> Option<bool> {
    match yaml::lookup(entries, key) {
        Some(y) => match yaml::untagged(y) {
            yaml::Yaml::Bool(b) => Some(b),
            _ => None,
        },
        None => None,
    }
}

/// A text without surrounding white space, unless it is blank.
pub open spec fn filled(s: Option<Seq<char>>) -> Option<Seq<char>> {
    if s is Some && text::trimmed(s->0).len() > 0 {
        Some(text::trimmed(s->0))
    } else {
        None
    }
}

fn text_at(m: &Mapping, key: &str) -> (r: Option<String>)
    ensures
        text::opt_text(r) == text_under(yaml::yaml_entries(*m), key@),
{
    match yaml::get(m, key) {
        Some(v) => match v.as_str() {
            Some(s) => Some(s.to_owned()),
            None => None,
        },
        None => None,
    }
}

fn bool_at(m: &Mapping, key: &str) -> (r: Option<bool>)
    ensures
        r == bool_under(yaml::yaml_entries(*m), key@),
{
    match yaml::get(m, key) {
        Some(v) => v.as_bool(),
        None => None,
    }
}

fn filled_text(s: Option<String>) -> (r: Option<String>)
    ensures
        text::opt_text(r) == filled(text::opt_text(s)),
{
    match s {
        Some(t) => {
            let t = text::trim(t.as_str());
            if t.as_str().is_empty() {
                None
            } else {
                Some(t)
            }
        },
        None => None,
    }
}

/// The first of two answers that is there.
pub open spec fn first_of<T>(a: Option<T>, b: Option<T>) -> Option<T> {
    if a is Some {
        a
    } else {
        b
    }
}

/// Whether `h` is what the directory `dir` tells: its `config.yaml` with the entries `config`, and
/// its `verge.yaml`, where there is one, with the entries `verge`.
pub open spec fn hint_of(
    h: ClashVergeApiHint,
    platform: Platform,
    dir: Seq<char>,
    config: Seq<(yaml::Yaml, yaml::Yaml)>,
    verge: Option<Seq<(yaml::Yaml, yaml::Yaml)>>,
) -> bool {
    &&& text::opt_text(h.controller_url) == match text_under(config, "external-controller"@) {
        Some(s) => controller_url_of(s),
        None => None,
    }
    &&& text::opt_text(h.socket_path) == filled(
        first_of(
            text_under(config, "external-controller-unix"@),
            text_under(config, "external-controller-pipe"@),
        ),
    )
    &&& text::opt_text(h.secret) == match yaml::lookup(config, "secret"@) {
        Some(y) => string_like(y),
        None => None,
    }
    &&& opt_port(h.mixed_port) == match yaml::lookup(config, "mixed-port"@) {
        Some(y) => port_of(y),
        None => None,
    }
    &&& h.enable_external_controller == match verge {
        Some(v) => first_of(
            bool_under(v, "enable_external_controller"@),
            bool_under(v, "enable-external-controller"@),
        ),
        None => None,
    }
    &&& text::opt_text(h.clash_core) == match verge {
        Some(v) => filled(text_under(v, "clash_core"@)),
        None => None,
    }
    &&& h.app_home@ == dir
    &&& h.source_config@ == paths::joined(platform, dir, "config.yaml"@)
}

/// The entries of an optional mapping.
pub open spec fn opt_entries(m: Option<&Mapping>) -> Option<Seq<(yaml::Yaml, yaml::Yaml)>> {
    match m {
        Some(m) => Some(yaml::yaml_entries(*m)),
        None => None,
    }
}

pub fn hint_from(
    platform: Platform,
    dir: &str,
    config: &Mapping,
    verge: Option<&Mapping>,
) -> (r: ClashVergeApiHint)
    ensures
        hint_of(r, platform, dir@, yaml::yaml_entries(*config), opt_entries(verge)),
{
    let controller_url = match text_at(config, "external-controller") {
        Some(s) => normalize_controller_url(s.as_str()),
        None => None,
    };
    let socket = match text_at(config, "external-controller-unix") {
        Some(s) => Some(s),
        None => text_at(config, "external-controller-pipe"),
    };
    let secret = match yaml::get(config, "secret") {
        Some(v) => yaml_string_like(v),
        None => None,
    };
    let mixed_port = match yaml::get(config, "mixed-port") {
        Some(v) => yaml_to_u16(v),
        None => None,
    };
    let mut enable: Option<bool> = None;
    let mut core: Option<String> = None;
    if let Some(v) = verge {
        enable = match bool_at(v, "enable_external_controller") {
            Some(b) => Some(b),
            None => bool_at(v, "enable-external-controller"),
        };
        core = filled_text(text_at(v, "clash_core"));
    }
    ClashVergeApiHint {
        controller_url,
        socket_path: filled_text(socket),
        secret,
        mixed_port,
        enable_external_controller: enable,
        clash_core: core,
        app_home: dir.to_owned(),
        source_config: paths::join(platform, dir, "config.yaml"),
    }
}

/// What a directory tells: nothing when its `config.yaml` is no mapping; a `verge.yaml` that is no
/// mapping counts as missing.
pub fn read_hint(platform: Platform, dir: &str, config: &str, verge: Option<&str>) -> (r: Option<
    ClashVergeApiHint,
>)
    ensures
        match yaml::yaml_parsed(config@) {
            None => r is None,
            Some(entries) => r is Some && hint_of(
                r->0,
                platform,
                dir@,
                entries,
                match verge {
                    Some(t) => yaml::yaml_parsed(t@),
                    None => None,
                },
            ),
        },
{
    match yaml::parse_mapping(config) {
        Err(_) => None,
        Ok(m) => {
            if let Some(t) = verge {
                if let Ok(v) = yaml::parse_mapping(t) {
                    return Some(hint_from(platform, dir, &m, Some(&v)));
                }
            }
            Some(hint_from(platform, dir, &m, None))
        },
    }
}

/// A list with one more member, unless it is there already.
pub open spec fn with_new(list: Seq<Seq<char>>, item: Seq<char>) -> Seq<Seq<char>> {
    if list.contains(item) {
        list
    } else {
        list.push(item)
    }
}

/// Adds a member to a list, unless it is there already.
pub fn push_new(list: &mut Vec<String>, item: String)
    ensures
        text::texts(final(list)@) == with_new(text::texts(old(list)@), item@),
{
    let ghost start = text::texts(list@);
    let mut i: usize = 0;
    while i < list.len()
        invariant
            i <= list@.len(),
            start == text::texts(list@),
            forall|k: int| 0 <= k < i ==> #[trigger] start[k] != item@,
        decreases list@.len() - i,
    {
        assert(start[i as int] == list@[i as int]@);
        if text::same(list[i].as_str(), item.as_str()) {
            assert(start.contains(item@));
            return;
        }
        i = i + 1;
    }
    assert(!start.contains(item@));
    list.push(item);
    assert(text::texts(list@) =~= start.push(item@));
}

/// A list of paths with one more, unless it is there already, however it is written.
pub open spec fn with_new_path(platform: Platform, list: Seq<Seq<char>>, item: Seq<char>) -> Seq<
    Seq<char>,
> {
    if exists|i: int|
        0 <= i < list.len() && paths::same_path(platform, #[trigger] list[i], item) {
        list
    } else {
        list.push(item)
    }
}

fn push_new_path(platform: Platform, list: &mut Vec<String>, item: String)
    ensures
        text::texts(final(list)@) == with_new_path(platform, text::texts(old(list)@), item@),
{
    let ghost start = text::texts(list@);
    let mut i: usize = 0;
    while i < list.len()
        invariant
            i <= list@.len(),
            start == text::texts(list@),
            forall|k: int| 0 <= k < i ==> !paths::same_path(platform, #[trigger] start[k], item@),
        decreases list@.len() - i,
    {
        assert(start[i as int] == list@[i as int]@);
        if paths::is_same_path(platform, list[i].as_str(), item.as_str()) {
            return;
        }
        i = i + 1;
    }
    list.push(item);
    assert(text::texts(list@) =~= start.push(item@));
}

/// The directories of Clash Verge below one directory for data.
pub open spec fn homes_below(platform: Platform, list: Seq<Seq<char>>, root: Seq<char>) -> Seq<
    Seq<char>,
> {
    with_new_path(
        platform,
        with_new_path(
            platform,
            list,
            paths::joined(platform, root, "io.github.clash-verge-rev.clash-verge-rev"@),
        ),
        paths::joined(platform, root, "io.github.clash-verge-rev.clash-verge-rev.dev"@),
    )
}

fn push_homes(platform: Platform, list: &mut Vec<String>, root: &str)
    ensures
        text::texts(final(list)@) == homes_below(platform, text::texts(old(list)@), root@),
{
    let release = paths::join(platform, root, "io.github.clash-verge-rev.clash-verge-rev");
    push_new_path(platform, list, release);
    let dev = paths::join(platform, root, "io.github.clash-verge-rev.clash-verge-rev.dev");
    push_new_path(platform, list, dev);
}

/// The user's directory for data, when no other is named.
pub open spec fn default_data_home(platform: Platform, home: Seq<char>) -> Seq<char> {
    paths::joined(platform, paths::joined(platform, home, ".local"@), "share"@)
}

/// Where Clash Verge may keep its files: below the directory for data that the environment names,
/// then below the user's own.
pub open spec fn app_homes(platform: Platform, xdg_data_home: Option<&str>, home: Option<&str>) -> Seq<
    Seq<char>,
> {
    let first = match xdg_data_home {
        Some(x) => homes_below(platform, seq![], x@),
        None => seq![],
    };
    match home {
        Some(h) => homes_below(platform, first, default_data_home(platform, h@)),
        None => first,
    }
}

pub fn clash_verge_app_home_candidates(
    platform: Platform,
    xdg_data_home: Option<&str>,
    home: Option<&str>,
) -> (r: Vec<String>)
    ensures
        text::texts(r@) == app_homes(platform, xdg_data_home, home),
{
    let mut r: Vec<String> = Vec::new();
    assert(text::texts(r@) =~= seq![]);
    if let Some(x) = xdg_data_home {
        push_homes(platform, &mut r, x);
    }
    if let Some(h) = home {
        let local = paths::join(platform, h, ".local");
        let share = paths::join(platform, local.as_str(), "share");
        push_homes(platform, &mut r, share.as_str());
    }
    r
}

/// A search for the first directory that tells something.
#[derive(Debug)]
pub struct HintSearch {
    pub platform: Platform,
    pub dirs: Vec<String>,
    pub at: usize,
}

#[derive(Debug)]
pub enum HintStep {
    /// Read these two files.
    Read { config: String, verge: String },
    /// What was found.
    Done(Option<ClashVergeApiHint>),
}

/// What a file holds that could be read, taken as a mapping.
pub open spec fn mapping_in(file: Option<String>) -> Option<Seq<(yaml::Yaml, yaml::Yaml)>> {
    match file {
        Some(t) => yaml::yaml_parsed(t@),
        None => None,
    }
}

impl HintSearch {
    /// The next step where nothing was found so far.
    pub open spec fn is_step(self, step: HintStep) -> bool {
        if self.at < self.dirs@.len() {
            let dir = self.dirs@[self.at as int]@;
            &&& step is Read
            &&& step->config@ == paths::joined(self.platform, dir, "config.yaml"@)
            &&& step->verge@ == paths::joined(self.platform, dir, "verge.yaml"@)
        } else {
            step == HintStep::Done(None)
        }
    }

    pub fn step(&self) -> (r: HintStep)
        ensures
            self.is_step(r),
    {
        if self.at < self.dirs.len() {
            let dir = self.dirs[self.at].as_str();
            HintStep::Read {
                config: paths::join(self.platform, dir, "config.yaml"),
                verge: paths::join(self.platform, dir, "verge.yaml"),
            }
        } else {
            HintStep::Done(None)
        }
    }

    /// Takes in the two files, as far as they could be read: the search is over with the first
    /// directory whose `config.yaml` is a mapping.
    pub fn next(&mut self, config: Option<String>, verge: Option<String>) -> (r: HintStep)
        ensures
            final(self).platform == old(self).platform,
            final(self).dirs == old(self).dirs,
            if old(self).at >= old(self).dirs@.len() {
                final(self).at == old(self).at && r == HintStep::Done(None)
            } else {
                match mapping_in(config) {
                    Some(entries) => {
                        &&& final(self).at == old(self).at
                        &&& r is Done
                        &&& r->Done_0 is Some
                        &&& hint_of(
                            r->Done_0->0,
                            old(self).platform,
                            old(self).dirs@[old(self).at as int]@,
                            entries,
                            mapping_in(verge),
                        )
                    },
                    None => final(self).at == old(self).at + 1 && final(self).is_step(r),
                }
            },
    {
        if self.at >= self.dirs.len() {
            return HintStep::Done(None);
        }
        if let Some(config) = config {
            let verge = match &verge {
                Some(t) => Some(t.as_str()),
                None => None,
            };
            let dir = self.dirs[self.at].as_str();
            if let Some(found) = read_hint(self.platform, dir, config.as_str(), verge) {
                return HintStep::Done(Some(found));
            }
        }
        self.at = self.at + 1;
        self.step()
    }
}

/// Begins a search of the directories where Clash Verge may keep its files.
pub fn detect_clash_verge_api_hint(
    platform: Platform,
    xdg_data_home: Option<&str>,
    home: Option<&str>,
) -> (r: HintSearch)
    ensures
        r.platform == platform,
        text::texts(r.dirs@) == app_homes(platform, xdg_data_home, home),
        r.at == 0,
{
    let dirs = clash_verge_app_home_candidates(platform, xdg_data_home, home);
    HintSearch { platform, dirs, at: 0 }
}

/// The socket in the directory that holds Clash Verge's configuration.
pub open spec fn socket_beside(platform: Platform, source_config: Seq<char>) -> Option<Seq<char>> {
    match paths::parent_of(platform, source_config) {
        Some(dir) => Some(
            paths::joined(
                platform,
                paths::joined(platform, dir, "verge"@),
                "verge-mihomo.sock"@,
            ),
        ),
        None => None,
    }
}

/// The sockets at which the core of Clash Verge may be reached: the configured one, two fixed
/// ones, and one beside the configuration.
pub open spec fn is_local_socket(
    platform: Platform,
    h: ClashVergeApiHint,
    path: Seq<char>,
) -> bool {
    ||| text::opt_text(h.socket_path) == Some(path)
    ||| path == "/tmp/verge/verge-mihomo.sock"@
    ||| path == "/var/tmp/verge/verge-mihomo.sock"@
    ||| socket_beside(platform, h.source_config@) == Some(path)
}

/// The possible sockets, in order and without repetition.
pub fn local_socket_candidates(platform: Platform, hint: &ClashVergeApiHint) -> (r: Vec<String>)
    ensures
        order::increasing(text::texts(r@)),
        forall|path: Seq<char>| #[trigger]
            text::texts(r@).contains(path) <==> is_local_socket(platform, *hint, path),
{
    let mut out: Vec<String> = Vec::new();
    if let Some(path) = &hint.socket_path {
        order::insert_unique(&mut out, path.clone());
    }
    order::insert_unique(&mut out, "/tmp/verge/verge-mihomo.sock".to_owned());
    order::insert_unique(&mut out, "/var/tmp/verge/verge-mihomo.sock".to_owned());
    if let Some(dir) = paths::parent(platform, hint.source_config.as_str()) {
        order::insert_unique(
            &mut out,
            paths::join(
                platform,
                paths::join(platform, dir.as_str(), "verge").as_str(),
                "verge-mihomo.sock",
            ),
        );
    }
    out
}

/// The sockets of a running core, in the order in which they are tried.
pub open spec fn known_sockets() -> Seq<Seq<char>> {
    seq![
        "/var/tmp/verge/verge-mihomo.sock"@,
        "/tmp/verge/verge-mihomo.sock"@,
        "/tmp/verge-tui/verge-mihomo.sock"@,
    ]
}

/// A list with the members of another one added at its end, each once.
pub open spec fn with_all_new(list: Seq<Seq<char>>, more: Seq<Seq<char>>) -> Seq<Seq<char>>
    decreases more.len(),
{
    if more.len() == 0 {
        list
    } else {
        with_new(with_all_new(list, more.drop_last()), more.last())
    }
}

/// The sockets at which a core may already run: the known ones, then those that the hint adds.
pub fn existing_socket_candidates(platform: Platform, hint: Option<&ClashVergeApiHint>) -> (r: Vec<
    String,
>)
    ensures
        match hint {
            None => text::texts(r@) == with_all_new(seq![], known_sockets()),
            Some(h) => exists|more: Seq<Seq<char>>|
                {
                    &&& order::increasing(more)
                    &&& forall|path: Seq<char>| #[trigger]
                        more.contains(path) <==> is_local_socket(platform, *h, path)
                    &&& text::texts(r@) == #[trigger] with_all_new(
                        with_all_new(seq![], known_sockets()),
                        more,
                    )
                },
        },
{
    let mut r: Vec<String> = Vec::new();
    assert(text::texts(r@) =~= seq![]);
    push_new(&mut r, "/var/tmp/verge/verge-mihomo.sock".to_owned());
    push_new(&mut r, "/tmp/verge/verge-mihomo.sock".to_owned());
    push_new(&mut r, "/tmp/verge-tui/verge-mihomo.sock".to_owned());
    let ghost base = with_all_new(seq![], known_sockets());
    proof {
        let k = known_sockets();
        reveal_with_fuel(with_all_new, 4);
        assert(k.drop_last().drop_last().drop_last() =~= seq![]);
        assert(text::texts(r@) == base);
    }
    if let Some(h) = hint {
        let more = local_socket_candidates(platform, h);
        let ghost all = text::texts(more@);
        let mut i: usize = 0;
        assert(all.take(0) =~= seq![]);
        while i < more.len()
            invariant
                i <= more@.len(),
                all == text::texts(more@),
                text::texts(r@) == with_all_new(base, all.take(i as int)),
            decreases more@.len() - i,
        {
            push_new(&mut r, more[i].clone());
            i = i + 1;
            assert(all.take(i as int).drop_last() == all.take(i - 1));
            assert(all.take(i as int).last() == more@[i - 1]@);
        }
        assert(all.take(i as int) == all);
        assert(text::texts(r@) == with_all_new(base, all));
    }
    r
}

/// The socket at which a new core is told to listen.
pub open spec fn spawn_socket(
    hint: Option<&ClashVergeApiHint>,
    independent: bool,
    platform: Platform,
) -> Seq<char> {
    if !independent && hint is Some && hint->0.socket_path is Some && hint->0.socket_path->0@.len()
        > 0 {
        hint->0.socket_path->0@
    } else if platform == Platform::Windows {
        r"\\.\pipe\verge-tui-mihomo"@
    } else {
        "/tmp/verge-tui/verge-mihomo.sock"@
    }
}

pub fn pick_socket_for_spawn(
    hint: Option<&ClashVergeApiHint>,
    independent: bool,
    platform: Platform,
) -> (r: String)
    ensures
        r@ == spawn_socket(hint, independent, platform),
{
    if !independent {
        if let Some(h) = hint {
            if let Some(path) = &h.socket_path {
                if !path.as_str().is_empty() {
                    return path.clone();
                }
            }
        }
    }
    if platform == Platform::Windows {
        r"\\.\pipe\verge-tui-mihomo".to_owned()
    } else {
        "/tmp/verge-tui/verge-mihomo.sock".to_owned()
    }
}

} // verus!
