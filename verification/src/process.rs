//! The core as a process: its program, its pid file, its log, its privileges and its end.

use crate::config::Platform;
use crate::figures;
use crate::hint;
use crate::number;
use crate::paths;
use crate::profile::StateStore;
use crate::text;
use vstd::prelude::*;

verus! {

/// The names of a program under one directory, as the system writes them.
pub open spec fn program_names(dir: Seq<char>, name: Seq<char>, platform: Platform) -> Seq<
    Seq<char>,
> {
    if platform == Platform::Windows {
        seq![
            paths::joined(platform, dir, name + ".exe"@),
            paths::joined(platform, dir, name + ".bat"@),
            paths::joined(platform, dir, name + ".cmd"@),
            paths::joined(platform, dir, name),
        ]
    } else {
        seq![paths::joined(platform, dir, name)]
    }
}

/// Where a program may be, in the order of the directories that are searched.
pub open spec fn search_places(dirs: Seq<Seq<char>>, name: Seq<char>, platform: Platform) -> Seq<
    Seq<char>,
>
    decreases dirs.len(),
{
    if dirs.len() == 0 {
        seq![]
    } else {
        search_places(dirs.drop_last(), name, platform) + program_names(dirs.last(), name, platform)
    }
}

fn push_program_names(out: &mut Vec<String>, dir: &str, name: &str, platform: Platform)
    ensures
        text::texts(final(out)@) == text::texts(old(out)@) + program_names(dir@, name@, platform),
{
    let ghost before = text::texts(out@);
    if platform == Platform::Windows {
        out.push(paths::join(platform, dir, text::cat2(name, ".exe").as_str()));
        out.push(paths::join(platform, dir, text::cat2(name, ".bat").as_str()));
        out.push(paths::join(platform, dir, text::cat2(name, ".cmd").as_str()));
    }
    out.push(paths::join(platform, dir, name));
    assert(text::texts(out@) =~= before + program_names(dir@, name@, platform));
}

fn push_search_places(out: &mut Vec<String>, dirs: &Vec<String>, name: &str, platform: Platform)
    ensures
        text::texts(final(out)@) == text::texts(old(out)@) + search_places(
            text::texts(dirs@),
            name@,
            platform,
        ),
{
    let ghost before = text::texts(out@);
    let ghost all = text::texts(dirs@);
    let mut i: usize = 0;
    assert(all.take(0) =~= seq![]);
    assert(text::texts(out@) =~= before + search_places(all.take(0), name@, platform));
    while i < dirs.len()
        invariant
            i <= dirs@.len(),
            all == text::texts(dirs@),
            text::texts(out@) == before + search_places(all.take(i as int), name@, platform),
        decreases dirs@.len() - i,
    {
        push_program_names(out, dirs[i].as_str(), name, platform);
        i = i + 1;
        proof {
            assert(all.take(i as int).drop_last() == all.take(i - 1));
            assert(all.take(i as int).last() == dirs@[i - 1]@);
            let places = search_places(all.take(i - 1), name@, platform);
            let here = program_names(dirs@[i - 1]@, name@, platform);
            assert((before + places) + here =~= before + (places + here));
        }
    }
    assert(all.take(i as int) == all);
}

/// Where to look for a program in the directories that are searched.
pub fn executable_places(dirs: &Vec<String>, name: &str, platform: Platform) -> (r: Vec<String>)
    ensures
        text::texts(r@) == search_places(text::texts(dirs@), name@, platform),
{
    let mut out: Vec<String> = Vec::new();
    push_search_places(&mut out, dirs, name, platform);
    assert(Seq::<Seq<char>>::empty() + search_places(text::texts(dirs@), name@, platform)
        =~= search_places(text::texts(dirs@), name@, platform));
    assert(text::texts(Seq::<String>::empty()) =~= Seq::<Seq<char>>::empty());
    out
}

/// Where a program is looked for: where its name points, where that names a directory, then in the
/// directories that are searched.
pub open spec fn places_of(dirs: Seq<Seq<char>>, name: Seq<char>, platform: Platform) -> Seq<
    Seq<char>,
> {
    if paths::component_count(platform, name) > 1 {
        seq![name] + search_places(dirs, name, platform)
    } else {
        search_places(dirs, name, platform)
    }
}

/// Where any of several programs is looked for.
pub open spec fn places_of_all(
    dirs: Seq<Seq<char>>,
    names: Seq<Seq<char>>,
    platform: Platform,
) -> Seq<Seq<char>>
    decreases names.len(),
{
    if names.len() == 0 {
        seq![]
    } else {
        places_of_all(dirs, names.drop_last(), platform) + places_of(dirs, names.last(), platform)
    }
}

/// The place that the environment names, before all others.
pub open spec fn chosen_first(chosen: Option<Seq<char>>, places: Seq<Seq<char>>) -> Seq<Seq<char>> {
    match chosen {
        Some(path) => seq![path] + places,
        None => places,
    }
}

fn places(chosen: Option<&str>, names: &Vec<String>, dirs: &Vec<String>, platform: Platform) -> (r:
    Vec<String>)
    ensures
        text::texts(r@) == chosen_first(
            match chosen {
                Some(path) => Some(path@),
                None => None,
            },
            places_of_all(text::texts(dirs@), text::texts(names@), platform),
        ),
{
    let ghost all = text::texts(names@);
    let ghost searched = text::texts(dirs@);
    let mut out: Vec<String> = Vec::new();
    if let Some(path) = chosen {
        out.push(path.to_owned());
    }
    let ghost start = text::texts(out@);
    proof {
        assert(chosen is None ==> start =~= seq![]);
        assert(chosen is Some ==> start =~= seq![chosen->0@]);
        assert(all.take(0) =~= seq![]);
        assert(start =~= start + places_of_all(searched, all.take(0), platform));
    }
    let mut i: usize = 0;
    while i < names.len()
        invariant
            i <= names@.len(),
            all == text::texts(names@),
            searched == text::texts(dirs@),
            text::texts(out@) == start + places_of_all(searched, all.take(i as int), platform),
        decreases names@.len() - i,
    {
        let ghost before = text::texts(out@);
        let name = names[i].as_str();
        if paths::has_directory(platform, name) {
            out.push(name.to_owned());
            assert(text::texts(out@) =~= before + seq![name@]);
        }
        push_search_places(&mut out, dirs, name, platform);
        i = i + 1;
        proof {
            assert(all.take(i as int).drop_last() == all.take(i - 1));
            assert(all.take(i as int).last() == name@);
            let found = places_of_all(searched, all.take(i - 1), platform);
            let here = places_of(searched, name@, platform);
            assert(text::texts(out@) =~= before + here);
            assert((start + found) + here =~= start + (found + here));
        }
    }
    assert(all.take(i as int) == all);
    assert(seq![] + places_of_all(searched, all, platform) =~= places_of_all(
        searched,
        all,
        platform,
    ));
    out
}

/// The names of the core's program: the preferred one, then the usual ones, each once.
pub open spec fn core_names(preferred: Option<Seq<char>>) -> Seq<Seq<char>> {
    let first = match preferred {
        Some(name) => if text::trimmed(name).len() > 0 {
            seq![text::trimmed(name)]
        } else {
            seq![]
        },
        None => seq![],
    };
    hint::with_new(hint::with_new(first, "verge-mihomo"@), "verge-mihomo-alpha"@)
}

pub open spec fn opt_str(s: Option<&str>) -> Option<Seq<char>> {
    match s {
        Some(t) => Some(t@),
        None => None,
    }
}

/// Where the core's program is looked for: the first of these places where there is something is
/// taken.
pub fn core_binary_places(
    chosen: Option<&str>,
    preferred: Option<&str>,
    dirs: &Vec<String>,
    platform: Platform,
) -> (r: Vec<String>)
    ensures
        text::texts(r@) == chosen_first(
            opt_str(chosen),
            places_of_all(text::texts(dirs@), core_names(opt_str(preferred)), platform),
        ),
{
    let mut names: Vec<String> = Vec::new();
    if let Some(name) = preferred {
        let name = text::trim(name);
        if !name.as_str().is_empty() {
            names.push(name);
        }
    }
    proof {
        let first = match opt_str(preferred) {
            Some(name) => if text::trimmed(name).len() > 0 {
                seq![text::trimmed(name)]
            } else {
                seq![]
            },
            None => seq![],
        };
        assert(text::texts(names@) =~= first);
    }
    hint::push_new(&mut names, "verge-mihomo".to_owned());
    hint::push_new(&mut names, "verge-mihomo-alpha".to_owned());
    places(chosen, &names, dirs, platform)
}

/// Where the service's program is looked for.
pub fn service_binary_places(chosen: Option<&str>, dirs: &Vec<String>, platform: Platform) -> (r:
    Vec<String>)
    ensures
        text::texts(r@) == chosen_first(
            opt_str(chosen),
            places_of_all(
                text::texts(dirs@),
                seq!["/usr/bin/clash-verge-service"@, "clash-verge-service"@],
                platform,
            ),
        ),
{
    let mut names: Vec<String> = Vec::new();
    names.push("/usr/bin/clash-verge-service".to_owned());
    names.push("clash-verge-service".to_owned());
    assert(text::texts(names@) =~= seq![
        "/usr/bin/clash-verge-service"@,
        "clash-verge-service"@,
    ]);
    places(chosen, &names, dirs, platform)
}

/// A search for the first of several places that is there.
#[derive(Debug)]
pub struct PlaceSearch {
    pub places: Vec<String>,
    pub at: usize,
}

#[derive(Debug)]
pub enum PlaceStep {
    /// Is this place there?
    Look(String),
    /// The place that was found.
    Done(Option<String>),
}

impl PlaceSearch {
    /// The next step where nothing was found so far.
    pub open spec fn is_step(self, step: PlaceStep) -> bool {
        if self.at < self.places@.len() {
            step is Look && step->Look_0@ == self.places@[self.at as int]@
        } else {
            step == PlaceStep::Done(None)
        }
    }

    pub fn new(places: Vec<String>) -> (r: PlaceSearch)
        ensures
            r.places == places,
            r.at == 0,
    {
        PlaceSearch { places, at: 0 }
    }

    pub fn step(&self) -> (r: PlaceStep)
        ensures
            self.is_step(r),
    {
        if self.at < self.places.len() {
            PlaceStep::Look(self.places[self.at].clone())
        } else {
            PlaceStep::Done(None)
        }
    }

    /// Takes in whether the place is there: the search is over with the first one that is.
    pub fn next(&mut self, there: bool) -> (r: PlaceStep)
        ensures
            final(self).places == old(self).places,
            if old(self).at < old(self).places@.len() && !there {
                final(self).at == old(self).at + 1 && final(self).is_step(r)
            } else {
                &&& final(self).at == old(self).at
                &&& r is Done
                &&& text::opt_text(r->Done_0) == if old(self).at < old(self).places@.len() {
                    Some(old(self).places@[old(self).at as int]@)
                } else {
                    None
                }
            },
    {
        if self.at >= self.places.len() {
            return PlaceStep::Done(None);
        }
        if there {
            return PlaceStep::Done(Some(self.places[self.at].clone()));
        }
        self.at = self.at + 1;
        self.step()
    }
}

/// What a search gives from the place `at` on, where `there` says of each place whether it is
/// there.
pub open spec fn found_from(places: Seq<Seq<char>>, there: Seq<bool>, at: int) -> Option<Seq<char>>
    decreases places.len() - at,
{
    if at >= places.len() {
        None
    } else if there[at] {
        Some(places[at])
    } else {
        found_from(places, there, at + 1)
    }
}

proof fn lemma_first_from(places: Seq<Seq<char>>, there: Seq<bool>, at: int)
    requires
        0 <= at,
    ensures
        match found_from(places, there, at) {
            Some(place) => exists|i: int|
                at <= i < places.len() && #[trigger] there[i] && place == places[i] && (forall|
                    j: int,
                |
                    at <= j < i ==> !#[trigger] there[j]),
            None => forall|j: int| at <= j < places.len() ==> !#[trigger] there[j],
        },
    decreases places.len() - at,
{
    if at < places.len() && !there[at] {
        lemma_first_from(places, there, at + 1);
    }
}

/// A search gives the first place that is there, and nothing only where none is.
pub proof fn law_first_place_is_found(places: Seq<Seq<char>>, there: Seq<bool>)
    requires
        there.len() == places.len(),
    ensures
        match found_from(places, there, 0) {
            Some(place) => exists|i: int|
                0 <= i < places.len() && #[trigger] there[i] && place == places[i] && (forall|
                    j: int,
                |
                    0 <= j < i ==> !#[trigger] there[j]),
            None => forall|j: int| 0 <= j < places.len() ==> !#[trigger] there[j],
        },
{
    lemma_first_from(places, there, 0);
}

/// How a core may come to the privileges that the tunnel needs.
pub open spec fn privilege_hint(platform: Platform, core: Option<Seq<char>>) -> Seq<char> {
    if platform == Platform::Linux {
        "tun permission hint: run `sudo setcap cap_net_admin,cap_net_raw+ep "@ + (match core {
            Some(path) => path,
            None => "/usr/bin/verge-mihomo"@,
        })
            + "` or start privileged service `sudo systemctl restart clash-verge-service.service`"@
    } else {
        "tun permission hint: run TUI with elevated privileges or use privileged service mode"@
    }
}

pub fn tun_privilege_hint(platform: Platform, core: Option<&str>) -> (r: String)
    ensures
        r@ == privilege_hint(platform, opt_str(core)),
{
    if platform == Platform::Linux {
        let path = match core {
            Some(path) => path,
            None => "/usr/bin/verge-mihomo",
        };
        text::cat3(
            "tun permission hint: run `sudo setcap cap_net_admin,cap_net_raw+ep ",
            path,
            "` or start privileged service `sudo systemctl restart clash-verge-service.service`",
        )
    } else {
        "tun permission hint: run TUI with elevated privileges or use privileged service mode".to_owned()
    }
}

/// What the listing of a program's capabilities tells: whether both that the tunnel needs are
/// there.
pub open spec fn lists_tun_caps(listing: Seq<char>) -> bool {
    text::has_text(text::lowered(listing), "cap_net_admin"@) && text::has_text(
        text::lowered(listing),
        "cap_net_raw"@,
    )
}

/// Whether a program has the capabilities for the tunnel; unknown where they were not listed.
pub fn core_has_linux_tun_caps(platform: Platform, listing: Option<&str>) -> (r: Option<bool>)
    ensures
        r == match listing {
            Some(s) => if platform == Platform::Linux {
                Some(text::trimmed(text::lowered(s@)).len() > 0 && lists_tun_caps(s@))
            } else {
                None
            },
            None => None,
        },
{
    match listing {
        Some(s) => {
            if platform != Platform::Linux {
                return None;
            }
            let s = text::to_lower(s);
            let s = s.as_str();
            if text::trim(s).as_str().is_empty() {
                return Some(false);
            }
            Some(text::contains(s, "cap_net_admin") && text::contains(s, "cap_net_raw"))
        },
        None => None,
    }
}

/// An integer in decimal.
pub open spec fn signed_dec(n: int) -> Seq<char> {
    if n < 0 {
        "-"@ + number::dec((-n) as nat)
    } else {
        number::dec(n as nat)
    }
}

fn to_signed_dec(n: i32) -> (r: String)
    ensures
        r@ == signed_dec(n as int),
{
    if n < 0 {
        text::cat2("-", number::to_dec((-(n as i64)) as u64).as_str())
    } else {
        number::to_dec(n as u64)
    }
}

/// What a program said: on its error stream, or else on its output, or else nothing.
pub open spec fn said(stdout: Seq<char>, stderr: Seq<char>) -> Seq<char> {
    if text::trimmed(stderr).len() > 0 {
        text::trimmed(stderr)
    } else if text::trimmed(stdout).len() > 0 {
        text::trimmed(stdout)
    } else {
        "no output"@
    }
}

/// What is told of a program that was run. A program without an exit code counts as -1.
pub fn run_command_probe(
    command: &str,
    arguments: &str,
    ok: bool,
    code: Option<i32>,
    stdout: &str,
    stderr: &str,
) -> (r: String)
    ensures
        r@ == command@ + " "@ + arguments@ + " => ok="@ + number::bool_text(ok) + ", code="@
            + signed_dec(
            match code {
                Some(n) => n as int,
                None => -1,
            },
        ) + ", msg="@ + said(stdout@, stderr@),
{
    let code: i32 = match code {
        Some(n) => n,
        None => -1,
    };
    let err = text::trim(stderr);
    let out = text::trim(stdout);
    let message = if !err.as_str().is_empty() {
        err
    } else if !out.as_str().is_empty() {
        out
    } else {
        "no output".to_owned()
    };
    let head = text::cat5(command, " ", arguments, " => ok=", number::bool_str(ok));
    text::cat5(
        head.as_str(),
        ", code=",
        to_signed_dec(code).as_str(),
        ", msg=",
        message.as_str(),
    )
}

/// Where the pid of a core of our own is kept.
pub fn managed_core_pid_file_path(store: &StateStore) -> (r: String)
    ensures
        r@ == paths::joined(
            store.paths.platform,
            paths::joined(store.paths.platform, store.paths.root@, "core-home"@),
            "managed-core.pid"@,
        ),
{
    let platform = store.paths.platform;
    let home = paths::join(platform, store.paths.root.as_str(), "core-home");
    paths::join(platform, home.as_str(), "managed-core.pid")
}

/// What the pid file holds.
pub open spec fn pid_file(pid: nat, socket: Seq<char>, config: Seq<char>, seconds: nat) -> Seq<
    char,
> {
    "pid="@ + number::dec(pid) + "\nsocket="@ + socket + "\nconfig="@ + config + "\nupdated="@
        + figures::time_of_day(seconds) + "\n"@
}

pub fn pid_file_content(pid: u32, socket: &str, config: &str, seconds: u64) -> (r: String)
    ensures
        r@ == pid_file(pid as nat, socket@, config@, seconds as nat),
{
    let head = text::cat5(
        "pid=",
        number::to_dec(pid as u64).as_str(),
        "\nsocket=",
        socket,
        "\nconfig=",
    );
    text::cat5(
        head.as_str(),
        config,
        "\nupdated=",
        figures::epoch_hms(seconds).as_str(),
        "\n",
    )
}

/// The pid that a line names.
pub open spec fn pid_in_line(line: Seq<char>) -> Option<nat> {
    match text::after_prefix(text::trimmed(line), "pid="@) {
        Some(value) => number::number_of(value, u32::MAX as nat),
        None => None,
    }
}

/// The pid that the first line names that names one.
pub open spec fn pid_in(lines: Seq<Seq<char>>) -> Option<nat>
    decreases lines.len(),
{
    if lines.len() == 0 {
        None
    } else if pid_in_line(lines[0]) is Some {
        pid_in_line(lines[0])
    } else {
        pid_in(lines.skip(1))
    }
}

pub fn read_managed_core_pid(content: &str) -> (r: Option<u32>)
    ensures
        match r {
            Some(pid) => pid_in(text::lines_of(content@)) == Some(pid as nat),
            None => pid_in(text::lines_of(content@)) is None,
        },
{
    let lines = text::lines(content);
    let ghost all = text::lines_of(content@);
    assert(all.skip(0) =~= all);
    let mut i: usize = 0;
    while i < lines.len()
        invariant
            i <= lines@.len(),
            all == text::texts(lines@),
            all == text::lines_of(content@),
            pid_in(all) == pid_in(all.skip(i as int)),
        decreases lines@.len() - i,
    {
        assert(all.skip(i as int)[0] == lines@[i as int]@);
        if let Some(value) = text::strip_prefix(text::trim(lines[i].as_str()).as_str(), "pid=") {
            if let Some(pid) = number::parse_u32(value.as_str()) {
                return Some(pid);
            }
        }
        assert(all.skip(i as int).skip(1) =~= all.skip(i + 1));
        i = i + 1;
    }
    None
}

/// The pid that was written is read again.
pub proof fn law_pid_file_round_trip(
    pid: nat,
    socket: Seq<char>,
    config: Seq<char>,
    seconds: nat,
)
    requires
        pid <= u32::MAX,
    ensures
        pid_in(text::lines_of(pid_file(pid, socket, config, seconds))) == Some(pid),
{
    let d = number::dec(pid);
    let s = pid_file(pid, socket, config, seconds);
    let line = "pid="@ + d;
    number::lemma_dec_digits(pid);
    number::law_numeral_round_trip(pid, u32::MAX as nat);
    reveal_strlit("pid=");
    reveal_strlit("\nsocket=");
    reveal_strlit("\nconfig=");
    reveal_strlit("\nupdated=");
    reveal_strlit("\n");
    assert(s.len() > line.len());
    assert(s.take(line.len() as int) =~= line);
    assert(s[line.len() as int] == '\n');
    assert forall|i: int| 0 <= i < line.len() implies s[i] != '\n' && !text::is_space(s[i]) by {
        assert(s[i] == line[i]);
        if i >= 4 {
            assert(line[i] == d[i - 4]);
            assert(number::is_digit(d[i - 4]));
        }
    }
    text::lemma_find_char(s, '\n');
    assert(text::find_char(s, '\n') == line.len()) by {
        let n = text::find_char(s, '\n') as int;
        if n < line.len() {
            assert(s[n] == '\n');
        }
    }
    assert(line.last() == s[line.len() - 1]);
    let all = text::lines_of(s);
    assert(all[0] == line) by {
        assert(text::without_cr(line) == line) by {
            assert(line.last() == d.last());
            assert(number::is_digit(d[d.len() - 1]));
        }
    }
    assert(text::trimmed(line) == line) by {
        assert(line[0] == s[0]);
        assert(text::trimmed_start(line) == line);
        assert(text::trimmed_end(line) == line);
    }
    assert(line.subrange(0, 4) =~= "pid="@);
    assert(line.skip(4) =~= d);
}

/// The last lines of a text, without white space around them.
pub open spec fn last_lines(content: Seq<char>, count: nat) -> Seq<Seq<char>> {
    let lines = text::lines_of(content);
    let from = if lines.len() > count {
        lines.len() - count
    } else {
        0
    };
    lines.skip(from).map_values(|l: Seq<char>| text::trimmed(l))
}

pub fn tail_text_lines(content: &str, max_lines: usize) -> (r: Vec<String>)
    ensures
        text::texts(r@) == last_lines(content@, max_lines as nat),
{
    let lines = text::lines(content);
    let ghost all = text::lines_of(content@);
    let from: usize = if lines.len() > max_lines {
        lines.len() - max_lines
    } else {
        0
    };
    let ghost wanted = last_lines(content@, max_lines as nat);
    let mut out: Vec<String> = Vec::new();
    let mut i: usize = from;
    while i < lines.len()
        invariant
            from <= i <= lines@.len(),
            all == text::texts(lines@),
            wanted == all.skip(from as int).map_values(|l: Seq<char>| text::trimmed(l)),
            text::texts(out@) == wanted.take(i - from),
        decreases lines@.len() - i,
    {
        let ghost before = out@;
        out.push(text::trim(lines[i].as_str()));
        proof {
            assert(all.skip(from as int)[i - from] == lines@[i as int]@);
            assert(wanted[i - from] == text::trimmed(lines@[i as int]@));
            assert(text::texts(out@) =~= text::texts(before).push(wanted[i - from]));
            assert(wanted.take(i + 1 - from) =~= wanted.take(i - from).push(wanted[i - from]));
        }
        i = i + 1;
    }
    assert(wanted.take(i - from) =~= wanted);
    out
}

/// The file that exists while a process is alive, where the system has one. Elsewhere a process
/// counts as alive.
pub fn alive_marker(pid: u32, platform: Platform) -> (r: Option<String>)
    ensures
        text::opt_text(r) == if platform == Platform::Linux {
            Some(paths::joined(platform, "/proc"@, number::dec(pid as nat)))
        } else {
            None
        },
{
    if platform == Platform::Linux {
        Some(paths::join(platform, "/proc", number::to_dec(pid as u64).as_str()))
    } else {
        None
    }
}

/// The steps of ending a process: ask it to end, wait, and end it by force.
#[derive(Debug, Clone, Copy, PartialEq, Eq, Structural)]
pub enum TerminateStep {
    /// The answer: whether the process is gone or was ended.
    Done(bool),
    /// Is it alive?
    Look,
    /// Ask it to end.
    Ask,
    /// Is it still alive? So many looks are left, with a pause after each that finds it alive.
    Wait(u8),
    /// End it by force.
    Force,
}

pub const TERMINATE_LOOKS: u8 = 20;

pub open spec fn terminate_start(pid: u32, platform: Platform) -> TerminateStep {
    if pid == 0 || platform == Platform::Windows {
        TerminateStep::Done(false)
    } else {
        TerminateStep::Look
    }
}

pub fn terminate_pid(pid: u32, platform: Platform) -> (r: TerminateStep)
    ensures
        r == terminate_start(pid, platform),
{
    if pid == 0 || platform == Platform::Windows {
        TerminateStep::Done(false)
    } else {
        TerminateStep::Look
    }
}

/// The step after a step, by its answer.
pub open spec fn terminate_after(step: TerminateStep, answer: bool) -> TerminateStep {
    match step {
        TerminateStep::Done(r) => TerminateStep::Done(r),
        TerminateStep::Look => if answer {
            TerminateStep::Ask
        } else {
            TerminateStep::Done(true)
        },
        TerminateStep::Ask => if answer {
            TerminateStep::Wait(TERMINATE_LOOKS)
        } else {
            TerminateStep::Done(false)
        },
        TerminateStep::Wait(left) => if !answer {
            TerminateStep::Done(true)
        } else if left <= 1 {
            TerminateStep::Force
        } else {
            TerminateStep::Wait((left - 1) as u8)
        },
        TerminateStep::Force => TerminateStep::Done(answer),
    }
}

pub fn terminate_next(step: TerminateStep, answer: bool) -> (r: TerminateStep)
    ensures
        r == terminate_after(step, answer),
        step is Done || terminate_rank(r) < terminate_rank(step),
{
    match step {
        TerminateStep::Done(done) => TerminateStep::Done(done),
        TerminateStep::Look => {
            if answer {
                TerminateStep::Ask
            } else {
                TerminateStep::Done(true)
            }
        },
        TerminateStep::Ask => {
            if answer {
                TerminateStep::Wait(TERMINATE_LOOKS)
            } else {
                TerminateStep::Done(false)
            }
        },
        TerminateStep::Wait(left) => {
            if !answer {
                TerminateStep::Done(true)
            } else if left <= 1 {
                TerminateStep::Force
            } else {
                TerminateStep::Wait(left - 1)
            }
        },
        TerminateStep::Force => TerminateStep::Done(answer),
    }
}

/// How many steps are ahead at most.
pub open spec fn terminate_rank(step: TerminateStep) -> nat {
    match step {
        TerminateStep::Done(_) => 0,
        TerminateStep::Force => 1,
        TerminateStep::Wait(left) => left as nat + 2,
        TerminateStep::Ask => 300,
        TerminateStep::Look => 301,
    }
}

/// Nothing is ended by force before it was asked and then seen alive at every look.
pub proof fn law_force_comes_last(step: TerminateStep, answer: bool)
    ensures
        terminate_after(step, answer) == TerminateStep::Force ==> answer && step is Wait
            && step->Wait_0 <= 1,
        terminate_after(TerminateStep::Ask, true) == TerminateStep::Wait(TERMINATE_LOOKS),
{
}

} // verus!
