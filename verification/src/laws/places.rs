//! Paths, programs and files.

use crate::config::Platform;
use crate::laws::words;
use crate::number;
use crate::paths;
use crate::paths::PrefixKind;
use crate::process;
use crate::text;
use vstd::prelude::*;

verus! {

/// Outside Windows a name is put behind its directory and a slash, unless one ends the directory;
/// a name that starts with a slash stands for itself.
pub proof fn law_join(platform: Platform, dir: Seq<char>, name: Seq<char>)
    requires
        platform != Platform::Windows,
    ensures
        name.len() > 0 && name[0] == '/' ==> paths::joined(platform, dir, name) == name,
        (name.len() == 0 || name[0] != '/') && dir.len() > 0 && dir.last() != '/' ==> paths::joined(
            platform,
            dir,
            name,
        ) == dir + seq!['/'] + name,
        (name.len() == 0 || name[0] != '/') && (dir.len() == 0 || dir.last() == '/')
            ==> paths::joined(platform, dir, name) == dir + name,
{
    reveal_strlit("/");
    assert("/"@ =~= seq!['/']);
    assert(dir.take(0) + name =~= name);
}

/// Whether a text is a plain name outside Windows.
pub open spec fn is_name(name: Seq<char>) -> bool {
    name.len() > 0 && !name.contains('/') && name != seq!['.']
}

proof fn lemma_dir_len(dir: Seq<char>, name: Seq<char>, n: int, head: int)
    requires
        !name.contains('/'),
        0 <= n <= name.len(),
        head <= dir.len(),
    ensures
        paths::dir_len(
            (dir + seq!['/'] + name).take(dir.len() + 1 + n),
            head,
            paths::Separators::Slash,
        ) == dir.len() + 1,
    decreases n,
{
    let s = (dir + seq!['/'] + name).take(dir.len() + 1 + n);
    if n > 0 {
        assert(s.last() == name[n - 1]);
        assert(name.contains(name[n - 1]));
        assert(s.drop_last() =~= (dir + seq!['/'] + name).take(dir.len() + 1 + (n - 1)));
        lemma_dir_len(dir, name, n - 1, head);
    } else {
        assert(s.last() == '/');
    }
}

/// Outside Windows the directory of a name in a directory is that directory.
pub proof fn law_parent_of_joined(platform: Platform, dir: Seq<char>, name: Seq<char>)
    requires
        platform != Platform::Windows,
        is_name(name),
        dir.len() > 0,
        dir.last() != '/',
        dir.last() != '.',
    ensures
        paths::parent_of(platform, paths::joined(platform, dir, name)) == Some(dir),
{
    assert(name.contains(name[0]));
    law_join(platform, dir, name);
    let s = dir + seq!['/'] + name;
    let style = paths::Separators::Slash;
    let head = paths::lead_len(platform, s);
    assert(s.last() == name.last());
    assert(name.contains(name.last()));
    if s.last() == '.' && s[s.len() - 2] == '/' {
        if name.len() > 1 {
            assert(s[s.len() - 2] == name[name.len() - 2]);
            assert(name.contains(name[name.len() - 2]));
        } else {
            assert(name =~= seq!['.']);
        }
    }
    assert(paths::tidy_end(s, head, style) == s);
    assert(s.take(s.len() as int) =~= s);
    assert(s.take(dir.len() as int + 1 + name.len()) =~= s);
    lemma_dir_len(dir, name, name.len() as int, head);
    let t = s.take(dir.len() as int + 1);
    assert(t.last() == '/');
    assert(t.drop_last() =~= dir);
    reveal_with_fuel(paths::tidy_end, 3);
}

/// The root has no directory, and neither has nothing.
pub proof fn law_no_parent(platform: Platform)
    requires
        platform != Platform::Windows,
    ensures
        paths::parent_of(platform, seq!['/']) is None,
        paths::parent_of(platform, seq![]) is None,
{
}

/// A path with a drive, where there are drives, stands for itself wherever it is put.
pub proof fn law_drives_stand_for_themselves(dir: Seq<char>, drive: char, rest: Seq<char>)
    requires
        'a' <= drive <= 'z' || 'A' <= drive <= 'Z',
    ensures
        paths::joined(Platform::Windows, dir, seq![drive, ':'] + rest) == seq![drive, ':'] + rest,
        paths::prefix_of(Platform::Windows, seq![drive, ':'] + rest).kind == PrefixKind::Disk,
        paths::prefix_of(Platform::Linux, seq![drive, ':'] + rest).kind == PrefixKind::Nothing,
{
    let s = seq![drive, ':'] + rest;
    assert(s[0] == drive && s[1] == ':');
}

/// On Windows a name is put behind its directory and a backslash, unless a separator ends the
/// directory; one that starts with a separator keeps the drive alone.
pub proof fn law_join_on_windows(drive: char, rest: Seq<char>, name: Seq<char>)
    requires
        'a' <= drive <= 'z' || 'A' <= drive <= 'Z',
        name.len() > 0,
        name.len() > 1 ==> name[1] != ':' && name[1] != '/' && name[1] != '\\',
    ensures
        ({
            let dir = seq![drive, ':'] + rest;
            let at_root = name[0] == '/' || name[0] == '\\';
            let ended = rest.len() == 0 || rest.last() == '/' || rest.last() == '\\';
            &&& at_root ==> paths::joined(Platform::Windows, dir, name) == seq![drive, ':'] + name
            &&& !at_root && ended ==> paths::joined(Platform::Windows, dir, name) == dir + name
            &&& !at_root && !ended ==> paths::joined(Platform::Windows, dir, name) == dir + seq![
                '\\',
            ] + name
        }),
{
    let dir = seq![drive, ':'] + rest;
    assert(dir[0] == drive && dir[1] == ':');
    assert(dir.take(2) =~= seq![drive, ':']);
    reveal_strlit("\\");
    assert("\\"@ =~= seq!['\\']);
    if rest.len() > 0 {
        assert(dir.last() == rest.last());
    } else {
        assert(dir.last() == ':');
    }
    assert(paths::prefix_of(Platform::Windows, name).kind == PrefixKind::Nothing);
}

/// A plain name has no directory, and a name below another has one.
pub proof fn law_names_and_directories(a: Seq<char>, b: Seq<char>)
    requires
        is_name(a),
        is_name(b),
    ensures
        paths::component_count(Platform::Linux, a) == 1,
        paths::component_count(Platform::Linux, a + seq!['/'] + b) == 2,
        paths::component_count(Platform::Linux, seq!['/'] + a) == 2,
{
    reveal_strlit(".");
    assert("."@ =~= seq!['.']);
    let style = paths::Separators::Slash;
    assert(a.contains(a[0]));
    words::lemma_parts(a, '/', b);
    words::lemma_parts(b, '/', a);
    assert(a.skip(0) =~= a);
    let s = a + seq!['/'] + b;
    assert(s[0] == a[0]);
    assert(s.skip(0) =~= s);
    assert(text::parts_of(s, '/') =~= seq![a, b]);
    let one = seq![a];
    let two = seq![a, b];
    assert(one.drop_last() =~= seq![]);
    assert(two.drop_last() =~= one);
    reveal_with_fuel(paths::counted, 3);
    let r = seq!['/'] + a;
    assert(r.skip(1) =~= a);
    assert(r[0] == '/');
}

/// Equal parts, equal paths: a path is the same as itself, and of two that are the same each is the
/// same as the other and has as many parts.
pub proof fn law_same_paths(platform: Platform, a: Seq<char>, b: Seq<char>, c: Seq<char>)
    ensures
        paths::same_path(platform, a, a),
        paths::same_path(platform, a, b) ==> paths::same_path(platform, b, a),
        paths::same_path(platform, a, b) && paths::same_path(platform, b, c) ==> paths::same_path(
            platform,
            a,
            c,
        ),
        paths::same_path(platform, a, b) ==> paths::component_count(platform, a)
            == paths::component_count(platform, b),
{
}

/// The program of the core: the preferred one first, then the two that are known, none twice.
pub proof fn law_core_names(preferred: Seq<char>)
    requires
        words::is_word(preferred),
    ensures
        process::core_names(None) == seq!["verge-mihomo"@, "verge-mihomo-alpha"@],
        preferred != "verge-mihomo"@ && preferred != "verge-mihomo-alpha"@ ==> process::core_names(
            Some(preferred),
        ) == seq![preferred, "verge-mihomo"@, "verge-mihomo-alpha"@],
        process::core_names(Some("verge-mihomo-alpha"@)) == seq![
            "verge-mihomo-alpha"@,
            "verge-mihomo"@,
        ],
{
    reveal_strlit("verge-mihomo");
    reveal_strlit("verge-mihomo-alpha");
    let x = "verge-mihomo"@;
    let y = "verge-mihomo-alpha"@;
    assert(x.len() == 12 && y.len() == 18);
    assert(preferred[0] == preferred[0] && !text::is_space(preferred[0]) && !text::is_space(
        preferred[preferred.len() - 1],
    ));
    words::law_trim_keeps(preferred);
    assert(y[0] == 'v' && y[17] == 'a');
    words::law_trim_keeps(y);
    assert(!Seq::<Seq<char>>::empty().contains(x));
    assert(seq![x][0] == x);
    assert(Seq::<Seq<char>>::empty().push(x) =~= seq![x]);
    assert(seq![x].push(y) =~= seq![x, y]);
    assert(seq![preferred].push(x) =~= seq![preferred, x]);
    assert(seq![preferred, x].push(y) =~= seq![preferred, x, y]);
    assert(seq![y].push(x) =~= seq![y, x]);
    assert(seq![y, x][0] == y);
    assert(seq![y, x].contains(y));
}

/// Outside Windows a program is looked for in each directory in turn, under its name.
pub proof fn law_search_in_turn(platform: Platform, dirs: Seq<Seq<char>>, name: Seq<char>, i: int)
    requires
        platform != Platform::Windows,
        0 <= i < dirs.len(),
    ensures
        process::search_places(dirs, name, platform).len() == dirs.len(),
        process::search_places(dirs, name, platform)[i] == paths::joined(platform, dirs[i], name),
    decreases dirs.len(),
{
    let front = dirs.drop_last();
    if i < front.len() {
        law_search_in_turn(platform, front, name, i);
        assert(front[i] == dirs[i]);
    } else if front.len() > 0 {
        law_search_in_turn(platform, front, name, 0);
    } else {
        assert(process::search_places(front, name, platform).len() == 0);
    }
}

/// On Windows it is looked for in each directory in turn with its three endings, and then without.
pub proof fn law_search_in_turn_on_windows(dirs: Seq<Seq<char>>, name: Seq<char>, i: int)
    requires
        0 <= i < dirs.len(),
    ensures
        ({
            let places = process::search_places(dirs, name, Platform::Windows);
            &&& places.len() == 4 * dirs.len()
            &&& places[4 * i] == paths::joined(Platform::Windows, dirs[i], name + ".exe"@)
            &&& places[4 * i + 1] == paths::joined(Platform::Windows, dirs[i], name + ".bat"@)
            &&& places[4 * i + 2] == paths::joined(Platform::Windows, dirs[i], name + ".cmd"@)
            &&& places[4 * i + 3] == paths::joined(Platform::Windows, dirs[i], name)
        }),
    decreases dirs.len(),
{
    let front = dirs.drop_last();
    if i < front.len() {
        law_search_in_turn_on_windows(front, name, i);
        assert(front[i] == dirs[i]);
    } else if front.len() > 0 {
        law_search_in_turn_on_windows(front, name, 0);
    } else {
        assert(process::search_places(front, name, Platform::Windows).len() == 0);
    }
}

/// The place that the user chose comes before all others, and the places of the first name before
/// those of the second. A name with a directory is looked for where it points, before the search.
pub proof fn law_order_of_places(
    dirs: Seq<Seq<char>>,
    a: Seq<char>,
    b: Seq<char>,
    chosen: Seq<char>,
    places: Seq<Seq<char>>,
    platform: Platform,
)
    ensures
        process::chosen_first(Some(chosen), places) == seq![chosen] + places,
        process::chosen_first(None, places) == places,
        process::places_of_all(dirs, seq![a, b], platform) == process::places_of(dirs, a, platform)
            + process::places_of(dirs, b, platform),
        paths::component_count(platform, a) > 1 ==> process::places_of(dirs, a, platform) == seq![
            a,
        ] + process::search_places(dirs, a, platform),
        paths::component_count(platform, a) <= 1 ==> process::places_of(dirs, a, platform)
            == process::search_places(dirs, a, platform),
{
    let one = seq![a];
    let two = seq![a, b];
    assert(two.drop_last() =~= one);
    assert(one.drop_last() =~= seq![]);
    reveal_with_fuel(process::places_of_all, 3);
    assert(process::places_of_all(dirs, one, platform) =~= process::places_of(dirs, a, platform));
}

/// The end of a log: its last lines, no more than asked for, each trimmed.
pub proof fn law_last_lines(content: Seq<char>, count: nat, k: int)
    ensures
        ({
            let lines = text::lines_of(content);
            let last = process::last_lines(content, count);
            &&& last.len() == if lines.len() < count {
                lines.len()
            } else {
                count
            }
            &&& 0 <= k < last.len() ==> last[last.len() - 1 - k] == text::trimmed(
                lines[lines.len() - 1 - k],
            )
        }),
{
}

/// What a command said: what it said of errors, or else what it said, or that it said nothing.
pub proof fn law_what_was_said(stdout: Seq<char>, stderr: Seq<char>)
    ensures
        text::trimmed(stderr).len() > 0 ==> process::said(stdout, stderr) == text::trimmed(stderr),
        text::trimmed(stderr).len() == 0 && text::trimmed(stdout).len() > 0 ==> process::said(
            stdout,
            stderr,
        ) == text::trimmed(stdout),
        text::trimmed(stderr).len() == 0 && text::trimmed(stdout).len() == 0 ==> process::said(
            stdout,
            stderr,
        ) == "no output"@,
{
}

/// A core has what the tunnel needs where both privileges are listed, in whatever case.
pub proof fn law_tun_privileges(listing: Seq<char>)
    ensures
        process::lists_tun_caps(listing) <==> text::has_text(
            text::lowered(listing),
            "cap_net_admin"@,
        ) && text::has_text(text::lowered(listing), "cap_net_raw"@),
        process::lists_tun_caps(listing) ==> process::lists_tun_caps(text::lowered(listing)),
{
    assert(text::lowered(text::lowered(listing)) =~= text::lowered(listing));
}

/// The file that keeps the process of the core names it, its socket and its configuration.
pub proof fn law_pid_file_lines(pid: nat, socket: Seq<char>, config: Seq<char>, seconds: nat)
    requires
        pid <= u32::MAX,
        !socket.contains('\n'),
        !config.contains('\n'),
        socket.len() > 0 ==> socket.last() != '\r',
        config.len() > 0 ==> config.last() != '\r',
    ensures
        ({
            let lines = text::lines_of(process::pid_file(pid, socket, config, seconds));
            &&& lines.len() >= 3
            &&& lines[0] == "pid="@ + number::dec(pid)
            &&& lines[1] == "socket="@ + socket
            &&& lines[2] == "config="@ + config
            &&& process::pid_in(lines) == Some(pid)
        }),
{
    reveal_strlit("pid=");
    reveal_strlit("\nsocket=");
    reveal_strlit("\nconfig=");
    reveal_strlit("\nupdated=");
    reveal_strlit("socket=");
    reveal_strlit("config=");
    let d = number::dec(pid);
    let l0 = "pid="@ + d;
    let l1 = "socket="@ + socket;
    let l2 = "config="@ + config;
    let tail = "updated="@ + crate::figures::time_of_day(seconds) + "\n"@;
    reveal_strlit("updated=");
    let all = process::pid_file(pid, socket, config, seconds);
    let r2 = l2 + seq!['\n'] + tail;
    let r1 = l1 + seq!['\n'] + r2;
    assert("\nsocket="@ =~= seq!['\n'] + "socket="@);
    assert("\nconfig="@ =~= seq!['\n'] + "config="@);
    assert("\nupdated="@ =~= seq!['\n'] + "updated="@);
    assert(all =~= l0 + seq!['\n'] + r1);
    number::lemma_dec_digits(pid);
    assert forall|i: int| 0 <= i < l0.len() implies l0[i] != '\n' && l0[i] != '\r' by {
        if i >= 4 {
            assert(l0[i] == d[i - 4]);
            assert(number::is_digit(d[i - 4]));
        }
    }
    assert forall|i: int| 0 <= i < l1.len() implies l1[i] != '\n' by {
        if i >= 7 {
            assert(l1[i] == socket[i - 7]);
            assert(socket.contains(socket[i - 7]));
        }
    }
    assert forall|i: int| 0 <= i < l2.len() implies l2[i] != '\n' by {
        if i >= 7 {
            assert(l2[i] == config[i - 7]);
            assert(config.contains(config[i - 7]));
        }
    }
    assert(l1.last() != '\r') by {
        if socket.len() > 0 {
            assert(l1.last() == socket.last());
        }
    }
    assert(l2.last() != '\r') by {
        if config.len() > 0 {
            assert(l2.last() == config.last());
        }
    }
    assert(l0.last() != '\r');
    words::law_first_line(l0, r1);
    words::law_first_line(l1, r2);
    words::law_first_line(l2, tail);
    let lines = text::lines_of(all);
    assert(lines[0] == l0);
    assert(text::lines_of(r1)[0] == l1);
    assert(lines[1] == l1);
    assert(lines[2] == l2);
    assert(number::is_digit(d[d.len() - 1]));
    assert(l0.last() == d[d.len() - 1]);
    assert(l0[0] == 'p');
    words::law_trim_keeps(l0);
    assert(l0.subrange(0, 4) =~= "pid="@);
    assert(l0.skip(4) =~= d);
    number::law_numeral_round_trip(pid, u32::MAX as nat);
}

/// Whether a text is a plain name on Windows.
pub open spec fn is_windows_name(name: Seq<char>) -> bool {
    &&& name.len() > 0
    &&& forall|i: int|
        0 <= i < name.len() ==> #[trigger] name[i] != '/' && name[i] != '\\' && name[i] != ':'
    &&& name != seq!['.']
    &&& name != seq!['.', '.']
}

proof fn lemma_next_separator(s: Seq<char>, i: int, j: int, style: paths::Separators)
    requires
        0 <= i <= j <= s.len(),
        forall|k: int| i <= k < j ==> !paths::is_separator(style, #[trigger] s[k]),
        j < s.len() ==> paths::is_separator(style, s[j]),
    ensures
        paths::next_separator(s, i, style) == j,
    decreases j - i,
{
    if i < j {
        assert(!paths::is_separator(style, s[i]));
        lemma_next_separator(s, i + 1, j, style);
    }
}

/// A share is a prefix with two names. A name is put behind it as behind a drive, and one that
/// starts with a separator keeps the share alone.
pub proof fn law_shares(server: Seq<char>, share: Seq<char>, rest: Seq<char>, name: Seq<char>)
    requires
        is_windows_name(server),
        server[0] != '?' && server[0] != '.',
        is_windows_name(share),
        rest.len() > 0,
        rest[0] == '\\',
        is_windows_name(name),
    ensures
        ({
            let top = seq!['\\', '\\'] + server + seq!['\\'] + share;
            let p = paths::prefix_of(Platform::Windows, top + rest);
            &&& p.kind == PrefixKind::Share
            &&& p.first == server && p.second == share && p.len == top.len()
            &&& paths::joined(Platform::Windows, top + rest, seq!['\\'] + name) == top + (seq![
                '\\',
            ] + name)
            &&& rest.last() != '\\' && rest.last() != '/' ==> paths::joined(
                Platform::Windows,
                top + rest,
                name,
            ) == top + rest + seq!['\\'] + name
        }),
{
    let top = seq!['\\', '\\'] + server + seq!['\\'] + share;
    let s = top + rest;
    let both = paths::Separators::Both;
    let a = 2 + server.len() as int;
    let b = a + 1 + share.len();
    assert(s[0] == '\\' && s[1] == '\\' && s[2] == server[0]);
    assert forall|k: int| 2 <= k < a implies !paths::is_separator(both, #[trigger] s[k]) by {
        assert(s[k] == server[k - 2]);
    }
    assert(s[a] == '\\');
    assert forall|k: int| a + 1 <= k < b implies !paths::is_separator(both, #[trigger] s[k]) by {
        assert(s[k] == share[k - a - 1]);
    }
    assert(s[b] == rest[0]);
    lemma_next_separator(s, 2, a, both);
    lemma_next_separator(s, a + 1, b, both);
    assert(s.subrange(2, a) =~= server);
    assert(s.subrange(a + 1, b) =~= share);
    assert(s.take(b) =~= top);
    assert(s.last() == rest.last());
    let n = seq!['\\'] + name;
    assert(n[0] == '\\' && n[1] == name[0]);
    reveal_strlit("\\");
    assert("\\"@ =~= seq!['\\']);
    if name.len() > 1 {
        assert(name[1] != ':');
        assert(n[2] == name[1]);
    }
    assert(name[0] != '/' && name[0] != '\\');
    assert(paths::prefix_of(Platform::Windows, name).kind == PrefixKind::Nothing);
    assert(paths::prefix_of(Platform::Windows, n).kind == PrefixKind::Nothing);
}

proof fn lemma_one_name(name: Seq<char>, style: paths::Separators)
    requires
        is_windows_name(name),
        style != paths::Separators::Slash,
    ensures
        paths::counted(paths::pieces(name, style), style, false) == seq![name],
        paths::counted(paths::pieces(name, style), style, true) == seq![name],
{
    reveal_strlit(".");
    assert("."@ =~= seq!['.']);
    assert(paths::unified(name) =~= name);
    assert forall|i: int| 0 <= i < name.len() implies name[i] != '\\' by {}
    words::lemma_parts(name, '\\', seq![]);
    let one = seq![name];
    assert(one.drop_last() =~= seq![]);
    reveal_with_fuel(paths::counted, 3);
    assert(Seq::<Seq<char>>::empty().push(name) =~= one);
}

/// A path that is taken word for word is written anew with a name behind it, and `..` leads back.
pub proof fn law_word_for_word(drive: char, a: Seq<char>, b: Seq<char>)
    requires
        'a' <= drive <= 'z' || 'A' <= drive <= 'Z',
        is_windows_name(a),
        is_windows_name(b),
    ensures
        ({
            let top = seq!['\\', '\\', '?', '\\', drive, ':'];
            let dir = top + seq!['\\'] + a;
            &&& paths::prefix_of(Platform::Windows, dir).kind == PrefixKind::VerbatimDisk
            &&& paths::joined(Platform::Windows, dir, b) == top + seq!['\\'] + (a + seq!['\\'] + b)
            &&& paths::joined(Platform::Windows, dir, seq!['.', '.']) == top + seq!['\\']
            &&& paths::joined(Platform::Windows, dir, seq!['\\'] + b) == top + seq!['\\'] + b
        }),
{
    let top = seq!['\\', '\\', '?', '\\', drive, ':'];
    let dir = top + seq!['\\'] + a;
    let up = seq!['.', '.'];
    let at_root = seq!['\\'] + b;
    assert(dir[0] == '\\' && dir[1] == '\\' && dir[2] == '?' && dir[3] == '\\');
    assert(dir[4] == drive && dir[5] == ':' && dir[6] == '\\');
    assert(dir.take(6) =~= top);
    assert(dir.skip(7) =~= a);
    lemma_one_name(a, paths::Separators::Backslash);
    lemma_one_name(b, paths::Separators::Both);
    assert(b[0] != '/' && b[0] != '\\');
    if b.len() > 1 {
        assert(b[1] != ':');
    }
    assert(b.skip(0) =~= b);
    assert(at_root[0] == '\\' && at_root[1] == b[0]);
    assert(at_root.skip(1) =~= b);
    assert(up.skip(0) =~= up);
    reveal_strlit(".");
    reveal_strlit("..");
    reveal_strlit("\\");
    assert("."@ =~= seq!['.']);
    assert(".."@ =~= up);
    assert("."@.len() == 1 && ".."@.len() == 2);
    assert("\\"@ =~= seq!['\\']);
    assert(paths::unified(up) =~= up);
    words::lemma_parts(up, '\\', seq![]);
    let ups = seq![up];
    let bs = seq![b];
    assert(ups.drop_last() =~= seq![]);
    assert(bs.drop_last() =~= seq![]);
    reveal_with_fuel(paths::counted, 3);
    assert(Seq::<Seq<char>>::empty().push(up) =~= ups);
    reveal_with_fuel(paths::walked, 3);
    assert(seq![a].push(b) =~= seq![a, b]);
    assert(seq![a].drop_last() =~= seq![]);
    assert(Seq::<Seq<char>>::empty().push(b) =~= bs);
    assert(seq![a, b].drop_last() =~= seq![a]);
    reveal_with_fuel(paths::glued, 3);
    assert(top + seq!['\\'] + seq![] =~= top + seq!['\\']);
}

/// On Windows both separators are the same, and so are the two cases of a drive.
pub proof fn law_same_on_windows(drive: char, a: Seq<char>, b: Seq<char>)
    requires
        'a' <= drive <= 'z',
        is_windows_name(a),
        is_windows_name(b),
    ensures
        paths::same_path(Platform::Windows, a + seq!['/'] + b, a + seq!['\\'] + b),
        paths::same_path(
            Platform::Windows,
            seq![drive, ':'] + b,
            seq![text::upper(drive), ':'] + b,
        ),
{
    let x = a + seq!['/'] + b;
    let y = a + seq!['\\'] + b;
    assert(x[0] == a[0] && y[0] == a[0]);
    assert(a[0] != '/' && a[0] != '\\');
    if a.len() > 1 {
        assert(x[1] == a[1] && y[1] == a[1] && a[1] != ':');
    } else {
        assert(x[1] == '/' && y[1] == '\\');
    }
    assert(x.skip(0) =~= x && y.skip(0) =~= y);
    assert(paths::unified(x) =~= paths::unified(y));
    let d = seq![drive, ':'] + b;
    let e = seq![text::upper(drive), ':'] + b;
    assert(d[0] == drive && d[1] == ':' && d[2] == b[0]);
    assert(e[0] == text::upper(drive) && e[1] == ':' && e[2] == b[0]);
    assert(b[0] != '/' && b[0] != '\\');
    assert(d.skip(2) =~= b && e.skip(2) =~= b);
    assert(text::upper(text::upper(drive)) == text::upper(drive));
}

/// A `.` behind a drive names nothing: alone it is the drive, and before a name it may be left out.
pub proof fn law_dot_behind_drive(drive: char, name: Seq<char>)
    requires
        'a' <= drive <= 'z' || 'A' <= drive <= 'Z',
        is_windows_name(name),
        name.last() != '.',
    ensures
        paths::component_count(Platform::Windows, seq![drive, ':', '.']) == 1,
        paths::parent_of(Platform::Windows, seq![drive, ':', '.']) is None,
        paths::same_path(
            Platform::Windows,
            seq![drive, ':', '.', '\\'] + name,
            seq![drive, ':'] + name,
        ),
        paths::component_count(Platform::Windows, seq![drive, ':'] + name) == 2,
{
    let dot = seq![drive, ':', '.'];
    let long = seq![drive, ':', '.', '\\'] + name;
    let short = seq![drive, ':'] + name;
    reveal_strlit(".");
    assert("."@ =~= seq!['.']);
    let one = seq!['.'];
    assert(dot[0] == drive && dot[1] == ':' && dot[2] == '.');
    assert(dot.skip(2) =~= one);
    assert(paths::unified(one) =~= one);
    words::lemma_parts(one, '\\', name);
    assert(seq![one].drop_last() =~= seq![]);
    reveal_with_fuel(paths::counted, 4);
    assert(paths::tidy_end(dot, 3, paths::Separators::Both) == dot);
    lemma_one_name(name, paths::Separators::Both);
    assert(short[0] == drive && short[1] == ':' && short[2] == name[0]);
    assert(name[0] != '/' && name[0] != '\\');
    assert(short.skip(2) =~= name);
    assert(long[0] == drive && long[1] == ':' && long[2] == '.');
    let tail = one + seq!['\\'] + name;
    assert(long.skip(2) =~= tail);
    assert(paths::unified(tail) =~= tail) by {
        assert forall|i: int| 0 <= i < tail.len() implies tail[i] != '/' by {
            if i >= 2 {
                assert(tail[i] == name[i - 2]);
            }
        }
    }
    assert(paths::unified(name) =~= name);
    words::lemma_parts(name, '\\', seq![]);
    assert(text::parts_of(tail, '\\') =~= seq![one, name]);
    assert(seq![one, name].drop_last() =~= seq![one]);
    assert(Seq::<Seq<char>>::empty().push(name) =~= seq![name]);
}

} // verus!
