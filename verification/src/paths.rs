//! File paths as text, read as the system reads them.

use crate::config::Platform;
use crate::text;
use vstd::prelude::*;

verus! {

/// The characters that separate the parts of a path.
#[derive(Debug, Clone, Copy, PartialEq, Eq, Structural)]
pub enum Separators {
    Slash,
    Both,
    Backslash,
}

pub open spec fn is_separator(style: Separators, c: char) -> bool {
    match style {
        Separators::Slash => c == '/',
        Separators::Both => c == '/' || c == '\\',
        Separators::Backslash => c == '\\',
    }
}

fn separates(style: Separators, c: char) -> (r: bool)
    ensures
        r == is_separator(style, c),
{
    match style {
        Separators::Slash => c == '/',
        Separators::Both => c == '/' || c == '\\',
        Separators::Backslash => c == '\\',
    }
}

/// What a path of Windows may start with: a drive (`C:`), a share (`\\server\share`), a device
/// (`\\.\name`), and the same taken word for word (`\\?\`).
#[derive(Debug, Clone, Copy, PartialEq, Eq, Structural)]
pub enum PrefixKind {
    Nothing,
    Disk,
    Share,
    Device,
    Verbatim,
    VerbatimShare,
    VerbatimDisk,
}

pub open spec fn is_verbatim(kind: PrefixKind) -> bool {
    kind == PrefixKind::Verbatim || kind == PrefixKind::VerbatimShare || kind
        == PrefixKind::VerbatimDisk
}

/// How the parts behind a prefix are separated.
pub open spec fn style_of(platform: Platform, kind: PrefixKind) -> Separators {
    if platform != Platform::Windows {
        Separators::Slash
    } else if is_verbatim(kind) {
        Separators::Backslash
    } else {
        Separators::Both
    }
}

/// The separators that may open the part behind a prefix.
pub open spec fn root_style(platform: Platform) -> Separators {
    if platform == Platform::Windows {
        Separators::Both
    } else {
        Separators::Slash
    }
}

/// A prefix: its kind, its names, and how many characters it takes.
pub struct PrefixModel {
    pub kind: PrefixKind,
    pub first: Seq<char>,
    pub second: Seq<char>,
    pub len: int,
}

/// Where the first separator stands at or after `i`; the length when there is none.
pub open spec fn next_separator(s: Seq<char>, i: int, style: Separators) -> int
    decreases s.len() - i,
{
    if i >= s.len() || is_separator(style, s[i]) {
        i
    } else {
        next_separator(s, i + 1, style)
    }
}

pub open spec fn is_letter(c: char) -> bool {
    'a' <= c <= 'z' || 'A' <= c <= 'Z'
}

/// A prefix with one name, which starts at `at`.
pub open spec fn named_prefix(
    s: Seq<char>,
    kind: PrefixKind,
    at: int,
    style: Separators,
) -> PrefixModel {
    let end = next_separator(s, at, style);
    PrefixModel { kind, first: s.subrange(at, end), second: seq![], len: end }
}

/// A prefix with two names, the first of which starts at `at`.
pub open spec fn share_prefix(
    s: Seq<char>,
    kind: PrefixKind,
    at: int,
    style: Separators,
) -> PrefixModel {
    let end = next_separator(s, at, style);
    let next = next_separator(s, end + 1, style);
    if end + 1 < s.len() && next > end + 1 {
        PrefixModel {
            kind,
            first: s.subrange(at, end),
            second: s.subrange(end + 1, next),
            len: next,
        }
    } else {
        PrefixModel { kind, first: s.subrange(at, end), second: seq![], len: end }
    }
}

pub open spec fn no_prefix() -> PrefixModel {
    PrefixModel { kind: PrefixKind::Nothing, first: seq![], second: seq![], len: 0 }
}

/// The prefix of a path of Windows.
pub open spec fn windows_prefix(s: Seq<char>) -> PrefixModel {
    let both = Separators::Both;
    if s.len() >= 2 && is_separator(both, s[0]) && is_separator(both, s[1]) {
        if s.len() >= 4 && s[0] == '\\' && s[1] == '\\' && s[2] == '?' && s[3] == '\\' {
            if s.len() >= 8 && s[4] == 'U' && s[5] == 'N' && s[6] == 'C' && is_separator(
                both,
                s[7],
            ) {
                share_prefix(s, PrefixKind::VerbatimShare, 8, Separators::Backslash)
            } else if s.len() >= 6 && is_letter(s[4]) && s[5] == ':' && (s.len() == 6
                || is_separator(both, s[6])) {
                PrefixModel {
                    kind: PrefixKind::VerbatimDisk,
                    first: seq![text::upper(s[4])],
                    second: seq![],
                    len: 6,
                }
            } else {
                named_prefix(s, PrefixKind::Verbatim, 4, Separators::Backslash)
            }
        } else if s.len() >= 4 && s[2] == '.' && is_separator(both, s[3]) {
            named_prefix(s, PrefixKind::Device, 4, both)
        } else {
            let p = share_prefix(s, PrefixKind::Share, 2, both);
            if p.first.len() > 0 && p.second.len() > 0 {
                p
            } else {
                no_prefix()
            }
        }
    } else if s.len() >= 2 && is_letter(s[0]) && s[1] == ':' {
        PrefixModel {
            kind: PrefixKind::Disk,
            first: seq![text::upper(s[0])],
            second: seq![],
            len: 2,
        }
    } else {
        no_prefix()
    }
}

pub open spec fn prefix_of(platform: Platform, s: Seq<char>) -> PrefixModel {
    if platform == Platform::Windows {
        windows_prefix(s)
    } else {
        no_prefix()
    }
}

struct Prefix {
    kind: PrefixKind,
    first: String,
    second: String,
    len: usize,
}

impl View for Prefix {
    type V = PrefixModel;

    closed spec fn view(&self) -> PrefixModel {
        PrefixModel {
            kind: self.kind,
            first: self.first@,
            second: self.second@,
            len: self.len as int,
        }
    }
}

proof fn lemma_next_separator(s: Seq<char>, i: int, style: Separators)
    requires
        0 <= i <= s.len(),
    ensures
        i <= next_separator(s, i, style) <= s.len(),
    decreases s.len() - i,
{
    if i < s.len() && !is_separator(style, s[i]) {
        lemma_next_separator(s, i + 1, style);
    }
}

proof fn lemma_prefix_fits(platform: Platform, s: Seq<char>)
    ensures
        0 <= prefix_of(platform, s).len <= s.len(),
{
    let both = Separators::Both;
    let back = Separators::Backslash;
    if s.len() >= 8 {
        lemma_next_separator(s, 8, back);
        let e = next_separator(s, 8, back);
        if e + 1 <= s.len() {
            lemma_next_separator(s, e + 1, back);
        }
    }
    if s.len() >= 4 {
        lemma_next_separator(s, 4, back);
        lemma_next_separator(s, 4, both);
    }
    if s.len() >= 2 {
        lemma_next_separator(s, 2, both);
        let e = next_separator(s, 2, both);
        if e + 1 <= s.len() {
            lemma_next_separator(s, e + 1, both);
        }
    }
}

fn separator_from(v: &Vec<char>, from: usize, style: Separators) -> (r: usize)
    requires
        from <= v@.len(),
    ensures
        r == next_separator(v@, from as int, style),
        from <= r <= v@.len(),
{
    let mut i: usize = from;
    while i < v.len() && !separates(style, v[i])
        invariant
            from <= i <= v@.len(),
            next_separator(v@, from as int, style) == next_separator(v@, i as int, style),
        decreases v@.len() - i,
    {
        i = i + 1;
    }
    i
}

fn no_text() -> (r: String)
    ensures
        r@ == Seq::<char>::empty(),
{
    let r = String::new();
    assert(r@ =~= Seq::<char>::empty());
    r
}

fn read_named(v: &Vec<char>, kind: PrefixKind, at: usize, style: Separators) -> (r: Prefix)
    requires
        at <= v@.len(),
    ensures
        r@ == named_prefix(v@, kind, at as int, style),
{
    let end = separator_from(v, at, style);
    Prefix { kind, first: text::from_chars(v, at, end), second: no_text(), len: end }
}

fn read_share(v: &Vec<char>, kind: PrefixKind, at: usize, style: Separators) -> (r: Prefix)
    requires
        at <= v@.len(),
    ensures
        r@ == share_prefix(v@, kind, at as int, style),
{
    let end = separator_from(v, at, style);
    let first = text::from_chars(v, at, end);
    if end < v.len() && end + 1 < v.len() {
        let next = separator_from(v, end + 1, style);
        if next > end + 1 {
            return Prefix { kind, first, second: text::from_chars(v, end + 1, next), len: next };
        }
    }
    Prefix { kind, first, second: no_text(), len: end }
}

fn letter(c: char) -> (r: bool)
    ensures
        r == is_letter(c),
{
    ('a' <= c && c <= 'z') || ('A' <= c && c <= 'Z')
}

/// A prefix that is the drive whose letter stands at `at`.
fn read_drive(v: &Vec<char>, kind: PrefixKind, at: usize, len: usize) -> (r: Prefix)
    requires
        at < v@.len(),
    ensures
        r@ == (PrefixModel {
            kind,
            first: seq![text::upper(v@[at as int])],
            second: seq![],
            len: len as int,
        }),
{
    let c = v[at];
    let up: char = if 'a' <= c && c <= 'z' {
        (c as u8 - 32) as char
    } else {
        c
    };
    let mut first = String::new();
    first.push(up);
    assert(first@ =~= seq![text::upper(c)]);
    Prefix { kind, first, second: no_text(), len }
}

fn read_nothing() -> (r: Prefix)
    ensures
        r@ == no_prefix(),
{
    Prefix { kind: PrefixKind::Nothing, first: no_text(), second: no_text(), len: 0 }
}

fn read_windows_prefix(v: &Vec<char>) -> (r: Prefix)
    ensures
        r@ == windows_prefix(v@),
{
    let both = Separators::Both;
    let n: usize = v.len();
    if n >= 2 && separates(both, v[0]) && separates(both, v[1]) {
        if n >= 4 && v[0] == '\\' && v[1] == '\\' && v[2] == '?' && v[3] == '\\' {
            if n >= 8 && v[4] == 'U' && v[5] == 'N' && v[6] == 'C' && separates(both, v[7]) {
                return read_share(v, PrefixKind::VerbatimShare, 8, Separators::Backslash);
            }
            if n >= 6 && letter(v[4]) && v[5] == ':' && (n == 6 || separates(both, v[6])) {
                return read_drive(v, PrefixKind::VerbatimDisk, 4, 6);
            }
            return read_named(v, PrefixKind::Verbatim, 4, Separators::Backslash);
        }
        if n >= 4 && v[2] == '.' && separates(both, v[3]) {
            return read_named(v, PrefixKind::Device, 4, both);
        }
        let p = read_share(v, PrefixKind::Share, 2, both);
        if !p.first.as_str().is_empty() && !p.second.as_str().is_empty() {
            return p;
        }
        return read_nothing();
    }
    if n >= 2 && letter(v[0]) && v[1] == ':' {
        return read_drive(v, PrefixKind::Disk, 0, 2);
    }
    read_nothing()
}

fn read_prefix(platform: Platform, v: &Vec<char>) -> (r: Prefix)
    ensures
        r@ == prefix_of(platform, v@),
        r.len <= v@.len(),
{
    proof {
        lemma_prefix_fits(platform, v@);
    }
    if platform == Platform::Windows {
        read_windows_prefix(v)
    } else {
        read_nothing()
    }
}

fn style(platform: Platform, kind: PrefixKind) -> (r: Separators)
    ensures
        r == style_of(platform, kind),
{
    if platform != Platform::Windows {
        Separators::Slash
    } else if verbatim(kind) {
        Separators::Backslash
    } else {
        Separators::Both
    }
}

fn verbatim(kind: PrefixKind) -> (r: bool)
    ensures
        r == is_verbatim(kind),
{
    kind == PrefixKind::Verbatim || kind == PrefixKind::VerbatimShare || kind
        == PrefixKind::VerbatimDisk
}

fn opening(platform: Platform) -> (r: Separators)
    ensures
        r == root_style(platform),
{
    if platform == Platform::Windows {
        Separators::Both
    } else {
        Separators::Slash
    }
}

/// A path taken apart: its prefix, whether it starts at the root, and its names.
pub struct PathModel {
    pub kind: PrefixKind,
    pub first: Seq<char>,
    pub second: Seq<char>,
    pub root: bool,
    pub names: Seq<Seq<char>>,
}

/// A path with one kind of separator.
pub open spec fn unified(s: Seq<char>) -> Seq<char> {
    s.map_values(
        |c: char|
            if c == '/' {
                '\\'
            } else {
                c
            },
    )
}

/// What stands between the separators.
pub open spec fn pieces(s: Seq<char>, style: Separators) -> Seq<Seq<char>> {
    match style {
        Separators::Slash => text::parts_of(s, '/'),
        Separators::Both => text::parts_of(unified(s), '\\'),
        Separators::Backslash => text::parts_of(s, '\\'),
    }
}

/// The pieces that count: all but the empty ones and, unless the path is taken word for word, the
/// pieces `.`. One that leads a path without a prefix or a root counts too.
pub open spec fn counted(parts: Seq<Seq<char>>, style: Separators, leads: bool) -> Seq<Seq<char>>
    decreases parts.len(),
{
    if parts.len() == 0 {
        seq![]
    } else {
        let p = parts.last();
        let rest = counted(parts.drop_last(), style, leads);
        if p.len() > 0 && (p != "."@ || style == Separators::Backslash || (leads && parts.len()
            == 1)) {
            rest.push(p)
        } else {
            rest
        }
    }
}

/// Whether a separator stands behind the prefix.
pub open spec fn opens_at_root(platform: Platform, s: Seq<char>) -> bool {
    let n = prefix_of(platform, s).len;
    n < s.len() && is_separator(root_style(platform), s[n])
}

/// How many characters the prefix and the root take.
pub open spec fn head_len(platform: Platform, s: Seq<char>) -> int {
    prefix_of(platform, s).len + if opens_at_root(platform, s) {
        1int
    } else {
        0int
    }
}

pub open spec fn path_model(platform: Platform, s: Seq<char>) -> PathModel {
    let p = prefix_of(platform, s);
    let style = style_of(platform, p.kind);
    let leads = !opens_at_root(platform, s) && p.kind == PrefixKind::Nothing;
    PathModel {
        kind: p.kind,
        first: p.first,
        second: p.second,
        root: opens_at_root(platform, s) || p.kind == PrefixKind::Share || p.kind
            == PrefixKind::Device,
        names: counted(pieces(s.skip(head_len(platform, s)), style), style, leads),
    }
}

pub struct PathParts {
    pub kind: PrefixKind,
    pub first: String,
    pub second: String,
    pub root: bool,
    pub names: Vec<String>,
}

impl View for PathParts {
    type V = PathModel;

    open spec fn view(&self) -> PathModel {
        PathModel {
            kind: self.kind,
            first: self.first@,
            second: self.second@,
            root: self.root,
            names: text::texts(self.names@),
        }
    }
}

fn unify(v: &Vec<char>, from: usize) -> (r: String)
    requires
        from <= v@.len(),
    ensures
        r@ == unified(v@.skip(from as int)),
{
    let ghost s = v@.skip(from as int);
    let mut r = String::new();
    let mut i: usize = from;
    assert(r@ =~= unified(s).take(0));
    while i < v.len()
        invariant
            from <= i <= v@.len(),
            s == v@.skip(from as int),
            r@ == unified(s).take(i - from),
        decreases v@.len() - i,
    {
        let c = v[i];
        if c == '/' {
            r.push('\\');
        } else {
            r.push(c);
        }
        assert(s[i - from] == c);
        assert(unified(s).take(i + 1 - from) =~= unified(s).take(i - from).push(
            unified(s)[i - from],
        ));
        i = i + 1;
    }
    assert(unified(s).take(i - from) =~= unified(s));
    r
}

fn read_pieces(v: &Vec<char>, from: usize, style: Separators) -> (r: Vec<String>)
    requires
        from <= v@.len(),
    ensures
        text::texts(r@) == pieces(v@.skip(from as int), style),
{
    assert(v@.subrange(from as int, v@.len() as int) =~= v@.skip(from as int));
    match style {
        Separators::Slash => text::split_on(text::from_chars(v, from, v.len()).as_str(), '/'),
        Separators::Both => text::split_on(unify(v, from).as_str(), '\\'),
        Separators::Backslash => text::split_on(text::from_chars(v, from, v.len()).as_str(), '\\'),
    }
}

fn keep_counted(parts: &Vec<String>, style: Separators, leads: bool) -> (r: Vec<String>)
    ensures
        text::texts(r@) == counted(text::texts(parts@), style, leads),
{
    let ghost all = text::texts(parts@);
    let mut r: Vec<String> = Vec::new();
    let mut i: usize = 0;
    assert(text::texts(r@) =~= counted(all.take(0), style, leads));
    while i < parts.len()
        invariant
            i <= parts@.len(),
            all == text::texts(parts@),
            text::texts(r@) == counted(all.take(i as int), style, leads),
        decreases parts@.len() - i,
    {
        let ghost before = text::texts(r@);
        let p = parts[i].as_str();
        assert(all.take(i + 1).drop_last() =~= all.take(i as int));
        assert(all.take(i + 1).last() == p@);
        if !p.is_empty() && (!text::same(p, ".") || style == Separators::Backslash || (leads && i
            == 0)) {
            r.push(parts[i].clone());
            assert(text::texts(r@) =~= before.push(p@));
        }
        i = i + 1;
    }
    assert(all.take(i as int) =~= all);
    r
}

fn at_root(platform: Platform, v: &Vec<char>, prefix: usize) -> (r: bool)
    requires
        prefix == prefix_of(platform, v@).len,
        prefix <= v@.len(),
    ensures
        r == opens_at_root(platform, v@),
        r ==> prefix < v.len(),
{
    prefix < v.len() && separates(opening(platform), v[prefix])
}

/// Takes a path apart.
pub fn split_path(platform: Platform, s: &str) -> (r: PathParts)
    ensures
        r@ == path_model(platform, s@),
{
    let v = text::to_chars(s);
    let p = read_prefix(platform, &v);
    let rooted = at_root(platform, &v, p.len);
    let head: usize = if rooted {
        p.len + 1
    } else {
        p.len
    };
    let style = style(platform, p.kind);
    let leads = !rooted && p.kind == PrefixKind::Nothing;
    let parts = read_pieces(&v, head, style);
    PathParts {
        kind: p.kind,
        first: p.first,
        second: p.second,
        root: rooted || p.kind == PrefixKind::Share || p.kind == PrefixKind::Device,
        names: keep_counted(&parts, style, leads),
    }
}

/// The number of components of a path: its prefix, its root and its names.
pub open spec fn component_count(platform: Platform, s: Seq<char>) -> nat {
    let m = path_model(platform, s);
    m.names.len() + (if m.root {
        1nat
    } else {
        0nat
    }) + (if m.kind != PrefixKind::Nothing {
        1nat
    } else {
        0nat
    })
}

/// Whether a path has more than one component.
pub fn has_directory(platform: Platform, s: &str) -> (r: bool)
    ensures
        r == (component_count(platform, s@) > 1),
{
    let p = split_path(platform, s);
    let mut spare: usize = 1;
    if p.root {
        spare = 0;
    }
    if p.kind != PrefixKind::Nothing {
        if spare == 0 {
            return true;
        }
        spare = 0;
    }
    p.names.len() > spare
}

/// Whether two paths name the same components.
pub open spec fn same_path(platform: Platform, a: Seq<char>, b: Seq<char>) -> bool {
    path_model(platform, a) == path_model(platform, b)
}

fn same_names(a: &Vec<String>, b: &Vec<String>) -> (r: bool)
    ensures
        r == (text::texts(a@) == text::texts(b@)),
{
    let ghost x = text::texts(a@);
    let ghost y = text::texts(b@);
    if a.len() != b.len() {
        assert(x.len() != y.len());
        return false;
    }
    let mut i: usize = 0;
    while i < a.len()
        invariant
            i <= a@.len(),
            a@.len() == b@.len(),
            x == text::texts(a@),
            y == text::texts(b@),
            forall|k: int| 0 <= k < i ==> #[trigger] x[k] == y[k],
        decreases a@.len() - i,
    {
        if !text::same(a[i].as_str(), b[i].as_str()) {
            assert(x[i as int] != y[i as int]);
            return false;
        }
        assert(x[i as int] == y[i as int]);
        i = i + 1;
    }
    assert(x =~= y);
    true
}

pub fn is_same_path(platform: Platform, a: &str, b: &str) -> (r: bool)
    ensures
        r == same_path(platform, a@, b@),
{
    let x = split_path(platform, a);
    let y = split_path(platform, b);
    x.kind == y.kind && text::same(x.first.as_str(), y.first.as_str()) && text::same(
        x.second.as_str(),
        y.second.as_str(),
    ) && x.root == y.root && same_names(&x.names, &y.names)
}

/// Names after a walk along more names: `.` stays, and `..` leaves a name.
pub open spec fn walked(names: Seq<Seq<char>>, more: Seq<Seq<char>>) -> Seq<Seq<char>>
    decreases more.len(),
{
    if more.len() == 0 {
        names
    } else {
        let before = walked(names, more.drop_last());
        let c = more.last();
        if c == "."@ {
            before
        } else if c == ".."@ {
            if before.len() > 0 && before.last() != "."@ && before.last() != ".."@ {
                before.drop_last()
            } else {
                before
            }
        } else {
            before.push(c)
        }
    }
}

/// Names with a backslash between them.
pub open spec fn glued(names: Seq<Seq<char>>) -> Seq<char>
    decreases names.len(),
{
    if names.len() == 0 {
        seq![]
    } else if names.len() == 1 {
        names[0]
    } else {
        glued(names.drop_last()) + "\\"@ + names.last()
    }
}

/// The path of `name` below a path that is taken word for word: written anew.
pub open spec fn verbatim_joined(base: Seq<char>, name: Seq<char>) -> Seq<char> {
    let b = path_model(Platform::Windows, base);
    let n = path_model(Platform::Windows, name);
    let names = walked(
        if n.root {
            seq![]
        } else {
            b.names
        },
        n.names,
    );
    let prefix = base.take(windows_prefix(base).len);
    if b.root || n.root || names.len() > 0 {
        prefix + "\\"@ + glued(names)
    } else {
        prefix
    }
}

/// Whether a separator is needed behind a directory: not behind another one, nor behind a drive
/// alone.
pub open spec fn needs_separator(platform: Platform, base: Seq<char>) -> bool {
    &&& base.len() > 0
    &&& !is_separator(root_style(platform), base.last())
    &&& !(prefix_of(platform, base).kind == PrefixKind::Disk && base.len() == 2)
}

pub open spec fn main_separator(platform: Platform) -> Seq<char> {
    if platform == Platform::Windows {
        "\\"@
    } else {
        "/"@
    }
}

/// The path of `name` in the directory `base`. A name with a prefix stands for itself; one that
/// starts at the root keeps the prefix of the directory alone.
pub open spec fn joined(platform: Platform, base: Seq<char>, name: Seq<char>) -> Seq<char> {
    let b = prefix_of(platform, base);
    if prefix_of(platform, name).kind != PrefixKind::Nothing {
        name
    } else if is_verbatim(b.kind) && name.len() > 0 {
        verbatim_joined(base, name)
    } else if opens_at_root(platform, name) {
        base.take(b.len) + name
    } else if needs_separator(platform, base) {
        base + main_separator(platform) + name
    } else {
        base + name
    }
}

fn walk(names: Vec<String>, more: &Vec<String>) -> (r: Vec<String>)
    ensures
        text::texts(r@) == walked(text::texts(names@), text::texts(more@)),
{
    let ghost start = text::texts(names@);
    let ghost all = text::texts(more@);
    let mut r = names;
    let mut i: usize = 0;
    assert(all.take(0) =~= seq![]);
    while i < more.len()
        invariant
            i <= more@.len(),
            all == text::texts(more@),
            text::texts(r@) == walked(start, all.take(i as int)),
        decreases more@.len() - i,
    {
        let ghost before = text::texts(r@);
        let c = more[i].as_str();
        assert(all.take(i + 1).drop_last() =~= all.take(i as int));
        assert(all.take(i + 1).last() == c@);
        if text::same(c, ".") {
        } else if text::same(c, "..") {
            if r.len() > 0 {
                assert(before.last() == r@.last()@);
                let last = r[r.len() - 1].as_str();
                if !text::same(last, ".") && !text::same(last, "..") {
                    let _ = r.pop();
                    assert(text::texts(r@) =~= before.drop_last());
                }
            }
        } else {
            r.push(more[i].clone());
            assert(text::texts(r@) =~= before.push(c@));
        }
        i = i + 1;
    }
    assert(all.take(i as int) =~= all);
    r
}

fn glue(names: &Vec<String>) -> (r: String)
    ensures
        r@ == glued(text::texts(names@)),
{
    let ghost all = text::texts(names@);
    if names.len() == 0 {
        return no_text();
    }
    let mut r = names[0].clone();
    let mut i: usize = 1;
    assert(all.take(1)[0] == names@[0]@);
    while i < names.len()
        invariant
            1 <= i <= names@.len(),
            all == text::texts(names@),
            r@ == glued(all.take(i as int)),
        decreases names@.len() - i,
    {
        assert(all.take(i + 1).drop_last() =~= all.take(i as int));
        assert(all.take(i + 1).last() == names@[i as int]@);
        r = text::cat3(r.as_str(), "\\", names[i].as_str());
        i = i + 1;
    }
    assert(all.take(i as int) =~= all);
    r
}

fn join_verbatim(base: &str, prefix: &str, name: &str) -> (r: String)
    requires
        prefix@ == base@.take(windows_prefix(base@).len),
    ensures
        r@ == verbatim_joined(base@, name@),
{
    let b = split_path(Platform::Windows, base);
    let n = split_path(Platform::Windows, name);
    let root = b.root || n.root;
    let start = if n.root {
        Vec::new()
    } else {
        b.names
    };
    assert(n.root ==> text::texts(start@) =~= seq![]);
    let names = walk(start, &n.names);
    if root || names.len() > 0 {
        text::cat3(prefix, "\\", glue(&names).as_str())
    } else {
        prefix.to_owned()
    }
}

pub fn join(platform: Platform, base: &str, name: &str) -> (r: String)
    ensures
        r@ == joined(platform, base@, name@),
{
    let b = text::to_chars(base);
    let n = text::to_chars(name);
    let bp = read_prefix(platform, &b);
    let np = read_prefix(platform, &n);
    if np.kind != PrefixKind::Nothing {
        return name.to_owned();
    }
    assert(b@.subrange(0, bp.len as int) =~= base@.take(bp.len as int));
    if verbatim(bp.kind) && n.len() > 0 {
        return join_verbatim(base, text::from_chars(&b, 0, bp.len).as_str(), name);
    }
    if at_root(platform, &n, np.len) {
        return text::cat2(text::from_chars(&b, 0, bp.len).as_str(), name);
    }
    let needed = b.len() > 0 && !separates(opening(platform), b[b.len() - 1]) && !(bp.kind
        == PrefixKind::Disk && b.len() == 2);
    if !needed {
        text::cat2(base, name)
    } else if platform == Platform::Windows {
        text::cat3(base, "\\", name)
    } else {
        text::cat3(base, "/", name)
    }
}

/// The first characters of a path without the separators, and the parts `.`, that end them; the
/// prefix and the root stay.
pub open spec fn tidy_end(s: Seq<char>, head: int, style: Separators) -> Seq<char>
    decreases s.len(),
{
    if s.len() > head && s.len() > 0 && is_separator(style, s.last()) {
        tidy_end(s.drop_last(), head, style)
    } else if style != Separators::Backslash && s.len() > head && s.len() > 1 && s.last() == '.'
        && is_separator(style, s[s.len() - 2]) {
        tidy_end(s.drop_last(), head, style)
    } else {
        s
    }
}

/// The length of `s` up to and with its last separator, but no less than `head`.
pub open spec fn dir_len(s: Seq<char>, head: int, style: Separators) -> int
    decreases s.len(),
{
    if s.len() <= head || s.len() == 0 || is_separator(style, s.last()) {
        s.len() as int
    } else {
        dir_len(s.drop_last(), head, style)
    }
}

/// Whether `.` stands alone behind a drive, which then names no more than the drive does.
pub open spec fn dot_behind_drive(platform: Platform, s: Seq<char>) -> bool {
    let p = prefix_of(platform, s);
    &&& p.kind == PrefixKind::Disk
    &&& p.len < s.len()
    &&& s[p.len] == '.'
    &&& p.len + 1 == s.len() || is_separator(root_style(platform), s[p.len + 1])
}

/// How many characters stand before the first name.
pub open spec fn lead_len(platform: Platform, s: Seq<char>) -> int {
    if dot_behind_drive(platform, s) {
        prefix_of(platform, s).len + 1
    } else {
        head_len(platform, s)
    }
}

/// The directory that holds the path `s`; none where there are no names in it.
pub open spec fn parent_of(platform: Platform, s: Seq<char>) -> Option<Seq<char>> {
    let head = lead_len(platform, s);
    let style = style_of(platform, prefix_of(platform, s).kind);
    let t = tidy_end(s, head, style);
    if t.len() <= head {
        None
    } else {
        Some(tidy_end(t.take(dir_len(t, head, style)), head, style))
    }
}

/// The length that is left of the first `hi` characters after `tidy_end`.
fn tidy(v: &Vec<char>, hi: usize, head: usize, style: Separators) -> (r: usize)
    requires
        head <= hi <= v@.len(),
    ensures
        head <= r <= hi,
        v@.take(r as int) == tidy_end(v@.take(hi as int), head as int, style),
{
    let mut r: usize = hi;
    while r > head && (separates(style, v[r - 1]) || (style != Separators::Backslash && r > 1
        && v[r - 1] == '.' && separates(style, v[r - 2])))
        invariant
            head <= r <= hi <= v@.len(),
            tidy_end(v@.take(r as int), head as int, style) == tidy_end(
                v@.take(hi as int),
                head as int,
                style,
            ),
        decreases r,
    {
        assert(v@.take(r as int).drop_last() == v@.take(r - 1));
        r = r - 1;
    }
    r
}

fn dotted_drive(platform: Platform, v: &Vec<char>, p: &Prefix) -> (r: bool)
    requires
        p@ == prefix_of(platform, v@),
        p.len <= v@.len(),
    ensures
        r == dot_behind_drive(platform, v@),
        r ==> p.len < v.len(),
{
    p.kind == PrefixKind::Disk && p.len < v.len() && v[p.len] == '.' && (p.len + 1 == v.len()
        || separates(opening(platform), v[p.len + 1]))
}

pub fn parent(platform: Platform, s: &str) -> (r: Option<String>)
    ensures
        text::opt_text(r) == parent_of(platform, s@),
{
    let v = text::to_chars(s);
    let p = read_prefix(platform, &v);
    let head: usize = if at_root(platform, &v, p.len) || dotted_drive(platform, &v, &p) {
        p.len + 1
    } else {
        p.len
    };
    let style = style(platform, p.kind);
    let end = tidy(&v, v.len(), head, style);
    let ghost t = tidy_end(s@, head as int, style);
    assert(v@.take(v@.len() as int) == s@);
    assert(t == v@.take(end as int));
    if end <= head {
        return None;
    }
    let mut n: usize = end;
    while n > head && !separates(style, v[n - 1])
        invariant
            head <= n <= end <= v@.len(),
            dir_len(v@.take(n as int), head as int, style) == dir_len(
                v@.take(end as int),
                head as int,
                style,
            ),
        decreases n,
    {
        assert(v@.take(n as int).drop_last() == v@.take(n - 1));
        n = n - 1;
    }
    assert(t.take(n as int) == v@.take(n as int));
    let m = tidy(&v, n, head, style);
    assert(v@.subrange(0, m as int) == v@.take(m as int));
    Some(text::from_chars(&v, 0, m))
}

} // verus!
