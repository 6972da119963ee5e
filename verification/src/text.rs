//! Strings as sequences of characters.
//!
//! Every operation is stated over `Seq<char>` and computed over the characters of a `str`.

use vstd::prelude::*;

verus! {

/// `String::push` appends one character.
pub assume_specification[ String::push ](s: &mut String, c: char)
    ensures
        final(s)@ == old(s)@.push(c),
;

/// `String::pop` removes and returns the last character, if there is one.
pub assume_specification[ String::pop ](s: &mut String) -> (r: Option<char>)
    ensures
        old(s)@.len() == 0 ==> r is None && final(s)@ == old(s)@,
        old(s)@.len() > 0 ==> r == Some(old(s)@.last()) && final(s)@ == old(s)@.drop_last(),
;

/// The characters of a string.
pub fn to_chars(s: &str) -> (v: Vec<char>)
    ensures
        v@ == s@,
{
    let mut v: Vec<char> = Vec::new();
    for c in it: s.chars()
        invariant
            it.seq() == s@,
            v@ == s@.take(it.index()),
    {
        v.push(c);
        assert(s@.take(it.index() + 1) == s@.take(it.index()).push(c));
    }
    assert(s@.take(s@.len() as int) == s@);
    v
}

/// The string made of the characters from `lo` up to `hi`.
pub fn from_chars(v: &Vec<char>, lo: usize, hi: usize) -> (s: String)
    requires
        lo <= hi <= v@.len(),
    ensures
        s@ == v@.subrange(lo as int, hi as int),
{
    let mut s = String::new();
    let mut i: usize = lo;
    while i < hi
        invariant
            lo <= i <= hi <= v@.len(),
            s@ == v@.subrange(lo as int, i as int),
        decreases hi - i,
    {
        s.push(v[i]);
        i = i + 1;
        assert(v@.subrange(lo as int, i as int) == v@.subrange(lo as int, i - 1).push(v@[i - 1]));
    }
    s
}

/// Whether two strings hold the same characters.
pub fn same(a: &str, b: &str) -> (r: bool)
    ensures
        r == (a@ == b@),
{
    a.to_owned() == b.to_owned()
}

pub fn cat2(a: &str, b: &str) -> (r: String)
    ensures
        r@ == a@ + b@,
{
    a.to_owned().concat(b)
}

pub fn cat3(a: &str, b: &str, c: &str) -> (r: String)
    ensures
        r@ == a@ + b@ + c@,
{
    a.to_owned().concat(b).concat(c)
}

pub fn cat4(a: &str, b: &str, c: &str, d: &str) -> (r: String)
    ensures
        r@ == a@ + b@ + c@ + d@,
{
    a.to_owned().concat(b).concat(c).concat(d)
}

pub fn cat5(a: &str, b: &str, c: &str, d: &str, e: &str) -> (r: String)
    ensures
        r@ == a@ + b@ + c@ + d@ + e@,
{
    a.to_owned().concat(b).concat(c).concat(d).concat(e)
}

/// Unicode's `White_Space` property.
pub open spec fn is_space(c: char) -> bool {
    let n = c as int;
    ||| 0x9 <= n <= 0xD
    ||| n == 0x20
    ||| n == 0x85
    ||| n == 0xA0
    ||| n == 0x1680
    ||| 0x2000 <= n <= 0x200A
    ||| n == 0x2028
    ||| n == 0x2029
    ||| n == 0x202F
    ||| n == 0x205F
    ||| n == 0x3000
}

pub fn is_whitespace(c: char) -> (r: bool)
    ensures
        r == is_space(c),
{
    let n: u32 = c as u32;
    (0x9 <= n && n <= 0xD) || n == 0x20 || n == 0x85 || n == 0xA0 || n == 0x1680 || (0x2000 <= n && n
        <= 0x200A) || n == 0x2028 || n == 0x2029 || n == 0x202F || n == 0x205F || n == 0x3000
}

/// `s` without its leading white space.
pub open spec fn trimmed_start(s: Seq<char>) -> Seq<char>
    decreases s.len(),
{
    if s.len() > 0 && is_space(s[0]) {
        trimmed_start(s.skip(1))
    } else {
        s
    }
}

/// `s` without its trailing white space.
pub open spec fn trimmed_end(s: Seq<char>) -> Seq<char>
    decreases s.len(),
{
    if s.len() > 0 && is_space(s.last()) {
        trimmed_end(s.drop_last())
    } else {
        s
    }
}

/// `s` without white space at either end.
pub open spec fn trimmed(s: Seq<char>) -> Seq<char> {
    trimmed_end(trimmed_start(s))
}

/// Index of the first character at or after `from` that is not white space.
fn skip_space(v: &Vec<char>, from: usize) -> (i: usize)
    requires
        from <= v@.len(),
    ensures
        from <= i <= v@.len(),
        trimmed_start(v@.skip(from as int)) == v@.skip(i as int),
        i < v@.len() ==> !is_space(v@[i as int]),
{
    let mut i: usize = from;
    while i < v.len() && is_whitespace(v[i])
        invariant
            from <= i <= v@.len(),
            trimmed_start(v@.skip(from as int)) == trimmed_start(v@.skip(i as int)),
        decreases v@.len() - i,
    {
        assert(v@.skip(i as int).skip(1) == v@.skip(i + 1));
        i = i + 1;
    }
    i
}

pub fn trim(s: &str) -> (r: String)
    ensures
        r@ == trimmed(s@),
{
    let v = to_chars(s);
    assert(v@.skip(0) == v@);
    let lo = skip_space(&v, 0);
    let mut hi: usize = v.len();
    assert(v@.subrange(lo as int, hi as int) == v@.skip(lo as int));
    while lo < hi && is_whitespace(v[hi - 1])
        invariant
            lo <= hi <= v@.len(),
            trimmed(s@) == trimmed_end(v@.subrange(lo as int, hi as int)),
        decreases hi,
    {
        assert(v@.subrange(lo as int, hi as int).drop_last() == v@.subrange(lo as int, hi - 1));
        hi = hi - 1;
    }
    from_chars(&v, lo, hi)
}

/// The length of the first run of `s` that holds no white space.
pub open spec fn word_len(s: Seq<char>) -> nat
    decreases s.len(),
{
    if s.len() == 0 || is_space(s[0]) {
        0
    } else {
        1 + word_len(s.skip(1))
    }
}

/// The maximal runs of `s` without white space, in order.
pub open spec fn words_of(s: Seq<char>) -> Seq<Seq<char>>
    decreases s.len(),
    via words_of_decreases
{
    let t = trimmed_start(s);
    if t.len() == 0 {
        seq![]
    } else {
        seq![t.take(word_len(t) as int)] + words_of(t.skip(word_len(t) as int))
    }
}

#[via_fn]
proof fn words_of_decreases(s: Seq<char>) {
    let t = trimmed_start(s);
    lemma_trimmed_start(s);
    if t.len() > 0 {
        lemma_word_len(t);
    }
}

pub proof fn lemma_trimmed_start(s: Seq<char>)
    ensures
        trimmed_start(s).len() <= s.len(),
        trimmed_start(s).len() > 0 ==> !is_space(trimmed_start(s)[0]),
    decreases s.len(),
{
    if s.len() > 0 && is_space(s[0]) {
        lemma_trimmed_start(s.skip(1));
    }
}

pub proof fn lemma_word_len(s: Seq<char>)
    ensures
        word_len(s) <= s.len(),
        s.len() > 0 && !is_space(s[0]) ==> word_len(s) > 0,
    decreases s.len(),
{
    if s.len() > 0 && !is_space(s[0]) {
        lemma_word_len(s.skip(1));
    }
}

/// The character sequences that a list of strings holds.
pub open spec fn texts(v: Seq<String>) -> Seq<Seq<char>> {
    v.map_values(|s: String| s@)
}

/// Index just past the run without white space that starts at `from`.
fn word_end(v: &Vec<char>, from: usize) -> (i: usize)
    requires
        from <= v@.len(),
    ensures
        from <= i <= v@.len(),
        i - from == word_len(v@.skip(from as int)),
{
    let mut i: usize = from;
    while i < v.len() && !is_whitespace(v[i])
        invariant
            from <= i <= v@.len(),
            word_len(v@.skip(from as int)) == i - from + word_len(v@.skip(i as int)),
        decreases v@.len() - i,
    {
        assert(v@.skip(i as int).skip(1) == v@.skip(i + 1));
        i = i + 1;
    }
    i
}

/// Splits `s` at white space.
pub fn words(s: &str) -> (r: Vec<String>)
    ensures
        texts(r@) == words_of(s@),
{
    let v = to_chars(s);
    let mut r: Vec<String> = Vec::new();
    assert(v@.skip(0) == v@);
    let mut i: usize = skip_space(&v, 0);
    proof {
        reveal_with_fuel(trimmed_start, 2);
    }
    assert(trimmed_start(v@.skip(i as int)) == v@.skip(i as int));
    assert(words_of(s@) == words_of(v@.skip(i as int)));
    assert(texts(r@) + words_of(v@.skip(i as int)) == words_of(s@));
    while i < v.len()
        invariant
            i <= v@.len(),
            i < v@.len() ==> !is_space(v@[i as int]),
            texts(r@) + words_of(v@.skip(i as int)) == words_of(s@),
        decreases v@.len() - i,
    {
        let j = word_end(&v, i);
        let ghost t = v@.skip(i as int);
        proof {
            lemma_word_len(t);
            assert(trimmed_start(t) == t);
            assert(t.take((j - i) as int) == v@.subrange(i as int, j as int));
            assert(t.skip((j - i) as int) == v@.skip(j as int));
        }
        let ghost before = r@;
        r.push(from_chars(&v, i, j));
        i = skip_space(&v, j);
        proof {
            let u = v@.skip(i as int);
            assert(trimmed_start(u) == u);
            assert(words_of(v@.skip(j as int)) == words_of(u));
            assert(texts(r@) =~= texts(before).push(r@.last()@));
            assert(texts(r@) + words_of(u) =~= texts(before) + (seq![r@.last()@] + words_of(u)));
        }
    }
    assert(v@.skip(i as int).len() == 0);
    assert(texts(r@) + words_of(v@.skip(i as int)) =~= texts(r@));
    r
}

/// Index of the first `c` in `s`, or the length of `s` when there is none.
pub open spec fn find_char(s: Seq<char>, c: char) -> nat
    decreases s.len(),
{
    if s.len() == 0 || s[0] == c {
        0
    } else {
        1 + find_char(s.skip(1), c)
    }
}

pub proof fn lemma_find_char(s: Seq<char>, c: char)
    ensures
        find_char(s, c) <= s.len(),
        find_char(s, c) < s.len() ==> s[find_char(s, c) as int] == c,
        forall|i: int| 0 <= i < find_char(s, c) ==> s[i] != c,
    decreases s.len(),
{
    if s.len() > 0 && s[0] != c {
        let t = s.skip(1);
        lemma_find_char(t, c);
        assert forall|i: int| 0 <= i < find_char(s, c) implies s[i] != c by {
            if i > 0 {
                assert(s[i] == t[i - 1]);
            }
        }
    }
}

/// Index at or after `from` of the first `c`, or the length of `v`.
fn char_at_or_after(v: &Vec<char>, from: usize, c: char) -> (i: usize)
    requires
        from <= v@.len(),
    ensures
        from <= i <= v@.len(),
        i - from == find_char(v@.skip(from as int), c),
{
    let mut i: usize = from;
    while i < v.len() && v[i] != c
        invariant
            from <= i <= v@.len(),
            find_char(v@.skip(from as int), c) == i - from + find_char(v@.skip(i as int), c),
        decreases v@.len() - i,
    {
        assert(v@.skip(i as int).skip(1) == v@.skip(i + 1));
        i = i + 1;
    }
    i
}

/// The text before and the text after the first `sep`, where there is one.
pub fn split_once(s: &str, sep: char) -> (r: Option<(String, String)>)
    ensures
        match r {
            Some((a, b)) => {
                let n = find_char(s@, sep) as int;
                &&& n < s@.len()
                &&& a@ == s@.take(n)
                &&& b@ == s@.skip(n + 1)
            },
            None => find_char(s@, sep) >= s@.len(),
        },
{
    let v = to_chars(s);
    assert(v@.skip(0) == v@);
    let n = char_at_or_after(&v, 0, sep);
    if n >= v.len() {
        return None;
    }
    assert(v@.subrange(0, n as int) == s@.take(n as int));
    assert(v@.subrange(n + 1, v@.len() as int) == s@.skip(n + 1));
    Some((from_chars(&v, 0, n), from_chars(&v, n + 1, v.len())))
}

/// The parts of `s` between the occurrences of `sep`; one part when there is none.
pub open spec fn parts_of(s: Seq<char>, sep: char) -> Seq<Seq<char>>
    decreases s.len(),
{
    let n = find_char(s, sep) as int;
    if n >= s.len() {
        seq![s]
    } else {
        seq![s.take(n)] + parts_of(s.skip(n + 1), sep)
    }
}

/// Splits `s` at every `sep`.
pub fn split_on(s: &str, sep: char) -> (r: Vec<String>)
    ensures
        texts(r@) == parts_of(s@, sep),
{
    let v = to_chars(s);
    let mut r: Vec<String> = Vec::new();
    let mut i: usize = 0;
    assert(v@.skip(0) == v@);
    assert(texts(r@) + parts_of(v@, sep) =~= parts_of(s@, sep));
    loop
        invariant
            i <= v@.len(),
            texts(r@) + parts_of(v@.skip(i as int), sep) == parts_of(s@, sep),
        decreases v@.len() - i,
    {
        let j = char_at_or_after(&v, i, sep);
        let ghost before = texts(r@);
        let ghost t = v@.skip(i as int);
        r.push(from_chars(&v, i, j));
        assert(texts(r@) =~= before.push(v@.subrange(i as int, j as int)));
        assert(t.take((j - i) as int) == v@.subrange(i as int, j as int));
        if j >= v.len() {
            assert(v@.subrange(i as int, j as int) == t);
            assert(before + seq![t] =~= texts(r@));
            return r;
        }
        proof {
            assert(t.skip((j - i) as int + 1) == v@.skip(j + 1));
            assert(texts(r@) + parts_of(v@.skip(j + 1), sep) =~= before + (seq![
                t.take((j - i) as int),
            ] + parts_of(v@.skip(j + 1), sep)));
        }
        i = j + 1;
    }
}

/// A line without the carriage return that may end it.
pub open spec fn without_cr(s: Seq<char>) -> Seq<char> {
    if s.len() > 0 && s.last() == '\r' {
        s.drop_last()
    } else {
        s
    }
}

/// The lines of `s`: each ends at a line feed, with a carriage return before it or not, and the
/// last one may end with the text.
pub open spec fn lines_of(s: Seq<char>) -> Seq<Seq<char>>
    decreases s.len(),
{
    let n = find_char(s, '\n') as int;
    if s.len() == 0 {
        seq![]
    } else if n >= s.len() {
        seq![s]
    } else {
        seq![without_cr(s.take(n))] + lines_of(s.skip(n + 1))
    }
}

/// Splits `s` into its lines.
pub fn lines(s: &str) -> (r: Vec<String>)
    ensures
        texts(r@) == lines_of(s@),
{
    let v = to_chars(s);
    let mut r: Vec<String> = Vec::new();
    let mut i: usize = 0;
    assert(v@.skip(0) == v@);
    assert(texts(r@) + lines_of(v@) =~= lines_of(s@));
    while i < v.len()
        invariant
            i <= v@.len(),
            texts(r@) + lines_of(v@.skip(i as int)) == lines_of(s@),
        decreases v@.len() - i,
    {
        let j = char_at_or_after(&v, i, '\n');
        let ghost before = texts(r@);
        let ghost t = v@.skip(i as int);
        assert(t.take((j - i) as int) == v@.subrange(i as int, j as int));
        if j >= v.len() {
            r.push(from_chars(&v, i, j));
            assert(v@.subrange(i as int, j as int) == t);
            assert(texts(r@) =~= before + seq![t]);
            return r;
        }
        let end: usize = if i < j && v[j - 1] == '\r' { j - 1 } else { j };
        r.push(from_chars(&v, i, end));
        proof {
            if end < j {
                assert(v@.subrange(i as int, j as int).drop_last() == v@.subrange(i as int, end as int));
            }
            assert(texts(r@) =~= before.push(without_cr(t.take((j - i) as int))));
            assert(t.skip((j - i) as int + 1) == v@.skip(j + 1));
            assert(texts(r@) + lines_of(v@.skip(j + 1)) =~= before + (seq![
                without_cr(t.take((j - i) as int)),
            ] + lines_of(v@.skip(j + 1))));
        }
        i = j + 1;
    }
    assert(v@.skip(i as int).len() == 0);
    assert(texts(r@) + lines_of(v@.skip(i as int)) =~= texts(r@));
    r
}

/// Whether `p` stands in `s` at index `i`.
pub open spec fn stands_at(s: Seq<char>, p: Seq<char>, i: int) -> bool {
    0 <= i && i + p.len() <= s.len() && s.subrange(i, i + p.len()) == p
}

pub open spec fn has_prefix(s: Seq<char>, p: Seq<char>) -> bool {
    stands_at(s, p, 0)
}

pub open spec fn has_suffix(s: Seq<char>, p: Seq<char>) -> bool {
    stands_at(s, p, s.len() - p.len())
}

/// Whether `p` occurs in `s`.
pub open spec fn has_text(s: Seq<char>, p: Seq<char>) -> bool {
    exists|i: int| stands_at(s, p, i)
}

fn found_at(v: &Vec<char>, p: &Vec<char>, i: usize) -> (r: bool)
    requires
        i <= v@.len(),
    ensures
        r == stands_at(v@, p@, i as int),
{
    if p.len() > v.len() - i {
        return false;
    }
    let mut k: usize = 0;
    while k < p.len()
        invariant
            k <= p@.len(),
            i + p@.len() <= v.len(),
            forall|j: int| 0 <= j < k ==> v@[i + j] == p@[j],
        decreases p@.len() - k,
    {
        if v[i + k] != p[k] {
            assert(v@.subrange(i as int, i + p@.len())[k as int] != p@[k as int]);
            return false;
        }
        k = k + 1;
    }
    assert(v@.subrange(i as int, i + p@.len()) =~= p@);
    true
}

pub fn starts_with(s: &str, p: &str) -> (r: bool)
    ensures
        r == has_prefix(s@, p@),
{
    found_at(&to_chars(s), &to_chars(p), 0)
}

pub fn ends_with(s: &str, p: &str) -> (r: bool)
    ensures
        r == has_suffix(s@, p@),
{
    let v = to_chars(s);
    let q = to_chars(p);
    if q.len() > v.len() {
        return false;
    }
    found_at(&v, &q, v.len() - q.len())
}

pub fn contains(s: &str, p: &str) -> (r: bool)
    ensures
        r == has_text(s@, p@),
{
    let v = to_chars(s);
    let q = to_chars(p);
    let mut i: usize = 0;
    loop
        invariant
            i <= v@.len(),
            v@ == s@,
            q@ == p@,
            forall|j: int| 0 <= j < i ==> !stands_at(v@, q@, j),
        decreases v@.len() - i,
    {
        if found_at(&v, &q, i) {
            assert(stands_at(s@, p@, i as int));
            return true;
        }
        if i >= v.len() {
            return false;
        }
        i = i + 1;
    }
}

/// What follows the prefix `p` of `s`, if `s` starts with it.
pub open spec fn after_prefix(s: Seq<char>, p: Seq<char>) -> Option<Seq<char>> {
    if has_prefix(s, p) {
        Some(s.skip(p.len() as int))
    } else {
        None
    }
}

/// The characters that an optional string holds.
pub open spec fn opt_text(o: Option<String>) -> Option<Seq<char>> {
    match o {
        Some(s) => Some(s@),
        None => None,
    }
}

pub fn strip_prefix(s: &str, p: &str) -> (r: Option<String>)
    ensures
        opt_text(r) == after_prefix(s@, p@),
{
    let v = to_chars(s);
    let q = to_chars(p);
    if found_at(&v, &q, 0) {
        assert(v@.subrange(q@.len() as int, v@.len() as int) == v@.skip(q@.len() as int));
        Some(from_chars(&v, q.len(), v.len()))
    } else {
        None
    }
}

/// `s` without the leading occurrences of `c`.
pub open spec fn without_leading(s: Seq<char>, c: char) -> Seq<char>
    decreases s.len(),
{
    if s.len() > 0 && s[0] == c {
        without_leading(s.skip(1), c)
    } else {
        s
    }
}

/// `s` without the trailing occurrences of `c`.
pub open spec fn without_trailing(s: Seq<char>, c: char) -> Seq<char>
    decreases s.len(),
{
    if s.len() > 0 && s.last() == c {
        without_trailing(s.drop_last(), c)
    } else {
        s
    }
}

pub fn trim_leading(s: &str, c: char) -> (r: String)
    ensures
        r@ == without_leading(s@, c),
{
    let v = to_chars(s);
    let mut i: usize = 0;
    assert(v@.skip(0) == v@);
    while i < v.len() && v[i] == c
        invariant
            i <= v@.len(),
            without_leading(s@, c) == without_leading(v@.skip(i as int), c),
        decreases v@.len() - i,
    {
        assert(v@.skip(i as int).skip(1) == v@.skip(i + 1));
        i = i + 1;
    }
    assert(v@.skip(i as int) == v@.subrange(i as int, v@.len() as int));
    from_chars(&v, i, v.len())
}

pub fn trim_trailing(s: &str, c: char) -> (r: String)
    ensures
        r@ == without_trailing(s@, c),
{
    let v = to_chars(s);
    let mut hi: usize = v.len();
    assert(v@.subrange(0, hi as int) == v@);
    while 0 < hi && v[hi - 1] == c
        invariant
            hi <= v@.len(),
            without_trailing(s@, c) == without_trailing(v@.subrange(0, hi as int), c),
        decreases hi,
    {
        assert(v@.subrange(0, hi as int).drop_last() == v@.subrange(0, hi - 1));
        hi = hi - 1;
    }
    from_chars(&v, 0, hi)
}

/// What follows the last occurrence of `p` in `s`; the whole of `s` when there is none.
pub open spec fn after_last(s: Seq<char>, p: Seq<char>) -> Seq<char> {
    s.skip(last_end(s, p) as int)
}

/// Where the last occurrence of `p` in `s` ends; 0 when there is none.
pub open spec fn last_end(s: Seq<char>, p: Seq<char>) -> nat
    decreases s.len(),
{
    if s.len() < p.len() {
        0
    } else if has_suffix(s, p) {
        s.len()
    } else if s.len() == 0 {
        0
    } else {
        last_end(s.drop_last(), p)
    }
}

pub fn rest_after_last(s: &str, p: &str) -> (r: String)
    ensures
        r@ == after_last(s@, p@),
{
    let v = to_chars(s);
    let q = to_chars(p);
    let mut hi: usize = v.len();
    assert(v@.take(hi as int) == v@);
    loop
        invariant
            hi <= v@.len(),
            v@ == s@,
            q@ == p@,
            last_end(s@, p@) == last_end(v@.take(hi as int), q@),
        decreases hi,
    {
        if hi < q.len() {
            assert(v@.skip(0) == v@.subrange(0, v@.len() as int));
            return from_chars(&v, 0, v.len());
        }
        let ghost t = v@.take(hi as int);
        assert(v@.subrange(hi - q@.len(), hi as int) == t.subrange(hi - q@.len(), hi as int));
        if found_at(&v, &q, hi - q.len()) {
            assert(v@.skip(hi as int) == v@.subrange(hi as int, v@.len() as int));
            return from_chars(&v, hi, v.len());
        }
        if hi == 0 {
            assert(v@.skip(0) == v@.subrange(0, v@.len() as int));
            return from_chars(&v, 0, v.len());
        }
        assert(t.drop_last() == v@.take(hi - 1));
        hi = hi - 1;
    }
}

/// The lower-case form of an ASCII capital; any other character itself.
pub open spec fn lower(c: char) -> char {
    if 'A' <= c <= 'Z' {
        (c as u8 + 32) as u8 as char
    } else {
        c
    }
}

/// The capital of an ASCII lower-case letter; any other character itself.
pub open spec fn upper(c: char) -> char {
    if 'a' <= c <= 'z' {
        (c as u8 - 32) as u8 as char
    } else {
        c
    }
}

pub open spec fn lowered(s: Seq<char>) -> Seq<char> {
    s.map_values(|c: char| lower(c))
}

pub open spec fn uppered(s: Seq<char>) -> Seq<char> {
    s.map_values(|c: char| upper(c))
}

pub fn to_lower(s: &str) -> (r: String)
    ensures
        r@ == lowered(s@),
{
    let v = to_chars(s);
    let mut r = String::new();
    let mut i: usize = 0;
    while i < v.len()
        invariant
            i <= v@.len(),
            r@ == lowered(v@.take(i as int)),
        decreases v@.len() - i,
    {
        let c = v[i];
        if 'A' <= c && c <= 'Z' {
            r.push((c as u8 + 32) as char);
        } else {
            r.push(c);
        }
        i = i + 1;
        assert(v@.take(i as int) == v@.take(i - 1).push(c));
        assert(lowered(v@.take(i as int)) =~= lowered(v@.take(i - 1)).push(lower(c)));
    }
    assert(v@.take(i as int) == v@);
    r
}

pub fn to_upper(s: &str) -> (r: String)
    ensures
        r@ == uppered(s@),
{
    let v = to_chars(s);
    let mut r = String::new();
    let mut i: usize = 0;
    while i < v.len()
        invariant
            i <= v@.len(),
            r@ == uppered(v@.take(i as int)),
        decreases v@.len() - i,
    {
        let c = v[i];
        if 'a' <= c && c <= 'z' {
            r.push((c as u8 - 32) as char);
        } else {
            r.push(c);
        }
        i = i + 1;
        assert(v@.take(i as int) == v@.take(i - 1).push(c));
        assert(uppered(v@.take(i as int)) =~= uppered(v@.take(i - 1)).push(upper(c)));
    }
    assert(v@.take(i as int) == v@);
    r
}

} // verus!
