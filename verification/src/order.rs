//! The order of strings, and lists kept in it.

use crate::text;
use vstd::prelude::*;

verus! {

/// Whether `a` stands before `b`: character by character, a prefix first.
pub open spec fn before(a: Seq<char>, b: Seq<char>) -> bool
    decreases a.len(),
{
    if b.len() == 0 {
        false
    } else if a.len() == 0 {
        true
    } else if a[0] != b[0] {
        a[0] < b[0]
    } else {
        before(a.skip(1), b.skip(1))
    }
}

pub proof fn lemma_before_irreflexive(a: Seq<char>)
    ensures
        !before(a, a),
    decreases a.len(),
{
    if a.len() > 0 {
        lemma_before_irreflexive(a.skip(1));
    }
}

pub proof fn lemma_before_transitive(a: Seq<char>, b: Seq<char>, c: Seq<char>)
    requires
        before(a, b),
        before(b, c),
    ensures
        before(a, c),
    decreases a.len(),
{
    if a.len() > 0 && a[0] == b[0] && b[0] == c[0] {
        lemma_before_transitive(a.skip(1), b.skip(1), c.skip(1));
    }
}

pub proof fn lemma_before_total(a: Seq<char>, b: Seq<char>)
    ensures
        before(a, b) || before(b, a) || a == b,
    decreases a.len(),
{
    if a.len() > 0 && b.len() > 0 && a[0] == b[0] {
        lemma_before_total(a.skip(1), b.skip(1));
        if a.skip(1) == b.skip(1) {
            assert(a =~= seq![a[0]] + a.skip(1));
            assert(b =~= seq![b[0]] + b.skip(1));
        }
    } else if a.len() == 0 && b.len() == 0 {
        assert(a =~= b);
    }
}

pub fn is_before(a: &str, b: &str) -> (r: bool)
    ensures
        r == before(a@, b@),
{
    let v = text::to_chars(a);
    let w = text::to_chars(b);
    let mut i: usize = 0;
    assert(v@.skip(0) == v@);
    assert(w@.skip(0) == w@);
    loop
        invariant
            i <= v@.len(),
            i <= w@.len(),
            before(a@, b@) == before(v@.skip(i as int), w@.skip(i as int)),
        decreases v@.len() - i,
    {
        if i >= w.len() {
            return false;
        }
        if i >= v.len() {
            return true;
        }
        if v[i] != w[i] {
            return v[i] < w[i];
        }
        assert(v@.skip(i as int).skip(1) == v@.skip(i + 1));
        assert(w@.skip(i as int).skip(1) == w@.skip(i + 1));
        i = i + 1;
    }
}

/// Strictly increasing: in order, and nothing occurs twice.
pub open spec fn increasing(s: Seq<Seq<char>>) -> bool {
    forall|i: int, j: int| 0 <= i < j < s.len() ==> before(#[trigger] s[i], #[trigger] s[j])
}

/// Adds `item` to an increasing list, unless it is there already.
pub fn insert_unique(list: &mut Vec<String>, item: String)
    requires
        increasing(text::texts(old(list)@)),
    ensures
        increasing(text::texts(final(list)@)),
        forall|t: Seq<char>| #[trigger] text::texts(final(list)@).contains(t) <==> text::texts(
            old(list)@,
        ).contains(t) || t == item@,
{
    let ghost start = text::texts(list@);
    let mut i: usize = 0;
    while i < list.len() && is_before(list[i].as_str(), item.as_str())
        invariant
            i <= list@.len(),
            text::texts(list@) == start,
            forall|k: int| 0 <= k < i ==> before(#[trigger] start[k], item@),
        decreases list@.len() - i,
    {
        assert(start[i as int] == list@[i as int]@);
        i = i + 1;
    }
    if i < list.len() && text::same(list[i].as_str(), item.as_str()) {
        assert(start[i as int] == item@);
        return;
    }
    let ghost t = item@;
    list.insert(i, item);
    proof {
        let end = text::texts(list@);
        assert(end =~= start.insert(i as int, t));
        if i < start.len() {
            assert(start[i as int] == list@[i + 1]@);
            lemma_before_total(start[i as int], t);
        }
        assert forall|j: int, k: int| 0 <= j < k < end.len() implies before(
            #[trigger] end[j],
            #[trigger] end[k],
        ) by {
            if j < i && k == i {
                assert(end[j] == start[j]);
            } else if j == i && k > i {
                assert(end[k] == start[k - 1]);
                if k - 1 > i {
                    assert(before(start[i as int], start[k - 1]));
                    lemma_before_transitive(t, start[i as int], start[k - 1]);
                }
            } else if j < i && k < i {
                assert(end[j] == start[j] && end[k] == start[k]);
            } else if j < i && k > i {
                assert(end[j] == start[j] && end[k] == start[k - 1]);
            } else {
                assert(end[j] == start[j - 1] && end[k] == start[k - 1]);
            }
        }
        assert forall|x: Seq<char>| #[trigger] end.contains(x) <==> start.contains(x) || x == t by {
            if end.contains(x) {
                let k = choose|k: int| 0 <= k < end.len() && end[k] == x;
                if k < i {
                    assert(start[k] == x);
                } else if k > i {
                    assert(start[k - 1] == x);
                }
            }
            if start.contains(x) {
                let k = choose|k: int| 0 <= k < start.len() && start[k] == x;
                if k < i {
                    assert(end[k] == x);
                } else {
                    assert(end[k + 1] == x);
                }
            }
            if x == t {
                assert(end[i as int] == t);
            }
        }
    }
}

/// Two increasing lists with the same members are equal.
pub proof fn law_increasing_unique(a: Seq<Seq<char>>, b: Seq<Seq<char>>)
    requires
        increasing(a),
        increasing(b),
        forall|t: Seq<char>| #[trigger] a.contains(t) <==> b.contains(t),
    ensures
        a == b,
    decreases a.len(),
{
    if a.len() == 0 {
        if b.len() > 0 {
            assert(b.contains(b[0]));
            assert(a.contains(b[0]));
        }
        assert(a =~= b);
    } else {
        let x = a.last();
        assert(a.contains(x));
        assert(b.contains(x));
        let k = choose|k: int| 0 <= k < b.len() && b[k] == x;
        let y = b.last();
        assert(b.contains(y));
        assert(a.contains(y));
        let m = choose|m: int| 0 <= m < a.len() && a[m] == y;
        if k < b.len() - 1 {
            assert(before(x, y));
            if m < a.len() - 1 {
                assert(before(y, x));
                lemma_before_transitive(x, y, x);
            }
            lemma_before_irreflexive(x);
        }
        assert(x == y);
        let a1 = a.drop_last();
        let b1 = b.drop_last();
        assert forall|t: Seq<char>| #[trigger] a1.contains(t) <==> b1.contains(t) by {
            if a1.contains(t) {
                let i = choose|i: int| 0 <= i < a1.len() && a1[i] == t;
                assert(a[i] == t);
                assert(before(a[i], a[a.len() - 1]));
                assert(a.contains(t));
                let j = choose|j: int| 0 <= j < b.len() && b[j] == t;
                if j == b.len() - 1 {
                    lemma_before_irreflexive(x);
                }
                assert(b1[j] == t);
            }
            if b1.contains(t) {
                let i = choose|i: int| 0 <= i < b1.len() && b1[i] == t;
                assert(b[i] == t);
                assert(before(b[i], b[b.len() - 1]));
                assert(b.contains(t));
                assert(a.contains(t));
                let j = choose|j: int| 0 <= j < a.len() && a[j] == t;
                if j == a.len() - 1 {
                    lemma_before_irreflexive(x);
                }
                assert(a1[j] == t);
            }
        }
        law_increasing_unique(a1, b1);
        assert(a =~= a1.push(x));
        assert(b =~= b1.push(x));
    }
}

} // verus!
