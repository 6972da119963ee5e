//! Proxy groups, and delay tests of the nodes in them.

use crate::client::ProxiesResp;
use crate::client::ProxyNode;
use crate::order;
use crate::text;
use vstd::prelude::*;

verus! {

#[derive(Debug)]
pub struct ProxyGroupView {
    pub name: String,
    pub kind: String,
    pub now: String,
    pub candidates: Vec<String>,
}

pub struct Group {
    pub name: Seq<char>,
    pub kind: Seq<char>,
    pub now: Seq<char>,
    pub candidates: Seq<Seq<char>>,
}

impl View for ProxyGroupView {
    type V = Group;

    open spec fn view(&self) -> Group {
        Group {
            name: self.name@,
            kind: self.kind@,
            now: self.now@,
            candidates: text::texts(self.candidates@),
        }
    }
}

pub open spec fn groups_view(groups: Seq<ProxyGroupView>) -> Seq<Group> {
    Seq::new(groups.len(), |i: int| groups[i]@)
}

/// The group that a node is, if it chooses from other nodes.
pub open spec fn group_of(node: ProxyNode) -> Option<Group> {
    match node.all {
        Some(all) => Some(
            Group {
                name: node.name@,
                kind: node.kind@,
                now: match node.now {
                    Some(now) => now@,
                    None => "-"@,
                },
                candidates: text::texts(all@),
            },
        ),
        None => None,
    }
}

/// A sorted list with one more group, behind all groups whose name is not greater.
pub open spec fn placed(groups: Seq<Group>, g: Group) -> Seq<Group>
    decreases groups.len(),
{
    if groups.len() > 0 && order::before(g.name, groups.last().name) {
        placed(groups.drop_last(), g).push(groups.last())
    } else {
        groups.push(g)
    }
}

/// The groups among the nodes, sorted by name.
pub open spec fn sorted_groups(nodes: Seq<(String, ProxyNode)>) -> Seq<Group>
    decreases nodes.len(),
{
    if nodes.len() == 0 {
        seq![]
    } else {
        match group_of(nodes.last().1) {
            Some(g) => placed(sorted_groups(nodes.drop_last()), g),
            None => sorted_groups(nodes.drop_last()),
        }
    }
}

proof fn lemma_placed(groups: Seq<Group>, g: Group, i: int)
    requires
        0 <= i <= groups.len(),
        forall|k: int| i <= k < groups.len() ==> order::before(g.name, (#[trigger] groups[k]).name),
        i > 0 ==> !order::before(g.name, groups[i - 1].name),
    ensures
        placed(groups, g) == groups.insert(i, g),
    decreases groups.len(),
{
    if i < groups.len() {
        assert(groups.last() == groups[groups.len() - 1]);
        lemma_placed(groups.drop_last(), g, i);
        assert(groups.drop_last().insert(i, g).push(groups.last()) =~= groups.insert(i, g));
    } else {
        assert(groups.push(g) =~= groups.insert(i, g));
    }
}

/// In order of name.
pub open spec fn in_order(groups: Seq<Group>) -> bool {
    forall|i: int, j: int|
        0 <= i < j < groups.len() ==> !order::before(
            (#[trigger] groups[j]).name,
            (#[trigger] groups[i]).name,
        )
}

proof fn lemma_placed_members(groups: Seq<Group>, g: Group)
    requires
        in_order(groups),
    ensures
        in_order(placed(groups, g)),
        forall|x: Group| #[trigger] placed(groups, g).contains(x) <==> groups.contains(x) || x == g,
    decreases groups.len(),
{
    let p = placed(groups, g);
    if groups.len() > 0 && order::before(g.name, groups.last().name) {
        let front = groups.drop_last();
        let last = groups.last();
        assert forall|i: int, j: int| 0 <= i < j < front.len() implies !order::before(
            (#[trigger] front[j]).name,
            (#[trigger] front[i]).name,
        ) by {
            assert(front[j] == groups[j] && front[i] == groups[i]);
        }
        lemma_placed_members(front, g);
        let q = placed(front, g);
        assert forall|x: Group| #[trigger] p.contains(x) <==> groups.contains(x) || x == g by {
            if p.contains(x) {
                let k = choose|k: int| 0 <= k < p.len() && p[k] == x;
                if k < q.len() {
                    assert(q[k] == x);
                    assert(q.contains(x));
                    if front.contains(x) {
                        let m = choose|m: int| 0 <= m < front.len() && front[m] == x;
                        assert(groups[m] == x);
                    }
                } else {
                    assert(groups[groups.len() - 1] == x);
                }
            }
            if groups.contains(x) {
                let m = choose|m: int| 0 <= m < groups.len() && groups[m] == x;
                if m < front.len() {
                    assert(front[m] == x);
                    assert(front.contains(x));
                    assert(q.contains(x));
                    let k = choose|k: int| 0 <= k < q.len() && q[k] == x;
                    assert(p[k] == x);
                } else {
                    assert(p[q.len() as int] == x);
                }
            }
            if x == g {
                assert(q.contains(x));
                let k = choose|k: int| 0 <= k < q.len() && q[k] == x;
                assert(p[k] == x);
            }
        }
        assert forall|i: int, j: int| 0 <= i < j < p.len() implies !order::before(
            (#[trigger] p[j]).name,
            (#[trigger] p[i]).name,
        ) by {
            if j < q.len() {
                assert(p[j] == q[j] && p[i] == q[i]);
            } else {
                assert(p[j] == last);
                assert(p[i] == q[i]);
                assert(q.contains(q[i]));
                if q[i] == g {
                    if order::before(last.name, g.name) {
                        order::lemma_before_transitive(g.name, last.name, g.name);
                        order::lemma_before_irreflexive(g.name);
                    }
                } else {
                    let m = choose|m: int| 0 <= m < front.len() && front[m] == q[i];
                    assert(groups[m] == q[i] && groups[groups.len() - 1] == last);
                }
            }
        }
    } else {
        assert forall|x: Group| #[trigger] p.contains(x) <==> groups.contains(x) || x == g by {
            if p.contains(x) {
                let k = choose|k: int| 0 <= k < p.len() && p[k] == x;
                if k < groups.len() {
                    assert(groups[k] == x);
                }
            }
            if groups.contains(x) {
                let k = choose|k: int| 0 <= k < groups.len() && groups[k] == x;
                assert(p[k] == x);
            }
            if x == g {
                assert(p[groups.len() as int] == x);
            }
        }
        assert forall|i: int, j: int| 0 <= i < j < p.len() implies !order::before(
            (#[trigger] p[j]).name,
            (#[trigger] p[i]).name,
        ) by {
            if j < groups.len() {
                assert(p[j] == groups[j] && p[i] == groups[i]);
            } else {
                assert(p[j] == g && p[i] == groups[i]);
                let last = groups[groups.len() - 1];
                assert(!order::before(g.name, last.name));
                if i < groups.len() - 1 {
                    assert(!order::before(last.name, groups[i].name));
                    if order::before(g.name, groups[i].name) {
                        order::lemma_before_total(groups[i].name, last.name);
                        if order::before(groups[i].name, last.name) {
                            order::lemma_before_transitive(g.name, groups[i].name, last.name);
                        }
                    }
                }
            }
        }
    }
}

/// The groups among the nodes, in the order of the nodes.
pub open spec fn groups_in_order(nodes: Seq<(String, ProxyNode)>) -> Seq<Group>
    decreases nodes.len(),
{
    if nodes.len() == 0 {
        seq![]
    } else {
        match group_of(nodes.last().1) {
            Some(g) => groups_in_order(nodes.drop_last()).push(g),
            None => groups_in_order(nodes.drop_last()),
        }
    }
}

proof fn lemma_placed_multiset(groups: Seq<Group>, g: Group)
    ensures
        placed(groups, g).to_multiset() == groups.to_multiset().insert(g),
    decreases groups.len(),
{
    groups.to_multiset_ensures();
    if groups.len() > 0 && order::before(g.name, groups.last().name) {
        let front = groups.drop_last();
        let last = groups.last();
        lemma_placed_multiset(front, g);
        front.to_multiset_ensures();
        placed(front, g).to_multiset_ensures();
        assert(front.push(last) =~= groups);
        assert(placed(groups, g).to_multiset() =~= groups.to_multiset().insert(g));
    }
}

/// The groups come sorted by name, and they are those nodes that choose from others, each as often
/// as it is there.
pub proof fn law_groups_sorted(nodes: Seq<(String, ProxyNode)>)
    ensures
        in_order(sorted_groups(nodes)),
        forall|g: Group| #[trigger]
            sorted_groups(nodes).contains(g) <==> exists|i: int|
                0 <= i < nodes.len() && group_of((#[trigger] nodes[i]).1) == Some(g),
        sorted_groups(nodes).to_multiset() == groups_in_order(nodes).to_multiset(),
    decreases nodes.len(),
{
    if nodes.len() > 0 {
        let front = nodes.drop_last();
        law_groups_sorted(front);
        let s = sorted_groups(nodes);
        let n = nodes.len() - 1;
        if let Some(g) = group_of(nodes.last().1) {
            lemma_placed_members(sorted_groups(front), g);
            lemma_placed_multiset(sorted_groups(front), g);
            groups_in_order(front).to_multiset_ensures();
        }
        assert forall|g: Group| #[trigger] s.contains(g) <==> exists|i: int|
            0 <= i < nodes.len() && group_of((#[trigger] nodes[i]).1) == Some(g) by {
            if s.contains(g) {
                if sorted_groups(front).contains(g) {
                    let i = choose|i: int|
                        0 <= i < front.len() && group_of((#[trigger] front[i]).1) == Some(g);
                    assert(nodes[i] == front[i]);
                } else {
                    assert(group_of(nodes[n].1) == Some(g));
                }
            }
            if exists|i: int|
                0 <= i < nodes.len() && group_of((#[trigger] nodes[i]).1) == Some(g) {
                let i = choose|i: int|
                    0 <= i < nodes.len() && group_of((#[trigger] nodes[i]).1) == Some(g);
                if i < n {
                    assert(front[i] == nodes[i]);
                    assert(sorted_groups(front).contains(g));
                }
            }
        }
    }
}

/// Copies a list of texts.
pub fn copy_texts(v: &Vec<String>) -> (r: Vec<String>)
    ensures
        r@ == v@,
{
    let mut r: Vec<String> = Vec::new();
    let mut i: usize = 0;
    while i < v.len()
        invariant
            i <= v@.len(),
            r@ == v@.take(i as int),
        decreases v@.len() - i,
    {
        r.push(v[i].clone());
        i = i + 1;
        assert(v@.take(i as int) == v@.take(i - 1).push(v@[i - 1]));
    }
    assert(v@.take(i as int) == v@);
    r
}

fn group_from(node: &ProxyNode) -> (r: Option<ProxyGroupView>)
    ensures
        match r {
            Some(g) => group_of(*node) == Some(g@),
            None => group_of(*node) is None,
        },
{
    match &node.all {
        Some(all) => Some(
            ProxyGroupView {
                name: node.name.clone(),
                kind: node.kind.clone(),
                now: match &node.now {
                    Some(now) => now.clone(),
                    None => "-".to_owned(),
                },
                candidates: copy_texts(all),
            },
        ),
        None => None,
    }
}

pub fn extract_proxy_groups(proxies: &ProxiesResp) -> (r: Vec<ProxyGroupView>)
    ensures
        groups_view(r@) == sorted_groups(proxies.proxies@),
{
    let nodes = &proxies.proxies;
    let mut out: Vec<ProxyGroupView> = Vec::new();
    let mut i: usize = 0;
    assert(groups_view(out@) =~= seq![]);
    while i < nodes.len()
        invariant
            i <= nodes@.len(),
            groups_view(out@) == sorted_groups(nodes@.take(i as int)),
        decreases nodes@.len() - i,
    {
        assert(nodes@.take(i + 1).drop_last() == nodes@.take(i as int));
        assert(nodes@.take(i + 1).last() == nodes@[i as int]);
        if let Some(g) = group_from(&nodes[i].1) {
            let ghost before = groups_view(out@);
            let ghost gm = g@;
            let mut at: usize = out.len();
            while at > 0 && order::is_before(g.name.as_str(), out[at - 1].name.as_str())
                invariant
                    at <= out@.len(),
                    before == groups_view(out@),
                    gm == g@,
                    forall|k: int|
                        at <= k < before.len() ==> order::before(gm.name, (#[trigger] before[k]).name),
                decreases at,
            {
                at = at - 1;
                assert(before[at as int] == out@[at as int]@);
            }
            proof {
                if at > 0 {
                    assert(before[at - 1] == out@[at - 1]@);
                }
                lemma_placed(before, gm, at as int);
            }
            out.insert(at, g);
            assert(groups_view(out@) =~= before.insert(at as int, gm));
        }
        i = i + 1;
    }
    assert(nodes@.take(i as int) == nodes@);
    out
}

/// The names of the core's own policies, in capitals.
pub open spec fn is_builtin(name: Seq<char>) -> bool {
    let n = text::uppered(name);
    n == "DIRECT"@ || n == "REJECT"@ || n == "REJECT-DROP"@ || n == "PASS"@ || n == "COMPATIBLE"@
}

pub fn is_builtin_policy_node(name: &str) -> (r: bool)
    ensures
        r == is_builtin(name@),
{
    let n = text::to_upper(name);
    let n = n.as_str();
    text::same(n, "DIRECT") || text::same(n, "REJECT") || text::same(n, "REJECT-DROP")
        || text::same(n, "PASS") || text::same(n, "COMPATIBLE")
}

pub open spec fn is_group_name(groups: Seq<Group>, name: Seq<char>) -> bool {
    exists|i: int| 0 <= i < groups.len() && (#[trigger] groups[i]).name == name
}

pub open spec fn is_candidate(groups: Seq<Group>, name: Seq<char>) -> bool {
    exists|i: int| 0 <= i < groups.len() && (#[trigger] groups[i]).candidates.contains(name)
}

/// What a test of all nodes tests: the candidates that are neither groups nor policies.
pub open spec fn is_target(groups: Seq<Group>, name: Seq<char>) -> bool {
    is_candidate(groups, name) && !is_group_name(groups, name) && !is_builtin(name)
}

fn names_group(groups: &Vec<ProxyGroupView>, name: &str) -> (r: bool)
    ensures
        r == is_group_name(groups_view(groups@), name@),
{
    let ghost all = groups_view(groups@);
    let mut i: usize = 0;
    while i < groups.len()
        invariant
            i <= groups@.len(),
            all == groups_view(groups@),
            forall|k: int| 0 <= k < i ==> (#[trigger] all[k]).name != name@,
        decreases groups@.len() - i,
    {
        assert(all[i as int] == groups@[i as int]@);
        if text::same(groups[i].name.as_str(), name) {
            return true;
        }
        i = i + 1;
    }
    false
}

/// Adds those candidates of one group that are to be tested.
fn add_targets(out: &mut Vec<String>, groups: &Vec<ProxyGroupView>, at: usize)
    requires
        at < groups@.len(),
        order::increasing(text::texts(old(out)@)),
    ensures
        order::increasing(text::texts(final(out)@)),
        forall|t: Seq<char>| #[trigger]
            text::texts(final(out)@).contains(t) <==> text::texts(old(out)@).contains(t) || (
            groups_view(groups@)[at as int].candidates.contains(t) && !is_group_name(
                groups_view(groups@),
                t,
            ) && !is_builtin(t)),
{
    let ghost all = groups_view(groups@);
    let ghost start = text::texts(out@);
    let candidates = &groups[at].candidates;
    let ghost names = text::texts(candidates@);
    assert(names == all[at as int].candidates);
    let mut j: usize = 0;
    while j < candidates.len()
        invariant
            j <= candidates@.len(),
            all == groups_view(groups@),
            names == text::texts(candidates@),
            order::increasing(text::texts(out@)),
            forall|t: Seq<char>| #[trigger]
                text::texts(out@).contains(t) <==> start.contains(t) || (names.take(
                    j as int,
                ).contains(t) && !is_group_name(all, t) && !is_builtin(t)),
        decreases candidates@.len() - j,
    {
        let ghost done = text::texts(out@);
        let name = candidates[j].as_str();
        if !names_group(groups, name) && !is_builtin_policy_node(name) {
            order::insert_unique(out, candidates[j].clone());
        }
        proof {
            let next = names.take(j + 1);
            assert(next == names.take(j as int).push(name@));
            assert forall|t: Seq<char>| #[trigger]
                text::texts(out@).contains(t) <==> start.contains(t) || (next.contains(t)
                    && !is_group_name(all, t) && !is_builtin(t)) by {
                assert(done.contains(t) <==> start.contains(t) || (names.take(j as int).contains(t)
                    && !is_group_name(all, t) && !is_builtin(t)));
                assert(next.contains(t) <==> names.take(j as int).contains(t) || t == name@) by {
                    if names.take(j as int).contains(t) {
                        let k = choose|k: int|
                            0 <= k < names.take(j as int).len() && names.take(j as int)[k] == t;
                        assert(next[k] == t);
                    }
                    if t == name@ {
                        assert(next[j as int] == t);
                    }
                    if next.contains(t) {
                        let k = choose|k: int| 0 <= k < next.len() && next[k] == t;
                        if k < j {
                            assert(names.take(j as int)[k] == t);
                        }
                    }
                }
            }
        }
        j = j + 1;
    }
    assert(names.take(j as int) == names);
}

/// The nodes of a test of all nodes, in order and each once.
pub fn collect_bulk_delay_targets(groups: &Vec<ProxyGroupView>) -> (r: Vec<String>)
    ensures
        order::increasing(text::texts(r@)),
        forall|t: Seq<char>| #[trigger]
            text::texts(r@).contains(t) <==> is_target(groups_view(groups@), t),
{
    let ghost all = groups_view(groups@);
    let mut out: Vec<String> = Vec::new();
    let mut i: usize = 0;
    while i < groups.len()
        invariant
            i <= groups@.len(),
            all == groups_view(groups@),
            order::increasing(text::texts(out@)),
            forall|t: Seq<char>| #[trigger]
                text::texts(out@).contains(t) <==> is_candidate(all.take(i as int), t)
                    && !is_group_name(all, t) && !is_builtin(t),
        decreases groups@.len() - i,
    {
        let ghost done = text::texts(out@);
        add_targets(&mut out, groups, i);
        proof {
            let here = all.take(i as int);
            let next = all.take(i + 1);
            assert forall|t: Seq<char>| #[trigger]
                text::texts(out@).contains(t) <==> is_candidate(next, t) && !is_group_name(all, t)
                    && !is_builtin(t) by {
                assert(done.contains(t) <==> is_candidate(here, t) && !is_group_name(all, t)
                    && !is_builtin(t));
                assert(is_candidate(next, t) <==> is_candidate(here, t)
                    || all[i as int].candidates.contains(t)) by {
                    if is_candidate(here, t) {
                        let k = choose|k: int|
                            0 <= k < here.len() && (#[trigger] here[k]).candidates.contains(t);
                        assert(next[k] == here[k]);
                    }
                    if all[i as int].candidates.contains(t) {
                        assert(next[i as int] == all[i as int]);
                    }
                    if is_candidate(next, t) {
                        let k = choose|k: int|
                            0 <= k < next.len() && (#[trigger] next[k]).candidates.contains(t);
                        if k < i {
                            assert(here[k] == next[k]);
                        } else {
                            assert(next[k] == all[i as int]);
                        }
                    }
                }
            }
        }
        i = i + 1;
    }
    assert(all.take(i as int) == all);
    out
}

} // verus!
