//! Clusters of correlated identifiers: the connected components of the
//! graph whose edges are the pairs correlated above the threshold.
use vstd::prelude::*;
use vstd::set_lib::lemma_len_subset;
use crate::discovery::correlator::{distinct_texts, holds_id};
use crate::text::texts;

verus! {

/// Whether the edge joins `a` and `b` (in either direction).
pub open spec fn linked(e: (String, String), a: Seq<char>, b: Seq<char>) -> bool {
    (e.0@ == a && e.1@ == b) || (e.0@ == b && e.1@ == a)
}

/// Whether some edge joins `a` and `b`.
pub open spec fn adjacent(edges: Seq<(String, String)>, a: Seq<char>, b: Seq<char>) -> bool {
    exists|e: int| 0 <= e < edges.len() && #[trigger] linked(edges[e], a, b)
}

/// Whether `b` can be reached from `a` in at most `n` steps along edges.
pub open spec fn reach(edges: Seq<(String, String)>, a: Seq<char>, b: Seq<char>, n: nat) -> bool
    decreases n,
{
    if a == b {
        true
    } else if n == 0 {
        false
    } else {
        exists|c: Seq<char>| #[trigger] adjacent(edges, c, b) && reach(edges, a, c, (n - 1) as nat)
    }
}

/// Whether `b` can be reached from `a` along edges.
pub open spec fn connected(edges: Seq<(String, String)>, a: Seq<char>, b: Seq<char>) -> bool {
    exists|n: nat| #[trigger] reach(edges, a, b, n)
}

/// Whether the identifier is an end of some edge.
pub open spec fn is_node(edges: Seq<(String, String)>, a: Seq<char>) -> bool {
    exists|e: int| 0 <= e < edges.len() && (#[trigger] edges[e].0@ == a || edges[e].1@ == a)
}

/// Whether every neighbour of a member is a member.
pub open spec fn closed(edges: Seq<(String, String)>, c: Seq<Seq<char>>) -> bool {
    forall|a: Seq<char>, b: Seq<char>| #![trigger c.contains(a), adjacent(edges, a, b)]
        c.contains(a) && adjacent(edges, a, b) ==> c.contains(b)
}

/// Whether the cluster is one connected component: not empty, each member
/// once, every member an end of an edge reached from the first member, and
/// every neighbour of a member a member.
pub open spec fn component(edges: Seq<(String, String)>, c: Seq<Seq<char>>) -> bool {
    &&& c.len() > 0
    &&& distinct_texts(c)
    &&& closed(edges, c)
    &&& forall|x: Seq<char>| #[trigger] c.contains(x) ==> is_node(edges, x) && connected(edges, c[0], x)
}

/// Whether two clusters share no member.
pub open spec fn disjoint_texts(c1: Seq<Seq<char>>, c2: Seq<Seq<char>>) -> bool {
    forall|x: Seq<char>| #[trigger] c1.contains(x) ==> !c2.contains(x)
}

proof fn lemma_linked_symmetric(edges: Seq<(String, String)>, a: Seq<char>, b: Seq<char>)
    requires
        adjacent(edges, a, b),
    ensures
        adjacent(edges, b, a),
{
    let e = choose|e: int| 0 <= e < edges.len() && #[trigger] linked(edges[e], a, b);
    assert(linked(edges[e], b, a));
}

proof fn lemma_reach_extend(edges: Seq<(String, String)>, a: Seq<char>, c: Seq<char>, b: Seq<char>, n: nat)
    requires
        reach(edges, a, c, n),
        adjacent(edges, c, b),
    ensures
        reach(edges, a, b, n + 1),
{
    if a != b {
        assert(adjacent(edges, c, b) && reach(edges, a, c, ((n + 1) - 1) as nat));
    }
}

/// A closed set that holds a node reached from `a` holds `a` too.
proof fn lemma_reach_closed(edges: Seq<(String, String)>, c: Seq<Seq<char>>, a: Seq<char>, m: Seq<char>, n: nat)
    requires
        closed(edges, c),
        reach(edges, a, m, n),
        c.contains(m),
    ensures
        c.contains(a),
    decreases n,
{
    if a != m {
        let mid = choose|mid: Seq<char>| #[trigger] adjacent(edges, mid, m) && reach(edges, a, mid, (n - 1) as nat);
        lemma_linked_symmetric(edges, mid, m);
        assert(c.contains(m) && adjacent(edges, m, mid));
        lemma_reach_closed(edges, c, a, mid, (n - 1) as nat);
    }
}

/// A sequence without repeats, all of whose members are in `all`, is no
/// longer than `all`.
proof fn lemma_distinct_subset_len(c: Seq<Seq<char>>, all: Seq<Seq<char>>)
    requires
        distinct_texts(c),
        forall|x: Seq<char>| #[trigger] c.contains(x) ==> all.contains(x),
    ensures
        c.len() <= all.len(),
{
    assert(c.no_duplicates()) by {
        assert forall|i: int, j: int| 0 <= i < c.len() && 0 <= j < c.len() && i != j implies c[i] != c[j] by {
            if i < j {
                assert(c[i] != c[j]);
            } else {
                assert(c[j] != c[i]);
            }
        }
    }
    c.unique_seq_to_set();
    all.lemma_cardinality_of_set();
    assert(c.to_set().subset_of(all.to_set())) by {
        assert forall|x: Seq<char>| c.to_set().contains(x) implies all.to_set().contains(x) by {
            assert(c.contains(x));
        }
    }
    lemma_len_subset(c.to_set(), all.to_set());
}

proof fn lemma_node_prefix(edges: Seq<(String, String)>, n: int, m: int, x: Seq<char>)
    requires
        0 <= n <= m <= edges.len(),
        is_node(edges.take(n), x),
    ensures
        is_node(edges.take(m), x),
{
    assert forall|f: int| 0 <= f < n implies #[trigger] edges.take(m)[f] == edges.take(n)[f] by {}
}

/// The ends of the edges, each once.
fn nodes_of(edges: &[(String, String)]) -> (r: Vec<String>)
    ensures
        distinct_texts(texts(r@)),
        forall|x: Seq<char>| #[trigger] texts(r@).contains(x) <==> is_node(edges@, x),
{
    let mut out: Vec<String> = Vec::new();
    let mut e: usize = 0;
    while e < edges.len()
        invariant
            e <= edges@.len(),
            distinct_texts(texts(out@)),
            forall|x: Seq<char>| #[trigger] texts(out@).contains(x) <==> is_node(edges@.take(e as int), x),
        decreases edges@.len() - e,
    {
        let ghost start = out@;
        let a: &String = &edges[e].0;
        if !holds_id(&out, a.as_str()) {
            out.push(a.clone());
            assert(texts(out@) =~= texts(start).push(a@));
        }
        let ghost mid = out@;
        let b: &String = &edges[e].1;
        if !holds_id(&out, b.as_str()) {
            out.push(b.clone());
            assert(texts(out@) =~= texts(mid).push(b@));
        }
        proof {
            let pre = edges@.take(e as int);
            let post = edges@.take(e + 1);
            if mid.len() > start.len() {
                assert(texts(mid)[start.len() as int] == a@);
            }
            assert(texts(mid).contains(a@));
            let ta = choose|t: int| 0 <= t < texts(mid).len() && texts(mid)[t] == a@;
            assert(texts(out@)[ta] == a@);
            if out@.len() > mid.len() {
                assert(texts(out@)[mid.len() as int] == b@);
            }
            assert(texts(out@).contains(b@));
            assert(post[e as int].0@ == a@);
            assert(post[e as int].1@ == b@);
            assert forall|x: Seq<char>| #[trigger] texts(out@).contains(x) <==> is_node(post, x) by {
                if texts(start).contains(x) {
                    assert(is_node(pre, x));
                    let t = choose|t: int| 0 <= t < texts(start).len() && texts(start)[t] == x;
                    assert(texts(mid)[t] == x);
                    assert(texts(out@)[t] == x);
                    lemma_node_prefix(edges@, e as int, e + 1, x);
                }
                if x == a@ || x == b@ {
                    assert(post[e as int].0@ == x || post[e as int].1@ == x);
                }
                if is_node(post, x) {
                    let f = choose|f: int| 0 <= f < post.len() && (#[trigger] post[f].0@ == x || post[f].1@ == x);
                    if f < e {
                        assert(pre[f] == post[f]);
                        assert(is_node(pre, x));
                        assert(texts(start).contains(x));
                    }
                }
                if texts(out@).contains(x) && x != a@ && x != b@ {
                    let t = choose|t: int| 0 <= t < texts(out@).len() && texts(out@)[t] == x;
                    assert(t < texts(start).len());
                    assert(texts(start)[t] == x);
                    assert(texts(start).contains(x));
                }
            }
        }
        e = e + 1;
    }
    proof {
        assert(edges@.take(edges@.len() as int) =~= edges@);
    }
    out
}

/// The connected component of `root`, found by adding neighbours of members
/// until a pass over the edges adds none.
fn grow_cluster(edges: &[(String, String)], nodes: &Vec<String>, root: &String) -> (r: Vec<String>)
    requires
        distinct_texts(texts(nodes@)),
        forall|x: Seq<char>| #[trigger] texts(nodes@).contains(x) <==> is_node(edges@, x),
        is_node(edges@, root@),
    ensures
        texts(r@)[0] == root@,
        component(edges@, texts(r@)),
{
    let mut cluster: Vec<String> = Vec::new();
    cluster.push(root.clone());
    proof {
        assert(texts(cluster@) =~= seq![root@]);
        assert(reach(edges@, root@, root@, 0));
        assert(texts(nodes@).contains(root@));
    }
    let mut changed = true;
    while changed
        invariant
            distinct_texts(texts(nodes@)),
            forall|x: Seq<char>| #[trigger] texts(nodes@).contains(x) <==> is_node(edges@, x),
            cluster@.len() > 0,
            texts(cluster@)[0] == root@,
            distinct_texts(texts(cluster@)),
            forall|x: Seq<char>| #[trigger] texts(cluster@).contains(x) ==> is_node(edges@, x) && connected(edges@, root@, x),
            !changed ==> closed(edges@, texts(cluster@)),
            cluster@.len() <= nodes@.len(),
        decreases nodes@.len() - cluster@.len() + if changed { 1int } else { 0int },
    {
        let start_len = cluster.len();
        let mut added = false;
        let mut e: usize = 0;
        while e < edges.len()
            invariant
                distinct_texts(texts(nodes@)),
                forall|x: Seq<char>| #[trigger] texts(nodes@).contains(x) <==> is_node(edges@, x),
                e <= edges@.len(),
                cluster@.len() >= start_len,
                start_len > 0,
                added == (cluster@.len() > start_len),
                texts(cluster@)[0] == root@,
                distinct_texts(texts(cluster@)),
                forall|x: Seq<char>| #[trigger] texts(cluster@).contains(x) ==> is_node(edges@, x) && connected(edges@, root@, x),
                !added ==> forall|f: int| 0 <= f < e ==>
                    (texts(cluster@).contains(#[trigger] edges@[f].0@) <==> texts(cluster@).contains(edges@[f].1@)),
            decreases edges@.len() - e,
        {
            let a: &String = &edges[e].0;
            let b: &String = &edges[e].1;
            let a_in = holds_id(&cluster, a.as_str());
            let b_in = holds_id(&cluster, b.as_str());
            let ghost prev = cluster@;
            if a_in && !b_in {
                cluster.push(b.clone());
                added = true;
                proof {
                    assert(texts(cluster@) =~= texts(prev).push(b@));
                    assert(linked(edges@[e as int], a@, b@));
                    assert(adjacent(edges@, a@, b@));
                    let n = choose|n: nat| #[trigger] reach(edges@, root@, a@, n);
                    lemma_reach_extend(edges@, root@, a@, b@, n);
                    assert(is_node(edges@, b@)) by {
                        assert(edges@[e as int].1@ == b@);
                    }
                    assert(reach(edges@, root@, b@, n + 1));
                    assert(connected(edges@, root@, b@));
                    assert forall|x: Seq<char>| #[trigger] texts(cluster@).contains(x) implies is_node(edges@, x) && connected(edges@, root@, x) by {
                        if x != b@ {
                            let t = choose|t: int| 0 <= t < texts(cluster@).len() && texts(cluster@)[t] == x;
                            assert(texts(prev)[t] == x);
                            assert(texts(prev).contains(x));
                        }
                    }
                }
            } else if b_in && !a_in {
                cluster.push(a.clone());
                added = true;
                proof {
                    assert(texts(cluster@) =~= texts(prev).push(a@));
                    assert(linked(edges@[e as int], b@, a@));
                    assert(adjacent(edges@, b@, a@));
                    let n = choose|n: nat| #[trigger] reach(edges@, root@, b@, n);
                    lemma_reach_extend(edges@, root@, b@, a@, n);
                    assert(is_node(edges@, a@)) by {
                        assert(edges@[e as int].0@ == a@);
                    }
                    assert(reach(edges@, root@, a@, n + 1));
                    assert(connected(edges@, root@, a@));
                    assert forall|x: Seq<char>| #[trigger] texts(cluster@).contains(x) implies is_node(edges@, x) && connected(edges@, root@, x) by {
                        if x != a@ {
                            let t = choose|t: int| 0 <= t < texts(cluster@).len() && texts(cluster@)[t] == x;
                            assert(texts(prev)[t] == x);
                            assert(texts(prev).contains(x));
                        }
                    }
                }
            }
            e = e + 1;
        }
        proof {
            if !added {
                assert forall|a: Seq<char>, b: Seq<char>| #![trigger texts(cluster@).contains(a), adjacent(edges@, a, b)]
                    texts(cluster@).contains(a) && adjacent(edges@, a, b) implies texts(cluster@).contains(b) by {
                    let f = choose|f: int| 0 <= f < edges@.len() && #[trigger] linked(edges@[f], a, b);
                    assert(texts(cluster@).contains(edges@[f].0@) <==> texts(cluster@).contains(edges@[f].1@));
                }
            }
            lemma_distinct_subset_len(texts(cluster@), texts(nodes@));
        }
        changed = added;
    }
    cluster
}

/// Find clusters of correlated identifiers (connected components of the
/// graph of the given edges); every end of an edge is in exactly one
/// cluster.
pub fn find_clusters(edges: &[(String, String)]) -> (r: Vec<Vec<String>>)
    ensures
        forall|k: int| 0 <= k < r@.len() ==> component(edges@, texts(#[trigger] r@[k]@)),
        forall|x: Seq<char>| is_node(edges@, x) ==> exists|k: int| 0 <= k < r@.len() && #[trigger] texts(r@[k]@).contains(x),
        forall|k1: int, k2: int| 0 <= k1 < k2 < r@.len() ==> disjoint_texts(texts(#[trigger] r@[k1]@), texts(#[trigger] r@[k2]@)),
{
    let nodes = nodes_of(edges);
    let mut clusters: Vec<Vec<String>> = Vec::new();
    let mut assigned: Vec<String> = Vec::new();
    let mut k: usize = 0;
    while k < nodes.len()
        invariant
            k <= nodes@.len(),
            distinct_texts(texts(nodes@)),
            forall|x: Seq<char>| #[trigger] texts(nodes@).contains(x) <==> is_node(edges@, x),
            forall|c: int| 0 <= c < clusters@.len() ==> component(edges@, texts(#[trigger] clusters@[c]@)),
            forall|x: Seq<char>| #[trigger] texts(assigned@).contains(x) <==>
                exists|c: int| 0 <= c < clusters@.len() && #[trigger] texts(clusters@[c]@).contains(x),
            forall|j: int| 0 <= j < k ==> texts(assigned@).contains(#[trigger] texts(nodes@)[j]),
            forall|c1: int, c2: int| 0 <= c1 < c2 < clusters@.len() ==> disjoint_texts(texts(#[trigger] clusters@[c1]@), texts(#[trigger] clusters@[c2]@)),
        decreases nodes@.len() - k,
    {
        let ghost prev_assigned = assigned@;
        let ghost prev_clusters = clusters@;
        if !holds_id(&assigned, nodes[k].as_str()) {
            assert(texts(nodes@).contains(nodes@[k as int]@)) by {
                assert(texts(nodes@)[k as int] == nodes@[k as int]@);
            }
            let cl = grow_cluster(edges, &nodes, &nodes[k]);
            let ghost c_new = texts(cl@);
            proof {
                assert forall|c: int| 0 <= c < prev_clusters.len() implies disjoint_texts(texts(#[trigger] prev_clusters[c]@), c_new) by {
                    let old_c = texts(prev_clusters[c]@);
                    assert forall|x: Seq<char>| #[trigger] old_c.contains(x) implies !c_new.contains(x) by {
                        if c_new.contains(x) {
                            let n = choose|n: nat| #[trigger] reach(edges@, c_new[0], x, n);
                            assert(component(edges@, old_c));
                            lemma_reach_closed(edges@, old_c, c_new[0], x, n);
                            assert(texts(assigned@).contains(nodes@[k as int]@));
                        }
                    }
                }
            }
            let mut t: usize = 0;
            while t < cl.len()
                invariant
                    t <= cl@.len(),
                    c_new == texts(cl@),
                    forall|x: Seq<char>| #[trigger] texts(assigned@).contains(x) <==>
                        (texts(prev_assigned).contains(x) || texts(cl@.take(t as int)).contains(x)),
                decreases cl@.len() - t,
            {
                let ghost before = assigned@;
                assigned.push(cl[t].clone());
                proof {
                    assert(texts(assigned@) =~= texts(before).push(cl@[t as int]@));
                    assert(texts(cl@.take(t + 1)) =~= texts(cl@.take(t as int)).push(cl@[t as int]@));
                    let y = cl@[t as int]@;
                    assert(texts(assigned@)[texts(before).len() as int] == y);
                    assert(texts(cl@.take(t + 1))[t as int] == y);
                    assert forall|x: Seq<char>| #[trigger] texts(assigned@).contains(x) <==>
                        (texts(prev_assigned).contains(x) || texts(cl@.take(t + 1)).contains(x)) by {
                        if texts(assigned@).contains(x) && x != y {
                            let i = choose|i: int| 0 <= i < texts(assigned@).len() && texts(assigned@)[i] == x;
                            assert(texts(before)[i] == x);
                            assert(texts(before).contains(x));
                        }
                        if texts(before).contains(x) {
                            let i = choose|i: int| 0 <= i < texts(before).len() && texts(before)[i] == x;
                            assert(texts(assigned@)[i] == x);
                        }
                        if texts(cl@.take(t + 1)).contains(x) && x != y {
                            let i = choose|i: int| 0 <= i < texts(cl@.take(t + 1)).len() && #[trigger] texts(cl@.take(t + 1))[i] == x;
                            assert(texts(cl@.take(t as int))[i] == x);
                            assert(texts(before).contains(x));
                        }
                        if texts(cl@.take(t as int)).contains(x) {
                            let i = choose|i: int| 0 <= i < texts(cl@.take(t as int)).len() && #[trigger] texts(cl@.take(t as int))[i] == x;
                            assert(texts(cl@.take(t + 1))[i] == x);
                        }
                        if texts(prev_assigned).contains(x) {
                            assert(texts(before).contains(x));
                        }
                    }
                }
                t = t + 1;
            }
            proof {
                assert(cl@.take(cl@.len() as int) =~= cl@);
            }
            clusters.push(cl);
            proof {
                assert(clusters@[prev_clusters.len() as int] == cl);
                assert forall|x: Seq<char>| #[trigger] texts(assigned@).contains(x) <==>
                    exists|c: int| 0 <= c < clusters@.len() && #[trigger] texts(clusters@[c]@).contains(x) by {
                    if texts(prev_assigned).contains(x) {
                        let c = choose|c: int| 0 <= c < prev_clusters.len() && #[trigger] texts(prev_clusters[c]@).contains(x);
                        assert(clusters@[c] == prev_clusters[c]);
                    }
                    if exists|c: int| 0 <= c < clusters@.len() && #[trigger] texts(clusters@[c]@).contains(x) {
                        let c = choose|c: int| 0 <= c < clusters@.len() && #[trigger] texts(clusters@[c]@).contains(x);
                        if c < prev_clusters.len() {
                            assert(clusters@[c] == prev_clusters[c]);
                        }
                    }
                }
                assert(texts(cl@)[0] == nodes@[k as int]@);
                assert(texts(assigned@).contains(texts(nodes@)[k as int]));
                assert forall|j: int| 0 <= j < k + 1 implies texts(assigned@).contains(#[trigger] texts(nodes@)[j]) by {
                    if j < k {
                        assert(texts(prev_assigned).contains(texts(nodes@)[j]));
                    }
                }
                assert forall|c: int| 0 <= c < clusters@.len() implies component(edges@, texts(#[trigger] clusters@[c]@)) by {
                    if c < prev_clusters.len() {
                        assert(clusters@[c] == prev_clusters[c]);
                    }
                }
                assert forall|c1: int, c2: int| 0 <= c1 < c2 < clusters@.len() implies disjoint_texts(texts(#[trigger] clusters@[c1]@), texts(#[trigger] clusters@[c2]@)) by {
                    assert(clusters@[c1] == prev_clusters[c1]);
                    if c2 < prev_clusters.len() {
                        assert(clusters@[c2] == prev_clusters[c2]);
                    }
                }
            }
        } else {
            proof {
                assert(texts(assigned@).contains(texts(nodes@)[k as int]));
            }
        }
        k = k + 1;
    }
    proof {
        assert forall|x: Seq<char>| is_node(edges@, x) implies exists|c: int| 0 <= c < clusters@.len() && #[trigger] texts(clusters@[c]@).contains(x) by {
            assert(texts(nodes@).contains(x));
            let j = choose|j: int| 0 <= j < texts(nodes@).len() && texts(nodes@)[j] == x;
            assert(texts(assigned@).contains(texts(nodes@)[j]));
        }
    }
    clusters
}

} // verus!
