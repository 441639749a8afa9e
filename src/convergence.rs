use vstd::prelude::*;

verus! {

/// What a cluster knows: for each node name, the values that node holds.
pub type Knowledge = Map<Seq<char>, Set<i64>>;

/// Who gossips to whom: for each node name, its neighbor list.
pub type Graph = Map<Seq<char>, Seq<Seq<char>>>;

/// The values node `v` receives in one round: those of every node that
/// lists `v` as a neighbor.
pub open spec fn received(g: Graph, st: Knowledge, v: Seq<char>) -> Set<i64> {
    Set::new(
        |x: i64|
            exists|u: Seq<char>|
                #![trigger st[u].contains(x), g[u].contains(v)]
                st.dom().contains(u) && g.dom().contains(u) && g[u].contains(v) && st[u].contains(
                    x,
                ),
    )
}

/// One gossip round in which every node sends all it knows to each of its
/// neighbors, and every node merges what it receives: what a node's
/// `gossip_round` emits and what `handle` does with a `gossip`.
pub open spec fn gossip_step(g: Graph, st: Knowledge) -> Knowledge {
    Map::new(|v: Seq<char>| st.dom().contains(v), |v: Seq<char>| st[v].union(received(g, st, v)))
}

/// The knowledge after `k` rounds.
pub open spec fn after_rounds(g: Graph, st: Knowledge, k: nat) -> Knowledge
    decreases k,
{
    if k == 0 {
        st
    } else {
        gossip_step(g, after_rounds(g, st, (k - 1) as nat))
    }
}

/// `p` is a walk through the cluster along neighbor edges.
pub open spec fn is_path(g: Graph, st: Knowledge, p: Seq<Seq<char>>) -> bool {
    &&& p.len() >= 1
    &&& forall|i: int| 0 <= i < p.len() ==> st.dom().contains(#[trigger] p[i])
    &&& forall|i: int|
        0 <= i < p.len() - 1 ==> g.dom().contains(#[trigger] p[i]) && g[p[i]].contains(p[i + 1])
}

proof fn lemma_rounds_dom(g: Graph, st: Knowledge, k: nat)
    ensures
        after_rounds(g, st, k).dom() == st.dom(),
    decreases k,
{
    if k > 0 {
        lemma_rounds_dom(g, st, (k - 1) as nat);
        assert(after_rounds(g, st, k).dom() =~= st.dom());
    }
}

/// Nothing known is forgotten from one round to a later one.
pub proof fn lemma_rounds_monotone(g: Graph, st: Knowledge, v: Seq<char>, j: nat, k: nat)
    requires
        st.dom().contains(v),
        j <= k,
    ensures
        after_rounds(g, st, j)[v].subset_of(after_rounds(g, st, k)[v]),
    decreases k - j,
{
    if j < k {
        lemma_rounds_monotone(g, st, v, j, (k - 1) as nat);
        lemma_rounds_dom(g, st, (k - 1) as nat);
    }
}

/// A value travels one edge per round: after as many rounds as a path has
/// edges, its last node knows every value its first node knew.
pub proof fn lemma_path_spreads(g: Graph, st: Knowledge, p: Seq<Seq<char>>, x: i64)
    requires
        is_path(g, st, p),
        st[p[0]].contains(x),
    ensures
        after_rounds(g, st, (p.len() - 1) as nat)[p.last()].contains(x),
    decreases p.len(),
{
    if p.len() > 1 {
        let q = p.drop_last();
        assert forall|i: int| 0 <= i < q.len() implies st.dom().contains(#[trigger] q[i]) by {
            assert(st.dom().contains(p[i]));
        };
        assert forall|i: int| 0 <= i < q.len() - 1 implies g.dom().contains(#[trigger] q[i])
            && g[q[i]].contains(q[i + 1]) by {
            assert(g.dom().contains(p[i]) && g[p[i]].contains(p[i + 1]));
        };
        lemma_path_spreads(g, st, q, x);
        let k = (p.len() - 2) as nat;
        let prev = after_rounds(g, st, k);
        let u = p[p.len() - 2];
        let v = p.last();
        lemma_rounds_dom(g, st, k);
        assert(st.dom().contains(u));
        assert(st.dom().contains(v));
        assert(g.dom().contains(u) && g[u].contains(v));
        assert(prev[u].contains(x));
        assert(received(g, prev, v).contains(x));
        assert(after_rounds(g, st, (k + 1) as nat) == gossip_step(g, prev));
    }
}

/// Convergence: if every node can be reached from `src` by a path of at most
/// `k` edges, then after `k` rounds every node knows each value `src` knew.
pub proof fn lemma_convergence(g: Graph, st: Knowledge, src: Seq<char>, x: i64, k: nat)
    requires
        st.dom().contains(src),
        st[src].contains(x),
        forall|v: Seq<char>|
            #[trigger] st.dom().contains(v) ==> exists|p: Seq<Seq<char>>|
                is_path(g, st, p) && p[0] == src && p.last() == v && p.len() <= k + 1,
    ensures
        forall|v: Seq<char>| #[trigger] st.dom().contains(v) ==> after_rounds(g, st, k)[v].contains(x),
{
    assert forall|v: Seq<char>| #[trigger] st.dom().contains(v) implies after_rounds(
        g,
        st,
        k,
    )[v].contains(x) by {
        let p = choose|p: Seq<Seq<char>>|
            is_path(g, st, p) && p[0] == src && p.last() == v && p.len() <= k + 1;
        lemma_path_spreads(g, st, p, x);
        lemma_rounds_monotone(g, st, v, (p.len() - 1) as nat, k);
    };
}

} // verus!
