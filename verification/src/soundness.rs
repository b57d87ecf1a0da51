//! What holds of every walk: it renders each node once, it puts each node
//! after those on which it depends, there is at most one, and there is none
//! where the dependencies run in a circle.

use vstd::prelude::*;
use crate::pgx_sql::PgxSqlView;
use crate::walk::lemma_distinct_bounded;

verus! {

impl PgxSqlView {
    /// A walk names nodes only, and none of them twice.
    pub proof fn lemma_walk_distinct(self, order: Seq<usize>)
        requires
            self.is_walk(order),
        ensures
            order.no_duplicates(),
            forall|i: int| 0 <= i < order.len() ==> (#[trigger] order[i]) < self.nodes.len(),
    {
        assert forall|i: int| 0 <= i < order.len() implies (#[trigger] order[i])
            < self.nodes.len() by {
            assert(self.next_node(order.take(i), order[i] as int));
        }
        assert forall|i: int, j: int| 0 <= i < order.len() && 0 <= j < order.len() && i != j implies order[i]
            != order[j] by {
            let (lo, hi) = if i < j {
                (i, j)
            } else {
                (j, i)
            };
            assert(self.next_node(order.take(hi), order[hi] as int));
            assert(order.take(hi)[lo] == order[lo]);
        }
    }

    /// A walk names every node.
    pub proof fn lemma_walk_complete(self, order: Seq<usize>, v: usize)
        requires
            self.is_walk(order),
            v < self.nodes.len(),
        ensures
            order.contains(v),
    {
        self.lemma_walk_distinct(order);
        if !order.contains(v) {
            let longer = order.push(v);
            assert forall|i: int, j: int|
                0 <= i < longer.len() && 0 <= j < longer.len() && i != j implies longer[i]
                != longer[j] by {
                if i < order.len() {
                    assert(longer[i] == order[i]);
                }
                if j < order.len() {
                    assert(longer[j] == order[j]);
                }
            }
            lemma_distinct_bounded(longer, self.nodes.len());
        }
    }

    /// Topological soundness: in a walk, a node on which another depends
    /// stands before that other node.
    pub proof fn lemma_walk_topological(self, order: Seq<usize>, a: int, b: int)
        requires
            self.is_walk(order),
            0 <= a < self.nodes.len(),
            self.has_edge(a, b),
        ensures
            exists|i: int, j: int|
                0 <= j < i < order.len() && #[trigger] order[i] == a && #[trigger] order[j] == b,
    {
        self.lemma_walk_complete(order, a as usize);
        let i = choose|i: int| 0 <= i < order.len() && order[i] == a as usize;
        assert(self.next_node(order.take(i), order[i] as int));
        let k = choose|k: int|
            0 <= k < self.edges.len() && (#[trigger] self.edges[k]).0 == a && self.edges[k].1 == b;
        assert(order.take(i).contains(self.edges[k].1));
        let j = choose|j: int| 0 <= j < order.take(i).len() && order.take(i)[j] == self.edges[k].1;
        assert(order[j] == b);
    }

    proof fn lemma_walk_prefix(self, first: Seq<usize>, second: Seq<usize>, k: int)
        requires
            self.is_walk(first),
            self.is_walk(second),
            0 <= k <= self.nodes.len(),
        ensures
            first.take(k) == second.take(k),
        decreases k,
    {
        if k == 0 {
            assert(first.take(0) =~= second.take(0));
        } else {
            self.lemma_walk_prefix(first, second, k - 1);
            let placed = first.take(k - 1);
            let v = first[k - 1] as int;
            let w = second[k - 1] as int;
            assert(self.next_node(placed, v));
            assert(self.next_node(second.take(k - 1), w));
            if v != w {
                assert(self.precedes(v, w));
                assert(self.precedes(w, v));
                self.lemma_precedes_asymmetric(v, w);
            }
            assert(first.take(k) =~= placed.push(first[k - 1]));
            assert(second.take(k) =~= placed.push(second[k - 1]));
        }
    }

    /// Determinism: the registries and the graph admit at most one walk.
    pub proof fn lemma_walk_unique(self, first: Seq<usize>, second: Seq<usize>)
        requires
            self.is_walk(first),
            self.is_walk(second),
        ensures
            first == second,
    {
        self.lemma_walk_prefix(first, second, self.nodes.len() as int);
        assert(first.take(first.len() as int) =~= first);
        assert(second.take(second.len() as int) =~= second);
    }

    /// The place of node `v` in `order`.
    pub open spec fn place(order: Seq<usize>, v: usize) -> int {
        choose|i: int| 0 <= i < order.len() && order[i] == v
    }

    proof fn lemma_cycle_descends(self, order: Seq<usize>, cycle: Seq<usize>, i: int)
        requires
            self.is_walk(order),
            self.is_cycle(cycle),
            0 <= i < cycle.len(),
        ensures
            0 <= Self::place(order, cycle[i]) <= Self::place(order, cycle[0]) - i,
        decreases i,
    {
        self.lemma_walk_distinct(order);
        self.lemma_walk_complete(order, cycle[i]);
        if i > 0 {
            self.lemma_cycle_descends(order, cycle, i - 1);
            assert(self.has_edge(cycle[i - 1] as int, cycle[i] as int));
            self.lemma_walk_topological(order, cycle[i - 1] as int, cycle[i] as int);
            self.lemma_walk_complete(order, cycle[i - 1]);
        }
    }

    /// Cycle rejection: where nodes depend on each other in a circle, there
    /// is no walk.
    pub proof fn lemma_cycle_excludes_walk(self, order: Seq<usize>, cycle: Seq<usize>)
        requires
            self.is_cycle(cycle),
        ensures
            !self.is_walk(order),
    {
        if self.is_walk(order) {
            let last = cycle.len() - 1;
            self.lemma_walk_distinct(order);
            self.lemma_cycle_descends(order, cycle, last);
            self.lemma_walk_topological(order, cycle[last] as int, cycle[0] as int);
            self.lemma_walk_complete(order, cycle[0]);
            self.lemma_walk_complete(order, cycle[last]);
        }
    }

    /// The order in which the nodes are rendered, if the dependencies allow
    /// one. There is at most one such order.
    pub open spec fn walk(self) -> Option<Seq<usize>> {
        if exists|order: Seq<usize>| self.is_walk(order) {
            Some(choose|order: Seq<usize>| self.is_walk(order))
        } else {
            None
        }
    }
}

} // verus!
