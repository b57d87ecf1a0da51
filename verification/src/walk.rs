//! The order in which the entities are rendered: each after those on which
//! it depends, and among those that could come next the one that was
//! declared first.

use vstd::prelude::*;
use crate::entity::SqlGraphEntity;
use crate::error::{PgxSqlError, PgxSqlErrorView};
use crate::graph::{graph_edge_count, graph_edge_endpoints, graph_node, graph_node_count};
use crate::pgx_sql::{PgxSql, PgxSqlView};
use crate::text::{
    lemma_text_lt_asymmetric, lemma_text_lt_irreflexive, lemma_text_lt_total,
    lemma_text_lt_transitive, text_lt, text_order, to_chars, TextOrder,
};

verus! {

impl PgxSqlView {
    /// The file in which an entity was declared.
    pub open spec fn entity_file(self, e: SqlGraphEntity) -> Seq<char> {
        match e {
            SqlGraphEntity::Schema(i) => self.schemas[i as int].file,
            SqlGraphEntity::CustomSql(i) => self.extension_sqls[i as int].file,
            SqlGraphEntity::Function(i) => self.externs[i as int].file,
            SqlGraphEntity::Type(i) => self.types[i as int].file,
            SqlGraphEntity::Enum(i) => self.enums[i as int].file,
            SqlGraphEntity::Ord(i) => self.ords[i as int].file,
            SqlGraphEntity::Hash(i) => self.hashes[i as int].file,
        }
    }

    /// The line in which an entity was declared.
    pub open spec fn entity_line(self, e: SqlGraphEntity) -> u32 {
        match e {
            SqlGraphEntity::Schema(i) => self.schemas[i as int].line,
            SqlGraphEntity::CustomSql(i) => self.extension_sqls[i as int].line,
            SqlGraphEntity::Function(i) => self.externs[i as int].line,
            SqlGraphEntity::Type(i) => self.types[i as int].line,
            SqlGraphEntity::Enum(i) => self.enums[i as int].line,
            SqlGraphEntity::Ord(i) => self.ords[i as int].line,
            SqlGraphEntity::Hash(i) => self.hashes[i as int].line,
        }
    }

    /// The qualified path of an entity. That of a schema is the path of the
    /// module that declares it.
    pub open spec fn entity_path(self, e: SqlGraphEntity) -> Seq<char> {
        match e {
            SqlGraphEntity::Schema(i) => self.schemas[i as int].module,
            SqlGraphEntity::CustomSql(i) => self.extension_sqls[i as int].full_path,
            SqlGraphEntity::Function(i) => self.externs[i as int].full_path,
            SqlGraphEntity::Type(i) => self.types[i as int].full_path,
            SqlGraphEntity::Enum(i) => self.enums[i as int].full_path,
            SqlGraphEntity::Ord(i) => self.ords[i as int].full_path,
            SqlGraphEntity::Hash(i) => self.hashes[i as int].full_path,
        }
    }

    /// Whether node `a` is rendered before node `b` where the dependencies
    /// leave the choice: the one declared in the earlier file comes first,
    /// then the one on the earlier line, then the one with the earlier
    /// qualified path, and last the one with the smaller index.
    pub open spec fn precedes(self, a: int, b: int) -> bool {
        let x = self.nodes[a];
        let y = self.nodes[b];
        if self.entity_file(x) != self.entity_file(y) {
            text_lt(self.entity_file(x), self.entity_file(y))
        } else if self.entity_line(x) != self.entity_line(y) {
            self.entity_line(x) < self.entity_line(y)
        } else if self.entity_path(x) != self.entity_path(y) {
            text_lt(self.entity_path(x), self.entity_path(y))
        } else {
            a < b
        }
    }

    /// Whether node `v` can be rendered after the nodes `placed`: it is not
    /// among them, and every node on which it depends is.
    pub open spec fn ready(self, placed: Seq<usize>, v: int) -> bool {
        &&& 0 <= v < self.nodes.len()
        &&& !placed.contains(v as usize)
        &&& forall|k: int|
            0 <= k < self.edges.len() && (#[trigger] self.edges[k]).0 == v ==> placed.contains(
                self.edges[k].1,
            )
    }

    /// Whether node `v` waits for one of the first `m` edges: the edge leads
    /// from `v` to a node that is not among `placed`.
    pub open spec fn waits(self, placed: Seq<usize>, v: int, m: int) -> bool {
        exists|k: int|
            0 <= k < m && k < self.edges.len() && (#[trigger] self.edges[k]).0 == v
                && !placed.contains(self.edges[k].1)
    }

    /// Whether node `v` is the one to render after the nodes `placed`: it is
    /// ready, and it precedes every other node that is.
    pub open spec fn next_node(self, placed: Seq<usize>, v: int) -> bool {
        &&& self.ready(placed, v)
        &&& forall|w: int| w != v && #[trigger] self.ready(placed, w) ==> self.precedes(v, w)
    }

    /// Whether `order` is the order in which the nodes are rendered: it
    /// holds as many indices as there are nodes, and each is the one to
    /// render after those before it.
    pub open spec fn is_walk(self, order: Seq<usize>) -> bool {
        &&& order.len() == self.nodes.len()
        &&& forall|k: int|
            0 <= k < order.len() ==> self.next_node(#[trigger] order.take(k), order[k] as int)
    }

    /// Whether the nodes `cycle` depend on each other in a circle: each has
    /// an edge to the next, and the last to the first.
    pub open spec fn is_cycle(self, cycle: Seq<usize>) -> bool {
        &&& cycle.len() > 0
        &&& forall|i: int| 0 <= i < cycle.len() ==> (#[trigger] cycle[i]) < self.nodes.len()
        &&& forall|i: int|
            0 <= i < cycle.len() - 1 ==> self.has_edge(
                (#[trigger] cycle[i]) as int,
                cycle[i + 1] as int,
            )
        &&& self.has_edge(cycle.last() as int, cycle[0] as int)
    }

    /// Whether `e` reports a circle of dependencies: it holds the qualified
    /// paths of nodes that depend on each other in a circle, each node once.
    pub open spec fn reports_cycle(self, e: PgxSqlErrorView) -> bool {
        exists|cycle: Seq<usize>|
            self.is_cycle(cycle) && cycle.no_duplicates() && e == self.cycle_error(cycle)
    }

    /// The error that reports the circle `cycle` by the qualified paths of
    /// its entities.
    pub open spec fn cycle_error(self, cycle: Seq<usize>) -> PgxSqlErrorView {
        PgxSqlErrorView::CycleDetected {
            path: cycle.map_values(|v: usize| self.entity_path(self.nodes[v as int])),
        }
    }

    /// Of two different nodes one precedes the other.
    pub proof fn lemma_precedes_total(self, a: int, b: int)
        requires
            a != b,
        ensures
            self.precedes(a, b) || self.precedes(b, a),
    {
        let x = self.nodes[a];
        let y = self.nodes[b];
        lemma_text_lt_total(self.entity_file(x), self.entity_file(y));
        lemma_text_lt_total(self.entity_path(x), self.entity_path(y));
    }

    /// No node precedes one that precedes it.
    pub proof fn lemma_precedes_asymmetric(self, a: int, b: int)
        requires
            self.precedes(a, b),
        ensures
            !self.precedes(b, a),
    {
        let x = self.nodes[a];
        let y = self.nodes[b];
        if text_lt(self.entity_file(x), self.entity_file(y)) {
            lemma_text_lt_asymmetric(self.entity_file(x), self.entity_file(y));
        }
        if text_lt(self.entity_path(x), self.entity_path(y)) {
            lemma_text_lt_asymmetric(self.entity_path(x), self.entity_path(y));
        }
    }

    /// A node precedes what a node after it precedes.
    pub proof fn lemma_precedes_transitive(self, a: int, b: int, c: int)
        requires
            self.precedes(a, b),
            self.precedes(b, c),
        ensures
            self.precedes(a, c),
    {
        let x = self.nodes[a];
        let y = self.nodes[b];
        let z = self.nodes[c];
        let (fx, fy, fz) = (self.entity_file(x), self.entity_file(y), self.entity_file(z));
        let (px, py, pz) = (self.entity_path(x), self.entity_path(y), self.entity_path(z));
        if text_lt(fx, fy) && text_lt(fy, fz) {
            lemma_text_lt_transitive(fx, fy, fz);
        }
        if text_lt(px, py) && text_lt(py, pz) {
            lemma_text_lt_transitive(px, py, pz);
        }
        lemma_text_lt_irreflexive(fx);
        lemma_text_lt_irreflexive(px);
    }
}

/// By what a node is ordered among those that are ready.
struct NodeKey {
    file: Vec<char>,
    line: u32,
    path: Vec<char>,
}

/// Whether `keys` holds, for each node, where its entity was declared and
/// the path of that entity.
spec fn keys_of(view: PgxSqlView, keys: Seq<NodeKey>) -> bool {
    &&& keys.len() == view.nodes.len()
    &&& forall|v: int|
        0 <= v < keys.len() ==> {
            let key = #[trigger] keys[v];
            &&& key.file@ == view.entity_file(view.nodes[v])
            &&& key.line == view.entity_line(view.nodes[v])
            &&& key.path@ == view.entity_path(view.nodes[v])
        }
}

/// Whether `done` marks exactly the nodes `placed`.
spec fn marks(done: Seq<bool>, placed: Seq<usize>) -> bool {
    forall|w: int| 0 <= w < done.len() ==> (#[trigger] done[w] <==> placed.contains(w as usize))
}

impl PgxSql {
    /// The file in which an entity was declared.
    pub fn entity_file(&self, entity: SqlGraphEntity) -> (file: &String)
        requires
            self@.has_entity(entity),
        ensures
            file@ == self@.entity_file(entity),
    {
        match entity {
            SqlGraphEntity::Schema(i) => &self.inventory.schemas[i].file,
            SqlGraphEntity::CustomSql(i) => &self.inventory.extension_sqls[i].file,
            SqlGraphEntity::Function(i) => &self.inventory.externs[i].file,
            SqlGraphEntity::Type(i) => &self.inventory.types[i].file,
            SqlGraphEntity::Enum(i) => &self.inventory.enums[i].file,
            SqlGraphEntity::Ord(i) => &self.inventory.ords[i].file,
            SqlGraphEntity::Hash(i) => &self.inventory.hashes[i].file,
        }
    }

    /// The line in which an entity was declared.
    pub fn entity_line(&self, entity: SqlGraphEntity) -> (line: u32)
        requires
            self@.has_entity(entity),
        ensures
            line == self@.entity_line(entity),
    {
        match entity {
            SqlGraphEntity::Schema(i) => self.inventory.schemas[i].line,
            SqlGraphEntity::CustomSql(i) => self.inventory.extension_sqls[i].line,
            SqlGraphEntity::Function(i) => self.inventory.externs[i].line,
            SqlGraphEntity::Type(i) => self.inventory.types[i].line,
            SqlGraphEntity::Enum(i) => self.inventory.enums[i].line,
            SqlGraphEntity::Ord(i) => self.inventory.ords[i].line,
            SqlGraphEntity::Hash(i) => self.inventory.hashes[i].line,
        }
    }

    /// The qualified path of an entity.
    pub fn entity_path(&self, entity: SqlGraphEntity) -> (path: &String)
        requires
            self@.has_entity(entity),
        ensures
            path@ == self@.entity_path(entity),
    {
        match entity {
            SqlGraphEntity::Schema(i) => &self.inventory.schemas[i].module,
            SqlGraphEntity::CustomSql(i) => &self.inventory.extension_sqls[i].full_path,
            SqlGraphEntity::Function(i) => &self.inventory.externs[i].full_path,
            SqlGraphEntity::Type(i) => &self.inventory.types[i].full_path,
            SqlGraphEntity::Enum(i) => &self.inventory.enums[i].full_path,
            SqlGraphEntity::Ord(i) => &self.inventory.ords[i].full_path,
            SqlGraphEntity::Hash(i) => &self.inventory.hashes[i].full_path,
        }
    }

    fn node_keys(&self) -> (keys: Vec<NodeKey>)
        ensures
            keys_of(self@, keys@),
    {
        proof {
            use_type_invariant(&self.inventory);
        }
        let n = graph_node_count(&self.inventory.graph);
        let mut keys: Vec<NodeKey> = Vec::new();
        let mut v: usize = 0;
        while v < n
            invariant
                v <= n,
                n == self@.nodes.len(),
                self@.well_formed(),
                keys@.len() == v,
                forall|w: int|
                    0 <= w < v ==> {
                        let key = #[trigger] keys@[w];
                        &&& key.file@ == self@.entity_file(self@.nodes[w])
                        &&& key.line == self@.entity_line(self@.nodes[w])
                        &&& key.path@ == self@.entity_path(self@.nodes[w])
                    },
            decreases n - v,
        {
            if let Some(entity) = graph_node(&self.inventory.graph, v) {
                keys.push(
                    NodeKey {
                        file: to_chars(self.entity_file(entity).as_str()),
                        line: self.entity_line(entity),
                        path: to_chars(self.entity_path(entity).as_str()),
                    },
                );
            }
            v += 1;
        }
        keys
    }
}

fn key_precedes(keys: &Vec<NodeKey>, a: usize, b: usize, Ghost(view): Ghost<PgxSqlView>) -> (r: bool)
    requires
        a < keys@.len(),
        b < keys@.len(),
        keys_of(view, keys@),
    ensures
        r == view.precedes(a as int, b as int),
{
    let x = &keys[a];
    let y = &keys[b];
    proof {
        lemma_text_lt_irreflexive(x.file@);
        lemma_text_lt_irreflexive(x.path@);
        if text_lt(y.file@, x.file@) {
            lemma_text_lt_asymmetric(y.file@, x.file@);
        }
        if text_lt(y.path@, x.path@) {
            lemma_text_lt_asymmetric(y.path@, x.path@);
        }
    }
    match text_order(&x.file, &y.file) {
        TextOrder::Before => true,
        TextOrder::After => false,
        TextOrder::Same => {
            if x.line != y.line {
                x.line < y.line
            } else {
                match text_order(&x.path, &y.path) {
                    TextOrder::Before => true,
                    TextOrder::After => false,
                    TextOrder::Same => a < b,
                }
            }
        },
    }
}

/// Distinct numbers below `n` are at most `n` in number.
pub proof fn lemma_distinct_bounded(s: Seq<usize>, n: nat)
    requires
        s.no_duplicates(),
        forall|i: int| 0 <= i < s.len() ==> (#[trigger] s[i]) < n,
    ensures
        s.len() <= n,
    decreases n,
{
    if n == 0 {
        if s.len() > 0 {
            assert(s[0] < n);
        }
    } else if exists|j: int| 0 <= j < s.len() && #[trigger] s[j] == n - 1 {
        let j = choose|j: int| 0 <= j < s.len() && #[trigger] s[j] == n - 1;
        let rest = s.remove(j);
        lemma_distinct_bounded(rest, (n - 1) as nat);
    } else {
        lemma_distinct_bounded(s, (n - 1) as nat);
    }
}

/// A sequence that holds every number below `n` has at least `n` members.
pub proof fn lemma_covering_len(s: Seq<usize>, n: nat)
    requires
        n <= usize::MAX,
        forall|v: usize| v < n ==> s.contains(v),
    ensures
        s.len() >= n,
    decreases n,
{
    if n > 0 {
        let top = (n - 1) as usize;
        assert(s.contains(top));
        let j = choose|j: int| 0 <= j < s.len() && s[j] == top;
        let rest = s.remove(j);
        assert forall|v: usize| v < n - 1 implies rest.contains(v) by {
            assert(s.contains(v));
            let i = choose|i: int| 0 <= i < s.len() && s[i] == v;
            if i < j {
                assert(rest[i] == v);
            } else {
                assert(rest[i - 1] == v);
            }
        }
        lemma_covering_len(rest, (n - 1) as nat);
    }
}

impl PgxSql {
    /// A node on which node `v` depends and which is not yet placed, if
    /// there is one.
    fn first_blocker(&self, v: usize, done: &Vec<bool>, Ghost(placed): Ghost<Seq<usize>>) -> (r:
        Option<usize>)
        requires
            done@.len() == self@.nodes.len(),
            marks(done@, placed),
        ensures
            match r {
                Some(b) => b < self@.nodes.len() && !done@[b as int] && self@.has_edge(
                    v as int,
                    b as int,
                ),
                None => forall|k: int|
                    0 <= k < self@.edges.len() && (#[trigger] self@.edges[k]).0 == v
                        ==> placed.contains(self@.edges[k].1),
            },
    {
        proof {
            use_type_invariant(&self.inventory);
        }
        let m = graph_edge_count(&self.inventory.graph);
        let mut k: usize = 0;
        while k < m
            invariant
                k <= m,
                m == self@.edges.len(),
                self@.well_formed(),
                done@.len() == self@.nodes.len(),
                marks(done@, placed),
                forall|i: int|
                    0 <= i < k && (#[trigger] self@.edges[i]).0 == v ==> placed.contains(
                        self@.edges[i].1,
                    ),
            decreases m - k,
        {
            if let Some((a, b)) = graph_edge_endpoints(&self.inventory.graph, k) {
                if a == v && !done[b] {
                    return Some(b);
                }
            }
            k += 1;
        }
        None
    }

    /// For each node, whether it waits for a node that is not placed.
    fn waiting_nodes(&self, done: &Vec<bool>, Ghost(placed): Ghost<Seq<usize>>) -> (waiting: Vec<
        bool,
    >)
        requires
            done@.len() == self@.nodes.len(),
            marks(done@, placed),
        ensures
            waiting@.len() == self@.nodes.len(),
            forall|v: int|
                0 <= v < waiting@.len() ==> (#[trigger] waiting@[v] <==> self@.waits(
                    placed,
                    v,
                    self@.edges.len() as int,
                )),
    {
        proof {
            use_type_invariant(&self.inventory);
        }
        let n = done.len();
        let m = graph_edge_count(&self.inventory.graph);
        let mut waiting: Vec<bool> = Vec::new();
        while waiting.len() < n
            invariant
                waiting@.len() <= n,
                forall|v: int| 0 <= v < waiting@.len() ==> !waiting@[v],
            decreases n - waiting.len(),
        {
            waiting.push(false);
        }
        let mut k: usize = 0;
        while k < m
            invariant
                k <= m,
                m == self@.edges.len(),
                n == self@.nodes.len(),
                self@.well_formed(),
                done@.len() == n,
                marks(done@, placed),
                waiting@.len() == n,
                forall|v: int|
                    0 <= v < n ==> (#[trigger] waiting@[v] <==> self@.waits(placed, v, k as int)),
            decreases m - k,
        {
            if let Some((a, b)) = graph_edge_endpoints(&self.inventory.graph, k) {
                if !done[b] {
                    waiting.set(a, true);
                }
            }
            k += 1;
        }
        waiting
    }

    /// The node to render after the nodes `placed`, if one is ready.
    fn select_next(
        &self,
        keys: &Vec<NodeKey>,
        done: &Vec<bool>,
        Ghost(placed): Ghost<Seq<usize>>,
    ) -> (r: Option<usize>)
        requires
            done@.len() == self@.nodes.len(),
            marks(done@, placed),
            keys_of(self@, keys@),
        ensures
            match r {
                Some(b) => self@.next_node(placed, b as int),
                None => forall|w: int| !self@.ready(placed, w),
            },
    {
        let n = done.len();
        let waiting = self.waiting_nodes(done, Ghost(placed));
        let mut best: Option<usize> = None;
        let mut v: usize = 0;
        while v < n
            invariant
                v <= n,
                n == self@.nodes.len(),
                done@.len() == n,
                marks(done@, placed),
                keys_of(self@, keys@),
                waiting@.len() == n,
                forall|w: int|
                    0 <= w < n ==> (#[trigger] waiting@[w] <==> self@.waits(
                        placed,
                        w,
                        self@.edges.len() as int,
                    )),
                match best {
                    Some(b) => b < v && self@.ready(placed, b as int) && forall|w: int|
                        0 <= w < v && w != b && #[trigger] self@.ready(placed, w)
                            ==> self@.precedes(b as int, w),
                    None => forall|w: int| 0 <= w < v ==> !self@.ready(placed, w),
                },
            decreases n - v,
        {
            if !done[v] && !waiting[v] {
                match best {
                    None => {
                        best = Some(v);
                    },
                    Some(b) => {
                        if key_precedes(keys, v, b, Ghost(self@)) {
                            assert forall|w: int|
                                0 <= w < v + 1 && w != v && #[trigger] self@.ready(
                                    placed,
                                    w,
                                ) implies self@.precedes(v as int, w) by {
                                if w != b {
                                    self@.lemma_precedes_transitive(v as int, b as int, w);
                                }
                            }
                            best = Some(v);
                        } else {
                            proof {
                                self@.lemma_precedes_total(v as int, b as int);
                            }
                        }
                    },
                }
            }
            v += 1;
        }
        best
    }

    /// The indices of the nodes in the order in which they are rendered, or
    /// the error that reports a circle of dependencies.
    pub fn walk_order(&self) -> (r: Result<Vec<usize>, PgxSqlError>)
        ensures
            match r {
                Ok(order) => self@.is_walk(order@) && self@.walk() == Some(order@),
                Err(e) => self@.walk() is None && self@.reports_cycle(e@),
            },
    {
        let n = graph_node_count(&self.inventory.graph);
        let keys = self.node_keys();
        let mut done: Vec<bool> = Vec::new();
        while done.len() < n
            invariant
                done@.len() <= n,
                forall|w: int| 0 <= w < done@.len() ==> !done@[w],
            decreases n - done.len(),
        {
            done.push(false);
        }
        let mut order: Vec<usize> = Vec::new();
        while order.len() < n
            invariant
                n == self@.nodes.len(),
                order@.len() <= n,
                done@.len() == n,
                marks(done@, order@),
                forall|k: int|
                    0 <= k < order@.len() ==> self@.next_node(
                        #[trigger] order@.take(k),
                        order@[k] as int,
                    ),
                keys_of(self@, keys@),
            decreases n - order.len(),
        {
            match self.select_next(&keys, &done, Ghost(order@)) {
                Some(b) => {
                    let ghost before = order@;
                    order.push(b);
                    done.set(b, true);
                    proof {
                        assert(order@[before.len() as int] == b);
                        assert forall|w: int| 0 <= w < n implies (done@[w] <==> order@.contains(
                            w as usize,
                        )) by {
                            if before.contains(w as usize) {
                                let i = choose|i: int| 0 <= i < before.len() && before[i] == w;
                                assert(order@[i] == w);
                            }
                        }
                        assert forall|k: int| 0 <= k < order@.len() implies self@.next_node(
                            #[trigger] order@.take(k),
                            order@[k] as int,
                        ) by {
                            if k < before.len() {
                                assert(order@.take(k) =~= before.take(k));
                            } else {
                                assert(order@.take(k) =~= before);
                            }
                        }
                    }
                },
                None => {
                    let e = self.find_cycle(&done, Ghost(order@));
                    proof {
                        let cycle = choose|cycle: Seq<usize>|
                            self@.is_cycle(cycle) && cycle.no_duplicates() && e@
                                == self@.cycle_error(cycle);
                        assert forall|other: Seq<usize>| !self@.is_walk(other) by {
                            self@.lemma_cycle_excludes_walk(other, cycle);
                        }
                    }
                    return Err(e);
                },
            }
        }
        proof {
            self@.lemma_walk_unique(order@, self@.walk()->0);
        }
        Ok(order)
    }

    /// A circle among the nodes that are not placed, given that none of them
    /// is ready.
    fn find_cycle(&self, done: &Vec<bool>, Ghost(placed): Ghost<Seq<usize>>) -> (e: PgxSqlError)
        requires
            done@.len() == self@.nodes.len(),
            placed.len() < self@.nodes.len(),
            marks(done@, placed),
            forall|w: int| !self@.ready(placed, w),
        ensures
            self@.reports_cycle(e@),
    {
        proof {
            use_type_invariant(&self.inventory);
        }
        let n = done.len();
        let mut start: usize = 0;
        while start < n && done[start]
            invariant
                start <= n,
                n == done@.len(),
                forall|w: int| 0 <= w < start ==> done@[w],
            decreases n - start,
        {
            start += 1;
        }
        proof {
            if start == n {
                assert forall|v: usize| v < n implies placed.contains(v) by {
                    assert(done@[v as int]);
                }
                lemma_covering_len(placed, n as nat);
            }
        }
        let mut on_path: Vec<bool> = Vec::new();
        while on_path.len() < n
            invariant
                on_path@.len() <= n,
                forall|w: int| 0 <= w < on_path@.len() ==> !on_path@[w],
            decreases n - on_path.len(),
        {
            on_path.push(false);
        }
        let mut path: Vec<usize> = Vec::new();
        let mut cur: usize = start;
        while !on_path[cur]
            invariant
                n == self@.nodes.len(),
                done@.len() == n,
                on_path@.len() == n,
                marks(done@, placed),
                forall|w: int| !self@.ready(placed, w),
                cur < n,
                !done@[cur as int],
                path@.no_duplicates(),
                forall|i: int| 0 <= i < path@.len() ==> (#[trigger] path@[i]) < n,
                forall|w: int| 0 <= w < n ==> (on_path@[w] <==> path@.contains(w as usize)),
                forall|i: int|
                    0 <= i < path@.len() - 1 ==> self@.has_edge(
                        (#[trigger] path@[i]) as int,
                        path@[i + 1] as int,
                    ),
                path@.len() > 0 ==> self@.has_edge(path@.last() as int, cur as int),
            decreases n - path@.len(),
        {
            let ghost before = path@;
            path.push(cur);
            on_path.set(cur, true);
            proof {
                assert(path@[before.len() as int] == cur);
                assert forall|w: int| 0 <= w < n implies (on_path@[w] <==> path@.contains(
                    w as usize,
                )) by {
                    if before.contains(w as usize) {
                        let i = choose|i: int| 0 <= i < before.len() && before[i] == w;
                        assert(path@[i] == w);
                    }
                }
                lemma_distinct_bounded(path@, n as nat);
            }
            match self.first_blocker(cur, done, Ghost(placed)) {
                Some(next) => {
                    cur = next;
                },
                None => {
                    // No node is ready, so this one waits for another.
                    proof {
                        assert(self@.ready(placed, cur as int));
                    }
                },
            }
        }
        let mut s: usize = 0;
        while s < path.len() && path[s] != cur
            invariant
                s <= path@.len(),
                forall|i: int| 0 <= i < s ==> path@[i] != cur,
            decreases path@.len() - s,
        {
            s += 1;
        }
        let ghost cycle = path@.skip(s as int);
        let mut names: Vec<String> = Vec::new();
        let mut i: usize = s;
        while i < path.len()
            invariant
                s <= i <= path@.len(),
                n == self@.nodes.len(),
                self@.well_formed(),
                forall|i: int| 0 <= i < path@.len() ==> (#[trigger] path@[i]) < n,
                names@.len() == i - s,
                forall|k: int|
                    0 <= k < names@.len() ==> (#[trigger] names@[k])@ == self@.entity_path(
                        self@.nodes[path@[s + k] as int],
                    ),
            decreases path@.len() - i,
        {
            if let Some(entity) = graph_node(&self.inventory.graph, path[i]) {
                names.push(self.entity_path(entity).clone());
            }
            i += 1;
        }
        proof {
            assert(crate::text::texts(names@) =~= cycle.map_values(
                |v: usize| self@.entity_path(self@.nodes[v as int]),
            ));
            assert(cycle.no_duplicates());
        }
        PgxSqlError::CycleDetected { path: names }
    }
}

} // verus!
