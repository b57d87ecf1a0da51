//! How the compiler's state is built from the registries: one node for each
//! entity, and one edge for each dependency.

use vstd::prelude::*;
use std::collections::HashMap;
use petgraph::graph::Graph;
use petgraph::Directed;
use crate::control_file::ControlFile;
use crate::dependency::{dependency_ids_of, enum_matches_any, type_matches_any};
use crate::entity::{SqlGraphEntity, SqlGraphRelationship};
use crate::extension_sql::ExtensionSql;
use crate::graph::{
    graph_add_edge, graph_add_node, graph_edges, graph_new, graph_node, graph_node_count,
    graph_nodes,
};
use crate::pg_extern::InventoryPgExtern;
use crate::pg_schema::InventorySchema;
use crate::pgx_sql::{mapping_texts, Inventory, PgxSql, PgxSqlView, RegistriesView};
use crate::postgres_enum::InventoryPostgresEnum;
use crate::postgres_hash::InventoryPostgresHash;
use crate::postgres_ord::InventoryPostgresOrd;
use crate::postgres_type::InventoryPostgresType;
use crate::registry::{last_wins, last_write_wins};

verus! {

/// The nodes of the first `count` entities of one kind.
pub open spec fn kind_nodes(kind: SqlGraphEntity, count: nat) -> Seq<SqlGraphEntity> {
    Seq::new(count, |i: int| kind.at(i as usize))
}

impl RegistriesView {
    /// The number of entities.
    pub open spec fn node_count(self) -> nat {
        self.schemas.len() + self.extension_sqls.len() + self.externs.len() + self.types.len()
            + self.enums.len() + self.ords.len() + self.hashes.len()
    }

    /// The index of the first node of a composite type.
    pub open spec fn type_base(self) -> int {
        (self.schemas.len() + self.extension_sqls.len() + self.externs.len()) as int
    }

    /// The index of the first node of an enum.
    pub open spec fn enum_base(self) -> int {
        self.type_base() + self.types.len()
    }

    /// The entity of the node with index `a`: the schemas come first, then
    /// the SQL fragments, the functions, the composite types, the enums, the
    /// ordering and the hashing operator classes, each kind in the order of
    /// its registry.
    pub open spec fn entity_at(self, a: int) -> SqlGraphEntity {
        let sqls = self.schemas.len() as int;
        let functions = sqls + self.extension_sqls.len();
        let types = self.type_base();
        let enums = self.enum_base();
        let ords = enums + self.enums.len();
        let hashes = ords + self.ords.len();
        if a < sqls {
            SqlGraphEntity::Schema(a as usize)
        } else if a < functions {
            SqlGraphEntity::CustomSql((a - sqls) as usize)
        } else if a < types {
            SqlGraphEntity::Function((a - functions) as usize)
        } else if a < enums {
            SqlGraphEntity::Type((a - types) as usize)
        } else if a < ords {
            SqlGraphEntity::Enum((a - enums) as usize)
        } else if a < hashes {
            SqlGraphEntity::Ord((a - ords) as usize)
        } else {
            SqlGraphEntity::Hash((a - hashes) as usize)
        }
    }

    /// One node for each entity.
    pub open spec fn canonical_nodes(self) -> Seq<SqlGraphEntity> {
        Seq::new(self.node_count(), |a: int| self.entity_at(a))
    }

    /// The edges from node `a` to the nodes of those among the first `j`
    /// composite types on which its entity depends.
    pub open spec fn edges_to_types(self, a: int, j: int) -> Seq<(usize, usize)>
        decreases j,
    {
        if j <= 0 {
            Seq::empty()
        } else if self.depends(self.entity_at(a), SqlGraphEntity::Type((j - 1) as usize)) {
            self.edges_to_types(a, j - 1).push((a as usize, (self.type_base() + j - 1) as usize))
        } else {
            self.edges_to_types(a, j - 1)
        }
    }

    /// The edges from node `a` to the nodes of those among the first `j`
    /// enums on which its entity depends.
    pub open spec fn edges_to_enums(self, a: int, j: int) -> Seq<(usize, usize)>
        decreases j,
    {
        if j <= 0 {
            Seq::empty()
        } else if self.depends(self.entity_at(a), SqlGraphEntity::Enum((j - 1) as usize)) {
            self.edges_to_enums(a, j - 1).push((a as usize, (self.enum_base() + j - 1) as usize))
        } else {
            self.edges_to_enums(a, j - 1)
        }
    }

    /// The edges from node `a`: one to each composite type and then one to
    /// each enum on which its entity depends.
    pub open spec fn edges_from(self, a: int) -> Seq<(usize, usize)> {
        self.edges_to_types(a, self.types.len() as int) + self.edges_to_enums(
            a,
            self.enums.len() as int,
        )
    }

    /// The edges from the first `a` nodes.
    pub open spec fn edges_upto(self, a: int) -> Seq<(usize, usize)>
        decreases a,
    {
        if a <= 0 {
            Seq::empty()
        } else {
            self.edges_upto(a - 1) + self.edges_from(a - 1)
        }
    }

    /// The edges of the graph: those from each node, in the order of the nodes.
    pub open spec fn dependency_edges(self) -> Seq<(usize, usize)> {
        self.edges_upto(self.node_count() as int)
    }
}

fn add_nodes(
    graph: &mut Graph<SqlGraphEntity, SqlGraphRelationship, Directed, usize>,
    kind: SqlGraphEntity,
    count: usize,
)
    ensures
        graph_nodes(*final(graph)) == graph_nodes(*old(graph)) + kind_nodes(kind, count as nat),
        graph_edges(*final(graph)) == graph_edges(*old(graph)),
{
    let mut i: usize = 0;
    while i < count
        invariant
            i <= count,
            graph_nodes(*graph) == graph_nodes(*old(graph)) + kind_nodes(kind, i as nat),
            graph_edges(*graph) == graph_edges(*old(graph)),
        decreases count - i,
    {
        graph_add_node(graph, kind.with_position(i));
        i += 1;
    }
}

impl RegistriesView {
    /// Every node names an entity, and no two nodes name the same one.
    pub proof fn lemma_entity_at(self, a: int, b: int)
        requires
            self.node_count() <= usize::MAX,
            0 <= a < self.node_count(),
            0 <= b < self.node_count(),
        ensures
            self.has_entity(self.entity_at(a)),
            self.entity_at(a) == self.entity_at(b) ==> a == b,
    {
    }

    /// What the edges from node `a` to composite types are: each leads from
    /// `a` to a type on which its entity depends, and each such type has one.
    pub proof fn lemma_edges_to_types(self, a: int, j: int)
        requires
            self.node_count() <= usize::MAX,
            0 <= a < self.node_count(),
            0 <= j <= self.types.len(),
        ensures
            forall|k: int|
                0 <= k < self.edges_to_types(a, j).len() ==> {
                    let e = #[trigger] self.edges_to_types(a, j)[k];
                    &&& e.0 == a
                    &&& self.type_base() <= e.1 < self.type_base() + j
                    &&& self.depends(self.entity_at(a), self.entity_at(e.1 as int))
                },
            forall|i: int|
                0 <= i < j && self.depends(self.entity_at(a), SqlGraphEntity::Type(i as usize))
                    ==> self.edges_to_types(a, j).contains(
                    (a as usize, (#[trigger] (self.type_base() + i)) as usize),
                ),
        decreases j,
    {
        if j > 0 {
            self.lemma_edges_to_types(a, j - 1);
            let before = self.edges_to_types(a, j - 1);
            let now = self.edges_to_types(a, j);
            assert forall|i: int|
                0 <= i < j && self.depends(
                    self.entity_at(a),
                    SqlGraphEntity::Type(i as usize),
                ) implies now.contains(
                (a as usize, (#[trigger] (self.type_base() + i)) as usize),
            ) by {
                if i < j - 1 {
                    let e = (a as usize, (self.type_base() + i) as usize);
                    let k = choose|k: int| 0 <= k < before.len() && before[k] == e;
                    assert(now[k] == e);
                } else {
                    assert(now[before.len() as int] == (
                        a as usize,
                        (self.type_base() + i) as usize,
                    ));
                }
            }
        }
    }

    /// What the edges from node `a` to enums are: each leads from `a` to an
    /// enum on which its entity depends, and each such enum has one.
    pub proof fn lemma_edges_to_enums(self, a: int, j: int)
        requires
            self.node_count() <= usize::MAX,
            0 <= a < self.node_count(),
            0 <= j <= self.enums.len(),
        ensures
            forall|k: int|
                0 <= k < self.edges_to_enums(a, j).len() ==> {
                    let e = #[trigger] self.edges_to_enums(a, j)[k];
                    &&& e.0 == a
                    &&& self.enum_base() <= e.1 < self.enum_base() + j
                    &&& self.depends(self.entity_at(a), self.entity_at(e.1 as int))
                },
            forall|i: int|
                0 <= i < j && self.depends(self.entity_at(a), SqlGraphEntity::Enum(i as usize))
                    ==> self.edges_to_enums(a, j).contains(
                    (a as usize, (#[trigger] (self.enum_base() + i)) as usize),
                ),
        decreases j,
    {
        if j > 0 {
            self.lemma_edges_to_enums(a, j - 1);
            let before = self.edges_to_enums(a, j - 1);
            let now = self.edges_to_enums(a, j);
            assert forall|i: int|
                0 <= i < j && self.depends(
                    self.entity_at(a),
                    SqlGraphEntity::Enum(i as usize),
                ) implies now.contains(
                (a as usize, (#[trigger] (self.enum_base() + i)) as usize),
            ) by {
                if i < j - 1 {
                    let e = (a as usize, (self.enum_base() + i) as usize);
                    let k = choose|k: int| 0 <= k < before.len() && before[k] == e;
                    assert(now[k] == e);
                } else {
                    assert(now[before.len() as int] == (
                        a as usize,
                        (self.enum_base() + i) as usize,
                    ));
                }
            }
        }
    }

    /// What the edges from node `a` are: they lead to the nodes on whose
    /// entities that of `a` depends, and to each of these.
    pub proof fn lemma_edges_from(self, a: int)
        requires
            self.node_count() <= usize::MAX,
            0 <= a < self.node_count(),
        ensures
            forall|k: int|
                0 <= k < self.edges_from(a).len() ==> {
                    let e = #[trigger] self.edges_from(a)[k];
                    &&& e.0 == a
                    &&& e.1 < self.node_count()
                    &&& self.depends(self.entity_at(a), self.entity_at(e.1 as int))
                },
            forall|b: int|
                0 <= b < self.node_count() && self.depends(
                    self.entity_at(a),
                    #[trigger] self.entity_at(b),
                ) ==> self.edges_from(a).contains((a as usize, b as usize)),
    {
        let to_types = self.edges_to_types(a, self.types.len() as int);
        let to_enums = self.edges_to_enums(a, self.enums.len() as int);
        self.lemma_edges_to_types(a, self.types.len() as int);
        self.lemma_edges_to_enums(a, self.enums.len() as int);
        assert forall|b: int|
            0 <= b < self.node_count() && self.depends(
                self.entity_at(a),
                #[trigger] self.entity_at(b),
            ) implies self.edges_from(a).contains((a as usize, b as usize)) by {
            match self.entity_at(b) {
                SqlGraphEntity::Type(i) => {
                    self.lemma_entity_at(b, self.type_base() + i);
                    let e = (a as usize, (self.type_base() + i) as usize);
                    let k = choose|k: int| 0 <= k < to_types.len() && to_types[k] == e;
                    assert(self.edges_from(a)[k] == e);
                },
                SqlGraphEntity::Enum(i) => {
                    self.lemma_entity_at(b, self.enum_base() + i);
                    let e = (a as usize, (self.enum_base() + i) as usize);
                    let k = choose|k: int| 0 <= k < to_enums.len() && to_enums[k] == e;
                    assert(self.edges_from(a)[to_types.len() + k] == e);
                },
                _ => {},
            }
        }
    }

    /// What the edges from the first `a` nodes are.
    pub proof fn lemma_edges_upto(self, a: int)
        requires
            self.node_count() <= usize::MAX,
            0 <= a <= self.node_count(),
        ensures
            forall|k: int|
                0 <= k < self.edges_upto(a).len() ==> {
                    let e = #[trigger] self.edges_upto(a)[k];
                    &&& e.0 < a
                    &&& e.1 < self.node_count()
                    &&& self.depends(self.entity_at(e.0 as int), self.entity_at(e.1 as int))
                },
            forall|x: int, b: int|
                0 <= x < a && 0 <= b < self.node_count() && self.depends(
                    #[trigger] self.entity_at(x),
                    #[trigger] self.entity_at(b),
                ) ==> self.edges_upto(a).contains((x as usize, b as usize)),
        decreases a,
    {
        if a > 0 {
            self.lemma_edges_upto(a - 1);
            self.lemma_edges_from(a - 1);
            let before = self.edges_upto(a - 1);
            let last = self.edges_from(a - 1);
            assert forall|x: int, b: int|
                0 <= x < a && 0 <= b < self.node_count() && self.depends(
                    #[trigger] self.entity_at(x),
                    #[trigger] self.entity_at(b),
                ) implies self.edges_upto(a).contains((x as usize, b as usize)) by {
                let e = (x as usize, b as usize);
                if x < a - 1 {
                    let k = choose|k: int| 0 <= k < before.len() && before[k] == e;
                    assert(self.edges_upto(a)[k] == e);
                } else {
                    let k = choose|k: int| 0 <= k < last.len() && last[k] == e;
                    assert(self.edges_upto(a)[before.len() + k] == e);
                }
            }
        }
    }
}

impl PgxSqlView {
    /// Whether this is the state that is built from the given control file,
    /// table and registries: the nodes and edges are those of the
    /// registries, and the table has every enum and composite type entered.
    pub open spec fn built_from(
        self,
        control: crate::control_file::ControlFileView,
        table: Map<u64, Seq<char>>,
        registries: RegistriesView,
    ) -> bool {
        &&& self.control == control
        &&& self.registries() == registries
        &&& self.nodes == registries.canonical_nodes()
        &&& self.edges == registries.dependency_edges()
        &&& self.type_mappings == (PgxSqlView { type_mappings: table, ..self }).registered()
    }

    /// In a state that was built, the graph has an edge from a node to
    /// another exactly where the entity of the first depends on that of the
    /// second, and it fits the registries.
    pub proof fn lemma_edges_are_dependencies(self)
        requires
            self.nodes == self.registries().canonical_nodes(),
            self.edges == self.registries().dependency_edges(),
            self.nodes.len() <= usize::MAX,
        ensures
            self.edges_are_dependencies(),
            self.well_formed(),
    {
        let registries = self.registries();
        registries.lemma_edges_upto(registries.node_count() as int);
        assert forall|i: int| 0 <= i < self.nodes.len() implies self.has_entity(
            #[trigger] self.nodes[i],
        ) by {
            registries.lemma_entity_at(i, i);
        }
    }
}

/// Adds an edge from the node `source` to the node of each composite type and
/// enum that one of `ids` stands for, but none from a node to itself.
fn add_dependencies(
    graph: &mut Graph<SqlGraphEntity, SqlGraphRelationship, Directed, usize>,
    source: usize,
    ids: &Vec<u64>,
    types: &Vec<InventoryPostgresType>,
    enums: &Vec<InventoryPostgresEnum>,
    type_base: usize,
    enum_base: usize,
    Ghost(view): Ghost<RegistriesView>,
)
    requires
        graph_nodes(*old(graph)) == view.canonical_nodes(),
        source < view.node_count(),
        view.types == types@.map_values(|e: InventoryPostgresType| e@),
        view.enums == enums@.map_values(|e: InventoryPostgresEnum| e@),
        type_base == view.type_base(),
        enum_base == view.enum_base(),
        ids@ == view.dependency_ids(view.entity_at(source as int)),
        forall|k: int|
            0 <= k < graph_edges(*old(graph)).len() ==> (#[trigger] graph_edges(*old(graph))[k]).0
                < view.node_count() && graph_edges(*old(graph))[k].1 < view.node_count(),
    ensures
        graph_nodes(*final(graph)) == graph_nodes(*old(graph)),
        graph_edges(*final(graph)) == graph_edges(*old(graph)) + view.edges_from(source as int),
        forall|k: int|
            0 <= k < graph_edges(*final(graph)).len() ==> (#[trigger] graph_edges(
                *final(graph),
            )[k]).0 < view.node_count() && graph_edges(*final(graph))[k].1 < view.node_count(),
{
    let n = graph_node_count(graph);
    let ghost before = graph_edges(*graph);
    let ghost from = view.entity_at(source as int);
    let mut j: usize = 0;
    while j < types.len()
        invariant
            j <= types.len(),
            n == view.node_count(),
            source < n,
            from == view.entity_at(source as int),
            graph_nodes(*graph) == view.canonical_nodes(),
            view.types == types@.map_values(|e: InventoryPostgresType| e@),
            type_base == view.type_base(),
            ids@ == view.dependency_ids(from),
            graph_edges(*graph) == before + view.edges_to_types(source as int, j as int),
            forall|k: int|
                0 <= k < graph_edges(*graph).len() ==> (#[trigger] graph_edges(*graph)[k]).0 < n
                    && graph_edges(*graph)[k].1 < n,
        decreases types.len() - j,
    {
        let target = type_base + j;
        let found = type_matches_any(&types[j], ids);
        proof {
            view.lemma_entity_at(source as int, target as int);
        }
        if target != source && found {
            graph_add_edge(graph, source, target);
        }
        j += 1;
    }
    let ghost between = graph_edges(*graph);
    let mut j: usize = 0;
    while j < enums.len()
        invariant
            j <= enums.len(),
            n == view.node_count(),
            source < n,
            from == view.entity_at(source as int),
            graph_nodes(*graph) == view.canonical_nodes(),
            view.enums == enums@.map_values(|e: InventoryPostgresEnum| e@),
            enum_base == view.enum_base(),
            ids@ == view.dependency_ids(from),
            graph_edges(*graph) == between + view.edges_to_enums(source as int, j as int),
            forall|k: int|
                0 <= k < graph_edges(*graph).len() ==> (#[trigger] graph_edges(*graph)[k]).0 < n
                    && graph_edges(*graph)[k].1 < n,
        decreases enums.len() - j,
    {
        let target = enum_base + j;
        let found = enum_matches_any(&enums[j], ids);
        proof {
            view.lemma_entity_at(source as int, target as int);
        }
        if target != source && found {
            graph_add_edge(graph, source, target);
        }
        j += 1;
    }
}

/// The registries that are built from the given entities: in each kind the
/// last entity of a qualified path wins.
pub open spec fn registries_of(
    schemas: Seq<InventorySchema>,
    extension_sqls: Seq<ExtensionSql>,
    externs: Seq<InventoryPgExtern>,
    types: Seq<InventoryPostgresType>,
    enums: Seq<InventoryPostgresEnum>,
    ords: Seq<InventoryPostgresOrd>,
    hashes: Seq<InventoryPostgresHash>,
) -> RegistriesView {
    RegistriesView {
        schemas: last_wins(schemas).map_values(|e: InventorySchema| e@),
        extension_sqls: last_wins(extension_sqls).map_values(|e: ExtensionSql| e@),
        externs: last_wins(externs).map_values(|e: InventoryPgExtern| e@),
        types: last_wins(types).map_values(|e: InventoryPostgresType| e@),
        enums: last_wins(enums).map_values(|e: InventoryPostgresEnum| e@),
        ords: last_wins(ords).map_values(|e: InventoryPostgresOrd| e@),
        hashes: last_wins(hashes).map_values(|e: InventoryPostgresHash| e@),
    }
}

impl PgxSql {
    /// Builds the compiler's state from a control file, a type mapping table
    /// and the entities of each kind. Where two entities of one kind have the
    /// same qualified path, the later one replaces the earlier one. The graph
    /// gets one node for each entity that stays and one edge for each
    /// dependency of an entity on another; then every enum and composite type
    /// is entered into the table.
    ///
    /// The entities that stay keep the order in which they were handed in.
    /// That order decides in two places: where the module paths of several
    /// schemas are prefixes of one module, the schema that stands first
    /// qualifies the entities of that module; and where several functions
    /// could be meant by a conversion function's path, which the replacement
    /// above rules out, the first would be taken. It also settles the order of
    /// two nodes that were declared in the same file, on the same line and
    /// under the same path.
    pub fn build(
        control: ControlFile,
        type_mappings: HashMap<u64, String>,
        schemas: Vec<InventorySchema>,
        extension_sqls: Vec<ExtensionSql>,
        externs: Vec<InventoryPgExtern>,
        types: Vec<InventoryPostgresType>,
        enums: Vec<InventoryPostgresEnum>,
        ords: Vec<InventoryPostgresOrd>,
        hashes: Vec<InventoryPostgresHash>,
    ) -> (sql: PgxSql)
        ensures
            sql@.built_from(
                control@,
                mapping_texts(type_mappings@),
                registries_of(
                    schemas@,
                    extension_sqls@,
                    externs@,
                    types@,
                    enums@,
                    ords@,
                    hashes@,
                ),
            ),
            sql@.well_formed(),
            sql@.nodes.len() <= usize::MAX,
    {
        let schemas = last_write_wins(schemas);
        let extension_sqls = last_write_wins(extension_sqls);
        let externs = last_write_wins(externs);
        let types = last_write_wins(types);
        let enums = last_write_wins(enums);
        let ords = last_write_wins(ords);
        let hashes = last_write_wins(hashes);
        let ghost view = RegistriesView {
            schemas: schemas@.map_values(|e: InventorySchema| e@),
            extension_sqls: extension_sqls@.map_values(|e: ExtensionSql| e@),
            externs: externs@.map_values(|e: InventoryPgExtern| e@),
            types: types@.map_values(|e: InventoryPostgresType| e@),
            enums: enums@.map_values(|e: InventoryPostgresEnum| e@),
            ords: ords@.map_values(|e: InventoryPostgresOrd| e@),
            hashes: hashes@.map_values(|e: InventoryPostgresHash| e@),
        };
        let mut graph = graph_new();
        add_nodes(&mut graph, SqlGraphEntity::Schema(0), schemas.len());
        add_nodes(&mut graph, SqlGraphEntity::CustomSql(0), extension_sqls.len());
        add_nodes(&mut graph, SqlGraphEntity::Function(0), externs.len());
        let type_base = graph_node_count(&graph);
        add_nodes(&mut graph, SqlGraphEntity::Type(0), types.len());
        let enum_base = graph_node_count(&graph);
        add_nodes(&mut graph, SqlGraphEntity::Enum(0), enums.len());
        add_nodes(&mut graph, SqlGraphEntity::Ord(0), ords.len());
        add_nodes(&mut graph, SqlGraphEntity::Hash(0), hashes.len());
        let n = graph_node_count(&graph);
        let mut a: usize = 0;
        while a < n
            invariant
                a <= n,
                n == view.node_count(),
                type_base == view.type_base(),
                enum_base == view.enum_base(),
                view.externs == externs@.map_values(|e: InventoryPgExtern| e@),
                view.types == types@.map_values(|e: InventoryPostgresType| e@),
                view.enums == enums@.map_values(|e: InventoryPostgresEnum| e@),
                view.ords == ords@.map_values(|e: InventoryPostgresOrd| e@),
                view.hashes == hashes@.map_values(|e: InventoryPostgresHash| e@),
                graph_nodes(graph) == view.canonical_nodes(),
                graph_edges(graph) == view.edges_upto(a as int),
                forall|k: int|
                    0 <= k < graph_edges(graph).len() ==> (#[trigger] graph_edges(graph)[k]).0 < n
                        && graph_edges(graph)[k].1 < n,
            decreases n - a,
        {
            proof {
                view.lemma_entity_at(a as int, a as int);
            }
            if let Some(entity) = graph_node(&graph, a) {
                let ids = dependency_ids_of(entity, &externs, &types, &ords, &hashes, Ghost(view));
                add_dependencies(
                    &mut graph,
                    a,
                    &ids,
                    &types,
                    &enums,
                    type_base,
                    enum_base,
                    Ghost(view),
                );
            }
            a += 1;
        }
        proof {
            assert forall|i: int| 0 <= i < view.node_count() implies view.has_entity(
                #[trigger] view.canonical_nodes()[i],
            ) by {
                view.lemma_entity_at(i, i);
            }
        }
        let inventory = Inventory {
            graph,
            schemas,
            extension_sqls,
            externs,
            types,
            enums,
            ords,
            hashes,
        };
        let mut sql = PgxSql { type_mappings, control, inventory };
        sql.register_types();
        sql
    }
}

} // verus!
