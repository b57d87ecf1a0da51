//! The compiler's state: the registries, the type mapping table and the
//! dependency graph.

use vstd::prelude::*;
use vstd::string::StringExecFns;
use std::collections::HashMap;
use petgraph::graph::Graph;
use petgraph::Directed;
use crate::control_file::{ControlFile, ControlFileView};
use crate::entity::{SqlGraphEntity, SqlGraphRelationship};
use crate::extension_sql::{ExtensionSql, ExtensionSqlView};
use crate::graph::{graph_edges, graph_nodes};
use crate::pg_extern::{InventoryPgExtern, InventoryPgExternView};
use crate::pg_schema::{InventorySchema, InventorySchemaView};
use crate::postgres_enum::{InventoryPostgresEnum, InventoryPostgresEnumView};
use crate::postgres_hash::{InventoryPostgresHash, InventoryPostgresHashView};
use crate::postgres_ord::{InventoryPostgresOrd, InventoryPostgresOrdView};
use crate::postgres_type::{InventoryPostgresType, InventoryPostgresTypeView};
use crate::text::to_chars;

verus! {

broadcast use vstd::std_specs::hash::group_hash_axioms;

/// Everything that one SQL document is compiled from: the type mapping table,
/// the control file, and the registries with the graph over them.
#[derive(Debug)]
pub struct PgxSql {
    pub(crate) type_mappings: HashMap<u64, String>,
    pub(crate) control: ControlFile,
    pub(crate) inventory: Inventory,
}

/// The registries and the graph over them. A registry holds the entities of
/// one kind; a node of the graph names an entity by its registry and its
/// position there. Both are filled once and stay as they are, so that every
/// node names an entity for good.
#[derive(Debug)]
pub struct Inventory {
    pub(crate) graph: Graph<SqlGraphEntity, SqlGraphRelationship, Directed, usize>,
    pub(crate) schemas: Vec<InventorySchema>,
    pub(crate) extension_sqls: Vec<ExtensionSql>,
    pub(crate) externs: Vec<InventoryPgExtern>,
    pub(crate) types: Vec<InventoryPostgresType>,
    pub(crate) enums: Vec<InventoryPostgresEnum>,
    pub(crate) ords: Vec<InventoryPostgresOrd>,
    pub(crate) hashes: Vec<InventoryPostgresHash>,
}

/// The mathematical content of a [`PgxSql`]. `nodes` are the nodes of the
/// graph by index; an edge `(a, b)` says that node `a` depends on node `b`.
pub struct PgxSqlView {
    pub type_mappings: Map<u64, Seq<char>>,
    pub control: ControlFileView,
    pub nodes: Seq<SqlGraphEntity>,
    pub edges: Seq<(usize, usize)>,
    pub schemas: Seq<InventorySchemaView>,
    pub extension_sqls: Seq<ExtensionSqlView>,
    pub externs: Seq<InventoryPgExternView>,
    pub types: Seq<InventoryPostgresTypeView>,
    pub enums: Seq<InventoryPostgresEnumView>,
    pub ords: Seq<InventoryPostgresOrdView>,
    pub hashes: Seq<InventoryPostgresHashView>,
}

/// The registries alone: the entities of each kind, in their order.
pub struct RegistriesView {
    pub schemas: Seq<InventorySchemaView>,
    pub extension_sqls: Seq<ExtensionSqlView>,
    pub externs: Seq<InventoryPgExternView>,
    pub types: Seq<InventoryPostgresTypeView>,
    pub enums: Seq<InventoryPostgresEnumView>,
    pub ords: Seq<InventoryPostgresOrdView>,
    pub hashes: Seq<InventoryPostgresHashView>,
}

impl RegistriesView {
    /// Whether `entity` names an entity of these registries.
    pub open spec fn has_entity(self, entity: SqlGraphEntity) -> bool {
        match entity {
            SqlGraphEntity::Schema(i) => i < self.schemas.len(),
            SqlGraphEntity::CustomSql(i) => i < self.extension_sqls.len(),
            SqlGraphEntity::Function(i) => i < self.externs.len(),
            SqlGraphEntity::Type(i) => i < self.types.len(),
            SqlGraphEntity::Enum(i) => i < self.enums.len(),
            SqlGraphEntity::Ord(i) => i < self.ords.len(),
            SqlGraphEntity::Hash(i) => i < self.hashes.len(),
        }
    }

    /// Whether a graph fits these registries: every node names an entity,
    /// and every edge joins two nodes.
    pub open spec fn hold(self, nodes: Seq<SqlGraphEntity>, edges: Seq<(usize, usize)>) -> bool {
        &&& forall|i: int| 0 <= i < nodes.len() ==> self.has_entity(#[trigger] nodes[i])
        &&& forall|k: int|
            0 <= k < edges.len() ==> (#[trigger] edges[k]).0 < nodes.len() && edges[k].1
                < nodes.len()
    }
}

/// A type mapping table with the SQL names as texts.
pub open spec fn mapping_texts(m: Map<u64, String>) -> Map<u64, Seq<char>> {
    Map::new(|id: u64| m.contains_key(id), |id: u64| m[id]@)
}

impl View for PgxSql {
    type V = PgxSqlView;

    open(crate) spec fn view(&self) -> PgxSqlView {
        let registries = self.inventory.registries();
        PgxSqlView {
            type_mappings: mapping_texts(self.type_mappings@),
            control: self.control@,
            nodes: graph_nodes(self.inventory.graph),
            edges: graph_edges(self.inventory.graph),
            schemas: registries.schemas,
            extension_sqls: registries.extension_sqls,
            externs: registries.externs,
            types: registries.types,
            enums: registries.enums,
            ords: registries.ords,
            hashes: registries.hashes,
        }
    }
}

impl Inventory {
    /// The registries as mathematical sequences.
    pub open(crate) spec fn registries(&self) -> RegistriesView {
        RegistriesView {
            schemas: self.schemas@.map_values(|e: InventorySchema| e@),
            extension_sqls: self.extension_sqls@.map_values(|e: ExtensionSql| e@),
            externs: self.externs@.map_values(|e: InventoryPgExtern| e@),
            types: self.types@.map_values(|e: InventoryPostgresType| e@),
            enums: self.enums@.map_values(|e: InventoryPostgresEnum| e@),
            ords: self.ords@.map_values(|e: InventoryPostgresOrd| e@),
            hashes: self.hashes@.map_values(|e: InventoryPostgresHash| e@),
        }
    }

    #[verifier::type_invariant]
    pub(crate) open spec fn inv(&self) -> bool {
        self.registries().hold(graph_nodes(self.graph), graph_edges(self.graph))
    }
}

impl PgxSqlView {
    /// The registries alone.
    pub open spec fn registries(self) -> RegistriesView {
        RegistriesView {
            schemas: self.schemas,
            extension_sqls: self.extension_sqls,
            externs: self.externs,
            types: self.types,
            enums: self.enums,
            ords: self.ords,
            hashes: self.hashes,
        }
    }

    /// Whether `entity` names an entity of these registries.
    pub open spec fn has_entity(self, entity: SqlGraphEntity) -> bool {
        self.registries().has_entity(entity)
    }

    /// Every node names an entity, and every edge joins two nodes.
    pub open spec fn well_formed(self) -> bool {
        self.registries().hold(self.nodes, self.edges)
    }

    /// The position of the first schema from position `from` on whose module
    /// path begins `module`, if there is one.
    pub open spec fn schema_of_from(self, module: Seq<char>, from: int) -> Option<int>
        decreases self.schemas.len() - from,
    {
        if from < 0 || from >= self.schemas.len() {
            None
        } else if self.schemas[from].module.is_prefix_of(module) {
            Some(from)
        } else {
            self.schema_of_from(module, from + 1)
        }
    }

    /// The name of the schema that qualifies what the module `module`
    /// declares: that of the first schema in the registry whose module path
    /// is a prefix of `module`. Among several schemas that match, the order
    /// of the registry decides.
    pub open spec fn schema_alias_of(self, module: Seq<char>) -> Option<Seq<char>> {
        match self.schema_of_from(module, 0) {
            Some(i) => Some(self.schemas[i].name),
            None => None,
        }
    }

    /// What stands before the name of an entity that the module `module`
    /// declares: the schema's name and a dot, or nothing where no schema
    /// applies.
    pub open spec fn schema_prefix_for(self, module: Seq<char>) -> Seq<char> {
        match self.schema_alias_of(module) {
            Some(name) => name + "."@,
            None => Seq::empty(),
        }
    }

    /// The SQL name that the table gives to a type identifier.
    pub open spec fn type_id_to_sql_type(self, id: u64) -> Option<Seq<char>> {
        if self.type_mappings.contains_key(id) {
            Some(self.type_mappings[id])
        } else {
            None
        }
    }
}

impl PgxSql {
    /// Whether `entity` names an entity of the registries.
    pub fn has_entity(&self, entity: SqlGraphEntity) -> (b: bool)
        ensures
            b == self@.has_entity(entity),
    {
        match entity {
            SqlGraphEntity::Schema(i) => i < self.inventory.schemas.len(),
            SqlGraphEntity::CustomSql(i) => i < self.inventory.extension_sqls.len(),
            SqlGraphEntity::Function(i) => i < self.inventory.externs.len(),
            SqlGraphEntity::Type(i) => i < self.inventory.types.len(),
            SqlGraphEntity::Enum(i) => i < self.inventory.enums.len(),
            SqlGraphEntity::Ord(i) => i < self.inventory.ords.len(),
            SqlGraphEntity::Hash(i) => i < self.inventory.hashes.len(),
        }
    }

    /// The control file.
    pub fn control(&self) -> (control: &ControlFile)
        ensures
            control@ == self@.control,
    {
        &self.control
    }

    /// The type mapping table.
    pub fn type_mappings(&self) -> (table: &HashMap<u64, String>)
        ensures
            mapping_texts(table@) == self@.type_mappings,
    {
        &self.type_mappings
    }

    /// The dependency graph.
    pub fn graph(&self) -> (graph: &Graph<SqlGraphEntity, SqlGraphRelationship, Directed, usize>)
        ensures
            graph_nodes(*graph) == self@.nodes,
            graph_edges(*graph) == self@.edges,
    {
        &self.inventory.graph
    }

    /// The schemas, in the order of their registry.
    pub fn schema_registry(&self) -> (entities: &Vec<InventorySchema>)
        ensures
            entities@.map_values(|e: InventorySchema| e@) == self@.schemas,
    {
        &self.inventory.schemas
    }

    /// The SQL fragments, in the order of their registry.
    pub fn extension_sql_registry(&self) -> (entities: &Vec<ExtensionSql>)
        ensures
            entities@.map_values(|e: ExtensionSql| e@) == self@.extension_sqls,
    {
        &self.inventory.extension_sqls
    }

    /// The functions, in the order of their registry.
    pub fn extern_registry(&self) -> (entities: &Vec<InventoryPgExtern>)
        ensures
            entities@.map_values(|e: InventoryPgExtern| e@) == self@.externs,
    {
        &self.inventory.externs
    }

    /// The composite types, in the order of their registry.
    pub fn type_registry(&self) -> (entities: &Vec<InventoryPostgresType>)
        ensures
            entities@.map_values(|e: InventoryPostgresType| e@) == self@.types,
    {
        &self.inventory.types
    }

    /// The enums, in the order of their registry.
    pub fn enum_registry(&self) -> (entities: &Vec<InventoryPostgresEnum>)
        ensures
            entities@.map_values(|e: InventoryPostgresEnum| e@) == self@.enums,
    {
        &self.inventory.enums
    }

    /// The ordering operator classes, in the order of their registry.
    pub fn ord_registry(&self) -> (entities: &Vec<InventoryPostgresOrd>)
        ensures
            entities@.map_values(|e: InventoryPostgresOrd| e@) == self@.ords,
    {
        &self.inventory.ords
    }

    /// The hashing operator classes, in the order of their registry.
    pub fn hash_registry(&self) -> (entities: &Vec<InventoryPostgresHash>)
        ensures
            entities@.map_values(|e: InventoryPostgresHash| e@) == self@.hashes,
    {
        &self.inventory.hashes
    }

    /// The name of the schema that qualifies the entities of a module: that
    /// of the first schema of the registry whose module path is a prefix of
    /// `module`. Where several schemas match, the order of the registry
    /// decides, which is the order in which the schemas were handed to
    /// [`PgxSql::build`]; a schema that stands earlier there wins, whatever
    /// the length of its module path.
    pub fn schema_alias_of(&self, module: &str) -> (alias: Option<String>)
        ensures
            crate::text::option_text(alias) == self@.schema_alias_of(module@),
    {
        let needle = to_chars(module);
        let schemas = &self.inventory.schemas;
        let mut i: usize = 0;
        while i < schemas.len()
            invariant
                i <= schemas.len(),
                needle@ == module@,
                schemas == &self.inventory.schemas,
                self@.schema_of_from(module@, 0) == self@.schema_of_from(module@, i as int),
            decreases schemas.len() - i,
        {
            let path = to_chars(schemas[i].module.as_str());
            if crate::text::starts_with(&needle, &path) {
                return Some(schemas[i].name.clone());
            }
            i += 1;
        }
        None
    }

    /// What stands before the name of an entity of a module: the name of the
    /// schema that [`PgxSql::schema_alias_of`] finds, and a dot.
    pub fn schema_prefix_for(&self, module: &str) -> (prefix: String)
        ensures
            prefix@ == self@.schema_prefix_for(module@),
    {
        match self.schema_alias_of(module) {
            Some(name) => {
                let mut prefix = name;
                prefix.append(".");
                prefix
            },
            None => String::new(),
        }
    }

    /// The SQL name of a type identifier, if the table has one.
    pub fn type_id_to_sql_type(&self, id: u64) -> (sql: Option<String>)
        ensures
            crate::text::option_text(sql) == self@.type_id_to_sql_type(id),
    {
        match self.type_mappings.get(&id) {
            Some(name) => Some(name.clone()),
            None => None,
        }
    }
}

} // verus!
