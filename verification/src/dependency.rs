//! Which entity depends on which. An entity whose SQL names a type that is
//! itself an entity must be rendered after it.

use vstd::prelude::*;
use crate::entity::SqlGraphEntity;
use crate::pg_extern::{
    InventoryPgExtern, InventoryPgExternInputView, InventoryPgExternReturn,
    InventoryPgExternReturnView, InventoryPgExternView, TableColumnView,
};
use crate::pgx_sql::{PgxSqlView, RegistriesView};
use crate::postgres_enum::InventoryPostgresEnum;
use crate::postgres_hash::InventoryPostgresHash;
use crate::postgres_ord::InventoryPostgresOrd;
use crate::postgres_type::{InventoryPostgresType, InventoryPostgresTypeView};
use crate::type_sql::{extern_position_from, find_extern, function_path_of};

verus! {

impl InventoryPgExternReturnView {
    /// The type identifiers of what is returned.
    pub open spec fn type_ids(self) -> Seq<u64> {
        match self {
            InventoryPgExternReturnView::Void => Seq::empty(),
            InventoryPgExternReturnView::Type { id, name, module } => seq![id],
            InventoryPgExternReturnView::SetOf { id, name, module } => seq![id],
            InventoryPgExternReturnView::Iterated(columns) => columns.map_values(
                |c: TableColumnView| c.id,
            ),
            InventoryPgExternReturnView::Trigger => Seq::empty(),
        }
    }
}

impl InventoryPgExternView {
    /// The type identifiers that the function speaks of: those of its
    /// arguments, then those of what it returns.
    pub open spec fn type_ids(self) -> Seq<u64> {
        self.fn_args.map_values(|a: InventoryPgExternInputView| a.ty_id) + self.fn_return.type_ids()
    }
}

impl RegistriesView {
    /// The type identifiers that the function at `found` speaks of, and none
    /// where no function was found.
    pub open spec fn type_ids_of(self, found: Option<int>) -> Seq<u64> {
        match found {
            Some(i) => self.externs[i].type_ids(),
            None => Seq::empty(),
        }
    }

    /// The type identifiers that the conversion functions of `t` speak of.
    /// They are rendered inside the fragment of `t`.
    pub open spec fn conversion_type_ids(self, t: InventoryPostgresTypeView) -> Seq<u64> {
        self.type_ids_of(extern_position_from(self.externs, t.in_fn_path(), 0)) + self.type_ids_of(
            extern_position_from(self.externs, t.out_fn_path(), 0),
        )
    }

    /// The type identifiers that the fragment of the entity `a` speaks of.
    pub open spec fn dependency_ids(self, a: SqlGraphEntity) -> Seq<u64> {
        match a {
            SqlGraphEntity::Function(i) => self.externs[i as int].type_ids(),
            SqlGraphEntity::Type(i) => self.conversion_type_ids(self.types[i as int]),
            SqlGraphEntity::Ord(i) => seq![self.ords[i as int].id],
            SqlGraphEntity::Hash(i) => seq![self.hashes[i as int].id],
            _ => Seq::empty(),
        }
    }

    /// Whether the entity `b` is the composite type or the enum that the
    /// identifier `id` stands for.
    pub open spec fn defines_type(self, b: SqlGraphEntity, id: u64) -> bool {
        match b {
            SqlGraphEntity::Type(j) => j < self.types.len() && self.types[j as int].id_matches(id),
            SqlGraphEntity::Enum(j) => j < self.enums.len() && self.enums[j as int].id_matches(id),
            _ => false,
        }
    }

    /// Whether one of the identifiers `ids` stands for the entity `b`.
    pub open spec fn defines_any(self, b: SqlGraphEntity, ids: Seq<u64>) -> bool {
        exists|k: int| 0 <= k < ids.len() && self.defines_type(b, #[trigger] ids[k])
    }

    /// Whether the entity `a` depends on the entity `b`: the fragment of `a`
    /// speaks of a type that `b` defines. A function depends on the types of
    /// its arguments and of what it returns; a composite type on the types
    /// that its conversion functions speak of, but not on itself, since its
    /// fragment begins by declaring its name; an operator class on its type.
    pub open spec fn depends(self, a: SqlGraphEntity, b: SqlGraphEntity) -> bool {
        a != b && self.defines_any(b, self.dependency_ids(a))
    }
}

impl PgxSqlView {
    /// Whether the entity `a` depends on the entity `b`.
    pub open spec fn depends(self, a: SqlGraphEntity, b: SqlGraphEntity) -> bool {
        self.registries().depends(a, b)
    }

    /// Whether the graph has an edge from node `a` to node `b`.
    pub open spec fn has_edge(self, a: int, b: int) -> bool {
        exists|k: int|
            0 <= k < self.edges.len() && (#[trigger] self.edges[k]).0 == a && self.edges[k].1 == b
    }

    /// The graph has an edge from a node to another exactly where the entity
    /// of the first depends on that of the second.
    pub open spec fn edges_are_dependencies(self) -> bool {
        forall|a: int, b: int|
            0 <= a < self.nodes.len() && 0 <= b < self.nodes.len() ==> (#[trigger] self.has_edge(
                a,
                b,
            ) <==> self.depends(self.nodes[a], self.nodes[b]))
    }
}

impl InventoryPgExtern {
    /// The type identifiers that the function speaks of.
    pub fn type_ids(&self) -> (ids: Vec<u64>)
        ensures
            ids@ == self@.type_ids(),
    {
        let mut ids: Vec<u64> = Vec::new();
        let mut i: usize = 0;
        while i < self.fn_args.len()
            invariant
                i <= self.fn_args.len(),
                ids@ == self@.fn_args.map_values(|a: InventoryPgExternInputView| a.ty_id).take(
                    i as int,
                ),
            decreases self.fn_args.len() - i,
        {
            ids.push(self.fn_args[i].ty_id);
            i += 1;
        }
        let ghost args = ids@;
        match &self.fn_return {
            InventoryPgExternReturn::Void => {},
            InventoryPgExternReturn::Type { id, name, module } => {
                ids.push(*id);
            },
            InventoryPgExternReturn::SetOf { id, name, module } => {
                ids.push(*id);
            },
            InventoryPgExternReturn::Iterated(columns) => {
                let ghost cols = self@.fn_return->Iterated_0;
                let mut k: usize = 0;
                while k < columns.len()
                    invariant
                        k <= columns.len(),
                        cols == columns@.map_values(
                            |c: (u64, String, String, Option<String>)|
                                crate::pg_extern::column_view(c),
                        ),
                        ids@ == args + cols.map_values(|c: TableColumnView| c.id).take(k as int),
                    decreases columns.len() - k,
                {
                    ids.push(columns[k].0);
                    k += 1;
                }
            },
            InventoryPgExternReturn::Trigger => {},
        }
        ids
    }
}

fn append_ids(ids: &mut Vec<u64>, more: &Vec<u64>)
    ensures
        final(ids)@ == old(ids)@ + more@,
{
    let mut i: usize = 0;
    while i < more.len()
        invariant
            i <= more.len(),
            ids@ == old(ids)@ + more@.take(i as int),
        decreases more.len() - i,
    {
        ids.push(more[i]);
        i += 1;
    }
}

/// The type identifiers that the fragment of `entity` speaks of.
pub(crate) fn dependency_ids_of(
    entity: SqlGraphEntity,
    externs: &Vec<InventoryPgExtern>,
    types: &Vec<InventoryPostgresType>,
    ords: &Vec<InventoryPostgresOrd>,
    hashes: &Vec<InventoryPostgresHash>,
    Ghost(view): Ghost<RegistriesView>,
) -> (ids: Vec<u64>)
    requires
        view.has_entity(entity),
        view.externs == externs@.map_values(|e: InventoryPgExtern| e@),
        view.types == types@.map_values(|e: InventoryPostgresType| e@),
        view.ords == ords@.map_values(|e: InventoryPostgresOrd| e@),
        view.hashes == hashes@.map_values(|e: InventoryPostgresHash| e@),
    ensures
        ids@ == view.dependency_ids(entity),
{
    match entity {
        SqlGraphEntity::Function(i) => externs[i].type_ids(),
        SqlGraphEntity::Type(i) => {
            let item = &types[i];
            let mut ids: Vec<u64> = Vec::new();
            let in_fn_path = function_path_of(item.in_fn_home(), &item.in_fn);
            match find_extern(externs, &in_fn_path) {
                Some(k) => {
                    ids = externs[k].type_ids();
                },
                None => {},
            }
            let out_fn_path = function_path_of(item.out_fn_home(), &item.out_fn);
            match find_extern(externs, &out_fn_path) {
                Some(k) => {
                    let more = externs[k].type_ids();
                    append_ids(&mut ids, &more);
                },
                None => {
                },
            }
            ids
        },
        SqlGraphEntity::Ord(i) => {
            let mut ids: Vec<u64> = Vec::new();
            ids.push(ords[i].id);
            ids
        },
        SqlGraphEntity::Hash(i) => {
            let mut ids: Vec<u64> = Vec::new();
            ids.push(hashes[i].id);
            ids
        },
        _ => Vec::new(),
    }
}

/// Whether one of `ids` stands for the composite type `item`.
pub(crate) fn type_matches_any(item: &InventoryPostgresType, ids: &Vec<u64>) -> (b: bool)
    ensures
        b == exists|k: int| 0 <= k < ids@.len() && item@.id_matches(#[trigger] ids@[k]),
{
    let mut k: usize = 0;
    while k < ids.len()
        invariant
            k <= ids.len(),
            forall|j: int| 0 <= j < k ==> !item@.id_matches(#[trigger] ids@[j]),
        decreases ids.len() - k,
    {
        if item.id_matches(&ids[k]) {
            return true;
        }
        k += 1;
    }
    false
}

/// Whether one of `ids` stands for the enum `item`.
pub(crate) fn enum_matches_any(item: &InventoryPostgresEnum, ids: &Vec<u64>) -> (b: bool)
    ensures
        b == exists|k: int| 0 <= k < ids@.len() && item@.id_matches(#[trigger] ids@[k]),
{
    let mut k: usize = 0;
    while k < ids.len()
        invariant
            k <= ids.len(),
            forall|j: int| 0 <= j < k ==> !item@.id_matches(#[trigger] ids@[j]),
        decreases ids.len() - k,
    {
        if item.id_matches(&ids[k]) {
            return true;
        }
        k += 1;
    }
    false
}

} // verus!
