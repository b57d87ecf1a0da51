//! How the type mapping table is filled from the enums and composite types.

use vstd::prelude::*;
use vstd::string::StringExecFns;
use std::collections::HashMap;
use crate::entity::SqlGraphEntity;
use crate::pgx_sql::{mapping_texts, PgxSql, PgxSqlView};
use crate::postgres_enum::{InventoryPostgresEnum, InventoryPostgresEnumView};
use crate::postgres_type::{InventoryPostgresType, InventoryPostgresTypeView};

verus! {

broadcast use vstd::std_specs::hash::group_hash_axioms;

/// The SQL name of the arrays of a type.
pub open spec fn array_of(name: Seq<char>) -> Seq<char> {
    name + "[]"@
}

/// `table` with the name `sql` for the identifier `id`, if there is one.
pub open spec fn with_optional(table: Map<u64, Seq<char>>, id: Option<u64>, sql: Seq<char>) -> Map<
    u64,
    Seq<char>,
> {
    match id {
        Some(id) => table.insert(id, sql),
        None => table,
    }
}

impl InventoryPostgresEnumView {
    /// `table` after this enum has been registered: each of its identifiers
    /// has the enum's name, or the name of its arrays where the identifier
    /// stands for several values. A later entry for an identifier replaces
    /// an earlier one.
    pub open spec fn register(self, table: Map<u64, Seq<char>>) -> Map<u64, Seq<char>> {
        let t1 = table.insert(self.id, self.name);
        let t2 = t1.insert(self.option_id, self.name);
        let t3 = t2.insert(self.vec_id, array_of(self.name));
        let t4 = with_optional(t3, self.varlena_id, self.name);
        let t5 = with_optional(t4, self.array_id, array_of(self.name));
        with_optional(t5, self.option_array_id, array_of(self.name))
    }
}

impl InventoryPostgresTypeView {
    /// `table` after this composite type has been registered, in the same way
    /// as an enum.
    pub open spec fn register(self, table: Map<u64, Seq<char>>) -> Map<u64, Seq<char>> {
        let t1 = table.insert(self.id, self.name);
        let t2 = t1.insert(self.option_id, self.name);
        let t3 = t2.insert(self.vec_id, array_of(self.name));
        let t4 = t3.insert(self.vec_option_id, array_of(self.name));
        let t5 = with_optional(t4, self.varlena_id, self.name);
        let t6 = with_optional(t5, self.array_id, array_of(self.name));
        with_optional(t6, self.option_array_id, array_of(self.name))
    }
}

/// `table` after the first `n` of `enums` have been registered, in their order.
pub open spec fn register_enums(
    enums: Seq<InventoryPostgresEnumView>,
    table: Map<u64, Seq<char>>,
    n: int,
) -> Map<u64, Seq<char>>
    decreases n,
{
    if n <= 0 {
        table
    } else {
        enums[n - 1].register(register_enums(enums, table, n - 1))
    }
}

/// `table` after the first `n` of `types` have been registered, in their order.
pub open spec fn register_composites(
    types: Seq<InventoryPostgresTypeView>,
    table: Map<u64, Seq<char>>,
    n: int,
) -> Map<u64, Seq<char>>
    decreases n,
{
    if n <= 0 {
        table
    } else {
        types[n - 1].register(register_composites(types, table, n - 1))
    }
}

impl PgxSqlView {
    /// The table after every enum and then every composite type has been
    /// registered.
    pub open spec fn registered(self) -> Map<u64, Seq<char>> {
        register_composites(
            self.types,
            register_enums(self.enums, self.type_mappings, self.enums.len() as int),
            self.types.len() as int,
        )
    }
}

impl InventoryPostgresEnumView {
    /// Registering an enum keeps the identifiers that the table knows and
    /// adds those of the enum.
    pub proof fn lemma_register(self, table: Map<u64, Seq<char>>, id: u64)
        requires
            table.contains_key(id) || self.id_matches(id),
        ensures
            self.register(table).contains_key(id),
    {
    }
}

impl InventoryPostgresTypeView {
    /// Registering a composite type keeps the identifiers that the table
    /// knows and adds those of the type.
    pub proof fn lemma_register(self, table: Map<u64, Seq<char>>, id: u64)
        requires
            table.contains_key(id) || self.id_matches(id),
        ensures
            self.register(table).contains_key(id),
    {
    }
}

/// After the first `n` enums have been registered, the table knows what it
/// knew before and every identifier of these enums.
pub proof fn lemma_register_enums(
    enums: Seq<InventoryPostgresEnumView>,
    table: Map<u64, Seq<char>>,
    n: int,
    id: u64,
)
    requires
        0 <= n <= enums.len(),
        table.contains_key(id) || exists|i: int| 0 <= i < n && (#[trigger] enums[i]).id_matches(id),
    ensures
        register_enums(enums, table, n).contains_key(id),
    decreases n,
{
    if n > 0 {
        let before = register_enums(enums, table, n - 1);
        if !enums[n - 1].id_matches(id) {
            lemma_register_enums(enums, table, n - 1, id);
        }
        enums[n - 1].lemma_register(before, id);
    }
}

/// After the first `n` composite types have been registered, the table knows
/// what it knew before and every identifier of these types.
pub proof fn lemma_register_composites(
    types: Seq<InventoryPostgresTypeView>,
    table: Map<u64, Seq<char>>,
    n: int,
    id: u64,
)
    requires
        0 <= n <= types.len(),
        table.contains_key(id) || exists|i: int| 0 <= i < n && (#[trigger] types[i]).id_matches(id),
    ensures
        register_composites(types, table, n).contains_key(id),
    decreases n,
{
    if n > 0 {
        let before = register_composites(types, table, n - 1);
        if !types[n - 1].id_matches(id) {
            lemma_register_composites(types, table, n - 1, id);
        }
        types[n - 1].lemma_register(before, id);
    }
}

impl PgxSqlView {
    /// After registration the table knows every identifier that it knew
    /// before, and every identifier that stands for an enum or a composite
    /// type of the registries.
    pub proof fn lemma_known_types_are_mapped(self, b: SqlGraphEntity, id: u64)
        requires
            self.type_mappings.contains_key(id) || self.registries().defines_type(b, id),
        ensures
            self.registered().contains_key(id),
    {
        let enums_done = register_enums(
            self.enums,
            self.type_mappings,
            self.enums.len() as int,
        );
        if self.type_mappings.contains_key(id) {
            lemma_register_enums(self.enums, self.type_mappings, self.enums.len() as int, id);
            lemma_register_composites(self.types, enums_done, self.types.len() as int, id);
        } else {
            match b {
                SqlGraphEntity::Enum(j) => {
                    assert(self.enums[j as int].id_matches(id));
                    lemma_register_enums(
                        self.enums,
                        self.type_mappings,
                        self.enums.len() as int,
                        id,
                    );
                    lemma_register_composites(self.types, enums_done, self.types.len() as int, id);
                },
                SqlGraphEntity::Type(j) => {
                    assert(self.types[j as int].id_matches(id));
                    lemma_register_composites(self.types, enums_done, self.types.len() as int, id);
                },
                _ => {},
            }
        }
    }
}

pub(crate) fn insert_mapping(table: &mut HashMap<u64, String>, id: u64, sql: String)
    ensures
        mapping_texts(final(table)@) == mapping_texts(old(table)@).insert(id, sql@),
{
    table.insert(id, sql);
}

fn insert_optional(table: &mut HashMap<u64, String>, id: Option<u64>, sql: String)
    ensures
        mapping_texts(final(table)@) == with_optional(mapping_texts(old(table)@), id, sql@),
{
    if let Some(id) = id {
        insert_mapping(table, id, sql);
    }
}

fn array_name(name: &String) -> (array: String)
    ensures
        array@ == array_of(name@),
{
    let mut array = name.clone();
    array.append("[]");
    array
}

fn register_enum(table: &mut HashMap<u64, String>, item: &InventoryPostgresEnum)
    ensures
        mapping_texts(final(table)@) == item@.register(mapping_texts(old(table)@)),
{
    insert_mapping(table, item.id, item.name.clone());
    insert_mapping(table, item.option_id, item.name.clone());
    insert_mapping(table, item.vec_id, array_name(&item.name));
    insert_optional(table, item.varlena_id, item.name.clone());
    insert_optional(table, item.array_id, array_name(&item.name));
    insert_optional(table, item.option_array_id, array_name(&item.name));
}

fn register_composite(table: &mut HashMap<u64, String>, item: &InventoryPostgresType)
    ensures
        mapping_texts(final(table)@) == item@.register(mapping_texts(old(table)@)),
{
    insert_mapping(table, item.id, item.name.clone());
    insert_mapping(table, item.option_id, item.name.clone());
    insert_mapping(table, item.vec_id, array_name(&item.name));
    insert_mapping(table, item.vec_option_id, array_name(&item.name));
    insert_optional(table, item.varlena_id, item.name.clone());
    insert_optional(table, item.array_id, array_name(&item.name));
    insert_optional(table, item.option_array_id, array_name(&item.name));
}

impl PgxSql {
    /// Gives a type identifier an SQL name. The name that it had is lost.
    pub fn map_type_id_to_sql_type(&mut self, id: u64, sql: &str)
        ensures
            final(self)@ == (PgxSqlView {
                type_mappings: old(self)@.type_mappings.insert(id, sql@),
                ..old(self)@
            }),
    {
        insert_mapping(&mut self.type_mappings, id, String::from_str(sql));
    }

    /// Enters every enum and every composite type of the registries into the
    /// type mapping table, the enums first. Nothing else changes.
    pub fn register_types(&mut self)
        ensures
            final(self)@ == (PgxSqlView { type_mappings: old(self)@.registered(), ..old(self)@ }),
    {
        let ghost before = self@;
        let mut i: usize = 0;
        while i < self.inventory.enums.len()
            invariant
                i <= self.inventory.enums.len(),
                self@ == (PgxSqlView {
                    type_mappings: register_enums(before.enums, before.type_mappings, i as int),
                    ..before
                }),
            decreases self.inventory.enums.len() - i,
        {
            register_enum(&mut self.type_mappings, &self.inventory.enums[i]);
            i += 1;
        }
        let ghost between = self@.type_mappings;
        let mut j: usize = 0;
        while j < self.inventory.types.len()
            invariant
                j <= self.inventory.types.len(),
                between == register_enums(
                    before.enums,
                    before.type_mappings,
                    before.enums.len() as int,
                ),
                self@ == (PgxSqlView {
                    type_mappings: register_composites(before.types, between, j as int),
                    ..before
                }),
            decreases self.inventory.types.len() - j,
        {
            register_composite(&mut self.type_mappings, &self.inventory.types[j]);
            j += 1;
        }
    }
}

} // verus!
