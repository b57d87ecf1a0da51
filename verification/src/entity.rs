//! The nodes and edge labels of the dependency graph.

use vstd::prelude::*;

verus! {

/// A node of the dependency graph. Each variant names one registry of the
/// [`PgxSql`](crate::PgxSql) that owns the graph; the number is the position of
/// the entity in that registry.
#[derive(Debug, Clone, Copy, PartialEq, Eq, Structural)]
pub enum SqlGraphEntity {
    Schema(usize),
    CustomSql(usize),
    Function(usize),
    Type(usize),
    Enum(usize),
    Ord(usize),
    Hash(usize),
}

/// The label of an edge of the dependency graph: the source of the edge needs
/// its target to be defined first.
#[derive(Debug, Clone, Copy, PartialEq, PartialOrd, Eq, Ord)]
pub enum SqlGraphRelationship {
    DependsOn,
}

impl SqlGraphEntity {
    /// The node of the same kind for the entity at position `i`.
    pub open spec fn at(self, i: usize) -> SqlGraphEntity {
        match self {
            SqlGraphEntity::Schema(_) => SqlGraphEntity::Schema(i),
            SqlGraphEntity::CustomSql(_) => SqlGraphEntity::CustomSql(i),
            SqlGraphEntity::Function(_) => SqlGraphEntity::Function(i),
            SqlGraphEntity::Type(_) => SqlGraphEntity::Type(i),
            SqlGraphEntity::Enum(_) => SqlGraphEntity::Enum(i),
            SqlGraphEntity::Ord(_) => SqlGraphEntity::Ord(i),
            SqlGraphEntity::Hash(_) => SqlGraphEntity::Hash(i),
        }
    }

    /// The node of the same kind for the entity at position `i`.
    pub fn with_position(self, i: usize) -> (e: SqlGraphEntity)
        ensures
            e == self.at(i),
    {
        match self {
            SqlGraphEntity::Schema(_) => SqlGraphEntity::Schema(i),
            SqlGraphEntity::CustomSql(_) => SqlGraphEntity::CustomSql(i),
            SqlGraphEntity::Function(_) => SqlGraphEntity::Function(i),
            SqlGraphEntity::Type(_) => SqlGraphEntity::Type(i),
            SqlGraphEntity::Enum(_) => SqlGraphEntity::Enum(i),
            SqlGraphEntity::Ord(_) => SqlGraphEntity::Ord(i),
            SqlGraphEntity::Hash(_) => SqlGraphEntity::Hash(i),
        }
    }
}

} // verus!
