//! Compiles the declared entities of a PostgreSQL extension (schemas, SQL
//! fragments, functions and operators, composite types, enums and operator
//! classes) into one SQL document whose statements stand in dependency order.
//!
//! [`PgxSql::build`] takes the entities and lays out the dependency graph,
//! [`PgxSql::walk`] orders the entities, and [`PgxSql::to_sql`] renders them
//! into the document. Every function states what it returns over the views of
//! its arguments; the modules `soundness` and `theorems` hold what follows
//! for every walk and every document.

pub mod assemble;
pub mod control_file;
pub mod dependency;
pub mod document;
pub mod entity;
pub mod entity_sql;
pub mod error;
pub mod extension_sql;
pub mod function_sql;
pub mod graph;
pub mod pg_extern;
pub mod pg_schema;
pub mod pgx_sql;
pub mod postgres_enum;
pub mod postgres_hash;
pub mod postgres_ord;
pub mod postgres_type;
pub mod registry;
pub mod soundness;
pub mod text;
pub mod theorems;
pub mod type_sql;
pub mod type_table;
pub mod walk;

pub use control_file::ControlFile;
pub use entity::{SqlGraphEntity, SqlGraphRelationship};
pub use error::{OperatorSide, PgxSqlError};
pub use extension_sql::ExtensionSql;
pub use pg_extern::{
    ExternArgs, InventoryPgExtern, InventoryPgExternInput, InventoryPgExternReturn,
    InventoryPgOperator,
};
pub use pg_schema::InventorySchema;
pub use pgx_sql::PgxSql;
pub use postgres_enum::InventoryPostgresEnum;
pub use postgres_hash::InventoryPostgresHash;
pub use postgres_ord::InventoryPostgresOrd;
pub use postgres_type::InventoryPostgresType;
pub use registry::{last_write_wins, SqlGraphIdentifier};
