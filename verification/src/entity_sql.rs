//! The rendering rules for schemas, SQL fragments, enums and operator
//! classes, and the rule that renders a node of the graph by its kind.

use vstd::prelude::*;
use vstd::string::StringExecFns;
use crate::entity::SqlGraphEntity;
use crate::error::{PgxSqlError, PgxSqlErrorView};
use crate::extension_sql::{ExtensionSql, ExtensionSqlView};
use crate::pg_schema::{InventorySchema, InventorySchemaView};
use crate::pgx_sql::{PgxSql, PgxSqlView};
use crate::postgres_enum::{InventoryPostgresEnum, InventoryPostgresEnumView};
use crate::postgres_hash::{InventoryPostgresHash, InventoryPostgresHashView};
use crate::postgres_ord::{InventoryPostgresOrd, InventoryPostgresOrdView};
use crate::text::{decimal, join, join_strings, push_decimal, push_line, texts};

verus! {

impl InventorySchemaView {
    /// Whether the schema is one that every database has, so that it is
    /// never created.
    pub open spec fn is_reserved(self) -> bool {
        self.name == "pg_catalog"@ || self.name == "public"@
    }

    /// The fragment of a schema: nothing for a reserved one, else the
    /// statement that creates it.
    pub open spec fn sql(self) -> Seq<char> {
        if self.is_reserved() {
            Seq::empty()
        } else {
            "-- "@ + self.file + ":"@ + decimal(self.line as nat)
                + "\nCREATE SCHEMA IF NOT EXISTS "@ + self.name + "; /* "@ + self.module
                + " */\n"@
        }
    }
}

impl ExtensionSqlView {
    /// The fragment of a piece of SQL: the text as it is, below the place
    /// where it was declared.
    pub open spec fn to_sql(self) -> Seq<char> {
        "-- "@ + self.file + ":"@ + decimal(self.line as nat) + "\n"@ + self.sql
    }
}

/// A variant of an enum as it stands in the list of the statement.
pub open spec fn variant_sql(variant: Seq<char>) -> Seq<char> {
    "\t'"@ + variant + "'"@
}

impl InventoryPostgresEnumView {
    /// The variants in the order of their declaration, one on each line.
    pub open spec fn variants_sql(self) -> Seq<char> {
        join(self.variants.map_values(|v: Seq<char>| variant_sql(v)), ",\n"@) + "\n"@
    }
}

impl InventoryPostgresOrdView {
    /// The fragment of an ordering operator class: a btree operator family
    /// and its default class, made of the five comparison operators and of
    /// the function `{name}_cmp`.
    pub open spec fn sql(self) -> Seq<char> {
        "\n-- "@ + self.file + ":"@ + decimal(self.line as nat) + "\n-- "@ + self.full_path
            + "\n-- "@ + decimal(self.id as nat) + "\nCREATE OPERATOR FAMILY "@ + self.name
            + "_btree_ops USING btree;\nCREATE OPERATOR CLASS "@ + self.name
            + "_btree_ops DEFAULT FOR TYPE "@ + self.name + " USING btree FAMILY "@ + self.name
            + "_btree_ops AS\n\tOPERATOR 1 <,\n\tOPERATOR 2 <=,\n\tOPERATOR 3 =,\n\tOPERATOR 4 >=,\n\tOPERATOR 5 >,\n\tFUNCTION 1 "@
            + self.name + "_cmp("@ + self.name + ", "@ + self.name + ");\n"@
    }
}

impl InventoryPostgresHashView {
    /// The fragment of a hashing operator class: a hash operator family and
    /// its default class, made of the equality operator and of the function
    /// `{name}_hash`.
    pub open spec fn sql(self) -> Seq<char> {
        "\n-- "@ + self.file + ":"@ + decimal(self.line as nat) + "\n-- "@ + self.full_path
            + "\n-- "@ + decimal(self.id as nat) + "\nCREATE OPERATOR FAMILY "@ + self.name
            + "_hash_ops USING hash;\nCREATE OPERATOR CLASS "@ + self.name
            + "_hash_ops DEFAULT FOR TYPE "@ + self.name + " USING hash FAMILY "@ + self.name
            + "_hash_ops AS\n\tOPERATOR    1   =  ("@ + self.name + ", "@ + self.name
            + "),\n\tFUNCTION    1   "@ + self.name + "_hash("@ + self.name + ");"@
    }
}

impl PgxSqlView {
    /// The statement that creates an enum, as the enum renders itself: it
    /// begins with a line feed and ends with the statement. The variants
    /// stand in the order of their declaration.
    pub open spec fn enum_sql(self, e: InventoryPostgresEnumView) -> Seq<char> {
        "\n-- "@ + e.file + ":"@ + decimal(e.line as nat) + "\n-- "@ + e.full_path
            + "\nCREATE TYPE "@ + self.schema_prefix_for(e.module) + e.name + " AS ENUM (\n"@
            + e.variants_sql() + ");"@
    }

    /// The fragment of an enum in the document: the same statement, which
    /// here begins with its comment and ends with a line feed.
    pub open spec fn enum_fragment_sql(self, e: InventoryPostgresEnumView) -> Seq<char> {
        "-- "@ + e.file + ":"@ + decimal(e.line as nat) + "\n-- "@ + e.full_path
            + "\nCREATE TYPE "@ + self.schema_prefix_for(e.module) + e.name + " AS ENUM (\n"@
            + e.variants_sql() + ");\n"@
    }

    /// The statement that creates the schema which the control file names,
    /// or nothing where it names none.
    pub open spec fn default_schema_sql(self) -> Seq<char> {
        match self.control.schema {
            Some(schema) => "CREATE SCHEMA IF NOT EXISTS "@ + schema + ";\n"@,
            None => Seq::empty(),
        }
    }

    /// The fragments of the first `n` schemas of the registry.
    pub open spec fn schemas_sql_first(self, n: int) -> Seq<char>
        decreases n,
    {
        if n <= 0 {
            Seq::empty()
        } else {
            self.schemas_sql_first(n - 1) + self.schemas[n - 1].sql()
        }
    }

    /// The statements that create the schemas: that of the control file
    /// first, then those of the registry that are not reserved.
    pub open spec fn schemas_sql(self) -> Seq<char> {
        self.default_schema_sql() + self.schemas_sql_first(self.schemas.len() as int)
    }

    /// The fragment of the entity that a node names.
    #[verifier::opaque]
    pub open spec fn entity_sql(self, entity: SqlGraphEntity) -> Result<Seq<char>, PgxSqlErrorView> {
        match entity {
            SqlGraphEntity::Schema(i) => Ok(self.schemas[i as int].sql()),
            SqlGraphEntity::CustomSql(i) => Ok(self.extension_sqls[i as int].to_sql()),
            SqlGraphEntity::Function(i) => self.extern_sql(self.externs[i as int]),
            SqlGraphEntity::Type(i) => self.type_sql(self.types[i as int]),
            SqlGraphEntity::Enum(i) => Ok(self.enum_fragment_sql(self.enums[i as int])),
            SqlGraphEntity::Ord(i) => Ok(self.ords[i as int].sql()),
            SqlGraphEntity::Hash(i) => Ok(self.hashes[i as int].sql()),
        }
    }
}

impl InventorySchema {
    fn is_reserved(&self) -> (b: bool)
        ensures
            b == self@.is_reserved(),
    {
        self.name == String::from_str("pg_catalog") || self.name == String::from_str("public")
    }
}

impl InventoryPostgresEnum {
    fn variants_to_sql(&self) -> (s: String)
        ensures
            s@ == self@.variants_sql(),
    {
        let mut lines: Vec<String> = Vec::new();
        let mut i: usize = 0;
        while i < self.variants.len()
            invariant
                i <= self.variants.len(),
                lines@.len() == i,
                forall|k: int| 0 <= k < i ==> (#[trigger] lines@[k])@ == variant_sql(self.variants@[k]@),
            decreases self.variants.len() - i,
        {
            let mut line = String::from_str("\t'");
            line.append(self.variants[i].as_str());
            line.append("'");
            lines.push(line);
            i += 1;
        }
        assert(texts(lines@) =~= self@.variants.map_values(|v: Seq<char>| variant_sql(v)));
        let mut s = join_strings(&lines, ",\n");
        s.append("\n");
        s
    }

    /// Renders the enum as the statement that creates it. The schema comes
    /// from the schemas of `context`.
    pub fn to_sql(&self, context: &PgxSql) -> (r: Result<String, PgxSqlError>)
        ensures
            r is Ok,
            r->Ok_0@ == context@.enum_sql(self@),
    {
        let mut s = String::from_str("\n-- ");
        s.append(self.file.as_str());
        s.append(":");
        push_line(&mut s, self.line);
        s.append("\n-- ");
        s.append(self.full_path.as_str());
        s.append("\nCREATE TYPE ");
        s.append(context.schema_prefix_for(self.module.as_str()).as_str());
        s.append(self.name.as_str());
        s.append(" AS ENUM (\n");
        s.append(self.variants_to_sql().as_str());
        s.append(");");
        Ok(s)
    }
}

impl PgxSql {
    /// Renders a fragment of SQL that the author wrote.
    pub fn inventory_extension_sql_to_sql(&self, item: &ExtensionSql) -> (sql: String)
        ensures
            sql@ == item@.to_sql(),
    {
        let mut s = String::from_str("-- ");
        s.append(item.file.as_str());
        s.append(":");
        push_line(&mut s, item.line);
        s.append("\n");
        s.append(item.sql.as_str());
        s
    }

    /// Renders a schema. The schemas `pg_catalog` and `public` exist in every
    /// database and give no statement.
    pub fn inventory_schema_to_sql(&self, item: &InventorySchema) -> (sql: String)
        ensures
            sql@ == item@.sql(),
    {
        if item.is_reserved() {
            return String::new();
        }
        let mut s = String::from_str("-- ");
        s.append(item.file.as_str());
        s.append(":");
        push_line(&mut s, item.line);
        s.append("\nCREATE SCHEMA IF NOT EXISTS ");
        s.append(item.name.as_str());
        s.append("; /* ");
        s.append(item.module.as_str());
        s.append(" */\n");
        s
    }

    /// The statement that creates the schema of the control file.
    pub fn default_schema_to_sql(&self) -> (sql: String)
        ensures
            sql@ == self@.default_schema_sql(),
    {
        match &self.control.schema {
            Some(schema) => {
                let mut s = String::from_str("CREATE SCHEMA IF NOT EXISTS ");
                s.append(schema.as_str());
                s.append(";\n");
                s
            },
            None => String::new(),
        }
    }

    /// The statements that create the schemas: that of the control file, if
    /// it names one, then those of the registry but the reserved ones.
    pub fn schemas(&self) -> (sql: String)
        ensures
            sql@ == self@.schemas_sql(),
    {
        let schemas = &self.inventory.schemas;
        let mut buf = self.default_schema_to_sql();
        let mut i: usize = 0;
        while i < schemas.len()
            invariant
                i <= schemas.len(),
                schemas == &self.inventory.schemas,
                buf@ == self@.default_schema_sql() + self@.schemas_sql_first(i as int),
            decreases schemas.len() - i,
        {
            buf.append(self.inventory_schema_to_sql(&schemas[i]).as_str());
            i += 1;
        }
        buf
    }

    /// Renders an enum as its fragment of the document.
    pub fn inventory_enums_to_sql(&self, item: &InventoryPostgresEnum) -> (sql: String)
        ensures
            sql@ == self@.enum_fragment_sql(item@),
    {
        let mut s = String::from_str("-- ");
        s.append(item.file.as_str());
        s.append(":");
        push_line(&mut s, item.line);
        s.append("\n-- ");
        s.append(item.full_path.as_str());
        s.append("\nCREATE TYPE ");
        s.append(self.schema_prefix_for(item.module.as_str()).as_str());
        s.append(item.name.as_str());
        s.append(" AS ENUM (\n");
        s.append(item.variants_to_sql().as_str());
        s.append(");\n");
        s
    }

    /// Renders an ordering operator class.
    pub fn inventory_ord_to_sql(&self, item: &InventoryPostgresOrd) -> (sql: String)
        ensures
            sql@ == item@.sql(),
    {
        let mut s = String::from_str("\n-- ");
        s.append(item.file.as_str());
        s.append(":");
        push_line(&mut s, item.line);
        s.append("\n-- ");
        s.append(item.full_path.as_str());
        s.append("\n-- ");
        push_decimal(&mut s, item.id);
        s.append("\nCREATE OPERATOR FAMILY ");
        s.append(item.name.as_str());
        s.append("_btree_ops USING btree;\nCREATE OPERATOR CLASS ");
        s.append(item.name.as_str());
        s.append("_btree_ops DEFAULT FOR TYPE ");
        s.append(item.name.as_str());
        s.append(" USING btree FAMILY ");
        s.append(item.name.as_str());
        s.append(
            "_btree_ops AS\n\tOPERATOR 1 <,\n\tOPERATOR 2 <=,\n\tOPERATOR 3 =,\n\tOPERATOR 4 >=,\n\tOPERATOR 5 >,\n\tFUNCTION 1 ",
        );
        s.append(item.name.as_str());
        s.append("_cmp(");
        s.append(item.name.as_str());
        s.append(", ");
        s.append(item.name.as_str());
        s.append(");\n");
        s
    }

    /// Renders a hashing operator class.
    pub fn inventory_hash_to_sql(&self, item: &InventoryPostgresHash) -> (sql: String)
        ensures
            sql@ == item@.sql(),
    {
        let mut s = String::from_str("\n-- ");
        s.append(item.file.as_str());
        s.append(":");
        push_line(&mut s, item.line);
        s.append("\n-- ");
        s.append(item.full_path.as_str());
        s.append("\n-- ");
        push_decimal(&mut s, item.id);
        s.append("\nCREATE OPERATOR FAMILY ");
        s.append(item.name.as_str());
        s.append("_hash_ops USING hash;\nCREATE OPERATOR CLASS ");
        s.append(item.name.as_str());
        s.append("_hash_ops DEFAULT FOR TYPE ");
        s.append(item.name.as_str());
        s.append(" USING hash FAMILY ");
        s.append(item.name.as_str());
        s.append("_hash_ops AS\n\tOPERATOR    1   =  (");
        s.append(item.name.as_str());
        s.append(", ");
        s.append(item.name.as_str());
        s.append("),\n\tFUNCTION    1   ");
        s.append(item.name.as_str());
        s.append("_hash(");
        s.append(item.name.as_str());
        s.append(");");
        s
    }
}

impl SqlGraphEntity {
    /// Renders the entity that this node names in the registries of `context`.
    pub fn to_sql(&self, context: &PgxSql) -> (r: Result<String, PgxSqlError>)
        requires
            context@.has_entity(*self),
        ensures
            match r {
                Ok(sql) => context@.entity_sql(*self) == Ok::<Seq<char>, PgxSqlErrorView>(sql@),
                Err(e) => context@.entity_sql(*self) == Err::<Seq<char>, PgxSqlErrorView>(e@),
            },
    {
        reveal(PgxSqlView::entity_sql);
        match self {
            SqlGraphEntity::Schema(i) => Ok(
                context.inventory_schema_to_sql(&context.inventory.schemas[*i]),
            ),
            SqlGraphEntity::CustomSql(i) => Ok(
                context.inventory_extension_sql_to_sql(&context.inventory.extension_sqls[*i]),
            ),
            SqlGraphEntity::Function(i) => context.inventory_extern_to_sql(
                &context.inventory.externs[*i],
            ),
            SqlGraphEntity::Type(i) => context.inventory_type_to_sql(&context.inventory.types[*i]),
            SqlGraphEntity::Enum(i) => Ok(
                context.inventory_enums_to_sql(&context.inventory.enums[*i]),
            ),
            SqlGraphEntity::Ord(i) => Ok(context.inventory_ord_to_sql(&context.inventory.ords[*i])),
            SqlGraphEntity::Hash(i) => Ok(
                context.inventory_hash_to_sql(&context.inventory.hashes[*i]),
            ),
        }
    }
}

} // verus!
