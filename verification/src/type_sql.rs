//! The rendering rule for composite types.

use vstd::prelude::*;
use vstd::string::StringExecFns;
use crate::error::{PgxSqlError, PgxSqlErrorView};
use crate::pg_extern::{InventoryPgExtern, InventoryPgExternView};
use crate::pgx_sql::{PgxSql, PgxSqlView};
use crate::postgres_type::{InventoryPostgresType, InventoryPostgresTypeView};
use crate::text::{decimal, push_decimal, push_line};

verus! {

/// The path of a function: its name after the path of its module, if it has one.
pub open spec fn function_path(module: Seq<char>, name: Seq<char>) -> Seq<char> {
    module + (if module.len() != 0 {
        "::"@
    } else {
        ""@
    }) + name
}

impl InventoryPostgresTypeView {
    /// The module of the input function: the declared one, or that of the type.
    pub open spec fn in_fn_home(self) -> Seq<char> {
        if self.in_fn_module.len() != 0 {
            self.in_fn_module
        } else {
            self.module
        }
    }

    /// The module of the output function: the declared one, or that of the type.
    pub open spec fn out_fn_home(self) -> Seq<char> {
        if self.out_fn_module.len() != 0 {
            self.out_fn_module
        } else {
            self.module
        }
    }

    /// The qualified path under which the input function is looked up.
    pub open spec fn in_fn_path(self) -> Seq<char> {
        function_path(self.in_fn_home(), self.in_fn)
    }

    /// The qualified path under which the output function is looked up.
    pub open spec fn out_fn_path(self) -> Seq<char> {
        function_path(self.out_fn_home(), self.out_fn)
    }

    /// The error for a conversion function that is no function entity.
    pub open spec fn missing_conversion(self, qualified_name: Seq<char>) -> PgxSqlErrorView {
        PgxSqlErrorView::MissingConversionFunction {
            qualified_name,
            referencing_entity: self.full_path,
            file: self.file,
            line: self.line,
        }
    }
}

/// The position of the first among `externs` from position `from` on whose
/// qualified path is `path`.
pub open spec fn extern_position_from(
    externs: Seq<InventoryPgExternView>,
    path: Seq<char>,
    from: int,
) -> Option<int>
    decreases externs.len() - from,
{
    if from < 0 || from >= externs.len() {
        None
    } else if externs[from].full_path == path {
        Some(from)
    } else {
        extern_position_from(externs, path, from + 1)
    }
}

/// Where `extern_position_from` finds a function, it stands in `externs`
/// and has the path that was looked for.
pub proof fn lemma_extern_position(externs: Seq<InventoryPgExternView>, path: Seq<char>, from: int)
    requires
        0 <= from,
    ensures
        match extern_position_from(externs, path, from) {
            Some(i) => from <= i < externs.len() && externs[i].full_path == path,
            None => true,
        },
    decreases externs.len() - from,
{
    if from < externs.len() && externs[from].full_path != path {
        lemma_extern_position(externs, path, from + 1);
    }
}

impl PgxSqlView {
    /// The position of the function entity with the qualified path `path`:
    /// the first one in the registry, should several have it.
    pub open spec fn extern_named(self, path: Seq<char>) -> Option<int> {
        extern_position_from(self.externs, path, 0)
    }

    /// The declaration of the type's name alone, which lets the conversion
    /// functions speak of the type before it is defined.
    pub open spec fn shell_type_sql(self, t: InventoryPostgresTypeView) -> Seq<char> {
        "\n-- "@ + t.file + ":"@ + decimal(t.line as nat) + "\n-- "@ + t.full_path
            + "\nCREATE TYPE "@ + self.schema_prefix_for(t.module) + t.name + ";\n"@
    }

    /// The definition of the type, of variable length and extended storage,
    /// which names the conversion functions.
    pub open spec fn materialized_type_sql(self, t: InventoryPostgresTypeView) -> Seq<char> {
        "\n-- "@ + t.file + ":"@ + decimal(t.line as nat) + "\n-- "@ + t.full_path + " - "@
            + decimal(t.id as nat) + "\nCREATE TYPE "@ + self.schema_prefix_for(t.module) + t.name
            + " (\n\tINTERNALLENGTH = variable,\n\tINPUT = "@ + self.schema_prefix_for(
            t.in_fn_home(),
        ) + t.in_fn + ", /* "@ + t.in_fn_path() + " */\n\tOUTPUT = "@ + self.schema_prefix_for(
            t.out_fn_home(),
        ) + t.out_fn + ", /* "@ + t.out_fn_path()
            + " */\n\tSTORAGE = extended\n);\n                            "@
    }

    /// The fragment of the composite type `t`: the shell declaration, the
    /// input function, the output function and the definition, in this
    /// order. It fails with the first of: the input function is no function
    /// entity, it cannot be rendered, and the same for the output function.
    pub open spec fn type_sql(self, t: InventoryPostgresTypeView) -> Result<
        Seq<char>,
        PgxSqlErrorView,
    > {
        match self.extern_named(t.in_fn_path()) {
            None => Err(t.missing_conversion(t.in_fn_path())),
            Some(i) => match self.extern_sql(self.externs[i]) {
                Err(e) => Err(e),
                Ok(in_fn_sql) => match self.extern_named(t.out_fn_path()) {
                    None => Err(t.missing_conversion(t.out_fn_path())),
                    Some(o) => match self.extern_sql(self.externs[o]) {
                        Err(e) => Err(e),
                        Ok(out_fn_sql) => Ok(
                            self.shell_type_sql(t) + in_fn_sql + out_fn_sql
                                + self.materialized_type_sql(t),
                        ),
                    },
                },
            },
        }
    }
}

pub(crate) fn function_path_of(module: &String, name: &String) -> (path: String)
    ensures
        path@ == function_path(module@, name@),
{
    let mut path = module.clone();
    path.append(
        if module.as_str().unicode_len() != 0 {
            "::"
        } else {
            ""
        },
    );
    path.append(name.as_str());
    path
}

impl InventoryPostgresType {
    pub(crate) fn in_fn_home(&self) -> (home: &String)
        ensures
            home@ == self@.in_fn_home(),
    {
        if self.in_fn_module.as_str().unicode_len() != 0 {
            &self.in_fn_module
        } else {
            &self.module
        }
    }

    pub(crate) fn out_fn_home(&self) -> (home: &String)
        ensures
            home@ == self@.out_fn_home(),
    {
        if self.out_fn_module.as_str().unicode_len() != 0 {
            &self.out_fn_module
        } else {
            &self.module
        }
    }

    fn missing_conversion(&self, qualified_name: String) -> (e: PgxSqlError)
        ensures
            e@ == self@.missing_conversion(qualified_name@),
    {
        PgxSqlError::MissingConversionFunction {
            qualified_name,
            referencing_entity: self.full_path.clone(),
            file: self.file.clone(),
            line: self.line,
        }
    }
}

/// The position of the function with the qualified path `path`.
pub(crate) fn find_extern(externs: &Vec<InventoryPgExtern>, path: &String) -> (found: Option<usize>)
    ensures
        match found {
            Some(i) => i < externs.len() && extern_position_from(
                externs@.map_values(|e: InventoryPgExtern| e@),
                path@,
                0,
            ) == Some(i as int),
            None => extern_position_from(externs@.map_values(|e: InventoryPgExtern| e@), path@, 0)
                is None,
        },
{
    let ghost views = externs@.map_values(|e: InventoryPgExtern| e@);
    let mut i: usize = 0;
    while i < externs.len()
        invariant
            i <= externs.len(),
            views == externs@.map_values(|e: InventoryPgExtern| e@),
            extern_position_from(views, path@, 0) == extern_position_from(views, path@, i as int),
        decreases externs.len() - i,
    {
        if externs[i].full_path == *path {
            return Some(i);
        }
        i += 1;
    }
    None
}

impl PgxSql {
    /// The function entity with the qualified path `path`.
    pub(crate) fn extern_named(&self, path: &String) -> (found: Option<&InventoryPgExtern>)
        ensures
            match found {
                Some(f) => self@.extern_named(path@) is Some && f@ == self@.externs[self@.extern_named(
                    path@,
                )->0],
                None => self@.extern_named(path@) is None,
            },
    {
        match find_extern(&self.inventory.externs, path) {
            Some(i) => Some(&self.inventory.externs[i]),
            None => None,
        }
    }

    fn shell_type_to_sql(&self, item: &InventoryPostgresType) -> (s: String)
        ensures
            s@ == self@.shell_type_sql(item@),
    {
        let mut s = String::from_str("\n-- ");
        s.append(item.file.as_str());
        s.append(":");
        push_line(&mut s, item.line);
        s.append("\n-- ");
        s.append(item.full_path.as_str());
        s.append("\nCREATE TYPE ");
        s.append(self.schema_prefix_for(item.module.as_str()).as_str());
        s.append(item.name.as_str());
        s.append(";\n");
        s
    }

    fn materialized_type_to_sql(&self, item: &InventoryPostgresType) -> (s: String)
        ensures
            s@ == self@.materialized_type_sql(item@),
    {
        let mut s = String::from_str("\n-- ");
        s.append(item.file.as_str());
        s.append(":");
        push_line(&mut s, item.line);
        s.append("\n-- ");
        s.append(item.full_path.as_str());
        s.append(" - ");
        push_decimal(&mut s, item.id);
        s.append("\nCREATE TYPE ");
        s.append(self.schema_prefix_for(item.module.as_str()).as_str());
        s.append(item.name.as_str());
        s.append(" (\n\tINTERNALLENGTH = variable,\n\tINPUT = ");
        s.append(self.schema_prefix_for(item.in_fn_home().as_str()).as_str());
        s.append(item.in_fn.as_str());
        s.append(", /* ");
        s.append(function_path_of(item.in_fn_home(), &item.in_fn).as_str());
        s.append(" */\n\tOUTPUT = ");
        s.append(self.schema_prefix_for(item.out_fn_home().as_str()).as_str());
        s.append(item.out_fn.as_str());
        s.append(", /* ");
        s.append(function_path_of(item.out_fn_home(), &item.out_fn).as_str());
        s.append(" */\n\tSTORAGE = extended\n);\n                            ");
        s
    }

    /// Renders a composite type together with its conversion functions.
    pub fn inventory_type_to_sql(&self, item: &InventoryPostgresType) -> (r: Result<
        String,
        PgxSqlError,
    >)
        ensures
            match r {
                Ok(sql) => self@.type_sql(item@) == Ok::<Seq<char>, PgxSqlErrorView>(sql@),
                Err(e) => self@.type_sql(item@) == Err::<Seq<char>, PgxSqlErrorView>(e@),
            },
    {
        let in_fn_path = function_path_of(item.in_fn_home(), &item.in_fn);
        let in_fn = match self.extern_named(&in_fn_path) {
            Some(in_fn) => in_fn,
            None => {
                return Err(item.missing_conversion(in_fn_path));
            },
        };
        let in_fn_sql = match self.inventory_extern_to_sql(in_fn) {
            Ok(sql) => sql,
            Err(e) => {
                return Err(e);
            },
        };
        let out_fn_path = function_path_of(item.out_fn_home(), &item.out_fn);
        let out_fn = match self.extern_named(&out_fn_path) {
            Some(out_fn) => out_fn,
            None => {
                return Err(item.missing_conversion(out_fn_path));
            },
        };
        let out_fn_sql = match self.inventory_extern_to_sql(out_fn) {
            Ok(sql) => sql,
            Err(e) => {
                return Err(e);
            },
        };
        let mut sql = self.shell_type_to_sql(item);
        sql.append(in_fn_sql.as_str());
        sql.append(out_fn_sql.as_str());
        sql.append(self.materialized_type_to_sql(item).as_str());
        Ok(sql)
    }
}

} // verus!
