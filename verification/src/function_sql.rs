//! The rendering rule for functions, and for the operators that they implement.

use vstd::prelude::*;
use vstd::string::StringExecFns;
use crate::error::{OperatorSide, PgxSqlError, PgxSqlErrorView};
use crate::pg_extern::{
    ExternArgs, InventoryPgExtern, InventoryPgExternReturn, InventoryPgExternReturnView,
    InventoryPgExternView, InventoryPgOperator, InventoryPgOperatorView, TableColumnView,
};
use crate::pgx_sql::{PgxSql, PgxSqlView};
use crate::text::{comment_out, comment_out_lines, decimal, join, join_strings, push_line, texts};

verus! {

impl ExternArgs {
    /// The SQL keyword of a modifier. Two of them only steer how the function
    /// is compiled and have none.
    pub open spec fn sql(self) -> Seq<char> {
        match self {
            ExternArgs::Immutable => "IMMUTABLE"@,
            ExternArgs::Strict => "STRICT"@,
            ExternArgs::Stable => "STABLE"@,
            ExternArgs::Volatile => "VOLATILE"@,
            ExternArgs::Raw => ""@,
            ExternArgs::NoGuard => ""@,
            ExternArgs::ParallelSafe => "PARALLEL SAFE"@,
            ExternArgs::ParallelUnsafe => "PARALLEL UNSAFE"@,
            ExternArgs::ParallelRestricted => "PARALLEL RESTRICTED"@,
        }
    }

    /// The SQL keyword of a modifier.
    pub fn to_sql(&self) -> (s: &'static str)
        ensures
            s@ == self.sql(),
    {
        match self {
            ExternArgs::Immutable => "IMMUTABLE",
            ExternArgs::Strict => "STRICT",
            ExternArgs::Stable => "STABLE",
            ExternArgs::Volatile => "VOLATILE",
            ExternArgs::Raw => "",
            ExternArgs::NoGuard => "",
            ExternArgs::ParallelSafe => "PARALLEL SAFE",
            ExternArgs::ParallelUnsafe => "PARALLEL UNSAFE",
            ExternArgs::ParallelRestricted => "PARALLEL RESTRICTED",
        }
    }
}

/// The clause that gives an argument its default value.
pub open spec fn default_sql(default: Option<Seq<char>>) -> Seq<char> {
    match default {
        Some(value) => " DEFAULT "@ + value,
        None => Seq::empty(),
    }
}

/// What separates an item of a list from the next: a comma where another
/// item follows.
pub open spec fn list_separator(i: int, len: int) -> Seq<char> {
    if i < len - 1 {
        ", "@
    } else {
        " "@
    }
}

impl InventoryPgOperatorView {
    /// The optional clauses of the operator, those that are declared, in
    /// their fixed order.
    pub open spec fn optionals(self) -> Seq<Seq<char>> {
        let s0 = Seq::<Seq<char>>::empty();
        let s1 = match self.commutator {
            Some(it) => s0.push("\tCOMMUTATOR = "@ + it),
            None => s0,
        };
        let s2 = match self.negator {
            Some(it) => s1.push("\tNEGATOR = "@ + it),
            None => s1,
        };
        let s3 = match self.restrict {
            Some(it) => s2.push("\tRESTRICT = "@ + it),
            None => s2,
        };
        let s4 = match self.join {
            Some(it) => s3.push("\tJOIN = "@ + it),
            None => s3,
        };
        let s5 = if self.hashes {
            s4.push("\tHASHES"@)
        } else {
            s4
        };
        if self.merges {
            s5.push("\tMERGES"@)
        } else {
            s5
        }
    }
}

impl InventoryPgExternView {
    /// Whether the function is made strict though its author did not say so:
    /// no modifier says so already, and no argument can be null.
    pub open spec fn strict_upgrade(self) -> bool {
        &&& !self.extern_attrs.contains(ExternArgs::Strict)
        &&& forall|i: int| 0 <= i < self.fn_args.len() ==> !(#[trigger] self.fn_args[i]).is_optional
    }

    /// The modifiers that are rendered: the author's, and after them the
    /// inferred strictness.
    pub open spec fn effective_attrs(self) -> Seq<ExternArgs> {
        if self.strict_upgrade() {
            self.extern_attrs.push(ExternArgs::Strict)
        } else {
            self.extern_attrs
        }
    }

    /// The line of modifiers, or nothing where there is none.
    pub open spec fn attrs_sql(self) -> Seq<char> {
        let attrs = self.effective_attrs();
        if attrs.len() == 0 {
            Seq::empty()
        } else {
            join(attrs.map_values(|a: ExternArgs| a.sql()), " "@) + "\n"@
        }
    }

    /// The clause that sets the search path, or nothing where none is declared.
    pub open spec fn search_path_sql(self) -> Seq<char> {
        match self.search_path {
            Some(path) => "SET search_path TO "@ + join(path, ", "@) + "\n"@,
            None => Seq::empty(),
        }
    }

    /// The two comment lines above a statement: where the function was
    /// declared, and its path.
    pub open spec fn heading(self) -> Seq<char> {
        "\n-- "@ + self.file + ":"@ + decimal(self.line as nat) + "\n-- "@ + self.module + "::"@
            + self.name + "\n"@
    }

    /// The error for a type of this function that the table does not know.
    pub open spec fn missing_type(
        self,
        type_id: u64,
        ty_name: Seq<char>,
        argument: Option<Seq<char>>,
    ) -> PgxSqlErrorView {
        PgxSqlErrorView::MissingTypeMapping {
            type_id,
            ty_name,
            argument,
            referencing_entity: self.full_path,
            file: self.file,
            line: self.line,
        }
    }

    /// The error for a column without a name.
    pub open spec fn missing_column_name(self, column_index: usize) -> PgxSqlErrorView {
        PgxSqlErrorView::MissingTableColumnName {
            function_name: self.name,
            column_index,
            referencing_entity: self.full_path,
            file: self.file,
            line: self.line,
        }
    }

    /// The error for an operator that lacks the argument of one side. An
    /// operator takes its left side from the first argument of the function
    /// and its right side from the second.
    pub open spec fn operator_error(self, op: InventoryPgOperatorView) -> Option<PgxSqlErrorView> {
        if self.fn_args.len() >= 2 {
            None
        } else {
            Some(
                PgxSqlErrorView::MissingOperatorArgument {
                    operator_name: op.opname,
                    side: if self.fn_args.len() == 0 {
                        OperatorSide::Left
                    } else {
                        OperatorSide::Right
                    },
                    referencing_entity: self.full_path,
                    file: self.file,
                    line: self.line,
                },
            )
        }
    }
}

impl PgxSqlView {
    /// Why argument `i` of `f` cannot be rendered, if it cannot.
    pub open spec fn arg_error(self, f: InventoryPgExternView, i: int) -> Option<PgxSqlErrorView> {
        let arg = f.fn_args[i];
        if self.type_mappings.contains_key(arg.ty_id) {
            None
        } else {
            Some(f.missing_type(arg.ty_id, arg.ty_name, Some(arg.pattern)))
        }
    }

    /// The error of the first among the first `n` arguments of `f` that
    /// cannot be rendered.
    pub open spec fn first_arg_error(self, f: InventoryPgExternView, n: int) -> Option<
        PgxSqlErrorView,
    >
        decreases n,
    {
        if n <= 0 {
            None
        } else {
            match self.first_arg_error(f, n - 1) {
                Some(e) => Some(e),
                None => self.arg_error(f, n - 1),
            }
        }
    }

    /// The line of argument `i` of `f`.
    pub open spec fn arg_sql(self, f: InventoryPgExternView, i: int) -> Seq<char> {
        let arg = f.fn_args[i];
        "\t\""@ + arg.pattern + "\" "@ + self.schema_prefix_for(arg.module)
            + self.type_mappings[arg.ty_id] + default_sql(arg.default) + list_separator(
            i,
            f.fn_args.len() as int,
        ) + "/* "@ + arg.ty_name + " */"@
    }

    /// The argument list of `f`: one line for each argument, or nothing at all.
    pub open spec fn args_sql(self, f: InventoryPgExternView) -> Seq<char> {
        if f.fn_args.len() == 0 {
            Seq::empty()
        } else {
            "\n"@ + join(Seq::new(f.fn_args.len(), |i: int| self.arg_sql(f, i)), "\n"@) + "\n"@
        }
    }

    /// Why column `i` of the table that `f` returns cannot be rendered, if it
    /// cannot: it has no name, or else its type is unknown.
    pub open spec fn column_error(
        self,
        f: InventoryPgExternView,
        columns: Seq<TableColumnView>,
        i: int,
    ) -> Option<PgxSqlErrorView> {
        let column = columns[i];
        if column.name is None {
            Some(f.missing_column_name(i as usize))
        } else if !self.type_mappings.contains_key(column.id) {
            Some(f.missing_type(column.id, column.ty_name, None))
        } else {
            None
        }
    }

    /// The error of the first among the first `n` columns that cannot be
    /// rendered.
    pub open spec fn first_column_error(
        self,
        f: InventoryPgExternView,
        columns: Seq<TableColumnView>,
        n: int,
    ) -> Option<PgxSqlErrorView>
        decreases n,
    {
        if n <= 0 {
            None
        } else {
            match self.first_column_error(f, columns, n - 1) {
                Some(e) => Some(e),
                None => self.column_error(f, columns, n - 1),
            }
        }
    }

    /// The line of column `i` of a returned table.
    pub open spec fn column_sql(self, columns: Seq<TableColumnView>, i: int) -> Seq<char> {
        let column = columns[i];
        "\n\t"@ + column.name->0 + " "@ + self.schema_prefix_for(column.module)
            + self.type_mappings[column.id] + list_separator(i, columns.len() as int) + " /* "@
            + column.ty_name + " */"@
    }

    /// The lines of the first `n` columns of a returned table.
    pub open spec fn columns_sql(self, columns: Seq<TableColumnView>, n: int) -> Seq<char>
        decreases n,
    {
        if n <= 0 {
            Seq::empty()
        } else {
            self.columns_sql(columns, n - 1) + self.column_sql(columns, n - 1)
        }
    }

    /// Why what `f` returns cannot be rendered, if it cannot.
    pub open spec fn return_error(self, f: InventoryPgExternView) -> Option<PgxSqlErrorView> {
        match f.fn_return {
            InventoryPgExternReturnView::Void => None,
            InventoryPgExternReturnView::Type { id, name, module } => {
                if self.type_mappings.contains_key(id) {
                    None
                } else {
                    Some(f.missing_type(id, name, None))
                }
            },
            InventoryPgExternReturnView::SetOf { id, name, module } => {
                if self.type_mappings.contains_key(id) {
                    None
                } else {
                    Some(f.missing_type(id, name, None))
                }
            },
            InventoryPgExternReturnView::Iterated(columns) => self.first_column_error(
                f,
                columns,
                columns.len() as int,
            ),
            InventoryPgExternReturnView::Trigger => None,
        }
    }

    /// The clause that says what `f` returns.
    pub open spec fn return_sql(self, f: InventoryPgExternView) -> Seq<char> {
        match f.fn_return {
            InventoryPgExternReturnView::Void => "RETURNS void"@,
            InventoryPgExternReturnView::Type { id, name, module } => "RETURNS "@
                + self.schema_prefix_for(module) + self.type_mappings[id] + " /* "@ + name
                + " */"@,
            InventoryPgExternReturnView::SetOf { id, name, module } => "RETURNS SETOF "@
                + self.schema_prefix_for(module) + self.type_mappings[id] + " /* "@ + name
                + " */"@,
            InventoryPgExternReturnView::Iterated(columns) => "RETURNS TABLE ("@ + self.columns_sql(
                columns,
                columns.len() as int,
            ) + "\n)"@,
            InventoryPgExternReturnView::Trigger => "RETURNS trigger"@,
        }
    }

    /// The statement that creates `f`. Its body is bound to the symbol
    /// `{name}_wrapper` of the extension's shared library.
    pub open spec fn create_function_sql(self, f: InventoryPgExternView) -> Seq<char> {
        "CREATE OR REPLACE FUNCTION "@ + self.schema_prefix_for(f.module) + "\""@ + f.name
            + "\"("@ + self.args_sql(f) + ") "@ + self.return_sql(f) + "\n"@ + f.attrs_sql()
            + f.search_path_sql() + "LANGUAGE c /* Rust */\nAS 'MODULE_PATHNAME', '"@ + f.name
            + "_wrapper';"@
    }

    /// The part of the fragment that stands for the function itself: the
    /// heading and the statement, or, where the author wrote SQL of their
    /// own, the heading, the statement as a comment and the author's SQL.
    pub open spec fn function_sql(self, f: InventoryPgExternView) -> Seq<char> {
        match f.overridden {
            Some(own) => f.heading() + (comment_out(self.create_function_sql(f))
                + "\n--\n-- Overridden as (due to a `//` comment with a `sql` code block):"@)
                + "\n"@ + (own + "\n"@),
            None => f.heading() + self.create_function_sql(f) + "\n"@,
        }
    }

    /// The statement that creates the operator `op`, which `f` implements.
    pub open spec fn operator_sql(
        self,
        f: InventoryPgExternView,
        op: InventoryPgOperatorView,
    ) -> Seq<char> {
        let left = f.fn_args[0];
        let right = f.fn_args[1];
        let comma = if op.optionals().len() >= 1 {
            ","@
        } else {
            ""@
        };
        f.heading() + "CREATE OPERATOR "@ + op.opname + " (\n\tPROCEDURE=\""@ + f.name
            + "\",\n\tLEFTARG="@ + self.schema_prefix_for(left.module)
            + self.type_mappings[left.ty_id] + ", /* "@ + left.ty_name + " */\n\tRIGHTARG="@
            + self.schema_prefix_for(right.module) + self.type_mappings[right.ty_id] + comma
            + " /* "@ + right.ty_name + " */\n"@ + join(op.optionals(), ",\n"@)
            + "\n);\n                                    "@
    }

    /// The fragment of the function `f`, or the first error that keeps it
    /// from being rendered. The arguments are looked at first, then what the
    /// function returns, then the operator. The operator's statement follows
    /// that of the function, unless the author replaced the latter by SQL of
    /// their own.
    pub open spec fn extern_sql(self, f: InventoryPgExternView) -> Result<
        Seq<char>,
        PgxSqlErrorView,
    > {
        match self.first_arg_error(f, f.fn_args.len() as int) {
            Some(e) => Err(e),
            None => match self.return_error(f) {
                Some(e) => Err(e),
                None => match (f.overridden, f.operator) {
                    (None, Some(op)) => match f.operator_error(op) {
                        Some(e) => Err(e),
                        None => Ok(self.function_sql(f) + self.operator_sql(f, op)),
                    },
                    _ => Ok(self.function_sql(f)),
                },
            },
        }
    }
}

impl InventoryPgExtern {
    fn strict_upgrade(&self) -> (b: bool)
        ensures
            b == self@.strict_upgrade(),
    {
        let mut k: usize = 0;
        while k < self.extern_attrs.len()
            invariant
                k <= self.extern_attrs.len(),
                forall|j: int| 0 <= j < k ==> self.extern_attrs@[j] != ExternArgs::Strict,
            decreases self.extern_attrs.len() - k,
        {
            if self.extern_attrs[k] == ExternArgs::Strict {
                return false;
            }
            k += 1;
        }
        let mut i: usize = 0;
        while i < self.fn_args.len()
            invariant
                i <= self.fn_args.len(),
                forall|j: int| 0 <= j < i ==> !(#[trigger] self@.fn_args[j]).is_optional,
            decreases self.fn_args.len() - i,
        {
            if self.fn_args[i].is_optional {
                assert(self@.fn_args[i as int].is_optional);
                return false;
            }
            i += 1;
        }
        true
    }

    fn attrs_to_sql(&self) -> (s: String)
        ensures
            s@ == self@.attrs_sql(),
    {
        let mut words: Vec<String> = Vec::new();
        let mut k: usize = 0;
        while k < self.extern_attrs.len()
            invariant
                k <= self.extern_attrs.len(),
                words@.len() == k,
                forall|j: int| 0 <= j < k ==> (#[trigger] words@[j])@ == self.extern_attrs@[j].sql(),
            decreases self.extern_attrs.len() - k,
        {
            words.push(String::from_str(self.extern_attrs[k].to_sql()));
            k += 1;
        }
        if self.strict_upgrade() {
            words.push(String::from_str(ExternArgs::Strict.to_sql()));
        }
        assert(texts(words@) =~= self@.effective_attrs().map_values(|a: ExternArgs| a.sql()));
        if words.len() == 0 {
            String::new()
        } else {
            let mut s = join_strings(&words, " ");
            s.append("\n");
            s
        }
    }

    fn search_path_to_sql(&self) -> (s: String)
        ensures
            s@ == self@.search_path_sql(),
    {
        match &self.search_path {
            Some(path) => {
                let mut s = String::from_str("SET search_path TO ");
                s.append(join_strings(path, ", ").as_str());
                s.append("\n");
                s
            },
            None => String::new(),
        }
    }

    fn heading(&self) -> (s: String)
        ensures
            s@ == self@.heading(),
    {
        let mut s = String::from_str("\n-- ");
        s.append(self.file.as_str());
        s.append(":");
        push_line(&mut s, self.line);
        s.append("\n-- ");
        s.append(self.module.as_str());
        s.append("::");
        s.append(self.name.as_str());
        s.append("\n");
        s
    }

    fn missing_type(&self, type_id: u64, ty_name: &String, argument: Option<String>) -> (e:
        PgxSqlError)
        ensures
            e@ == self@.missing_type(type_id, ty_name@, crate::text::option_text(argument)),
    {
        PgxSqlError::MissingTypeMapping {
            type_id,
            ty_name: ty_name.clone(),
            argument,
            referencing_entity: self.full_path.clone(),
            file: self.file.clone(),
            line: self.line,
        }
    }

    fn missing_column_name(&self, column_index: usize) -> (e: PgxSqlError)
        ensures
            e@ == self@.missing_column_name(column_index),
    {
        PgxSqlError::MissingTableColumnName {
            function_name: self.name.clone(),
            column_index,
            referencing_entity: self.full_path.clone(),
            file: self.file.clone(),
            line: self.line,
        }
    }

    fn missing_operator_argument(&self, op: &InventoryPgOperator) -> (e: PgxSqlError)
        requires
            self.fn_args.len() < 2,
        ensures
            Some(e@) == self@.operator_error(op@),
    {
        PgxSqlError::MissingOperatorArgument {
            operator_name: op.opname.clone(),
            side: if self.fn_args.len() == 0 {
                OperatorSide::Left
            } else {
                OperatorSide::Right
            },
            referencing_entity: self.full_path.clone(),
            file: self.file.clone(),
            line: self.line,
        }
    }
}

impl InventoryPgOperator {
    fn optionals(&self) -> (clauses: Vec<String>)
        ensures
            texts(clauses@) == self@.optionals(),
    {
        let mut clauses: Vec<String> = Vec::new();
        if let Some(it) = &self.commutator {
            let mut clause = String::from_str("\tCOMMUTATOR = ");
            clause.append(it.as_str());
            clauses.push(clause);
        }
        if let Some(it) = &self.negator {
            let mut clause = String::from_str("\tNEGATOR = ");
            clause.append(it.as_str());
            clauses.push(clause);
        }
        if let Some(it) = &self.restrict {
            let mut clause = String::from_str("\tRESTRICT = ");
            clause.append(it.as_str());
            clauses.push(clause);
        }
        if let Some(it) = &self.join {
            let mut clause = String::from_str("\tJOIN = ");
            clause.append(it.as_str());
            clauses.push(clause);
        }
        if self.hashes {
            clauses.push(String::from_str("\tHASHES"));
        }
        if self.merges {
            clauses.push(String::from_str("\tMERGES"));
        }
        clauses
    }
}

fn default_to_sql(default: &Option<String>) -> (s: String)
    ensures
        s@ == default_sql(crate::text::option_text(*default)),
{
    match default {
        Some(value) => {
            let mut s = String::from_str(" DEFAULT ");
            s.append(value.as_str());
            s
        },
        None => String::new(),
    }
}

fn list_separator_str(i: usize, len: usize) -> (s: &'static str)
    requires
        i < len,
    ensures
        s@ == list_separator(i as int, len as int),
{
    if i < len - 1 {
        ", "
    } else {
        " "
    }
}

impl PgxSqlView {
    /// An error among the first arguments is the error of every longer
    /// prefix.
    pub proof fn lemma_first_arg_error_stays(self, f: InventoryPgExternView, n: int, m: int)
        requires
            n <= m,
            self.first_arg_error(f, n) is Some,
        ensures
            self.first_arg_error(f, m) == self.first_arg_error(f, n),
        decreases m - n,
    {
        if n < m {
            self.lemma_first_arg_error_stays(f, n, m - 1);
        }
    }

    /// An error among the first columns is the error of every longer prefix.
    pub proof fn lemma_first_column_error_stays(
        self,
        f: InventoryPgExternView,
        columns: Seq<TableColumnView>,
        n: int,
        m: int,
    )
        requires
            n <= m,
            self.first_column_error(f, columns, n) is Some,
        ensures
            self.first_column_error(f, columns, m) == self.first_column_error(f, columns, n),
        decreases m - n,
    {
        if n < m {
            self.lemma_first_column_error_stays(f, columns, n, m - 1);
        }
    }
}

impl PgxSql {
    fn arg_to_sql(&self, f: &InventoryPgExtern, i: usize) -> (r: Result<String, PgxSqlError>)
        requires
            i < f.fn_args.len(),
        ensures
            match r {
                Ok(s) => self@.arg_error(f@, i as int) is None && s@ == self@.arg_sql(f@, i as int),
                Err(e) => self@.arg_error(f@, i as int) == Some(e@),
            },
    {
        let arg = &f.fn_args[i];
        match self.type_id_to_sql_type(arg.ty_id) {
            None => Err(f.missing_type(arg.ty_id, &arg.ty_name, Some(arg.pattern.clone()))),
            Some(sql_type) => {
                let mut s = String::from_str("\t\"");
                s.append(arg.pattern.as_str());
                s.append("\" ");
                s.append(self.schema_prefix_for(arg.module.as_str()).as_str());
                s.append(sql_type.as_str());
                s.append(default_to_sql(&arg.default).as_str());
                s.append(list_separator_str(i, f.fn_args.len()));
                s.append("/* ");
                s.append(arg.ty_name.as_str());
                s.append(" */");
                Ok(s)
            },
        }
    }

    fn args_to_sql(&self, f: &InventoryPgExtern) -> (r: Result<String, PgxSqlError>)
        ensures
            match r {
                Ok(s) => self@.first_arg_error(f@, f@.fn_args.len() as int) is None && s@
                    == self@.args_sql(f@),
                Err(e) => self@.first_arg_error(f@, f@.fn_args.len() as int) == Some(e@),
            },
    {
        if f.fn_args.len() == 0 {
            return Ok(String::new());
        }
        let mut lines: Vec<String> = Vec::new();
        let mut i: usize = 0;
        while i < f.fn_args.len()
            invariant
                i <= f.fn_args.len(),
                f.fn_args.len() == f@.fn_args.len(),
                lines@.len() == i,
                self@.first_arg_error(f@, i as int) is None,
                forall|k: int| 0 <= k < i ==> (#[trigger] lines@[k])@ == self@.arg_sql(f@, k),
            decreases f.fn_args.len() - i,
        {
            match self.arg_to_sql(f, i) {
                Ok(line) => {
                    lines.push(line);
                },
                Err(e) => {
                    proof {
                        self@.lemma_first_arg_error_stays(f@, i + 1, f@.fn_args.len() as int);
                    }
                    return Err(e);
                },
            }
            i += 1;
        }
        assert(texts(lines@) =~= Seq::new(f@.fn_args.len(), |i: int| self@.arg_sql(f@, i)));
        let mut s = String::from_str("\n");
        s.append(join_strings(&lines, "\n").as_str());
        s.append("\n");
        Ok(s)
    }

    fn columns_to_sql(
        &self,
        f: &InventoryPgExtern,
        columns: &Vec<(u64, String, String, Option<String>)>,
    ) -> (r: Result<String, PgxSqlError>)
        ensures
            ({
                let cols = columns@.map_values(
                    |c: (u64, String, String, Option<String>)| crate::pg_extern::column_view(c),
                );
                match r {
                    Ok(s) => self@.first_column_error(f@, cols, cols.len() as int) is None && s@
                        == self@.columns_sql(cols, cols.len() as int),
                    Err(e) => self@.first_column_error(f@, cols, cols.len() as int) == Some(e@),
                }
            }),
    {
        let ghost cols = columns@.map_values(
            |c: (u64, String, String, Option<String>)| crate::pg_extern::column_view(c),
        );
        let mut s = String::new();
        let mut i: usize = 0;
        while i < columns.len()
            invariant
                i <= columns.len(),
                cols == columns@.map_values(
                    |c: (u64, String, String, Option<String>)| crate::pg_extern::column_view(c),
                ),
                self@.first_column_error(f@, cols, i as int) is None,
                s@ == self@.columns_sql(cols, i as int),
            decreases columns.len() - i,
        {
            let column = &columns[i];
            let name = match &column.3 {
                Some(name) => name,
                None => {
                    proof {
                        self@.lemma_first_column_error_stays(f@, cols, i + 1, cols.len() as int);
                    }
                    return Err(f.missing_column_name(i));
                },
            };
            let sql_type = match self.type_id_to_sql_type(column.0) {
                Some(sql_type) => sql_type,
                None => {
                    proof {
                        self@.lemma_first_column_error_stays(f@, cols, i + 1, cols.len() as int);
                    }
                    return Err(f.missing_type(column.0, &column.1, None));
                },
            };
            let mut line = String::from_str("\n\t");
            line.append(name.as_str());
            line.append(" ");
            line.append(self.schema_prefix_for(column.2.as_str()).as_str());
            line.append(sql_type.as_str());
            line.append(list_separator_str(i, columns.len()));
            line.append(" /* ");
            line.append(column.1.as_str());
            line.append(" */");
            s.append(line.as_str());
            i += 1;
        }
        Ok(s)
    }

    fn return_to_sql(&self, f: &InventoryPgExtern) -> (r: Result<String, PgxSqlError>)
        ensures
            match r {
                Ok(s) => self@.return_error(f@) is None && s@ == self@.return_sql(f@),
                Err(e) => self@.return_error(f@) == Some(e@),
            },
    {
        match &f.fn_return {
            InventoryPgExternReturn::Void => Ok(String::from_str("RETURNS void")),
            InventoryPgExternReturn::Type { id, name, module } => {
                match self.type_id_to_sql_type(*id) {
                    None => Err(f.missing_type(*id, name, None)),
                    Some(sql_type) => {
                        let mut s = String::from_str("RETURNS ");
                        s.append(self.schema_prefix_for(module.as_str()).as_str());
                        s.append(sql_type.as_str());
                        s.append(" /* ");
                        s.append(name.as_str());
                        s.append(" */");
                        Ok(s)
                    },
                }
            },
            InventoryPgExternReturn::SetOf { id, name, module } => {
                match self.type_id_to_sql_type(*id) {
                    None => Err(f.missing_type(*id, name, None)),
                    Some(sql_type) => {
                        let mut s = String::from_str("RETURNS SETOF ");
                        s.append(self.schema_prefix_for(module.as_str()).as_str());
                        s.append(sql_type.as_str());
                        s.append(" /* ");
                        s.append(name.as_str());
                        s.append(" */");
                        Ok(s)
                    },
                }
            },
            InventoryPgExternReturn::Iterated(columns) => {
                match self.columns_to_sql(f, columns) {
                    Err(e) => Err(e),
                    Ok(lines) => {
                        let mut s = String::from_str("RETURNS TABLE (");
                        s.append(lines.as_str());
                        s.append("\n)");
                        Ok(s)
                    },
                }
            },
            InventoryPgExternReturn::Trigger => Ok(String::from_str("RETURNS trigger")),
        }
    }

    fn operator_to_sql(&self, f: &InventoryPgExtern, op: &InventoryPgOperator) -> (s: String)
        requires
            f.fn_args.len() >= 2,
            self@.first_arg_error(f@, f@.fn_args.len() as int) is None,
        ensures
            s@ == self@.operator_sql(f@, op@),
    {
        let left = &f.fn_args[0];
        let right = &f.fn_args[1];
        proof {
            if self@.arg_error(f@, 0) is Some {
                self@.lemma_first_arg_error_stays(f@, 1, f@.fn_args.len() as int);
            }
            if self@.arg_error(f@, 1) is Some {
                self@.lemma_first_arg_error_stays(f@, 2, f@.fn_args.len() as int);
            }
        }
        let left_type = match self.type_id_to_sql_type(left.ty_id) {
            Some(sql_type) => sql_type,
            None => String::new(),
        };
        let right_type = match self.type_id_to_sql_type(right.ty_id) {
            Some(sql_type) => sql_type,
            None => String::new(),
        };
        let optionals = op.optionals();
        let mut s = f.heading();
        s.append("CREATE OPERATOR ");
        s.append(op.opname.as_str());
        s.append(" (\n\tPROCEDURE=\"");
        s.append(f.name.as_str());
        s.append("\",\n\tLEFTARG=");
        s.append(self.schema_prefix_for(left.module.as_str()).as_str());
        s.append(left_type.as_str());
        s.append(", /* ");
        s.append(left.ty_name.as_str());
        s.append(" */\n\tRIGHTARG=");
        s.append(self.schema_prefix_for(right.module.as_str()).as_str());
        s.append(right_type.as_str());
        s.append(
            if optionals.len() >= 1 {
                ","
            } else {
                ""
            },
        );
        s.append(" /* ");
        s.append(right.ty_name.as_str());
        s.append(" */\n");
        s.append(join_strings(&optionals, ",\n").as_str());
        s.append("\n);\n                                    ");
        s
    }

    /// Renders a function, and after it the operator that it implements.
    pub fn inventory_extern_to_sql(&self, item: &InventoryPgExtern) -> (r: Result<
        String,
        PgxSqlError,
    >)
        ensures
            match r {
                Ok(sql) => self@.extern_sql(item@) == Ok::<Seq<char>, PgxSqlErrorView>(sql@),
                Err(e) => self@.extern_sql(item@) == Err::<Seq<char>, PgxSqlErrorView>(e@),
            },
    {
        let args = match self.args_to_sql(item) {
            Ok(args) => args,
            Err(e) => {
                return Err(e);
            },
        };
        let returned = match self.return_to_sql(item) {
            Ok(returned) => returned,
            Err(e) => {
                return Err(e);
            },
        };
        let mut create = String::from_str("CREATE OR REPLACE FUNCTION ");
        create.append(self.schema_prefix_for(item.module.as_str()).as_str());
        create.append("\"");
        create.append(item.name.as_str());
        create.append("\"(");
        create.append(args.as_str());
        create.append(") ");
        create.append(returned.as_str());
        create.append("\n");
        create.append(item.attrs_to_sql().as_str());
        create.append(item.search_path_to_sql().as_str());
        create.append("LANGUAGE c /* Rust */\nAS 'MODULE_PATHNAME', '");
        create.append(item.name.as_str());
        create.append("_wrapper';");
        let mut sql = item.heading();
        match &item.overridden {
            Some(own) => {
                let mut commented = comment_out_lines(create.as_str());
                commented.append(
                    "\n--\n-- Overridden as (due to a `//` comment with a `sql` code block):",
                );
                sql.append(commented.as_str());
                sql.append("\n");
                let mut tail = own.clone();
                tail.append("\n");
                sql.append(tail.as_str());
                Ok(sql)
            },
            None => {
                sql.append(create.as_str());
                sql.append("\n");
                match &item.operator {
                    Some(op) => {
                        if item.fn_args.len() < 2 {
                            return Err(item.missing_operator_argument(op));
                        }
                        sql.append(self.operator_to_sql(item, op).as_str());
                        Ok(sql)
                    },
                    None => Ok(sql),
                }
            },
        }
    }
}

} // verus!
