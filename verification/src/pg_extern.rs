//! Function entities, and the operators that some of them stand behind.

use vstd::prelude::*;

verus! {

/// A modifier that the author gave to a function.
#[derive(Debug, Clone, Copy, PartialEq, Eq, Structural)]
pub enum ExternArgs {
    Immutable,
    Strict,
    Stable,
    Volatile,
    Raw,
    NoGuard,
    ParallelSafe,
    ParallelUnsafe,
    ParallelRestricted,
}

/// One argument of a function.
#[derive(Debug, Clone)]
pub struct InventoryPgExternInput {
    pub pattern: String,
    pub ty_id: u64,
    pub ty_name: String,
    pub module: String,
    pub is_optional: bool,
    pub default: Option<String>,
}

/// The content of an [`InventoryPgExternInput`], with its strings as texts.
pub struct InventoryPgExternInputView {
    pub pattern: Seq<char>,
    pub ty_id: u64,
    pub ty_name: Seq<char>,
    pub module: Seq<char>,
    pub is_optional: bool,
    pub default: Option<Seq<char>>,
}

impl View for InventoryPgExternInput {
    type V = InventoryPgExternInputView;

    open spec fn view(&self) -> InventoryPgExternInputView {
        InventoryPgExternInputView {
            pattern: self.pattern@,
            ty_id: self.ty_id,
            ty_name: self.ty_name@,
            module: self.module@,
            is_optional: self.is_optional,
            default: crate::text::option_text(self.default),
        }
    }
}

/// What a function returns. A column of a table is its type identifier, the
/// name of that type in the source, the path of the module that declares it,
/// and the column's name.
#[derive(Debug, Clone)]
pub enum InventoryPgExternReturn {
    Void,
    Type { id: u64, name: String, module: String },
    SetOf { id: u64, name: String, module: String },
    Iterated(Vec<(u64, String, String, Option<String>)>),
    Trigger,
}

/// One column of a returned table, with its strings as texts.
pub struct TableColumnView {
    pub id: u64,
    pub ty_name: Seq<char>,
    pub module: Seq<char>,
    pub name: Option<Seq<char>>,
}

/// The content of an [`InventoryPgExternReturn`], with its strings as texts.
pub enum InventoryPgExternReturnView {
    Void,
    Type { id: u64, name: Seq<char>, module: Seq<char> },
    SetOf { id: u64, name: Seq<char>, module: Seq<char> },
    Iterated(Seq<TableColumnView>),
    Trigger,
}

/// The view of one column of a returned table.
pub open spec fn column_view(column: (u64, String, String, Option<String>)) -> TableColumnView {
    TableColumnView {
        id: column.0,
        ty_name: column.1@,
        module: column.2@,
        name: crate::text::option_text(column.3),
    }
}

impl View for InventoryPgExternReturn {
    type V = InventoryPgExternReturnView;

    open spec fn view(&self) -> InventoryPgExternReturnView {
        match self {
            InventoryPgExternReturn::Void => InventoryPgExternReturnView::Void,
            InventoryPgExternReturn::Type { id, name, module } => InventoryPgExternReturnView::Type {
                id: *id,
                name: name@,
                module: module@,
            },
            InventoryPgExternReturn::SetOf { id, name, module } => InventoryPgExternReturnView::SetOf {
                id: *id,
                name: name@,
                module: module@,
            },
            InventoryPgExternReturn::Iterated(columns) => InventoryPgExternReturnView::Iterated(
                columns@.map_values(|c: (u64, String, String, Option<String>)| column_view(c)),
            ),
            InventoryPgExternReturn::Trigger => InventoryPgExternReturnView::Trigger,
        }
    }
}

/// The operator that a function implements.
#[derive(Debug, Clone)]
pub struct InventoryPgOperator {
    pub opname: String,
    pub commutator: Option<String>,
    pub negator: Option<String>,
    pub restrict: Option<String>,
    pub join: Option<String>,
    pub hashes: bool,
    pub merges: bool,
}

/// The content of an [`InventoryPgOperator`], with its strings as texts.
pub struct InventoryPgOperatorView {
    pub opname: Seq<char>,
    pub commutator: Option<Seq<char>>,
    pub negator: Option<Seq<char>>,
    pub restrict: Option<Seq<char>>,
    pub join: Option<Seq<char>>,
    pub hashes: bool,
    pub merges: bool,
}

impl View for InventoryPgOperator {
    type V = InventoryPgOperatorView;

    open spec fn view(&self) -> InventoryPgOperatorView {
        InventoryPgOperatorView {
            opname: self.opname@,
            commutator: crate::text::option_text(self.commutator),
            negator: crate::text::option_text(self.negator),
            restrict: crate::text::option_text(self.restrict),
            join: crate::text::option_text(self.join),
            hashes: self.hashes,
            merges: self.merges,
        }
    }
}

/// A function of the extension.
#[derive(Debug, Clone)]
pub struct InventoryPgExtern {
    pub name: String,
    pub module: String,
    pub full_path: String,
    pub file: String,
    pub line: u32,
    pub extern_attrs: Vec<ExternArgs>,
    pub search_path: Option<Vec<String>>,
    pub fn_args: Vec<InventoryPgExternInput>,
    pub fn_return: InventoryPgExternReturn,
    pub operator: Option<InventoryPgOperator>,
    /// SQL that the author wrote to stand in place of the generated statement.
    pub overridden: Option<String>,
}

/// The content of an [`InventoryPgExtern`], with its strings as texts and
/// its arguments by their content.
pub struct InventoryPgExternView {
    pub name: Seq<char>,
    pub module: Seq<char>,
    pub full_path: Seq<char>,
    pub file: Seq<char>,
    pub line: u32,
    pub extern_attrs: Seq<ExternArgs>,
    pub search_path: Option<Seq<Seq<char>>>,
    pub fn_args: Seq<InventoryPgExternInputView>,
    pub fn_return: InventoryPgExternReturnView,
    pub operator: Option<InventoryPgOperatorView>,
    pub overridden: Option<Seq<char>>,
}

impl View for InventoryPgExtern {
    type V = InventoryPgExternView;

    open spec fn view(&self) -> InventoryPgExternView {
        InventoryPgExternView {
            name: self.name@,
            module: self.module@,
            full_path: self.full_path@,
            file: self.file@,
            line: self.line,
            extern_attrs: self.extern_attrs@,
            search_path: match self.search_path {
                Some(path) => Some(crate::text::texts(path@)),
                None => None,
            },
            fn_args: self.fn_args@.map_values(|a: InventoryPgExternInput| a@),
            fn_return: self.fn_return@,
            operator: match self.operator {
                Some(op) => Some(op@),
                None => None,
            },
            overridden: crate::text::option_text(self.overridden),
        }
    }
}

} // verus!
