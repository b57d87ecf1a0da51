//! What can keep a document from being written.

use vstd::prelude::*;
use vstd::string::StringExecFns;
use crate::text::{decimal, join, join_strings, push_decimal, push_line, texts};

verus! {

/// The side of an operator on which an argument stands.
#[derive(Debug, Clone, Copy, PartialEq, Eq, Structural)]
pub enum OperatorSide {
    Left,
    Right,
}

/// Why no document was produced. But for a cycle, every error names the entity
/// whose rendering failed by its qualified path and tells where that entity
/// was declared.
#[derive(Debug, Clone, PartialEq, Eq)]
pub enum PgxSqlError {
    /// A type identifier has no SQL name in the type mapping table. `argument`
    /// is the argument of that type, or `None` for a returned type.
    MissingTypeMapping {
        type_id: u64,
        ty_name: String,
        argument: Option<String>,
        referencing_entity: String,
        file: String,
        line: u32,
    },
    /// A composite type names a conversion function that is not among the
    /// function entities.
    MissingConversionFunction {
        qualified_name: String,
        referencing_entity: String,
        file: String,
        line: u32,
    },
    /// A function that implements an operator lacks the argument of one side.
    MissingOperatorArgument {
        operator_name: String,
        side: OperatorSide,
        referencing_entity: String,
        file: String,
        line: u32,
    },
    /// The entities depend on each other in a circle. `path` holds the
    /// qualified paths along the circle: each entity depends on the next, and
    /// the last on the first.
    CycleDetected { path: Vec<String> },
    /// A column of a returned table has no name.
    MissingTableColumnName {
        function_name: String,
        column_index: usize,
        referencing_entity: String,
        file: String,
        line: u32,
    },
}

/// The content of a [`PgxSqlError`], with its strings as texts.
pub enum PgxSqlErrorView {
    MissingTypeMapping {
        type_id: u64,
        ty_name: Seq<char>,
        argument: Option<Seq<char>>,
        referencing_entity: Seq<char>,
        file: Seq<char>,
        line: u32,
    },
    MissingConversionFunction {
        qualified_name: Seq<char>,
        referencing_entity: Seq<char>,
        file: Seq<char>,
        line: u32,
    },
    MissingOperatorArgument {
        operator_name: Seq<char>,
        side: OperatorSide,
        referencing_entity: Seq<char>,
        file: Seq<char>,
        line: u32,
    },
    CycleDetected { path: Seq<Seq<char>> },
    MissingTableColumnName {
        function_name: Seq<char>,
        column_index: usize,
        referencing_entity: Seq<char>,
        file: Seq<char>,
        line: u32,
    },
}

impl View for PgxSqlError {
    type V = PgxSqlErrorView;

    open spec fn view(&self) -> PgxSqlErrorView {
        match self {
            PgxSqlError::MissingTypeMapping {
                type_id,
                ty_name,
                argument,
                referencing_entity,
                file,
                line,
            } => PgxSqlErrorView::MissingTypeMapping {
                type_id: *type_id,
                ty_name: ty_name@,
                argument: crate::text::option_text(*argument),
                referencing_entity: referencing_entity@,
                file: file@,
                line: *line,
            },
            PgxSqlError::MissingConversionFunction { qualified_name, referencing_entity, file, line } =>
                PgxSqlErrorView::MissingConversionFunction {
                qualified_name: qualified_name@,
                referencing_entity: referencing_entity@,
                file: file@,
                line: *line,
            },
            PgxSqlError::MissingOperatorArgument {
                operator_name,
                side,
                referencing_entity,
                file,
                line,
            } => PgxSqlErrorView::MissingOperatorArgument {
                operator_name: operator_name@,
                side: *side,
                referencing_entity: referencing_entity@,
                file: file@,
                line: *line,
            },
            PgxSqlError::CycleDetected { path } => PgxSqlErrorView::CycleDetected {
                path: crate::text::texts(path@),
            },
            PgxSqlError::MissingTableColumnName {
                function_name,
                column_index,
                referencing_entity,
                file,
                line,
            } => PgxSqlErrorView::MissingTableColumnName {
                function_name: function_name@,
                column_index: *column_index,
                referencing_entity: referencing_entity@,
                file: file@,
                line: *line,
            },
        }
    }
}

/// The entity that an error is about, and where it was declared.
pub open spec fn location(entity: Seq<char>, file: Seq<char>, line: u32) -> Seq<char> {
    "`"@ + entity + "` ("@ + file + ":"@ + decimal(line as nat) + ")"@
}

impl OperatorSide {
    /// The name of the side.
    pub open spec fn text(self) -> Seq<char> {
        match self {
            OperatorSide::Left => "left"@,
            OperatorSide::Right => "right"@,
        }
    }
}

impl PgxSqlErrorView {
    /// The error in words.
    pub open spec fn message(self) -> Seq<char> {
        match self {
            PgxSqlErrorView::MissingTypeMapping {
                type_id,
                ty_name,
                argument,
                referencing_entity,
                file,
                line,
            } => match argument {
                Some(pattern) => "Failed to map argument `"@ + pattern + "` type `"@ + ty_name
                    + "` to SQL type while building "@ + location(referencing_entity, file, line)
                    + "."@,
                None => "Failed to map return type `"@ + ty_name
                    + "` to SQL type while building "@ + location(referencing_entity, file, line)
                    + "."@,
            },
            PgxSqlErrorView::MissingConversionFunction {
                qualified_name,
                referencing_entity,
                file,
                line,
            } => "Did not find conversion function `"@ + qualified_name + "` of "@ + location(
                referencing_entity,
                file,
                line,
            ) + "."@,
            PgxSqlErrorView::MissingOperatorArgument {
                operator_name,
                side,
                referencing_entity,
                file,
                line,
            } => "Did not find the "@ + side.text() + " argument for operator `"@ + operator_name
                + "` of "@ + location(referencing_entity, file, line) + "."@,
            PgxSqlErrorView::CycleDetected { path } => "Found a cycle of dependencies: "@ + join(
                path,
                " -> "@,
            ) + "."@,
            PgxSqlErrorView::MissingTableColumnName {
                function_name,
                column_index,
                referencing_entity,
                file,
                line,
            } => "Did not find a name for column "@ + decimal(column_index as nat)
                + " of the table returned by `"@ + function_name + "` of "@ + location(
                referencing_entity,
                file,
                line,
            ) + "."@,
        }
    }
}

fn location_of(entity: &String, file: &String, line: u32) -> (s: String)
    ensures
        s@ == location(entity@, file@, line),
{
    let mut s = String::from_str("`");
    s.append(entity.as_str());
    s.append("` (");
    s.append(file.as_str());
    s.append(":");
    push_line(&mut s, line);
    s.append(")");
    s
}

impl PgxSqlError {
    /// The error in words, for the user.
    pub fn message(&self) -> (s: String)
        ensures
            s@ == self@.message(),
    {
        match self {
            PgxSqlError::MissingTypeMapping {
                type_id,
                ty_name,
                argument,
                referencing_entity,
                file,
                line,
            } => {
                let mut s = match argument {
                    Some(pattern) => {
                        let mut s = String::from_str("Failed to map argument `");
                        s.append(pattern.as_str());
                        s.append("` type `");
                        s
                    },
                    None => String::from_str("Failed to map return type `"),
                };
                s.append(ty_name.as_str());
                s.append("` to SQL type while building ");
                s.append(location_of(referencing_entity, file, *line).as_str());
                s.append(".");
                s
            },
            PgxSqlError::MissingConversionFunction { qualified_name, referencing_entity, file, line } => {
                let mut s = String::from_str("Did not find conversion function `");
                s.append(qualified_name.as_str());
                s.append("` of ");
                s.append(location_of(referencing_entity, file, *line).as_str());
                s.append(".");
                s
            },
            PgxSqlError::MissingOperatorArgument {
                operator_name,
                side,
                referencing_entity,
                file,
                line,
            } => {
                let mut s = String::from_str("Did not find the ");
                s.append(
                    match side {
                        OperatorSide::Left => "left",
                        OperatorSide::Right => "right",
                    },
                );
                s.append(" argument for operator `");
                s.append(operator_name.as_str());
                s.append("` of ");
                s.append(location_of(referencing_entity, file, *line).as_str());
                s.append(".");
                s
            },
            PgxSqlError::CycleDetected { path } => {
                let mut s = String::from_str("Found a cycle of dependencies: ");
                s.append(join_strings(path, " -> ").as_str());
                s.append(".");
                s
            },
            PgxSqlError::MissingTableColumnName {
                function_name,
                column_index,
                referencing_entity,
                file,
                line,
            } => {
                let mut s = String::from_str("Did not find a name for column ");
                push_decimal(&mut s, *column_index as u64);
                s.append(" of the table returned by `");
                s.append(function_name.as_str());
                s.append("` of ");
                s.append(location_of(referencing_entity, file, *line).as_str());
                s.append(".");
                s
            },
        }
    }
}

} // verus!
