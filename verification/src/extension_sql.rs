//! Fragments of SQL that the extension's author wrote by hand.

use vstd::prelude::*;

verus! {

/// A fragment of SQL that goes into the document as it is.
#[derive(Debug, Clone)]
pub struct ExtensionSql {
    pub module: String,
    pub full_path: String,
    pub sql: String,
    pub file: String,
    pub line: u32,
}

/// The content of an [`ExtensionSql`], with its strings as texts.
pub struct ExtensionSqlView {
    pub module: Seq<char>,
    pub full_path: Seq<char>,
    pub sql: Seq<char>,
    pub file: Seq<char>,
    pub line: u32,
}

impl View for ExtensionSql {
    type V = ExtensionSqlView;

    open spec fn view(&self) -> ExtensionSqlView {
        ExtensionSqlView {
            module: self.module@,
            full_path: self.full_path@,
            sql: self.sql@,
            file: self.file@,
            line: self.line,
        }
    }
}

} // verus!
