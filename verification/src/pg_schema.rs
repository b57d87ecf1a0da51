//! Schema entities.

use vstd::prelude::*;

verus! {

/// A schema that a module of the extension declares. Its qualified path is the
/// path of that module.
#[derive(Debug, Clone)]
pub struct InventorySchema {
    pub module: String,
    pub name: String,
    pub file: String,
    pub line: u32,
}

/// The content of an [`InventorySchema`], with its strings as texts.
pub struct InventorySchemaView {
    pub module: Seq<char>,
    pub name: Seq<char>,
    pub file: Seq<char>,
    pub line: u32,
}

impl View for InventorySchema {
    type V = InventorySchemaView;

    open spec fn view(&self) -> InventorySchemaView {
        InventorySchemaView {
            module: self.module@,
            name: self.name@,
            file: self.file@,
            line: self.line,
        }
    }
}

} // verus!
