//! Ordering operator classes.

use vstd::prelude::*;

verus! {

/// A type for which a btree operator class is declared.
#[derive(Debug, Clone)]
pub struct InventoryPostgresOrd {
    pub name: String,
    pub file: String,
    pub line: u32,
    pub full_path: String,
    pub module: String,
    pub id: u64,
}

/// The content of an [`InventoryPostgresOrd`], with its strings as texts.
pub struct InventoryPostgresOrdView {
    pub name: Seq<char>,
    pub file: Seq<char>,
    pub line: u32,
    pub full_path: Seq<char>,
    pub module: Seq<char>,
    pub id: u64,
}

impl View for InventoryPostgresOrd {
    type V = InventoryPostgresOrdView;

    open spec fn view(&self) -> InventoryPostgresOrdView {
        InventoryPostgresOrdView {
            name: self.name@,
            file: self.file@,
            line: self.line,
            full_path: self.full_path@,
            module: self.module@,
            id: self.id,
        }
    }
}

} // verus!
