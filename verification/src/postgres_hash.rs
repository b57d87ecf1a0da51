//! Hashing operator classes.

use vstd::prelude::*;

verus! {

/// A type for which a hash operator class is declared.
#[derive(Debug, Clone)]
pub struct InventoryPostgresHash {
    pub name: String,
    pub file: String,
    pub line: u32,
    pub full_path: String,
    pub module: String,
    pub id: u64,
}

/// The content of an [`InventoryPostgresHash`], with its strings as texts.
pub struct InventoryPostgresHashView {
    pub name: Seq<char>,
    pub file: Seq<char>,
    pub line: u32,
    pub full_path: Seq<char>,
    pub module: Seq<char>,
    pub id: u64,
}

impl View for InventoryPostgresHash {
    type V = InventoryPostgresHashView;

    open spec fn view(&self) -> InventoryPostgresHashView {
        InventoryPostgresHashView {
            name: self.name@,
            file: self.file@,
            line: self.line,
            full_path: self.full_path@,
            module: self.module@,
            id: self.id,
        }
    }
}

} // verus!
