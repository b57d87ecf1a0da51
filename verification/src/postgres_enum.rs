//! Enum entities.

use vstd::prelude::*;

verus! {

/// An enum of the extension. The order of `variants` is the order of the SQL
/// enum's values. One enum is known under several type identifiers: that of
/// the value itself and those of the forms it is passed in.
#[derive(Debug, Clone, PartialEq, Eq)]
pub struct InventoryPostgresEnum {
    pub name: String,
    pub file: String,
    pub line: u32,
    pub full_path: String,
    pub module: String,
    pub id: u64,
    pub option_id: u64,
    pub vec_id: u64,
    pub array_id: Option<u64>,
    pub option_array_id: Option<u64>,
    pub varlena_id: Option<u64>,
    pub variants: Vec<String>,
}

/// The content of an [`InventoryPostgresEnum`], with its strings as texts.
pub struct InventoryPostgresEnumView {
    pub name: Seq<char>,
    pub file: Seq<char>,
    pub line: u32,
    pub full_path: Seq<char>,
    pub module: Seq<char>,
    pub id: u64,
    pub option_id: u64,
    pub vec_id: u64,
    pub array_id: Option<u64>,
    pub option_array_id: Option<u64>,
    pub varlena_id: Option<u64>,
    pub variants: Seq<Seq<char>>,
}

impl View for InventoryPostgresEnum {
    type V = InventoryPostgresEnumView;

    open spec fn view(&self) -> InventoryPostgresEnumView {
        InventoryPostgresEnumView {
            name: self.name@,
            file: self.file@,
            line: self.line,
            full_path: self.full_path@,
            module: self.module@,
            id: self.id,
            option_id: self.option_id,
            vec_id: self.vec_id,
            array_id: self.array_id,
            option_array_id: self.option_array_id,
            varlena_id: self.varlena_id,
            variants: crate::text::texts(self.variants@),
        }
    }
}

impl InventoryPostgresEnumView {
    /// Whether `candidate` is one of the identifiers of this enum.
    pub open spec fn id_matches(self, candidate: u64) -> bool {
        ||| candidate == self.id
        ||| candidate == self.option_id
        ||| candidate == self.vec_id
        ||| self.array_id == Some(candidate)
        ||| self.option_array_id == Some(candidate)
        ||| self.varlena_id == Some(candidate)
    }
}

impl InventoryPostgresEnum {
    /// Whether `candidate` is one of the identifiers of this enum.
    pub fn id_matches(&self, candidate: &u64) -> (b: bool)
        ensures
            b == self@.id_matches(*candidate),
    {
        *candidate == self.id || *candidate == self.option_id || *candidate == self.vec_id
            || self.array_id == Some(*candidate) || self.option_array_id == Some(*candidate)
            || self.varlena_id == Some(*candidate)
    }
}

} // verus!
