//! Composite type entities.

use vstd::prelude::*;

verus! {

/// A composite type of the extension, with the functions that convert it from
/// and to text. A conversion function is named by its own name and the path of
/// its module; an empty module path stands for the module of the type. Like an
/// enum, one type is known under several type identifiers.
#[derive(Debug, Clone)]
pub struct InventoryPostgresType {
    pub name: String,
    pub file: String,
    pub line: u32,
    pub full_path: String,
    pub module: String,
    pub id: u64,
    pub option_id: u64,
    pub vec_id: u64,
    pub vec_option_id: u64,
    pub array_id: Option<u64>,
    pub option_array_id: Option<u64>,
    pub varlena_id: Option<u64>,
    pub in_fn: String,
    pub in_fn_module: String,
    pub out_fn: String,
    pub out_fn_module: String,
}

/// The content of an [`InventoryPostgresType`], with its strings as texts.
pub struct InventoryPostgresTypeView {
    pub name: Seq<char>,
    pub file: Seq<char>,
    pub line: u32,
    pub full_path: Seq<char>,
    pub module: Seq<char>,
    pub id: u64,
    pub option_id: u64,
    pub vec_id: u64,
    pub vec_option_id: u64,
    pub array_id: Option<u64>,
    pub option_array_id: Option<u64>,
    pub varlena_id: Option<u64>,
    pub in_fn: Seq<char>,
    pub in_fn_module: Seq<char>,
    pub out_fn: Seq<char>,
    pub out_fn_module: Seq<char>,
}

impl View for InventoryPostgresType {
    type V = InventoryPostgresTypeView;

    open spec fn view(&self) -> InventoryPostgresTypeView {
        InventoryPostgresTypeView {
            name: self.name@,
            file: self.file@,
            line: self.line,
            full_path: self.full_path@,
            module: self.module@,
            id: self.id,
            option_id: self.option_id,
            vec_id: self.vec_id,
            vec_option_id: self.vec_option_id,
            array_id: self.array_id,
            option_array_id: self.option_array_id,
            varlena_id: self.varlena_id,
            in_fn: self.in_fn@,
            in_fn_module: self.in_fn_module@,
            out_fn: self.out_fn@,
            out_fn_module: self.out_fn_module@,
        }
    }
}

impl InventoryPostgresTypeView {
    /// Whether `candidate` is one of the identifiers of this type.
    pub open spec fn id_matches(self, candidate: u64) -> bool {
        ||| candidate == self.id
        ||| candidate == self.option_id
        ||| candidate == self.vec_id
        ||| candidate == self.vec_option_id
        ||| self.array_id == Some(candidate)
        ||| self.option_array_id == Some(candidate)
        ||| self.varlena_id == Some(candidate)
    }
}

impl InventoryPostgresType {
    /// Whether `candidate` is one of the identifiers of this type.
    pub fn id_matches(&self, candidate: &u64) -> (b: bool)
        ensures
            b == self@.id_matches(*candidate),
    {
        *candidate == self.id || *candidate == self.option_id || *candidate == self.vec_id
            || *candidate == self.vec_option_id || self.array_id == Some(*candidate)
            || self.option_array_id == Some(*candidate) || self.varlena_id == Some(*candidate)
    }
}

} // verus!
