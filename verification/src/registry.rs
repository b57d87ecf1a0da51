//! What all kinds of entities have in common, and how a registry deals with
//! two entities of one qualified path: the later one replaces the earlier
//! one.

use vstd::prelude::*;
use vstd::string::StringExecFns;
use crate::extension_sql::ExtensionSql;
use crate::pg_extern::InventoryPgExtern;
use crate::pg_schema::InventorySchema;
use crate::postgres_enum::InventoryPostgresEnum;
use crate::postgres_hash::InventoryPostgresHash;
use crate::postgres_ord::InventoryPostgresOrd;
use crate::postgres_type::InventoryPostgresType;
use crate::text::option_text;

verus! {

/// How an entity is named and where it was declared.
pub trait SqlGraphIdentifier {
    /// The qualified path of the entity, which is its key in the registry.
    spec fn identifier(&self) -> Seq<char>;

    /// The word for the kind of the entity.
    spec fn kind(&self) -> Seq<char>;

    /// The file in which the entity was declared.
    spec fn declared_in(&self) -> Seq<char>;

    /// The line on which the entity was declared.
    spec fn declared_at(&self) -> u32;

    /// The name of the entity in a drawing of the graph: its kind and its
    /// qualified path.
    fn dot_identifier(&self) -> (s: String)
        ensures
            s@ == self.kind() + " "@ + self.identifier(),
    ;

    /// The qualified path of the entity.
    fn rust_identifier(&self) -> (s: String)
        ensures
            s@ == self.identifier(),
    ;

    /// The file in which the entity was declared.
    fn file(&self) -> (file: Option<String>)
        ensures
            option_text(file) == Some(self.declared_in()),
    ;

    /// The line on which the entity was declared.
    fn line(&self) -> (line: Option<u32>)
        ensures
            line == Some(self.declared_at()),
    ;
}

impl SqlGraphIdentifier for InventorySchema {
    open spec fn identifier(&self) -> Seq<char> {
        self.module@
    }

    open spec fn kind(&self) -> Seq<char> {
        "schema"@
    }

    open spec fn declared_in(&self) -> Seq<char> {
        self.file@
    }

    open spec fn declared_at(&self) -> u32 {
        self.line
    }

    fn dot_identifier(&self) -> (s: String) {
        let mut s = String::from_str("schema");
        s.append(" ");
        s.append(self.module.as_str());
        s
    }

    fn rust_identifier(&self) -> (s: String) {
        self.module.clone()
    }

    fn file(&self) -> (file: Option<String>) {
        Some(self.file.clone())
    }

    fn line(&self) -> (line: Option<u32>) {
        Some(self.line)
    }
}

impl SqlGraphIdentifier for ExtensionSql {
    open spec fn identifier(&self) -> Seq<char> {
        self.full_path@
    }

    open spec fn kind(&self) -> Seq<char> {
        "sql"@
    }

    open spec fn declared_in(&self) -> Seq<char> {
        self.file@
    }

    open spec fn declared_at(&self) -> u32 {
        self.line
    }

    fn dot_identifier(&self) -> (s: String) {
        let mut s = String::from_str("sql");
        s.append(" ");
        s.append(self.full_path.as_str());
        s
    }

    fn rust_identifier(&self) -> (s: String) {
        self.full_path.clone()
    }

    fn file(&self) -> (file: Option<String>) {
        Some(self.file.clone())
    }

    fn line(&self) -> (line: Option<u32>) {
        Some(self.line)
    }
}

impl SqlGraphIdentifier for InventoryPgExtern {
    open spec fn identifier(&self) -> Seq<char> {
        self.full_path@
    }

    open spec fn kind(&self) -> Seq<char> {
        "fn"@
    }

    open spec fn declared_in(&self) -> Seq<char> {
        self.file@
    }

    open spec fn declared_at(&self) -> u32 {
        self.line
    }

    fn dot_identifier(&self) -> (s: String) {
        let mut s = String::from_str("fn");
        s.append(" ");
        s.append(self.full_path.as_str());
        s
    }

    fn rust_identifier(&self) -> (s: String) {
        self.full_path.clone()
    }

    fn file(&self) -> (file: Option<String>) {
        Some(self.file.clone())
    }

    fn line(&self) -> (line: Option<u32>) {
        Some(self.line)
    }
}

impl SqlGraphIdentifier for InventoryPostgresType {
    open spec fn identifier(&self) -> Seq<char> {
        self.full_path@
    }

    open spec fn kind(&self) -> Seq<char> {
        "type"@
    }

    open spec fn declared_in(&self) -> Seq<char> {
        self.file@
    }

    open spec fn declared_at(&self) -> u32 {
        self.line
    }

    fn dot_identifier(&self) -> (s: String) {
        let mut s = String::from_str("type");
        s.append(" ");
        s.append(self.full_path.as_str());
        s
    }

    fn rust_identifier(&self) -> (s: String) {
        self.full_path.clone()
    }

    fn file(&self) -> (file: Option<String>) {
        Some(self.file.clone())
    }

    fn line(&self) -> (line: Option<u32>) {
        Some(self.line)
    }
}

impl SqlGraphIdentifier for InventoryPostgresEnum {
    open spec fn identifier(&self) -> Seq<char> {
        self.full_path@
    }

    open spec fn kind(&self) -> Seq<char> {
        "enum"@
    }

    open spec fn declared_in(&self) -> Seq<char> {
        self.file@
    }

    open spec fn declared_at(&self) -> u32 {
        self.line
    }

    fn dot_identifier(&self) -> (s: String) {
        let mut s = String::from_str("enum");
        s.append(" ");
        s.append(self.full_path.as_str());
        s
    }

    fn rust_identifier(&self) -> (s: String) {
        self.full_path.clone()
    }

    fn file(&self) -> (file: Option<String>) {
        Some(self.file.clone())
    }

    fn line(&self) -> (line: Option<u32>) {
        Some(self.line)
    }
}

impl SqlGraphIdentifier for InventoryPostgresOrd {
    open spec fn identifier(&self) -> Seq<char> {
        self.full_path@
    }

    open spec fn kind(&self) -> Seq<char> {
        "ord"@
    }

    open spec fn declared_in(&self) -> Seq<char> {
        self.file@
    }

    open spec fn declared_at(&self) -> u32 {
        self.line
    }

    fn dot_identifier(&self) -> (s: String) {
        let mut s = String::from_str("ord");
        s.append(" ");
        s.append(self.full_path.as_str());
        s
    }

    fn rust_identifier(&self) -> (s: String) {
        self.full_path.clone()
    }

    fn file(&self) -> (file: Option<String>) {
        Some(self.file.clone())
    }

    fn line(&self) -> (line: Option<u32>) {
        Some(self.line)
    }
}

impl SqlGraphIdentifier for InventoryPostgresHash {
    open spec fn identifier(&self) -> Seq<char> {
        self.full_path@
    }

    open spec fn kind(&self) -> Seq<char> {
        "hash"@
    }

    open spec fn declared_in(&self) -> Seq<char> {
        self.file@
    }

    open spec fn declared_at(&self) -> u32 {
        self.line
    }

    fn dot_identifier(&self) -> (s: String) {
        let mut s = String::from_str("hash");
        s.append(" ");
        s.append(self.full_path.as_str());
        s
    }

    fn rust_identifier(&self) -> (s: String) {
        self.full_path.clone()
    }

    fn file(&self) -> (file: Option<String>) {
        Some(self.file.clone())
    }

    fn line(&self) -> (line: Option<u32>) {
        Some(self.line)
    }
}

/// Whether the item at position `i` is replaced: a later item has its
/// qualified path.
pub open spec fn replaced<T: SqlGraphIdentifier>(items: Seq<T>, i: int) -> bool {
    exists|j: int| i < j < items.len() && (#[trigger] items[j]).identifier() == items[i].identifier()
}

/// The items that stay when the last one of each qualified path wins: those
/// that are not replaced, in their order.
pub open spec fn last_wins<T: SqlGraphIdentifier>(items: Seq<T>) -> Seq<T>
    decreases items.len(),
{
    if items.len() == 0 {
        Seq::empty()
    } else if replaced(items, 0) {
        last_wins(items.drop_first())
    } else {
        seq![items[0]] + last_wins(items.drop_first())
    }
}

/// Every item that stays is one of the items, and one that is not replaced.
pub proof fn lemma_last_wins_members<T: SqlGraphIdentifier>(items: Seq<T>, k: int)
    requires
        0 <= k < last_wins(items).len(),
    ensures
        exists|i: int| 0 <= i < items.len() && #[trigger] items[i] == last_wins(items)[k] && !replaced(items, i),
    decreases items.len(),
{
    let rest = items.drop_first();
    if replaced(items, 0) || k > 0 {
        let below = if replaced(items, 0) {
            k
        } else {
            k - 1
        };
        lemma_last_wins_members(rest, below);
        let i = choose|i: int| 0 <= i < rest.len() && #[trigger] rest[i] == last_wins(rest)[below] && !replaced(rest, i);
        if replaced(items, i + 1) {
            let j = choose|j: int|
                i + 1 < j < items.len() && (#[trigger] items[j]).identifier() == items[i
                    + 1].identifier();
            assert(rest[j - 1] == items[j]);
        }
    }
}

/// No two items that stay have the same qualified path.
pub proof fn lemma_last_wins_unique<T: SqlGraphIdentifier>(items: Seq<T>, x: int, y: int)
    requires
        0 <= x < y < last_wins(items).len(),
    ensures
        last_wins(items)[x].identifier() != last_wins(items)[y].identifier(),
    decreases items.len(),
{
    let rest = items.drop_first();
    if replaced(items, 0) {
        lemma_last_wins_unique(rest, x, y);
    } else if x > 0 {
        lemma_last_wins_unique(rest, x - 1, y - 1);
    } else {
        lemma_last_wins_members(rest, y - 1);
    }
}

fn is_replaced<T: SqlGraphIdentifier>(items: &Vec<T>, i: usize) -> (b: bool)
    requires
        i < items.len(),
    ensures
        b == replaced(items@, i as int),
{
    let path = items[i].rust_identifier();
    let mut j: usize = i + 1;
    while j < items.len()
        invariant
            i < j <= items.len(),
            path@ == items@[i as int].identifier(),
            forall|k: int| i < k < j ==> (#[trigger] items@[k]).identifier() != path@,
        decreases items.len() - j,
    {
        if items[j].rust_identifier() == path {
            return true;
        }
        j += 1;
    }
    false
}

/// Drops every item that a later item of the same qualified path replaces.
pub fn last_write_wins<T: SqlGraphIdentifier>(items: Vec<T>) -> (kept: Vec<T>)
    ensures
        kept@ == last_wins(items@),
{
    let mut kept = items;
    let mut i: usize = 0;
    assert(kept@.take(0) + last_wins(kept@.skip(0)) =~= last_wins(items@)) by {
        assert(kept@.skip(0) =~= kept@);
    }
    while i < kept.len()
        invariant
            i <= kept.len(),
            last_wins(items@) == kept@.take(i as int) + last_wins(kept@.skip(i as int)),
        decreases kept.len() - i,
    {
        let ghost before = kept@;
        let ghost tail = before.skip(i as int);
        proof {
            if replaced(before, i as int) {
                let j = choose|j: int|
                    i < j < before.len() && (#[trigger] before[j]).identifier() == before[i as int].identifier();
                assert(tail[j - i] == before[j]);
            }
        }
        if is_replaced(&kept, i) {
            kept.remove(i);
            assert(kept@.skip(i as int) =~= tail.drop_first());
        } else {
            i += 1;
            assert(kept@.skip(i as int) =~= tail.drop_first());
        }
    }
    kept
}

} // verus!
