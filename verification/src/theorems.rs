//! What holds of every document and of every fragment.

use vstd::prelude::*;
use crate::control_file::ControlFileView;
use crate::entity::SqlGraphEntity;
use crate::entity_sql::variant_sql;
use crate::error::PgxSqlErrorView;
use crate::pg_extern::{ExternArgs, InventoryPgExternView};
use crate::pg_schema::InventorySchemaView;
use crate::pgx_sql::{PgxSqlView, RegistriesView};
use crate::postgres_enum::InventoryPostgresEnumView;
use crate::text::{join, lemma_join_keeps_order, part_end, part_start};

verus! {

impl PgxSqlView {
    /// The document that is compiled from this state, if there is one.
    pub open spec fn compiled(self) -> Option<Seq<char>> {
        match self.walk() {
            Some(order) => match self.document(self.entities_of(order)) {
                Ok(document) => Some(document),
                Err(_) => None,
            },
            None => None,
        }
    }

    /// Determinism: a control file, a type mapping table and registries
    /// determine the state that is built from them, and with it the
    /// document.
    pub proof fn lemma_build_determines_document(
        first: PgxSqlView,
        second: PgxSqlView,
        control: ControlFileView,
        table: Map<u64, Seq<char>>,
        registries: RegistriesView,
    )
        requires
            first.built_from(control, table, registries),
            second.built_from(control, table, registries),
        ensures
            first == second,
            first.compiled() == second.compiled(),
    {
        assert((PgxSqlView { type_mappings: table, ..first }) == (PgxSqlView {
            type_mappings: table,
            ..second
        }));
    }

    /// Where the fragments of `entities` can be rendered up to the `n`-th,
    /// they can up to the `k`-th, and what is rendered up to there is the
    /// beginning of what is rendered up to the `n`-th.
    pub proof fn lemma_fragments_grow(self, entities: Seq<SqlGraphEntity>, k: int, n: int)
        requires
            0 <= k <= n,
            self.fragments(entities, n) is Ok,
        ensures
            self.fragments(entities, k) is Ok,
            self.fragments(entities, k)->Ok_0.is_prefix_of(self.fragments(entities, n)->Ok_0),
            k < n ==> self.entity_sql(entities[k]) is Ok && self.fragments(entities, k + 1)
                == Ok::<Seq<char>, PgxSqlErrorView>(
                self.fragments(entities, k)->Ok_0 + self.entity_sql(entities[k])->Ok_0,
            ),
        decreases n - k,
    {
        let whole = self.fragments(entities, n)->Ok_0;
        if k < n {
            self.lemma_fragments_grow(entities, k + 1, n);
            let shorter = self.fragments(entities, k)->Ok_0;
            let longer = self.fragments(entities, k + 1)->Ok_0;
            assert(longer == shorter + self.entity_sql(entities[k])->Ok_0);
            assert(longer == whole.subrange(0, longer.len() as int));
            assert(shorter =~= whole.subrange(0, shorter.len() as int));
        } else {
            assert(whole =~= whole.subrange(0, whole.len() as int));
        }
    }

    /// Where the fragment of the `k`-th of `entities` begins in the document.
    pub open spec fn fragment_start(self, entities: Seq<SqlGraphEntity>, k: int) -> int {
        (Self::preamble().len() + self.default_schema_sql().len() + self.fragments(
            entities,
            k,
        )->Ok_0.len()) as int
    }

    /// Where the fragment of the `k`-th of `entities` ends in the document.
    pub open spec fn fragment_end(self, entities: Seq<SqlGraphEntity>, k: int) -> int {
        self.fragment_start(entities, k) + self.entity_sql(entities[k])->Ok_0.len()
    }

    /// Every fragment stands in the document as it is, and the fragment of
    /// an earlier entity ends before that of a later one begins.
    pub proof fn lemma_fragment_in_document(self, entities: Seq<SqlGraphEntity>, j: int, k: int)
        requires
            0 <= j <= k < entities.len(),
            self.document(entities) is Ok,
        ensures
            self.entity_sql(entities[k]) is Ok,
            self.fragment_end(entities, k) <= self.document(entities)->Ok_0.len(),
            self.document(entities)->Ok_0.subrange(
                self.fragment_start(entities, k),
                self.fragment_end(entities, k),
            ) == self.entity_sql(entities[k])->Ok_0,
            j < k ==> self.fragment_end(entities, j) <= self.fragment_start(entities, k),
    {
        let n = entities.len() as int;
        let body = self.fragments(entities, n)->Ok_0;
        let head = Self::preamble() + self.default_schema_sql();
        let document = self.document(entities)->Ok_0;
        assert(document == head + body + "\n"@);
        self.lemma_fragments_grow(entities, k, n);
        self.lemma_fragments_grow(entities, k + 1, n);
        let upto = self.fragments(entities, k + 1)->Ok_0;
        let before = self.fragments(entities, k)->Ok_0;
        let fragment = self.entity_sql(entities[k])->Ok_0;
        assert(upto == before + fragment);
        assert(upto == body.subrange(0, upto.len() as int));
        assert(document.subrange(
            self.fragment_start(entities, k),
            self.fragment_end(entities, k),
        ) =~= fragment) by {
            assert forall|i: int| 0 <= i < fragment.len() implies document[self.fragment_start(
                entities,
                k,
            ) + i] == fragment[i] by {
                assert(document[head.len() + before.len() + i] == body[before.len() + i]);
                assert(body[before.len() + i] == upto[before.len() + i]);
            }
        }
        if j < k {
            self.lemma_fragments_grow(entities, j, n);
            self.lemma_fragments_grow(entities, j + 1, k);
        }
    }

    /// Topological soundness: in the document, the fragment of an entity on
    /// which another depends ends before the fragment of that other entity
    /// begins.
    pub proof fn lemma_dependency_rendered_first(self, a: int, b: int)
        requires
            self.walk() is Some,
            self.document(self.entities_of(self.walk()->0)) is Ok,
            0 <= a < self.nodes.len(),
            self.has_edge(a, b),
        ensures
            ({
                let order = self.walk()->0;
                let entities = self.entities_of(order);
                let i = Self::place(order, a as usize);
                let j = Self::place(order, b as usize);
                &&& 0 <= j < i < order.len()
                &&& order[i] == a
                &&& order[j] == b
                &&& self.fragment_end(entities, j) <= self.fragment_start(entities, i)
            }),
    {
        let order = self.walk()->0;
        let entities = self.entities_of(order);
        self.lemma_walk_topological(order, a, b);
        self.lemma_walk_distinct(order);
        let (x, y) = choose|x: int, y: int|
            0 <= y < x < order.len() && #[trigger] order[x] == a && #[trigger] order[y] == b;
        let i = Self::place(order, a as usize);
        let j = Self::place(order, b as usize);
        assert(i == x);
        assert(j == y);
        self.lemma_fragment_in_document(entities, j, i);
    }

    /// Topological soundness for a state that was built: the fragment of an
    /// entity on which another depends ends before the fragment of that
    /// other entity begins.
    pub proof fn lemma_dependent_rendered_later(self, a: int, b: int)
        requires
            self.nodes == self.registries().canonical_nodes(),
            self.edges == self.registries().dependency_edges(),
            self.nodes.len() <= usize::MAX,
            self.walk() is Some,
            self.document(self.entities_of(self.walk()->0)) is Ok,
            0 <= a < self.nodes.len(),
            0 <= b < self.nodes.len(),
            self.depends(self.nodes[a], self.nodes[b]),
        ensures
            ({
                let order = self.walk()->0;
                let entities = self.entities_of(order);
                let i = Self::place(order, a as usize);
                let j = Self::place(order, b as usize);
                &&& 0 <= j < i < order.len()
                &&& order[i] == a
                &&& order[j] == b
                &&& self.fragment_end(entities, j) <= self.fragment_start(entities, i)
            }),
    {
        self.lemma_edges_are_dependencies();
        self.lemma_dependency_rendered_first(a, b);
    }

    /// The schema of the control file is always created: its statement
    /// follows the comment at the head of the document.
    pub proof fn lemma_default_schema_emitted(
        self,
        entities: Seq<SqlGraphEntity>,
        schema: Seq<char>,
    )
        requires
            self.control.schema == Some(schema),
            self.document(entities) is Ok,
        ensures
            ({
                let statement = "CREATE SCHEMA IF NOT EXISTS "@ + schema + ";\n"@;
                let start = Self::preamble().len() as int;
                &&& start + statement.len() <= self.document(entities)->Ok_0.len()
                &&& self.document(entities)->Ok_0.subrange(start, start + statement.len())
                    == statement
            }),
    {
        let statement = "CREATE SCHEMA IF NOT EXISTS "@ + schema + ";\n"@;
        let start = Self::preamble().len() as int;
        let document = self.document(entities)->Ok_0;
        assert(statement == self.default_schema_sql());
        assert(document.subrange(start, start + statement.len()) =~= statement);
    }
}

impl InventorySchemaView {
    /// The schemas that every database has are never created.
    pub proof fn lemma_reserved_schema_skipped(self)
        requires
            self.name == "public"@ || self.name == "pg_catalog"@,
        ensures
            self.sql() == Seq::<char>::empty(),
    {
    }
}

impl InventoryPostgresEnumView {
    /// Where variant `k` begins in the list of variants.
    pub open spec fn variant_start(self, k: int) -> int {
        part_start(self.variants.map_values(|v: Seq<char>| variant_sql(v)), ",\n"@, k)
    }

    /// Where variant `k` ends in the list of variants.
    pub open spec fn variant_end(self, k: int) -> int {
        self.variant_start(k) + variant_sql(self.variants[k]).len()
    }

    /// The variants of an enum are rendered in the order of their
    /// declaration: each stands in the list, and an earlier one ends before
    /// a later one begins.
    pub proof fn lemma_variants_in_order(self, i: int, k: int)
        requires
            0 <= i <= k < self.variants.len(),
        ensures
            self.variant_end(k) <= self.variants_sql().len(),
            self.variants_sql().subrange(self.variant_start(k), self.variant_end(k))
                == variant_sql(self.variants[k]),
            i < k ==> self.variant_end(i) <= self.variant_start(k),
    {
        let parts = self.variants.map_values(|v: Seq<char>| variant_sql(v));
        lemma_join_keeps_order(parts, ",\n"@, i, k);
        let list = join(parts, ",\n"@);
        assert(self.variants_sql() == list + "\n"@);
        assert(self.variants_sql().subrange(self.variant_start(k), self.variant_end(k))
            =~= list.subrange(part_start(parts, ",\n"@, k), part_end(parts, ",\n"@, k)));
    }
}

impl InventoryPgExternView {
    /// Whether no argument of the function can be null.
    pub open spec fn no_argument_optional(self) -> bool {
        forall|i: int| 0 <= i < self.fn_args.len() ==> !(#[trigger] self.fn_args[i]).is_optional
    }

    /// Strictness inference: a function without a strictness modifier whose
    /// arguments cannot be null gets one, after the modifiers of its author;
    /// every other function keeps the modifiers of its author as they are.
    /// So the inference never adds a second strictness modifier.
    pub proof fn lemma_strictness_inference(self)
        ensures
            !self.extern_attrs.contains(ExternArgs::Strict) && self.no_argument_optional() ==> {
                &&& self.effective_attrs() == self.extern_attrs.push(ExternArgs::Strict)
                &&& forall|i: int|
                    0 <= i < self.effective_attrs().len() ==> (#[trigger] self.effective_attrs()[i]
                        == ExternArgs::Strict <==> i == self.extern_attrs.len())
            },
            self.extern_attrs.contains(ExternArgs::Strict) || !self.no_argument_optional()
                ==> self.effective_attrs() == self.extern_attrs,
            self.extern_attrs.len() == 0 && self.no_argument_optional() ==> self.effective_attrs()
                == seq![ExternArgs::Strict],
    {
        if !self.extern_attrs.contains(ExternArgs::Strict) && self.no_argument_optional() {
            assert forall|i: int| 0 <= i < self.effective_attrs().len() implies (
            #[trigger] self.effective_attrs()[i] == ExternArgs::Strict <==> i
                == self.extern_attrs.len()) by {
                if i < self.extern_attrs.len() {
                    assert(self.extern_attrs.contains(self.extern_attrs[i]));
                }
            }
            if self.extern_attrs.len() == 0 {
                assert(self.effective_attrs() =~= seq![ExternArgs::Strict]);
            }
        }
    }
}

impl PgxSqlView {
    /// A function with an argument whose type the table does not know is not
    /// rendered: the error names the first such argument and the function.
    pub proof fn lemma_missing_mapping(self, f: InventoryPgExternView, i: int)
        requires
            0 <= i < f.fn_args.len(),
            !self.type_mappings.contains_key(f.fn_args[i].ty_id),
            forall|k: int| 0 <= k < i ==> self.type_mappings.contains_key(
                (#[trigger] f.fn_args[k]).ty_id,
            ),
        ensures
            self.extern_sql(f) == Err::<Seq<char>, PgxSqlErrorView>(
                PgxSqlErrorView::MissingTypeMapping {
                    type_id: f.fn_args[i].ty_id,
                    ty_name: f.fn_args[i].ty_name,
                    argument: Some(f.fn_args[i].pattern),
                    referencing_entity: f.full_path,
                    file: f.file,
                    line: f.line,
                },
            ),
    {
        self.lemma_no_arg_error_before(f, i);
        assert(self.first_arg_error(f, i + 1) == self.arg_error(f, i));
        self.lemma_first_arg_error_stays(f, i + 1, f.fn_args.len() as int);
    }

    proof fn lemma_no_arg_error_before(self, f: InventoryPgExternView, n: int)
        requires
            0 <= n <= f.fn_args.len(),
            forall|k: int| 0 <= k < n ==> self.type_mappings.contains_key(
                (#[trigger] f.fn_args[k]).ty_id,
            ),
        ensures
            self.first_arg_error(f, n) is None,
        decreases n,
    {
        if n > 0 {
            self.lemma_no_arg_error_before(f, n - 1);
            assert(self.type_mappings.contains_key(f.fn_args[n - 1].ty_id));
        }
    }
}

} // verus!
