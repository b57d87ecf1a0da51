//! The document: a fixed comment, the schema of the control file, and the
//! fragments of all entities in the order of the walk.

use vstd::prelude::*;
use vstd::string::StringExecFns;
use crate::entity::SqlGraphEntity;
use crate::error::{PgxSqlError, PgxSqlErrorView};
use crate::graph::graph_node;
use crate::pgx_sql::{PgxSql, PgxSqlView};

verus! {

impl PgxSqlView {
    /// The entities of the nodes `order`.
    pub open spec fn entities_of(self, order: Seq<usize>) -> Seq<SqlGraphEntity> {
        order.map_values(|v: usize| self.nodes[v as int])
    }

    /// The fragments of the first `n` of `entities`, one after the other, or
    /// the error of the first of them that cannot be rendered.
    pub open spec fn fragments(self, entities: Seq<SqlGraphEntity>, n: int) -> Result<
        Seq<char>,
        PgxSqlErrorView,
    >
        decreases n,
    {
        if n <= 0 {
            Ok(Seq::empty())
        } else {
            match self.fragments(entities, n - 1) {
                Err(e) => Err(e),
                Ok(before) => match self.entity_sql(entities[n - 1]) {
                    Err(e) => Err(e),
                    Ok(fragment) => Ok(before + fragment),
                },
            }
        }
    }

    /// The comment at the head of every document.
    pub open spec fn preamble() -> Seq<char> {
        "/* This file is auto generated by pgx.\n\nThe ordering of items is not stable, it is driven by a dependency graph.\n*/\n                "@
    }

    /// The document with the fragments of `entities` in the given order: the
    /// comment, the statement for the schema of the control file, the
    /// fragments, and a line feed. There is none if a fragment cannot be
    /// rendered.
    pub open spec fn document(self, entities: Seq<SqlGraphEntity>) -> Result<
        Seq<char>,
        PgxSqlErrorView,
    > {
        match self.fragments(entities, entities.len() as int) {
            Err(e) => Err(e),
            Ok(body) => Ok(Self::preamble() + self.default_schema_sql() + body + "\n"@),
        }
    }
}

impl PgxSql {
    /// The entities in the order in which they are rendered: each after
    /// those on which it depends and, where that leaves a choice, by file,
    /// line and qualified path. Where the dependencies run in a circle,
    /// there is no such order, and the error names the entities of a circle.
    pub fn walk(&self) -> (r: Result<Vec<SqlGraphEntity>, PgxSqlError>)
        ensures
            match r {
                Ok(entities) => self@.walk() is Some && entities@ == self@.entities_of(
                    self@.walk()->0,
                ),
                Err(e) => self@.walk() is None && self@.reports_cycle(e@),
            },
    {
        match self.walk_order() {
            Err(e) => Err(e),
            Ok(order) => {
                let mut entities: Vec<SqlGraphEntity> = Vec::new();
                let mut k: usize = 0;
                while k < order.len()
                    invariant
                        k <= order@.len(),
                        self@.is_walk(order@),
                        entities@ == self@.entities_of(order@).take(k as int),
                    decreases order@.len() - k,
                {
                    proof {
                        self@.lemma_walk_distinct(order@);
                    }
                    if let Some(entity) = graph_node(&self.inventory.graph, order[k]) {
                        entities.push(entity);
                    }
                    k += 1;
                }
                Ok(entities)
            },
        }
    }

    /// Compiles the document. The entities stand in the order of the walk.
    /// The first fragment that cannot be rendered ends the work with its
    /// error; a circle of dependencies does so before anything is rendered.
    pub fn to_sql(self) -> (r: Result<String, PgxSqlError>)
        ensures
            match self@.walk() {
                Some(order) => match r {
                    Ok(sql) => self@.document(self@.entities_of(order)) == Ok::<
                        Seq<char>,
                        PgxSqlErrorView,
                    >(sql@),
                    Err(e) => self@.document(self@.entities_of(order)) == Err::<
                        Seq<char>,
                        PgxSqlErrorView,
                    >(e@),
                },
                None => r is Err && self@.reports_cycle(r->Err_0@),
            },
    {
        let entities = match self.walk() {
            Ok(entities) => entities,
            Err(e) => {
                return Err(e);
            },
        };
        proof {
            use_type_invariant(&self.inventory);
            self@.lemma_walk_distinct(self@.walk()->0);
        }
        let mut body = String::new();
        let mut k: usize = 0;
        while k < entities.len()
            invariant
                k <= entities@.len(),
                self@.walk() is Some,
                entities@ == self@.entities_of(self@.walk()->0),
                forall|i: int| 0 <= i < entities@.len() ==> self@.has_entity(#[trigger] entities@[i]),
                self@.fragments(entities@, k as int) == Ok::<Seq<char>, PgxSqlErrorView>(body@),
            decreases entities@.len() - k,
        {
            match entities[k].to_sql(&self) {
                Ok(fragment) => {
                    body.append(fragment.as_str());
                },
                Err(e) => {
                    proof {
                        self@.lemma_fragments_error_stays(
                            entities@,
                            k + 1,
                            entities@.len() as int,
                        );
                    }
                    return Err(e);
                },
            }
            k += 1;
        }
        let mut sql = String::from_str(
            "/* This file is auto generated by pgx.\n\nThe ordering of items is not stable, it is driven by a dependency graph.\n*/\n                ",
        );
        sql.append(self.default_schema_to_sql().as_str());
        sql.append(body.as_str());
        sql.append("\n");
        Ok(sql)
    }
}

impl PgxSqlView {
    /// An error among the first fragments is the error of every longer
    /// sequence of fragments.
    pub proof fn lemma_fragments_error_stays(self, entities: Seq<SqlGraphEntity>, n: int, m: int)
        requires
            n <= m,
            self.fragments(entities, n) is Err,
        ensures
            self.fragments(entities, m) == self.fragments(entities, n),
        decreases m - n,
    {
        if n < m {
            self.lemma_fragments_error_stays(entities, n, m - 1);
        }
    }
}

} // verus!
