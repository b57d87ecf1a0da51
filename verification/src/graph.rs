//! The dependency graph is kept in a `petgraph::graph::Graph` with `usize`
//! indices, so that it takes as many nodes and edges as memory holds. Verus
//! does not look inside that crate: this module declares the type, names what
//! a graph holds, and states what each of its methods used here does to it.
//! These statements are taken on trust.

use vstd::prelude::*;
use petgraph::graph::{EdgeIndex, Graph, NodeIndex};
use petgraph::Directed;
use crate::entity::{SqlGraphEntity, SqlGraphRelationship};

verus! {

/// `petgraph::graph::Graph`, a graph with weights of type `N` on its nodes and
/// of type `E` on its edges. Nothing inside it is visible to the proofs.
#[verifier::external_type_specification]
#[verifier::external_body]
#[verifier::reject_recursive_types(N)]
#[verifier::reject_recursive_types(E)]
#[verifier::reject_recursive_types(Ty)]
#[verifier::reject_recursive_types(Ix)]
pub struct ExGraph<N, E, Ty, Ix>(petgraph::graph::Graph<N, E, Ty, Ix>);

/// `petgraph::Directed`, the marker of graphs whose edges have a direction.
#[verifier::external_type_specification]
#[verifier::external_body]
pub struct ExDirected(petgraph::Directed);

/// The node weights of a graph, by node index.
pub uninterp spec fn graph_nodes(
    g: Graph<SqlGraphEntity, SqlGraphRelationship, Directed, usize>,
) -> Seq<SqlGraphEntity>;

/// The edges of a graph as pairs of node indices, source first, by edge index.
pub uninterp spec fn graph_edges(
    g: Graph<SqlGraphEntity, SqlGraphRelationship, Directed, usize>,
) -> Seq<(usize, usize)>;

/// `Graph::with_capacity`, called with no capacity: the result has neither
/// nodes nor edges.
#[verifier::external_body]
pub(crate) fn graph_new() -> (g: Graph<SqlGraphEntity, SqlGraphRelationship, Directed, usize>)
    ensures
        graph_nodes(g) == Seq::<SqlGraphEntity>::empty(),
        graph_edges(g) == Seq::<(usize, usize)>::empty(),
{
    Graph::with_capacity(0, 0)
}

/// `Graph::node_count`: the number of nodes.
#[verifier::external_body]
pub(crate) fn graph_node_count(
    g: &Graph<SqlGraphEntity, SqlGraphRelationship, Directed, usize>,
) -> (n: usize)
    ensures
        n == graph_nodes(*g).len(),
{
    g.node_count()
}

/// `Graph::edge_count`: the number of edges.
#[verifier::external_body]
pub(crate) fn graph_edge_count(
    g: &Graph<SqlGraphEntity, SqlGraphRelationship, Directed, usize>,
) -> (n: usize)
    ensures
        n == graph_edges(*g).len(),
{
    g.edge_count()
}

/// `Graph::add_node`: the new node comes last and its index, the former
/// node count, is returned; the edges stay. With `usize` indices the method
/// has no limit of its own on the number of nodes.
#[verifier::external_body]
pub(crate) fn graph_add_node(
    g: &mut Graph<SqlGraphEntity, SqlGraphRelationship, Directed, usize>,
    entity: SqlGraphEntity,
) -> (index: usize)
    ensures
        graph_nodes(*final(g)) == graph_nodes(*old(g)).push(entity),
        graph_edges(*final(g)) == graph_edges(*old(g)),
        index == graph_nodes(*old(g)).len(),
{
    g.add_node(entity).index()
}

/// `Graph::add_edge`: the new edge comes last; the nodes stay. Parallel edges
/// are kept. The method panics on an end point that is no node, which the
/// precondition excludes.
#[verifier::external_body]
pub(crate) fn graph_add_edge(
    g: &mut Graph<SqlGraphEntity, SqlGraphRelationship, Directed, usize>,
    source: usize,
    target: usize,
)
    requires
        source < graph_nodes(*old(g)).len(),
        target < graph_nodes(*old(g)).len(),
    ensures
        graph_nodes(*final(g)) == graph_nodes(*old(g)),
        graph_edges(*final(g)) == graph_edges(*old(g)).push((source, target)),
{
    g.add_edge(NodeIndex::new(source), NodeIndex::new(target), SqlGraphRelationship::DependsOn);
}

/// `Graph::node_weight`: the weight of the node with that index, or `None`
/// where there is no such node.
#[verifier::external_body]
pub(crate) fn graph_node(
    g: &Graph<SqlGraphEntity, SqlGraphRelationship, Directed, usize>,
    index: usize,
) -> (entity: Option<SqlGraphEntity>)
    ensures
        entity == if index < graph_nodes(*g).len() {
            Some(graph_nodes(*g)[index as int])
        } else {
            None
        },
{
    g.node_weight(NodeIndex::new(index)).copied()
}

/// `Graph::edge_endpoints`: source and target of the edge with that index,
/// or `None` where there is no such edge.
#[verifier::external_body]
pub(crate) fn graph_edge_endpoints(
    g: &Graph<SqlGraphEntity, SqlGraphRelationship, Directed, usize>,
    index: usize,
) -> (ends: Option<(usize, usize)>)
    ensures
        ends == if index < graph_edges(*g).len() {
            Some(graph_edges(*g)[index as int])
        } else {
            None
        },
{
    g.edge_endpoints(EdgeIndex::new(index)).map(|(a, b)| (a.index(), b.index()))
}

} // verus!
