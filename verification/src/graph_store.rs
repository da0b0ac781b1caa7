//! The two outside collections behind the automation editor: petgraph's
//! `StableGraph`, which holds the terminals and the connections between them,
//! and slotmap's `HopSlotMap`, which holds the blocks.
//!
//! Nothing in this file is proved. Each function states what the outside
//! method does to the contents of the collection, and the editor's proofs rest
//! on those statements.

use vstd::prelude::*;
use petgraph::Undirected;
use petgraph::stable_graph::EdgeIndex;
use petgraph::stable_graph::NodeIndex;
use petgraph::stable_graph::StableGraph;
use petgraph::visit::EdgeRef;
use petgraph::visit::IntoEdgeReferences;
use slotmap::DefaultKey;
use slotmap::HopSlotMap;
use slotmap::Key;
use slotmap::KeyData;
use crate::blocks::Block;
use crate::blocks::Terminal;

verus! {

/// petgraph's `StableGraph`, opaque to the verifier.
#[verifier::external_type_specification]
#[verifier::external_body]
#[verifier::reject_recursive_types(N)]
#[verifier::reject_recursive_types(E)]
#[verifier::reject_recursive_types(Ty)]
#[verifier::reject_recursive_types(Ix)]
pub struct ExStableGraph<N, E, Ty, Ix>(StableGraph<N, E, Ty, Ix>);

/// petgraph's marker type for undirected edges.
#[verifier::external_type_specification]
#[verifier::external_body]
pub struct ExUndirected(Undirected);

/// The graph in which the editor keeps its terminals and their connections.
/// Edges carry no information of their own; their weight is always `true`.
pub type TerminalGraph = StableGraph<Terminal, bool, Undirected, u32>;

/// The store in which the editor keeps its blocks: a `HopSlotMap` under
/// slotmap's `DefaultKey`. A key travels through the library as the 64-bit
/// number that `KeyData::as_ffi` gives for it.
#[verifier::external_body]
pub struct BlockMap {
    inner: HopSlotMap<DefaultKey, Block>,
}

/// The live nodes of the graph: node index to node weight.
pub uninterp spec fn graph_terminals(g: StableGraph<Terminal, bool, Undirected, u32>) -> Map<u32, Terminal>;

/// The live edges of the graph: edge index to the pair of node indices the
/// edge was added with, in that order.
pub uninterp spec fn graph_edges(g: StableGraph<Terminal, bool, Undirected, u32>) -> Map<u32, (u32, u32)>;

/// The occupied slots of the block store: key, as a 64-bit number, to value.
pub uninterp spec fn block_slots(m: BlockMap) -> Map<u64, Block>;

/// Edge `e` exists and has `n` as one of its two ends.
pub open spec fn edge_touches(edges: Map<u32, (u32, u32)>, e: u32, n: u32) -> bool {
    edges.dom().contains(e) && (edges[e].0 == n || edges[e].1 == n)
}

/// The end of edge `e` that lies opposite `n`.
pub open spec fn far_end(edges: Map<u32, (u32, u32)>, e: u32, n: u32) -> u32 {
    if edges[e].0 == n {
        edges[e].1
    } else {
        edges[e].0
    }
}

/// The edges that do not have `n` as an end.
pub open spec fn edges_avoiding(edges: Map<u32, (u32, u32)>, n: u32) -> Map<u32, (u32, u32)> {
    Map::new(|e: u32| edges.dom().contains(e) && !edge_touches(edges, e, n), |e: u32| edges[e])
}

/// A 64-bit number is the number of a slot map key exactly when the version
/// half, its upper 32 bits, is odd.
pub open spec fn is_block_key(raw: u64) -> bool {
    (raw >> 32) & 1 == 1
}

/// `StableGraph::default`: a graph without nodes and without edges.
#[verifier::external_body]
pub(crate) fn graph_new() -> (g: TerminalGraph)
    ensures
        graph_terminals(g).dom() == Set::<u32>::empty(),
        graph_edges(g).dom() == Set::<u32>::empty(),
{
    StableGraph::default()
}

/// `StableGraph::node_count`: the number of live nodes.
#[verifier::external_body]
pub(crate) fn graph_node_count(g: &TerminalGraph) -> (n: usize)
    ensures
        n == graph_terminals(*g).dom().len(),
{
    g.node_count()
}

/// `StableGraph::edge_count`: the number of live edges.
#[verifier::external_body]
pub(crate) fn graph_edge_count(g: &TerminalGraph) -> (n: usize)
    ensures
        n == graph_edges(*g).dom().len(),
{
    g.edge_count()
}

/// `StableGraph::add_node`: stores the weight under an index that no live
/// node has and leaves every other node and every edge as it was. The method
/// panics once the graph holds as many nodes as its index type can number,
/// which the precondition rules out.
#[verifier::external_body]
pub(crate) fn graph_add_node(g: &mut TerminalGraph, t: Terminal) -> (i: u32)
    requires
        graph_terminals(*old(g)).dom().finite(),
        graph_terminals(*old(g)).dom().len() < u32::MAX,
    ensures
        !graph_terminals(*old(g)).dom().contains(i),
        graph_terminals(*final(g)) == graph_terminals(*old(g)).insert(i, t),
        graph_edges(*final(g)) == graph_edges(*old(g)),
{
    g.add_node(t).index() as u32
}

/// `StableGraph::remove_node`: removes the node, and with it every edge that
/// has the node as an end; returns its weight, or `None` where no live node
/// has the index.
#[verifier::external_body]
pub(crate) fn graph_remove_node(g: &mut TerminalGraph, i: u32) -> (r: Option<Terminal>)
    ensures
        r == (if graph_terminals(*old(g)).dom().contains(i) {
            Some(graph_terminals(*old(g))[i])
        } else {
            None
        }),
        graph_terminals(*final(g)) == graph_terminals(*old(g)).remove(i),
        graph_edges(*final(g)) == edges_avoiding(graph_edges(*old(g)), i),
{
    g.remove_node(NodeIndex::new(i as usize))
}

/// `StableGraph::add_edge`, with the weight `true`: adds an edge from `a` to
/// `b` under an index that no live edge has and leaves the nodes and the other
/// edges as they were. The method panics where an end is no live node, or once
/// the graph holds as many edges as its index type can number; the
/// precondition rules both out.
#[verifier::external_body]
pub(crate) fn graph_add_edge(g: &mut TerminalGraph, a: u32, b: u32) -> (e: u32)
    requires
        graph_terminals(*old(g)).dom().contains(a),
        graph_terminals(*old(g)).dom().contains(b),
        graph_edges(*old(g)).dom().finite(),
        graph_edges(*old(g)).dom().len() < u32::MAX,
    ensures
        !graph_edges(*old(g)).dom().contains(e),
        graph_edges(*final(g)) == graph_edges(*old(g)).insert(e, (a, b)),
        graph_terminals(*final(g)) == graph_terminals(*old(g)),
{
    g.add_edge(NodeIndex::new(a as usize), NodeIndex::new(b as usize), true).index() as u32
}

/// `StableGraph::remove_edge`: removes the edge and nothing else; tells
/// whether there was a live edge under the index.
#[verifier::external_body]
pub(crate) fn graph_remove_edge(g: &mut TerminalGraph, e: u32) -> (removed: bool)
    ensures
        removed == graph_edges(*old(g)).dom().contains(e),
        graph_edges(*final(g)) == graph_edges(*old(g)).remove(e),
        graph_terminals(*final(g)) == graph_terminals(*old(g)),
{
    g.remove_edge(EdgeIndex::new(e as usize)).is_some()
}

/// `StableGraph::edges` on an undirected graph: the indices of the edges that
/// have `n` as an end, each once.
#[verifier::external_body]
pub(crate) fn graph_edges_of(g: &TerminalGraph, n: u32) -> (ids: Vec<u32>)
    ensures
        forall|e: u32| ids@.contains(e) <==> edge_touches(graph_edges(*g), e, n),
        ids@.no_duplicates(),
{
    g.edges(NodeIndex::new(n as usize)).map(|e| e.id().index() as u32).collect()
}

/// The first item of `StableGraph::neighbors` on an undirected graph: `None`
/// where no edge has `n` as an end, otherwise the far end of one of the edges
/// that do. Which edge, where there are several, is left open.
#[verifier::external_body]
pub(crate) fn graph_first_neighbor(g: &TerminalGraph, n: u32) -> (m: Option<u32>)
    ensures
        m.is_none() <==> (forall|e: u32| !edge_touches(graph_edges(*g), e, n)),
        m.is_some() ==> (exists|e: u32| edge_touches(graph_edges(*g), e, n)
            && m == Some(far_end(graph_edges(*g), e, n))),
{
    g.neighbors(NodeIndex::new(n as usize)).next().map(|i| i.index() as u32)
}

/// `StableGraph::edge_references`: the two ends of every live edge, in the
/// order in which the edge was added with them. An edge that was added more
/// than once between the same ends may stand more than once in the list.
#[verifier::external_body]
pub(crate) fn graph_edge_list(g: &TerminalGraph) -> (ends: Vec<(u32, u32)>)
    ensures
        forall|p: (u32, u32)| ends@.contains(p) <==> (exists|e: u32| graph_edges(*g).dom().contains(e) && graph_edges(*g)[e] == p),
{
    g.edge_references().map(|e| (e.source().index() as u32, e.target().index() as u32)).collect()
}

/// `StableGraph::node_weight`: the weight of the node, or `None` where no
/// live node has the index.
#[verifier::external_body]
pub(crate) fn graph_terminal(g: &TerminalGraph, i: u32) -> (t: Option<&Terminal>)
    ensures
        t.is_some() == graph_terminals(*g).dom().contains(i),
        t.is_some() ==> *t.unwrap() == graph_terminals(*g)[i],
{
    g.node_weight(NodeIndex::new(i as usize))
}

/// `StableGraph::node_weight_mut` on a live node: a borrow of the node's
/// weight. What is written through it becomes the weight of that node; no
/// other node and no edge changes.
#[verifier::external_body]
pub(crate) fn graph_terminal_mut(g: &mut TerminalGraph, i: u32) -> (t: &mut Terminal)
    requires
        graph_terminals(*old(g)).dom().contains(i),
    ensures
        *t == graph_terminals(*old(g))[i],
        graph_terminals(*final(g)) == graph_terminals(*old(g)).insert(i, *final(t)),
        graph_edges(*final(g)) == graph_edges(*old(g)),
{
    g.node_weight_mut(NodeIndex::new(i as usize)).unwrap()
}

/// `HopSlotMap::new`: a store without blocks.
#[verifier::external_body]
pub(crate) fn slots_new() -> (m: BlockMap)
    ensures
        block_slots(m).dom() == Set::<u64>::empty(),
{
    BlockMap { inner: HopSlotMap::new() }
}

/// `HopSlotMap::len`: the number of occupied slots.
#[verifier::external_body]
pub(crate) fn slots_len(m: &BlockMap) -> (n: usize)
    ensures
        n == block_slots(*m).dom().len(),
{
    m.inner.len()
}

/// `HopSlotMap::insert`: stores the value under a key that no occupied slot
/// has and leaves the other slots as they were. The method panics at
/// 2^32 - 2 elements, which the precondition rules out.
#[verifier::external_body]
pub(crate) fn slots_insert(m: &mut BlockMap, b: Block) -> (k: u64)
    requires
        block_slots(*old(m)).dom().finite(),
        block_slots(*old(m)).dom().len() < 0xffff_fffe,
    ensures
        is_block_key(k),
        !block_slots(*old(m)).dom().contains(k),
        block_slots(*final(m)) == block_slots(*old(m)).insert(k, b),
{
    m.inner.insert(b).data().as_ffi()
}

/// `HopSlotMap::get`: the value under the key, or `None` where the slot is
/// vacant or holds a later version.
#[verifier::external_body]
pub(crate) fn slots_get(m: &BlockMap, k: u64) -> (b: Option<&Block>)
    requires
        is_block_key(k),
    ensures
        b.is_some() == block_slots(*m).dom().contains(k),
        b.is_some() ==> *b.unwrap() == block_slots(*m)[k],
{
    m.inner.get(DefaultKey::from(KeyData::from_ffi(k)))
}

/// `HopSlotMap::get_mut` on an occupied slot: a borrow of the value. What is
/// written through it becomes the value under that key; no other slot changes.
#[verifier::external_body]
pub(crate) fn slots_get_mut(m: &mut BlockMap, k: u64) -> (b: &mut Block)
    requires
        is_block_key(k),
        block_slots(*old(m)).dom().contains(k),
    ensures
        *b == block_slots(*old(m))[k],
        block_slots(*final(m)) == block_slots(*old(m)).insert(k, *final(b)),
{
    m.inner.get_mut(DefaultKey::from(KeyData::from_ffi(k))).unwrap()
}

/// `HopSlotMap::remove`: vacates the slot and leaves the others as they were;
/// tells whether the key was that of an occupied slot.
#[verifier::external_body]
pub(crate) fn slots_remove(m: &mut BlockMap, k: u64) -> (removed: bool)
    requires
        is_block_key(k),
    ensures
        removed == block_slots(*old(m)).dom().contains(k),
        block_slots(*final(m)) == block_slots(*old(m)).remove(k),
{
    m.inner.remove(DefaultKey::from(KeyData::from_ffi(k))).is_some()
}

/// `HopSlotMap::keys`: the keys of the occupied slots, each once, in the
/// order in which the store walks its slots.
#[verifier::external_body]
pub(crate) fn slots_keys(m: &BlockMap) -> (keys: Vec<u64>)
    ensures
        forall|k: u64| keys@.contains(k) <==> block_slots(*m).dom().contains(k),
        keys@.no_duplicates(),
{
    m.inner.keys().map(|k| k.data().as_ffi()).collect()
}

} // verus!
