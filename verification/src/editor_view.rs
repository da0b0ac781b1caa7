//! The mathematical model of the automation editor: blocks, terminals and
//! edges as maps, and the invariant that every operation keeps.

use vstd::prelude::*;
use crate::blocks::Block;
use crate::blocks::BlockId;
use crate::blocks::BlockType;
use crate::blocks::Scalar;
use crate::blocks::SourceType;
use crate::blocks::TargetType;
use crate::blocks::TermType;
use crate::blocks::Terminal;
use crate::blocks::TerminalId;
use crate::blocks::shape_fits;
use crate::graph_store::is_block_key;

verus! {

/// What an automation editor holds, as plain mathematics.
pub struct EditorView {
    /// The blocks by handle.
    pub blocks: Map<BlockId, Block>,
    /// The terminals by handle.
    pub terminals: Map<TerminalId, Terminal>,
    /// The edges: each leads from an OUT terminal, its first component, to an
    /// IN terminal, its second.
    pub edges: Map<u32, (TerminalId, TerminalId)>,
    /// The block whose properties are shown, if any.
    pub selected: Option<BlockId>,
}

/// Whether a block kind is the target of some iterator.
pub open spec fn is_iterator_target(t: BlockType) -> bool {
    t matches BlockType::TARGET(TargetType::ITERATOR(_))
}

/// Whether a block kind is an effect.
pub open spec fn is_effect(t: BlockType) -> bool {
    t matches BlockType::EFFECT(_)
}

impl EditorView {
    /// `t` is a live IN terminal owned by block `b`.
    pub open spec fn is_input_of(self, t: TerminalId, b: BlockId) -> bool {
        &&& self.terminals.dom().contains(t)
        &&& self.terminals[t].io == TermType::IN
        &&& self.terminals[t].parent == b
    }

    /// `t` is a live OUT terminal owned by block `b`.
    pub open spec fn is_output_of(self, t: TerminalId, b: BlockId) -> bool {
        &&& self.terminals.dom().contains(t)
        &&& self.terminals[t].io == TermType::OUT
        &&& self.terminals[t].parent == b
    }

    /// The input labels of block `b` are pairwise different.
    pub open spec fn input_names_distinct(self, b: BlockId) -> bool {
        forall|i: int, j: int|
            0 <= i < j < self.blocks[b].in_idx@.len() ==> self.terminals[self.blocks[b].in_idx@[i]].name@
                != self.terminals[self.blocks[b].in_idx@[j]].name@
    }

    /// Block `b` lists live terminals of its own, each once, in numbers that
    /// fit its kind. A constant's output always holds a value, and the inputs
    /// of an iterator target have different labels.
    pub open spec fn block_ok(self, b: BlockId) -> bool {
        let blk = self.blocks[b];
        &&& is_block_key(b)
        &&& blk.in_idx@.no_duplicates()
        &&& blk.out_idx@.no_duplicates()
        &&& forall|i: int| 0 <= i < blk.in_idx@.len() ==> self.is_input_of(#[trigger] blk.in_idx@[i], b)
        &&& forall|i: int| 0 <= i < blk.out_idx@.len() ==> self.is_output_of(#[trigger] blk.out_idx@[i], b)
        &&& shape_fits(blk.block_type, blk.in_idx@.len(), blk.out_idx@.len())
        &&& blk.block_type == BlockType::SOURCE(SourceType::CONSTANT) ==> self.terminals[blk.out_idx@[0]].val.is_some()
        &&& is_iterator_target(blk.block_type) ==> self.input_names_distinct(b)
    }

    /// Terminal `t` belongs to a live block that lists it on the side of its
    /// direction.
    pub open spec fn terminal_ok(self, t: TerminalId) -> bool {
        let term = self.terminals[t];
        &&& self.blocks.dom().contains(term.parent)
        &&& term.io == TermType::IN ==> self.blocks[term.parent].in_idx@.contains(t)
        &&& term.io == TermType::OUT ==> self.blocks[term.parent].out_idx@.contains(t)
    }

    /// Edge `e` leads from a live OUT terminal to a live IN terminal.
    pub open spec fn edge_ok(self, e: u32) -> bool {
        &&& self.terminals.dom().contains(self.edges[e].0)
        &&& self.terminals[self.edges[e].0].io == TermType::OUT
        &&& self.terminals.dom().contains(self.edges[e].1)
        &&& self.terminals[self.edges[e].1].io == TermType::IN
    }

    /// No IN terminal has two incoming edges.
    pub open spec fn single_incoming(self) -> bool {
        forall|e1: u32, e2: u32|
            self.edges.dom().contains(e1) && self.edges.dom().contains(e2) && self.edges[e1].1 == self.edges[e2].1
                ==> e1 == e2
    }

    /// No iterator has two target blocks.
    pub open spec fn unique_targets(self) -> bool {
        forall|b1: BlockId, b2: BlockId|
            self.blocks.dom().contains(b1) && self.blocks.dom().contains(b2) && is_iterator_target(
                self.blocks[b1].block_type,
            ) && self.blocks[b1].block_type == self.blocks[b2].block_type ==> b1 == b2
    }

    /// The invariant of the editor.
    pub open spec fn wf(self) -> bool {
        &&& self.blocks.dom().finite()
        &&& self.terminals.dom().finite()
        &&& self.edges.dom().finite()
        &&& forall|b: BlockId| self.blocks.dom().contains(b) ==> self.block_ok(b)
        &&& forall|t: TerminalId| self.terminals.dom().contains(t) ==> self.terminal_ok(t)
        &&& forall|e: u32| self.edges.dom().contains(e) ==> self.edge_ok(e)
        &&& self.single_incoming()
        &&& self.unique_targets()
        &&& self.selected matches Some(b) ==> self.blocks.dom().contains(b)
    }

    /// Edge `e` exists and ends in terminal `t`.
    pub open spec fn leads_into(self, e: u32, t: TerminalId) -> bool {
        self.edges.dom().contains(e) && self.edges[e].1 == t
    }

    /// The OUT terminal that feeds IN terminal `t`, if there is one.
    pub open spec fn source_of(self, t: TerminalId) -> Option<TerminalId> {
        if exists|e: u32| self.leads_into(e, t) {
            Some(self.edges[choose|e: u32| self.leads_into(e, t)].0)
        } else {
            None
        }
    }

    /// Edge `e` exists and has terminal `t` as one of its ends.
    pub open spec fn touches(self, e: u32, t: TerminalId) -> bool {
        self.edges.dom().contains(e) && (self.edges[e].0 == t || self.edges[e].1 == t)
    }

    /// The edges that have terminal `t` as an end.
    pub open spec fn edges_at(self, t: TerminalId) -> Set<u32> {
        Set::new(|e: u32| self.touches(e, t))
    }

    /// Block `b` is the target of iterator `it_id`.
    pub open spec fn is_target_for(self, b: BlockId, it_id: i32) -> bool {
        self.blocks.dom().contains(b) && self.blocks[b].block_type == BlockType::TARGET(TargetType::ITERATOR(it_id))
    }

    /// Iterator `it_id` has a target block.
    pub open spec fn has_target(self, it_id: i32) -> bool {
        exists|b: BlockId| self.is_target_for(b, it_id)
    }

    /// The target block of iterator `it_id`, where it has one.
    pub open spec fn target_of(self, it_id: i32) -> BlockId {
        choose|b: BlockId| self.is_target_for(b, it_id)
    }

    /// `t` is an input of block `b` and carries the label `name`.
    pub open spec fn is_input_named(self, b: BlockId, t: TerminalId, name: Seq<char>) -> bool {
        self.blocks[b].in_idx@.contains(t) && self.terminals[t].name@ == name
    }

    /// Block `b` has an input with the label `name`.
    pub open spec fn has_input_named(self, b: BlockId, name: Seq<char>) -> bool {
        exists|t: TerminalId| self.is_input_named(b, t, name)
    }

    /// The input of block `b` with the label `name`, where it has one.
    pub open spec fn input_named(self, b: BlockId, name: Seq<char>) -> TerminalId {
        choose|t: TerminalId| self.is_input_named(b, t, name)
    }

    /// The terminals of block `b`, inputs and outputs together.
    pub open spec fn block_terminals(self, b: BlockId) -> Set<TerminalId> {
        self.blocks[b].in_idx@.to_set().union(self.blocks[b].out_idx@.to_set())
    }

    /// The view without block `b`: the block, its terminals and every edge at
    /// one of them are gone, and nothing is selected.
    pub open spec fn without_block(self, b: BlockId) -> EditorView {
        EditorView {
            blocks: self.blocks.remove(b),
            terminals: self.terminals.remove_keys(self.block_terminals(b)),
            edges: edges_clear_of(self.edges, self.block_terminals(b)),
            selected: None,
        }
    }

    /// The view with the memoized value of terminal `t` replaced.
    pub open spec fn with_val(self, t: TerminalId, v: Option<Scalar>) -> EditorView {
        EditorView { terminals: self.terminals.insert(t, Terminal { val: v, ..self.terminals[t] }), ..self }
    }
}

/// Rewriting a terminal keeps the invariant, as long as its direction and
/// owner stay, a constant's output keeps a value, and an input of an iterator
/// target keeps its label.
pub proof fn lemma_terminal_edit_wf(v: EditorView, w: EditorView, t: TerminalId)
    requires
        v.wf(),
        v.terminals.dom().contains(t),
        w.blocks == v.blocks,
        w.edges == v.edges,
        w.selected == v.selected,
        w.terminals == v.terminals.insert(t, w.terminals[t]),
        w.terminals[t].io == v.terminals[t].io,
        w.terminals[t].parent == v.terminals[t].parent,
        v.blocks[v.terminals[t].parent].block_type == BlockType::SOURCE(SourceType::CONSTANT)
            ==> w.terminals[t].val.is_some(),
        is_iterator_target(v.blocks[v.terminals[t].parent].block_type) ==> w.terminals[t].name@
            == v.terminals[t].name@,
    ensures
        w.wf(),
{
    assert(w.terminals.dom() =~= v.terminals.dom());
    assert forall|b: BlockId| w.blocks.dom().contains(b) implies w.block_ok(b) by {
        assert(v.block_ok(b));
        let blk = v.blocks[b];
        assert forall|i: int| 0 <= i < blk.in_idx@.len() implies w.is_input_of(#[trigger] blk.in_idx@[i], b) by {
            assert(v.is_input_of(blk.in_idx@[i], b));
        }
        assert forall|i: int| 0 <= i < blk.out_idx@.len() implies w.is_output_of(#[trigger] blk.out_idx@[i], b) by {
            assert(v.is_output_of(blk.out_idx@[i], b));
        }
        if blk.block_type == BlockType::SOURCE(SourceType::CONSTANT) {
            assert(v.is_output_of(blk.out_idx@[0], b));
        }
        if is_iterator_target(blk.block_type) {
            assert(v.input_names_distinct(b));
            assert forall|i: int, j: int| 0 <= i < j < blk.in_idx@.len() implies w.terminals[blk.in_idx@[i]].name@
                != w.terminals[blk.in_idx@[j]].name@ by {
                assert(v.is_input_of(blk.in_idx@[i], b));
                assert(v.is_input_of(blk.in_idx@[j], b));
            }
        }
    }
    assert forall|u: TerminalId| w.terminals.dom().contains(u) implies w.terminal_ok(u) by {
        assert(v.terminal_ok(u));
    }
    assert forall|e: u32| w.edges.dom().contains(e) implies w.edge_ok(e) by {
        assert(v.edge_ok(e));
    }
}

/// Rewriting a block keeps the invariant, as long as its kind and its lists
/// of terminals stay.
pub proof fn lemma_block_edit_wf(v: EditorView, w: EditorView, b: BlockId)
    requires
        v.wf(),
        v.blocks.dom().contains(b),
        w.terminals == v.terminals,
        w.edges == v.edges,
        w.selected == v.selected,
        w.blocks == v.blocks.insert(b, w.blocks[b]),
        w.blocks[b].block_type == v.blocks[b].block_type,
        w.blocks[b].in_idx@ == v.blocks[b].in_idx@,
        w.blocks[b].out_idx@ == v.blocks[b].out_idx@,
    ensures
        w.wf(),
{
    assert(w.blocks.dom() =~= v.blocks.dom());
    assert forall|c: BlockId| w.blocks.dom().contains(c) implies w.block_ok(c) by {
        assert(v.block_ok(c));
        if c == b && is_iterator_target(v.blocks[b].block_type) {
            assert(v.input_names_distinct(b));
        }
    }
    assert forall|u: TerminalId| w.terminals.dom().contains(u) implies w.terminal_ok(u) by {
        assert(v.terminal_ok(u));
    }
    assert forall|e: u32| w.edges.dom().contains(e) implies w.edge_ok(e) by {
        assert(v.edge_ok(e));
    }
    assert(w.unique_targets()) by {
        assert forall|b1: BlockId, b2: BlockId|
            w.blocks.dom().contains(b1) && w.blocks.dom().contains(b2) && is_iterator_target(
                w.blocks[b1].block_type,
            ) && w.blocks[b1].block_type == w.blocks[b2].block_type implies b1 == b2 by {
            assert(v.blocks[b1].block_type == w.blocks[b1].block_type);
            assert(v.blocks[b2].block_type == w.blocks[b2].block_type);
        }
    }
}

/// In a well-formed editor an iterator has at most one target block.
pub proof fn lemma_target_unique(v: EditorView, b: BlockId, it_id: i32)
    requires
        v.wf(),
        v.is_target_for(b, it_id),
    ensures
        v.has_target(it_id),
        v.target_of(it_id) == b,
{
    let c = v.target_of(it_id);
    assert(v.is_target_for(c, it_id));
}

/// In a well-formed editor an iterator target has at most one input of a
/// given label.
pub proof fn lemma_input_unique(v: EditorView, b: BlockId, t: TerminalId, name: Seq<char>)
    requires
        v.wf(),
        v.blocks.dom().contains(b),
        is_iterator_target(v.blocks[b].block_type),
        v.is_input_named(b, t, name),
    ensures
        v.has_input_named(b, name),
        v.input_named(b, name) == t,
{
    let c = v.input_named(b, name);
    assert(v.is_input_named(b, c, name));
    assert(v.block_ok(b));
    let ins = v.blocks[b].in_idx@;
    let i = choose|i: int| 0 <= i < ins.len() && ins[i] == t;
    let j = choose|j: int| 0 <= j < ins.len() && ins[j] == c;
    assert(v.input_names_distinct(b));
    if i < j {
        assert(v.terminals[ins[i]].name@ != v.terminals[ins[j]].name@);
    }
    if j < i {
        assert(v.terminals[ins[j]].name@ != v.terminals[ins[i]].name@);
    }
}

/// The edges that have no end in `gone`.
pub open spec fn edges_clear_of(edges: Map<u32, (TerminalId, TerminalId)>, gone: Set<TerminalId>) -> Map<
    u32,
    (TerminalId, TerminalId),
> {
    Map::new(
        |e: u32| edges.dom().contains(e) && !gone.contains(edges[e].0) && !gone.contains(edges[e].1),
        |e: u32| edges[e],
    )
}

/// Deleting a live block keeps the invariant.
pub proof fn lemma_without_block_wf(v: EditorView, b: BlockId)
    requires
        v.wf(),
        v.blocks.dom().contains(b),
    ensures
        v.without_block(b).wf(),
{
    let w = v.without_block(b);
    let gone = v.block_terminals(b);
    assert(w.edges.dom().subset_of(v.edges.dom()));
    vstd::set_lib::lemma_len_subset(w.edges.dom(), v.edges.dom());
    assert(w.terminals.dom().subset_of(v.terminals.dom()));
    vstd::set_lib::lemma_len_subset(w.terminals.dom(), v.terminals.dom());
    assert(v.block_ok(b));
    assert forall|t: TerminalId| w.terminals.dom().contains(t) implies w.terminal_ok(t) && v.terminals[t].parent
        != b by {
        assert(v.terminal_ok(t));
        if v.terminals[t].parent == b {
            if v.terminals[t].io == TermType::IN {
                assert(v.blocks[b].in_idx@.to_set().contains(t));
            } else {
                assert(v.blocks[b].out_idx@.to_set().contains(t));
            }
            assert(gone.contains(t));
        }
    }
    assert forall|c: BlockId| w.blocks.dom().contains(c) implies w.block_ok(c) by {
        assert(v.block_ok(c));
        let blk = v.blocks[c];
        assert forall|i: int| 0 <= i < blk.in_idx@.len() implies w.is_input_of(#[trigger] blk.in_idx@[i], c) by {
            let t = blk.in_idx@[i];
            assert(v.is_input_of(t, c));
            if gone.contains(t) {
                if v.blocks[b].in_idx@.to_set().contains(t) {
                    let j = choose|j: int| 0 <= j < v.blocks[b].in_idx@.len() && v.blocks[b].in_idx@[j] == t;
                    assert(v.is_input_of(v.blocks[b].in_idx@[j], b));
                } else {
                    let j = choose|j: int| 0 <= j < v.blocks[b].out_idx@.len() && v.blocks[b].out_idx@[j] == t;
                    assert(v.is_output_of(v.blocks[b].out_idx@[j], b));
                }
            }
        }
        assert forall|i: int| 0 <= i < blk.out_idx@.len() implies w.is_output_of(#[trigger] blk.out_idx@[i], c) by {
            let t = blk.out_idx@[i];
            assert(v.is_output_of(t, c));
            if gone.contains(t) {
                if v.blocks[b].in_idx@.to_set().contains(t) {
                    let j = choose|j: int| 0 <= j < v.blocks[b].in_idx@.len() && v.blocks[b].in_idx@[j] == t;
                    assert(v.is_input_of(v.blocks[b].in_idx@[j], b));
                } else {
                    let j = choose|j: int| 0 <= j < v.blocks[b].out_idx@.len() && v.blocks[b].out_idx@[j] == t;
                    assert(v.is_output_of(v.blocks[b].out_idx@[j], b));
                }
            }
        }
        if blk.block_type == BlockType::SOURCE(SourceType::CONSTANT) {
            assert(w.is_output_of(blk.out_idx@[0], c));
        }
        if is_iterator_target(blk.block_type) {
            assert(v.input_names_distinct(c));
            assert forall|i: int, j: int| 0 <= i < j < blk.in_idx@.len() implies w.terminals[blk.in_idx@[i]].name@
                != w.terminals[blk.in_idx@[j]].name@ by {
                assert(w.is_input_of(blk.in_idx@[i], c));
                assert(w.is_input_of(blk.in_idx@[j], c));
            }
        }
    }
    assert forall|e: u32| w.edges.dom().contains(e) implies w.edge_ok(e) by {
        assert(v.edge_ok(e));
    }
}

/// Where no IN terminal has two incoming edges, an edge into `t` names the
/// source of `t`.
pub proof fn lemma_source_of(v: EditorView, e: u32, t: TerminalId)
    requires
        v.single_incoming(),
        v.leads_into(e, t),
    ensures
        v.source_of(t) == Some(v.edges[e].0),
{
    let c = choose|c: u32| v.leads_into(c, t);
    assert(v.leads_into(c, t));
    assert(c == e);
}

/// Without an edge into `t`, `t` has no source.
pub proof fn lemma_no_source(v: EditorView, t: TerminalId)
    requires
        forall|e: u32| !v.leads_into(e, t),
    ensures
        v.source_of(t).is_none(),
{
}

/// Dropping edges keeps the invariant.
pub proof fn lemma_fewer_edges_wf(v: EditorView, w: EditorView)
    requires
        v.wf(),
        w.blocks == v.blocks,
        w.terminals == v.terminals,
        w.selected == v.selected,
        w.edges.dom().subset_of(v.edges.dom()),
        forall|e: u32| w.edges.dom().contains(e) ==> w.edges[e] == v.edges[e],
    ensures
        w.wf(),
{
    vstd::set_lib::lemma_len_subset(w.edges.dom(), v.edges.dom());
    assert forall|b: BlockId| w.blocks.dom().contains(b) implies w.block_ok(b) by {
        assert(v.block_ok(b));
    }
    assert forall|t: TerminalId| w.terminals.dom().contains(t) implies w.terminal_ok(t) by {
        assert(v.terminal_ok(t));
    }
    assert forall|e: u32| w.edges.dom().contains(e) implies w.edge_ok(e) by {
        assert(v.edge_ok(e));
    }
}

/// The IN terminal at which edge `e` ends, as a mathematical integer.
pub open spec fn edge_target(edges: Map<u32, (TerminalId, TerminalId)>) -> spec_fn(u32) -> int {
    |e: u32| edges[e].1 as int
}

/// Where no edge leads into the IN terminal `in_t`, there is room for one
/// more edge: every edge ends in an IN terminal of its own, and neither
/// `in_t` nor the OUT terminal `out_t` is among them, so there are at least
/// two edges fewer than 32 bits can number.
pub proof fn lemma_room_for_an_edge(v: EditorView, out_t: TerminalId, in_t: TerminalId)
    requires
        v.wf(),
        v.terminals.dom().contains(out_t),
        v.terminals[out_t].io == TermType::OUT,
        v.terminals.dom().contains(in_t),
        v.terminals[in_t].io == TermType::IN,
        forall|e: u32| !v.leads_into(e, in_t),
    ensures
        v.edges.dom().len() < u32::MAX,
{
    let f = edge_target(v.edges);
    let ends = v.edges.dom().map(f);
    assert(vstd::relations::injective_on(f, v.edges.dom())) by {
        assert forall|e1: u32, e2: u32|
            v.edges.dom().contains(e1) && v.edges.dom().contains(e2) && #[trigger] f(e1) == #[trigger] f(
                e2,
            ) implies e1 == e2 by {
            assert(v.edges[e1].1 == v.edges[e2].1);
        }
    }
    vstd::set_lib::lemma_map_size(v.edges.dom(), ends, f);
    let all = vstd::set_lib::set_int_range(0, 0x1_0000_0000);
    vstd::set_lib::lemma_int_range(0, 0x1_0000_0000);
    let room = all.remove(in_t as int).remove(out_t as int);
    assert(all.contains(in_t as int));
    assert(all.remove(in_t as int).contains(out_t as int));
    assert(room.len() == 0x1_0000_0000 - 2);
    assert(ends.subset_of(room)) by {
        assert forall|y: int| ends.contains(y) implies room.contains(y) by {
            let e = choose|e: u32| v.edges.dom().contains(e) && f(e) == y;
            assert(v.edge_ok(e));
            assert(!v.leads_into(e, in_t));
        }
    }
    vstd::set_lib::lemma_len_subset(ends, room);
}

/// The empty editor.
pub open spec fn empty_view() -> EditorView {
    EditorView { blocks: Map::empty(), terminals: Map::empty(), edges: Map::empty(), selected: None }
}

} // verus!
