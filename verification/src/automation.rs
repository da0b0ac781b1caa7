//! The automation editor: a graph of blocks and terminals that binds scalar
//! sources through effects to display probes and iterator parameters.

use vstd::prelude::*;
use crate::blocks::Block;
use crate::blocks::BlockArchetype;
use crate::blocks::BlockId;
use crate::blocks::BlockType;
use crate::blocks::EffectType;
use crate::blocks::Point;
use crate::blocks::Scalar;
use crate::blocks::SourceType;
use crate::blocks::TargetType;
use crate::blocks::TermType;
use crate::blocks::Terminal;
use crate::blocks::TerminalId;
use crate::editor_view::EditorView;
use crate::editor_view::edges_clear_of;
use crate::editor_view::is_iterator_target;
use crate::editor_view::lemma_block_edit_wf;
use crate::editor_view::lemma_fewer_edges_wf;
use crate::editor_view::lemma_input_unique;
use crate::editor_view::lemma_no_source;
use crate::editor_view::lemma_room_for_an_edge;
use crate::editor_view::lemma_source_of;
use crate::editor_view::lemma_target_unique;
use crate::editor_view::lemma_terminal_edit_wf;
use crate::editor_view::lemma_without_block_wf;
use crate::evaluation::InputsOutcome;
use crate::evaluation::Outcome;
use crate::evaluation::ProcessError;
use crate::evaluation::all_some;
use crate::evaluation::asks_effect;
use crate::evaluation::effect_accepts;
use crate::evaluation::effect_model;
use crate::evaluation::eval;
use crate::evaluation::eval_inputs;
use crate::evaluation::is_pure;
use crate::evaluation::keeps_val;
use crate::evaluation::lemma_effect_model;
use crate::evaluation::lemma_inputs_error_stays;
use crate::evaluation::lemma_vals_changed_trans;
use crate::evaluation::lemma_vals_changed_wf;
use crate::evaluation::lemma_with_val_changed;
use crate::evaluation::lemma_with_vals_changed;
use crate::evaluation::nones;
use crate::evaluation::set_vals;
use crate::evaluation::somes;
use crate::evaluation::unwrapped;
use crate::evaluation::vals_changed_only;
use crate::evaluation::with_vals;
use crate::graph_store::BlockMap;
use crate::graph_store::TerminalGraph;
use crate::graph_store::block_slots;
use crate::graph_store::edge_touches;
use crate::graph_store::edges_avoiding;
use crate::graph_store::far_end;
use crate::graph_store::graph_add_edge;
use crate::graph_store::graph_add_node;
use crate::graph_store::graph_edge_count;
use crate::graph_store::graph_edge_list;
use crate::graph_store::graph_edges;
use crate::graph_store::graph_edges_of;
use crate::graph_store::graph_first_neighbor;
use crate::graph_store::graph_new;
use crate::graph_store::graph_node_count;
use crate::graph_store::graph_remove_edge;
use crate::graph_store::graph_remove_node;
use crate::graph_store::graph_terminal;
use crate::graph_store::graph_terminal_mut;
use crate::graph_store::graph_terminals;
use crate::graph_store::slots_get;
use crate::graph_store::slots_get_mut;
use crate::graph_store::slots_insert;
use crate::graph_store::slots_keys;
use crate::graph_store::slots_len;
use crate::graph_store::slots_new;
use crate::graph_store::slots_remove;

verus! {

/// The editor of the automation graph.
pub struct AutomationEditor {
    blocks: BlockMap,
    graph: TerminalGraph,
    selected_block: Option<BlockId>,
}

/// The terminals that a new block brings: `ids[i]` is fresh and carries the
/// `i`-th label, the given direction, the new block as parent, and `val`.
pub open spec fn terminals_added(
    old_v: EditorView,
    new_v: EditorView,
    ids: Seq<TerminalId>,
    labels: Seq<String>,
    io: TermType,
    parent: BlockId,
    val: Option<Scalar>,
) -> bool {
    &&& ids.len() == labels.len()
    &&& forall|i: int|
        0 <= i < ids.len() ==> !old_v.terminals.dom().contains(#[trigger] ids[i]) && new_v.terminals.dom().contains(
            ids[i],
        ) && new_v.terminals[ids[i]] == (Terminal { pos: Point::origin_spec(), name: labels[i], io, parent, val })
}

/// How `add_block` changes the editor: one new block `id` made after the
/// archetype, placed at `pos`, with one fresh terminal per label; everything
/// that was there stays as it was.
pub open spec fn block_added(old_v: EditorView, new_v: EditorView, arch: BlockArchetype, pos: Point, id: BlockId) -> bool {
    let blk = new_v.blocks[id];
    &&& !old_v.blocks.dom().contains(id)
    &&& new_v.blocks == old_v.blocks.insert(id, blk)
    &&& blk.name == arch.name
    &&& blk.block_type == arch.block_type
    &&& blk.pos == pos
    &&& terminals_added(old_v, new_v, blk.in_idx@, arch.inputs@, TermType::IN, id, None)
    &&& terminals_added(
        old_v,
        new_v,
        blk.out_idx@,
        arch.outputs@,
        TermType::OUT,
        id,
        if arch.block_type == BlockType::SOURCE(SourceType::CONSTANT) {
            Some(Scalar { bits: 0 })
        } else {
            None
        },
    )
    &&& new_v.terminals.dom() == old_v.terminals.dom().union(blk.in_idx@.to_set()).union(blk.out_idx@.to_set())
    &&& forall|t: TerminalId| old_v.terminals.dom().contains(t) ==> new_v.terminals[t] == old_v.terminals[t]
    &&& new_v.edges == old_v.edges
    &&& new_v.selected == old_v.selected
}

/// How a successful `connect` changes the editor: every edge that touched
/// `in_t` is gone, one edge from `out_t` to `in_t` is new, and it is the only
/// edge at `in_t`. Blocks, terminals and the selection stay as they were.
pub open spec fn connected(old_v: EditorView, new_v: EditorView, out_t: TerminalId, in_t: TerminalId) -> bool {
    &&& new_v.blocks == old_v.blocks
    &&& new_v.terminals == old_v.terminals
    &&& new_v.selected == old_v.selected
    &&& exists|e: u32|
        !edges_avoiding(old_v.edges, in_t).dom().contains(e) && new_v.edges == edges_avoiding(old_v.edges, in_t).insert(
            e,
            (out_t, in_t),
        ) && new_v.edges_at(in_t) == set![e]
    &&& new_v.source_of(in_t) == Some(out_t)
}

/// Removes from the graph every edge that has `t` as an end.
fn remove_edges_of(graph: &mut TerminalGraph, t: TerminalId)
    requires
        graph_edges(*old(graph)).dom().finite(),
    ensures
        graph_edges(*final(graph)) == edges_avoiding(graph_edges(*old(graph)), t),
        graph_edges(*final(graph)).dom().finite(),
        graph_terminals(*final(graph)) == graph_terminals(*old(graph)),
{
    let ids = graph_edges_of(graph, t);
    let ghost e0 = graph_edges(*graph);
    let ghost g0 = graph_terminals(*graph);
    let mut i: usize = 0;
    while i < ids.len()
        invariant
            i <= ids@.len(),
            graph_terminals(*graph) == g0,
            graph_edges(*graph) == e0.remove_keys(ids@.take(i as int).to_set()),
            graph_edges(*graph).dom().finite(),
        decreases ids@.len() - i,
    {
        let ghost before = graph_edges(*graph);
        graph_remove_edge(graph, ids[i]);
        proof {
            let done = ids@.take(i as int).to_set();
            let next = ids@.take(i + 1).to_set();
            assert(ids@.take(i + 1) == ids@.take(i as int).push(ids@[i as int]));
            assert forall|e: u32| next.contains(e) <==> done.contains(e) || e == ids@[i as int] by {
                if done.contains(e) {
                    let j = choose|j: int| 0 <= j < ids@.take(i as int).len() && ids@.take(i as int)[j] == e;
                    assert(ids@.take(i + 1)[j] == e);
                }
                if e == ids@[i as int] {
                    assert(ids@.take(i + 1)[i as int] == e);
                }
            }
            assert(graph_edges(*graph) =~= e0.remove_keys(next));
        }
        i += 1;
    }
    proof {
        assert(ids@.take(ids@.len() as int) == ids@);
        assert(graph_edges(*graph) =~= edges_avoiding(e0, t));
    }
}

/// The bit pattern of 350.0, the horizontal position at which a new iterator
/// target is placed.
pub const TARGET_SLOT_X: u32 = 0x43AF_0000;

/// The bit pattern of 50.0, the vertical position at which a new iterator
/// target is placed.
pub const TARGET_SLOT_Y: u32 = 0x4248_0000;

/// The position at which a new iterator target is placed.
pub open spec fn target_slot() -> Point {
    Point { x: Scalar { bits: TARGET_SLOT_X }, y: Scalar { bits: TARGET_SLOT_Y } }
}

/// Block `b` is new: a target of iterator `it_id` at the default slot, labelled
/// `it_name`, whose only terminal is the fresh input `t`, labelled
/// `param_name`. Everything that was there stays as it was.
pub open spec fn target_made(
    old_v: EditorView,
    new_v: EditorView,
    it_id: i32,
    it_name: String,
    param_name: String,
    t: TerminalId,
    b: BlockId,
) -> bool {
    let nb = new_v.blocks[b];
    &&& !old_v.blocks.dom().contains(b)
    &&& new_v.blocks == old_v.blocks.insert(b, nb)
    &&& nb.block_type == BlockType::TARGET(TargetType::ITERATOR(it_id))
    &&& nb.pos == target_slot()
    &&& nb.name == it_name
    &&& nb.in_idx@ == seq![t]
    &&& nb.out_idx@ == Seq::<TerminalId>::empty()
    &&& !old_v.terminals.dom().contains(t)
    &&& new_v.terminals == old_v.terminals.insert(
        t,
        Terminal { pos: Point::origin_spec(), name: param_name, io: TermType::IN, parent: b, val: None },
    )
}

/// How `update_target` changes the editor and what it returns.
///
/// Where iterator `it_id` has a target block, the block takes the label
/// `it_name`; if one of its inputs is labelled like `param_name`, that input
/// is returned and nothing else changes, otherwise one fresh input with that
/// label is appended and returned. Where it has none, one target block is
/// made at the default slot, with `param_name` as its only input.
pub open spec fn target_updated(
    old_v: EditorView,
    new_v: EditorView,
    it_id: i32,
    it_name: String,
    param_name: String,
    t: TerminalId,
) -> bool {
    &&& new_v.edges == old_v.edges
    &&& new_v.selected == old_v.selected
    &&& if old_v.has_target(it_id) {
        let b = old_v.target_of(it_id);
        let blk = old_v.blocks[b];
        let nb = new_v.blocks[b];
        &&& new_v.blocks == old_v.blocks.insert(b, nb)
        &&& nb.block_type == blk.block_type
        &&& nb.pos == blk.pos
        &&& nb.out_idx == blk.out_idx
        &&& nb.name == (if blk.name@ == it_name@ {
            blk.name
        } else {
            it_name
        })
        &&& if old_v.has_input_named(b, param_name@) {
            &&& t == old_v.input_named(b, param_name@)
            &&& nb.in_idx == blk.in_idx
            &&& new_v.terminals == old_v.terminals
        } else {
            &&& !old_v.terminals.dom().contains(t)
            &&& nb.in_idx@ == blk.in_idx@.push(t)
            &&& new_v.terminals == old_v.terminals.insert(
                t,
                Terminal { pos: Point::origin_spec(), name: param_name, io: TermType::IN, parent: b, val: None },
            )
        }
    } else {
        exists|b: BlockId| target_made(old_v, new_v, it_id, it_name, param_name, t, b)
    }
}

/// The values out of their `Some`s, or `None` where one is absent.
fn unwrap_all(args: &Vec<Option<Scalar>>) -> (r: Option<Vec<Scalar>>)
    ensures
        r.is_some() == all_some(args@),
        r.is_some() ==> r.unwrap()@ == unwrapped(args@),
{
    let mut vals: Vec<Scalar> = Vec::new();
    let mut i: usize = 0;
    while i < args.len()
        invariant
            i <= args@.len(),
            vals@.len() == i,
            forall|j: int| 0 <= j < i ==> (#[trigger] args@[j]).is_some() && vals@[j] == args@[j].unwrap(),
        decreases args@.len() - i,
    {
        match args[i] {
            Some(x) => {
                vals.push(x);
            },
            None => {
                proof {
                    assert(!args@[i as int].is_some());
                }
                return None;
            },
        }
        i += 1;
    }
    proof {
        assert(vals@ =~= unwrapped(args@));
    }
    Some(vals)
}

/// Gives `ids[i]` the value `vals[i]`, for each `i` in order.
fn write_vals(graph: &mut TerminalGraph, ids: &Vec<TerminalId>, vals: &Vec<Option<Scalar>>)
    requires
        ids@.len() == vals@.len(),
        forall|i: int| 0 <= i < ids@.len() ==> graph_terminals(*old(graph)).dom().contains(#[trigger] ids@[i]),
    ensures
        graph_terminals(*final(graph)) == set_vals(graph_terminals(*old(graph)), ids@, vals@),
        graph_edges(*final(graph)) == graph_edges(*old(graph)),
{
    let ghost g0 = graph_terminals(*graph);
    let mut i: usize = 0;
    proof {
        assert(ids@.take(0) =~= Seq::<TerminalId>::empty());
    }
    while i < ids.len()
        invariant
            i <= ids@.len(),
            ids@.len() == vals@.len(),
            graph_edges(*graph) == graph_edges(*old(graph)),
            graph_terminals(*graph) == set_vals(g0, ids@.take(i as int), vals@.take(i as int)),
            graph_terminals(*graph).dom() == g0.dom(),
            forall|j: int| 0 <= j < ids@.len() ==> g0.dom().contains(#[trigger] ids@[j]),
        decreases ids@.len() - i,
    {
        let t = graph_terminal_mut(graph, ids[i]);
        t.val = vals[i];
        proof {
            let a = ids@.take(i + 1);
            let b = vals@.take(i + 1);
            assert(a.drop_last() == ids@.take(i as int));
            assert(b.drop_last() == vals@.take(i as int));
            assert(graph_terminals(*graph) == set_vals(g0, a, b));
            assert(graph_terminals(*graph).dom() =~= g0.dom());
        }
        i += 1;
    }
    proof {
        assert(ids@.take(ids@.len() as int) == ids@);
        assert(vals@.take(vals@.len() as int) == vals@);
    }
}

/// `n` absent values.
fn nones_vec(n: usize) -> (r: Vec<Option<Scalar>>)
    ensures
        r@ == nones(n as nat),
{
    let mut r: Vec<Option<Scalar>> = Vec::new();
    let mut i: usize = 0;
    while i < n
        invariant
            i <= n,
            r@.len() == i,
            forall|j: int| 0 <= j < i ==> (#[trigger] r@[j]).is_none(),
        decreases n - i,
    {
        r.push(None);
        i += 1;
    }
    proof {
        assert(r@ =~= nones(n as nat));
    }
    r
}

/// The values, each put into a `Some`.
fn somes_vec(vals: &Vec<Scalar>) -> (r: Vec<Option<Scalar>>)
    ensures
        r@ == somes(vals@),
{
    let mut r: Vec<Option<Scalar>> = Vec::new();
    let mut i: usize = 0;
    while i < vals.len()
        invariant
            i <= vals@.len(),
            r@.len() == i,
            forall|j: int| 0 <= j < i ==> #[trigger] r@[j] == Some(vals@[j]),
        decreases vals@.len() - i,
    {
        r.push(Some(vals[i]));
        i += 1;
    }
    proof {
        assert(r@ =~= somes(vals@));
    }
    r
}

/// Input `t` of block `b` waits for a value to display: `b` is a display
/// probe other than `skip`, and `t` holds no value.
pub open spec fn awaits_display_at(v: EditorView, b: BlockId, t: TerminalId, skip: Option<BlockId>) -> bool {
    &&& v.blocks.dom().contains(b)
    &&& v.blocks[b].block_type == BlockType::TARGET(TargetType::DISPLAY)
    &&& Some(b) != skip
    &&& v.blocks[b].in_idx@.contains(t)
    &&& v.terminals[t].val.is_none()
}

/// Terminal `t` is the input of a display probe other than `skip` and holds
/// no value.
pub open spec fn awaits_display(v: EditorView, t: TerminalId, skip: Option<BlockId>) -> bool {
    exists|b: BlockId| awaits_display_at(v, b, t, skip)
}

/// A copy of a list of handles.
fn copy_ids(v: &Vec<TerminalId>) -> (r: Vec<TerminalId>)
    ensures
        r@ == v@,
{
    let mut r: Vec<TerminalId> = Vec::new();
    let mut i: usize = 0;
    while i < v.len()
        invariant
            i <= v@.len(),
            r@ == v@.take(i as int),
        decreases v@.len() - i,
    {
        r.push(v[i]);
        proof {
            assert(v@.take(i + 1) == v@.take(i as int).push(v@[i as int]));
        }
        i += 1;
    }
    proof {
        assert(v@.take(v@.len() as int) == v@);
    }
    r
}

/// Removes the listed terminals from the graph, each after the edges at it.
fn remove_terminals(graph: &mut TerminalGraph, ids: &Vec<TerminalId>)
    requires
        graph_edges(*old(graph)).dom().finite(),
    ensures
        graph_terminals(*final(graph)) == graph_terminals(*old(graph)).remove_keys(ids@.to_set()),
        graph_edges(*final(graph)) == edges_clear_of(graph_edges(*old(graph)), ids@.to_set()),
{
    let ghost e0 = graph_edges(*graph);
    let ghost g0 = graph_terminals(*graph);
    let mut i: usize = 0;
    while i < ids.len()
        invariant
            i <= ids@.len(),
            graph_terminals(*graph) == g0.remove_keys(ids@.take(i as int).to_set()),
            graph_edges(*graph) == edges_clear_of(e0, ids@.take(i as int).to_set()),
            graph_edges(*graph).dom().finite(),
            e0.dom().finite(),
        decreases ids@.len() - i,
    {
        let t = ids[i];
        remove_edges_of(graph, t);
        let ghost mid = graph_edges(*graph);
        graph_remove_node(graph, t);
        proof {
            let done = ids@.take(i as int).to_set();
            let next = ids@.take(i + 1).to_set();
            assert(ids@.take(i + 1) == ids@.take(i as int).push(t));
            assert forall|x: TerminalId| next.contains(x) <==> done.contains(x) || x == t by {
                if done.contains(x) {
                    let j = choose|j: int| 0 <= j < ids@.take(i as int).len() && ids@.take(i as int)[j] == x;
                    assert(ids@.take(i + 1)[j] == x);
                }
                if x == t {
                    assert(ids@.take(i + 1)[i as int] == x);
                }
            }
            assert(graph_terminals(*graph) =~= g0.remove_keys(next));
            assert(graph_edges(*graph) =~= edges_clear_of(e0, next));
            assert(graph_edges(*graph).dom().subset_of(e0.dom()));
            vstd::set_lib::lemma_len_subset(graph_edges(*graph).dom(), e0.dom());
        }
        i += 1;
    }
    proof {
        assert(ids@.take(ids@.len() as int) == ids@);
    }
}

/// The labels are pairwise different.
pub open spec fn labels_distinct(labels: Seq<String>) -> bool {
    forall|i: int, j: int| 0 <= i < j < labels.len() ==> labels[i]@ != labels[j]@
}

/// Adds one terminal per label to the graph and returns their handles in the
/// order of the labels.
fn add_terminals(
    graph: &mut TerminalGraph,
    labels: &Vec<String>,
    io: TermType,
    parent: BlockId,
    val: Option<Scalar>,
) -> (ids: Vec<TerminalId>)
    requires
        graph_terminals(*old(graph)).dom().finite(),
        graph_terminals(*old(graph)).dom().len() + labels@.len() < u32::MAX,
    ensures
        graph_terminals(*final(graph)).dom().finite(),
        graph_terminals(*final(graph)).dom().len() == graph_terminals(*old(graph)).dom().len() + labels@.len(),
        graph_edges(*final(graph)) == graph_edges(*old(graph)),
        ids@.len() == labels@.len(),
        ids@.no_duplicates(),
        forall|i: int|
            0 <= i < ids@.len() ==> !graph_terminals(*old(graph)).dom().contains(#[trigger] ids@[i])
                && graph_terminals(*final(graph)).dom().contains(ids@[i]) && graph_terminals(*final(graph))[ids@[i]] == (
            Terminal { pos: Point::origin_spec(), name: labels@[i], io, parent, val }),
        graph_terminals(*final(graph)).dom() == graph_terminals(*old(graph)).dom().union(ids@.to_set()),
        forall|t: TerminalId|
            graph_terminals(*old(graph)).dom().contains(t) ==> graph_terminals(*final(graph))[t] == graph_terminals(
                *old(graph),
            )[t],
{
    let mut ids: Vec<TerminalId> = Vec::new();
    let mut i: usize = 0;
    let ghost g0 = graph_terminals(*graph);
    let ghost e0 = graph_edges(*graph);
    while i < labels.len()
        invariant
            i <= labels@.len(),
            ids@.len() == i,
            g0.dom().finite(),
            graph_terminals(*graph).dom().finite(),
            graph_terminals(*graph).dom().len() == g0.dom().len() + i,
            g0.dom().len() + labels@.len() < u32::MAX,
            graph_edges(*graph) == e0,
            ids@.no_duplicates(),
            forall|j: int|
                0 <= j < ids@.len() ==> !g0.dom().contains(#[trigger] ids@[j]) && graph_terminals(*graph).dom().contains(
                    ids@[j],
                ) && graph_terminals(*graph)[ids@[j]] == (Terminal {
                    pos: Point::origin_spec(),
                    name: labels@[j],
                    io,
                    parent,
                    val,
                }),
            graph_terminals(*graph).dom() == g0.dom().union(ids@.to_set()),
            forall|t: TerminalId| g0.dom().contains(t) ==> graph_terminals(*graph)[t] == g0[t],
        decreases labels@.len() - i,
    {
        let ghost before = graph_terminals(*graph);
        let ghost ids_before = ids@;
        let term = Terminal::new(labels[i].clone(), io, parent, val);
        let ghost term_g = term;
        let t = graph_add_node(graph, term);
        ids.push(t);
        proof {
            let after = graph_terminals(*graph);
            assert(after == before.insert(t, term_g));
            assert(after.dom() =~= before.dom().insert(t));
            assert(ids@ == ids_before.push(t));
            assert(!ids_before.contains(t));
            assert forall|j: int| 0 <= j < ids@.len() implies !g0.dom().contains(#[trigger] ids@[j])
                && after.dom().contains(ids@[j]) && after[ids@[j]] == (Terminal {
                pos: Point::origin_spec(),
                name: labels@[j],
                io,
                parent,
                val,
            }) by {
                if j < i {
                    assert(ids@[j] == ids_before[j]);
                    assert(before.dom().contains(ids_before[j]));
                }
            }
            assert forall|u: TerminalId| after.dom().contains(u) <==> g0.dom().contains(u) || ids@.contains(u) by {
                assert(before.dom().contains(u) <==> g0.dom().contains(u) || ids_before.to_set().contains(u));
                if ids_before.contains(u) {
                    let j = choose|j: int| 0 <= j < ids_before.len() && ids_before[j] == u;
                    assert(ids@[j] == u);
                }
                if u == t {
                    assert(ids@[i as int] == u);
                }
                if ids@.contains(u) {
                    let j = choose|j: int| 0 <= j < ids@.len() && ids@[j] == u;
                    if j < i {
                        assert(ids_before[j] == u);
                    }
                }
            }
            assert(after.dom() =~= g0.dom().union(ids@.to_set()));
            assert forall|u: TerminalId| g0.dom().contains(u) implies after[u] == g0[u] by {
                assert(before.dom().contains(u));
            }
        }
        i += 1;
    }
    ids
}

impl Default for AutomationEditor {
    /// An editor without blocks.
    fn default() -> (ed: AutomationEditor)
        ensures
            ed@ == crate::editor_view::empty_view(),
            ed@.wf(),
    {
        AutomationEditor::new()
    }
}

impl AutomationEditor {
    /// The editor's contents as plain mathematics.
    pub closed spec fn view(&self) -> EditorView {
        EditorView {
            blocks: block_slots(self.blocks),
            terminals: graph_terminals(self.graph),
            edges: graph_edges(self.graph),
            selected: self.selected_block,
        }
    }

    /// An editor without blocks.
    pub fn new() -> (ed: AutomationEditor)
        ensures
            ed@ == crate::editor_view::empty_view(),
            ed@.wf(),
    {
        let ed = AutomationEditor {
            blocks: slots_new(),
            graph: graph_new(),
            selected_block: None,
        };
        assert(ed@.blocks =~= Map::empty());
        assert(ed@.terminals =~= Map::empty());
        assert(ed@.edges =~= Map::empty());
        ed
    }

    /// Instantiates a block from an archetype at `pos`: one graph node per
    /// declared input and output, the output of a constant starting at zero.
    /// Iterator targets are made by `update_target`, which keeps them unique.
    pub fn add_block(&mut self, arch: &BlockArchetype, pos: Point) -> (id: BlockId)
        requires
            old(self)@.wf(),
            arch.wf(),
            !is_iterator_target(arch.block_type),
            old(self)@.blocks.dom().len() < 0xffff_fffe,
            old(self)@.terminals.dom().len() + arch.inputs@.len() + arch.outputs@.len() < u32::MAX,
        ensures
            final(self)@.wf(),
            block_added(old(self)@, final(self)@, *arch, pos, id),
    {
        self.insert_block(arch, pos)
    }

    /// Connects an OUT terminal to an IN terminal. Does nothing unless
    /// `out_t` is a live OUT terminal and `in_t` a live IN terminal; otherwise
    /// any edge into `in_t` is removed first, so that the new edge is the only
    /// one there. Tells whether the connection was made.
    pub fn connect(&mut self, out_t: TerminalId, in_t: TerminalId) -> (done: bool)
        requires
            old(self)@.wf(),
        ensures
            final(self)@.wf(),
            done == (old(self)@.terminals.dom().contains(out_t) && old(self)@.terminals[out_t].io == TermType::OUT
                && old(self)@.terminals.dom().contains(in_t) && old(self)@.terminals[in_t].io == TermType::IN),
            !done ==> final(self)@ == old(self)@,
            done ==> connected(old(self)@, final(self)@, out_t, in_t),
    {
        let out_ok = match graph_terminal(&self.graph, out_t) {
            Some(t) => t.io == TermType::OUT,
            None => false,
        };
        let in_ok = match graph_terminal(&self.graph, in_t) {
            Some(t) => t.io == TermType::IN,
            None => false,
        };
        if !(out_ok && in_ok) {
            return false;
        }
        remove_edges_of(&mut self.graph, in_t);
        proof {
            let mid = self@;
            lemma_fewer_edges_wf(old(self)@, mid);
            lemma_room_for_an_edge(mid, out_t, in_t);
        }
        let ghost mid = self@;
        let e = graph_add_edge(&mut self.graph, out_t, in_t);
        proof {
            let old_v = old(self)@;
            let new_v = self@;
            assert(new_v.edges == mid.edges.insert(e, (out_t, in_t)));
            assert forall|b: BlockId| new_v.blocks.dom().contains(b) implies new_v.block_ok(b) by {
                assert(mid.block_ok(b));
            }
            assert forall|t: TerminalId| new_v.terminals.dom().contains(t) implies new_v.terminal_ok(t) by {
                assert(mid.terminal_ok(t));
            }
            assert forall|x: u32| new_v.edges.dom().contains(x) implies new_v.edge_ok(x) by {
                if x != e {
                    assert(mid.edge_ok(x));
                }
            }
            assert forall|e1: u32, e2: u32|
                new_v.edges.dom().contains(e1) && new_v.edges.dom().contains(e2) && new_v.edges[e1].1
                    == new_v.edges[e2].1 implies e1 == e2 by {
                if e1 != e && e2 != e {
                    assert(mid.edges.dom().contains(e1) && mid.edges.dom().contains(e2));
                } else if e1 != e {
                    assert(edge_touches(old_v.edges, e1, in_t));
                } else if e2 != e {
                    assert(edge_touches(old_v.edges, e2, in_t));
                }
            }
            assert(new_v.edges_at(in_t) =~= set![e]) by {
                assert forall|x: u32| new_v.touches(x, in_t) implies x == e by {
                    if x != e {
                        assert(edge_touches(old_v.edges, x, in_t));
                    }
                }
                assert(new_v.touches(e, in_t));
            }
            assert(new_v.leads_into(e, in_t));
            lemma_source_of(new_v, e, in_t);
        }
        true
    }

    /// Removes every edge that has terminal `t` as an end.
    pub fn disconnect_terminal(&mut self, t: TerminalId)
        requires
            old(self)@.wf(),
        ensures
            final(self)@.wf(),
            final(self)@ == (EditorView { edges: edges_avoiding(old(self)@.edges, t), ..old(self)@ }),
    {
        remove_edges_of(&mut self.graph, t);
        proof {
            lemma_fewer_edges_wf(old(self)@, self@);
        }
    }

    /// Deletes a block: first the edges at its terminals, then the terminals,
    /// then the block itself, after clearing the selection. Does nothing
    /// where no block has the handle. Tells whether a block was deleted.
    pub fn delete_block(&mut self, id: BlockId) -> (deleted: bool)
        requires
            old(self)@.wf(),
        ensures
            final(self)@.wf(),
            deleted == old(self)@.blocks.dom().contains(id),
            !deleted ==> final(self)@ == old(self)@,
            deleted ==> final(self)@ == old(self)@.without_block(id),
            deleted ==> forall|t: TerminalId|
                old(self)@.block_terminals(id).contains(t) ==> !final(self)@.terminals.dom().contains(t)
                    && final(self)@.edges_at(t) == Set::<u32>::empty(),
    {
        if (id >> 32) & 1 != 1 {
            proof {
                if old(self)@.blocks.dom().contains(id) {
                    assert(old(self)@.block_ok(id));
                }
            }
            return false;
        }
        let (ins, outs) = match slots_get(&self.blocks, id) {
            None => {
                return false;
            },
            Some(b) => (copy_ids(&b.in_idx), copy_ids(&b.out_idx)),
        };
        self.selected_block = None;
        remove_terminals(&mut self.graph, &ins);
        proof {
            assert(graph_edges(self.graph).dom().subset_of(old(self)@.edges.dom()));
            vstd::set_lib::lemma_len_subset(graph_edges(self.graph).dom(), old(self)@.edges.dom());
        }
        remove_terminals(&mut self.graph, &outs);
        slots_remove(&mut self.blocks, id);
        proof {
            let old_v = old(self)@;
            let new_v = self@;
            let target = old_v.without_block(id);
            assert(new_v.terminals =~= target.terminals);
            assert(new_v.edges =~= target.edges);
            assert(new_v == target);
            lemma_without_block_wf(old_v, id);
            assert forall|t: TerminalId| old_v.block_terminals(id).contains(t) implies !new_v.terminals.dom().contains(
                t,
            ) && new_v.edges_at(t) == Set::<u32>::empty() by {
                assert(new_v.edges_at(t) =~= Set::<u32>::empty());
            }
        }
        true
    }

    /// The target block of iterator `it_id`, if there is one.
    pub fn find_target(&self, it_id: i32) -> (r: Option<BlockId>)
        requires
            self@.wf(),
        ensures
            r.is_some() == self@.has_target(it_id),
            r.is_some() ==> r.unwrap() == self@.target_of(it_id),
    {
        let keys = slots_keys(&self.blocks);
        let mut i: usize = 0;
        while i < keys.len()
            invariant
                i <= keys@.len(),
                self@.wf(),
                forall|k: u64| keys@.contains(k) <==> block_slots(self.blocks).dom().contains(k),
                forall|j: int| 0 <= j < i ==> !self@.is_target_for(keys@[j], it_id),
            decreases keys@.len() - i,
        {
            let k = keys[i];
            proof {
                assert(keys@.contains(k));
                assert(self@.block_ok(k));
            }
            let is_it = match slots_get(&self.blocks, k) {
                Some(b) => b.block_type == BlockType::TARGET(TargetType::ITERATOR(it_id)),
                None => false,
            };
            if is_it {
                proof {
                    lemma_target_unique(self@, k, it_id);
                }
                return Some(k);
            }
            i += 1;
        }
        proof {
            assert forall|b: BlockId| !self@.is_target_for(b, it_id) by {
                if self@.is_target_for(b, it_id) {
                    assert(keys@.contains(b));
                    let j = choose|j: int| 0 <= j < keys@.len() && keys@[j] == b;
                    assert(!self@.is_target_for(keys@[j], it_id));
                }
            }
        }
        None
    }

    /// The input of block `b` that carries the label `name`, if there is one.
    fn find_input(&self, b: BlockId, name: &String) -> (r: Option<TerminalId>)
        requires
            self@.wf(),
            self@.blocks.dom().contains(b),
            is_iterator_target(self@.blocks[b].block_type),
        ensures
            r.is_some() == self@.has_input_named(b, name@),
            r.is_some() ==> r.unwrap() == self@.input_named(b, name@),
    {
        proof {
            assert(self@.block_ok(b));
        }
        let blk = slots_get(&self.blocks, b).unwrap();
        let mut i: usize = 0;
        while i < blk.in_idx.len()
            invariant
                i <= blk.in_idx@.len(),
                self@.wf(),
                self@.blocks.dom().contains(b),
                is_iterator_target(self@.blocks[b].block_type),
                *blk == self@.blocks[b],
                forall|j: int| 0 <= j < i ==> self@.terminals[blk.in_idx@[j]].name@ != name@,
            decreases blk.in_idx@.len() - i,
        {
            let t = blk.in_idx[i];
            proof {
                assert(self@.block_ok(b));
                assert(self@.is_input_of(blk.in_idx@[i as int], b));
            }
            let term = graph_terminal(&self.graph, t).unwrap();
            if term.name == *name {
                proof {
                    assert(blk.in_idx@.contains(t));
                    lemma_input_unique(self@, b, t, name@);
                }
                return Some(t);
            }
            i += 1;
        }
        proof {
            assert forall|t: TerminalId| !self@.is_input_named(b, t, name@) by {
                if self@.is_input_named(b, t, name@) {
                    let j = choose|j: int| 0 <= j < blk.in_idx@.len() && blk.in_idx@[j] == t;
                    assert(self@.terminals[blk.in_idx@[j]].name@ != name@);
                }
            }
        }
        None
    }

    /// Binds a parameter of an iterator to the graph and returns the input
    /// terminal that stands for it. Where the iterator has a target block, the
    /// block takes the iterator's label and gets an input for the parameter
    /// unless it has one already; where it has none, a target block with that
    /// one input is made at the default slot.
    pub fn update_target(&mut self, it_id: i32, it_name: String, param_name: String) -> (t: TerminalId)
        requires
            old(self)@.wf(),
            old(self)@.blocks.dom().len() < 0xffff_fffe,
            old(self)@.terminals.dom().len() + 1 < u32::MAX,
        ensures
            final(self)@.wf(),
            target_updated(old(self)@, final(self)@, it_id, it_name, param_name, t),
    {
        match self.find_target(it_id) {
            Some(b) => {
                proof {
                    assert(old(self)@.is_target_for(b, it_id));
                    assert(old(self)@.block_ok(b));
                }
                let found = self.find_input(b, &param_name);
                let t = match found {
                    Some(t) => t,
                    None => {
                        let t = graph_add_node(&mut self.graph, Terminal::new(param_name, TermType::IN, b, None));
                        let blk = slots_get_mut(&mut self.blocks, b);
                        blk.in_idx.push(t);
                        t
                    },
                };
                let ghost mid = self@;
                let blk = slots_get_mut(&mut self.blocks, b);
                if !(blk.name == it_name) {
                    blk.name = it_name;
                }
                proof {
                    let old_v = old(self)@;
                    let new_v = self@;
                    let ob = old_v.blocks[b];
                    let nb = new_v.blocks[b];
                    assert(new_v.blocks =~= old_v.blocks.insert(b, nb));
                    assert forall|c: BlockId| new_v.blocks.dom().contains(c) implies new_v.block_ok(c) by {
                        assert(old_v.block_ok(c));
                        if c == b {
                            assert forall|i: int| 0 <= i < nb.in_idx@.len() implies new_v.is_input_of(
                                #[trigger] nb.in_idx@[i],
                                b,
                            ) by {
                                if i < ob.in_idx@.len() {
                                    assert(old_v.is_input_of(ob.in_idx@[i], b));
                                }
                            }
                            assert(old_v.input_names_distinct(b));
                            assert forall|i: int, j: int| 0 <= i < j < nb.in_idx@.len() implies new_v.terminals[nb.in_idx@[i]].name@
                                != new_v.terminals[nb.in_idx@[j]].name@ by {
                                assert(old_v.is_input_of(ob.in_idx@[i], b));
                                if j < ob.in_idx@.len() {
                                    assert(old_v.is_input_of(ob.in_idx@[j], b));
                                } else {
                                    assert(ob.in_idx@.contains(ob.in_idx@[i]));
                                    assert(!old_v.is_input_named(b, ob.in_idx@[i], param_name@));
                                }
                            }
                        } else {
                            let blk = old_v.blocks[c];
                            assert forall|i: int| 0 <= i < blk.in_idx@.len() implies new_v.is_input_of(
                                #[trigger] blk.in_idx@[i],
                                c,
                            ) by {
                                assert(old_v.is_input_of(blk.in_idx@[i], c));
                            }
                            assert forall|i: int| 0 <= i < blk.out_idx@.len() implies new_v.is_output_of(
                                #[trigger] blk.out_idx@[i],
                                c,
                            ) by {
                                assert(old_v.is_output_of(blk.out_idx@[i], c));
                            }
                            if blk.block_type == BlockType::SOURCE(SourceType::CONSTANT) {
                                assert(old_v.is_output_of(blk.out_idx@[0], c));
                            }
                            if is_iterator_target(blk.block_type) {
                                assert(old_v.input_names_distinct(c));
                                assert forall|i: int, j: int| 0 <= i < j < blk.in_idx@.len() implies new_v.terminals[blk.in_idx@[i]].name@
                                    != new_v.terminals[blk.in_idx@[j]].name@ by {
                                    assert(old_v.is_input_of(blk.in_idx@[i], c));
                                    assert(old_v.is_input_of(blk.in_idx@[j], c));
                                }
                            }
                        }
                    }
                    assert forall|u: TerminalId| new_v.terminals.dom().contains(u) implies new_v.terminal_ok(u) by {
                        if old_v.terminals.dom().contains(u) {
                            assert(old_v.terminal_ok(u));
                            let p = old_v.terminals[u].parent;
                            if p == b {
                                if old_v.terminals[u].io == TermType::IN {
                                    let i = choose|i: int| 0 <= i < ob.in_idx@.len() && ob.in_idx@[i] == u;
                                    assert(nb.in_idx@[i] == u);
                                }
                            }
                        } else {
                            assert(nb.in_idx@[nb.in_idx@.len() - 1] == u);
                        }
                    }
                    assert forall|e: u32| new_v.edges.dom().contains(e) implies new_v.edge_ok(e) by {
                        assert(old_v.edge_ok(e));
                    }
                    assert(new_v.unique_targets()) by {
                        assert forall|b1: BlockId, b2: BlockId|
                            new_v.blocks.dom().contains(b1) && new_v.blocks.dom().contains(b2) && is_iterator_target(
                                new_v.blocks[b1].block_type,
                            ) && new_v.blocks[b1].block_type == new_v.blocks[b2].block_type implies b1 == b2 by {
                            assert(old_v.blocks[b1].block_type == new_v.blocks[b1].block_type);
                            assert(old_v.blocks[b2].block_type == new_v.blocks[b2].block_type);
                        }
                    }
                }
                t
            },
            None => {
                let mut inputs: Vec<String> = Vec::new();
                inputs.push(param_name);
                let arch = BlockArchetype::new(
                    BlockType::TARGET(TargetType::ITERATOR(it_id)),
                    it_name,
                    inputs,
                    Vec::new(),
                );
                proof {
                    assert forall|b: BlockId| old(self)@.blocks.dom().contains(b) implies old(self)@.blocks[b].block_type
                        != arch.block_type by {
                        assert(!old(self)@.is_target_for(b, it_id));
                    }
                }
                let pos = Point { x: Scalar { bits: TARGET_SLOT_X }, y: Scalar { bits: TARGET_SLOT_Y } };
                let id = self.insert_block(&arch, pos);
                proof {
                    assert(self@.block_ok(id));
                }
                let blk = slots_get(&self.blocks, id).unwrap();
                let t = blk.in_idx[0];
                proof {
                    let old_v = old(self)@;
                    let new_v = self@;
                    let nb = new_v.blocks[id];
                    assert(nb.in_idx@ =~= seq![t]);
                    assert(nb.out_idx@ =~= Seq::<TerminalId>::empty());
                    assert(new_v.terminals =~= old_v.terminals.insert(
                        t,
                        Terminal { pos: Point::origin_spec(), name: param_name, io: TermType::IN, parent: id, val: None },
                    )) by {
                        assert(nb.in_idx@[0] == t);
                        assert forall|u: TerminalId| new_v.terminals.dom().contains(u) <==> old_v.terminals.dom().contains(u) || u == t by {
                            assert(nb.in_idx@.to_set().contains(u) <==> nb.in_idx@.contains(u));
                            if u == t {
                                assert(nb.in_idx@.contains(t));
                            }
                        }
                    }
                    assert(target_made(old_v, new_v, it_id, it_name, param_name, t, id));
                }
                t
            },
        }
    }

    /// Computes the value at an IN terminal by walking the graph backwards,
    /// memoizing values on the terminals it passes. `effect` is the function
    /// that effects apply: it gets the kind of the effect and the values of
    /// its inputs, in order, and returns the values of its outputs.
    pub fn process<F: Fn(EffectType, Vec<Scalar>) -> Vec<Scalar>>(
        &mut self,
        id: TerminalId,
        force_recompute: bool,
        effect: &F,
    ) -> (r: Result<Option<Scalar>, ProcessError>)
        requires
            old(self)@.wf(),
            effect_accepts(effect),
        ensures
            final(self)@.wf(),
            vals_changed_only(old(self)@, final(self)@),
            is_pure(effect) || !asks_effect(old(self)@, id) ==> (Outcome {
                view: final(self)@,
                result: r,
            }) == eval(
                old(self)@,
                effect_model(effect),
                id,
                force_recompute,
                old(self)@.terminals.dom().len(),
            ),
    {
        let fuel = graph_node_count(&self.graph);
        let r = self.process_bounded(id, force_recompute, effect, fuel);
        proof {
            lemma_vals_changed_wf(old(self)@, self@);
        }
        r
    }

    /// `process` with a bound on how deep effects may nest.
    #[verifier::loop_isolation(false)]
    fn process_bounded<F: Fn(EffectType, Vec<Scalar>) -> Vec<Scalar>>(
        &mut self,
        id: TerminalId,
        force: bool,
        effect: &F,
        fuel: usize,
    ) -> (r: Result<Option<Scalar>, ProcessError>)
        requires
            old(self)@.wf(),
            effect_accepts(effect),
        ensures
            vals_changed_only(old(self)@, final(self)@),
            is_pure(effect) || !asks_effect(old(self)@, id) ==> (Outcome { view: final(self)@, result: r })
                == eval(old(self)@, effect_model(effect), id, force, fuel as nat),
        decreases fuel,
    {
        let ghost v0 = self@;
        let ghost fx = effect_model(effect);
        let io = match graph_terminal(&self.graph, id) {
            None => {
                return Ok(None);
            },
            Some(t) => t.io,
        };
        if !(io == TermType::IN) {
            return Ok(None);
        }
        let src = match graph_first_neighbor(&self.graph, id) {
            None => {
                proof {
                    assert forall|e: u32| !v0.leads_into(e, id) by {
                        assert(!edge_touches(v0.edges, e, id));
                    }
                    lemma_no_source(v0, id);
                }
                return Ok(None);
            },
            Some(s) => s,
        };
        proof {
            let e = choose|e: u32| edge_touches(v0.edges, e, id) && Some(src) == Some(far_end(v0.edges, e, id));
            assert(v0.edge_ok(e));
            assert(v0.leads_into(e, id));
            lemma_source_of(v0, e, id);
            assert(v0.source_of(id) == Some(src));
            assert(v0.terminal_ok(src));
            assert(v0.block_ok(v0.terminals[src].parent));
        }
        let st = graph_terminal(&self.graph, src).unwrap();
        let memo = st.val;
        let parent = st.parent;
        let blk = slots_get(&self.blocks, parent).unwrap();
        let kind = blk.block_type;
        let is_effect_block = match kind {
            BlockType::EFFECT(_) => true,
            _ => false,
        };
        if !is_effect_block && memo.is_some() && !force {
            let t = graph_terminal_mut(&mut self.graph, id);
            t.val = memo;
            proof {
                lemma_with_val_changed(v0, id, memo);
                assert(self@ == v0.with_val(id, memo));
            }
            return Ok(memo);
        }
        match kind {
            BlockType::SOURCE(SourceType::CONSTANT) => Ok(memo),
            BlockType::SOURCE(SourceType::AUDIO) => Err(ProcessError::UnsupportedSource),
            BlockType::TARGET(_) => Ok(None),
            BlockType::EFFECT(k) => {
                if fuel == 0 {
                    return Err(ProcessError::Cycle);
                }
                let ins = copy_ids(&blk.in_idx);
                let outs = copy_ids(&blk.out_idx);
                let mut args: Vec<Option<Scalar>> = Vec::new();
                let mut i: usize = 0;
                while i < ins.len()
                    invariant
                        i <= ins@.len(),
                        args@.len() == i,
                        fuel > 0,
                        v0.wf(),
                        vals_changed_only(v0, self@),
                        effect_accepts(effect),
                        fx == effect_model(effect),
                        is_pure(effect) ==> (InputsOutcome { view: self@, result: Ok(args@) }) == eval_inputs(
                            v0,
                            fx,
                            ins@,
                            i as nat,
                            force,
                            (fuel - 1) as nat,
                        ),
                    decreases ins@.len() - i,
                {
                    proof {
                        lemma_vals_changed_wf(v0, self@);
                    }
                    let ghost pre = self@;
                    let r = self.process_bounded(ins[i], force, effect, fuel - 1);
                    proof {
                        lemma_vals_changed_trans(v0, pre, self@);
                    }
                    match r {
                        Err(e) => {
                            proof {
                                if is_pure(effect) {
                                    let part = eval_inputs(v0, fx, ins@, (i + 1) as nat, force, (fuel - 1) as nat);
                                    assert(part == (InputsOutcome { view: self@, result: Err(e) }));
                                    lemma_inputs_error_stays(
                                        v0,
                                        fx,
                                        ins@,
                                        (i + 1) as nat,
                                        ins@.len(),
                                        force,
                                        (fuel - 1) as nat,
                                    );
                                }
                            }
                            return Err(e);
                        },
                        Ok(x) => {
                            args.push(x);
                        },
                    }
                    i += 1;
                }
                let ghost mid = self@;
                proof {
                    lemma_vals_changed_wf(v0, mid);
                    assert(v0.block_ok(parent));
                    assert forall|j: int| 0 <= j < outs@.len() implies mid.terminals.dom().contains(#[trigger] outs@[j])
                        && !keeps_val(mid, outs@[j]) by {
                        assert(v0.is_output_of(v0.blocks[parent].out_idx@[j], parent));
                    }
                }
                match unwrap_all(&args) {
                    None => {
                        let blanks = nones_vec(outs.len());
                        write_vals(&mut self.graph, &outs, &blanks);
                        proof {
                            lemma_with_vals_changed(mid, outs@, blanks@);
                            assert(self@ == with_vals(mid, outs@, blanks@));
                            lemma_vals_changed_trans(v0, mid, self@);
                        }
                        Ok(None)
                    },
                    Some(vals) => {
                        let held = graph_terminal(&self.graph, src).unwrap().val;
                        if !force && held.is_some() {
                            let t = graph_terminal_mut(&mut self.graph, id);
                            t.val = held;
                            proof {
                                assert(!keeps_val(mid, id));
                                lemma_with_val_changed(mid, id, held);
                                assert(self@ == mid.with_val(id, held));
                                lemma_vals_changed_trans(v0, mid, self@);
                            }
                            return Ok(held);
                        }
                        let out = effect(k, vals);
                        proof {
                            if is_pure(effect) {
                                lemma_effect_model(effect, k, vals, out);
                            }
                        }
                        if out.len() != outs.len() {
                            return Err(ProcessError::EffectArity);
                        }
                        let fresh = somes_vec(&out);
                        write_vals(&mut self.graph, &outs, &fresh);
                        proof {
                            lemma_with_vals_changed(mid, outs@, fresh@);
                            assert(self@ == with_vals(mid, outs@, fresh@));
                            lemma_vals_changed_trans(v0, mid, self@);
                        }
                        let v = graph_terminal(&self.graph, src).unwrap().val;
                        Ok(v)
                    },
                }
            },
        }
    }

    /// The block under a handle, if there is one.
    pub fn block(&self, id: BlockId) -> (r: Option<&Block>)
        requires
            self@.wf(),
        ensures
            r.is_some() == self@.blocks.dom().contains(id),
            r.is_some() ==> *r.unwrap() == self@.blocks[id],
    {
        if (id >> 32) & 1 != 1 {
            proof {
                if self@.blocks.dom().contains(id) {
                    assert(self@.block_ok(id));
                }
            }
            return None;
        }
        slots_get(&self.blocks, id)
    }

    /// The terminal under a handle, if there is one.
    pub fn terminal(&self, id: TerminalId) -> (r: Option<&Terminal>)
        ensures
            r.is_some() == self@.terminals.dom().contains(id),
            r.is_some() ==> *r.unwrap() == self@.terminals[id],
    {
        graph_terminal(&self.graph, id)
    }

    /// The OUT terminal that feeds the IN terminal `t`; `None` where `t` is
    /// no live IN terminal or has no incoming edge.
    pub fn source(&self, t: TerminalId) -> (r: Option<TerminalId>)
        requires
            self@.wf(),
        ensures
            r == (if self@.terminals.dom().contains(t) && self@.terminals[t].io == TermType::IN {
                self@.source_of(t)
            } else {
                None
            }),
    {
        let is_in = match graph_terminal(&self.graph, t) {
            Some(term) => term.io == TermType::IN,
            None => false,
        };
        if !is_in {
            return None;
        }
        let r = graph_first_neighbor(&self.graph, t);
        proof {
            let v = self@;
            match r {
                None => {
                    assert forall|e: u32| !v.leads_into(e, t) by {
                        assert(!edge_touches(v.edges, e, t));
                    }
                    lemma_no_source(v, t);
                },
                Some(src) => {
                    let e = choose|e: u32| edge_touches(v.edges, e, t) && Some(src) == Some(far_end(v.edges, e, t));
                    assert(v.edge_ok(e));
                    assert(v.leads_into(e, t));
                    lemma_source_of(v, e, t);
                },
            }
        }
        r
    }

    /// The handles of all blocks, each once.
    pub fn block_ids(&self) -> (ids: Vec<BlockId>)
        ensures
            ids@.no_duplicates(),
            ids@.to_set() == self@.blocks.dom(),
    {
        let ids = slots_keys(&self.blocks);
        proof {
            assert(ids@.to_set() =~= self@.blocks.dom());
        }
        ids
    }

    /// The ends of all edges, the OUT terminal first.
    pub fn edges(&self) -> (ends: Vec<(TerminalId, TerminalId)>)
        ensures
            ends@.to_set() == self@.edges.values(),
    {
        let ends = graph_edge_list(&self.graph);
        proof {
            let edges = self@.edges;
            assert forall|p: (TerminalId, TerminalId)| ends@.to_set().contains(p) <==> edges.values().contains(
                p,
            ) by {
                if ends@.contains(p) {
                    let e = choose|e: u32| edges.dom().contains(e) && edges[e] == p;
                    assert(edges.dom().contains(e) && edges[e] == p);
                }
                if edges.values().contains(p) {
                    let e = choose|e: u32| edges.dom().contains(e) && edges[e] == p;
                    assert(edges.dom().contains(e) && edges[e] == p);
                }
            }
            assert(ends@.to_set() =~= edges.values());
        }
        ends
    }

    /// The number of blocks.
    pub fn block_count(&self) -> (n: usize)
        ensures
            n == self@.blocks.dom().len(),
    {
        slots_len(&self.blocks)
    }

    /// The number of terminals.
    pub fn terminal_count(&self) -> (n: usize)
        ensures
            n == self@.terminals.dom().len(),
    {
        graph_node_count(&self.graph)
    }

    /// The number of edges.
    pub fn edge_count(&self) -> (n: usize)
        ensures
            n == self@.edges.dom().len(),
    {
        graph_edge_count(&self.graph)
    }

    /// The selected block, if any.
    pub fn selected_block(&self) -> (r: Option<BlockId>)
        ensures
            r == self@.selected,
    {
        self.selected_block
    }

    /// Selects a block. Does nothing where no block has the handle. Tells
    /// whether the block is now selected.
    pub fn select(&mut self, id: BlockId) -> (done: bool)
        requires
            old(self)@.wf(),
        ensures
            final(self)@.wf(),
            done == old(self)@.blocks.dom().contains(id),
            final(self)@ == (EditorView {
                selected: if done {
                    Some(id)
                } else {
                    old(self)@.selected
                },
                ..old(self)@
            }),
    {
        let live = self.block(id).is_some();
        if live {
            self.selected_block = Some(id);
            proof {
                let v = old(self)@;
                let w = self@;
                assert forall|b: BlockId| w.blocks.dom().contains(b) implies w.block_ok(b) by {
                    assert(v.block_ok(b));
                }
                assert forall|t: TerminalId| w.terminals.dom().contains(t) implies w.terminal_ok(t) by {
                    assert(v.terminal_ok(t));
                }
                assert forall|e: u32| w.edges.dom().contains(e) implies w.edge_ok(e) by {
                    assert(v.edge_ok(e));
                }
            }
        }
        live
    }

    /// Moves a block to `pos`. Does nothing where no block has the handle.
    /// Tells whether the block was moved.
    pub fn move_block(&mut self, id: BlockId, pos: Point) -> (done: bool)
        requires
            old(self)@.wf(),
        ensures
            final(self)@.wf(),
            done == old(self)@.blocks.dom().contains(id),
            !done ==> final(self)@ == old(self)@,
            done ==> final(self)@ == (EditorView {
                blocks: old(self)@.blocks.insert(id, Block { pos, ..old(self)@.blocks[id] }),
                ..old(self)@
            }),
    {
        if self.block(id).is_none() {
            return false;
        }
        proof {
            assert(self@.block_ok(id));
        }
        let b = slots_get_mut(&mut self.blocks, id);
        b.pos = pos;
        proof {
            lemma_block_edit_wf(old(self)@, self@, id);
        }
        true
    }

    /// Records where terminal `t` was drawn. Does nothing where no terminal
    /// has the handle. Tells whether the position was recorded.
    pub fn place_terminal(&mut self, t: TerminalId, pos: Point) -> (done: bool)
        requires
            old(self)@.wf(),
        ensures
            final(self)@.wf(),
            done == old(self)@.terminals.dom().contains(t),
            !done ==> final(self)@ == old(self)@,
            done ==> final(self)@ == (EditorView {
                terminals: old(self)@.terminals.insert(t, Terminal { pos, ..old(self)@.terminals[t] }),
                ..old(self)@
            }),
    {
        if graph_terminal(&self.graph, t).is_none() {
            return false;
        }
        let term = graph_terminal_mut(&mut self.graph, t);
        term.pos = pos;
        proof {
            let v = old(self)@;
            assert(v.terminal_ok(t));
            assert(v.block_ok(v.terminals[t].parent));
            if v.blocks[v.terminals[t].parent].block_type == BlockType::SOURCE(SourceType::CONSTANT) {
                let blk = v.blocks[v.terminals[t].parent];
                assert(v.is_output_of(blk.out_idx@[0], v.terminals[t].parent));
                assert(blk.out_idx@.contains(t));
                assert(blk.out_idx@[0] == t);
            }
            lemma_terminal_edit_wf(v, self@, t);
        }
        true
    }

    /// Sets the value of a constant source and the label of its output. Does
    /// nothing unless `id` is a constant source. Tells whether the value was
    /// set.
    pub fn set_constant(&mut self, id: BlockId, value: Scalar, label: String) -> (done: bool)
        requires
            old(self)@.wf(),
        ensures
            final(self)@.wf(),
            done == (old(self)@.blocks.dom().contains(id) && old(self)@.blocks[id].block_type == BlockType::SOURCE(
                SourceType::CONSTANT,
            )),
            !done ==> final(self)@ == old(self)@,
            done ==> final(self)@ == (EditorView {
                terminals: old(self)@.terminals.insert(
                    old(self)@.blocks[id].out_idx@[0],
                    Terminal {
                        val: Some(value),
                        name: label,
                        ..old(self)@.terminals[old(self)@.blocks[id].out_idx@[0]]
                    },
                ),
                ..old(self)@
            }),
    {
        let out = match self.block(id) {
            None => {
                return false;
            },
            Some(b) => {
                if !(b.block_type == BlockType::SOURCE(SourceType::CONSTANT)) {
                    return false;
                }
                proof {
                    assert(self@.block_ok(id));
                }
                b.out_idx[0]
            },
        };
        proof {
            assert(self@.is_output_of(self@.blocks[id].out_idx@[0], id));
        }
        let term = graph_terminal_mut(&mut self.graph, out);
        term.val = Some(value);
        term.name = label;
        proof {
            lemma_terminal_edit_wf(old(self)@, self@, out);
        }
        true
    }

    /// Stores on the input of a display probe the value to show and its
    /// label. Does nothing unless `t` is the input of a display probe. Tells
    /// whether the value was stored.
    pub fn show(&mut self, t: TerminalId, value: Option<Scalar>, label: String) -> (done: bool)
        requires
            old(self)@.wf(),
        ensures
            final(self)@.wf(),
            done == (old(self)@.terminals.dom().contains(t) && old(self)@.terminals[t].io == TermType::IN
                && old(self)@.blocks[old(self)@.terminals[t].parent].block_type == BlockType::TARGET(
                TargetType::DISPLAY,
            )),
            !done ==> final(self)@ == old(self)@,
            done ==> final(self)@ == (EditorView {
                terminals: old(self)@.terminals.insert(
                    t,
                    Terminal { val: value, name: label, ..old(self)@.terminals[t] },
                ),
                ..old(self)@
            }),
    {
        let parent = match graph_terminal(&self.graph, t) {
            None => {
                return false;
            },
            Some(term) => {
                if !(term.io == TermType::IN) {
                    return false;
                }
                term.parent
            },
        };
        proof {
            assert(self@.terminal_ok(t));
        }
        let is_display = match self.block(parent) {
            None => false,
            Some(b) => b.block_type == BlockType::TARGET(TargetType::DISPLAY),
        };
        if !is_display {
            return false;
        }
        let term = graph_terminal_mut(&mut self.graph, t);
        term.val = value;
        term.name = label;
        proof {
            lemma_terminal_edit_wf(old(self)@, self@, t);
        }
        true
    }

    /// The inputs of display probes that hold no value and so wait to be
    /// evaluated, but for the probe `skip`.
    pub fn display_queue(&self, skip: Option<BlockId>) -> (q: Vec<TerminalId>)
        requires
            self@.wf(),
        ensures
            forall|t: TerminalId| q@.contains(t) <==> awaits_display(self@, t, skip),
    {
        let keys = slots_keys(&self.blocks);
        let mut q: Vec<TerminalId> = Vec::new();
        let mut i: usize = 0;
        while i < keys.len()
            invariant
                i <= keys@.len(),
                self@.wf(),
                forall|k: u64| keys@.contains(k) <==> self@.blocks.dom().contains(k),
                forall|t: TerminalId|
                    q@.contains(t) <==> (exists|j: int| 0 <= j < i && awaits_display_at(self@, #[trigger] keys@[j], t, skip)),
            decreases keys@.len() - i,
        {
            let k = keys[i];
            proof {
                assert(keys@.contains(k));
                assert(self@.block_ok(k));
            }
            let ghost q0 = q@;
            let skipped = match skip {
                Some(s) => s == k,
                None => false,
            };
            let b = slots_get(&self.blocks, k).unwrap();
            if b.block_type == BlockType::TARGET(TargetType::DISPLAY) && !skipped {
                let t = b.in_idx[0];
                proof {
                    assert(self@.is_input_of(b.in_idx@[0], k));
                }
                let term = graph_terminal(&self.graph, t).unwrap();
                if term.val.is_none() {
                    q.push(t);
                    proof {
                        assert(b.in_idx@.contains(t));
                        assert(awaits_display_at(self@, keys@[i as int], t, skip));
                    }
                }
            }
            proof {
                let v = self@;
                assert forall|t: TerminalId|
                    q@.contains(t) <==> (exists|j: int| 0 <= j < i + 1 && awaits_display_at(v, #[trigger] keys@[j], t, skip)) by {
                    if q@.contains(t) {
                        if q0.contains(t) {
                            let j = choose|j: int| 0 <= j < i && awaits_display_at(v, #[trigger] keys@[j], t, skip);
                            assert(0 <= j < i + 1 && awaits_display_at(v, keys@[j], t, skip));
                        } else {
                            let n = choose|n: int| 0 <= n < q@.len() && q@[n] == t;
                            if n < q0.len() {
                                assert(q0[n] == t);
                            }
                            assert(awaits_display_at(v, keys@[i as int], t, skip));
                        }
                    }
                    if exists|j: int| 0 <= j < i + 1 && awaits_display_at(v, #[trigger] keys@[j], t, skip) {
                        let j = choose|j: int| 0 <= j < i + 1 && awaits_display_at(v, #[trigger] keys@[j], t, skip);
                        if j < i {
                            assert(q0.contains(t));
                            let n = choose|n: int| 0 <= n < q0.len() && q0[n] == t;
                            assert(q@[n] == t);
                        } else {
                            assert(v.blocks[k].in_idx@.len() == 1);
                            let m = choose|m: int| 0 <= m < v.blocks[k].in_idx@.len() && v.blocks[k].in_idx@[m] == t;
                            assert(t == v.blocks[k].in_idx@[0]);
                            assert(q@[q@.len() - 1] == t);
                        }
                    }
                }
            }
            i += 1;
        }
        proof {
            assert forall|t: TerminalId| q@.contains(t) <==> awaits_display(self@, t, skip) by {
                if q@.contains(t) {
                    let j = choose|j: int| 0 <= j < i && awaits_display_at(self@, #[trigger] keys@[j], t, skip);
                    assert(awaits_display_at(self@, keys@[j], t, skip));
                }
                if awaits_display(self@, t, skip) {
                    let b = choose|b: BlockId| awaits_display_at(self@, b, t, skip);
                    assert(keys@.contains(b));
                    let j = choose|j: int| 0 <= j < keys@.len() && keys@[j] == b;
                    assert(awaits_display_at(self@, keys@[j], t, skip));
                }
            }
        }
        q
    }

    fn insert_block(&mut self, arch: &BlockArchetype, pos: Point) -> (id: BlockId)
        requires
            old(self)@.wf(),
            arch.wf(),
            old(self)@.blocks.dom().len() < 0xffff_fffe,
            old(self)@.terminals.dom().len() + arch.inputs@.len() + arch.outputs@.len() < u32::MAX,
            is_iterator_target(arch.block_type) ==> labels_distinct(arch.inputs@) && forall|b: BlockId|
                old(self)@.blocks.dom().contains(b) ==> old(self)@.blocks[b].block_type != arch.block_type,
        ensures
            final(self)@.wf(),
            block_added(old(self)@, final(self)@, *arch, pos, id),
    {
        let blk = Block {
            name: arch.name.clone(),
            block_type: arch.block_type,
            in_idx: Vec::new(),
            out_idx: Vec::new(),
            pos,
        };
        let ghost g0 = graph_terminals(self.graph);
        let id = slots_insert(&mut self.blocks, blk);
        let ins = add_terminals(&mut self.graph, &arch.inputs, TermType::IN, id, None);
        let out_val = if arch.block_type == BlockType::SOURCE(SourceType::CONSTANT) {
            Some(Scalar::zero())
        } else {
            None
        };
        let ghost g1 = graph_terminals(self.graph);
        let ghost ins_g = ins@;
        let outs = add_terminals(&mut self.graph, &arch.outputs, TermType::OUT, id, out_val);
        let ghost g2 = graph_terminals(self.graph);
        let ghost outs_g = outs@;
        let b = slots_get_mut(&mut self.blocks, id);
        b.in_idx = ins;
        b.out_idx = outs;
        proof {
            let old_v = old(self)@;
            let new_v = self@;
            let nb = new_v.blocks[id];
            assert(old_v.terminals == g0);
            assert(new_v.terminals == g2);
            assert(nb.in_idx@ == ins_g);
            assert(nb.out_idx@ == outs_g);
            assert(new_v.blocks =~= old_v.blocks.insert(id, nb));
            assert forall|t: TerminalId| g0.dom().contains(t) implies g2.dom().contains(t) && g2[t] == g0[t] by {
                assert(g1.dom().contains(t));
                assert(g1[t] == g0[t]);
                assert(g2.dom().contains(t));
            }
            assert forall|i: int| 0 <= i < ins_g.len() implies new_v.is_input_of(#[trigger] ins_g[i], id)
                && !g0.dom().contains(ins_g[i]) && g2[ins_g[i]] == (Terminal {
                pos: Point::origin_spec(),
                name: arch.inputs@[i],
                io: TermType::IN,
                parent: id,
                val: None,
            }) by {
                let t = ins_g[i];
                assert(g1.dom().contains(t));
                assert(g2.dom().contains(t));
                assert(g2[t] == g1[t]);
            }
            assert forall|i: int| 0 <= i < outs_g.len() implies new_v.is_output_of(#[trigger] outs_g[i], id)
                && !g0.dom().contains(outs_g[i]) by {
                let t = outs_g[i];
                assert(!g1.dom().contains(t));
                if g0.dom().contains(t) {
                    assert(g1.dom().contains(t));
                }
            }
            assert forall|t: TerminalId|
                g2.dom().contains(t) <==> g0.dom().contains(t) || ins_g.contains(t) || outs_g.contains(t) by {
                assert(g1.dom().contains(t) <==> g0.dom().contains(t) || ins_g.to_set().contains(t));
                assert(g2.dom().contains(t) <==> g1.dom().contains(t) || outs_g.to_set().contains(t));
            }
            assert(new_v.terminals.dom() =~= old_v.terminals.dom().union(nb.in_idx@.to_set()).union(
                nb.out_idx@.to_set(),
            ));
            assert(block_added(old_v, new_v, *arch, pos, id));
            assert forall|b2: BlockId| new_v.blocks.dom().contains(b2) implies new_v.block_ok(b2) by {
                if b2 != id {
                    assert(old_v.block_ok(b2));
                    assert(new_v.blocks[b2] == old_v.blocks[b2]);
                }
            }
            assert forall|t: TerminalId| new_v.terminals.dom().contains(t) implies new_v.terminal_ok(t) by {
                if old_v.terminals.dom().contains(t) {
                    assert(old_v.terminal_ok(t));
                }
            }
            assert forall|e: u32| new_v.edges.dom().contains(e) implies new_v.edge_ok(e) by {
                assert(old_v.edge_ok(e));
            }
            assert(new_v.unique_targets());
        }
        id
    }
}

} // verus!
