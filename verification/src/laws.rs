//! What holds of the automation editor across calls, stated over the
//! relations that the contracts of its operations use.

use vstd::prelude::*;
use crate::automation::connected;
use crate::automation::target_made;
use crate::automation::target_updated;
use crate::blocks::BlockId;
use crate::blocks::BlockType;
use crate::blocks::EffectType;
use crate::blocks::Scalar;
use crate::blocks::SourceType;
use crate::blocks::TermType;
use crate::blocks::TerminalId;
use crate::editor_view::EditorView;
use crate::editor_view::lemma_input_unique;
use crate::editor_view::lemma_target_unique;
use crate::evaluation::ProcessError;
use crate::evaluation::all_some;
use crate::evaluation::eval;
use crate::evaluation::eval_inputs;
use crate::evaluation::lemma_eval_inputs_changes_vals_only;
use crate::evaluation::lemma_inputs_entry;
use crate::evaluation::lemma_set_vals_nones;
use crate::evaluation::lemma_source_same;
use crate::evaluation::nones;
use crate::evaluation::with_vals;

verus! {

/// However often an IN terminal is connected, after the last connection
/// exactly one edge touches it, and that edge comes from the OUT terminal
/// connected last.
pub proof fn lemma_last_connection_wins(
    v0: EditorView,
    v1: EditorView,
    v2: EditorView,
    first_out: TerminalId,
    last_out: TerminalId,
    in_t: TerminalId,
)
    requires
        connected(v0, v1, first_out, in_t),
        connected(v1, v2, last_out, in_t),
    ensures
        v2.source_of(in_t) == Some(last_out),
        v2.edges_at(in_t).len() == 1,
        forall|e: u32| v2.touches(e, in_t) ==> v2.edges[e] == (last_out, in_t),
{
    let e = choose|e: u32|
        !crate::graph_store::edges_avoiding(v1.edges, in_t).dom().contains(e) && v2.edges
            == crate::graph_store::edges_avoiding(v1.edges, in_t).insert(e, (last_out, in_t)) && v2.edges_at(in_t)
            == set![e];
    assert forall|x: u32| v2.touches(x, in_t) implies v2.edges[x] == (last_out, in_t) by {
        assert(v2.edges_at(in_t).contains(x));
    }
}

/// A constant is exempt from forced recomputation: a terminal fed by a
/// constant source evaluates to the constant's stored value whether or not
/// recomputation is forced, and forced evaluation leaves the editor as it
/// was.
pub proof fn lemma_constant_is_returned(
    v: EditorView,
    fx: spec_fn(EffectType, Seq<Scalar>) -> Seq<Scalar>,
    t: TerminalId,
    src: TerminalId,
    force: bool,
    fuel: nat,
)
    requires
        v.wf(),
        v.terminals.dom().contains(t),
        v.terminals[t].io == TermType::IN,
        v.source_of(t) == Some(src),
        v.blocks[v.terminals[src].parent].block_type == BlockType::SOURCE(SourceType::CONSTANT),
    ensures
        eval(v, fx, t, force, fuel).result == Ok::<Option<Scalar>, ProcessError>(v.terminals[src].val),
        v.terminals[src].val.is_some(),
        force ==> eval(v, fx, t, force, fuel).view == v,
{
    let e = choose|e: u32| v.leads_into(e, t);
    assert(v.edge_ok(e));
    assert(v.terminal_ok(src));
    let b = v.terminals[src].parent;
    assert(v.block_ok(b));
    let i = choose|i: int| 0 <= i < v.blocks[b].out_idx@.len() && v.blocks[b].out_idx@[i] == src;
    assert(v.blocks[b].out_idx@[0] == src);
}

/// An effect with an unconnected input gives no value: an evaluation that
/// asks for one of its outputs and ends without error answers `None` and
/// leaves `None` on every output of the effect. `t` is the terminal asked, fed
/// by the output `src` of an effect block whose `j`-th input has no incoming
/// edge. Whether recomputation is forced, and what the outputs held before,
/// makes no difference.
pub proof fn lemma_disconnected_input_gives_none(
    v: EditorView,
    fx: spec_fn(EffectType, Seq<Scalar>) -> Seq<Scalar>,
    t: TerminalId,
    src: TerminalId,
    j: int,
    force: bool,
    fuel: nat,
)
    requires
        v.wf(),
        v.terminals.dom().contains(t),
        v.terminals[t].io == TermType::IN,
        v.source_of(t) == Some(src),
        v.blocks[v.terminals[src].parent].block_type is EFFECT,
        0 <= j < v.blocks[v.terminals[src].parent].in_idx@.len(),
        v.source_of(v.blocks[v.terminals[src].parent].in_idx@[j]).is_none(),
        eval(v, fx, t, force, fuel).result.is_ok(),
    ensures
        eval(v, fx, t, force, fuel).result == Ok::<Option<Scalar>, ProcessError>(None),
        forall|i: int|
            0 <= i < v.blocks[v.terminals[src].parent].out_idx@.len() ==> eval(
                v,
                fx,
                t,
                force,
                fuel,
            ).view.terminals[#[trigger] v.blocks[v.terminals[src].parent].out_idx@[i]].val.is_none(),
{
    let b = v.terminals[src].parent;
    let ins_ids = v.blocks[b].in_idx@;
    let outs = v.blocks[b].out_idx@;
    let n = ins_ids.len();
    assert(fuel > 0);
    let f1 = (fuel - 1) as nat;
    let ins = eval_inputs(v, fx, ins_ids, n, force, f1);
    assert(ins.result.is_ok());
    let args = ins.result.unwrap();
    lemma_inputs_entry(v, fx, ins_ids, n, j as nat, force, f1);
    let before = eval_inputs(v, fx, ins_ids, j as nat, force, f1);
    lemma_eval_inputs_changes_vals_only(v, fx, ins_ids, j as nat, force, f1);
    lemma_source_same(v, before.view, ins_ids[j]);
    assert(eval(before.view, fx, ins_ids[j], force, f1).result == Ok::<Option<Scalar>, ProcessError>(None));
    assert(args[j].is_none());
    assert(!all_some(args));
    assert(eval(v, fx, t, force, fuel).view == with_vals(ins.view, outs, nones(outs.len())));
    assert forall|i: int| 0 <= i < outs.len() implies eval(v, fx, t, force, fuel).view.terminals[#[trigger] outs[i]].val.is_none() by {
        lemma_set_vals_nones(ins.view.terminals, outs, i);
    }
}

/// Binding the same parameter of the same iterator twice is binding it once:
/// the second call changes nothing and returns the terminal of the first.
/// After it the iterator has exactly one target block, and that block has
/// exactly one input with the parameter's label.
pub proof fn lemma_update_target_idempotent(
    v0: EditorView,
    v1: EditorView,
    v2: EditorView,
    it_id: i32,
    name1: String,
    param1: String,
    t1: TerminalId,
    name2: String,
    param2: String,
    t2: TerminalId,
)
    requires
        v0.wf(),
        v1.wf(),
        name1@ == name2@,
        param1@ == param2@,
        target_updated(v0, v1, it_id, name1, param1, t1),
        target_updated(v1, v2, it_id, name2, param2, t2),
    ensures
        v2 == v1,
        t2 == t1,
        v2.has_target(it_id),
        forall|b: BlockId| v2.is_target_for(b, it_id) ==> b == v2.target_of(it_id),
        v2.is_input_named(v2.target_of(it_id), t1, param1@),
        forall|t: TerminalId| v2.is_input_named(v2.target_of(it_id), t, param1@) ==> t == t1,
{
    // After the first call the target exists, carries the label, and has the input.
    let b = if v0.has_target(it_id) {
        v0.target_of(it_id)
    } else {
        choose|b: BlockId| target_made(v0, v1, it_id, name1, param1, t1, b)
    };
    if v0.has_target(it_id) {
        assert(v0.is_target_for(b, it_id));
        assert(v0.block_ok(b));
        if v0.has_input_named(b, param1@) {
            assert(v0.is_input_named(b, t1, param1@));
        } else {
            assert(v1.blocks[b].in_idx@[v1.blocks[b].in_idx@.len() - 1] == t1);
        }
    } else {
        assert(v1.blocks[b].in_idx@[0] == t1);
    }
    assert(v1.blocks.dom().contains(b));
    assert(v1.is_target_for(b, it_id));
    assert(v1.is_input_named(b, t1, param1@));
    assert(v1.blocks[b].name@ == name1@);
    lemma_target_unique(v1, b, it_id);
    lemma_input_unique(v1, b, t1, param1@);
    // So the second call finds both and writes nothing.
    assert(v2.blocks[b] == v1.blocks[b]);
    assert(v2.blocks =~= v1.blocks);
    assert forall|c: BlockId| v2.is_target_for(c, it_id) implies c == v2.target_of(it_id) by {
        lemma_target_unique(v1, c, it_id);
    }
    assert forall|t: TerminalId| v2.is_input_named(v2.target_of(it_id), t, param1@) implies t == t1 by {
        lemma_input_unique(v1, b, t, param1@);
    }
}

} // verus!
