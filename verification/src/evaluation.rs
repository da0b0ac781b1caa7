//! What backward evaluation of the automation graph computes, as a
//! mathematical function of the editor's contents and of the effect function.

use vstd::prelude::*;
use crate::blocks::BlockId;
use crate::blocks::BlockType;
use crate::blocks::EffectType;
use crate::blocks::Scalar;
use crate::blocks::SourceType;
use crate::blocks::TermType;
use crate::blocks::Terminal;
use crate::blocks::TerminalId;
use crate::blocks::input_arity;
use crate::editor_view::EditorView;
use crate::editor_view::is_effect;
use crate::editor_view::is_iterator_target;

verus! {

/// Why an evaluation gave no answer.
#[derive(Clone, Copy, Debug, PartialEq, Eq, Structural)]
pub enum ProcessError {
    /// The value would come from a source kind that cannot be evaluated:
    /// audio features.
    UnsupportedSource,
    /// The evaluation nested deeper than the graph has terminals, as it does
    /// where effects feed themselves.
    Cycle,
    /// The effect function returned another number of values than the effect
    /// has outputs.
    EffectArity,
}

/// The state after an evaluation and its answer.
pub struct Outcome {
    pub view: EditorView,
    pub result: Result<Option<Scalar>, ProcessError>,
}

/// The state after evaluating some inputs of a block and their values.
pub struct InputsOutcome {
    pub view: EditorView,
    pub result: Result<Seq<Option<Scalar>>, ProcessError>,
}

/// The effect function may be called on every list of values that is as long
/// as the effect has inputs.
pub open spec fn effect_accepts<F: Fn(EffectType, Vec<Scalar>) -> Vec<Scalar>>(f: &F) -> bool {
    forall|k: EffectType, a: Vec<Scalar>| a@.len() == input_arity(k) ==> call_requires(f, (k, a))
}

/// The effect function is a function: equal kinds and equal values give equal
/// results.
pub open spec fn is_pure<F: Fn(EffectType, Vec<Scalar>) -> Vec<Scalar>>(f: &F) -> bool {
    forall|k: EffectType, a1: Vec<Scalar>, a2: Vec<Scalar>, o1: Vec<Scalar>, o2: Vec<Scalar>|
        a1@ == a2@ && #[trigger] call_ensures(f, (k, a1), o1) && #[trigger] call_ensures(f, (k, a2), o2) ==> o1@
            == o2@
}

/// `out` is a possible result of the effect function on `k` and `args`.
pub open spec fn produces<F: Fn(EffectType, Vec<Scalar>) -> Vec<Scalar>>(
    f: &F,
    k: EffectType,
    args: Seq<Scalar>,
    out: Seq<Scalar>,
) -> bool {
    exists|a: Vec<Scalar>, o: Vec<Scalar>| a@ == args && o@ == out && #[trigger] call_ensures(f, (k, a), o)
}

/// The mathematical function that a pure effect function computes.
pub open spec fn effect_model<F: Fn(EffectType, Vec<Scalar>) -> Vec<Scalar>>(f: &F) -> spec_fn(
    EffectType,
    Seq<Scalar>,
) -> Seq<Scalar> {
    |k: EffectType, args: Seq<Scalar>| choose|out: Seq<Scalar>| produces(f, k, args, out)
}

/// What a pure effect function returned is what its model gives.
pub proof fn lemma_effect_model<F: Fn(EffectType, Vec<Scalar>) -> Vec<Scalar>>(
    f: &F,
    k: EffectType,
    a: Vec<Scalar>,
    o: Vec<Scalar>,
)
    requires
        is_pure(f),
        call_ensures(f, (k, a), o),
    ensures
        effect_model(f)(k, a@) == o@,
{
    assert(produces(f, k, a@, o@));
    let m = effect_model(f)(k, a@);
    assert(produces(f, k, a@, m));
}

/// The terminals with the memoized value of `t` replaced.
pub open spec fn set_val(m: Map<TerminalId, Terminal>, t: TerminalId, v: Option<Scalar>) -> Map<
    TerminalId,
    Terminal,
> {
    m.insert(t, Terminal { val: v, ..m[t] })
}

/// The terminals after giving `ids[0]` the value `vals[0]`, then `ids[1]` the
/// value `vals[1]`, and so on.
pub open spec fn set_vals(m: Map<TerminalId, Terminal>, ids: Seq<TerminalId>, vals: Seq<Option<Scalar>>) -> Map<
    TerminalId,
    Terminal,
>
    decreases ids.len(),
{
    if ids.len() == 0 {
        m
    } else {
        set_val(set_vals(m, ids.drop_last(), vals.drop_last()), ids.last(), vals.last())
    }
}

/// The view with the values of the listed terminals replaced.
pub open spec fn with_vals(v: EditorView, ids: Seq<TerminalId>, vals: Seq<Option<Scalar>>) -> EditorView {
    EditorView { terminals: set_vals(v.terminals, ids, vals), ..v }
}

/// Every value is present.
pub open spec fn all_some(args: Seq<Option<Scalar>>) -> bool {
    forall|i: int| 0 <= i < args.len() ==> (#[trigger] args[i]).is_some()
}

/// The values, each taken out of its `Some`.
pub open spec fn unwrapped(args: Seq<Option<Scalar>>) -> Seq<Scalar> {
    Seq::new(args.len(), |i: int| args[i].unwrap())
}

/// The values, each put into a `Some`.
pub open spec fn somes(vals: Seq<Scalar>) -> Seq<Option<Scalar>> {
    Seq::new(vals.len(), |i: int| Some(vals[i]))
}

/// `n` absent values.
pub open spec fn nones(n: nat) -> Seq<Option<Scalar>> {
    Seq::new(n, |i: int| None)
}

/// Backward evaluation from terminal `t`.
///
/// A terminal that is no live IN terminal, or has no incoming edge, gives
/// `None`. Otherwise the answer comes from the OUT terminal `src` that feeds
/// it, and the block of `src` decides.
///
/// An effect evaluates its inputs first, in order, whatever is memoized on
/// its outputs. Where an input gave `None`, it clears all its outputs and
/// gives `None`. Where every input gave a value, a value memoized on `src` is
/// taken as it is unless `force` is set, and is then also memoized on `t`;
/// failing that, the effect memoizes on its outputs what the effect function
/// `fx` makes of the input values and gives the value of `src`. `fuel` bounds
/// how deep effects may nest.
///
/// A source has no inputs. A value memoized on `src` is taken as it is
/// unless `force` is set, and is then also memoized on `t`; failing that, a
/// constant gives its stored value and an audio source is unsupported.
pub open spec fn eval(
    v: EditorView,
    fx: spec_fn(EffectType, Seq<Scalar>) -> Seq<Scalar>,
    t: TerminalId,
    force: bool,
    fuel: nat,
) -> Outcome
    decreases fuel, 0nat,
{
    if !v.terminals.dom().contains(t) || v.terminals[t].io != TermType::IN {
        Outcome { view: v, result: Ok(None) }
    } else {
        match v.source_of(t) {
            None => Outcome { view: v, result: Ok(None) },
            Some(src) => {
                let memo = v.terminals[src].val;
                let b = v.terminals[src].parent;
                match v.blocks[b].block_type {
                    BlockType::EFFECT(k) => {
                        if fuel == 0 {
                            Outcome { view: v, result: Err(ProcessError::Cycle) }
                        } else {
                            effect_outcome(
                                eval_inputs(
                                    v,
                                    fx,
                                    v.blocks[b].in_idx@,
                                    v.blocks[b].in_idx@.len(),
                                    force,
                                    (fuel - 1) as nat,
                                ),
                                fx,
                                k,
                                v.blocks[b].out_idx@,
                                src,
                                t,
                                force,
                            )
                        }
                    },
                    other => {
                        if memo.is_some() && !force {
                            Outcome { view: v.with_val(t, memo), result: Ok(memo) }
                        } else {
                            match other {
                                BlockType::SOURCE(SourceType::CONSTANT) => Outcome { view: v, result: Ok(memo) },
                                BlockType::SOURCE(SourceType::AUDIO) => Outcome {
                                    view: v,
                                    result: Err(ProcessError::UnsupportedSource),
                                },
                                _ => Outcome { view: v, result: Ok(None) },
                            }
                        }
                    },
                }
            },
        }
    }
}

/// Whether the evaluation from terminal `t` goes through an effect: `t` is a
/// live IN terminal fed by an output of an effect block. Every other
/// evaluation is decided by the editor's contents alone.
pub open spec fn asks_effect(v: EditorView, t: TerminalId) -> bool {
    &&& v.terminals.dom().contains(t)
    &&& v.terminals[t].io == TermType::IN
    &&& v.source_of(t).is_some()
    &&& is_effect(v.blocks[v.terminals[v.source_of(t).unwrap()].parent].block_type)
}

/// An evaluation that goes through no effect is the same whatever the effect
/// function is.
pub proof fn lemma_eval_without_effect(
    v: EditorView,
    fx1: spec_fn(EffectType, Seq<Scalar>) -> Seq<Scalar>,
    fx2: spec_fn(EffectType, Seq<Scalar>) -> Seq<Scalar>,
    t: TerminalId,
    force: bool,
    fuel1: nat,
    fuel2: nat,
)
    requires
        !asks_effect(v, t),
    ensures
        eval(v, fx1, t, force, fuel1) == eval(v, fx2, t, force, fuel2),
{
}

/// The evaluation of the first `n` of the inputs `ins`, in order, each from
/// the state the one before it left. The first error ends it.
pub open spec fn eval_inputs(
    v: EditorView,
    fx: spec_fn(EffectType, Seq<Scalar>) -> Seq<Scalar>,
    ins: Seq<TerminalId>,
    n: nat,
    force: bool,
    fuel: nat,
) -> InputsOutcome
    decreases fuel, n + 1,
{
    if n == 0 {
        InputsOutcome { view: v, result: Ok(Seq::empty()) }
    } else {
        let prev = eval_inputs(v, fx, ins, (n - 1) as nat, force, fuel);
        match prev.result {
            Err(_) => prev,
            Ok(args) => {
                let o = eval(prev.view, fx, ins[n - 1], force, fuel);
                match o.result {
                    Err(e) => InputsOutcome { view: o.view, result: Err(e) },
                    Ok(x) => InputsOutcome { view: o.view, result: Ok(args.push(x)) },
                }
            },
        }
    }
}

/// What an effect of kind `k` with the outputs `outs` does once its inputs
/// are evaluated; `src` is the output that was asked for, by the terminal
/// `t`. An absent input value clears every output and gives `None`, before
/// anything memoized is looked at.
pub open spec fn effect_outcome(
    ins: InputsOutcome,
    fx: spec_fn(EffectType, Seq<Scalar>) -> Seq<Scalar>,
    k: EffectType,
    outs: Seq<TerminalId>,
    src: TerminalId,
    t: TerminalId,
    force: bool,
) -> Outcome {
    match ins.result {
        Err(e) => Outcome { view: ins.view, result: Err(e) },
        Ok(args) => {
            if !all_some(args) {
                Outcome { view: with_vals(ins.view, outs, nones(outs.len())), result: Ok(None) }
            } else if !force && ins.view.terminals[src].val.is_some() {
                Outcome {
                    view: ins.view.with_val(t, ins.view.terminals[src].val),
                    result: Ok(ins.view.terminals[src].val),
                }
            } else if fx(k, unwrapped(args)).len() != outs.len() {
                Outcome { view: ins.view, result: Err(ProcessError::EffectArity) }
            } else {
                Outcome {
                    view: with_vals(ins.view, outs, somes(fx(k, unwrapped(args)))),
                    result: Ok(with_vals(ins.view, outs, somes(fx(k, unwrapped(args)))).terminals[src].val),
                }
            }
        },
    }
}

/// Two terminals agree in everything but the memoized value.
pub open spec fn same_but_val(a: Terminal, b: Terminal) -> bool {
    b == (Terminal { val: b.val, ..a })
}

/// Terminal `t` is an output of a block that is no effect; evaluation never
/// writes to such a terminal.
pub open spec fn keeps_val(v: EditorView, t: TerminalId) -> bool {
    v.terminals[t].io == TermType::OUT && !is_effect(v.blocks[v.terminals[t].parent].block_type)
}

/// `w` differs from `v` at most in memoized values, and in none of a source.
pub open spec fn vals_changed_only(v: EditorView, w: EditorView) -> bool {
    &&& w.blocks == v.blocks
    &&& w.edges == v.edges
    &&& w.selected == v.selected
    &&& w.terminals.dom() == v.terminals.dom()
    &&& forall|t: TerminalId| #[trigger]
        v.terminals.dom().contains(t) ==> same_but_val(v.terminals[t], w.terminals[t]) && (keeps_val(v, t)
            ==> w.terminals[t].val == v.terminals[t].val)
}

/// A change of memoized values keeps the invariant.
pub proof fn lemma_vals_changed_wf(v: EditorView, w: EditorView)
    requires
        v.wf(),
        vals_changed_only(v, w),
    ensures
        w.wf(),
{
    assert forall|b: BlockId| w.blocks.dom().contains(b) implies w.block_ok(b) by {
        assert(v.block_ok(b));
        let blk = v.blocks[b];
        assert forall|i: int| 0 <= i < blk.in_idx@.len() implies w.is_input_of(#[trigger] blk.in_idx@[i], b) by {
            assert(v.is_input_of(blk.in_idx@[i], b));
        }
        assert forall|i: int| 0 <= i < blk.out_idx@.len() implies w.is_output_of(#[trigger] blk.out_idx@[i], b) by {
            assert(v.is_output_of(blk.out_idx@[i], b));
        }
        if blk.block_type == BlockType::SOURCE(SourceType::CONSTANT) {
            assert(v.is_output_of(blk.out_idx@[0], b));
            assert(keeps_val(v, blk.out_idx@[0]));
        }
        if is_iterator_target(blk.block_type) {
            assert(v.input_names_distinct(b));
            assert forall|i: int, j: int| 0 <= i < j < blk.in_idx@.len() implies w.terminals[blk.in_idx@[i]].name@
                != w.terminals[blk.in_idx@[j]].name@ by {
                assert(v.is_input_of(blk.in_idx@[i], b));
                assert(v.is_input_of(blk.in_idx@[j], b));
            }
        }
    }
    assert forall|t: TerminalId| w.terminals.dom().contains(t) implies w.terminal_ok(t) by {
        assert(v.terminal_ok(t));
    }
    assert forall|e: u32| w.edges.dom().contains(e) implies w.edge_ok(e) by {
        assert(v.edge_ok(e));
    }
}

/// Changes of memoized values compose.
pub proof fn lemma_vals_changed_trans(a: EditorView, b: EditorView, c: EditorView)
    requires
        vals_changed_only(a, b),
        vals_changed_only(b, c),
    ensures
        vals_changed_only(a, c),
{
    assert forall|t: TerminalId| #[trigger] a.terminals.dom().contains(t) implies same_but_val(
        a.terminals[t],
        c.terminals[t],
    ) && (keeps_val(a, t) ==> c.terminals[t].val == a.terminals[t].val) by {
        assert(b.terminals.dom().contains(t));
    }
}

/// Replacing the value of a live terminal that is no output of a source is a
/// change of memoized values.
pub proof fn lemma_with_val_changed(v: EditorView, t: TerminalId, x: Option<Scalar>)
    requires
        v.terminals.dom().contains(t),
        !keeps_val(v, t),
    ensures
        vals_changed_only(v, v.with_val(t, x)),
        v.with_val(t, x).terminals == set_val(v.terminals, t, x),
{
    assert(v.with_val(t, x).terminals.dom() =~= v.terminals.dom());
}

/// Replacing the values of live outputs of an effect block is a change of
/// memoized values.
pub proof fn lemma_with_vals_changed(v: EditorView, ids: Seq<TerminalId>, vals: Seq<Option<Scalar>>)
    requires
        ids.len() == vals.len(),
        forall|i: int| 0 <= i < ids.len() ==> v.terminals.dom().contains(#[trigger] ids[i]) && !keeps_val(v, ids[i]),
    ensures
        vals_changed_only(v, with_vals(v, ids, vals)),
    decreases ids.len(),
{
    if ids.len() > 0 {
        let ids0 = ids.drop_last();
        let vals0 = vals.drop_last();
        assert forall|i: int| 0 <= i < ids0.len() implies v.terminals.dom().contains(#[trigger] ids0[i])
            && !keeps_val(v, ids0[i]) by {
            assert(ids0[i] == ids[i]);
        }
        lemma_with_vals_changed(v, ids0, vals0);
        let mid = with_vals(v, ids0, vals0);
        let t = ids.last();
        assert(v.terminals.dom().contains(ids[ids.len() - 1]));
        assert(mid.terminals.dom().contains(t));
        assert(!keeps_val(mid, t));
        lemma_with_val_changed(mid, t, vals.last());
        assert(with_vals(v, ids, vals) == mid.with_val(t, vals.last()));
        lemma_vals_changed_trans(v, mid, with_vals(v, ids, vals));
    }
}

/// Once an input has failed, evaluating further inputs changes nothing.
pub proof fn lemma_inputs_error_stays(
    v: EditorView,
    fx: spec_fn(EffectType, Seq<Scalar>) -> Seq<Scalar>,
    ins: Seq<TerminalId>,
    m: nat,
    n: nat,
    force: bool,
    fuel: nat,
)
    requires
        m <= n,
        eval_inputs(v, fx, ins, m, force, fuel).result.is_err(),
    ensures
        eval_inputs(v, fx, ins, n, force, fuel) == eval_inputs(v, fx, ins, m, force, fuel),
    decreases n,
{
    if m < n {
        lemma_inputs_error_stays(v, fx, ins, m, (n - 1) as nat, force, fuel);
    }
}

/// Evaluation changes memoized values and nothing else.
pub proof fn lemma_eval_changes_vals_only(
    v: EditorView,
    fx: spec_fn(EffectType, Seq<Scalar>) -> Seq<Scalar>,
    t: TerminalId,
    force: bool,
    fuel: nat,
)
    requires
        v.wf(),
    ensures
        vals_changed_only(v, eval(v, fx, t, force, fuel).view),
    decreases fuel, 0nat,
{
    if !v.terminals.dom().contains(t) || v.terminals[t].io != TermType::IN {
    } else {
        match v.source_of(t) {
            None => {},
            Some(src) => {
                let memo = v.terminals[src].val;
                let b = v.terminals[src].parent;
                match v.blocks[b].block_type {
                    BlockType::EFFECT(k) => {
                        if fuel > 0 {
                            let ins_ids = v.blocks[b].in_idx@;
                            let outs = v.blocks[b].out_idx@;
                            lemma_eval_inputs_changes_vals_only(
                                v,
                                fx,
                                ins_ids,
                                ins_ids.len(),
                                force,
                                (fuel - 1) as nat,
                            );
                            let ins = eval_inputs(v, fx, ins_ids, ins_ids.len(), force, (fuel - 1) as nat);
                            match ins.result {
                                Err(_) => {},
                                Ok(args) => {
                                    let e = choose|e: u32| v.leads_into(e, t);
                                    assert(v.edge_ok(e));
                                    assert(v.terminal_ok(src));
                                    assert(v.block_ok(b));
                                    assert forall|i: int| 0 <= i < outs.len() implies ins.view.terminals.dom().contains(
                                        #[trigger] outs[i],
                                    ) && !keeps_val(ins.view, outs[i]) by {
                                        assert(v.is_output_of(outs[i], b));
                                    }
                                    if !all_some(args) {
                                        lemma_with_vals_changed(ins.view, outs, nones(outs.len()));
                                        lemma_vals_changed_trans(
                                            v,
                                            ins.view,
                                            with_vals(ins.view, outs, nones(outs.len())),
                                        );
                                    } else if !force && ins.view.terminals[src].val.is_some() {
                                        let memo2 = ins.view.terminals[src].val;
                                        lemma_with_val_changed(ins.view, t, memo2);
                                        lemma_vals_changed_trans(v, ins.view, ins.view.with_val(t, memo2));
                                    } else if fx(k, unwrapped(args)).len() == outs.len() {
                                        let o = somes(fx(k, unwrapped(args)));
                                        lemma_with_vals_changed(ins.view, outs, o);
                                        lemma_vals_changed_trans(v, ins.view, with_vals(ins.view, outs, o));
                                    }
                                },
                            }
                        }
                    },
                    _ => {
                        if memo.is_some() && !force {
                            lemma_with_val_changed(v, t, memo);
                        }
                    },
                }
            },
        }
    }
}

/// Evaluating inputs changes memoized values and nothing else.
pub proof fn lemma_eval_inputs_changes_vals_only(
    v: EditorView,
    fx: spec_fn(EffectType, Seq<Scalar>) -> Seq<Scalar>,
    ins: Seq<TerminalId>,
    n: nat,
    force: bool,
    fuel: nat,
)
    requires
        v.wf(),
    ensures
        vals_changed_only(v, eval_inputs(v, fx, ins, n, force, fuel).view),
    decreases fuel, n + 1,
{
    if n > 0 {
        lemma_eval_inputs_changes_vals_only(v, fx, ins, (n - 1) as nat, force, fuel);
        let prev = eval_inputs(v, fx, ins, (n - 1) as nat, force, fuel);
        match prev.result {
            Err(_) => {},
            Ok(_) => {
                lemma_vals_changed_wf(v, prev.view);
                lemma_eval_changes_vals_only(prev.view, fx, ins[n - 1], force, fuel);
                lemma_vals_changed_trans(v, prev.view, eval(prev.view, fx, ins[n - 1], force, fuel).view);
            },
        }
    }
}

/// Where the first `n` inputs were evaluated without error, each of them was,
/// and its value is what evaluation gave from the state the inputs before it
/// left.
pub proof fn lemma_inputs_entry(
    v: EditorView,
    fx: spec_fn(EffectType, Seq<Scalar>) -> Seq<Scalar>,
    ins: Seq<TerminalId>,
    n: nat,
    j: nat,
    force: bool,
    fuel: nat,
)
    requires
        j < n,
        eval_inputs(v, fx, ins, n, force, fuel).result.is_ok(),
    ensures
        eval_inputs(v, fx, ins, n, force, fuel).result.unwrap().len() == n,
        eval_inputs(v, fx, ins, j, force, fuel).result.is_ok(),
        eval(eval_inputs(v, fx, ins, j, force, fuel).view, fx, ins[j as int], force, fuel).result == Ok::<
            Option<Scalar>,
            ProcessError,
        >(eval_inputs(v, fx, ins, n, force, fuel).result.unwrap()[j as int]),
    decreases n,
{
    let prev = eval_inputs(v, fx, ins, (n - 1) as nat, force, fuel);
    lemma_inputs_len(v, fx, ins, (n - 1) as nat, force, fuel);
    if j < n - 1 {
        lemma_inputs_entry(v, fx, ins, (n - 1) as nat, j, force, fuel);
    }
}

/// Where the first `n` inputs were evaluated without error, there are `n`
/// values.
pub proof fn lemma_inputs_len(
    v: EditorView,
    fx: spec_fn(EffectType, Seq<Scalar>) -> Seq<Scalar>,
    ins: Seq<TerminalId>,
    n: nat,
    force: bool,
    fuel: nat,
)
    ensures
        eval_inputs(v, fx, ins, n, force, fuel).result.is_ok() ==> eval_inputs(
            v,
            fx,
            ins,
            n,
            force,
            fuel,
        ).result.unwrap().len() == n,
    decreases n,
{
    if n > 0 {
        lemma_inputs_len(v, fx, ins, (n - 1) as nat, force, fuel);
    }
}

/// After the listed terminals were cleared, each of them holds no value.
pub proof fn lemma_set_vals_nones(m: Map<TerminalId, Terminal>, ids: Seq<TerminalId>, i: int)
    requires
        0 <= i < ids.len(),
    ensures
        set_vals(m, ids, nones(ids.len()))[ids[i]].val.is_none(),
    decreases ids.len(),
{
    assert(nones(ids.len()).drop_last() =~= nones(ids.drop_last().len()));
    if i < ids.len() - 1 {
        lemma_set_vals_nones(m, ids.drop_last(), i);
        assert(ids.drop_last()[i] == ids[i]);
    }
}

/// In a well-formed editor the source of a terminal depends on the edges
/// alone.
pub proof fn lemma_source_same(v: EditorView, w: EditorView, t: TerminalId)
    requires
        v.single_incoming(),
        w.edges == v.edges,
    ensures
        w.source_of(t) == v.source_of(t),
{
    if exists|e: u32| v.leads_into(e, t) {
        let e = choose|e: u32| v.leads_into(e, t);
        assert(w.leads_into(e, t));
        crate::editor_view::lemma_source_of(v, e, t);
        crate::editor_view::lemma_source_of(w, e, t);
    } else {
        assert forall|e: u32| !w.leads_into(e, t) by {
            assert(!v.leads_into(e, t));
        }
    }
}

} // verus!
