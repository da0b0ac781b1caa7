use ifsrs::automation::AutomationEditor;
use ifsrs::blocks::BlockArchetype;
use ifsrs::blocks::BlockType;
use ifsrs::blocks::EffectType;
use ifsrs::blocks::Point;
use ifsrs::blocks::Scalar;
use ifsrs::blocks::SourceType;
use ifsrs::blocks::TargetType;
use ifsrs::evaluation::ProcessError;

fn s(x: f32) -> Scalar {
    Scalar::from_bits(x.to_bits())
}

fn f(x: Scalar) -> f32 {
    f32::from_bits(x.to_bits())
}

fn square(x: f32) -> f32 {
    x * x
}

fn effect(kind: EffectType, args: Vec<Scalar>) -> Vec<Scalar> {
    let a: Vec<f32> = args.iter().map(|x| f(*x)).collect();
    let half_pi = std::f32::consts::FRAC_PI_2;
    let out = match kind {
        EffectType::ADD => vec![a[0] + a[1]],
        EffectType::SUB => vec![a[0] - a[1]],
        EffectType::MUL => vec![a[0] * a[1]],
        EffectType::DIV => vec![a[0] / a[1]],
        EffectType::MOD => vec![a[0] % a[1]],
        EffectType::NEG => vec![-a[0]],
        EffectType::INV => vec![1.0 / a[0]],
        EffectType::SIN => vec![a[0].sin()],
        EffectType::COS => vec![a[0].cos()],
        EffectType::TAN => vec![a[0].tan()],
        EffectType::COT => vec![-(a[0] + half_pi).tan()],
        EffectType::SEC => vec![a[0].tan() / a[0].sin()],
        EffectType::CSC => vec![-(a[0] + half_pi).tan() / a[0].cos()],
        EffectType::P2C => vec![a[0] * a[1].cos(), a[0] * a[1].sin()],
        EffectType::C2P => vec![(square(a[0]) + square(a[1])).sqrt(), (a[1] / a[0]).atan()],
        EffectType::S2C => vec![a[0] * a[1].sin() * a[2].cos(), a[0] * a[1].sin() * a[2].sin(), a[0] * a[1].cos()],
        EffectType::C2S => {
            let r = (square(a[0]) + square(a[1]) + square(a[2])).sqrt();
            let r_d = (square(a[0]) + square(a[1])).sqrt();
            vec![r, (a[2] / r).acos(), a[1].signum() * a[1].acos() / r_d]
        }
    };
    out.into_iter().map(s).collect()
}

fn broken(_kind: EffectType, _args: Vec<Scalar>) -> Vec<Scalar> {
    Vec::new()
}

fn add(ed: &mut AutomationEditor, t: BlockType) -> u64 {
    ed.add_block(&BlockArchetype::from_type(t), Point::origin())
}

fn constant(ed: &mut AutomationEditor, x: f32) -> u32 {
    let b = add(ed, BlockType::SOURCE(SourceType::CONSTANT));
    assert!(ed.set_constant(b, s(x), x.to_string()));
    ed.block(b).unwrap().out_idx[0]
}

fn display(ed: &mut AutomationEditor) -> u32 {
    let b = add(ed, BlockType::TARGET(TargetType::DISPLAY));
    ed.block(b).unwrap().in_idx[0]
}

fn wire(ed: &mut AutomationEditor, kind: EffectType, inputs: &[f32]) -> (u64, Vec<u32>) {
    let b = add(ed, BlockType::EFFECT(kind));
    let ins = ed.block(b).unwrap().in_idx.clone();
    let outs = ed.block(b).unwrap().out_idx.clone();
    assert_eq!(ins.len(), inputs.len());
    for (i, x) in inputs.iter().enumerate() {
        let c = constant(ed, *x);
        assert!(ed.connect(c, ins[i]));
    }
    let mut probes = Vec::new();
    for o in outs {
        let d = display(ed);
        assert!(ed.connect(o, d));
        probes.push(d);
    }
    (b, probes)
}

fn run(kind: EffectType, inputs: &[f32]) -> Vec<f32> {
    let mut ed = AutomationEditor::new();
    let (_, probes) = wire(&mut ed, kind, inputs);
    probes.iter().map(|p| f(ed.process(*p, true, &effect).unwrap().unwrap())).collect()
}

#[test]
fn unconnected_terminal_gives_none() {
    let mut ed = AutomationEditor::new();
    let d = display(&mut ed);
    assert_eq!(ed.process(d, true, &effect), Ok(None));
    assert_eq!(ed.process(d, false, &effect), Ok(None));
    assert_eq!(ed.process(4242, true, &effect), Ok(None));
}

#[test]
fn out_terminal_gives_none() {
    let mut ed = AutomationEditor::new();
    let c = constant(&mut ed, 3.0);
    let d = display(&mut ed);
    ed.connect(c, d);
    assert_eq!(ed.process(c, true, &effect), Ok(None));
    assert_eq!(ed.terminal(c).unwrap().val, Some(s(3.0)));
}

#[test]
fn constant_is_returned_under_force() {
    let mut ed = AutomationEditor::new();
    let c = constant(&mut ed, 3.25);
    let d = display(&mut ed);
    ed.connect(c, d);
    assert_eq!(ed.process(d, true, &effect), Ok(Some(s(3.25))));
    assert_eq!(ed.terminal(d).unwrap().val, None);
    assert_eq!(ed.process(d, false, &effect), Ok(Some(s(3.25))));
    assert_eq!(ed.terminal(d).unwrap().val, Some(s(3.25)));
}

#[test]
fn arithmetic_through_the_graph() {
    assert_eq!(run(EffectType::ADD, &[3.0, 4.0]), vec![7.0]);
    assert_eq!(run(EffectType::SUB, &[3.0, 4.0]), vec![-1.0]);
    assert_eq!(run(EffectType::MUL, &[3.0, 4.0]), vec![12.0]);
    assert_eq!(run(EffectType::DIV, &[8.0, 2.0]), vec![4.0]);
    assert_eq!(run(EffectType::MOD, &[7.0, 3.0]), vec![1.0]);
    assert_eq!(run(EffectType::NEG, &[5.0]), vec![-5.0]);
    assert_eq!(run(EffectType::INV, &[4.0]), vec![0.25]);
}

#[test]
fn coordinates_through_the_graph() {
    assert_eq!(run(EffectType::P2C, &[2.0, 0.0]), vec![2.0, 0.0]);
    assert_eq!(run(EffectType::C2P, &[1.0, 0.0]), vec![1.0, 0.0]);
    assert_eq!(run(EffectType::S2C, &[1.0, 0.0, 0.0]), vec![0.0, 0.0, 1.0]);
}

#[test]
fn argument_order_is_positional() {
    assert_eq!(run(EffectType::SUB, &[10.0, 1.0]), vec![9.0]);
    assert_eq!(run(EffectType::DIV, &[1.0, 4.0]), vec![0.25]);
    let out = run(EffectType::P2C, &[3.0, std::f32::consts::PI]);
    assert!((out[0] + 3.0).abs() < 1e-5);
    assert!(out[1].abs() < 1e-5);
}

#[test]
fn division_by_zero_is_not_guarded() {
    let out = run(EffectType::DIV, &[1.0, 0.0]);
    assert!(out[0].is_infinite());
    let out = run(EffectType::INV, &[0.0]);
    assert!(out[0].is_infinite());
    let mut ed = AutomationEditor::new();
    let (_, probes) = wire(&mut ed, EffectType::DIV, &[0.0, 0.0]);
    let v = ed.process(probes[0], true, &effect).unwrap().unwrap();
    assert!(f(v).is_nan());
}

#[test]
fn effect_with_unconnected_input_gives_none_on_every_output() {
    let mut ed = AutomationEditor::new();
    let b = add(&mut ed, BlockType::EFFECT(EffectType::S2C));
    let ins = ed.block(b).unwrap().in_idx.clone();
    let outs = ed.block(b).unwrap().out_idx.clone();
    let c0 = constant(&mut ed, 1.0);
    let c1 = constant(&mut ed, 0.0);
    let c2 = constant(&mut ed, 0.0);
    ed.connect(c0, ins[0]);
    ed.connect(c1, ins[1]);
    ed.connect(c2, ins[2]);
    let probes: Vec<u32> = outs
        .iter()
        .map(|o| {
            let d = display(&mut ed);
            ed.connect(*o, d);
            d
        })
        .collect();
    assert_eq!(ed.process(probes[2], true, &effect), Ok(Some(s(1.0))));
    for o in outs.iter() {
        assert!(ed.terminal(*o).unwrap().val.is_some());
    }
    ed.disconnect_terminal(ins[1]);
    for p in probes.iter() {
        assert_eq!(ed.process(*p, true, &effect), Ok(None));
        for o in outs.iter() {
            assert_eq!(ed.terminal(*o).unwrap().val, None);
        }
    }
}

#[test]
fn none_propagates_through_a_chain() {
    let mut ed = AutomationEditor::new();
    let neg = add(&mut ed, BlockType::EFFECT(EffectType::NEG));
    let sum = add(&mut ed, BlockType::EFFECT(EffectType::ADD));
    let c = constant(&mut ed, 2.0);
    let d = display(&mut ed);
    let neg_in = ed.block(neg).unwrap().in_idx[0];
    let neg_out = ed.block(neg).unwrap().out_idx[0];
    let x = ed.block(sum).unwrap().in_idx[0];
    let y = ed.block(sum).unwrap().in_idx[1];
    let z = ed.block(sum).unwrap().out_idx[0];
    ed.connect(neg_out, x);
    ed.connect(c, y);
    ed.connect(z, d);
    assert_eq!(ed.process(d, true, &effect), Ok(None));
    assert_eq!(ed.terminal(z).unwrap().val, None);
    assert_eq!(ed.terminal(neg_out).unwrap().val, None);
    ed.connect(c, neg_in);
    assert_eq!(ed.process(d, true, &effect), Ok(Some(s(0.0))));
    assert_eq!(ed.terminal(neg_out).unwrap().val, Some(s(-2.0)));
    assert_eq!(ed.terminal(z).unwrap().val, Some(s(0.0)));
}

#[test]
fn memoized_value_is_used_unless_forced() {
    let mut ed = AutomationEditor::new();
    let neg = add(&mut ed, BlockType::EFFECT(EffectType::NEG));
    let cb = add(&mut ed, BlockType::SOURCE(SourceType::CONSTANT));
    ed.set_constant(cb, s(2.0), "2".to_string());
    let c = ed.block(cb).unwrap().out_idx[0];
    let d = display(&mut ed);
    let neg_in = ed.block(neg).unwrap().in_idx[0];
    let neg_out = ed.block(neg).unwrap().out_idx[0];
    ed.connect(c, neg_in);
    ed.connect(neg_out, d);
    assert_eq!(ed.process(d, false, &effect), Ok(Some(s(-2.0))));
    ed.set_constant(cb, s(5.0), "5".to_string());
    assert_eq!(ed.process(d, false, &effect), Ok(Some(s(-2.0))));
    assert_eq!(ed.terminal(d).unwrap().val, Some(s(-2.0)));
    assert_eq!(ed.process(d, true, &effect), Ok(Some(s(-5.0))));
    assert_eq!(ed.terminal(neg_out).unwrap().val, Some(s(-5.0)));
}

#[test]
fn audio_source_is_unsupported() {
    let mut ed = AutomationEditor::new();
    let a = add(&mut ed, BlockType::SOURCE(SourceType::AUDIO));
    let out = ed.block(a).unwrap().out_idx[0];
    let d = display(&mut ed);
    ed.connect(out, d);
    assert_eq!(ed.process(d, true, &effect), Err(ProcessError::UnsupportedSource));
    assert_eq!(ed.process(d, false, &effect), Err(ProcessError::UnsupportedSource));
    let neg = add(&mut ed, BlockType::EFFECT(EffectType::NEG));
    let neg_in = ed.block(neg).unwrap().in_idx[0];
    let neg_out = ed.block(neg).unwrap().out_idx[0];
    let d2 = display(&mut ed);
    ed.connect(out, neg_in);
    ed.connect(neg_out, d2);
    assert_eq!(ed.process(d2, true, &effect), Err(ProcessError::UnsupportedSource));
}

#[test]
fn effect_feeding_itself_is_a_cycle() {
    let mut ed = AutomationEditor::new();
    let neg = add(&mut ed, BlockType::EFFECT(EffectType::NEG));
    let neg_in = ed.block(neg).unwrap().in_idx[0];
    let neg_out = ed.block(neg).unwrap().out_idx[0];
    let d = display(&mut ed);
    ed.connect(neg_out, neg_in);
    ed.connect(neg_out, d);
    assert_eq!(ed.process(d, true, &effect), Err(ProcessError::Cycle));
    assert_eq!(ed.process(d, false, &effect), Err(ProcessError::Cycle));
    assert_eq!(ed.edge_count(), 2);
    assert_eq!(ed.terminal_count(), 3);
}

#[test]
fn deep_chain_is_no_cycle() {
    let mut ed = AutomationEditor::new();
    let mut prev = constant(&mut ed, 1.0);
    for _ in 0..40 {
        let neg = add(&mut ed, BlockType::EFFECT(EffectType::NEG));
        let neg_in = ed.block(neg).unwrap().in_idx[0];
        let neg_out = ed.block(neg).unwrap().out_idx[0];
        ed.connect(prev, neg_in);
        prev = neg_out;
    }
    let d = display(&mut ed);
    ed.connect(prev, d);
    assert_eq!(ed.process(d, true, &effect), Ok(Some(s(1.0))));
}

#[test]
fn effect_of_wrong_arity_is_reported() {
    let mut ed = AutomationEditor::new();
    let (b, probes) = wire(&mut ed, EffectType::ADD, &[1.0, 2.0]);
    assert_eq!(ed.process(probes[0], true, &broken), Err(ProcessError::EffectArity));
    let z = ed.block(b).unwrap().out_idx[0];
    assert_eq!(ed.terminal(z).unwrap().val, None);
    assert_eq!(ed.process(probes[0], true, &effect), Ok(Some(s(3.0))));
}

#[test]
fn shared_subgraph_feeds_two_probes() {
    let mut ed = AutomationEditor::new();
    let (b, probes) = wire(&mut ed, EffectType::P2C, &[2.0, 0.0]);
    let outs = ed.block(b).unwrap().out_idx.clone();
    assert_eq!(ed.process(probes[0], true, &effect), Ok(Some(s(2.0))));
    assert_eq!(ed.terminal(outs[0]).unwrap().val, Some(s(2.0)));
    assert_eq!(ed.terminal(outs[1]).unwrap().val, Some(s(0.0)));
    assert_eq!(ed.process(probes[1], false, &effect), Ok(Some(s(0.0))));
}

#[test]
fn process_keeps_the_topology() {
    let mut ed = AutomationEditor::new();
    let (_, probes) = wire(&mut ed, EffectType::MUL, &[2.0, 8.0]);
    let blocks = ed.block_count();
    let terminals = ed.terminal_count();
    let mut edges = ed.edges();
    edges.sort();
    assert_eq!(ed.process(probes[0], true, &effect), Ok(Some(s(16.0))));
    assert_eq!(ed.block_count(), blocks);
    assert_eq!(ed.terminal_count(), terminals);
    let mut after = ed.edges();
    after.sort();
    assert_eq!(after, edges);
}

#[test]
fn a_frame_feeds_the_probes_that_wait() {
    let mut ed = AutomationEditor::new();
    let (_, probes) = wire(&mut ed, EffectType::C2P, &[3.0, 4.0]);
    let loose = display(&mut ed);
    let mut queue = ed.display_queue(None);
    queue.sort();
    let mut want = vec![probes[0], probes[1], loose];
    want.sort();
    assert_eq!(queue, want);
    for t in queue {
        let v = ed.process(t, true, &effect).unwrap();
        let label = v.map(f).unwrap_or(f32::NAN).to_string();
        assert!(ed.show(t, v, label));
    }
    assert_eq!(ed.terminal(probes[0]).unwrap().val, Some(s(5.0)));
    assert_eq!(ed.terminal(probes[0]).unwrap().name, "5");
    assert_eq!(ed.terminal(loose).unwrap().val, None);
    assert_eq!(ed.terminal(loose).unwrap().name, "NaN");
    assert_eq!(ed.display_queue(None), vec![loose]);
}

#[test]
fn unforced_call_sees_a_disconnected_input() {
    let mut ed = AutomationEditor::new();
    let sum = add(&mut ed, BlockType::EFFECT(EffectType::P2C));
    let ins = ed.block(sum).unwrap().in_idx.clone();
    let outs = ed.block(sum).unwrap().out_idx.clone();
    let a = constant(&mut ed, 2.0);
    let b = constant(&mut ed, 0.0);
    let d = display(&mut ed);
    ed.connect(a, ins[0]);
    ed.connect(b, ins[1]);
    ed.connect(outs[0], d);
    assert_eq!(ed.process(d, false, &effect), Ok(Some(s(2.0))));
    assert_eq!(ed.terminal(outs[0]).unwrap().val, Some(s(2.0)));
    assert_eq!(ed.terminal(outs[1]).unwrap().val, Some(s(0.0)));
    ed.disconnect_terminal(ins[1]);
    assert_eq!(ed.terminal(outs[0]).unwrap().val, Some(s(2.0)));
    assert_eq!(ed.process(d, false, &effect), Ok(None));
    for o in outs.iter() {
        assert_eq!(ed.terminal(*o).unwrap().val, None);
    }
    ed.connect(b, ins[1]);
    assert_eq!(ed.process(d, false, &effect), Ok(Some(s(2.0))));
}

#[test]
fn unforced_call_sees_a_disconnection_further_back() {
    let mut ed = AutomationEditor::new();
    let neg = add(&mut ed, BlockType::EFFECT(EffectType::NEG));
    let inv = add(&mut ed, BlockType::EFFECT(EffectType::INV));
    let c = constant(&mut ed, 4.0);
    let d = display(&mut ed);
    let neg_in = ed.block(neg).unwrap().in_idx[0];
    let neg_out = ed.block(neg).unwrap().out_idx[0];
    let inv_in = ed.block(inv).unwrap().in_idx[0];
    let inv_out = ed.block(inv).unwrap().out_idx[0];
    ed.connect(c, neg_in);
    ed.connect(neg_out, inv_in);
    ed.connect(inv_out, d);
    assert_eq!(ed.process(d, false, &effect), Ok(Some(s(-0.25))));
    ed.disconnect_terminal(neg_in);
    assert_eq!(ed.process(d, false, &effect), Ok(None));
    assert_eq!(ed.terminal(neg_out).unwrap().val, None);
    assert_eq!(ed.terminal(inv_out).unwrap().val, None);
}
