use ifsrs::dispatch::extract_programs;
use ifsrs::dispatch::frame_done;
use ifsrs::dispatch::same_programs;
use ifsrs::dispatch::same_reals;
use ifsrs::dispatch::same_vec3s;
use ifsrs::dispatch::Command;
use ifsrs::dispatch::Parameters;
use ifsrs::dispatch::ResourceManager;
use ifsrs::dispatch::SceneError;
use ifsrs::dispatch::UpdateError;
use ifsrs::resources::bind_group_entries;
use ifsrs::resources::histogram_bytes;
use ifsrs::resources::BufferKind;
use ifsrs::resources::DISPATCH_SEED;
use ifsrs::resources::HISTOGRAM_HEIGHT;
use ifsrs::resources::HISTOGRAM_WIDTH;
use ifsrs::resources::MAX_ITERATORS;
use ifsrs::resources::MAX_PALETTE_COLORS;
use ifsrs::resources::MAX_PARAMS;
use ifsrs::resources::MAX_XAOS;
use ifsrs::resources::WORKGROUP_SIZE;
use ifsrs::scene::Iterator;
use ifsrs::scene::RealParam;
use ifsrs::scene::Transform;
use ifsrs::scene::TransformSource;
use ifsrs::scene::Vec3Param;
use ifsrs::scene::Wgsl;
use ifsrs::scene::IFS;

fn transform(source: &str, reals: usize, vec3s: usize) -> Transform {
    Transform::from_source(
        TransformSource {
            name: "t".to_string(),
            version: "1".to_string(),
            tags: vec![],
            real_params: Some((0..reals).map(|i| RealParam { name: format!("r{}", i), value: i as u64 }).collect()),
            vec3_params: Some(
                (0..vec3s).map(|i| Vec3Param { name: format!("v{}", i), x: 1, y: 2, z: 3 }).collect(),
            ),
            wgsl: Wgsl { src: source.to_string() },
        },
        "".to_string(),
    )
}

fn scene(width: u32, height: u32, sources: &[&str]) -> IFS {
    let its = sources
        .iter()
        .enumerate()
        .map(|(i, s)| Iterator::new(i as i32, format!("it{}", i), transform(s, 1, 1)))
        .collect();
    let mut s = IFS::new("s".to_string(), its);
    s.width = width;
    s.height = height;
    s
}

fn reset(width: u32, height: u32) -> Command {
    Command::WriteParameters(Parameters {
        seed: 699912576,
        width,
        height,
        dispatch_cnt: 0,
        reset_points_state: 0,
        invocation_iters: 0,
        padding_1: 0,
        padding_2: 0,
    })
}

fn always(s: &IFS) -> Vec<Command> {
    vec![
        Command::WriteIterators { count: s.iterators.len() as u32 },
        Command::ZeroState { bytes: 8192 },
        Command::WriteSettings {
            itnum: s.iterators.len() as u32,
            palettecnt: 256,
            warmup: s.fuse,
            entropy: s.entropy,
        },
        Command::WritePalette { colors: 256 },
        reset(s.width, s.height),
        Command::ResizeTarget { width: s.width, height: s.height },
        Command::PublishTexture,
    ]
}

#[test]
fn design_limits() {
    assert_eq!(HISTOGRAM_WIDTH, 1920);
    assert_eq!(HISTOGRAM_HEIGHT, 1080);
    assert_eq!(WORKGROUP_SIZE, 256);
    assert_eq!(MAX_ITERATORS, 100);
    assert_eq!(MAX_PARAMS, 200);
    assert_eq!(MAX_PALETTE_COLORS, 256);
    assert_eq!(MAX_XAOS, 10000);
    assert_eq!(DISPATCH_SEED, 699912576);
}

#[test]
fn bindings_are_positions() {
    let entries = bind_group_entries();
    assert_eq!(entries.len(), 11);
    for (i, k) in entries.iter().enumerate() {
        assert_eq!(k.binding() as usize, i);
    }
    assert_eq!(BufferKind::Histogram.binding(), 0);
    assert_eq!(BufferKind::Palette.binding(), 5);
    assert_eq!(BufferKind::RealParams.binding(), 6);
    assert_eq!(BufferKind::Vec3Params.binding(), 7);
    assert_eq!(BufferKind::Parameters.binding(), 8);
    assert_eq!(BufferKind::Done.binding(), 10);
}

#[test]
fn buffer_sizes() {
    assert_eq!(histogram_bytes(1920, 1080), Some(1920 * 1080 * 16));
    assert_eq!(histogram_bytes(512, 512), Some(4194304));
    assert_eq!(histogram_bytes(0, 512), Some(0));
    assert_eq!(histogram_bytes(1, 1), Some(16));
    assert_eq!(histogram_bytes(u32::MAX, u32::MAX), None);
    assert_eq!(histogram_bytes(1 << 30, 1 << 30), None);
    assert_eq!(histogram_bytes(1 << 30, 1 << 29), Some(1 << 63));
    assert_eq!(BufferKind::Histogram.bytes(3, 5), Some(240));
    assert_eq!(BufferKind::State.bytes(3, 5), Some(4 * 8 * 256));
    assert_eq!(BufferKind::Settings.bytes(3, 5), Some(176));
    assert_eq!(BufferKind::Iterators.bytes(3, 5), Some(100 * 48));
    assert_eq!(BufferKind::AliasTables.bytes(3, 5), Some(100 * 16));
    assert_eq!(BufferKind::Palette.bytes(3, 5), Some(256 * 16));
    assert_eq!(BufferKind::RealParams.bytes(3, 5), Some(16 * 200));
    assert_eq!(BufferKind::Vec3Params.bytes(3, 5), Some(16 * 200));
    assert_eq!(BufferKind::Parameters.bytes(3, 5), Some(32));
    assert_eq!(BufferKind::NextSample.bytes(3, 5), Some(4));
    assert_eq!(BufferKind::Done.bytes(3, 5), Some(4));
    assert_eq!(BufferKind::Histogram.bytes(u32::MAX, u32::MAX), None);
    assert_eq!(BufferKind::Done.bytes(u32::MAX, u32::MAX), Some(4));
}

#[test]
fn first_update_does_everything() {
    let mut m = ResourceManager::new();
    let s = scene(512, 512, &["a"]);
    assert!(m.resizes(&s));
    assert!(m.reprograms(&s));
    let cmds = m.update(&s, true).unwrap();
    let mut want = vec![
        Command::AllocateHistogram { bytes: 512 * 512 * 16 },
        Command::InstallShader,
        Command::RecreatePipelines,
    ];
    want.extend(always(&s));
    want.push(Command::RebuildBindGroup);
    assert_eq!(cmds, want);
    assert_eq!(m.histogram_id(), 1);
    assert_eq!(m.shader_id(), 1);
    assert!(!m.resizes(&s));
    assert!(!m.reprograms(&s));
}

#[test]
fn initial_size_needs_no_new_histogram() {
    let mut m = ResourceManager::new();
    let s = scene(1920, 1080, &["a"]);
    assert!(!m.resizes(&s));
    let cmds = m.update(&s, true).unwrap();
    assert!(!cmds.iter().any(|c| matches!(c, Command::AllocateHistogram { .. })));
    assert!(!cmds.contains(&Command::RebuildBindGroup));
    assert_eq!(m.histogram_id(), 0);
}

#[test]
fn resize_forces_a_new_histogram() {
    let mut m = ResourceManager::new();
    m.update(&scene(512, 512, &["a"]), true).unwrap();
    let first = m.histogram_id();
    let cmds = m.update(&scene(512, 513, &["a"]), true).unwrap();
    assert_ne!(m.histogram_id(), first);
    assert_eq!(cmds[0], Command::AllocateHistogram { bytes: 512 * 513 * 16 });
    assert_eq!(*cmds.last().unwrap(), Command::RebuildBindGroup);
    assert!(!cmds.contains(&Command::InstallShader));
    let second = m.histogram_id();
    m.update(&scene(512, 513, &["a"]), true).unwrap();
    assert_eq!(m.histogram_id(), second);
    m.update(&scene(511, 513, &["a"]), true).unwrap();
    assert_ne!(m.histogram_id(), second);
}

#[test]
fn camera_change_does_not_recompile() {
    let mut m = ResourceManager::new();
    m.update(&scene(512, 512, &["a", "b"]), true).unwrap();
    let shader = m.shader_id();
    let mut s = scene(512, 512, &["a", "b"]);
    s.camera.position[0] = 1.0f64.to_bits();
    s.camera.fov = 30.0f64.to_bits();
    s.iterators[0].opacity = 0.5f64.to_bits();
    s.iterators[1].name = "renamed".to_string();
    s.entropy = 7;
    let cmds = m.update(&s, true).unwrap();
    assert_eq!(cmds, always(&s));
    assert_eq!(m.shader_id(), shader);
}

#[test]
fn changed_source_recompiles_once() {
    let mut m = ResourceManager::new();
    m.update(&scene(512, 512, &["a", "b"]), true).unwrap();
    let shader = m.shader_id();
    let s = scene(512, 512, &["a", "c"]);
    let cmds = m.update(&s, true).unwrap();
    assert_eq!(cmds.iter().filter(|c| **c == Command::InstallShader).count(), 1);
    assert_eq!(cmds[0], Command::InstallShader);
    assert_eq!(cmds[1], Command::RecreatePipelines);
    assert_ne!(m.shader_id(), shader);
    let again = m.update(&s, true).unwrap();
    assert!(!again.contains(&Command::InstallShader));
    assert!(!again.contains(&Command::RecreatePipelines));
}

#[test]
fn changed_parameter_or_count_recompiles() {
    let mut m = ResourceManager::new();
    m.update(&scene(512, 512, &["a"]), true).unwrap();
    let mut s = scene(512, 512, &["a"]);
    s.iterators[0].real_params[0].value = 77;
    assert!(m.reprograms(&s));
    assert!(m.update(&s, true).unwrap().contains(&Command::InstallShader));
    let mut s2 = scene(512, 512, &["a"]);
    s2.iterators[0].real_params[0].value = 77;
    s2.iterators[0].vec3_params[0].name = "w".to_string();
    assert!(m.update(&s2, true).unwrap().contains(&Command::InstallShader));
    let mut s3 = scene(512, 512, &["a", "a"]);
    s3.iterators[0].real_params[0].value = 77;
    s3.iterators[0].vec3_params[0].name = "w".to_string();
    assert!(m.update(&s3, true).unwrap().contains(&Command::InstallShader));
    let s4 = scene(512, 512, &[]);
    assert!(m.update(&s4, true).unwrap().contains(&Command::InstallShader));
    assert!(!m.update(&s4, true).unwrap().contains(&Command::InstallShader));
}

#[test]
fn plan_does_not_commit() {
    let m = ResourceManager::new();
    let s = scene(100, 100, &["a"]);
    let once = m.plan(&s).unwrap();
    let twice = m.plan(&s).unwrap();
    assert_eq!(once, twice);
    assert_eq!(m.histogram_id(), 0);
    assert_eq!(m.shader_id(), 0);
    let mut m2 = ResourceManager::new();
    assert_eq!(m2.update(&s, true).unwrap(), once);
}

#[test]
fn refused_shader_aborts_the_update() {
    let mut m = ResourceManager::new();
    let first = scene(100, 100, &["a"]);
    assert!(m.asks_shader(&first));
    m.update(&first, true).unwrap();
    let (h, sh) = (m.histogram_id(), m.shader_id());
    let next = scene(200, 100, &["b"]);
    assert!(m.asks_shader(&next));
    assert_eq!(m.update(&next, false), Err(UpdateError::ShaderRefused));
    assert_eq!((m.histogram_id(), m.shader_id()), (h, sh));
    assert!(!m.resizes(&first));
    assert!(!m.reprograms(&first));
    assert!(m.reprograms(&next));
    assert!(m.asks_shader(&next));
    let cmds = m.update(&next, true).unwrap();
    assert_eq!(cmds[0], Command::AllocateHistogram { bytes: 200 * 100 * 16 });
    assert_eq!(cmds[1], Command::InstallShader);
    assert_eq!(cmds[2], Command::RecreatePipelines);
    assert_ne!(m.shader_id(), sh);
}

#[test]
fn compile_outcome_is_read_only_where_a_shader_is_asked_for() {
    let mut m = ResourceManager::new();
    let s1 = scene(100, 100, &["a"]);
    m.update(&s1, true).unwrap();
    let sh = m.shader_id();
    let mut s2 = scene(100, 100, &["a"]);
    s2.camera.fov = 10.0f64.to_bits();
    assert!(!m.asks_shader(&s2));
    let cmds = m.update(&s2, false).unwrap();
    assert_eq!(cmds, always(&s2));
    assert_eq!(m.shader_id(), sh);
    assert!(!m.asks_shader(&scene(0, 100, &["z"])));
}

#[test]
fn tick_passes_over_a_refused_shader() {
    let mut m = ResourceManager::new();
    let good = scene(300, 200, &["a"]);
    m.tick(Some(&good), true);
    let (h, sh) = (m.histogram_id(), m.shader_id());
    let other = scene(301, 200, &["b"]);
    let t = m.tick(Some(&other), false);
    assert_eq!(t.rejected, Some(UpdateError::ShaderRefused));
    assert_eq!(t.commands.len(), 4);
    assert_eq!(t.commands[0], Command::ClearDone);
    match t.commands[1] {
        Command::WriteParameters(p) => {
            assert_eq!((p.width, p.height), (300, 200));
            assert_eq!(p.dispatch_cnt, 1);
        }
        _ => panic!("no parameters"),
    }
    assert_eq!((m.histogram_id(), m.shader_id()), (h, sh));
    assert_eq!(m.dispatch_count(), 2);
    let t = m.tick(Some(&other), true);
    assert_eq!(t.rejected, None);
    assert!(t.commands.contains(&Command::InstallShader));
}

#[test]
fn scenes_that_cannot_be_rendered() {
    assert_eq!(ResourceManager::check(&scene(512, 512, &["a"])), None);
    assert_eq!(ResourceManager::check(&scene(0, 512, &["a"])), Some(SceneError::EmptyImage));
    assert_eq!(ResourceManager::check(&scene(512, 0, &["a"])), Some(SceneError::EmptyImage));
    assert_eq!(ResourceManager::check(&scene(u32::MAX, u32::MAX, &["a"])), Some(SceneError::ImageTooLarge));
    let many: Vec<&str> = (0..101).map(|_| "a").collect();
    assert_eq!(ResourceManager::check(&scene(512, 512, &many)), Some(SceneError::TooManyIterators));
    assert_eq!(ResourceManager::check(&scene(0, 512, &many)), Some(SceneError::EmptyImage));
    let full: Vec<&str> = (0..100).map(|_| "a").collect();
    assert_eq!(ResourceManager::check(&scene(512, 512, &full)), None);
    let mut s = scene(512, 512, &["a", "b"]);
    s.iterators[0].set_transform(transform("a", 150, 0));
    s.iterators[1].set_transform(transform("b", 50, 200));
    assert_eq!(ResourceManager::check(&s), None);
    s.iterators[1].set_transform(transform("b", 51, 200));
    assert_eq!(ResourceManager::check(&s), Some(SceneError::TooManyParameters));
    s.iterators[1].set_transform(transform("b", 50, 201));
    assert_eq!(ResourceManager::check(&s), Some(SceneError::TooManyParameters));
}

#[test]
fn scenes_with_repeated_names_are_refused() {
    let mut s = scene(512, 512, &["a", "b"]);
    assert_eq!(ResourceManager::check(&s), None);
    s.iterators[1].real_params.push(RealParam { name: "r0".to_string(), value: 9 });
    assert_eq!(ResourceManager::check(&s), Some(SceneError::RepeatedName));
    s.iterators[1].real_params.pop();
    s.iterators[0].vec3_params.push(Vec3Param { name: "v0".to_string(), x: 0, y: 0, z: 0 });
    assert_eq!(ResourceManager::check(&s), Some(SceneError::RepeatedName));
    s.iterators[0].vec3_params.pop();
    s.iterators[0].weight_to.push((1, 5));
    s.iterators[0].weight_to.push((1, 6));
    assert_eq!(ResourceManager::check(&s), Some(SceneError::RepeatedName));
    s.iterators[0].weight_to.pop();
    s.iterators[0].transform.real_params.push(RealParam { name: "r0".to_string(), value: 9 });
    assert_eq!(ResourceManager::check(&s), Some(SceneError::RepeatedName));
    s.iterators[0].transform.real_params.pop();
    s.iterators[0].real_params.push(RealParam { name: "v0".to_string(), value: 9 });
    assert_eq!(ResourceManager::check(&s), None);
    let mut m = ResourceManager::new();
    s.iterators[0].real_params.push(RealParam { name: "v0".to_string(), value: 9 });
    assert_eq!(m.update(&s, true), Err(UpdateError::Scene(SceneError::RepeatedName)));
    assert!(!m.asks_shader(&s));
}

#[test]
fn refused_scene_changes_nothing() {
    let mut m = ResourceManager::new();
    let good = scene(512, 512, &["a"]);
    m.update(&good, true).unwrap();
    let (h, sh) = (m.histogram_id(), m.shader_id());
    assert_eq!(m.update(&scene(0, 0, &["b"]), true), Err(UpdateError::Scene(SceneError::EmptyImage)));
    assert_eq!(m.update(&scene(0, 0, &["b"]), false), Err(UpdateError::Scene(SceneError::EmptyImage)));
    assert_eq!(m.plan(&scene(0, 0, &["b"])), Err(SceneError::EmptyImage));
    assert_eq!((m.histogram_id(), m.shader_id()), (h, sh));
    assert!(!m.resizes(&good));
    assert!(!m.reprograms(&good));
}

#[test]
fn tick_without_scene() {
    let mut m = ResourceManager::new();
    assert!(m.can_tick());
    let t = m.tick(None, false);
    assert_eq!(t.rejected, None);
    assert_eq!(
        t.commands,
        vec![
            Command::ClearDone,
            Command::WriteParameters(Parameters {
                seed: 699912576,
                width: 512,
                height: 512,
                dispatch_cnt: 0,
                reset_points_state: 0,
                invocation_iters: 512,
                padding_1: 0,
                padding_2: 0,
            }),
            Command::Submit { workgroups: 256 },
            Command::AwaitDone,
        ]
    );
    assert_eq!(m.dispatch_count(), 1);
    let t = m.tick(None, false);
    match t.commands[1] {
        Command::WriteParameters(p) => assert_eq!(p.dispatch_cnt, 1),
        _ => panic!("no parameters"),
    }
    assert_eq!(m.dispatch_count(), 2);
}

#[test]
fn tick_with_scene_updates_first() {
    let mut m = ResourceManager::new();
    m.tick(None, false);
    m.tick(None, false);
    let s = scene(300, 200, &["a"]);
    let plan = m.plan(&s).unwrap();
    let t = m.tick(Some(&s), true);
    assert_eq!(t.rejected, None);
    assert_eq!(t.commands[0], Command::ClearDone);
    assert_eq!(&t.commands[1..1 + plan.len()], &plan[..]);
    let rest = &t.commands[1 + plan.len()..];
    assert_eq!(
        rest,
        &[
            Command::WriteParameters(Parameters {
                seed: 699912576,
                width: 300,
                height: 200,
                dispatch_cnt: 2,
                reset_points_state: 0,
                invocation_iters: 512,
                padding_1: 0,
                padding_2: 0,
            }),
            Command::Submit { workgroups: 256 },
            Command::AwaitDone,
        ]
    );
    assert_eq!(m.dispatch_count(), 3);
    assert_eq!(m.histogram_id(), 1);
}

#[test]
fn tick_passes_over_a_refused_scene() {
    let mut m = ResourceManager::new();
    let good = scene(300, 200, &["a"]);
    m.tick(Some(&good), true);
    let bad = scene(0, 200, &["b"]);
    let t = m.tick(Some(&bad), true);
    assert_eq!(t.rejected, Some(UpdateError::Scene(SceneError::EmptyImage)));
    assert_eq!(t.commands.len(), 4);
    match t.commands[1] {
        Command::WriteParameters(p) => {
            assert_eq!((p.width, p.height), (300, 200));
            assert_eq!(p.dispatch_cnt, 1);
        }
        _ => panic!("no parameters"),
    }
    assert_eq!(m.dispatch_count(), 2);
    assert!(!m.reprograms(&good));
}

#[test]
fn completion_flag() {
    assert!(frame_done(1));
    assert!(!frame_done(0));
    assert!(!frame_done(2));
    assert!(!frame_done(u32::MAX));
}

#[test]
fn program_comparison() {
    let a = vec![RealParam { name: "x".to_string(), value: 1 }];
    let b = vec![RealParam { name: "x".to_string(), value: 1 }];
    let c = vec![RealParam { name: "x".to_string(), value: 2 }];
    let d = vec![RealParam { name: "y".to_string(), value: 1 }];
    assert!(same_reals(&a, &b));
    assert!(!same_reals(&a, &c));
    assert!(!same_reals(&a, &d));
    assert!(!same_reals(&a, &vec![]));
    assert!(same_reals(&vec![], &vec![]));
    let v = vec![Vec3Param { name: "v".to_string(), x: 1, y: 2, z: 3 }];
    assert!(same_vec3s(&v, &vec![Vec3Param { name: "v".to_string(), x: 1, y: 2, z: 3 }]));
    assert!(!same_vec3s(&v, &vec![Vec3Param { name: "v".to_string(), x: 1, y: 2, z: 4 }]));
    assert!(!same_vec3s(&v, &vec![Vec3Param { name: "v".to_string(), x: 1, y: 0, z: 3 }]));
    assert!(!same_vec3s(&v, &vec![Vec3Param { name: "v".to_string(), x: 0, y: 2, z: 3 }]));
    assert!(!same_vec3s(&v, &vec![Vec3Param { name: "w".to_string(), x: 1, y: 2, z: 3 }]));
    let s = scene(1, 1, &["a", "b"]);
    let stored = extract_programs(&s.iterators);
    assert_eq!(stored.len(), 2);
    assert_eq!(stored[1].source, "b");
    assert!(same_programs(&stored, &s.iterators));
    assert!(!same_programs(&stored, &scene(1, 1, &["a", "c"]).iterators));
    assert!(!same_programs(&stored, &scene(1, 1, &["a"]).iterators));
}
