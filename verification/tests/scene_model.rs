use ifsrs::scene::copy_reals;
use ifsrs::scene::copy_strings;
use ifsrs::scene::copy_vec3s;
use ifsrs::scene::reals_named_once;
use ifsrs::scene::targets_named_once;
use ifsrs::scene::vec3s_named_once;
use ifsrs::scene::Camera;
use ifsrs::scene::Iterator;
use ifsrs::scene::ProjectionType;
use ifsrs::scene::RealParam;
use ifsrs::scene::Transform;
use ifsrs::scene::TransformSource;
use ifsrs::scene::Vec3Param;
use ifsrs::scene::Wgsl;
use ifsrs::scene::DEFAULT_ENTROPY;
use ifsrs::scene::DEFAULT_FUSE;
use ifsrs::scene::DEFAULT_SIDE;
use ifsrs::scene::DEFAULT_STOPPING_SL;
use ifsrs::scene::IFS;
use ifsrs::scene::REAL_HALF;
use ifsrs::scene::REAL_ONE;
use ifsrs::scene::REAL_QUARTER;
use ifsrs::scene::REAL_SIXTY;
use ifsrs::scene::REAL_TEN;
use ifsrs::scene::REAL_ZERO;

fn source() -> TransformSource {
    TransformSource {
        name: "cube".to_string(),
        version: "1.0".to_string(),
        tags: vec!["geometry".to_string(), "3d".to_string()],
        real_params: Some(vec![RealParam { name: "size".to_string(), value: 1.0f64.to_bits() }]),
        vec3_params: None,
        wgsl: Wgsl { src: "p = cube(p, size);".to_string() },
    }
}

fn cube() -> Transform {
    Transform::from_source(source(), "it's a cube".to_string())
}

#[test]
fn bit_patterns_of_the_defaults() {
    assert_eq!(f64::from_bits(REAL_ZERO), 0.0);
    assert_eq!(f64::from_bits(REAL_QUARTER), 0.25);
    assert_eq!(f64::from_bits(REAL_HALF), 0.5);
    assert_eq!(f64::from_bits(REAL_ONE), 1.0);
    assert_eq!(f64::from_bits(REAL_TEN), 10.0);
    assert_eq!(f64::from_bits(REAL_SIXTY), 60.0);
    assert_eq!(f32::from_bits(DEFAULT_ENTROPY), 0.01);
    assert_eq!(f32::from_bits(DEFAULT_STOPPING_SL), 15.0);
    assert_eq!(DEFAULT_FUSE, 20);
    assert_eq!(DEFAULT_SIDE, 512);
}

#[test]
fn transform_from_source() {
    let t = cube();
    assert_eq!(t.name, "cube");
    assert_eq!(t.version, "1.0");
    assert_eq!(t.description, "it's a cube");
    assert_eq!(t.tags, vec!["geometry", "3d"]);
    assert_eq!(t.includes, "");
    assert_eq!(t.reference_url, "");
    assert_eq!(t.source_code, "p = cube(p, size);");
    assert_eq!(t.real_params.len(), 1);
    assert_eq!(t.real_params[0].name, "size");
    assert_eq!(f64::from_bits(t.real_params[0].value), 1.0);
    assert!(t.vec3_params.is_empty());
}

#[test]
fn transforms_are_equal_by_name_and_version() {
    let a = cube();
    let mut b = cube();
    b.source_code = "other".to_string();
    b.real_params.clear();
    assert!(a == b);
    b.version = "1.1".to_string();
    assert!(a != b);
    b.version = "1.0".to_string();
    b.name = "Cube".to_string();
    assert!(a != b);
}

#[test]
fn transform_duplicate_is_a_full_copy() {
    let a = cube();
    let b = a.duplicate();
    assert_eq!(a.name, b.name);
    assert_eq!(a.version, b.version);
    assert_eq!(a.description, b.description);
    assert_eq!(a.tags, b.tags);
    assert_eq!(a.source_code, b.source_code);
    assert_eq!(a.real_params.len(), b.real_params.len());
    assert_eq!(a.real_params[0].name, b.real_params[0].name);
    assert_eq!(a.real_params[0].value, b.real_params[0].value);
}

#[test]
fn copies_keep_order_and_content() {
    let reals = vec![
        RealParam { name: "a".to_string(), value: 1 },
        RealParam { name: "b".to_string(), value: 2 },
    ];
    let c = copy_reals(&reals);
    assert_eq!(c.len(), 2);
    assert_eq!((c[0].name.as_str(), c[0].value), ("a", 1));
    assert_eq!((c[1].name.as_str(), c[1].value), ("b", 2));
    let vs = vec![Vec3Param { name: "v".to_string(), x: 1, y: 2, z: 3 }];
    let c = copy_vec3s(&vs);
    assert_eq!((c[0].name.as_str(), c[0].x, c[0].y, c[0].z), ("v", 1, 2, 3));
    assert_eq!(copy_strings(&vec!["x".to_string(), "y".to_string()]), vec!["x", "y"]);
    assert!(copy_reals(&vec![]).is_empty());
}

#[test]
fn new_iterator_takes_the_defaults_of_its_transform() {
    let it = Iterator::new(17, "cubetest".to_string(), cube());
    assert_eq!(it.id, 17);
    assert_eq!(it.name, "cubetest");
    assert_eq!(it.transform.name, "cube");
    assert_eq!(it.real_params.len(), 1);
    assert_eq!(it.real_params[0].name, "size");
    assert_eq!(f64::from_bits(it.base_weight), 1.0);
    assert_eq!(f64::from_bits(it.color_speed), 0.5);
    assert_eq!(f64::from_bits(it.color_index), 0.0);
    assert_eq!(f64::from_bits(it.start_weight), 1.0);
    assert_eq!(f64::from_bits(it.opacity), 1.0);
    assert_eq!(f64::from_bits(it.mix), 1.0);
    assert_eq!(f64::from_bits(it.add), 0.0);
    assert!(it.weight_to.is_empty());
}

#[test]
fn set_transform_resets_parameters() {
    let mut it = Iterator::new(1, "a".to_string(), cube());
    it.real_params[0].value = 9.0f64.to_bits();
    it.opacity = 0.5f64.to_bits();
    let other = Transform::from_source(
        TransformSource {
            name: "sphere".to_string(),
            version: "2".to_string(),
            tags: vec![],
            real_params: None,
            vec3_params: Some(vec![Vec3Param { name: "c".to_string(), x: 1, y: 2, z: 3 }]),
            wgsl: Wgsl { src: "s".to_string() },
        },
        "".to_string(),
    );
    it.set_transform(other);
    assert_eq!(it.transform.name, "sphere");
    assert!(it.real_params.is_empty());
    assert_eq!(it.vec3_params.len(), 1);
    assert_eq!(it.vec3_params[0].name, "c");
    assert_eq!(it.id, 1);
    assert_eq!(it.name, "a");
    assert_eq!(f64::from_bits(it.opacity), 0.5);
}

#[test]
fn transition_weights_default_to_zero() {
    let mut it = Iterator::new(1, "a".to_string(), cube());
    assert_eq!(it.weight(2), REAL_ZERO);
    it.weight_to.push((2, 0.75f64.to_bits()));
    it.weight_to.push((3, 0.25f64.to_bits()));
    it.weight_to.push((2, 0.5f64.to_bits()));
    assert_eq!(f64::from_bits(it.weight(2)), 0.75);
    assert_eq!(f64::from_bits(it.weight(3)), 0.25);
    assert_eq!(it.weight(4), REAL_ZERO);
}

#[test]
fn set_weight_replaces_or_appends() {
    let mut it = Iterator::new(1, "a".to_string(), cube());
    it.set_weight(2, 0.75f64.to_bits());
    it.set_weight(3, 0.25f64.to_bits());
    assert_eq!(it.weight_to, vec![(2, 0.75f64.to_bits()), (3, 0.25f64.to_bits())]);
    it.set_weight(2, 0.5f64.to_bits());
    assert_eq!(it.weight_to, vec![(2, 0.5f64.to_bits()), (3, 0.25f64.to_bits())]);
    assert_eq!(f64::from_bits(it.weight(2)), 0.5);
    assert_eq!(f64::from_bits(it.weight(3)), 0.25);
    it.weight_to.push((3, 9));
    it.set_weight(3, 7);
    assert_eq!(it.weight_to, vec![(2, 0.5f64.to_bits()), (3, 7), (3, 9)]);
    assert_eq!(it.weight(3), 7);
    assert_eq!(it.id, 1);
}

#[test]
fn default_camera() {
    let c = Camera::default();
    assert_eq!(c.position.map(f64::from_bits), [0.0, 0.0, 0.0]);
    assert_eq!(c.orientation.map(f64::from_bits), [0.0, 0.0, 0.0, 1.0]);
    assert_eq!(c.right_direction.map(f64::from_bits), [1.0, 0.0, 0.0]);
    assert_eq!(c.up_direction.map(f64::from_bits), [0.0, 1.0, 0.0]);
    assert_eq!(c.forward_direction.map(f64::from_bits), [0.0, 0.0, 1.0]);
    assert_eq!(f64::from_bits(c.fov), 60.0);
    assert_eq!(f64::from_bits(c.aperture), 0.0);
    assert_eq!(f64::from_bits(c.focus_distance), 10.0);
    assert_eq!(f64::from_bits(c.dof), 0.25);
    assert_eq!(ProjectionType::Perspective, ProjectionType::Perspective);
}

#[test]
fn new_scene_has_default_controls() {
    let s = IFS::new("Untitled".to_string(), vec![Iterator::new(1, "cubetest".to_string(), cube())]);
    assert_eq!(s.title, "Untitled");
    assert_eq!(s.iterators.len(), 1);
    assert_eq!((s.width, s.height), (512, 512));
    assert_eq!(f64::from_bits(s.brightness), 1.0);
    assert_eq!(f64::from_bits(s.gamma_inv), 1.0);
    assert_eq!(f64::from_bits(s.gamma_thresh), 0.0);
    assert_eq!(f64::from_bits(s.vibrancy), 1.0);
    assert_eq!(s.background_color.map(f32::from_bits), [0.0, 0.0, 0.0]);
    assert_eq!(f32::from_bits(s.entropy), 0.01);
    assert_eq!(s.fuse, 20);
    assert_eq!(f32::from_bits(s.stopping_sl), 15.0);
    assert!(!s.pause_rendering);
}

#[test]
fn add_and_dup_iterators() {
    let mut s = IFS::new("s".to_string(), vec![]);
    s.add_iterator(Iterator::new(10, "a".to_string(), cube()), false);
    s.add_iterator(Iterator::new(20, "b".to_string(), cube()), true);
    assert_eq!(s.iterators.len(), 2);
    assert_eq!(s.iterators[1].id, 20);
    s.iterators[0].opacity = 0.5f64.to_bits();
    assert_eq!(s.dup_iterator(0), Some(2));
    assert_eq!(s.iterators.len(), 3);
    assert_eq!(s.iterators[2].id, 10);
    assert_eq!(s.iterators[2].name, "a");
    assert_eq!(f64::from_bits(s.iterators[2].opacity), 0.5);
    assert_eq!(s.iterators[2].transform.source_code, "p = cube(p, size);");
    assert_eq!(s.dup_iterator(3), None);
    assert_eq!(s.iterators.len(), 3);
    assert_eq!(s.iterators[0].id, 10);
    assert_eq!((s.width, s.height), (512, 512));
}

fn changed(edit: fn(&mut IFS)) -> bool {
    let make = || {
        let mut it = Iterator::new(1, "a".to_string(), cube());
        it.vec3_params.push(Vec3Param { name: "v".to_string(), x: 1, y: 2, z: 3 });
        it.weight_to.push((2, 7));
        IFS::new("s".to_string(), vec![it])
    };
    let base = make().get_hash();
    assert_eq!(make().get_hash(), base);
    let mut s = make();
    edit(&mut s);
    s.get_hash() != base
}

#[test]
fn hash_follows_every_field_of_the_scene() {
    assert!(!changed(|_| {}));
    assert!(changed(|s| s.title = "other".to_string()));
    assert!(changed(|s| s.width = 513));
    assert!(changed(|s| s.height = 1));
    assert!(changed(|s| s.brightness = 2.0f64.to_bits()));
    assert!(changed(|s| s.gamma_inv = 2.0f64.to_bits()));
    assert!(changed(|s| s.gamma_thresh = 2.0f64.to_bits()));
    assert!(changed(|s| s.vibrancy = 2.0f64.to_bits()));
    assert!(changed(|s| s.background_color[0] = 1));
    assert!(changed(|s| s.background_color[1] = 1));
    assert!(changed(|s| s.background_color[2] = 1));
    assert!(changed(|s| s.entropy = 0.02f32.to_bits()));
    assert!(changed(|s| s.fuse = 21));
    assert!(changed(|s| s.stopping_sl = 1));
    assert!(changed(|s| s.pause_rendering = true));
    assert!(changed(|s| s.add_iterator(Iterator::new(2, "b".to_string(), cube()), false)));
    assert!(changed(|s| s.iterators.clear()));
}

#[test]
fn hash_follows_every_field_of_the_camera() {
    assert!(changed(|s| s.camera.position[0] = 1));
    assert!(changed(|s| s.camera.position[1] = 1));
    assert!(changed(|s| s.camera.position[2] = 1));
    assert!(changed(|s| s.camera.orientation[0] = 1));
    assert!(changed(|s| s.camera.orientation[1] = 1));
    assert!(changed(|s| s.camera.orientation[2] = 1));
    assert!(changed(|s| s.camera.orientation[3] = 1));
    assert!(changed(|s| s.camera.right_direction[0] = 5));
    assert!(changed(|s| s.camera.up_direction[1] = 5));
    assert!(changed(|s| s.camera.forward_direction[2] = 5));
    assert!(changed(|s| s.camera.fov = 61.0f64.to_bits()));
    assert!(changed(|s| s.camera.aperture = 1));
    assert!(changed(|s| s.camera.focus_distance = 1));
    assert!(changed(|s| s.camera.dof = 1));
}

#[test]
fn hash_follows_every_field_of_an_iterator() {
    assert!(changed(|s| s.iterators[0].id = 2));
    assert!(changed(|s| s.iterators[0].name = "b".to_string()));
    assert!(changed(|s| s.iterators[0].real_params[0].value = 2.0f64.to_bits()));
    assert!(changed(|s| s.iterators[0].real_params[0].name = "other".to_string()));
    assert!(changed(|s| s.iterators[0].real_params.clear()));
    assert!(changed(|s| s.iterators[0].vec3_params[0].x = 9));
    assert!(changed(|s| s.iterators[0].vec3_params[0].y = 9));
    assert!(changed(|s| s.iterators[0].vec3_params[0].z = 9));
    assert!(changed(|s| s.iterators[0].vec3_params[0].name = "w".to_string()));
    assert!(changed(|s| s.iterators[0].base_weight = 1));
    assert!(changed(|s| s.iterators[0].color_speed = 1));
    assert!(changed(|s| s.iterators[0].color_index = 1));
    assert!(changed(|s| s.iterators[0].start_weight = 1));
    assert!(changed(|s| s.iterators[0].opacity = 1));
    assert!(changed(|s| s.iterators[0].mix = 1));
    assert!(changed(|s| s.iterators[0].add = 1));
    assert!(changed(|s| s.iterators[0].weight_to[0].0 = 3));
    assert!(changed(|s| s.iterators[0].weight_to[0].1 = 8));
    assert!(changed(|s| s.iterators[0].weight_to.push((3, 1))));
    assert!(changed(|s| s.iterators[0].transform.name.push('x')));
    assert!(changed(|s| s.iterators[0].transform.version.push('x')));
    assert!(changed(|s| s.iterators[0].transform.description.push('x')));
    assert!(changed(|s| s.iterators[0].transform.tags.push("t".to_string())));
    assert!(changed(|s| s.iterators[0].transform.tags[0].push('x')));
    assert!(changed(|s| s.iterators[0].transform.includes.push('x')));
    assert!(changed(|s| s.iterators[0].transform.reference_url.push('x')));
    assert!(changed(|s| s.iterators[0].transform.source_code.push(' ')));
    assert!(changed(|s| s.iterators[0].transform.real_params[0].value = 5));
    assert!(changed(|s| s.iterators[0].transform.vec3_params.push(Vec3Param {
        name: "d".to_string(),
        x: 0,
        y: 0,
        z: 0
    })));
}

#[test]
fn encoding_is_field_by_field() {
    let mut s = IFS::new("ti".to_string(), vec![]);
    s.width = 0x0102_0304;
    s.height = 5;
    s.brightness = 11;
    s.gamma_inv = 12;
    s.gamma_thresh = 13;
    s.vibrancy = 14;
    s.background_color = [21, 22, 23];
    s.fuse = 7;
    s.entropy = 9;
    s.stopping_sl = 8;
    s.pause_rendering = true;
    let bytes = s.encode();
    let mut want: Vec<u8> = Vec::new();
    want.extend(2u64.to_le_bytes());
    want.extend(b"ti");
    want.extend(0u64.to_le_bytes());
    want.extend([4, 3, 2, 1]);
    want.extend(5u32.to_le_bytes());
    for x in [11u64, 12, 13, 14] {
        want.extend(x.to_le_bytes());
    }
    for x in [21u32, 22, 23] {
        want.extend(x.to_le_bytes());
    }
    let c = s.camera;
    for x in c
        .position
        .iter()
        .chain(c.orientation.iter())
        .chain(c.right_direction.iter())
        .chain(c.up_direction.iter())
        .chain(c.forward_direction.iter())
    {
        want.extend(x.to_le_bytes());
    }
    for x in [c.fov, c.aperture, c.focus_distance, c.dof] {
        want.extend(x.to_le_bytes());
    }
    for x in [9u32, 7, 8, 1] {
        want.extend(x.to_le_bytes());
    }
    assert_eq!(bytes, want);
}

#[test]
fn encoding_of_an_iterator() {
    let mut it = Iterator::new(-1, "n".to_string(), cube());
    it.vec3_params.push(Vec3Param { name: "v".to_string(), x: 1, y: 2, z: 3 });
    it.weight_to.push((i32::MAX, 7));
    it.weight_to.push((0, 8));
    let mut s = IFS::new("".to_string(), vec![]);
    let empty = s.encode();
    s.add_iterator(it, false);
    let bytes = s.encode();
    let text = |t: &str| {
        let mut v = (t.len() as u64).to_le_bytes().to_vec();
        v.extend(t.as_bytes());
        v
    };
    let mut want: Vec<u8> = Vec::new();
    want.extend(0x7fff_ffffu32.to_le_bytes());
    want.extend(text("n"));
    want.extend(text("cube"));
    want.extend(text("1.0"));
    want.extend(text("it's a cube"));
    want.extend(2u64.to_le_bytes());
    want.extend(text("geometry"));
    want.extend(text("3d"));
    want.extend(text(""));
    want.extend(text(""));
    want.extend(text("p = cube(p, size);"));
    want.extend(1u64.to_le_bytes());
    want.extend(text("size"));
    want.extend(1.0f64.to_bits().to_le_bytes());
    want.extend(0u64.to_le_bytes());
    want.extend(1u64.to_le_bytes());
    want.extend(text("size"));
    want.extend(1.0f64.to_bits().to_le_bytes());
    want.extend(1u64.to_le_bytes());
    want.extend(text("v"));
    for x in [1u64, 2, 3] {
        want.extend(x.to_le_bytes());
    }
    for x in [1.0f64, 0.5, 0.0, 1.0, 1.0, 1.0, 0.0] {
        want.extend(x.to_bits().to_le_bytes());
    }
    want.extend(2u64.to_le_bytes());
    want.extend(u32::MAX.to_le_bytes());
    want.extend(7u64.to_le_bytes());
    want.extend(0x8000_0000u32.to_le_bytes());
    want.extend(8u64.to_le_bytes());
    assert_eq!(&bytes[0..8], &0u64.to_le_bytes());
    assert_eq!(&bytes[8..16], &1u64.to_le_bytes());
    assert_eq!(&bytes[16..16 + want.len()], &want[..]);
    assert_eq!(bytes.len(), empty.len() + want.len());
    assert_eq!(&bytes[16 + want.len()..], &empty[16..]);
}

#[test]
fn names_occur_once() {
    let one = |n: &str| RealParam { name: n.to_string(), value: 0 };
    let vec = |n: &str| Vec3Param { name: n.to_string(), x: 0, y: 0, z: 0 };
    assert!(reals_named_once(&vec![]));
    assert!(reals_named_once(&vec![one("a")]));
    assert!(reals_named_once(&vec![one("a"), one("b"), one("c")]));
    assert!(!reals_named_once(&vec![one("a"), one("b"), one("a")]));
    assert!(!reals_named_once(&vec![one("a"), one("a")]));
    assert!(!reals_named_once(&vec![one("b"), one("a"), one("a")]));
    assert!(vec3s_named_once(&vec![vec("a"), vec("b")]));
    assert!(!vec3s_named_once(&vec![vec("a"), vec("b"), vec("b")]));
    assert!(targets_named_once(&vec![(1, 0), (2, 0), (3, 0)]));
    assert!(!targets_named_once(&vec![(1, 0), (2, 0), (1, 5)]));
    assert!(targets_named_once(&vec![]));
}

#[test]
fn constructors_and_methods_keep_names_once() {
    let t = cube();
    assert!(t.well_formed());
    assert!(t.duplicate().well_formed());
    let mut it = Iterator::new(1, "a".to_string(), cube());
    assert!(it.well_formed());
    it.set_weight(2, 1);
    it.set_weight(3, 1);
    it.set_weight(2, 9);
    assert!(it.well_formed());
    it.set_transform(cube());
    assert!(it.well_formed());
    assert!(it.duplicate().well_formed());
    let mut s = IFS::new("s".to_string(), vec![it]);
    assert!(s.well_formed());
    s.add_iterator(Iterator::new(2, "b".to_string(), cube()), true);
    s.dup_iterator(0);
    assert!(s.well_formed());
    s.iterators[1].weight_to = vec![(1, 1), (1, 2)];
    assert!(!s.iterators[1].well_formed());
    assert!(!s.well_formed());
    s.iterators[1].weight_to.clear();
    s.iterators[2].transform.vec3_params =
        vec![Vec3Param { name: "v".to_string(), x: 0, y: 0, z: 0 }, Vec3Param { name: "v".to_string(), x: 1, y: 0, z: 0 }];
    assert!(!s.iterators[2].transform.well_formed());
    assert!(!s.well_formed());
}
