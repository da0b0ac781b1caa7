//! The scene description: everything that one frame is rendered from.
//!
//! Real numbers are held as bit patterns, 64 bits for double precision and 32
//! for single precision. The library compares, copies and hashes them; it
//! never computes with them.
//!
//! Parameters and transition weights are kept as lists, so that they are
//! declared, compared and hashed in one fixed order. What a map would give,
//! that no name and no target occurs twice, is the invariant `wf` of
//! `Transform`, `Iterator` and `IFS`: the constructors establish it, the
//! methods keep it, and the renderer refuses a scene that breaks it.

use vstd::prelude::*;

verus! {

/// The bit pattern of the double 0.0.
pub const REAL_ZERO: u64 = 0;

/// The bit pattern of the double 0.25.
pub const REAL_QUARTER: u64 = 0x3FD0_0000_0000_0000;

/// The bit pattern of the double 0.5.
pub const REAL_HALF: u64 = 0x3FE0_0000_0000_0000;

/// The bit pattern of the double 1.0.
pub const REAL_ONE: u64 = 0x3FF0_0000_0000_0000;

/// The bit pattern of the double 10.0.
pub const REAL_TEN: u64 = 0x4024_0000_0000_0000;

/// The bit pattern of the double 60.0.
pub const REAL_SIXTY: u64 = 0x404E_0000_0000_0000;

/// The bit pattern of the single 0.01, the default entropy.
pub const DEFAULT_ENTROPY: u32 = 0x3C23_D70A;

/// The bit pattern of the single 15.0, the default stopping level.
pub const DEFAULT_STOPPING_SL: u32 = 0x4170_0000;

/// The number of warm-up iterations that a new scene discards.
pub const DEFAULT_FUSE: u32 = 20;

/// The side of a new scene in pixels.
pub const DEFAULT_SIDE: u32 = 512;

/// The smallest side of an image that can be asked for.
pub const MIN_SIDE: u32 = 1;

/// The largest side of an image that can be asked for.
pub const MAX_SIDE: u32 = 4096;

/// The side of an image that is asked for when `wanted` is entered: `wanted`
/// itself if it lies between 1 and 4096, else the nearer of the two.
pub fn clamp_side(wanted: u32) -> (side: u32)
    ensures
        MIN_SIDE <= side <= MAX_SIDE,
        side == (if wanted < MIN_SIDE {
            MIN_SIDE
        } else if wanted > MAX_SIDE {
            MAX_SIDE
        } else {
            wanted
        }),
{
    if wanted < MIN_SIDE {
        MIN_SIDE
    } else if wanted > MAX_SIDE {
        MAX_SIDE
    } else {
        wanted
    }
}

/// How the camera projects.
#[derive(Clone, Copy, Debug, PartialEq, Eq, Structural)]
pub enum ProjectionType {
    Perspective,
}

/// A fragment of shader source.
#[derive(Debug)]
pub struct Wgsl {
    pub src: String,
}

/// A named scalar parameter of a transform.
#[derive(Debug)]
pub struct RealParam {
    pub name: String,
    /// A double, as its bit pattern.
    pub value: u64,
}

/// A named 3-vector parameter of a transform.
#[derive(Debug)]
pub struct Vec3Param {
    pub name: String,
    /// Three doubles, as their bit patterns.
    pub x: u64,
    pub y: u64,
    pub z: u64,
}

/// A transform as its definition file gives it.
#[derive(Debug)]
pub struct TransformSource {
    pub name: String,
    pub version: String,
    pub tags: Vec<String>,
    pub real_params: Option<Vec<RealParam>>,
    pub vec3_params: Option<Vec<Vec3Param>>,
    pub wgsl: Wgsl,
}

/// A named, versioned shader fragment with the defaults of its parameters.
#[derive(Debug)]
pub struct Transform {
    pub name: String,
    pub version: String,
    pub description: String,
    pub tags: Vec<String>,
    pub includes: String,
    pub reference_url: String,
    pub source_code: String,
    pub real_params: Vec<RealParam>,
    pub vec3_params: Vec<Vec3Param>,
}

/// One weighted transform of the system, with its rendering attributes.
#[derive(Debug)]
pub struct Iterator {
    pub id: i32,
    pub name: String,
    pub transform: Transform,
    pub real_params: Vec<RealParam>,
    pub vec3_params: Vec<Vec3Param>,
    pub base_weight: u64,
    pub color_speed: u64,
    pub color_index: u64,
    pub start_weight: u64,
    pub opacity: u64,
    pub mix: u64,
    pub add: u64,
    /// The weights of the transitions to other iterators, by their identity.
    pub weight_to: Vec<(i32, u64)>,
}

/// The camera: where it stands, how it is turned, and its optics.
#[derive(Clone, Copy, Debug)]
pub struct Camera {
    pub position: [u64; 3],
    /// A quaternion as (i, j, k, w).
    pub orientation: [u64; 4],
    pub right_direction: [u64; 3],
    pub up_direction: [u64; 3],
    pub forward_direction: [u64; 3],
    pub fov: u64,
    pub aperture: u64,
    pub focus_distance: u64,
    pub dof: u64,
}

/// The scene description.
#[derive(Debug)]
pub struct IFS {
    pub title: String,
    pub iterators: Vec<Iterator>,
    pub width: u32,
    pub height: u32,
    pub brightness: u64,
    pub gamma_inv: u64,
    pub gamma_thresh: u64,
    pub vibrancy: u64,
    /// Three singles, as their bit patterns.
    pub background_color: [u32; 3],
    pub camera: Camera,
    /// The chance to reset on each iteration; a single, as its bit pattern.
    pub entropy: u32,
    /// The number of iterations to discard before plotting.
    pub fuse: u32,
    /// A single, as its bit pattern.
    pub stopping_sl: u32,
    pub pause_rendering: bool,
}

/// No name occurs twice among the scalar parameters.
pub open spec fn real_names_once(ps: Seq<RealParam>) -> bool {
    forall|i: int, j: int| 0 <= i < j < ps.len() ==> (#[trigger] ps[i]).name@ != (#[trigger] ps[j]).name@
}

/// No name occurs twice among the vector parameters.
pub open spec fn vec3_names_once(ps: Seq<Vec3Param>) -> bool {
    forall|i: int, j: int| 0 <= i < j < ps.len() ==> (#[trigger] ps[i]).name@ != (#[trigger] ps[j]).name@
}

/// No iterator is the target of two transition weights.
pub open spec fn targets_once(ws: Seq<(i32, u64)>) -> bool {
    forall|i: int, j: int| 0 <= i < j < ws.len() ==> (#[trigger] ws[i]).0 != (#[trigger] ws[j]).0
}

/// Whether no name occurs twice among the scalar parameters.
pub fn reals_named_once(ps: &Vec<RealParam>) -> (r: bool)
    ensures
        r == real_names_once(ps@),
{
    let mut j: usize = 0;
    while j < ps.len()
        invariant
            j <= ps@.len(),
            forall|a: int, b: int| 0 <= a < b < j ==> (#[trigger] ps@[a]).name@ != (#[trigger] ps@[b]).name@,
        decreases ps@.len() - j,
    {
        let mut i: usize = 0;
        while i < j
            invariant
                i <= j,
                j < ps@.len(),
                forall|a: int| 0 <= a < i ==> (#[trigger] ps@[a]).name@ != ps@[j as int].name@,
            decreases j - i,
        {
            if ps[i].name == ps[j].name {
                proof {
                    assert(ps@[i as int].name@ == ps@[j as int].name@);
                }
                return false;
            }
            i += 1;
        }
        j += 1;
    }
    true
}

/// Whether no name occurs twice among the vector parameters.
pub fn vec3s_named_once(ps: &Vec<Vec3Param>) -> (r: bool)
    ensures
        r == vec3_names_once(ps@),
{
    let mut j: usize = 0;
    while j < ps.len()
        invariant
            j <= ps@.len(),
            forall|a: int, b: int| 0 <= a < b < j ==> (#[trigger] ps@[a]).name@ != (#[trigger] ps@[b]).name@,
        decreases ps@.len() - j,
    {
        let mut i: usize = 0;
        while i < j
            invariant
                i <= j,
                j < ps@.len(),
                forall|a: int| 0 <= a < i ==> (#[trigger] ps@[a]).name@ != ps@[j as int].name@,
            decreases j - i,
        {
            if ps[i].name == ps[j].name {
                proof {
                    assert(ps@[i as int].name@ == ps@[j as int].name@);
                }
                return false;
            }
            i += 1;
        }
        j += 1;
    }
    true
}

/// Whether no iterator is the target of two transition weights.
pub fn targets_named_once(ws: &Vec<(i32, u64)>) -> (r: bool)
    ensures
        r == targets_once(ws@),
{
    let mut j: usize = 0;
    while j < ws.len()
        invariant
            j <= ws@.len(),
            forall|a: int, b: int| 0 <= a < b < j ==> (#[trigger] ws@[a]).0 != (#[trigger] ws@[b]).0,
        decreases ws@.len() - j,
    {
        let mut i: usize = 0;
        while i < j
            invariant
                i <= j,
                j < ws@.len(),
                forall|a: int| 0 <= a < i ==> (#[trigger] ws@[a]).0 != ws@[j as int].0,
            decreases j - i,
        {
            if ws[i].0 == ws[j].0 {
                proof {
                    assert(ws@[i as int].0 == ws@[j as int].0);
                }
                return false;
            }
            i += 1;
        }
        j += 1;
    }
    true
}

/// A copy of a scalar parameter.
pub fn copy_real(p: &RealParam) -> (r: RealParam)
    ensures
        r == *p,
{
    RealParam { name: p.name.clone(), value: p.value }
}

/// A copy of a vector parameter.
pub fn copy_vec3(p: &Vec3Param) -> (r: Vec3Param)
    ensures
        r == *p,
{
    Vec3Param { name: p.name.clone(), x: p.x, y: p.y, z: p.z }
}

/// A copy of a list of scalar parameters.
pub fn copy_reals(v: &Vec<RealParam>) -> (r: Vec<RealParam>)
    ensures
        r@ == v@,
{
    let mut r: Vec<RealParam> = Vec::new();
    let mut i: usize = 0;
    while i < v.len()
        invariant
            i <= v@.len(),
            r@ == v@.take(i as int),
        decreases v@.len() - i,
    {
        r.push(copy_real(&v[i]));
        proof {
            assert(v@.take(i + 1) == v@.take(i as int).push(v@[i as int]));
        }
        i += 1;
    }
    proof {
        assert(v@.take(v@.len() as int) == v@);
    }
    r
}

/// A copy of a list of vector parameters.
pub fn copy_vec3s(v: &Vec<Vec3Param>) -> (r: Vec<Vec3Param>)
    ensures
        r@ == v@,
{
    let mut r: Vec<Vec3Param> = Vec::new();
    let mut i: usize = 0;
    while i < v.len()
        invariant
            i <= v@.len(),
            r@ == v@.take(i as int),
        decreases v@.len() - i,
    {
        r.push(copy_vec3(&v[i]));
        proof {
            assert(v@.take(i + 1) == v@.take(i as int).push(v@[i as int]));
        }
        i += 1;
    }
    proof {
        assert(v@.take(v@.len() as int) == v@);
    }
    r
}

/// A copy of a list of strings.
pub fn copy_strings(v: &Vec<String>) -> (r: Vec<String>)
    ensures
        r@ == v@,
{
    let mut r: Vec<String> = Vec::new();
    let mut i: usize = 0;
    while i < v.len()
        invariant
            i <= v@.len(),
            r@ == v@.take(i as int),
        decreases v@.len() - i,
    {
        r.push(v[i].clone());
        proof {
            assert(v@.take(i + 1) == v@.take(i as int).push(v@[i as int]));
        }
        i += 1;
    }
    proof {
        assert(v@.take(v@.len() as int) == v@);
    }
    r
}

impl TransformSource {
    /// No parameter name occurs twice in a list of the definition.
    pub open spec fn wf(&self) -> bool {
        &&& self.real_params matches Some(p) ==> real_names_once(p@)
        &&& self.vec3_params matches Some(p) ==> vec3_names_once(p@)
    }
}

impl Transform {
    /// No name occurs twice among the scalar defaults, and none among the
    /// vector defaults.
    pub open spec fn wf(&self) -> bool {
        real_names_once(self.real_params@) && vec3_names_once(self.vec3_params@)
    }

    /// Whether no name occurs twice in a list of defaults.
    pub fn well_formed(&self) -> (r: bool)
        ensures
            r == self.wf(),
    {
        reals_named_once(&self.real_params) && vec3s_named_once(&self.vec3_params)
    }

    /// The transform that a definition gives. Parameters that the definition
    /// leaves out are empty lists; includes and reference stay empty.
    pub fn from_source(src: TransformSource, description: String) -> (t: Transform)
        ensures
            src.wf() ==> t.wf(),
            t.name == src.name,
            t.version == src.version,
            t.description == description,
            t.tags == src.tags,
            t.includes@ == Seq::<char>::empty(),
            t.reference_url@ == Seq::<char>::empty(),
            t.source_code == src.wgsl.src,
            t.real_params@ == (match src.real_params {
                Some(p) => p@,
                None => Seq::empty(),
            }),
            t.vec3_params@ == (match src.vec3_params {
                Some(p) => p@,
                None => Seq::empty(),
            }),
    {
        let real_params = match src.real_params {
            Some(p) => p,
            None => Vec::new(),
        };
        let vec3_params = match src.vec3_params {
            Some(p) => p,
            None => Vec::new(),
        };
        Transform {
            name: src.name,
            version: src.version,
            description,
            tags: src.tags,
            includes: String::new(),
            reference_url: String::new(),
            source_code: src.wgsl.src,
            real_params,
            vec3_params,
        }
    }

    /// Two transforms are the same transform when name and version agree;
    /// the values of their parameters may still differ.
    pub open spec fn same_identity(&self, other: &Transform) -> bool {
        self.name@ == other.name@ && self.version@ == other.version@
    }

    /// A copy of the transform.
    pub fn duplicate(&self) -> (t: Transform)
        ensures
            same_transform(t, *self),
            self.wf() ==> t.wf(),
    {
        Transform {
            name: self.name.clone(),
            version: self.version.clone(),
            description: self.description.clone(),
            tags: copy_strings(&self.tags),
            includes: self.includes.clone(),
            reference_url: self.reference_url.clone(),
            source_code: self.source_code.clone(),
            real_params: copy_reals(&self.real_params),
            vec3_params: copy_vec3s(&self.vec3_params),
        }
    }
}

impl PartialEq for Transform {
    fn eq(&self, other: &Transform) -> (r: bool) {
        self.name == other.name && self.version == other.version
    }
}

impl vstd::std_specs::cmp::PartialEqSpecImpl for Transform {
    open spec fn obeys_eq_spec() -> bool {
        true
    }

    open spec fn eq_spec(&self, other: &Transform) -> bool {
        self.same_identity(other)
    }
}

impl Iterator {
    /// The transform is well-formed, no name occurs twice among the scalar
    /// parameters, none among the vector parameters, and no iterator is the
    /// target of two transition weights.
    pub open spec fn wf(&self) -> bool {
        &&& self.transform.wf()
        &&& real_names_once(self.real_params@)
        &&& vec3_names_once(self.vec3_params@)
        &&& targets_once(self.weight_to@)
    }

    /// Whether the iterator is well-formed.
    pub fn well_formed(&self) -> (r: bool)
        ensures
            r == self.wf(),
    {
        self.transform.well_formed() && reals_named_once(&self.real_params) && vec3s_named_once(&self.vec3_params)
            && targets_named_once(&self.weight_to)
    }

    /// An iterator with the given identity and transform, the parameters at
    /// the transform's defaults, and the default attributes: weights, opacity
    /// and mix at 1, colour speed at 0.5, colour index and add at 0, and no
    /// transition weights.
    pub fn new(id: i32, name: String, transform: Transform) -> (it: Iterator)
        ensures
            transform.wf() ==> it.wf(),
            it.id == id,
            it.name == name,
            it.transform == transform,
            it.real_params@ == transform.real_params@,
            it.vec3_params@ == transform.vec3_params@,
            it.base_weight == REAL_ONE,
            it.color_speed == REAL_HALF,
            it.color_index == REAL_ZERO,
            it.start_weight == REAL_ONE,
            it.opacity == REAL_ONE,
            it.mix == REAL_ONE,
            it.add == REAL_ZERO,
            it.weight_to@.len() == 0,
    {
        let real_params = copy_reals(&transform.real_params);
        let vec3_params = copy_vec3s(&transform.vec3_params);
        Iterator {
            id,
            name,
            transform,
            real_params,
            vec3_params,
            base_weight: REAL_ONE,
            color_speed: REAL_HALF,
            color_index: REAL_ZERO,
            start_weight: REAL_ONE,
            opacity: REAL_ONE,
            mix: REAL_ONE,
            add: REAL_ZERO,
            weight_to: Vec::new(),
        }
    }

    /// Binds another transform and resets the parameters to its defaults.
    pub fn set_transform(&mut self, tf: Transform)
        ensures
            tf.wf() && old(self).wf() ==> final(self).wf(),
            final(self).transform == tf,
            final(self).real_params@ == tf.real_params@,
            final(self).vec3_params@ == tf.vec3_params@,
            final(self).id == old(self).id,
            final(self).name == old(self).name,
            final(self).base_weight == old(self).base_weight,
            final(self).color_speed == old(self).color_speed,
            final(self).color_index == old(self).color_index,
            final(self).start_weight == old(self).start_weight,
            final(self).opacity == old(self).opacity,
            final(self).mix == old(self).mix,
            final(self).add == old(self).add,
            final(self).weight_to == old(self).weight_to,
    {
        self.real_params = copy_reals(&tf.real_params);
        self.vec3_params = copy_vec3s(&tf.vec3_params);
        self.transform = tf;
    }

    /// The weight of the transition to the iterator `to`: the first weight
    /// recorded for it, and 0 where none is.
    pub fn weight(&self, to: i32) -> (w: u64)
        ensures
            w == weight_in(self.weight_to@, to),
    {
        let mut i: usize = 0;
        proof {
            assert(self.weight_to@.skip(0) == self.weight_to@);
        }
        while i < self.weight_to.len()
            invariant
                i <= self.weight_to@.len(),
                weight_in(self.weight_to@, to) == weight_in(self.weight_to@.skip(i as int), to),
            decreases self.weight_to@.len() - i,
        {
            let entry = self.weight_to[i];
            proof {
                let rest = self.weight_to@.skip(i as int);
                assert(rest[0] == self.weight_to@[i as int]);
                assert(rest.skip(1) == self.weight_to@.skip(i + 1));
            }
            if entry.0 == to {
                return entry.1;
            }
            i += 1;
        }
        REAL_ZERO
    }

    /// Records the weight of the transition to the iterator `to`: in place of
    /// the first weight recorded for it, or as a new record where none is.
    /// The weights of the transitions to other iterators stay as they are.
    pub fn set_weight(&mut self, to: i32, w: u64)
        ensures
            old(self).wf() ==> final(self).wf(),
            weight_in(final(self).weight_to@, to) == w,
            forall|other: i32| other != to ==> weight_in(final(self).weight_to@, other) == weight_in(
                old(self).weight_to@,
                other,
            ),
            *final(self) == (Iterator { weight_to: final(self).weight_to, ..*old(self) }),
    {
        let mut i: usize = 0;
        while i < self.weight_to.len()
            invariant
                i <= self.weight_to@.len(),
                *self == *old(self),
                forall|j: int| 0 <= j < i ==> (#[trigger] self.weight_to@[j]).0 != to,
            decreases self.weight_to@.len() - i,
        {
            if self.weight_to[i].0 == to {
                self.weight_to.set(i, (to, w));
                proof {
                    lemma_weight_replaced(old(self).weight_to@, i as int, w);
                    assert(self.weight_to@ == old(self).weight_to@.update(i as int, (to, w)));
                    if old(self).wf() {
                        assert forall|a: int, b: int| 0 <= a < b < self.weight_to@.len() implies (
                        #[trigger] self.weight_to@[a]).0 != (#[trigger] self.weight_to@[b]).0 by {
                            assert(self.weight_to@[a].0 == old(self).weight_to@[a].0);
                            assert(self.weight_to@[b].0 == old(self).weight_to@[b].0);
                        }
                    }
                }
                return;
            }
            i += 1;
        }
        self.weight_to.push((to, w));
        proof {
            lemma_weight_appended(old(self).weight_to@, to, w);
            if old(self).wf() {
                assert forall|a: int, b: int| 0 <= a < b < self.weight_to@.len() implies (
                #[trigger] self.weight_to@[a]).0 != (#[trigger] self.weight_to@[b]).0 by {
                    assert(self.weight_to@[a] == old(self).weight_to@[a]);
                    if b < old(self).weight_to@.len() {
                        assert(self.weight_to@[b] == old(self).weight_to@[b]);
                    }
                }
            }
        }
    }

    /// A copy of the iterator.
    pub fn duplicate(&self) -> (it: Iterator)
        ensures
            same_iterator(it, *self),
            self.wf() ==> it.wf(),
    {
        let mut weights: Vec<(i32, u64)> = Vec::new();
        let mut i: usize = 0;
        while i < self.weight_to.len()
            invariant
                i <= self.weight_to@.len(),
                weights@ == self.weight_to@.take(i as int),
            decreases self.weight_to@.len() - i,
        {
            weights.push(self.weight_to[i]);
            proof {
                assert(self.weight_to@.take(i + 1) == self.weight_to@.take(i as int).push(self.weight_to@[i as int]));
            }
            i += 1;
        }
        proof {
            assert(self.weight_to@.take(self.weight_to@.len() as int) == self.weight_to@);
        }
        Iterator {
            id: self.id,
            name: self.name.clone(),
            transform: self.transform.duplicate(),
            real_params: copy_reals(&self.real_params),
            vec3_params: copy_vec3s(&self.vec3_params),
            base_weight: self.base_weight,
            color_speed: self.color_speed,
            color_index: self.color_index,
            start_weight: self.start_weight,
            opacity: self.opacity,
            mix: self.mix,
            add: self.add,
            weight_to: weights,
        }
    }
}

/// The first weight recorded for `to` in a list of transition weights, and 0
/// where none is.
pub open spec fn weight_in(weights: Seq<(i32, u64)>, to: i32) -> u64
    decreases weights.len(),
{
    if weights.len() == 0 {
        REAL_ZERO
    } else if weights[0].0 == to {
        weights[0].1
    } else {
        weight_in(weights.skip(1), to)
    }
}

/// Replacing the first record for an iterator replaces its weight and no
/// other.
pub proof fn lemma_weight_replaced(weights: Seq<(i32, u64)>, i: int, w: u64)
    requires
        0 <= i < weights.len(),
        forall|j: int| 0 <= j < i ==> (#[trigger] weights[j]).0 != weights[i].0,
    ensures
        weight_in(weights.update(i, (weights[i].0, w)), weights[i].0) == w,
        forall|other: i32|
            other != weights[i].0 ==> weight_in(weights.update(i, (weights[i].0, w)), other) == weight_in(
                weights,
                other,
            ),
    decreases weights.len(),
{
    let to = weights[i].0;
    let next = weights.update(i, (to, w));
    let rest = weights.skip(1);
    if i > 0 {
        assert(rest[i - 1] == weights[i]);
        assert forall|j: int| 0 <= j < i - 1 implies (#[trigger] rest[j]).0 != rest[i - 1].0 by {
            assert(rest[j] == weights[j + 1]);
        }
        lemma_weight_replaced(rest, i - 1, w);
        assert(next.skip(1) =~= rest.update(i - 1, (to, w)));
        assert(next[0] == weights[0]);
        assert(weights[0].0 != to);
        assert(weight_in(next, to) == weight_in(next.skip(1), to));
    } else {
        assert(next.skip(1) =~= rest);
        assert(next[0] == (to, w));
    }
    assert forall|other: i32| other != to implies weight_in(next, other) == weight_in(weights, other) by {
        if i > 0 {
            if weights[0].0 == other {
                assert(weight_in(next, other) == weights[0].1);
            } else {
                assert(weight_in(next, other) == weight_in(next.skip(1), other));
                assert(weight_in(weights, other) == weight_in(rest, other));
            }
        } else {
            assert(weight_in(next, other) == weight_in(next.skip(1), other));
            assert(weight_in(weights, other) == weight_in(rest, other));
        }
    }
}

/// A record appended for an iterator that has none gives its weight and
/// changes no other.
pub proof fn lemma_weight_appended(weights: Seq<(i32, u64)>, to: i32, w: u64)
    requires
        forall|j: int| 0 <= j < weights.len() ==> (#[trigger] weights[j]).0 != to,
    ensures
        weight_in(weights.push((to, w)), to) == w,
        forall|other: i32| other != to ==> weight_in(weights.push((to, w)), other) == weight_in(weights, other),
    decreases weights.len(),
{
    let next = weights.push((to, w));
    let rest = weights.skip(1);
    if weights.len() > 0 {
        assert forall|j: int| 0 <= j < rest.len() implies (#[trigger] rest[j]).0 != to by {
            assert(rest[j] == weights[j + 1]);
        }
        lemma_weight_appended(rest, to, w);
        assert(next.skip(1) =~= rest.push((to, w)));
        assert(next[0] == weights[0]);
        assert(weights[0].0 != to);
        assert(weight_in(next, to) == weight_in(next.skip(1), to));
        assert forall|other: i32| other != to implies weight_in(next, other) == weight_in(weights, other) by {
            if weights[0].0 == other {
                assert(weight_in(next, other) == weights[0].1);
            } else {
                assert(weight_in(next, other) == weight_in(next.skip(1), other));
                assert(weight_in(weights, other) == weight_in(rest, other));
            }
        }
    } else {
        assert(next.skip(1) =~= Seq::<(i32, u64)>::empty());
        assert(next[0] == (to, w));
        assert forall|other: i32| other != to implies weight_in(next, other) == weight_in(weights, other) by {
            assert(weight_in(next, other) == weight_in(next.skip(1), other));
        }
    }
}

impl Camera {
    /// The camera at the origin, not turned, looking along the third axis,
    /// with a field of view of 60 degrees, a closed aperture, focus at 10 and
    /// a depth of field of 0.25.
    pub open spec fn initial() -> Camera {
        Camera {
            position: [REAL_ZERO, REAL_ZERO, REAL_ZERO],
            orientation: [REAL_ZERO, REAL_ZERO, REAL_ZERO, REAL_ONE],
            right_direction: [REAL_ONE, REAL_ZERO, REAL_ZERO],
            up_direction: [REAL_ZERO, REAL_ONE, REAL_ZERO],
            forward_direction: [REAL_ZERO, REAL_ZERO, REAL_ONE],
            fov: REAL_SIXTY,
            aperture: REAL_ZERO,
            focus_distance: REAL_TEN,
            dof: REAL_QUARTER,
        }
    }
}

impl Default for Camera {
    fn default() -> (c: Camera)
        ensures
            c == Camera::initial(),
    {
        Camera {
            position: [REAL_ZERO, REAL_ZERO, REAL_ZERO],
            orientation: [REAL_ZERO, REAL_ZERO, REAL_ZERO, REAL_ONE],
            right_direction: [REAL_ONE, REAL_ZERO, REAL_ZERO],
            up_direction: [REAL_ZERO, REAL_ONE, REAL_ZERO],
            forward_direction: [REAL_ZERO, REAL_ZERO, REAL_ONE],
            fov: REAL_SIXTY,
            aperture: REAL_ZERO,
            focus_distance: REAL_TEN,
            dof: REAL_QUARTER,
        }
    }
}

/// Every iterator of the list is well-formed.
pub open spec fn iterators_wf(its: Seq<Iterator>) -> bool {
    forall|i: int| 0 <= i < its.len() ==> (#[trigger] its[i]).wf()
}

impl IFS {
    /// Every iterator of the scene is well-formed.
    pub open spec fn wf(&self) -> bool {
        iterators_wf(self.iterators@)
    }

    /// Whether every iterator of the scene is well-formed.
    pub fn well_formed(&self) -> (r: bool)
        ensures
            r == self.wf(),
    {
        let mut i: usize = 0;
        while i < self.iterators.len()
            invariant
                i <= self.iterators@.len(),
                forall|j: int| 0 <= j < i ==> (#[trigger] self.iterators@[j]).wf(),
            decreases self.iterators@.len() - i,
        {
            if !self.iterators[i].well_formed() {
                return false;
            }
            i += 1;
        }
        true
    }

    /// A scene of the default size with the given iterators, the default
    /// camera and the default render controls: brightness, inverse gamma and
    /// vibrancy at 1, gamma threshold at 0, a black background, entropy 0.01,
    /// 20 warm-up iterations, stopping level 15, rendering not paused.
    pub fn new(title: String, iterators: Vec<Iterator>) -> (s: IFS)
        ensures
            iterators_wf(iterators@) ==> s.wf(),
            s.title == title,
            s.iterators == iterators,
            s.width == DEFAULT_SIDE,
            s.height == DEFAULT_SIDE,
            s.brightness == REAL_ONE,
            s.gamma_inv == REAL_ONE,
            s.gamma_thresh == REAL_ZERO,
            s.vibrancy == REAL_ONE,
            s.background_color@ == seq![0u32, 0u32, 0u32],
            s.camera == Camera::initial(),
            s.entropy == DEFAULT_ENTROPY,
            s.fuse == DEFAULT_FUSE,
            s.stopping_sl == DEFAULT_STOPPING_SL,
            !s.pause_rendering,
    {
        let s = IFS {
            title,
            iterators,
            width: DEFAULT_SIDE,
            height: DEFAULT_SIDE,
            brightness: REAL_ONE,
            gamma_inv: REAL_ONE,
            gamma_thresh: REAL_ZERO,
            vibrancy: REAL_ONE,
            background_color: [0, 0, 0],
            camera: Camera::default(),
            entropy: DEFAULT_ENTROPY,
            fuse: DEFAULT_FUSE,
            stopping_sl: DEFAULT_STOPPING_SL,
            pause_rendering: false,
        };
        assert(s.background_color@ =~= seq![0u32, 0u32, 0u32]);
        s
    }

    /// Appends an iterator to the scene. The transition weights of the other
    /// iterators are left as they are, whether or not the new one is to be
    /// connected: no weights are derived yet.
    pub fn add_iterator(&mut self, new_iterator: Iterator, connect: bool)
        ensures
            old(self).wf() && new_iterator.wf() ==> final(self).wf(),
            *final(self) == (IFS { iterators: final(self).iterators, ..*old(self) }),
            final(self).iterators@ == old(self).iterators@.push(new_iterator),
    {
        self.iterators.push(new_iterator);
        proof {
            if old(self).wf() && new_iterator.wf() {
                assert forall|i: int| 0 <= i < self.iterators@.len() implies (#[trigger] self.iterators@[i]).wf() by {
                    if i < old(self).iterators@.len() {
                        assert(self.iterators@[i] == old(self).iterators@[i]);
                    }
                }
            }
        }
    }

    /// Appends a copy of the iterator at `index` and returns the position of
    /// the copy; `None`, and no change, where the scene has no such iterator.
    pub fn dup_iterator(&mut self, index: usize) -> (r: Option<usize>)
        ensures
            old(self).wf() ==> final(self).wf(),
            r.is_some() == (index < old(self).iterators@.len()),
            r.is_none() ==> *final(self) == *old(self),
            *final(self) == (IFS { iterators: final(self).iterators, ..*old(self) }),
            r.is_some() ==> r.unwrap() == old(self).iterators@.len() && final(self).iterators@.len()
                == old(self).iterators@.len() + 1 && final(self).iterators@.take(old(self).iterators@.len() as int)
                == old(self).iterators@ && same_iterator(final(self).iterators@.last(), old(self).iterators@[index as int]),
    {
        if index >= self.iterators.len() {
            return None;
        }
        let copy = self.iterators[index].duplicate();
        let at = self.iterators.len();
        self.iterators.push(copy);
        proof {
            assert(self.iterators@.take(at as int) =~= old(self).iterators@);
            if old(self).wf() {
                assert(old(self).iterators@[index as int].wf());
                assert forall|i: int| 0 <= i < self.iterators@.len() implies (#[trigger] self.iterators@[i]).wf() by {
                    if i < old(self).iterators@.len() {
                        assert(self.iterators@[i] == old(self).iterators@[i]);
                    }
                }
            }
        }
        Some(at)
    }
}

/// Two transforms agree in every field.
pub open spec fn same_transform(a: Transform, b: Transform) -> bool {
    &&& a.name == b.name
    &&& a.version == b.version
    &&& a.description == b.description
    &&& a.tags@ == b.tags@
    &&& a.includes == b.includes
    &&& a.reference_url == b.reference_url
    &&& a.source_code == b.source_code
    &&& a.real_params@ == b.real_params@
    &&& a.vec3_params@ == b.vec3_params@
}

/// Two iterators agree in every field.
pub open spec fn same_iterator(a: Iterator, b: Iterator) -> bool {
    &&& a.id == b.id
    &&& a.name == b.name
    &&& same_transform(a.transform, b.transform)
    &&& a.real_params@ == b.real_params@
    &&& a.vec3_params@ == b.vec3_params@
    &&& a.base_weight == b.base_weight
    &&& a.color_speed == b.color_speed
    &&& a.color_index == b.color_index
    &&& a.start_weight == b.start_weight
    &&& a.opacity == b.opacity
    &&& a.mix == b.mix
    &&& a.add == b.add
    &&& a.weight_to@ == b.weight_to@
}

} // verus!
