//! The decisions of the render thread: what one tick of the dispatch loop
//! does, and what a changed scene asks of the device resources.
//!
//! The manager keeps the facts that the decisions rest on: the size of the
//! live histogram, which histogram the bind group refers to, what the live
//! shader was synthesized from, and the dispatch counter. It hands out
//! commands; the caller carries them out on the device in the order given.

use vstd::prelude::*;
use crate::resources::DISPATCH_SEED;
use crate::resources::HISTOGRAM_HEIGHT;
use crate::resources::HISTOGRAM_WIDTH;
use crate::resources::INVOCATION_ITERS;
use crate::resources::INVOCATION_STATE_BYTES;
use crate::resources::MAX_ITERATORS;
use crate::resources::MAX_PALETTE_COLORS;
use crate::resources::MAX_PARAMS;
use crate::resources::PIXEL_BYTES;
use crate::resources::WORKGROUP_SIZE;
use crate::resources::histogram_bytes;
use crate::scene::DEFAULT_SIDE;
use crate::scene::IFS;
use crate::scene::Iterator;
use crate::scene::RealParam;
use crate::scene::Vec3Param;
use crate::scene::copy_reals;
use crate::scene::copy_vec3s;

verus! {

/// The per-dispatch parameters of the compute kernel.
#[derive(Clone, Copy, Debug, PartialEq, Eq, Structural)]
pub struct Parameters {
    pub seed: u32,
    pub width: u32,
    pub height: u32,
    pub dispatch_cnt: i32,
    pub reset_points_state: i32,
    pub invocation_iters: i32,
    pub padding_1: u32,
    pub padding_2: u32,
}

/// Why a scene cannot be rendered.
#[derive(Clone, Copy, Debug, PartialEq, Eq, Structural)]
pub enum SceneError {
    /// A side of the image is zero.
    EmptyImage,
    /// The histogram of the image would not fit in 64 bits of bytes.
    ImageTooLarge,
    /// The scene has more iterators than the iterator table has entries.
    TooManyIterators,
    /// The iterators have more scalar parameters, or more vector parameters,
    /// than a parameter table has entries.
    TooManyParameters,
    /// An iterator carries a parameter name twice, or two transition weights
    /// to one iterator.
    RepeatedName,
}

/// Why a scene was not taken up.
#[derive(Clone, Copy, Debug, PartialEq, Eq, Structural)]
pub enum UpdateError {
    /// The scene cannot be rendered.
    Scene(SceneError),
    /// The scene asks for another shader, and the device refused the kernel
    /// that was synthesized for it.
    ShaderRefused,
}

/// One piece of device work.
#[derive(Clone, Copy, Debug, PartialEq, Eq, Structural)]
pub enum Command {
    /// Write 0 to the completion flag.
    ClearDone,
    /// Replace the histogram by a new, zeroed buffer of this size.
    AllocateHistogram { bytes: u64 },
    /// Make the shader that was compiled for the scene the live one.
    InstallShader,
    /// Recreate the compute pipeline and the render pipeline from the live
    /// shader.
    RecreatePipelines,
    /// Write the scene's iterators to the iterator table.
    WriteIterators { count: u32 },
    /// Zero the per-invocation state.
    ZeroState { bytes: u64 },
    /// Write the settings: the camera and these values. The entropy is a
    /// single-precision number as its bit pattern.
    WriteSettings { itnum: u32, palettecnt: i32, warmup: u32, entropy: u32 },
    /// Write the palette.
    WritePalette { colors: u32 },
    /// Write the per-dispatch parameters.
    WriteParameters(Parameters),
    /// Resize the render target.
    ResizeTarget { width: u32, height: u32 },
    /// Register the render target for display and publish its handle.
    PublishTexture,
    /// Build the bind group anew from the live buffers.
    RebuildBindGroup,
    /// Submit one compute pass of this many workgroups, then one render pass,
    /// as a single submission.
    Submit { workgroups: u32 },
    /// Wait until the completion flag reads 1.
    AwaitDone,
}

/// What the shader is synthesized from, for one iterator.
#[derive(Debug)]
pub struct Program {
    pub source: String,
    pub real_params: Vec<RealParam>,
    pub vec3_params: Vec<Vec3Param>,
}

/// A program as plain mathematics.
pub struct ProgramView {
    pub source: Seq<char>,
    pub reals: Seq<(Seq<char>, u64)>,
    pub vec3s: Seq<(Seq<char>, u64, u64, u64)>,
}

/// Scalar parameters as pairs of name and value.
pub open spec fn reals_view(ps: Seq<RealParam>) -> Seq<(Seq<char>, u64)> {
    Seq::new(ps.len(), |i: int| (ps[i].name@, ps[i].value))
}

/// Vector parameters as name and components.
pub open spec fn vec3s_view(ps: Seq<Vec3Param>) -> Seq<(Seq<char>, u64, u64, u64)> {
    Seq::new(ps.len(), |i: int| (ps[i].name@, ps[i].x, ps[i].y, ps[i].z))
}

/// What the shader is synthesized from, for one iterator: the source of its
/// transform and the names and values of its parameters.
pub open spec fn program_of(it: Iterator) -> ProgramView {
    ProgramView {
        source: it.transform.source_code@,
        reals: reals_view(it.real_params@),
        vec3s: vec3s_view(it.vec3_params@),
    }
}

/// What the shader is synthesized from: the programs of the iterators, in
/// list order.
pub open spec fn programs_of(its: Seq<Iterator>) -> Seq<ProgramView> {
    Seq::new(its.len(), |i: int| program_of(its[i]))
}

impl Program {
    /// The program as plain mathematics.
    pub open spec fn view(&self) -> ProgramView {
        ProgramView {
            source: self.source@,
            reals: reals_view(self.real_params@),
            vec3s: vec3s_view(self.vec3_params@),
        }
    }
}

/// Stored programs as plain mathematics.
pub open spec fn programs_view(ps: Seq<Program>) -> Seq<ProgramView> {
    Seq::new(ps.len(), |i: int| ps[i]@)
}

/// Whether two lists of scalar parameters agree in names and values.
pub fn same_reals(a: &Vec<RealParam>, b: &Vec<RealParam>) -> (r: bool)
    ensures
        r == (reals_view(a@) == reals_view(b@)),
{
    if a.len() != b.len() {
        proof {
            assert(reals_view(a@).len() != reals_view(b@).len());
        }
        return false;
    }
    let mut i: usize = 0;
    while i < a.len()
        invariant
            i <= a@.len(),
            a@.len() == b@.len(),
            forall|j: int| 0 <= j < i ==> reals_view(a@)[j] == reals_view(b@)[j],
        decreases a@.len() - i,
    {
        if !(a[i].name == b[i].name) || a[i].value != b[i].value {
            proof {
                assert(reals_view(a@)[i as int] != reals_view(b@)[i as int]);
            }
            return false;
        }
        i += 1;
    }
    proof {
        assert(reals_view(a@) =~= reals_view(b@));
    }
    true
}

/// Whether two lists of vector parameters agree in names and values.
pub fn same_vec3s(a: &Vec<Vec3Param>, b: &Vec<Vec3Param>) -> (r: bool)
    ensures
        r == (vec3s_view(a@) == vec3s_view(b@)),
{
    if a.len() != b.len() {
        proof {
            assert(vec3s_view(a@).len() != vec3s_view(b@).len());
        }
        return false;
    }
    let mut i: usize = 0;
    while i < a.len()
        invariant
            i <= a@.len(),
            a@.len() == b@.len(),
            forall|j: int| 0 <= j < i ==> vec3s_view(a@)[j] == vec3s_view(b@)[j],
        decreases a@.len() - i,
    {
        if !(a[i].name == b[i].name) || a[i].x != b[i].x || a[i].y != b[i].y || a[i].z != b[i].z {
            proof {
                assert(vec3s_view(a@)[i as int] != vec3s_view(b@)[i as int]);
            }
            return false;
        }
        i += 1;
    }
    proof {
        assert(vec3s_view(a@) =~= vec3s_view(b@));
    }
    true
}

/// Whether the stored programs are those of the iterators.
pub fn same_programs(stored: &Vec<Program>, its: &Vec<Iterator>) -> (r: bool)
    ensures
        r == (programs_view(stored@) == programs_of(its@)),
{
    if stored.len() != its.len() {
        proof {
            assert(programs_view(stored@).len() != programs_of(its@).len());
        }
        return false;
    }
    let mut i: usize = 0;
    while i < stored.len()
        invariant
            i <= stored@.len(),
            stored@.len() == its@.len(),
            forall|j: int| 0 <= j < i ==> programs_view(stored@)[j] == programs_of(its@)[j],
        decreases stored@.len() - i,
    {
        let p = &stored[i];
        let it = &its[i];
        if !(p.source == it.transform.source_code) || !same_reals(&p.real_params, &it.real_params) || !same_vec3s(
            &p.vec3_params,
            &it.vec3_params,
        ) {
            proof {
                assert(programs_view(stored@)[i as int] != programs_of(its@)[i as int]);
            }
            return false;
        }
        i += 1;
    }
    proof {
        assert(programs_view(stored@) =~= programs_of(its@));
    }
    true
}

/// The programs of the iterators, copied out of the scene.
pub fn extract_programs(its: &Vec<Iterator>) -> (ps: Vec<Program>)
    ensures
        programs_view(ps@) == programs_of(its@),
{
    let mut ps: Vec<Program> = Vec::new();
    let mut i: usize = 0;
    while i < its.len()
        invariant
            i <= its@.len(),
            ps@.len() == i,
            forall|j: int| 0 <= j < i ==> (#[trigger] ps@[j])@ == program_of(its@[j]),
        decreases its@.len() - i,
    {
        let it = &its[i];
        ps.push(
            Program {
                source: it.transform.source_code.clone(),
                real_params: copy_reals(&it.real_params),
                vec3_params: copy_vec3s(&it.vec3_params),
            },
        );
        i += 1;
    }
    proof {
        assert(programs_view(ps@) =~= programs_of(its@));
    }
    ps
}

/// The number of scalar parameters of all iterators together.
pub open spec fn total_reals(its: Seq<Iterator>) -> nat
    decreases its.len(),
{
    if its.len() == 0 {
        0
    } else {
        total_reals(its.drop_last()) + its.last().real_params@.len()
    }
}

/// The number of vector parameters of all iterators together.
pub open spec fn total_vec3s(its: Seq<Iterator>) -> nat
    decreases its.len(),
{
    if its.len() == 0 {
        0
    } else {
        total_vec3s(its.drop_last()) + its.last().vec3_params@.len()
    }
}

/// Why the scene cannot be rendered, if it cannot: the first of the reasons
/// that applies, in the order in which `SceneError` lists them.
pub open spec fn scene_error(s: IFS) -> Option<SceneError> {
    if s.width == 0 || s.height == 0 {
        Some(SceneError::EmptyImage)
    } else if s.width * s.height * PIXEL_BYTES > u64::MAX {
        Some(SceneError::ImageTooLarge)
    } else if s.iterators@.len() > MAX_ITERATORS {
        Some(SceneError::TooManyIterators)
    } else if total_reals(s.iterators@) > MAX_PARAMS || total_vec3s(s.iterators@) > MAX_PARAMS {
        Some(SceneError::TooManyParameters)
    } else if !s.wf() {
        Some(SceneError::RepeatedName)
    } else {
        None
    }
}

/// Whether the iterators have more scalar or more vector parameters than a
/// parameter table has entries.
fn too_many_parameters(its: &Vec<Iterator>) -> (r: bool)
    ensures
        r == (total_reals(its@) > MAX_PARAMS || total_vec3s(its@) > MAX_PARAMS),
{
    let mut reals: usize = 0;
    let mut vec3s: usize = 0;
    let mut i: usize = 0;
    proof {
        assert(its@.take(0) =~= Seq::<Iterator>::empty());
    }
    while i < its.len()
        invariant
            i <= its@.len(),
            reals == total_reals(its@.take(i as int)),
            vec3s == total_vec3s(its@.take(i as int)),
            reals <= MAX_PARAMS,
            vec3s <= MAX_PARAMS,
        decreases its@.len() - i,
    {
        let r = its[i].real_params.len();
        let v = its[i].vec3_params.len();
        proof {
            let next = its@.take(i + 1);
            assert(next.drop_last() == its@.take(i as int));
            assert(next.last() == its@[i as int]);
            lemma_totals_grow(its@, i + 1);
        }
        if r > MAX_PARAMS - reals || v > MAX_PARAMS - vec3s {
            return true;
        }
        reals = reals + r;
        vec3s = vec3s + v;
        i += 1;
    }
    proof {
        assert(its@.take(its@.len() as int) == its@);
    }
    false
}

/// The totals of a list of iterators are at least those of each of its
/// beginnings.
pub proof fn lemma_totals_grow(its: Seq<Iterator>, n: int)
    requires
        0 <= n <= its.len(),
    ensures
        total_reals(its.take(n)) <= total_reals(its),
        total_vec3s(its.take(n)) <= total_vec3s(its),
    decreases its.len(),
{
    if n == its.len() {
        assert(its.take(n) == its);
    } else {
        assert(its.drop_last().take(n) == its.take(n));
        lemma_totals_grow(its.drop_last(), n);
    }
}

/// Some identity other than `id`.
pub open spec fn next_id(id: u64) -> u64 {
    if id == u64::MAX {
        0
    } else {
        (id + 1) as u64
    }
}

/// What the manager knows, as plain mathematics.
pub struct ManagerView {
    /// The size of the image that the live histogram was made for.
    pub histogram_size: (u32, u32),
    /// The size of the image of the scene in use.
    pub scene_size: (u32, u32),
    /// The identity of the live histogram buffer.
    pub histogram_id: u64,
    /// The identity of the histogram buffer that the bind group refers to.
    pub bound_histogram_id: u64,
    /// The identity of the live shader.
    pub shader_id: u64,
    /// What the live shader was synthesized from; `None` while it is the
    /// template's own.
    pub program: Option<Seq<ProgramView>>,
    /// The number of dispatches so far.
    pub dispatch_count: i32,
}

impl ManagerView {
    /// The scene asks for a histogram of another size than the live one.
    pub open spec fn resizes(self, s: IFS) -> bool {
        self.histogram_size != (s.width, s.height)
    }

    /// The scene asks for another shader than the live one.
    pub open spec fn reprograms(self, s: IFS) -> bool {
        self.program != Some(programs_of(s.iterators@))
    }

    /// The bind group refers to the live histogram.
    pub open spec fn bind_group_current(self) -> bool {
        self.bound_histogram_id == self.histogram_id
    }
}

/// The state of a manager before the first scene: the histogram of the
/// initial image, the template's own shader, no dispatch yet.
pub open spec fn initial_manager() -> ManagerView {
    ManagerView {
        histogram_size: (HISTOGRAM_WIDTH as u32, HISTOGRAM_HEIGHT as u32),
        scene_size: (DEFAULT_SIDE, DEFAULT_SIDE),
        histogram_id: 0,
        bound_histogram_id: 0,
        shader_id: 0,
        program: None,
        dispatch_count: 0,
    }
}

/// The parameters written when a scene is taken up: the size of its image,
/// and a dispatch counter and an iteration budget of zero.
pub open spec fn reset_parameters(s: IFS) -> Parameters {
    Parameters {
        seed: DISPATCH_SEED,
        width: s.width,
        height: s.height,
        dispatch_cnt: 0,
        reset_points_state: 0,
        invocation_iters: 0,
        padding_1: 0,
        padding_2: 0,
    }
}

/// The parameters written before each dispatch: the size of the image in
/// use, the number of dispatches so far, and the iteration budget.
pub open spec fn frame_parameters(m: ManagerView) -> Parameters {
    Parameters {
        seed: DISPATCH_SEED,
        width: m.scene_size.0,
        height: m.scene_size.1,
        dispatch_cnt: m.dispatch_count,
        reset_points_state: 0,
        invocation_iters: INVOCATION_ITERS,
        padding_1: 0,
        padding_2: 0,
    }
}

/// The device work that taking up a scene asks for, in order: a new histogram
/// if the size changed; the shader compiled for the scene and new pipelines
/// if the programs changed; then, always, the iterator table, zeroed invocation state,
/// settings, palette, parameters, and the resized and published render
/// target; last, a new bind group if the histogram was replaced.
pub open spec fn update_commands(m: ManagerView, s: IFS) -> Seq<Command> {
    (if m.resizes(s) {
        seq![Command::AllocateHistogram { bytes: (s.width * s.height * PIXEL_BYTES) as u64 }]
    } else {
        Seq::empty()
    }) + (if m.reprograms(s) {
        seq![Command::InstallShader, Command::RecreatePipelines]
    } else {
        Seq::empty()
    }) + seq![
        Command::WriteIterators { count: s.iterators@.len() as u32 },
        Command::ZeroState { bytes: (INVOCATION_STATE_BYTES * WORKGROUP_SIZE) as u64 },
        Command::WriteSettings {
            itnum: s.iterators@.len() as u32,
            palettecnt: MAX_PALETTE_COLORS as i32,
            warmup: s.fuse,
            entropy: s.entropy,
        },
        Command::WritePalette { colors: MAX_PALETTE_COLORS as u32 },
        Command::WriteParameters(reset_parameters(s)),
        Command::ResizeTarget { width: s.width, height: s.height },
        Command::PublishTexture,
    ] + (if m.resizes(s) {
        seq![Command::RebuildBindGroup]
    } else {
        Seq::empty()
    })
}

/// What the manager knows after taking up a scene. A replaced histogram and a
/// recompiled shader get new identities, and the bind group refers to the
/// live histogram.
pub open spec fn adopted(m: ManagerView, s: IFS) -> ManagerView {
    ManagerView {
        histogram_size: (s.width, s.height),
        scene_size: (s.width, s.height),
        histogram_id: if m.resizes(s) {
            next_id(m.histogram_id)
        } else {
            m.histogram_id
        },
        bound_histogram_id: if m.resizes(s) {
            next_id(m.histogram_id)
        } else {
            m.bound_histogram_id
        },
        shader_id: if m.reprograms(s) {
            next_id(m.shader_id)
        } else {
            m.shader_id
        },
        program: Some(programs_of(s.iterators@)),
        dispatch_count: m.dispatch_count,
    }
}

/// Whether the scene has to be compiled for before it can be taken up: it
/// can be rendered, and it asks for another shader than the live one.
pub open spec fn asks_shader(m: ManagerView, s: IFS) -> bool {
    scene_error(s).is_none() && m.reprograms(s)
}

/// Why the scene is not taken up, if it is not: it cannot be rendered, or it
/// asks for another shader and none was compiled for it. `compiled` says
/// whether the device accepted the kernel synthesized for the scene.
pub open spec fn update_error(m: ManagerView, s: IFS, compiled: bool) -> Option<UpdateError> {
    match scene_error(s) {
        Some(e) => Some(UpdateError::Scene(e)),
        None => if m.reprograms(s) && !compiled {
            Some(UpdateError::ShaderRefused)
        } else {
            None
        },
    }
}

/// What the manager knows after the scene `incoming`, if any, arrived: a
/// scene that is taken up is adopted, any other leaves everything as it was.
pub open spec fn received(m: ManagerView, incoming: Option<IFS>, compiled: bool) -> ManagerView {
    match incoming {
        Some(s) => if update_error(m, s, compiled).is_none() {
            adopted(m, s)
        } else {
            m
        },
        None => m,
    }
}

/// The device work that the scene `incoming`, if any, asks for: that of an
/// update for a scene that is taken up, none at all for any other.
pub open spec fn received_commands(m: ManagerView, incoming: Option<IFS>, compiled: bool) -> Seq<Command> {
    match incoming {
        Some(s) => if update_error(m, s, compiled).is_none() {
            update_commands(m, s)
        } else {
            Seq::empty()
        },
        None => Seq::empty(),
    }
}

/// The state of the manager after a tick on which the scene `incoming`, if
/// any, arrived: a scene that can be rendered, and for which a shader is at
/// hand where it asks for one, is taken up; the dispatch is counted.
pub open spec fn ticked(m: ManagerView, incoming: Option<IFS>, compiled: bool) -> ManagerView {
    ManagerView {
        dispatch_count: (m.dispatch_count + 1) as i32,
        ..received(m, incoming, compiled)
    }
}

/// The device work of one tick, in order: clear the completion flag; take up
/// the incoming scene, if there is one and it is taken up; write the
/// parameters of this dispatch; submit; wait for completion.
pub open spec fn tick_commands(m: ManagerView, incoming: Option<IFS>, compiled: bool) -> Seq<Command> {
    seq![Command::ClearDone] + received_commands(m, incoming, compiled) + seq![
        Command::WriteParameters(frame_parameters(received(m, incoming, compiled))),
        Command::Submit { workgroups: WORKGROUP_SIZE as u32 },
        Command::AwaitDone,
    ]
}

/// What one tick asks of the caller.
pub struct Tick {
    /// The device work, in order.
    pub commands: Vec<Command>,
    /// Why the incoming scene was not taken up, if it was not.
    pub rejected: Option<UpdateError>,
}

/// The keeper of the render thread's decisions.
pub struct ResourceManager {
    histogram_size: (u32, u32),
    scene_size: (u32, u32),
    histogram_id: u64,
    bound_histogram_id: u64,
    shader_id: u64,
    program: Option<Vec<Program>>,
    dispatch_count: i32,
}

fn bump(id: u64) -> (r: u64)
    ensures
        r == next_id(id),
        r != id,
{
    if id == u64::MAX {
        0
    } else {
        id + 1
    }
}

impl ResourceManager {
    /// What the manager knows, as plain mathematics.
    pub closed spec fn view(&self) -> ManagerView {
        ManagerView {
            histogram_size: self.histogram_size,
            scene_size: self.scene_size,
            histogram_id: self.histogram_id,
            bound_histogram_id: self.bound_histogram_id,
            shader_id: self.shader_id,
            program: match self.program {
                Some(p) => Some(programs_view(p@)),
                None => None,
            },
            dispatch_count: self.dispatch_count,
        }
    }

    /// The manager of a renderer that was just set up.
    pub fn new() -> (m: ResourceManager)
        ensures
            m@ == initial_manager(),
            m@.bind_group_current(),
    {
        ResourceManager {
            histogram_size: (HISTOGRAM_WIDTH as u32, HISTOGRAM_HEIGHT as u32),
            scene_size: (DEFAULT_SIDE, DEFAULT_SIDE),
            histogram_id: 0,
            bound_histogram_id: 0,
            shader_id: 0,
            program: None,
            dispatch_count: 0,
        }
    }

    /// Why the scene cannot be rendered, if it cannot.
    pub fn check(scene: &IFS) -> (e: Option<SceneError>)
        ensures
            e == scene_error(*scene),
    {
        if scene.width == 0 || scene.height == 0 {
            return Some(SceneError::EmptyImage);
        }
        if histogram_bytes(scene.width, scene.height).is_none() {
            return Some(SceneError::ImageTooLarge);
        }
        if scene.iterators.len() > MAX_ITERATORS {
            return Some(SceneError::TooManyIterators);
        }
        if too_many_parameters(&scene.iterators) {
            return Some(SceneError::TooManyParameters);
        }
        if !scene.well_formed() {
            return Some(SceneError::RepeatedName);
        }
        None
    }

    /// Whether the scene asks for a histogram of another size.
    pub fn resizes(&self, scene: &IFS) -> (r: bool)
        ensures
            r == self@.resizes(*scene),
    {
        self.histogram_size.0 != scene.width || self.histogram_size.1 != scene.height
    }

    /// Whether the scene asks for another shader.
    pub fn reprograms(&self, scene: &IFS) -> (r: bool)
        ensures
            r == self@.reprograms(*scene),
    {
        match &self.program {
            Some(p) => !same_programs(p, &scene.iterators),
            None => true,
        }
    }

    /// Whether a kernel has to be synthesized from the scene and compiled
    /// before the scene can be taken up. The caller compiles it, sets the
    /// shader aside, and tells `update` or `tick` whether the device accepted
    /// it.
    pub fn asks_shader(&self, scene: &IFS) -> (r: bool)
        ensures
            r == asks_shader(self@, *scene),
    {
        ResourceManager::check(scene).is_none() && self.reprograms(scene)
    }

    /// The device work that taking up the scene asks for, without taking it
    /// up; the reason, for a scene that cannot be rendered.
    pub fn plan(&self, scene: &IFS) -> (r: Result<Vec<Command>, SceneError>)
        ensures
            r.is_ok() == scene_error(*scene).is_none(),
            r.is_err() ==> Some(r.unwrap_err()) == scene_error(*scene),
            r.is_ok() ==> r.unwrap()@ == update_commands(self@, *scene),
    {
        match ResourceManager::check(scene) {
            Some(e) => {
                return Err(e);
            },
            None => {},
        }
        let resized = self.resizes(scene);
        let reprogram = self.reprograms(scene);
        let mut out: Vec<Command> = Vec::new();
        if resized {
            let bytes = histogram_bytes(scene.width, scene.height).unwrap();
            out.push(Command::AllocateHistogram { bytes });
        }
        if reprogram {
            out.push(Command::InstallShader);
            out.push(Command::RecreatePipelines);
        }
        let count = scene.iterators.len() as u32;
        out.push(Command::WriteIterators { count });
        out.push(Command::ZeroState { bytes: INVOCATION_STATE_BYTES * WORKGROUP_SIZE as u64 });
        out.push(
            Command::WriteSettings {
                itnum: count,
                palettecnt: MAX_PALETTE_COLORS as i32,
                warmup: scene.fuse,
                entropy: scene.entropy,
            },
        );
        out.push(Command::WritePalette { colors: MAX_PALETTE_COLORS as u32 });
        out.push(
            Command::WriteParameters(
                Parameters {
                    seed: DISPATCH_SEED,
                    width: scene.width,
                    height: scene.height,
                    dispatch_cnt: 0,
                    reset_points_state: 0,
                    invocation_iters: 0,
                    padding_1: 0,
                    padding_2: 0,
                },
            ),
        );
        out.push(Command::ResizeTarget { width: scene.width, height: scene.height });
        out.push(Command::PublishTexture);
        if resized {
            out.push(Command::RebuildBindGroup);
        }
        proof {
            assert(out@ =~= update_commands(self@, *scene));
        }
        Ok(out)
    }

    /// Records that the scene was taken up.
    fn adopt(&mut self, scene: &IFS)
        requires
            scene_error(*scene).is_none(),
        ensures
            final(self)@ == adopted(old(self)@, *scene),
            old(self)@.bind_group_current() ==> final(self)@.bind_group_current(),
    {
        let resized = self.resizes(scene);
        let reprogram = self.reprograms(scene);
        if resized {
            self.histogram_id = bump(self.histogram_id);
            self.bound_histogram_id = self.histogram_id;
        }
        if reprogram {
            self.shader_id = bump(self.shader_id);
            self.program = Some(extract_programs(&scene.iterators));
        }
        self.histogram_size = (scene.width, scene.height);
        self.scene_size = (scene.width, scene.height);
    }

    /// Takes up a scene: hands out the device work it asks for and records it
    /// as done. `compiled` says whether the device accepted the kernel that
    /// was synthesized for the scene; it is read only where the scene asks
    /// for another shader. A scene that cannot be rendered, or whose shader
    /// was refused, is not taken up: the reason is returned, no work is handed
    /// out, and the manager stays as it was, with the live shader and the
    /// live pipelines.
    pub fn update(&mut self, scene: &IFS, compiled: bool) -> (r: Result<Vec<Command>, UpdateError>)
        ensures
            r.is_ok() == update_error(old(self)@, *scene, compiled).is_none(),
            r.is_err() ==> Some(r.unwrap_err()) == update_error(old(self)@, *scene, compiled) && final(self)@
                == old(self)@,
            r.is_ok() ==> r.unwrap()@ == update_commands(old(self)@, *scene) && final(self)@ == adopted(
                old(self)@,
                *scene,
            ),
            final(self)@ == received(old(self)@, Some(*scene), compiled),
            old(self)@.bind_group_current() ==> final(self)@.bind_group_current(),
    {
        let commands = match self.plan(scene) {
            Err(e) => {
                return Err(UpdateError::Scene(e));
            },
            Ok(c) => c,
        };
        if self.reprograms(scene) && !compiled {
            return Err(UpdateError::ShaderRefused);
        }
        self.adopt(scene);
        Ok(commands)
    }

    /// Whether the dispatch counter can count another dispatch.
    pub fn can_tick(&self) -> (r: bool)
        ensures
            r == (self@.dispatch_count < i32::MAX),
    {
        self.dispatch_count < i32::MAX
    }

    /// The number of dispatches so far.
    pub fn dispatch_count(&self) -> (n: i32)
        ensures
            n == self@.dispatch_count,
    {
        self.dispatch_count
    }

    /// The identity of the live histogram buffer.
    pub fn histogram_id(&self) -> (id: u64)
        ensures
            id == self@.histogram_id,
    {
        self.histogram_id
    }

    /// The identity of the live shader.
    pub fn shader_id(&self) -> (id: u64)
        ensures
            id == self@.shader_id,
    {
        self.shader_id
    }

    /// One tick of the dispatch loop. `incoming` is the scene that arrived
    /// since the last tick, if one did, and `compiled` says whether the device
    /// accepted the kernel synthesized for it; `compiled` is read only where
    /// the scene asks for another shader. A scene that is not taken up is
    /// reported and passed over; the tick then goes on with the scene in use
    /// and everything that was live.
    pub fn tick(&mut self, incoming: Option<&IFS>, compiled: bool) -> (t: Tick)
        requires
            old(self)@.dispatch_count < i32::MAX,
        ensures
            t.commands@ == tick_commands(old(self)@, match incoming {
                Some(s) => Some(*s),
                None => None,
            }, compiled),
            final(self)@ == ticked(old(self)@, match incoming {
                Some(s) => Some(*s),
                None => None,
            }, compiled),
            t.rejected == (match incoming {
                Some(s) => update_error(old(self)@, *s, compiled),
                None => None,
            }),
            old(self)@.bind_group_current() ==> final(self)@.bind_group_current(),
    {
        let mut commands: Vec<Command> = Vec::new();
        commands.push(Command::ClearDone);
        let mut rejected: Option<UpdateError> = None;
        match incoming {
            Some(scene) => {
                match self.update(scene, compiled) {
                    Ok(mut work) => {
                        commands.append(&mut work);
                    },
                    Err(e) => {
                        rejected = Some(e);
                    },
                }
            },
            None => {},
        }
        commands.push(
            Command::WriteParameters(
                Parameters {
                    seed: DISPATCH_SEED,
                    width: self.scene_size.0,
                    height: self.scene_size.1,
                    dispatch_cnt: self.dispatch_count,
                    reset_points_state: 0,
                    invocation_iters: INVOCATION_ITERS,
                    padding_1: 0,
                    padding_2: 0,
                },
            ),
        );
        commands.push(Command::Submit { workgroups: WORKGROUP_SIZE as u32 });
        commands.push(Command::AwaitDone);
        self.dispatch_count = self.dispatch_count + 1;
        proof {
            let inc = match incoming {
                Some(s) => Some(*s),
                None => None,
            };
            assert(commands@ =~= tick_commands(old(self)@, inc, compiled));
        }
        Tick { commands, rejected }
    }
}

/// Whether the completion flag, as read back from the device, says that the
/// frame is done.
pub fn frame_done(flag: u32) -> (done: bool)
    ensures
        done == (flag == 1),
{
    flag == 1
}

} // verus!
