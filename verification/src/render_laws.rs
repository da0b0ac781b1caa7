//! What holds of the render thread's decisions across scene updates.

use vstd::prelude::*;
use crate::dispatch::Command;
use crate::dispatch::ManagerView;
use crate::dispatch::UpdateError;
use crate::dispatch::adopted;
use crate::dispatch::asks_shader;
use crate::dispatch::received;
use crate::dispatch::received_commands;
use crate::dispatch::update_error;
use crate::dispatch::next_id;
use crate::dispatch::program_of;
use crate::dispatch::programs_of;
use crate::dispatch::scene_error;
use crate::dispatch::tick_commands;
use crate::dispatch::ticked;
use crate::dispatch::update_commands;
use crate::scene::IFS;

verus! {

/// The position of the one `InstallShader` among the commands of an update
/// that asks for another shader.
pub open spec fn compile_position(m: ManagerView, s: IFS) -> int {
    if m.resizes(s) {
        1
    } else {
        0
    }
}

/// A resize forces a new histogram: of two scenes taken up one after the
/// other with images of different sizes, the second gets a histogram buffer
/// of another identity than the first had, by a command to allocate it, and
/// the bind group is rebuilt after that command.
pub proof fn lemma_resize_reallocates(m: ManagerView, s1: IFS, s2: IFS)
    requires
        scene_error(s1).is_none(),
        scene_error(s2).is_none(),
        (s1.width, s1.height) != (s2.width, s2.height),
    ensures
        adopted(adopted(m, s1), s2).histogram_id != adopted(m, s1).histogram_id,
        adopted(adopted(m, s1), s2).bind_group_current(),
        update_commands(adopted(m, s1), s2)[0] is AllocateHistogram,
        update_commands(adopted(m, s1), s2).last() == Command::RebuildBindGroup,
{
}

/// An update that keeps the size of the image keeps the histogram.
pub proof fn lemma_same_size_keeps_histogram(m: ManagerView, s1: IFS, s2: IFS)
    requires
        (s1.width, s1.height) == (s2.width, s2.height),
    ensures
        adopted(adopted(m, s1), s2).histogram_id == adopted(m, s1).histogram_id,
        forall|k: int|
            0 <= k < update_commands(adopted(m, s1), s2).len() ==> !(#[trigger] update_commands(
                adopted(m, s1),
                s2,
            )[k] is AllocateHistogram) && update_commands(adopted(m, s1), s2)[k] != Command::RebuildBindGroup,
{
}

/// Taking up a scene keeps the bind group on the live histogram.
pub proof fn lemma_bind_group_stays_current(m: ManagerView, s: IFS, incoming: Option<IFS>, compiled: bool)
    requires
        m.bind_group_current(),
    ensures
        adopted(m, s).bind_group_current(),
        ticked(m, incoming, compiled).bind_group_current(),
{
}

/// No shader is compiled for a scene whose iterators carry the same programs
/// as those of the scene before, whatever else changed: the camera, the size,
/// the render controls. No compilation is asked for, the live shader keeps its
/// identity, and no shader is installed and no pipeline recreated.
pub proof fn lemma_same_programs_keep_shader(m: ManagerView, s1: IFS, s2: IFS)
    requires
        programs_of(s1.iterators@) == programs_of(s2.iterators@),
    ensures
        !asks_shader(adopted(m, s1), s2),
        adopted(adopted(m, s1), s2).shader_id == adopted(m, s1).shader_id,
        forall|k: int|
            0 <= k < update_commands(adopted(m, s1), s2).len() ==> #[trigger] update_commands(adopted(m, s1), s2)[k]
                != Command::InstallShader && update_commands(adopted(m, s1), s2)[k] != Command::RecreatePipelines,
{
}

/// One shader is compiled for a scene in which the source of the transform
/// of some iterator differs from that of the scene before: the scene, if it
/// can be rendered, asks for a compilation, and taking it up installs the
/// shader once, recreates the pipelines right after, and gives the live
/// shader another identity. `i` is the position of such an iterator.
pub proof fn lemma_changed_source_recompiles_once(m: ManagerView, s1: IFS, s2: IFS, i: int)
    requires
        0 <= i < s1.iterators@.len(),
        0 <= i < s2.iterators@.len(),
        s1.iterators@[i].transform.source_code@ != s2.iterators@[i].transform.source_code@,
    ensures
        scene_error(s2).is_none() ==> asks_shader(adopted(m, s1), s2),
        adopted(adopted(m, s1), s2).shader_id != adopted(m, s1).shader_id,
        update_commands(adopted(m, s1), s2)[compile_position(adopted(m, s1), s2) + 1] == Command::RecreatePipelines,
        update_commands(adopted(m, s1), s2)[compile_position(adopted(m, s1), s2)] == Command::InstallShader,
        forall|k: int|
            0 <= k < update_commands(adopted(m, s1), s2).len() && #[trigger] update_commands(adopted(m, s1), s2)[k]
                == Command::InstallShader ==> k == compile_position(adopted(m, s1), s2),
{
    let first = programs_of(s1.iterators@);
    let second = programs_of(s2.iterators@);
    assert(first[i] == program_of(s1.iterators@[i]));
    assert(second[i] == program_of(s2.iterators@[i]));
    assert(first[i].source != second[i].source);
    assert(first != second);
    assert(adopted(m, s1).reprograms(s2));
    let id = adopted(m, s1).shader_id;
    assert(next_id(id) != id);
}

/// A refused shader aborts the update: where the scene asks for another
/// shader and the device refused the kernel, the refusal is the error, no
/// work of the update is handed out, and the manager stays as it was, with the
/// live shader, its programs and the live histogram. The tick goes on as one
/// on which nothing arrived.
pub proof fn lemma_refused_shader_aborts(m: ManagerView, s: IFS)
    requires
        asks_shader(m, s),
    ensures
        update_error(m, s, false) == Some(UpdateError::ShaderRefused),
        received(m, Some(s), false) == m,
        received_commands(m, Some(s), false) == Seq::<Command>::empty(),
        ticked(m, Some(s), false) == ticked(m, None, false),
        tick_commands(m, Some(s), false) == tick_commands(m, None, false),
{
}

/// A scene that cannot be rendered is refused whatever was compiled, and
/// leaves the manager as it was.
pub proof fn lemma_refused_scene_changes_nothing(m: ManagerView, s: IFS, compiled: bool)
    requires
        scene_error(s).is_some(),
    ensures
        update_error(m, s, compiled) == Some(UpdateError::Scene(scene_error(s).unwrap())),
        received(m, Some(s), compiled) == m,
        received_commands(m, Some(s), compiled) == Seq::<Command>::empty(),
{
}

/// The dispatch counter grows by one with every tick, whatever arrives.
pub proof fn lemma_dispatch_counter_grows(m: ManagerView, incoming: Option<IFS>, compiled: bool)
    requires
        m.dispatch_count < i32::MAX,
    ensures
        ticked(m, incoming, compiled).dispatch_count == m.dispatch_count + 1,
        tick_commands(m, incoming, compiled)[0] == Command::ClearDone,
        tick_commands(m, incoming, compiled).last() == Command::AwaitDone,
{
}

} // verus!
