//! The content hash of a scene: the one means by which a change of the scene
//! is noticed. The whole scene is written out as bytes, field by field, and
//! the bytes are hashed.

use vstd::prelude::*;
use vstd::bytes::spec_u32_to_le_bytes;
use vstd::bytes::spec_u64_to_le_bytes;
use vstd::bytes::u32_to_le_bytes;
use vstd::bytes::u64_to_le_bytes;
use vstd::slice::slice_to_vec;
use vstd::std_specs::hash::DefaultHasherAdditionalSpecFns;
use vstd::string::StringSliceAdditionalSpecFns;
use vstd::utf8::encode_utf8;
use std::collections::hash_map::DefaultHasher;
use std::hash::Hasher;
use crate::scene::Camera;
use crate::scene::IFS;
use crate::scene::Iterator;
use crate::scene::RealParam;
use crate::scene::Transform;
use crate::scene::Vec3Param;

verus! {

/// Bytes behind their count.
pub open spec fn framed(s: Seq<u8>) -> Seq<u8> {
    spec_u64_to_le_bytes(s.len() as u64) + s
}

/// A text as its UTF-8 bytes behind their count.
pub open spec fn text_code(s: Seq<char>) -> Seq<u8> {
    framed(encode_utf8(s))
}

/// A signed identity as an unsigned number that keeps the order.
pub open spec fn biased(id: i32) -> u32 {
    (id + 0x8000_0000) as u32
}

/// A scalar parameter: its name, then its value.
pub open spec fn real_code(p: RealParam) -> Seq<u8> {
    text_code(p.name@) + spec_u64_to_le_bytes(p.value)
}

/// A vector parameter: its name, then its three components.
pub open spec fn vec3_code(p: Vec3Param) -> Seq<u8> {
    text_code(p.name@) + spec_u64_to_le_bytes(p.x) + spec_u64_to_le_bytes(p.y) + spec_u64_to_le_bytes(p.z)
}

/// Scalar parameters one after the other.
pub open spec fn reals_code(ps: Seq<RealParam>) -> Seq<u8>
    decreases ps.len(),
{
    if ps.len() == 0 {
        Seq::empty()
    } else {
        reals_code(ps.drop_last()) + real_code(ps.last())
    }
}

/// Vector parameters one after the other.
pub open spec fn vec3s_code(ps: Seq<Vec3Param>) -> Seq<u8>
    decreases ps.len(),
{
    if ps.len() == 0 {
        Seq::empty()
    } else {
        vec3s_code(ps.drop_last()) + vec3_code(ps.last())
    }
}

/// Texts one after the other.
pub open spec fn texts_code(ts: Seq<String>) -> Seq<u8>
    decreases ts.len(),
{
    if ts.len() == 0 {
        Seq::empty()
    } else {
        texts_code(ts.drop_last()) + text_code(ts.last()@)
    }
}

/// A transition weight: the identity of the iterator it leads to, then the
/// weight.
pub open spec fn weight_code(w: (i32, u64)) -> Seq<u8> {
    spec_u32_to_le_bytes(biased(w.0)) + spec_u64_to_le_bytes(w.1)
}

/// Transition weights one after the other.
pub open spec fn weights_code(ws: Seq<(i32, u64)>) -> Seq<u8>
    decreases ws.len(),
{
    if ws.len() == 0 {
        Seq::empty()
    } else {
        weights_code(ws.drop_last()) + weight_code(ws.last())
    }
}

/// A transform, every field of it: name, version, description, the tags
/// behind their count, includes, reference, source, and the defaults of its
/// parameters behind their counts.
pub open spec fn transform_code(t: Transform) -> Seq<u8> {
    text_code(t.name@) + text_code(t.version@) + text_code(t.description@) + spec_u64_to_le_bytes(
        t.tags@.len() as u64,
    ) + texts_code(t.tags@) + text_code(t.includes@) + text_code(t.reference_url@) + text_code(t.source_code@)
        + spec_u64_to_le_bytes(t.real_params@.len() as u64) + reals_code(t.real_params@) + spec_u64_to_le_bytes(
        t.vec3_params@.len() as u64,
    ) + vec3s_code(t.vec3_params@)
}

/// The first half of an iterator: identity, name, transform, and the
/// parameters behind their counts.
pub open spec fn iterator_head_code(it: Iterator) -> Seq<u8> {
    spec_u32_to_le_bytes(biased(it.id)) + text_code(it.name@) + transform_code(it.transform) + spec_u64_to_le_bytes(
        it.real_params@.len() as u64,
    ) + reals_code(it.real_params@) + spec_u64_to_le_bytes(it.vec3_params@.len() as u64) + vec3s_code(
        it.vec3_params@,
    )
}

/// The second half of an iterator: the seven attributes in the order in which
/// the type lists them, and the transition weights behind their count.
pub open spec fn iterator_tail_code(it: Iterator) -> Seq<u8> {
    spec_u64_to_le_bytes(it.base_weight) + spec_u64_to_le_bytes(it.color_speed) + spec_u64_to_le_bytes(
        it.color_index,
    ) + spec_u64_to_le_bytes(it.start_weight) + spec_u64_to_le_bytes(it.opacity) + spec_u64_to_le_bytes(it.mix)
        + spec_u64_to_le_bytes(it.add) + spec_u64_to_le_bytes(it.weight_to@.len() as u64) + weights_code(
        it.weight_to@,
    )
}

/// An iterator, every field of it.
pub open spec fn iterator_code(it: Iterator) -> Seq<u8> {
    iterator_head_code(it) + iterator_tail_code(it)
}

/// Iterators one after the other.
pub open spec fn iterators_code(its: Seq<Iterator>) -> Seq<u8>
    decreases its.len(),
{
    if its.len() == 0 {
        Seq::empty()
    } else {
        iterators_code(its.drop_last()) + iterator_code(its.last())
    }
}

/// Three doubles one after the other.
pub open spec fn triple_code(v: [u64; 3]) -> Seq<u8> {
    spec_u64_to_le_bytes(v@[0]) + spec_u64_to_le_bytes(v@[1]) + spec_u64_to_le_bytes(v@[2])
}

/// The camera, every field of it: position, orientation, the three
/// directions, field of view, aperture, focus distance and depth of field.
pub open spec fn camera_code(c: Camera) -> Seq<u8> {
    triple_code(c.position) + spec_u64_to_le_bytes(c.orientation@[0]) + spec_u64_to_le_bytes(c.orientation@[1])
        + spec_u64_to_le_bytes(c.orientation@[2]) + spec_u64_to_le_bytes(c.orientation@[3]) + triple_code(
        c.right_direction,
    ) + triple_code(c.up_direction) + triple_code(c.forward_direction) + spec_u64_to_le_bytes(c.fov)
        + spec_u64_to_le_bytes(c.aperture) + spec_u64_to_le_bytes(c.focus_distance) + spec_u64_to_le_bytes(c.dof)
}

/// A flag as a number: 1 for set, 0 for clear.
pub open spec fn flag(b: bool) -> u32 {
    if b {
        1
    } else {
        0
    }
}

/// The scene as bytes, every field of it in the order in which the type
/// lists them: the title, the iterators behind their count, the size of the
/// image, brightness, inverse gamma, gamma threshold, vibrancy, the
/// background colour, the camera, the entropy, the number of warm-up
/// iterations, the stopping level and the pause flag.
pub open spec fn scene_code(s: IFS) -> Seq<u8> {
    text_code(s.title@) + spec_u64_to_le_bytes(s.iterators@.len() as u64) + iterators_code(s.iterators@)
        + spec_u32_to_le_bytes(s.width) + spec_u32_to_le_bytes(s.height) + spec_u64_to_le_bytes(s.brightness)
        + spec_u64_to_le_bytes(s.gamma_inv) + spec_u64_to_le_bytes(s.gamma_thresh) + spec_u64_to_le_bytes(
        s.vibrancy,
    ) + spec_u32_to_le_bytes(s.background_color@[0]) + spec_u32_to_le_bytes(s.background_color@[1])
        + spec_u32_to_le_bytes(s.background_color@[2]) + camera_code(s.camera) + spec_u32_to_le_bytes(s.entropy)
        + spec_u32_to_le_bytes(s.fuse) + spec_u32_to_le_bytes(s.stopping_sl) + spec_u32_to_le_bytes(
        flag(s.pause_rendering),
    )
}

/// The content hash of a scene: what the standard hasher makes of the scene's
/// bytes, written in one piece. Every field of the scene enters it, so that
/// no change of the scene goes unnoticed for want of a changed hash.
pub open spec fn scene_hash(s: IFS) -> u64 {
    DefaultHasher::spec_finish(seq![scene_code(s)])
}

fn put_u32(out: &mut Vec<u8>, x: u32)
    ensures
        final(out)@ == old(out)@ + spec_u32_to_le_bytes(x),
{
    let mut b = u32_to_le_bytes(x);
    out.append(&mut b);
}

fn put_u64(out: &mut Vec<u8>, x: u64)
    ensures
        final(out)@ == old(out)@ + spec_u64_to_le_bytes(x),
{
    let mut b = u64_to_le_bytes(x);
    out.append(&mut b);
}

fn put_text(out: &mut Vec<u8>, s: &String)
    ensures
        final(out)@ == old(out)@ + text_code(s@),
{
    let bytes = s.as_str().as_bytes();
    let mut copy = slice_to_vec(bytes);
    put_u64(out, copy.len() as u64);
    out.append(&mut copy);
    proof {
        assert(final(out)@ =~= old(out)@ + text_code(s@));
    }
}

fn put_reals(out: &mut Vec<u8>, ps: &Vec<RealParam>)
    ensures
        final(out)@ == old(out)@ + reals_code(ps@),
{
    let mut i: usize = 0;
    proof {
        assert(ps@.take(0) =~= Seq::<RealParam>::empty());
        assert(out@ =~= old(out)@ + reals_code(ps@.take(0)));
    }
    while i < ps.len()
        invariant
            i <= ps@.len(),
            out@ == old(out)@ + reals_code(ps@.take(i as int)),
        decreases ps@.len() - i,
    {
        let ghost before = out@;
        put_text(out, &ps[i].name);
        put_u64(out, ps[i].value);
        proof {
            let next = ps@.take(i + 1);
            assert(next.drop_last() == ps@.take(i as int));
            assert(next.last() == ps@[i as int]);
            assert(out@ =~= old(out)@ + reals_code(next));
        }
        i += 1;
    }
    proof {
        assert(ps@.take(ps@.len() as int) == ps@);
    }
}

fn put_vec3s(out: &mut Vec<u8>, ps: &Vec<Vec3Param>)
    ensures
        final(out)@ == old(out)@ + vec3s_code(ps@),
{
    let mut i: usize = 0;
    proof {
        assert(ps@.take(0) =~= Seq::<Vec3Param>::empty());
        assert(out@ =~= old(out)@ + vec3s_code(ps@.take(0)));
    }
    while i < ps.len()
        invariant
            i <= ps@.len(),
            out@ == old(out)@ + vec3s_code(ps@.take(i as int)),
        decreases ps@.len() - i,
    {
        put_text(out, &ps[i].name);
        put_u64(out, ps[i].x);
        put_u64(out, ps[i].y);
        put_u64(out, ps[i].z);
        proof {
            let next = ps@.take(i + 1);
            assert(next.drop_last() == ps@.take(i as int));
            assert(next.last() == ps@[i as int]);
            assert(out@ =~= old(out)@ + vec3s_code(next));
        }
        i += 1;
    }
    proof {
        assert(ps@.take(ps@.len() as int) == ps@);
    }
}

fn put_texts(out: &mut Vec<u8>, ts: &Vec<String>)
    ensures
        final(out)@ == old(out)@ + texts_code(ts@),
{
    let mut i: usize = 0;
    proof {
        assert(ts@.take(0) =~= Seq::<String>::empty());
        assert(out@ =~= old(out)@ + texts_code(ts@.take(0)));
    }
    while i < ts.len()
        invariant
            i <= ts@.len(),
            out@ == old(out)@ + texts_code(ts@.take(i as int)),
        decreases ts@.len() - i,
    {
        put_text(out, &ts[i]);
        proof {
            let next = ts@.take(i + 1);
            assert(next.drop_last() == ts@.take(i as int));
            assert(next.last() == ts@[i as int]);
            assert(out@ =~= old(out)@ + texts_code(next));
        }
        i += 1;
    }
    proof {
        assert(ts@.take(ts@.len() as int) == ts@);
    }
}

fn put_id(out: &mut Vec<u8>, id: i32)
    ensures
        final(out)@ == old(out)@ + spec_u32_to_le_bytes(biased(id)),
{
    let shifted: i64 = id as i64 + 0x8000_0000;
    put_u32(out, shifted as u32);
}

fn put_weights(out: &mut Vec<u8>, ws: &Vec<(i32, u64)>)
    ensures
        final(out)@ == old(out)@ + weights_code(ws@),
{
    let mut i: usize = 0;
    proof {
        assert(ws@.take(0) =~= Seq::<(i32, u64)>::empty());
        assert(out@ =~= old(out)@ + weights_code(ws@.take(0)));
    }
    while i < ws.len()
        invariant
            i <= ws@.len(),
            out@ == old(out)@ + weights_code(ws@.take(i as int)),
        decreases ws@.len() - i,
    {
        let w = ws[i];
        put_id(out, w.0);
        put_u64(out, w.1);
        proof {
            let next = ws@.take(i + 1);
            assert(next.drop_last() == ws@.take(i as int));
            assert(next.last() == ws@[i as int]);
            assert(out@ =~= old(out)@ + weights_code(next));
        }
        i += 1;
    }
    proof {
        assert(ws@.take(ws@.len() as int) == ws@);
    }
}

fn put_transform(out: &mut Vec<u8>, t: &Transform)
    ensures
        final(out)@ == old(out)@ + transform_code(*t),
{
    put_text(out, &t.name);
    put_text(out, &t.version);
    put_text(out, &t.description);
    put_u64(out, t.tags.len() as u64);
    put_texts(out, &t.tags);
    put_text(out, &t.includes);
    put_text(out, &t.reference_url);
    put_text(out, &t.source_code);
    put_u64(out, t.real_params.len() as u64);
    put_reals(out, &t.real_params);
    put_u64(out, t.vec3_params.len() as u64);
    put_vec3s(out, &t.vec3_params);
    proof {
        assert(final(out)@ =~= old(out)@ + transform_code(*t));
    }
}

fn put_iterator_head(out: &mut Vec<u8>, it: &Iterator)
    ensures
        final(out)@ == old(out)@ + iterator_head_code(*it),
{
    put_id(out, it.id);
    put_text(out, &it.name);
    put_transform(out, &it.transform);
    put_u64(out, it.real_params.len() as u64);
    put_reals(out, &it.real_params);
    put_u64(out, it.vec3_params.len() as u64);
    put_vec3s(out, &it.vec3_params);
    proof {
        assert(final(out)@ =~= old(out)@ + iterator_head_code(*it));
    }
}

fn put_iterator_tail(out: &mut Vec<u8>, it: &Iterator)
    ensures
        final(out)@ == old(out)@ + iterator_tail_code(*it),
{
    put_u64(out, it.base_weight);
    put_u64(out, it.color_speed);
    put_u64(out, it.color_index);
    put_u64(out, it.start_weight);
    put_u64(out, it.opacity);
    put_u64(out, it.mix);
    put_u64(out, it.add);
    put_u64(out, it.weight_to.len() as u64);
    put_weights(out, &it.weight_to);
    proof {
        assert(final(out)@ =~= old(out)@ + iterator_tail_code(*it));
    }
}

fn put_iterator(out: &mut Vec<u8>, it: &Iterator)
    ensures
        final(out)@ == old(out)@ + iterator_code(*it),
{
    put_iterator_head(out, it);
    put_iterator_tail(out, it);
    proof {
        assert(final(out)@ =~= old(out)@ + iterator_code(*it));
    }
}

fn put_iterators(out: &mut Vec<u8>, its: &Vec<Iterator>)
    ensures
        final(out)@ == old(out)@ + iterators_code(its@),
{
    let mut i: usize = 0;
    proof {
        assert(its@.take(0) =~= Seq::<Iterator>::empty());
        assert(out@ =~= old(out)@ + iterators_code(its@.take(0)));
    }
    while i < its.len()
        invariant
            i <= its@.len(),
            out@ == old(out)@ + iterators_code(its@.take(i as int)),
        decreases its@.len() - i,
    {
        put_iterator(out, &its[i]);
        proof {
            let next = its@.take(i + 1);
            assert(next.drop_last() == its@.take(i as int));
            assert(next.last() == its@[i as int]);
            assert(out@ =~= old(out)@ + iterators_code(next));
        }
        i += 1;
    }
    proof {
        assert(its@.take(its@.len() as int) == its@);
    }
}

fn put_triple(out: &mut Vec<u8>, v: &[u64; 3])
    ensures
        final(out)@ == old(out)@ + triple_code(*v),
{
    put_u64(out, v[0]);
    put_u64(out, v[1]);
    put_u64(out, v[2]);
    proof {
        assert(final(out)@ =~= old(out)@ + triple_code(*v));
    }
}

fn put_camera(out: &mut Vec<u8>, c: &Camera)
    ensures
        final(out)@ == old(out)@ + camera_code(*c),
{
    put_triple(out, &c.position);
    put_u64(out, c.orientation[0]);
    put_u64(out, c.orientation[1]);
    put_u64(out, c.orientation[2]);
    put_u64(out, c.orientation[3]);
    put_triple(out, &c.right_direction);
    put_triple(out, &c.up_direction);
    put_triple(out, &c.forward_direction);
    put_u64(out, c.fov);
    put_u64(out, c.aperture);
    put_u64(out, c.focus_distance);
    put_u64(out, c.dof);
    proof {
        assert(final(out)@ =~= old(out)@ + camera_code(*c));
    }
}

impl IFS {
    /// The scene as bytes.
    pub fn encode(&self) -> (bytes: Vec<u8>)
        ensures
            bytes@ == scene_code(*self),
    {
        let mut out: Vec<u8> = Vec::new();
        put_text(&mut out, &self.title);
        put_u64(&mut out, self.iterators.len() as u64);
        put_iterators(&mut out, &self.iterators);
        put_u32(&mut out, self.width);
        put_u32(&mut out, self.height);
        put_u64(&mut out, self.brightness);
        put_u64(&mut out, self.gamma_inv);
        put_u64(&mut out, self.gamma_thresh);
        put_u64(&mut out, self.vibrancy);
        put_u32(&mut out, self.background_color[0]);
        put_u32(&mut out, self.background_color[1]);
        put_u32(&mut out, self.background_color[2]);
        put_camera(&mut out, &self.camera);
        put_u32(&mut out, self.entropy);
        put_u32(&mut out, self.fuse);
        put_u32(&mut out, self.stopping_sl);
        let paused: u32 = if self.pause_rendering {
            1
        } else {
            0
        };
        put_u32(&mut out, paused);
        proof {
            assert(out@ =~= scene_code(*self));
        }
        out
    }

    /// The content hash of the scene.
    pub fn get_hash(&self) -> (h: u64)
        ensures
            h == scene_hash(*self),
    {
        let bytes = self.encode();
        let mut s = DefaultHasher::new();
        s.write(bytes.as_slice());
        s.finish()
    }
}

} // verus!
