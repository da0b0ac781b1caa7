//! The device resources of the renderer as the library sees them: which
//! buffers exist, how large they are, where they are bound, and what has to
//! be done to them when the scene changes.
//!
//! The library decides; the device work itself is done by the caller, which
//! carries out the commands it is handed in the order in which they stand.

use vstd::prelude::*;

verus! {

/// The width of the image that the renderer starts with.
pub const HISTOGRAM_WIDTH: usize = 1920;

/// The height of the image that the renderer starts with.
pub const HISTOGRAM_HEIGHT: usize = 1080;

/// The number of invocations in one dispatch of the compute kernel.
pub const WORKGROUP_SIZE: usize = 256;

/// The number of entries of the iterator table.
pub const MAX_ITERATORS: usize = 100;

/// The number of entries of each parameter table.
pub const MAX_PARAMS: usize = 2 * MAX_ITERATORS;

/// The number of entries of the palette.
pub const MAX_PALETTE_COLORS: usize = 256;

/// The number of entries of the transition table.
pub const MAX_XAOS: usize = MAX_ITERATORS * MAX_ITERATORS;

/// The size of one pixel of the histogram: four single-precision numbers.
pub const PIXEL_BYTES: u64 = 16;

/// The size of one entry of the iterator table.
pub const ITERATOR_ENTRY_BYTES: u64 = 48;

/// The size of one entry of a parameter table, of the alias table and of the
/// palette.
pub const TABLE_ENTRY_BYTES: u64 = 16;

/// The size of the settings block.
pub const SETTINGS_BYTES: u64 = 176;

/// The size of the per-dispatch parameters.
pub const PARAMETERS_BYTES: u64 = 32;

/// The size of the state of one invocation: eight single-precision numbers.
pub const INVOCATION_STATE_BYTES: u64 = 32;

/// The size of a single flag or counter.
pub const WORD_BYTES: u64 = 4;

/// The seed that every dispatch is started with.
pub const DISPATCH_SEED: u32 = 699912576;

/// The number of iterations that one invocation runs in one dispatch.
pub const INVOCATION_ITERS: i32 = 512;

/// The buffers of the compute kernel.
#[derive(Clone, Copy, Debug, PartialEq, Eq, Structural)]
pub enum BufferKind {
    Histogram,
    State,
    Settings,
    Iterators,
    AliasTables,
    Palette,
    RealParams,
    Vec3Params,
    Parameters,
    NextSample,
    Done,
}

/// The binding of each buffer in the kernel's bind group.
pub open spec fn binding_of(k: BufferKind) -> u32 {
    match k {
        BufferKind::Histogram => 0,
        BufferKind::State => 1,
        BufferKind::Settings => 2,
        BufferKind::Iterators => 3,
        BufferKind::AliasTables => 4,
        BufferKind::Palette => 5,
        BufferKind::RealParams => 6,
        BufferKind::Vec3Params => 7,
        BufferKind::Parameters => 8,
        BufferKind::NextSample => 9,
        BufferKind::Done => 10,
    }
}

/// The buffers in the order of their bindings.
pub open spec fn all_buffers() -> Seq<BufferKind> {
    seq![
        BufferKind::Histogram,
        BufferKind::State,
        BufferKind::Settings,
        BufferKind::Iterators,
        BufferKind::AliasTables,
        BufferKind::Palette,
        BufferKind::RealParams,
        BufferKind::Vec3Params,
        BufferKind::Parameters,
        BufferKind::NextSample,
        BufferKind::Done,
    ]
}

/// The size in bytes of each buffer for an image of the given size. The
/// histogram holds one pixel per point of the image; every other buffer has
/// a fixed size.
pub open spec fn buffer_size(k: BufferKind, width: u32, height: u32) -> int {
    match k {
        BufferKind::Histogram => width * height * PIXEL_BYTES,
        BufferKind::State => INVOCATION_STATE_BYTES * WORKGROUP_SIZE,
        BufferKind::Settings => SETTINGS_BYTES as int,
        BufferKind::Iterators => MAX_ITERATORS * ITERATOR_ENTRY_BYTES,
        BufferKind::AliasTables => MAX_ITERATORS * TABLE_ENTRY_BYTES,
        BufferKind::Palette => MAX_PALETTE_COLORS * TABLE_ENTRY_BYTES,
        BufferKind::RealParams => MAX_PARAMS * TABLE_ENTRY_BYTES,
        BufferKind::Vec3Params => MAX_PARAMS * TABLE_ENTRY_BYTES,
        BufferKind::Parameters => PARAMETERS_BYTES as int,
        BufferKind::NextSample => WORD_BYTES as int,
        BufferKind::Done => WORD_BYTES as int,
    }
}

impl BufferKind {
    /// The binding of the buffer in the kernel's bind group.
    pub fn binding(self) -> (b: u32)
        ensures
            b == binding_of(self),
            b < 11,
    {
        match self {
            BufferKind::Histogram => 0,
            BufferKind::State => 1,
            BufferKind::Settings => 2,
            BufferKind::Iterators => 3,
            BufferKind::AliasTables => 4,
            BufferKind::Palette => 5,
            BufferKind::RealParams => 6,
            BufferKind::Vec3Params => 7,
            BufferKind::Parameters => 8,
            BufferKind::NextSample => 9,
            BufferKind::Done => 10,
        }
    }

    /// The size in bytes of the buffer for an image of the given size; `None`
    /// where the size does not fit in 64 bits.
    pub fn bytes(self, width: u32, height: u32) -> (n: Option<u64>)
        ensures
            n.is_some() == (buffer_size(self, width, height) <= u64::MAX),
            n.is_some() ==> n.unwrap() == buffer_size(self, width, height),
    {
        match self {
            BufferKind::Histogram => histogram_bytes(width, height),
            BufferKind::State => Some(8192),
            BufferKind::Settings => Some(SETTINGS_BYTES),
            BufferKind::Iterators => Some(4800),
            BufferKind::AliasTables => Some(1600),
            BufferKind::Palette => Some(4096),
            BufferKind::RealParams => Some(3200),
            BufferKind::Vec3Params => Some(3200),
            BufferKind::Parameters => Some(PARAMETERS_BYTES),
            BufferKind::NextSample => Some(WORD_BYTES),
            BufferKind::Done => Some(WORD_BYTES),
        }
    }
}

/// The entries of the kernel's bind group: every buffer, at the position of
/// its binding.
pub fn bind_group_entries() -> (entries: Vec<BufferKind>)
    ensures
        entries@ == all_buffers(),
        forall|i: int| 0 <= i < entries@.len() ==> binding_of(#[trigger] entries@[i]) == i,
{
    let entries = vec![
        BufferKind::Histogram,
        BufferKind::State,
        BufferKind::Settings,
        BufferKind::Iterators,
        BufferKind::AliasTables,
        BufferKind::Palette,
        BufferKind::RealParams,
        BufferKind::Vec3Params,
        BufferKind::Parameters,
        BufferKind::NextSample,
        BufferKind::Done,
    ];
    assert(entries@ =~= all_buffers());
    entries
}

/// The size in bytes of the histogram of an image: one pixel of sixteen bytes
/// per point. `None` where that does not fit in 64 bits.
pub fn histogram_bytes(width: u32, height: u32) -> (n: Option<u64>)
    ensures
        n.is_some() == (width * height * PIXEL_BYTES <= u64::MAX),
        n.is_some() ==> n.unwrap() == width * height * PIXEL_BYTES,
{
    assert(width * height <= 0xffff_ffff * 0xffff_ffff) by (nonlinear_arith)
        requires
            0 <= width <= 0xffff_ffff,
            0 <= height <= 0xffff_ffff,
    ;
    let points: u64 = width as u64 * height as u64;
    if points > u64::MAX / PIXEL_BYTES {
        None
    } else {
        Some(points * PIXEL_BYTES)
    }
}

} // verus!
