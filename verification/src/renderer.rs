//! The renderer core: per-frame phase protocol, capacity checking, and
//! production of the frame plan that the GPU shell submits.
//!
//! A frame runs `begin_drawing`, any number of shape draws, then
//! `end_drawing`, which either reports a structured capacity violation
//! or hands back a `FramePlan`: the padded index stream, the vertices
//! with their colors converted once to linear space, and the linear
//! clear color. The plan never exceeds the fixed GPU buffer capacities.

use vstd::prelude::*;

verus! {

use crate::batch::{FrameBatch, Vertex, shifted};
use crate::color::{Color, background, spec_background, linear_rgba_bits, srgb_to_linear_bits};

/// Vertex capacity of the fixed GPU vertex buffer.
pub const MAX_VERTICES: usize = 1024;

/// Index capacity of the fixed GPU index buffer.
pub const MAX_INDICES: usize = 1024;

/// Desired maximum number of in-flight frames for surface configuration.
pub const MAX_FRAME_LATENCY: u32 = 2;

/// Where the renderer stands in the per-frame protocol: between frames,
/// or accumulating a batch.
#[derive(Clone, Copy, Debug, PartialEq, Eq, Structural)]
pub enum Phase {
    Idle,
    Batching,
}

/// The mathematical state of the renderer: surface size, batch contents,
/// and protocol phase.
#[verifier::ext_equal]
pub struct RenderState {
    pub width: u32,
    pub height: u32,
    pub vertices: Seq<Vertex>,
    pub indices: Seq<u16>,
    pub phase: Phase,
}

/// The CPU side of the renderer: the current surface size in pixels and
/// the frame batch under construction.
pub struct Renderer {
    pub width: u32,
    pub height: u32,
    pub batch: FrameBatch,
    pub phase: Phase,
}

/// A structured capacity violation: which buffer overflowed, and by how
/// many entries.
#[derive(Clone, Copy, Debug, PartialEq, Eq, Structural)]
pub enum FrameError {
    VertexOverflow { excess: usize },
    IndexOverflow { excess: usize },
}

/// One vertex in the exact byte layout the GPU consumes, except that
/// scalars are carried as fixed-point coordinates and IEEE-754 bit
/// patterns; the shell reinterprets them at upload.
#[derive(Clone, Copy, Debug, PartialEq, Eq, Structural)]
pub struct GpuVertex {
    pub x: i64,
    pub y: i64,
    pub red_bits: u32,
    pub green_bits: u32,
    pub blue_bits: u32,
    pub alpha_bits: u32,
}

/// The linear-space clear color, as IEEE-754 bit patterns.
#[derive(Clone, Copy, Debug, PartialEq, Eq, Structural)]
pub struct ClearColor {
    pub red_bits: u32,
    pub green_bits: u32,
    pub blue_bits: u32,
    pub alpha_bits: u32,
}

/// Everything one frame submission needs: capacity-checked vertices with
/// linear colors, the padded index stream, and the clear color.
#[derive(Debug)]
pub struct FramePlan {
    pub vertices: Vec<GpuVertex>,
    pub indices: Vec<u16>,
    pub clear: ClearColor,
}

/// A batched vertex after the one conversion of its color to linear
/// space.
pub open spec fn spec_gpu_vertex(v: Vertex) -> GpuVertex {
    let bits = linear_rgba_bits(v.color.red, v.color.green, v.color.blue, v.color.alpha);
    GpuVertex {
        x: v.x,
        y: v.y,
        red_bits: bits.0,
        green_bits: bits.1,
        blue_bits: bits.2,
        alpha_bits: bits.3,
    }
}

/// The clear color every plan carries: the background constant after its
/// conversion to linear space.
pub open spec fn spec_clear_color() -> ClearColor {
    let bg = spec_background();
    let bits = linear_rgba_bits(bg.red, bg.green, bg.blue, bg.alpha);
    ClearColor { red_bits: bits.0, green_bits: bits.1, blue_bits: bits.2, alpha_bits: bits.3 }
}

/// An odd index stream gets one trailing zero index so the buffer can be
/// written in aligned 32-bit chunks; the pad never forms a primitive.
pub open spec fn padded(idx: Seq<u16>) -> Seq<u16> {
    if idx.len() % 2 == 1 {
        idx.push(0u16)
    } else {
        idx
    }
}

/// The state after `begin_drawing`: an empty batch in the batching
/// phase, size untouched.
pub open spec fn begun(s: RenderState) -> RenderState {
    RenderState {
        vertices: Seq::<Vertex>::empty(),
        indices: Seq::<u16>::empty(),
        phase: Phase::Batching,
        ..s
    }
}

/// The state after `end_drawing`: the batch is consumed and the renderer
/// is idle between frames.
pub open spec fn ended(s: RenderState) -> RenderState {
    RenderState {
        vertices: Seq::<Vertex>::empty(),
        indices: Seq::<u16>::empty(),
        phase: Phase::Idle,
        ..s
    }
}

/// The state after appending one primitive, or the same state when the
/// primitive would not fit the 16-bit index space.
pub open spec fn appended(s: RenderState, verts: Seq<Vertex>, rel: Seq<u16>) -> RenderState {
    if s.vertices.len() + verts.len() <= 65535 {
        RenderState {
            vertices: s.vertices + verts,
            indices: s.indices + shifted(rel, s.vertices.len() as int),
            ..s
        }
    } else {
        s
    }
}

impl View for Renderer {
    type V = RenderState;

    open spec fn view(&self) -> RenderState {
        RenderState {
            width: self.width,
            height: self.height,
            vertices: self.batch.vertices@,
            indices: self.batch.indices@,
            phase: self.phase,
        }
    }
}

impl Renderer {
    /// The renderer invariant: a well-formed batch over a surface of at
    /// least one pixel in each direction.
    pub open spec fn wf(self) -> bool {
        &&& self.batch.wf()
        &&& self.width >= 1
        &&& self.height >= 1
    }

    /// A renderer for a surface of the given pixel size, idle with an
    /// empty batch.
    pub fn new(width: u32, height: u32) -> (r: Renderer)
        requires
            width >= 1,
            height >= 1,
        ensures
            r.wf(),
            r@ == (RenderState {
                width,
                height,
                vertices: Seq::<Vertex>::empty(),
                indices: Seq::<u16>::empty(),
                phase: Phase::Idle,
            }),
    {
        Renderer { width, height, batch: FrameBatch::new(), phase: Phase::Idle }
    }

    /// Stores the new surface size. No rendering side effect: the batch
    /// and phase are untouched; the shell reconfigures the surface.
    pub fn resize(&mut self, width: u32, height: u32)
        requires
            old(self).wf(),
            width >= 1,
            height >= 1,
        ensures
            final(self).wf(),
            final(self)@ == (RenderState { width, height, ..old(self)@ }),
    {
        self.width = width;
        self.height = height;
    }

    /// Starts a frame: clears the batch and enters the batching phase.
    /// Calling it again before `end_drawing` clears an empty batch and
    /// changes nothing further.
    pub fn begin_drawing(&mut self)
        requires
            old(self).wf(),
        ensures
            final(self).wf(),
            final(self)@ == begun(old(self)@),
    {
        self.batch.begin();
        self.phase = Phase::Batching;
    }

    /// Ends the frame: reports a capacity violation if the batch exceeds
    /// either fixed GPU buffer (identifying the buffer and the excess),
    /// and otherwise produces the frame plan. Either way the batch is
    /// consumed and the renderer is idle again.
    pub fn end_drawing(&mut self) -> (r: Result<FramePlan, FrameError>)
        requires
            old(self).wf(),
            old(self)@.phase == Phase::Batching,
        ensures
            final(self).wf(),
            final(self)@ == ended(old(self)@),
            old(self)@.vertices.len() > MAX_VERTICES ==> r == Err::<FramePlan, FrameError>(
                FrameError::VertexOverflow {
                    excess: (old(self)@.vertices.len() - MAX_VERTICES) as usize,
                },
            ),
            old(self)@.vertices.len() <= MAX_VERTICES && padded(old(self)@.indices).len()
                > MAX_INDICES ==> r == Err::<FramePlan, FrameError>(
                FrameError::IndexOverflow {
                    excess: (padded(old(self)@.indices).len() - MAX_INDICES) as usize,
                },
            ),
            old(self)@.vertices.len() <= MAX_VERTICES && padded(old(self)@.indices).len()
                <= MAX_INDICES ==> {
                &&& r is Ok
                &&& r->Ok_0.vertices@ == old(self)@.vertices.map_values(
                    |v: Vertex| spec_gpu_vertex(v),
                )
                &&& r->Ok_0.indices@ == padded(old(self)@.indices)
                &&& r->Ok_0.clear == spec_clear_color()
            },
    {
        let vcount = self.batch.vertices.len();
        if vcount > MAX_VERTICES {
            let excess = vcount - MAX_VERTICES;
            self.batch.begin();
            self.phase = Phase::Idle;
            return Err(FrameError::VertexOverflow { excess });
        }
        let icount = self.batch.indices.len();
        let mut indices: Vec<u16> = Vec::new();
        let mut i: usize = 0;
        while i < icount
            invariant
                i <= icount,
                icount == self.batch.indices@.len(),
                indices@ == self.batch.indices@.subrange(0, i as int),
                *self == *old(self),
            decreases icount - i,
        {
            indices.push(self.batch.indices[i]);
            proof {
                assert(indices@ == self.batch.indices@.subrange(0, i + 1));
            }
            i = i + 1;
        }
        proof {
            assert(self.batch.indices@.subrange(0, icount as int) == self.batch.indices@);
        }
        if indices.len() % 2 == 1 {
            indices.push(0);
        }
        proof {
            assert(indices@ == padded(old(self)@.indices));
        }
        if indices.len() > MAX_INDICES {
            let excess = indices.len() - MAX_INDICES;
            self.batch.begin();
            self.phase = Phase::Idle;
            return Err(FrameError::IndexOverflow { excess });
        }
        let mut gpu: Vec<GpuVertex> = Vec::new();
        let mut j: usize = 0;
        while j < vcount
            invariant
                j <= vcount,
                vcount == self.batch.vertices@.len(),
                gpu@ == self.batch.vertices@.subrange(0, j as int).map_values(
                    |v: Vertex| spec_gpu_vertex(v),
                ),
                *self == *old(self),
            decreases vcount - j,
        {
            let v = self.batch.vertices[j];
            let bits = srgb_to_linear_bits(v.color.red, v.color.green, v.color.blue, v.color.alpha);
            gpu.push(
                GpuVertex {
                    x: v.x,
                    y: v.y,
                    red_bits: bits.0,
                    green_bits: bits.1,
                    blue_bits: bits.2,
                    alpha_bits: bits.3,
                },
            );
            proof {
                assert(self.batch.vertices@.subrange(0, j + 1).map_values(
                    |v: Vertex| spec_gpu_vertex(v),
                ) =~= self.batch.vertices@.subrange(0, j as int).map_values(
                    |v: Vertex| spec_gpu_vertex(v),
                ).push(spec_gpu_vertex(self.batch.vertices@[j as int])));
            }
            j = j + 1;
        }
        proof {
            assert(self.batch.vertices@.subrange(0, vcount as int) == self.batch.vertices@);
        }
        let bg = background();
        let cbits = srgb_to_linear_bits(bg.red, bg.green, bg.blue, bg.alpha);
        let clear = ClearColor {
            red_bits: cbits.0,
            green_bits: cbits.1,
            blue_bits: cbits.2,
            alpha_bits: cbits.3,
        };
        self.batch.begin();
        self.phase = Phase::Idle;
        Ok(FramePlan { vertices: gpu, indices, clear })
    }
}

/// Beginning a frame twice in a row is the same as beginning it once:
/// the clear is idempotent.
pub proof fn lemma_begin_idempotent(s: RenderState)
    ensures
        begun(begun(s)) == begun(s),
{
}

} // verus!
