//! The per-frame scratch batch: vertices, their drawing indices, and the
//! running vertex-index cursor.
//!
//! The batch invariant is the heart of the renderer's safety argument:
//! the cursor always equals the vertex count, the index count is a
//! multiple of three (whole triangles only), and every stored index
//! refers to a vertex already in the batch.

use vstd::prelude::*;

verus! {

use crate::color::Color;

/// One batched vertex: a position in normalized device coordinates
/// (16.16 fixed point) and the sRGB color it was authored with.
#[derive(Clone, Copy, Debug, PartialEq, Eq, Structural)]
pub struct Vertex {
    pub x: i64,
    pub y: i64,
    pub color: Color,
}

/// The index stream a primitive contributes, shifted up to the batch
/// position its vertices were appended at.
pub open spec fn shifted(rel: Seq<u16>, base: int) -> Seq<u16> {
    Seq::new(rel.len(), |i: int| (rel[i] + base) as u16)
}

/// The ordered per-frame scratch buffers, reset at `begin`, consumed at
/// the end of the frame.
pub struct FrameBatch {
    pub vertices: Vec<Vertex>,
    pub indices: Vec<u16>,
    pub cursor: u16,
}

impl FrameBatch {
    /// The batch invariant: the cursor is the next free vertex index,
    /// indices come in whole triangles, and each refers to a vertex
    /// already appended this frame.
    pub open spec fn wf(self) -> bool {
        &&& self.cursor as int == self.vertices@.len()
        &&& self.indices@.len() % 3 == 0
        &&& forall|i: int|
            0 <= i < self.indices@.len() ==> (self.indices@[i] as int) < self.vertices@.len()
    }

    /// Whether one more primitive of `n` vertices still fits the 16-bit
    /// index space.
    pub open spec fn fits(self, n: int) -> bool {
        self.vertices@.len() + n <= 65535
    }

    /// An empty batch.
    pub fn new() -> (b: FrameBatch)
        ensures
            b.wf(),
            b.vertices@ == Seq::<Vertex>::empty(),
            b.indices@ == Seq::<u16>::empty(),
    {
        FrameBatch { vertices: Vec::new(), indices: Vec::new(), cursor: 0 }
    }

    /// Clears both buffers and resets the cursor; the start of a frame.
    pub fn begin(&mut self)
        ensures
            final(self).wf(),
            final(self).vertices@ == Seq::<Vertex>::empty(),
            final(self).indices@ == Seq::<u16>::empty(),
    {
        self.vertices.clear();
        self.indices.clear();
        self.cursor = 0;
    }

    /// Appends one primitive: its vertices, and its index stream given
    /// relative to the primitive's own first vertex. When the primitive
    /// would push the vertex count past the 16-bit index space, the
    /// batch is left untouched.
    pub fn append(&mut self, verts: &Vec<Vertex>, rel: &Vec<u16>)
        requires
            old(self).wf(),
            rel@.len() % 3 == 0,
            forall|i: int| 0 <= i < rel@.len() ==> (rel@[i] as int) < verts@.len(),
            verts@.len() <= 65535,
        ensures
            final(self).wf(),
            old(self).fits(verts@.len() as int) ==> {
                &&& final(self).vertices@ == old(self).vertices@ + verts@
                &&& final(self).indices@ == old(self).indices@ + shifted(
                    rel@,
                    old(self).vertices@.len() as int,
                )
            },
            !old(self).fits(verts@.len() as int) ==> *final(self) == *old(self),
    {
        let n = verts.len();
        if self.vertices.len() > 65535 - n {
            return ;
        }
        let base = self.cursor;
        let ghost old_verts = self.vertices@;
        let ghost old_idx = self.indices@;
        let mut i: usize = 0;
        while i < n
            invariant
                i <= n,
                n == verts@.len(),
                self.vertices@ == old_verts + verts@.subrange(0, i as int),
                self.indices@ == old_idx,
                self.cursor == base,
            decreases n - i,
        {
            self.vertices.push(verts[i]);
            proof {
                assert(self.vertices@ == old_verts + verts@.subrange(0, i + 1));
            }
            i = i + 1;
        }
        proof {
            assert(verts@.subrange(0, n as int) == verts@);
        }
        let m = rel.len();
        let mut j: usize = 0;
        while j < m
            invariant
                j <= m,
                m == rel@.len(),
                base as int == old_verts.len(),
                base as int + n as int <= 65535,
                n == verts@.len(),
                forall|k: int| 0 <= k < rel@.len() ==> (rel@[k] as int) < n as int,
                self.vertices@ == old_verts + verts@,
                self.indices@ == old_idx + shifted(rel@, base as int).subrange(0, j as int),
                self.cursor == base,
            decreases m - j,
        {
            let v = rel[j] + base;
            self.indices.push(v);
            proof {
                assert(shifted(rel@, base as int)[j as int] == v);
                assert(self.indices@ == old_idx + shifted(rel@, base as int).subrange(
                    0,
                    j + 1,
                ));
            }
            j = j + 1;
        }
        proof {
            assert(shifted(rel@, base as int).subrange(0, m as int) == shifted(
                rel@,
                base as int,
            ));
        }
        self.cursor = base + n as u16;
    }
}

} // verus!
