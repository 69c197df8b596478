//! Vertex adapter: the UI library's per-vertex record converted to the
//! GPU-native vertex layout.
//!
//! Both records hold a screen position, a texture coordinate and a packed
//! 32-bit RGBA colour. The two coordinate fields are single-precision values
//! and are carried here as raw bit patterns (see [`crate::bits`]); the
//! adapter is a pure field-by-field copy, with no reordering, renormalisation
//! or colour conversion.

use vstd::prelude::*;

verus! {

/// A vertex as the UI library produces it: position and texture coordinate
/// as single-precision bit patterns, colour as packed 32-bit RGBA.
#[derive(Clone, Copy, Debug, PartialEq)]
pub struct DrawVert {
    pub pos: [u32; 2],
    pub uv: [u32; 2],
    pub col: u32,
}

/// A vertex in the layout the graphics pipeline consumes. Field order and
/// types match [`DrawVert`] exactly; that equality of layout is the
/// compatibility contract of the adapter.
#[derive(Clone, Copy, Debug, PartialEq)]
pub struct Vertex {
    pub pos: [u32; 2],
    pub uv: [u32; 2],
    pub col: u32,
}

/// The adapted form of one UI vertex: the same position, texture
/// coordinate and colour, in the GPU layout.
pub open spec fn adapted(v: DrawVert) -> Vertex {
    Vertex { pos: v.pos, uv: v.uv, col: v.col }
}

impl From<DrawVert> for Vertex {
    /// Adapts a UI vertex to the GPU layout: position, texture coordinate
    /// and colour are each carried over bit-for-bit.
    fn from(v: DrawVert) -> (r: Vertex)
        ensures
            r == adapted(v),
            r.pos == v.pos,
            r.uv == v.uv,
            r.col == v.col,
    {
        Vertex { pos: v.pos, uv: v.uv, col: v.col }
    }
}

impl vstd::std_specs::convert::FromSpecImpl<DrawVert> for Vertex {
    open spec fn obeys_from_spec() -> bool {
        true
    }

    open spec fn from_spec(v: DrawVert) -> Vertex {
        adapted(v)
    }
}

/// Adapts a whole vertex buffer: the result holds, in order, the adapted
/// form of each source vertex. This is what a host uploads as a draw
/// list's vertex buffer.
pub fn adapt_vertices(src: &Vec<DrawVert>) -> (r: Vec<Vertex>)
    ensures
        r@.len() == src@.len(),
        forall|i: int| 0 <= i < src@.len() ==> #[trigger] r@[i] == adapted(src@[i]),
{
    let mut r: Vec<Vertex> = Vec::new();
    let mut i: usize = 0;
    while i < src.len()
        invariant
            i <= src@.len(),
            r@.len() == i,
            forall|j: int| 0 <= j < i ==> #[trigger] r@[j] == adapted(src@[j]),
        decreases src@.len() - i,
    {
        r.push(Vertex::from(src[i]));
        i = i + 1;
    }
    r
}

} // verus!
