//! The drawing commands a frame is made of, and the fixed geometry.
//!
//! The renderer never talks to the graphics driver itself: it emits a
//! list of [`GlCommand`] values, and the host performs them in order.
//! Colour channels are carried in thousandths of full intensity and
//! time in whole milliseconds, so the commands stay exact integer data;
//! the host divides by 1000 when it issues the real calls.

use vstd::prelude::*;

verus! {

/// One graphics call of a frame, as plain data.
///
/// A `present: false` uniform write stands for a write to an absent
/// binding: the host still issues it, and the driver ignores it, so it
/// is a documented no-op rather than an error.
#[derive(Clone, Copy, PartialEq, Eq, Structural, Debug)]
pub enum GlCommand {
    /// Set the clear colour; channels are in thousandths (1000 = full).
    ClearColor { red_milli: u16, green_milli: u16, blue_milli: u16, alpha_milli: u16 },
    /// Clear the colour buffer to the clear colour.
    Clear,
    /// Write the surface's pixel size into the `iResolution` uniform.
    WriteResolution { present: bool, width: u32, height: u32 },
    /// Write the elapsed time into the `iTime` uniform, in milliseconds.
    WriteTime { present: bool, millis: u64 },
    /// Write a mouse position, in pixels, into the `iMouse` uniform.
    WriteMouse { present: bool, x: u32, y: u32 },
    /// Draw `vertex_count` vertices as triangles, starting at `first_vertex`.
    DrawTriangles { first_vertex: u32, vertex_count: u32 },
}

/// How many vertices the full-screen quad has: two triangles.
pub const QUAD_VERTEX_COUNT: u32 = 6;

/// The full-screen quad in normalized device coordinates, three
/// components per vertex, covering the whole drawable area.
pub open spec fn spec_quad_vertices() -> Seq<i8> {
    seq![-1i8, -1i8, 0i8, 1i8, -1i8, 0i8, -1i8, 1i8, 0i8, -1i8, 1i8, 0i8, 1i8, 1i8, 0i8, 1i8, -1i8, 0i8]
}

/// The quad data the host uploads into the vertex buffer on every
/// program install, one byte per component.
pub fn quad_vertices() -> (r: Vec<i8>)
    ensures
        r@ == spec_quad_vertices(),
{
    let r: Vec<i8> = vec![-1, -1, 0, 1, -1, 0, -1, 1, 0, -1, 1, 0, 1, 1, 0, 1, -1, 0];
    proof {
        assert(r@ =~= spec_quad_vertices());
    }
    r
}

/// How the host must upload the quad and bind it to the `position`
/// attribute: the data never changes after the one upload (the
/// driver's static usage), and each vertex is read as three
/// components, unnormalized, tightly packed from the buffer's start.
/// The components are handed to the driver as 32-bit floats, one per
/// byte of [`quad_vertices`].
#[derive(Clone, Copy, PartialEq, Eq, Structural, Debug)]
pub struct QuadLayout {
    /// The upload never changes afterwards: static usage, not streaming.
    pub static_upload: bool,
    /// Components of the `position` attribute per vertex.
    pub components_per_vertex: u32,
    /// Whether the driver is to normalize the components.
    pub normalized: bool,
    /// Bytes between consecutive vertices; zero means tightly packed.
    pub stride_bytes: u32,
    /// Byte offset of the first component in the buffer.
    pub offset_bytes: u32,
}

pub open spec fn spec_quad_layout() -> QuadLayout {
    QuadLayout {
        static_upload: true,
        components_per_vertex: 3,
        normalized: false,
        stride_bytes: 0,
        offset_bytes: 0,
    }
}

pub fn quad_layout() -> (r: QuadLayout)
    ensures
        r == spec_quad_layout(),
{
    QuadLayout {
        static_upload: true,
        components_per_vertex: 3,
        normalized: false,
        stride_bytes: 0,
        offset_bytes: 0,
    }
}

/// The quad's vertex count is exactly its component count divided by
/// the components each vertex binds: the draw call covers the
/// uploaded data, nothing less or more.
pub proof fn lemma_quad_vertex_count()
    ensures
        spec_quad_vertices().len() == 3 * QUAD_VERTEX_COUNT,
        spec_quad_vertices().len() == spec_quad_layout().components_per_vertex * QUAD_VERTEX_COUNT,
{
}

} // verus!
