//! The device-command vocabulary.
//!
//! The library never talks to a graphics device directly.  Every operation
//! that would touch the device is represented as a [`GlCommand`] value, and
//! each operation of the draw protocol returns the exact, ordered command
//! sequence it issues.  The unverified host executes the stream: it owns
//! the device handles, the floating-point matrix math, and the texture
//! memory, and it resolves the opaque handles and bit-pattern payloads
//! carried here.
//!
//! Scalar, vector, color, and matrix payloads are `f32` values carried as
//! `u32` bit patterns (`f32::to_bits`), since this crate never does
//! floating-point arithmetic itself.

use vstd::prelude::*;

verus! {

/// Primitive topology for a draw call.
#[derive(Clone, Copy, PartialEq, Eq, Structural, Debug)]
pub enum DrawMode {
    Points,
    Lines,
    Triangles,
}

/// How polygons are rasterized.  The device default is `Fill`.
#[derive(Clone, Copy, PartialEq, Eq, Structural, Debug)]
pub enum PolygonMode {
    Point,
    Line,
    Fill,
}

/// Which faces are culled when face culling is enabled.
#[derive(Clone, Copy, PartialEq, Eq, Structural, Debug)]
pub enum Face {
    Front,
    Back,
    FrontAndBack,
}

/// Which winding order marks a front face.  The device default is
/// counter-clockwise.
#[derive(Clone, Copy, PartialEq, Eq, Structural, Debug)]
pub enum WindingOrder {
    Clockwise,
    CounterClockwise,
}

/// Depth-test comparison function.
#[derive(Clone, Copy, PartialEq, Eq, Structural, Debug)]
pub enum Comparison {
    Never,
    Less,
    Equal,
    LessThanOrEqual,
    Greater,
    NotEqual,
    GreaterThanOrEqual,
    Always,
}

/// Blend factor applied to the source color.  The device default is `One`.
#[derive(Clone, Copy, PartialEq, Eq, Structural, Debug)]
pub enum SourceFactor {
    Zero,
    One,
    SourceAlpha,
    OneMinusSourceAlpha,
}

/// Blend factor applied to the destination color.  The device default is
/// `Zero`.
#[derive(Clone, Copy, PartialEq, Eq, Structural, Debug)]
pub enum DestFactor {
    Zero,
    One,
    SourceAlpha,
    OneMinusSourceAlpha,
}

/// A texture referenced by a draw: either one registered with the renderer
/// or the shared default texture used when a material's texture property has
/// no registered device texture.
#[derive(Clone, Copy, PartialEq, Eq, Structural, Debug)]
pub enum TextureBinding {
    Registered(u64),
    DefaultEmpty,
}

/// The payload of a matrix uniform.
///
/// The raw variants carry a complete 3x3 or 4x4 matrix as f32 bit patterns
/// in row-major order; only these two sizes exist, so the unsupported-size
/// failure of a raw-pointer device interface cannot arise here.  The other
/// variants name matrices that live host-side behind opaque `u64` handles:
/// the host, which owns the floating-point math, resolves the handles and
/// computes the products when it executes the command.
#[derive(Clone, Copy, PartialEq, Eq, Debug)]
pub enum MatrixData {
    Raw3([u32; 9]),
    Raw4([u32; 16]),
    /// The matrix behind one handle.
    Handle(u64),
    /// The product `a * b`.
    Product2(u64, u64),
    /// The product `a * b * c`.
    Product3(u64, u64, u64),
    /// `transpose(transpose(normal) * inverse_view)`: the view-space normal
    /// transform built from a normal matrix and an inverse view matrix.
    ViewNormal { normal: u64, inverse_view: u64 },
}

/// A matrix uniform value: the data plus the row-major flag handed to the
/// device when the uniform is applied.
#[derive(Clone, Copy, PartialEq, Eq, Debug)]
pub struct GlMatrix {
    pub data: MatrixData,
    pub transpose: bool,
}

/// A value staged for a uniform slot.  Scalar and vector variants carry f32
/// bit patterns.
#[derive(Clone, Copy, PartialEq, Eq, Debug)]
pub enum UniformValue {
    F32(u32),
    F32x2(u32, u32),
    F32x3(u32, u32, u32),
    F32x4(u32, u32, u32, u32),
    I32(i32),
    U32(u32),
    Matrix(GlMatrix),
    Texture(TextureBinding),
    /// A four-component vector (f32 bit patterns) that the host multiplies
    /// by the matrix behind `matrix` before upload.
    F32x4TimesMatrix { x: u32, y: u32, z: u32, w: u32, matrix: u64 },
    /// A three-component vector (f32 bit patterns) that the host multiplies
    /// by the matrix behind `matrix` before upload.
    F32x3TimesMatrix { x: u32, y: u32, z: u32, matrix: u64 },
}

/// One device call.  A frame is a sequence of these, executed in order.
#[derive(Clone, Copy, PartialEq, Eq, Debug)]
pub enum GlCommand {
    /// Clear the color and depth buffers.
    Clear,
    /// Present the frame.
    SwapBuffers,
    SetPolygonMode(PolygonMode),
    /// Make the program with this id current; `None` unbinds any program.
    UseProgram(Option<u64>),
    EnableCull(bool),
    SetCullFace(Face),
    SetWindingOrder(WindingOrder),
    EnableDepthTest(bool),
    SetDepthFunction(Comparison),
    SetBlend(SourceFactor, DestFactor),
    /// Make the vertex array with this id current.
    BindVertexArray(u64),
    EnableVertexAttribArray(u32),
    /// Describe one attribute of the bound vertex buffer: float data,
    /// `elements` components per vertex, `stride` and `offset` counted in
    /// f32 elements (the host converts to bytes).
    VertexAttribPointer { location: u32, elements: usize, stride: usize, offset: usize },
    SetActiveTexture(u32),
    BindTexture(TextureBinding),
    SetUniform { location: u32, value: UniformValue },
    /// Indexed draw over the bound vertex array, with unsigned 32-bit
    /// indices.
    DrawElements { mode: DrawMode, count: usize },
    /// Non-indexed draw over the bound vertex array.
    DrawArrays { mode: DrawMode, count: usize },
}

/// Whether a command rasterizes anything (an indexed or non-indexed draw).
pub open spec fn is_draw_call(c: GlCommand) -> bool {
    c is DrawElements || c is DrawArrays
}

/// How many draw calls a command stream issues.
pub open spec fn count_draws(cmds: Seq<GlCommand>) -> int
    decreases cmds.len(),
{
    if cmds.len() == 0 {
        0
    } else {
        count_draws(cmds.drop_last()) + if is_draw_call(cmds.last()) {
            1int
        } else {
            0int
        }
    }
}

/// Draw calls add up over concatenation.
pub proof fn lemma_count_draws_concat(a: Seq<GlCommand>, b: Seq<GlCommand>)
    ensures
        count_draws(a + b) == count_draws(a) + count_draws(b),
    decreases b.len(),
{
    if b.len() == 0 {
        assert(a + b =~= a);
    } else {
        lemma_count_draws_concat(a, b.drop_last());
        assert((a + b).drop_last() =~= a + b.drop_last());
        assert((a + b).last() == b.last());
    }
}

/// A stream without draw commands issues no draw calls.
pub proof fn lemma_count_draws_zero(cmds: Seq<GlCommand>)
    requires
        forall|i: int| 0 <= i < cmds.len() ==> !is_draw_call(#[trigger] cmds[i]),
    ensures
        count_draws(cmds) == 0,
    decreases cmds.len(),
{
    if cmds.len() > 0 {
        assert(forall|i: int|
            0 <= i < cmds.drop_last().len() ==> #[trigger] cmds.drop_last()[i] == cmds[i]);
        lemma_count_draws_zero(cmds.drop_last());
        assert(!is_draw_call(cmds.last()));
    }
}

} // verus!
