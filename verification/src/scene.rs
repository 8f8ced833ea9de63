//! The scene data the renderer reads each frame.
//!
//! Scene-graph bookkeeping itself is an external collaborator; these types
//! hold exactly what the frame loop consumes: transforms as opaque
//! host-side matrix handles, positions and colors as f32 bit patterns, and
//! mesh/texture payloads as plain arrays.

use vstd::prelude::*;

use crate::material::{Color, Material, Vector3};

verus! {

/// A point in homogeneous coordinates, each component an f32 bit pattern.
#[derive(Clone, Copy, PartialEq, Eq, Structural, Debug)]
pub struct Point {
    pub x: u32,
    pub y: u32,
    pub z: u32,
    pub w: u32,
}

/// A scene node holding a world transform.  The renderer reads the
/// transforms as opaque host-side matrix handles and the position as bit
/// patterns; the host computes the matrices themselves.
#[derive(Clone, Copy, PartialEq, Eq, Structural, Debug)]
pub struct Anchor {
    /// Handle of the model (world) transform.
    pub transform: u64,
    /// Handle of the 3x3 normal transform (inverse-transpose convention).
    pub normal_transform: u64,
    /// Handle of the view transform this anchor defines when it carries a
    /// camera.
    pub view_transform: u64,
    /// Handle of the inverse of the view transform.
    pub inverse_view_transform: u64,
    /// The anchor's world position.
    pub position: Point,
}

/// A camera: the anchor it looks through and its projection transform.
#[derive(Clone, Copy, PartialEq, Eq, Structural, Debug)]
pub struct Camera {
    pub anchor: Option<u64>,
    /// Handle of the projection transform.
    pub projection_transform: u64,
}

/// What kind of light a light is, with its type-specific fields as f32 bit
/// patterns.
#[derive(Clone, Copy, PartialEq, Eq, Structural, Debug)]
pub enum LightData {
    Point { radius: u32 },
    Directional { direction: Vector3 },
}

/// A light source.  A point light must be attached to an anchor to render.
#[derive(Clone, Copy, PartialEq, Eq, Structural, Debug)]
pub struct Light {
    pub anchor: Option<u64>,
    pub color: Color,
    /// Light strength as an f32 bit pattern.
    pub strength: u32,
    pub data: LightData,
}

/// One renderable object: a mesh, the material to draw it with, and the
/// anchor giving its transform.  An instance without an anchor is skipped
/// when drawing, not an error.
pub struct MeshInstance {
    pub mesh: u64,
    pub anchor: Option<u64>,
    pub material: Material,
}

impl MeshInstance {
    /// An instance of `mesh` drawn with `material`, not yet anchored.
    pub fn new(mesh: u64, material: Material) -> (r: MeshInstance)
        ensures
            r.mesh == mesh,
            r.anchor is None,
            r.material == material,
    {
        MeshInstance { mesh, anchor: None, material }
    }
}

/// How one named attribute is packed in a mesh's interleaved vertex data,
/// in f32 elements.
#[derive(Clone, Copy, PartialEq, Eq, Structural, Debug)]
pub struct VertexAttribute {
    pub elements: usize,
    pub stride: usize,
    pub offset: usize,
}

/// Raw mesh data as the mesh-loading collaborator hands it over:
/// interleaved f32 vertex data (as bit patterns) with per-attribute layout
/// descriptors, and a u32 index array.  Position is mandatory; normal and
/// texture coordinate sets are optional (only the first texture coordinate
/// set is used).
pub struct Mesh {
    pub vertex_data: Vec<u32>,
    pub position: VertexAttribute,
    pub normal: Option<VertexAttribute>,
    pub texcoord: Vec<VertexAttribute>,
    pub indices: Vec<u32>,
}

/// The pixel layout of client-side texture data.
#[derive(Clone, Copy, PartialEq, Eq, Structural, Debug)]
pub enum DataFormat {
    Rgb,
    Rgba,
    Bgr,
    Bgra,
}

/// The device-side layout a texture is uploaded with.
#[derive(Clone, Copy, PartialEq, Eq, Structural, Debug)]
pub enum TextureFormat {
    Rgb,
    Rgba,
    Bgr,
    Bgra,
}

/// The device-side internal storage format of a texture.
#[derive(Clone, Copy, PartialEq, Eq, Structural, Debug)]
pub enum TextureInternalFormat {
    Rgb,
    Rgba,
}

/// Client-side texel data in one of the supported element types; f32
/// texels travel as bit patterns.
pub enum TextureData {
    Floats(Vec<u32>),
    Bytes(Vec<u8>),
    BytesRgb(Vec<u8>),
    BytesRgba(Vec<u8>),
}

/// A client-side texture as handed to `register_texture`.
pub struct Texture2d {
    pub format: DataFormat,
    pub width: usize,
    pub height: usize,
    pub data: TextureData,
}

/// A texture as registered with the device: the resolved upload formats
/// plus the texel payload.
pub struct GpuTexture {
    pub format: TextureFormat,
    pub internal_format: TextureInternalFormat,
    pub width: usize,
    pub height: usize,
    pub data: TextureData,
}

/// The device upload formats implied by a client data format.
pub open spec fn texture_formats(f: DataFormat) -> (TextureFormat, TextureInternalFormat) {
    match f {
        DataFormat::Rgb => (TextureFormat::Rgb, TextureInternalFormat::Rgb),
        DataFormat::Rgba => (TextureFormat::Rgba, TextureInternalFormat::Rgba),
        DataFormat::Bgr => (TextureFormat::Bgr, TextureInternalFormat::Rgb),
        DataFormat::Bgra => (TextureFormat::Bgra, TextureInternalFormat::Rgba),
    }
}

} // verus!
