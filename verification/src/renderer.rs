//! The renderer: resource registries and the per-frame draw loop.
//!
//! Scene objects are registered into id-keyed registries; each frame the
//! renderer walks the mesh instances, resolves their anchor, mesh, and
//! material, and emits one ambient draw plus one additive draw per
//! registered light, all as an explicit device-command stream.

use vstd::prelude::*;

use crate::assoc::{keyed_get, keyed_idx, keyed_put};
use crate::commands::{
    Comparison, DestFactor, DrawMode, Face, GlCommand, GlMatrix, MatrixData, PolygonMode,
    SourceFactor, TextureBinding, UniformValue, WindingOrder,
};
use crate::commands::{count_draws, lemma_count_draws_concat};
use crate::draw_builder::{
    BuilderView, DrawBuilder, draw_commands, lemma_draw_commands_state,
    lemma_map_attrib_name_no_draws, map_attrib_name_commands, stage_uniform,
};
use crate::layout::{AttribLayout, IndexBuffer, VertexArray, VertexBuffer, attrib_element_count};
use crate::material::{
    BuildMaterialError, Color, Material, MaterialProperty, MaterialSource, PropertySource,
    PropertyType, default_properties, property_sources_view,
};
use crate::program::Program;
use crate::registry::Registry;
use crate::scene::{
    Anchor, Camera, GpuTexture, Light, LightData, Mesh, MeshInstance, Texture2d, VertexAttribute,
    texture_formats,
};
use crate::shader_gen::{generate_sources, generated_fragment_source, generated_vertex_source};

verus! {

/// The first id every registry hands out.  Id 0 is never handed out, so a
/// texture property left at its default of 0 never resolves to a
/// registered texture.
pub const FIRST_ID: u64 = 1;

/// Everything the renderer keeps per registered mesh: the vertex array
/// built from the mesh data, the attribute descriptors it was built with,
/// and the index count drawn.
pub struct MeshData {
    pub vertex_array: VertexArray,
    pub position_attribute: VertexAttribute,
    pub normal_attribute: Option<VertexAttribute>,
    pub uv_attribute: Option<VertexAttribute>,
    pub element_count: usize,
}

/// Everything the renderer keeps per built program: the linked program's
/// observable state and the generated GLSL the host compiles.
pub struct ProgramEntry {
    pub program: Program,
    pub vertex_source: String,
    pub fragment_source: String,
}

/// The f32 bit pattern of 0.01, the default ambient channel value.
pub const AMBIENT_DEFAULT_BITS: u32 = 0x3C23D70A;

/// The f32 bit pattern of 1.0.
pub const ONE_BITS: u32 = 0x3F800000;

/// The uniform-location table every generated program resolves for the
/// built-in engine uniforms, in declaration order.
pub open spec fn builtin_uniform_table() -> Seq<(Seq<char>, u32)> {
    seq![
        ("model_transform"@, 0u32),
        ("normal_transform"@, 1u32),
        ("view_transform"@, 2u32),
        ("view_normal_transform"@, 3u32),
        ("model_view_transform"@, 4u32),
        ("projection_transform"@, 5u32),
        ("model_view_projection"@, 6u32),
        ("global_ambient"@, 7u32),
        ("camera_position"@, 8u32),
        ("light_position"@, 9u32),
        ("light_position_view"@, 10u32),
        ("light_strength"@, 11u32),
        ("light_color"@, 12u32),
        ("light_type"@, 13u32),
        ("light_radius"@, 14u32),
        ("light_direction"@, 15u32),
        ("light_direction_view"@, 16u32),
    ]
}

/// The full uniform table of a program built from a property list: the
/// built-in uniforms, then one location per declared property.
pub open spec fn program_uniform_table(props: Seq<(Seq<char>, PropertyType)>) -> Seq<
    (Seq<char>, u32),
> {
    builtin_uniform_table() + Seq::new(props.len(), |i: int| (props[i].0, (17 + i) as u32))
}

/// The vertex input table every generated program resolves.
pub open spec fn program_attrib_table() -> Seq<(Seq<char>, u32)> {
    seq![("vertex_position"@, 0u32), ("vertex_normal"@, 1u32), ("vertex_uv0"@, 2u32)]
}

/// The attribute layout a mesh attribute descriptor turns into.
pub open spec fn attrib_layout_of(a: VertexAttribute) -> AttribLayout {
    AttribLayout { elements: a.elements, stride: a.stride, offset: a.offset }
}

/// The attribute table a registered mesh's vertex buffer ends up with:
/// position, then normal and the first texture coordinate set if present.
pub open spec fn mesh_attribs(mesh: Mesh) -> Seq<(Seq<char>, AttribLayout)> {
    let s1 = keyed_put(
        Seq::<(Seq<char>, AttribLayout)>::empty(),
        "position"@,
        attrib_layout_of(mesh.position),
    );
    let s2 = match mesh.normal {
        Some(normal) => keyed_put(s1, "normal"@, attrib_layout_of(normal)),
        None => s1,
    };
    if mesh.texcoord@.len() > 0 {
        keyed_put(s2, "texcoord"@, attrib_layout_of(mesh.texcoord@[0]))
    } else {
        s2
    }
}

/// The element count a registered mesh's vertex buffer ends up with: the
/// one implied by the last attribute set.
pub open spec fn mesh_element_len(mesh: Mesh) -> int {
    let len = mesh.vertex_data@.len();
    if mesh.texcoord@.len() > 0 {
        attrib_element_count(len, attrib_layout_of(mesh.texcoord@[0]))
    } else {
        match mesh.normal {
            Some(normal) => attrib_element_count(len, attrib_layout_of(normal)),
            None => attrib_element_count(len, attrib_layout_of(mesh.position)),
        }
    }
}

/// The GPU resource and draw-call layer: registries of scene and device
/// resources, the ambient color, and the default material.
pub struct GlRender {
    pub materials: Registry<Material>,
    pub meshes: Registry<MeshData>,
    pub textures: Registry<GpuTexture>,
    pub mesh_instances: Registry<MeshInstance>,
    pub anchors: Registry<Anchor>,
    pub cameras: Registry<Camera>,
    pub lights: Registry<Light>,
    pub programs: Registry<ProgramEntry>,
    pub ambient_color: Color,
    pub default_material: Material,
}

// ---------------------------------------------------------------------------
// Frame specification
// ---------------------------------------------------------------------------

/// The builder state every instance draw starts from: triangles over the
/// mesh's vertex array, the material's program, back-face culling,
/// less-than depth testing, no blending.
pub open spec fn instance_base_builder(md: MeshData, prog: Program) -> BuilderView {
    BuilderView {
        vertex_array: md.vertex_array,
        draw_mode: DrawMode::Triangles,
        polygon_mode: None,
        program: Some(prog),
        cull: Some(Face::Back),
        depth_test: Some(Comparison::Less),
        winding_order: WindingOrder::CounterClockwise,
        blend: (SourceFactor::One, DestFactor::Zero),
        uniforms: Seq::<(u32, UniformValue)>::empty(),
    }
}

/// A matrix uniform value with the row-major flag set, as every transform
/// uniform is sent.
pub open spec fn mat_uniform(data: MatrixData) -> UniformValue {
    UniformValue::Matrix(GlMatrix { data, transpose: true })
}

/// The seven transform uniforms staged for an instance, in order: model,
/// normal, view-space normal, view, model-view, projection, and
/// model-view-projection transforms.
pub open spec fn stage_transform_uniforms(
    b: BuilderView,
    a: Anchor,
    ca: Anchor,
    c: Camera,
) -> BuilderView {
    stage_uniform(
        stage_uniform(
            stage_uniform(
                stage_uniform(
                    stage_uniform(
                        stage_uniform(
                            stage_uniform(
                                b,
                                "model_transform"@,
                                mat_uniform(MatrixData::Handle(a.transform)),
                            ),
                            "normal_transform"@,
                            mat_uniform(MatrixData::Handle(a.normal_transform)),
                        ),
                        "view_normal_transform"@,
                        mat_uniform(
                            MatrixData::ViewNormal {
                                normal: a.normal_transform,
                                inverse_view: ca.inverse_view_transform,
                            },
                        ),
                    ),
                    "view_transform"@,
                    mat_uniform(MatrixData::Handle(ca.view_transform)),
                ),
                "model_view_transform"@,
                mat_uniform(MatrixData::Product2(ca.view_transform, a.transform)),
            ),
            "projection_transform"@,
            mat_uniform(MatrixData::Handle(c.projection_transform)),
        ),
        "model_view_projection"@,
        mat_uniform(MatrixData::Product3(c.projection_transform, ca.view_transform, a.transform)),
    )
}

/// The uniform value one material property contributes.  A texture
/// property whose id has no registered device texture falls back to the
/// shared default texture instead of failing.
pub open spec fn property_uniform_value(
    p: MaterialProperty,
    textures: Registry<GpuTexture>,
) -> UniformValue {
    match p {
        MaterialProperty::Color(c) => UniformValue::F32x4(c.r, c.g, c.b, c.a),
        MaterialProperty::Scalar(v) => UniformValue::F32(v),
        MaterialProperty::Vector3(v) => UniformValue::F32x3(v.x, v.y, v.z),
        MaterialProperty::Texture(tid) => UniformValue::Texture(
            if textures.spec_contains(tid) {
                TextureBinding::Registered(tid)
            } else {
                TextureBinding::DefaultEmpty
            },
        ),
    }
}

/// The material's properties staged as uniforms, in declaration order.
pub open spec fn stage_material_uniforms(
    b: BuilderView,
    props: Seq<(Seq<char>, MaterialProperty)>,
    textures: Registry<GpuTexture>,
) -> BuilderView
    decreases props.len(),
{
    if props.len() == 0 {
        b
    } else {
        stage_uniform(
            stage_material_uniforms(b, props.drop_last(), textures),
            props.last().0,
            property_uniform_value(props.last().1, textures),
        )
    }
}

/// The fully staged builder for an instance's ambient pass: transforms,
/// global ambient color, camera position, material properties, and light
/// type 0 (ambient only).
pub open spec fn ambient_builder(
    r: GlRender,
    inst: MeshInstance,
    md: MeshData,
    prog: Program,
    a: Anchor,
    ca: Anchor,
    c: Camera,
) -> BuilderView {
    stage_uniform(
        stage_material_uniforms(
            stage_uniform(
                stage_uniform(
                    stage_transform_uniforms(instance_base_builder(md, prog), a, ca, c),
                    "global_ambient"@,
                    UniformValue::F32x4(
                        r.ambient_color.r,
                        r.ambient_color.g,
                        r.ambient_color.b,
                        r.ambient_color.a,
                    ),
                ),
                "camera_position"@,
                UniformValue::F32x4(ca.position.x, ca.position.y, ca.position.z, ca.position.w),
            ),
            inst.material.properties_view(),
            r.textures,
        ),
        "light_type"@,
        UniformValue::I32(0),
    )
}

/// The builder after the ambient pass, ready for the additive light
/// passes: depth test relaxed to less-or-equal, additive blending.
pub open spec fn relaxed_builder(b: BuilderView) -> BuilderView {
    BuilderView {
        depth_test: Some(Comparison::LessThanOrEqual),
        blend: (SourceFactor::One, DestFactor::One),
        ..b
    }
}

/// One light's uniforms staged on top of the running builder: color and
/// strength, then the type-specific fields (point: world and view-space
/// position and radius; directional: world and view-space direction).
pub open spec fn stage_light_uniforms(
    b: BuilderView,
    l: Light,
    anchors: Registry<Anchor>,
    view_handle: u64,
) -> BuilderView {
    let b1 = stage_uniform(
        stage_uniform(b, "light_color"@, UniformValue::F32x4(l.color.r, l.color.g, l.color.b, l.color.a)),
        "light_strength"@,
        UniformValue::F32(l.strength),
    );
    match l.data {
        LightData::Point { radius } => {
            let la = anchors.spec_get(l.anchor->Some_0)->Some_0;
            stage_uniform(
                stage_uniform(
                    stage_uniform(
                        stage_uniform(b1, "light_type"@, UniformValue::I32(1)),
                        "light_position"@,
                        UniformValue::F32x4(
                            la.position.x,
                            la.position.y,
                            la.position.z,
                            la.position.w,
                        ),
                    ),
                    "light_position_view"@,
                    UniformValue::F32x4TimesMatrix {
                        x: la.position.x,
                        y: la.position.y,
                        z: la.position.z,
                        w: la.position.w,
                        matrix: view_handle,
                    },
                ),
                "light_radius"@,
                UniformValue::F32(radius),
            )
        },
        LightData::Directional { direction } => {
            stage_uniform(
                stage_uniform(
                    stage_uniform(b1, "light_type"@, UniformValue::I32(2)),
                    "light_direction"@,
                    UniformValue::F32x3(direction.x, direction.y, direction.z),
                ),
                "light_direction_view"@,
                UniformValue::F32x3TimesMatrix {
                    x: direction.x,
                    y: direction.y,
                    z: direction.z,
                    matrix: view_handle,
                },
            )
        },
    }
}

/// The commands of the additive light passes: for each registered light in
/// registration order, its uniforms staged over the running builder and
/// one draw.
pub open spec fn light_pass_commands(
    b: BuilderView,
    lights: Seq<(u64, Light)>,
    anchors: Registry<Anchor>,
    view_handle: u64,
) -> Seq<GlCommand>
    decreases lights.len(),
{
    if lights.len() == 0 {
        Seq::<GlCommand>::empty()
    } else {
        let b1 = stage_light_uniforms(b, lights[0].1, anchors, view_handle);
        draw_commands(b1) + light_pass_commands(b1, lights.skip(1), anchors, view_handle)
    }
}

/// Everything drawing one anchored instance emits: the three by-name
/// attribute bindings, the ambient pass, and one pass per light.
pub open spec fn instance_commands(
    r: GlRender,
    inst: MeshInstance,
    c: Camera,
    ca: Anchor,
) -> Seq<GlCommand> {
    let a = r.anchors.spec_get(inst.anchor->Some_0)->Some_0;
    let md = r.meshes.spec_get(inst.mesh)->Some_0;
    let prog = r.programs.spec_get(inst.material.shader)->Some_0.program;
    let b0 = instance_base_builder(md, prog);
    let amb = ambient_builder(r, inst, md, prog, a, ca, c);
    map_attrib_name_commands(b0, "position"@, "vertex_position"@) + map_attrib_name_commands(
        b0,
        "normal"@,
        "vertex_normal"@,
    ) + map_attrib_name_commands(b0, "texcoord"@, "vertex_uv0"@) + draw_commands(amb)
        + light_pass_commands(relaxed_builder(amb), r.lights@, r.anchors, ca.view_transform)
}

/// The commands of all instances in registration order; an instance
/// without an anchor contributes nothing.
pub open spec fn instances_commands(
    r: GlRender,
    c: Camera,
    ca: Anchor,
    insts: Seq<(u64, MeshInstance)>,
) -> Seq<GlCommand>
    decreases insts.len(),
{
    if insts.len() == 0 {
        Seq::<GlCommand>::empty()
    } else {
        (match insts[0].1.anchor {
            Some(_) => instance_commands(r, insts[0].1, c, ca),
            None => Seq::<GlCommand>::empty(),
        }) + instances_commands(r, c, ca, insts.skip(1))
    }
}

/// The commands of the camera section of a frame: only the first
/// registered camera is rendered; with no camera nothing is drawn.
pub open spec fn camera_commands(r: GlRender) -> Seq<GlCommand> {
    if r.cameras@.len() == 0 {
        Seq::<GlCommand>::empty()
    } else {
        let c = r.cameras@[0].1;
        let ca = r.anchors.spec_get(c.anchor->Some_0)->Some_0;
        instances_commands(r, c, ca, r.mesh_instances@)
    }
}

/// One whole frame: clear, the camera section, swap.
pub open spec fn frame_commands(r: GlRender) -> Seq<GlCommand> {
    seq![GlCommand::Clear] + camera_commands(r) + seq![GlCommand::SwapBuffers]
}

impl GlRender {
    /// All registries are well-formed.
    pub open spec fn wf(self) -> bool {
        &&& self.materials.wf()
        &&& self.meshes.wf()
        &&& self.textures.wf()
        &&& self.mesh_instances.wf()
        &&& self.anchors.wf()
        &&& self.cameras.wf()
        &&& self.lights.wf()
        &&& self.programs.wf()
    }

    /// The scene is coherent enough to draw a frame: the rendered camera
    /// has a resolvable anchor; every anchored instance's anchor, mesh,
    /// and program resolve; every point light has a resolvable anchor; and
    /// property and light counts are small enough that staged uniforms and
    /// texture units stay within device index ranges.
    pub open spec fn renderable(self) -> bool {
        &&& self.cameras@.len() > 0 ==> {
            let c = self.cameras@[0].1;
            &&& c.anchor is Some
            &&& self.anchors.spec_get(c.anchor->Some_0) is Some
        }
        &&& forall|i: int|
            0 <= i < self.mesh_instances@.len() ==> {
                let inst = (#[trigger] self.mesh_instances@[i]).1;
                &&& inst.anchor is Some ==> {
                    &&& self.anchors.spec_get(inst.anchor->Some_0) is Some
                    &&& self.meshes.spec_get(inst.mesh) is Some
                    &&& self.programs.spec_get(inst.material.shader) is Some
                }
                &&& inst.material.properties@.len() <= 0x100000
            }
        &&& forall|i: int|
            0 <= i < self.lights@.len() ==> {
                let l = (#[trigger] self.lights@[i]).1;
                l.data is Point ==> {
                    &&& l.anchor is Some
                    &&& self.anchors.spec_get(l.anchor->Some_0) is Some
                }
            }
        &&& self.lights@.len() <= 0x100000
    }

    /// Creates a renderer with empty registries and builds the default
    /// material from the given source.  Fails exactly when that source
    /// supplies no fragment body.
    pub fn new(default_material_source: MaterialSource) -> (r: Result<GlRender, BuildMaterialError>)
        requires
            default_material_source.properties@.len() <= 0x100000,
        ensures
            r is Ok <==> default_material_source.fragment_source is Some,
            r is Ok ==> {
                let rend = r->Ok_0;
                &&& rend.wf()
                &&& rend.renderable()
                &&& rend.materials@.len() == 0
                &&& rend.meshes@.len() == 0
                &&& rend.textures@.len() == 0
                &&& rend.mesh_instances@.len() == 0
                &&& rend.anchors@.len() == 0
                &&& rend.cameras@.len() == 0
                &&& rend.lights@.len() == 0
                &&& rend.programs@.len() == 1
                &&& rend.programs@[0].0 == FIRST_ID
                &&& rend.programs@[0].1.program.id == FIRST_ID
                &&& rend.programs@[0].1.program.uniforms_view() == program_uniform_table(
                    property_sources_view(default_material_source.properties@),
                )
                &&& rend.programs@[0].1.program.attribs_view() == program_attrib_table()
                &&& rend.programs@[0].1.vertex_source@ == generated_vertex_source(
                    default_material_source,
                )
                &&& rend.programs@[0].1.fragment_source@ == generated_fragment_source(
                    default_material_source,
                )
                &&& rend.default_material.shader == FIRST_ID
                &&& rend.default_material.properties_view() == default_properties(
                    property_sources_view(default_material_source.properties@),
                )
                &&& rend.ambient_color == (Color {
                    r: AMBIENT_DEFAULT_BITS,
                    g: AMBIENT_DEFAULT_BITS,
                    b: AMBIENT_DEFAULT_BITS,
                    a: ONE_BITS,
                })
            },
    {
        let mut renderer = GlRender {
            materials: Registry::new(FIRST_ID),
            meshes: Registry::new(FIRST_ID),
            textures: Registry::new(FIRST_ID),
            mesh_instances: Registry::new(FIRST_ID),
            anchors: Registry::new(FIRST_ID),
            cameras: Registry::new(FIRST_ID),
            lights: Registry::new(FIRST_ID),
            programs: Registry::new(FIRST_ID),
            ambient_color: Color {
                r: AMBIENT_DEFAULT_BITS,
                g: AMBIENT_DEFAULT_BITS,
                b: AMBIENT_DEFAULT_BITS,
                a: ONE_BITS,
            },
            default_material: Material::new(FIRST_ID),
        };
        let default_material = match renderer.build_material(default_material_source) {
            Ok(material) => material,
            Err(e) => {
                return Err(e);
            },
        };
        renderer.default_material = default_material;
        Ok(renderer)
    }

    /// A copy of the default material, built at startup from the default
    /// material source.
    pub fn default_material(&self) -> (r: Material)
        ensures
            r.shader == self.default_material.shader,
            r.properties@ == self.default_material.properties@,
    {
        self.default_material.duplicate()
    }

    /// Builds a material: generates both shader stages' GLSL from the
    /// source, registers the program under a fresh id together with its
    /// resolved variable tables, and returns a material referencing that
    /// id with every declared property at its type's default.  Fails
    /// exactly when the source supplies no fragment body, in which case
    /// nothing changes.
    pub fn build_material(&mut self, source: MaterialSource) -> (r: Result<
        Material,
        BuildMaterialError,
    >)
        requires
            old(self).wf(),
            old(self).programs.spec_next_id() < u64::MAX,
            source.properties@.len() <= 0x100000,
        ensures
            final(self).wf(),
            r is Ok <==> source.fragment_source is Some,
            r is Err ==> *final(self) == *old(self),
            r is Ok ==> {
                let id = old(self).programs.spec_next_id();
                let entry = final(self).programs@.last().1;
                &&& final(self).programs@ == old(self).programs@.push((id, entry))
                &&& final(self).programs.spec_next_id() == id + 1
                &&& entry.program.id == id
                &&& entry.program.uniforms_view() == program_uniform_table(
                    property_sources_view(source.properties@),
                )
                &&& entry.program.attribs_view() == program_attrib_table()
                &&& entry.vertex_source@ == generated_vertex_source(source)
                &&& entry.fragment_source@ == generated_fragment_source(source)
                &&& r->Ok_0.shader == id
                &&& r->Ok_0.properties_view() == default_properties(
                    property_sources_view(source.properties@),
                )
                &&& final(self).materials == old(self).materials
                &&& final(self).meshes == old(self).meshes
                &&& final(self).textures == old(self).textures
                &&& final(self).mesh_instances == old(self).mesh_instances
                &&& final(self).anchors == old(self).anchors
                &&& final(self).cameras == old(self).cameras
                &&& final(self).lights == old(self).lights
                &&& final(self).ambient_color == old(self).ambient_color
                &&& final(self).default_material == old(self).default_material
            },
    {
        let sources = match generate_sources(&source) {
            Ok(sources) => sources,
            Err(e) => {
                return Err(e);
            },
        };
        let id = self.programs.next_id;

        let mut uniforms: Vec<(String, u32)> = Vec::new();
        uniforms.push((String::from_str("model_transform"), 0));
        uniforms.push((String::from_str("normal_transform"), 1));
        uniforms.push((String::from_str("view_transform"), 2));
        uniforms.push((String::from_str("view_normal_transform"), 3));
        uniforms.push((String::from_str("model_view_transform"), 4));
        uniforms.push((String::from_str("projection_transform"), 5));
        uniforms.push((String::from_str("model_view_projection"), 6));
        uniforms.push((String::from_str("global_ambient"), 7));
        uniforms.push((String::from_str("camera_position"), 8));
        uniforms.push((String::from_str("light_position"), 9));
        uniforms.push((String::from_str("light_position_view"), 10));
        uniforms.push((String::from_str("light_strength"), 11));
        uniforms.push((String::from_str("light_color"), 12));
        uniforms.push((String::from_str("light_type"), 13));
        uniforms.push((String::from_str("light_radius"), 14));
        uniforms.push((String::from_str("light_direction"), 15));
        uniforms.push((String::from_str("light_direction_view"), 16));
        proof {
            assert(crate::names::names_view(uniforms@) =~= builtin_uniform_table());
        }

        let ghost pv = property_sources_view(source.properties@);
        let n = source.properties.len();
        let mut i: usize = 0;
        while i < n
            invariant
                pv == property_sources_view(source.properties@),
                n == source.properties@.len(),
                pv.len() == n,
                n <= 0x100000,
                i <= n,
                uniforms@.len() == 17 + i,
                crate::names::names_view(uniforms@) =~= builtin_uniform_table() + Seq::new(
                    i as nat,
                    |j: int| (pv[j].0, (17 + j) as u32),
                ),
            decreases n - i,
        {
            let ghost u0 = uniforms@;
            uniforms.push((source.properties[i].name.clone(), 17 + (i as u32)));
            proof {
                let nv = crate::names::names_view(uniforms@);
                let target = builtin_uniform_table() + Seq::new(
                    (i + 1) as nat,
                    |j: int| (pv[j].0, (17 + j) as u32),
                );
                assert(pv[i as int] == (
                    source.properties@[i as int].name@,
                    source.properties@[i as int].property_type,
                ));
                assert(uniforms@[17 + i as int].0@ == pv[i as int].0);
                assert(uniforms@[17 + i as int].1 == (17 + i as int) as u32);
                assert(nv.len() == target.len());
                assert forall|k: int| 0 <= k < nv.len() implies nv[k] == target[k] by {
                    assert(nv[k] == (uniforms@[k].0@, uniforms@[k].1));
                    if k < 17 + i {
                        assert(uniforms@[k] == u0[k]);
                        assert(crate::names::names_view(u0)[k] == (u0[k].0@, u0[k].1));
                    }
                }
                assert(nv =~= target);
            }
            i += 1;
        }

        let mut attribs: Vec<(String, u32)> = Vec::new();
        attribs.push((String::from_str("vertex_position"), 0));
        attribs.push((String::from_str("vertex_normal"), 1));
        attribs.push((String::from_str("vertex_uv0"), 2));
        proof {
            assert(crate::names::names_view(attribs@) =~= program_attrib_table());
        }

        let program = Program::new(id, attribs, uniforms);
        let entry = ProgramEntry {
            program,
            vertex_source: sources.vertex,
            fragment_source: sources.fragment,
        };
        let registered = self.programs.register(entry);
        proof {
            assert(registered == id);
            assert(final(self).programs@.last().1.program.uniforms_view() =~= program_uniform_table(
                pv,
            ));
        }

        let mut material = Material::new(id);
        let mut i: usize = 0;
        while i < n
            invariant
                pv == property_sources_view(source.properties@),
                n == source.properties@.len(),
                pv.len() == n,
                i <= n,
                material.shader == id,
                material.properties_view() == default_properties(pv.take(i as int)),
            decreases n - i,
        {
            let name = source.properties[i].name.as_str();
            match source.properties[i].property_type {
                PropertyType::Color => material.set_color(name, Color::black()),
                PropertyType::Texture2d => material.set_texture(name, 0),
                PropertyType::Scalar => material.set_f32(name, 0),
                PropertyType::Vector3 => material.set_vector3(
                    name,
                    crate::material::Vector3 { x: 0, y: 0, z: 0 },
                ),
            }
            proof {
                assert(pv.take(i + 1).drop_last() =~= pv.take(i as int));
                assert(pv.take(i + 1).last() == pv[i as int]);
            }
            i += 1;
        }
        proof {
            assert(pv.take(n as int) =~= pv);
        }
        Ok(material)
    }

    /// Registers a material under a fresh id.
    pub fn register_material(&mut self, material: Material) -> (id: u64)
        requires
            old(self).wf(),
            old(self).materials.spec_next_id() < u64::MAX,
        ensures
            final(self).wf(),
            id == old(self).materials.spec_next_id(),
            final(self).materials@ == old(self).materials@.push((id, material)),
            !old(self).materials.spec_contains(id),
            *final(self) == (GlRender { materials: final(self).materials, ..*old(self) }),
    {
        self.materials.register(material)
    }

    /// Looks up a registered material.
    pub fn get_material(&self, material_id: u64) -> (r: Option<&Material>)
        ensures
            match r {
                Some(m) => self.materials.spec_get(material_id) == Some(*m),
                None => self.materials.spec_get(material_id) is None,
            },
    {
        self.materials.get(material_id)
    }

    /// Registers a mesh instance under a fresh id.
    pub fn register_mesh_instance(&mut self, mesh_instance: MeshInstance) -> (id: u64)
        requires
            old(self).wf(),
            old(self).mesh_instances.spec_next_id() < u64::MAX,
        ensures
            final(self).wf(),
            id == old(self).mesh_instances.spec_next_id(),
            final(self).mesh_instances@ == old(self).mesh_instances@.push((id, mesh_instance)),
            !old(self).mesh_instances.spec_contains(id),
            *final(self) == (GlRender { mesh_instances: final(self).mesh_instances, ..*old(self) }),
    {
        self.mesh_instances.register(mesh_instance)
    }

    /// Looks up a registered mesh instance.
    pub fn get_mesh_instance(&self, id: u64) -> (r: Option<&MeshInstance>)
        ensures
            match r {
                Some(m) => self.mesh_instances.spec_get(id) == Some(*m),
                None => self.mesh_instances.spec_get(id) is None,
            },
    {
        self.mesh_instances.get(id)
    }

    /// Mutable lookup of a registered mesh instance.
    pub fn get_mesh_instance_mut(&mut self, id: u64) -> (r: Option<&mut MeshInstance>)
        ensures
            match r {
                Some(m) => {
                    &&& old(self).mesh_instances.spec_get(id) == Some(*m)
                    &&& final(self).mesh_instances@ == old(self).mesh_instances@.update(
                        keyed_idx(old(self).mesh_instances@, id),
                        (id, *final(m)),
                    )
                    &&& final(self).mesh_instances.next_id == old(self).mesh_instances.next_id
                    &&& *final(self) == (GlRender {
                        mesh_instances: final(self).mesh_instances,
                        ..*old(self)
                    })
                },
                None => {
                    &&& old(self).mesh_instances.spec_get(id) is None
                    &&& *final(self) == *old(self)
                },
            },
    {
        self.mesh_instances.get_mut(id)
    }

    /// Registers an anchor under a fresh id.
    pub fn register_anchor(&mut self, anchor: Anchor) -> (id: u64)
        requires
            old(self).wf(),
            old(self).anchors.spec_next_id() < u64::MAX,
        ensures
            final(self).wf(),
            id == old(self).anchors.spec_next_id(),
            final(self).anchors@ == old(self).anchors@.push((id, anchor)),
            !old(self).anchors.spec_contains(id),
            final(self).anchors.spec_get(id) == Some(anchor),
            forall|i: int| 0 <= i < old(self).anchors@.len() ==> old(self).anchors@[i].0 < id,
            *final(self) == (GlRender { anchors: final(self).anchors, ..*old(self) }),
    {
        self.anchors.register(anchor)
    }

    /// Looks up a registered anchor.
    pub fn get_anchor(&self, anchor_id: u64) -> (r: Option<&Anchor>)
        ensures
            match r {
                Some(a) => self.anchors.spec_get(anchor_id) == Some(*a),
                None => self.anchors.spec_get(anchor_id) is None,
            },
    {
        self.anchors.get(anchor_id)
    }

    /// Mutable lookup of a registered anchor.
    pub fn get_anchor_mut(&mut self, anchor_id: u64) -> (r: Option<&mut Anchor>)
        ensures
            match r {
                Some(m) => {
                    &&& old(self).anchors.spec_get(anchor_id) == Some(*m)
                    &&& final(self).anchors@ == old(self).anchors@.update(
                        keyed_idx(old(self).anchors@, anchor_id),
                        (anchor_id, *final(m)),
                    )
                    &&& final(self).anchors.next_id == old(self).anchors.next_id
                    &&& *final(self) == (GlRender { anchors: final(self).anchors, ..*old(self) })
                },
                None => {
                    &&& old(self).anchors.spec_get(anchor_id) is None
                    &&& *final(self) == *old(self)
                },
            },
    {
        self.anchors.get_mut(anchor_id)
    }

    /// Registers a camera under a fresh id.
    pub fn register_camera(&mut self, camera: Camera) -> (id: u64)
        requires
            old(self).wf(),
            old(self).cameras.spec_next_id() < u64::MAX,
        ensures
            final(self).wf(),
            id == old(self).cameras.spec_next_id(),
            final(self).cameras@ == old(self).cameras@.push((id, camera)),
            !old(self).cameras.spec_contains(id),
            *final(self) == (GlRender { cameras: final(self).cameras, ..*old(self) }),
    {
        self.cameras.register(camera)
    }

    /// Looks up a registered camera.
    pub fn get_camera(&self, camera_id: u64) -> (r: Option<&Camera>)
        ensures
            match r {
                Some(c) => self.cameras.spec_get(camera_id) == Some(*c),
                None => self.cameras.spec_get(camera_id) is None,
            },
    {
        self.cameras.get(camera_id)
    }

    /// Mutable lookup of a registered camera.
    pub fn get_camera_mut(&mut self, camera_id: u64) -> (r: Option<&mut Camera>)
        ensures
            match r {
                Some(m) => {
                    &&& old(self).cameras.spec_get(camera_id) == Some(*m)
                    &&& final(self).cameras@ == old(self).cameras@.update(
                        keyed_idx(old(self).cameras@, camera_id),
                        (camera_id, *final(m)),
                    )
                    &&& final(self).cameras.next_id == old(self).cameras.next_id
                    &&& *final(self) == (GlRender { cameras: final(self).cameras, ..*old(self) })
                },
                None => {
                    &&& old(self).cameras.spec_get(camera_id) is None
                    &&& *final(self) == *old(self)
                },
            },
    {
        self.cameras.get_mut(camera_id)
    }

    /// Registers a light under a fresh id.
    pub fn register_light(&mut self, light: Light) -> (id: u64)
        requires
            old(self).wf(),
            old(self).lights.spec_next_id() < u64::MAX,
        ensures
            final(self).wf(),
            id == old(self).lights.spec_next_id(),
            final(self).lights@ == old(self).lights@.push((id, light)),
            !old(self).lights.spec_contains(id),
            *final(self) == (GlRender { lights: final(self).lights, ..*old(self) }),
    {
        self.lights.register(light)
    }

    /// Looks up a registered light.
    pub fn get_light(&self, light_id: u64) -> (r: Option<&Light>)
        ensures
            match r {
                Some(l) => self.lights.spec_get(light_id) == Some(*l),
                None => self.lights.spec_get(light_id) is None,
            },
    {
        self.lights.get(light_id)
    }

    /// Mutable lookup of a registered light.
    pub fn get_light_mut(&mut self, light_id: u64) -> (r: Option<&mut Light>)
        ensures
            match r {
                Some(m) => {
                    &&& old(self).lights.spec_get(light_id) == Some(*m)
                    &&& final(self).lights@ == old(self).lights@.update(
                        keyed_idx(old(self).lights@, light_id),
                        (light_id, *final(m)),
                    )
                    &&& final(self).lights.next_id == old(self).lights.next_id
                    &&& *final(self) == (GlRender { lights: final(self).lights, ..*old(self) })
                },
                None => {
                    &&& old(self).lights.spec_get(light_id) is None
                    &&& *final(self) == *old(self)
                },
            },
    {
        self.lights.get_mut(light_id)
    }

    /// Sets the global ambient light color.
    pub fn set_ambient_light(&mut self, color: Color)
        ensures
            *final(self) == (GlRender { ambient_color: color, ..*old(self) }),
    {
        self.ambient_color = color;
    }

    /// Registers a mesh: uploads its vertex and index data into fresh
    /// buffers, records the attribute layouts (position, then normal and
    /// the first texture coordinate set when present), builds a vertex
    /// array over both buffers, and stores the result under a fresh id.
    pub fn register_mesh(&mut self, mesh: &Mesh) -> (id: u64)
        requires
            old(self).wf(),
            old(self).meshes.spec_next_id() < u64::MAX,
            mesh.position.elements > 0,
            mesh.position.offset <= mesh.vertex_data@.len(),
            attrib_element_count(mesh.vertex_data@.len(), attrib_layout_of(mesh.position))
                <= usize::MAX,
            mesh.normal is Some ==> {
                let normal = mesh.normal->Some_0;
                &&& normal.elements > 0
                &&& normal.offset <= mesh.vertex_data@.len()
                &&& attrib_element_count(mesh.vertex_data@.len(), attrib_layout_of(normal))
                    <= usize::MAX
            },
            mesh.texcoord@.len() > 0 ==> {
                let texcoord = mesh.texcoord@[0];
                &&& texcoord.elements > 0
                &&& texcoord.offset <= mesh.vertex_data@.len()
                &&& attrib_element_count(mesh.vertex_data@.len(), attrib_layout_of(texcoord))
                    <= usize::MAX
            },
        ensures
            final(self).wf(),
            id == old(self).meshes.spec_next_id(),
            final(self).meshes@ == old(self).meshes@.push((id, final(self).meshes@.last().1)),
            *final(self) == (GlRender { meshes: final(self).meshes, ..*old(self) }),
            ({
                let md = final(self).meshes@.last().1;
                &&& md.vertex_array.name == id
                &&& md.vertex_array.vertex_buffer.data@ == mesh.vertex_data@
                &&& md.vertex_array.vertex_buffer.attribs_view() == mesh_attribs(*mesh)
                &&& md.vertex_array.vertex_buffer.element_len == mesh_element_len(*mesh)
                &&& md.vertex_array.index_buffer is Some
                &&& md.vertex_array.index_buffer->Some_0.data@ == mesh.indices@
                &&& md.position_attribute == mesh.position
                &&& md.normal_attribute == mesh.normal
                &&& md.uv_attribute is None
                &&& md.element_count == mesh.indices@.len()
            }),
    {
        let mut vertex_buffer = VertexBuffer::new();
        vertex_buffer.set_data_f32(mesh.vertex_data.as_slice());

        let position = mesh.position;
        vertex_buffer.set_attrib_f32(
            "position",
            AttribLayout {
                elements: position.elements,
                stride: position.stride,
                offset: position.offset,
            },
        );

        match &mesh.normal {
            Some(normal) => {
                vertex_buffer.set_attrib_f32(
                    "normal",
                    AttribLayout {
                        elements: normal.elements,
                        stride: normal.stride,
                        offset: normal.offset,
                    },
                );
            },
            None => {},
        }

        if mesh.texcoord.len() > 0 {
            let texcoord = mesh.texcoord[0];
            vertex_buffer.set_attrib_f32(
                "texcoord",
                AttribLayout {
                    elements: texcoord.elements,
                    stride: texcoord.stride,
                    offset: texcoord.offset,
                },
            );
        }
        proof {
            assert(vertex_buffer.attribs_view() =~= mesh_attribs(*mesh));
        }

        let mut index_buffer = IndexBuffer::new();
        index_buffer.set_data_u32(mesh.indices.as_slice());

        let mesh_id = self.meshes.next_id;
        let vertex_array = VertexArray::with_index_buffer(mesh_id, vertex_buffer, index_buffer);

        let element_count = mesh.indices.len();
        let registered = self.meshes.register(
            MeshData {
                vertex_array,
                position_attribute: mesh.position,
                normal_attribute: match &mesh.normal {
                    Some(normal) => Some(*normal),
                    None => None,
                },
                uv_attribute: None,
                element_count,
            },
        );
        proof {
            assert(registered == mesh_id);
        }
        registered
    }

    /// Registers a texture: resolves the device upload formats from the
    /// client data format and stores the texture under a fresh id.
    pub fn register_texture(&mut self, texture: Texture2d) -> (id: u64)
        requires
            old(self).wf(),
            old(self).textures.spec_next_id() < u64::MAX,
        ensures
            final(self).wf(),
            id == old(self).textures.spec_next_id(),
            final(self).textures@ == old(self).textures@.push((id, final(self).textures@.last().1)),
            !old(self).textures.spec_contains(id),
            *final(self) == (GlRender { textures: final(self).textures, ..*old(self) }),
            ({
                let t = final(self).textures@.last().1;
                &&& t.format == texture_formats(texture.format).0
                &&& t.internal_format == texture_formats(texture.format).1
                &&& t.width == texture.width
                &&& t.height == texture.height
                &&& t.data == texture.data
            }),
    {
        let (format, internal_format) = match texture.format {
            crate::scene::DataFormat::Rgb => (
                crate::scene::TextureFormat::Rgb,
                crate::scene::TextureInternalFormat::Rgb,
            ),
            crate::scene::DataFormat::Rgba => (
                crate::scene::TextureFormat::Rgba,
                crate::scene::TextureInternalFormat::Rgba,
            ),
            crate::scene::DataFormat::Bgr => (
                crate::scene::TextureFormat::Bgr,
                crate::scene::TextureInternalFormat::Rgb,
            ),
            crate::scene::DataFormat::Bgra => (
                crate::scene::TextureFormat::Bgra,
                crate::scene::TextureInternalFormat::Rgba,
            ),
        };
        self.textures.register(
            GpuTexture {
                format,
                internal_format,
                width: texture.width,
                height: texture.height,
                data: texture.data,
            },
        )
    }

    /// Draws one anchored mesh instance: binds the standard attributes by
    /// name, stages the transform, ambient, camera, and material uniforms,
    /// issues the ambient pass, then relaxes the depth test, enables
    /// additive blending, and issues one pass per registered light.
    #[verifier::rlimit(100)]
    #[verifier::loop_isolation(false)]
    fn instance_draw(&self, mesh_instance: &MeshInstance, camera: &Camera, camera_anchor: &Anchor)
        -> (cmds: Vec<GlCommand>)
        requires
            mesh_instance.anchor is Some,
            self.anchors.spec_get(mesh_instance.anchor->Some_0) is Some,
            self.meshes.spec_get(mesh_instance.mesh) is Some,
            self.programs.spec_get(mesh_instance.material.shader) is Some,
            mesh_instance.material.properties@.len() <= 0x100000,
            self.lights@.len() <= 0x100000,
            forall|i: int|
                0 <= i < self.lights@.len() ==> {
                    let l = (#[trigger] self.lights@[i]).1;
                    l.data is Point ==> {
                        &&& l.anchor is Some
                        &&& self.anchors.spec_get(l.anchor->Some_0) is Some
                    }
                },
        ensures
            cmds@ == instance_commands(*self, *mesh_instance, *camera, *camera_anchor),
    {
        let anchor = self.anchors.get(mesh_instance.anchor.unwrap()).unwrap();
        let mesh_data = self.meshes.get(mesh_instance.mesh).unwrap();
        let entry = self.programs.get(mesh_instance.material.shader()).unwrap();
        let program = &entry.program;

        let mut builder = DrawBuilder::new(&mesh_data.vertex_array, DrawMode::Triangles);
        builder.program(program);
        builder.cull(Face::Back);
        builder.depth_test(Comparison::Less);
        proof {
            assert(builder@ =~= instance_base_builder(*mesh_data, *program));
        }
        let ghost b0 = builder@;

        let mut cmds: Vec<GlCommand> = Vec::new();
        let mut map_position = builder.map_attrib_name("position", "vertex_position");
        cmds.append(&mut map_position);
        let mut map_normal = builder.map_attrib_name("normal", "vertex_normal");
        cmds.append(&mut map_normal);
        let mut map_texcoord = builder.map_attrib_name("texcoord", "vertex_uv0");
        cmds.append(&mut map_texcoord);

        builder.uniform(
            "model_transform",
            UniformValue::Matrix(
                GlMatrix { data: MatrixData::Handle(anchor.transform), transpose: true },
            ),
        );
        builder.uniform(
            "normal_transform",
            UniformValue::Matrix(
                GlMatrix { data: MatrixData::Handle(anchor.normal_transform), transpose: true },
            ),
        );
        builder.uniform(
            "view_normal_transform",
            UniformValue::Matrix(
                GlMatrix {
                    data: MatrixData::ViewNormal {
                        normal: anchor.normal_transform,
                        inverse_view: camera_anchor.inverse_view_transform,
                    },
                    transpose: true,
                },
            ),
        );
        builder.uniform(
            "view_transform",
            UniformValue::Matrix(
                GlMatrix { data: MatrixData::Handle(camera_anchor.view_transform), transpose: true },
            ),
        );
        builder.uniform(
            "model_view_transform",
            UniformValue::Matrix(
                GlMatrix {
                    data: MatrixData::Product2(camera_anchor.view_transform, anchor.transform),
                    transpose: true,
                },
            ),
        );
        builder.uniform(
            "projection_transform",
            UniformValue::Matrix(
                GlMatrix { data: MatrixData::Handle(camera.projection_transform), transpose: true },
            ),
        );
        builder.uniform(
            "model_view_projection",
            UniformValue::Matrix(
                GlMatrix {
                    data: MatrixData::Product3(
                        camera.projection_transform,
                        camera_anchor.view_transform,
                        anchor.transform,
                    ),
                    transpose: true,
                },
            ),
        );
        builder.uniform(
            "global_ambient",
            UniformValue::F32x4(
                self.ambient_color.r,
                self.ambient_color.g,
                self.ambient_color.b,
                self.ambient_color.a,
            ),
        );
        builder.uniform(
            "camera_position",
            UniformValue::F32x4(
                camera_anchor.position.x,
                camera_anchor.position.y,
                camera_anchor.position.z,
                camera_anchor.position.w,
            ),
        );
        let ghost b_pre_props = builder@;

        let nprops = mesh_instance.material.properties.len();
        let ghost props = mesh_instance.material.properties_view();
        let mut pi: usize = 0;
        proof {
            assert(props.take(0) =~= Seq::<(Seq<char>, MaterialProperty)>::empty());
        }
        while pi < nprops
            invariant
                nprops == mesh_instance.material.properties@.len(),
                props == mesh_instance.material.properties_view(),
                props.len() == nprops,
                pi <= nprops,
                builder@ == stage_material_uniforms(b_pre_props, props.take(pi as int), self.textures),
                builder@.program == b_pre_props.program,
                b_pre_props.program is Some,
                builder@.uniforms.len() <= b_pre_props.uniforms.len() + pi,
            decreases nprops - pi,
        {
            let prop_entry = &mesh_instance.material.properties[pi];
            let prop_name = prop_entry.0.as_str();
            match prop_entry.1 {
                MaterialProperty::Color(c) => builder.uniform(
                    prop_name,
                    UniformValue::F32x4(c.r, c.g, c.b, c.a),
                ),
                MaterialProperty::Scalar(v) => builder.uniform(prop_name, UniformValue::F32(v)),
                MaterialProperty::Vector3(v) => builder.uniform(
                    prop_name,
                    UniformValue::F32x3(v.x, v.y, v.z),
                ),
                MaterialProperty::Texture(tid) => {
                    let binding = if self.textures.contains(tid) {
                        TextureBinding::Registered(tid)
                    } else {
                        TextureBinding::DefaultEmpty
                    };
                    builder.uniform(prop_name, UniformValue::Texture(binding));
                },
            }
            proof {
                assert(props.take(pi + 1).drop_last() =~= props.take(pi as int));
                assert(props.take(pi + 1).last() == props[pi as int]);
                assert(props[pi as int] == (
                    mesh_instance.material.properties@[pi as int].0@,
                    mesh_instance.material.properties@[pi as int].1,
                ));
            }
            pi += 1;
        }
        proof {
            assert(props.take(nprops as int) =~= props);
        }
        builder.uniform("light_type", UniformValue::I32(0));
        let ghost amb = builder@;
        proof {
            assert(amb == ambient_builder(
                *self,
                *mesh_instance,
                *mesh_data,
                *program,
                self.anchors.spec_get(mesh_instance.anchor->Some_0)->Some_0,
                *camera_anchor,
                *camera,
            ));
        }

        let mut ambient_pass = builder.draw();
        cmds.append(&mut ambient_pass);
        let ghost cmds_before_lights = cmds@;

        builder.depth_test(Comparison::LessThanOrEqual);
        builder.blend(SourceFactor::One, DestFactor::One);
        proof {
            assert(builder@ =~= relaxed_builder(amb));
        }

        let nl = self.lights.len();
        let mut li: usize = 0;
        proof {
            assert(self.lights@.skip(0) =~= self.lights@);
        }
        while li < nl
            invariant
                nl == self.lights@.len(),
                nl <= 0x100000,
                li <= nl,
                builder@.program == amb.program,
                amb.program is Some,
                builder@.uniforms.len() <= amb.uniforms.len() + 6 * li,
                amb.uniforms.len() <= 0x200000,
                cmds_before_lights + light_pass_commands(
                    relaxed_builder(amb),
                    self.lights@,
                    self.anchors,
                    camera_anchor.view_transform,
                ) == cmds@ + light_pass_commands(
                    builder@,
                    self.lights@.skip(li as int),
                    self.anchors,
                    camera_anchor.view_transform,
                ),
            decreases nl - li,
        {
            let light_entry = self.lights.entry_at(li);
            let light = &light_entry.1;
            let ghost b_iter = builder@;
            proof {
                assert(self.lights@.skip(li as int)[0] == self.lights@[li as int]);
                assert(self.lights@.skip(li as int).skip(1) =~= self.lights@.skip(li + 1));
            }
            builder.uniform(
                "light_color",
                UniformValue::F32x4(light.color.r, light.color.g, light.color.b, light.color.a),
            );
            builder.uniform("light_strength", UniformValue::F32(light.strength));
            match light.data {
                LightData::Point { radius } => {
                    builder.uniform("light_type", UniformValue::I32(1));
                    let light_anchor = self.anchors.get(light.anchor.unwrap()).unwrap();
                    builder.uniform(
                        "light_position",
                        UniformValue::F32x4(
                            light_anchor.position.x,
                            light_anchor.position.y,
                            light_anchor.position.z,
                            light_anchor.position.w,
                        ),
                    );
                    builder.uniform(
                        "light_position_view",
                        UniformValue::F32x4TimesMatrix {
                            x: light_anchor.position.x,
                            y: light_anchor.position.y,
                            z: light_anchor.position.z,
                            w: light_anchor.position.w,
                            matrix: camera_anchor.view_transform,
                        },
                    );
                    builder.uniform("light_radius", UniformValue::F32(radius));
                },
                LightData::Directional { direction } => {
                    builder.uniform("light_type", UniformValue::I32(2));
                    builder.uniform(
                        "light_direction",
                        UniformValue::F32x3(direction.x, direction.y, direction.z),
                    );
                    builder.uniform(
                        "light_direction_view",
                        UniformValue::F32x3TimesMatrix {
                            x: direction.x,
                            y: direction.y,
                            z: direction.z,
                            matrix: camera_anchor.view_transform,
                        },
                    );
                },
            }
            proof {
                assert(builder@ == stage_light_uniforms(
                    b_iter,
                    self.lights@[li as int].1,
                    self.anchors,
                    camera_anchor.view_transform,
                ));
            }
            let mut light_pass = builder.draw();
            cmds.append(&mut light_pass);
            proof {
                assert(cmds_before_lights + light_pass_commands(
                    relaxed_builder(amb),
                    self.lights@,
                    self.anchors,
                    camera_anchor.view_transform,
                ) =~= cmds@ + light_pass_commands(
                    builder@,
                    self.lights@.skip(li + 1),
                    self.anchors,
                    camera_anchor.view_transform,
                ));
            }
            li += 1;
        }
        proof {
            assert(self.lights@.skip(nl as int) =~= Seq::<(u64, Light)>::empty());
            assert(cmds@ =~= instance_commands(*self, *mesh_instance, *camera, *camera_anchor));
        }
        cmds
    }

    /// Renders one frame: clears, renders the scene through the first
    /// registered camera (each anchored mesh instance gets an ambient pass
    /// and one additive pass per light; instances without an anchor are
    /// skipped), and swaps buffers.  The returned stream is the frame's
    /// device calls in order.
    #[verifier::loop_isolation(false)]
    pub fn draw(&self) -> (cmds: Vec<GlCommand>)
        requires
            self.renderable(),
        ensures
            cmds@ == frame_commands(*self),
    {
        let mut cmds: Vec<GlCommand> = Vec::new();
        cmds.push(GlCommand::Clear);
        if self.cameras.len() > 0 {
            let camera_entry = self.cameras.entry_at(0);
            let camera = &camera_entry.1;
            let camera_anchor = self.anchors.get(camera.anchor.unwrap()).unwrap();
            let ghost c = self.cameras@[0].1;
            let ghost ca = self.anchors.spec_get(c.anchor->Some_0)->Some_0;

            let ni = self.mesh_instances.len();
            let mut ii: usize = 0;
            proof {
                assert(self.mesh_instances@.skip(0) =~= self.mesh_instances@);
            }
            while ii < ni
                invariant
                    ni == self.mesh_instances@.len(),
                    ii <= ni,
                    self.renderable(),
                    c == self.cameras@[0].1,
                    ca == self.anchors.spec_get(c.anchor->Some_0)->Some_0,
                    *camera == c,
                    *camera_anchor == ca,
                    seq![GlCommand::Clear] + instances_commands(
                        *self,
                        c,
                        ca,
                        self.mesh_instances@,
                    ) == cmds@ + instances_commands(
                        *self,
                        c,
                        ca,
                        self.mesh_instances@.skip(ii as int),
                    ),
                decreases ni - ii,
            {
                let instance_entry = self.mesh_instances.entry_at(ii);
                let instance = &instance_entry.1;
                proof {
                    assert(self.mesh_instances@.skip(ii as int)[0] == self.mesh_instances@[
                        ii as int
                    ]);
                    assert(self.mesh_instances@.skip(ii as int).skip(1) =~= self.mesh_instances@
                        .skip(ii + 1));
                }
                match instance.anchor {
                    Some(_) => {
                        let mut instance_cmds = self.instance_draw(instance, camera, camera_anchor);
                        cmds.append(&mut instance_cmds);
                    },
                    None => {},
                }
                ii += 1;
            }
            proof {
                assert(self.mesh_instances@.skip(ni as int) =~= Seq::<(u64, MeshInstance)>::empty());
            }
        }
        cmds.push(GlCommand::SwapBuffers);
        proof {
            assert(cmds@ =~= frame_commands(*self));
        }
        cmds
    }
}

/// The staged builder each successive light pass draws with: each light's
/// uniforms staged over the previous pass's builder.
pub open spec fn light_pass_builders(
    b: BuilderView,
    lights: Seq<(u64, Light)>,
    anchors: Registry<Anchor>,
    view_handle: u64,
) -> Seq<BuilderView>
    decreases lights.len(),
{
    if lights.len() == 0 {
        Seq::<BuilderView>::empty()
    } else {
        let b1 = stage_light_uniforms(b, lights[0].1, anchors, view_handle);
        seq![b1] + light_pass_builders(b1, lights.skip(1), anchors, view_handle)
    }
}

/// Staging a light's uniforms changes nothing but the staged uniform map.
pub proof fn lemma_stage_light_frame(
    b: BuilderView,
    l: Light,
    anchors: Registry<Anchor>,
    view_handle: u64,
)
    ensures
        ({
            let s = stage_light_uniforms(b, l, anchors, view_handle);
            &&& s.depth_test == b.depth_test
            &&& s.blend == b.blend
            &&& s.program == b.program
            &&& s.cull == b.cull
            &&& s.vertex_array == b.vertex_array
        }),
{
}

/// The streams of a sequence of draws, one per builder, concatenated in
/// order.
pub open spec fn concat_draw_commands(builders: Seq<BuilderView>) -> Seq<GlCommand>
    decreases builders.len(),
{
    if builders.len() == 0 {
        Seq::<GlCommand>::empty()
    } else {
        draw_commands(builders[0]) + concat_draw_commands(builders.skip(1))
    }
}

/// Law: the additive light passes are exactly one draw per registered
/// light, in registration order, and every one of those draws is issued
/// with the depth test relaxed to less-or-equal and additive (one, one)
/// blending.
pub proof fn lemma_light_pass_draws(
    b: BuilderView,
    lights: Seq<(u64, Light)>,
    anchors: Registry<Anchor>,
    view_handle: u64,
)
    requires
        b.depth_test == Some(Comparison::LessThanOrEqual),
        b.blend == (SourceFactor::One, DestFactor::One),
    ensures
        count_draws(light_pass_commands(b, lights, anchors, view_handle)) == lights.len(),
        light_pass_builders(b, lights, anchors, view_handle).len() == lights.len(),
        light_pass_commands(b, lights, anchors, view_handle) == concat_draw_commands(
            light_pass_builders(b, lights, anchors, view_handle),
        ),
        forall|k: int|
            0 <= k < lights.len() ==> {
                let bk = #[trigger] light_pass_builders(b, lights, anchors, view_handle)[k];
                &&& bk.depth_test == Some(Comparison::LessThanOrEqual)
                &&& bk.blend == (SourceFactor::One, DestFactor::One)
            },
    decreases lights.len(),
{
    if lights.len() == 0 {
        crate::commands::lemma_count_draws_zero(
            light_pass_commands(b, lights, anchors, view_handle),
        );
    } else {
        let b1 = stage_light_uniforms(b, lights[0].1, anchors, view_handle);
        lemma_stage_light_frame(b, lights[0].1, anchors, view_handle);
        lemma_draw_commands_state(b1);
        lemma_light_pass_draws(b1, lights.skip(1), anchors, view_handle);
        lemma_count_draws_concat(
            draw_commands(b1),
            light_pass_commands(b1, lights.skip(1), anchors, view_handle),
        );
        let builders = light_pass_builders(b, lights, anchors, view_handle);
        assert(builders[0] == b1);
        assert(builders.skip(1) =~= light_pass_builders(
            b1,
            lights.skip(1),
            anchors,
            view_handle,
        ));
        assert(concat_draw_commands(builders) == draw_commands(b1) + concat_draw_commands(
            builders.skip(1),
        ));
        assert forall|k: int| 0 <= k < lights.len() implies {
            let bk = #[trigger] light_pass_builders(b, lights, anchors, view_handle)[k];
            &&& bk.depth_test == Some(Comparison::LessThanOrEqual)
            &&& bk.blend == (SourceFactor::One, DestFactor::One)
        } by {
            if k == 0 {
                assert(light_pass_builders(b, lights, anchors, view_handle)[0] == b1);
            } else {
                assert(light_pass_builders(b, lights, anchors, view_handle)[k]
                    == light_pass_builders(b1, lights.skip(1), anchors, view_handle)[k - 1]);
            }
        }
    }
}

/// How many of the registered instances carry an anchor (and are thus
/// drawn).
pub open spec fn anchored_instance_count(insts: Seq<(u64, MeshInstance)>) -> int
    decreases insts.len(),
{
    if insts.len() == 0 {
        0
    } else {
        (if insts[0].1.anchor is Some {
            1int
        } else {
            0int
        }) + anchored_instance_count(insts.skip(1))
    }
}

/// Law: drawing one anchored instance issues exactly one ambient draw plus
/// one draw per registered light.
pub proof fn lemma_instance_draw_count(r: GlRender, inst: MeshInstance, c: Camera, ca: Anchor)
    ensures
        count_draws(instance_commands(r, inst, c, ca)) == 1 + r.lights@.len(),
{
    let a = r.anchors.spec_get(inst.anchor->Some_0)->Some_0;
    let md = r.meshes.spec_get(inst.mesh)->Some_0;
    let prog = r.programs.spec_get(inst.material.shader)->Some_0.program;
    let b0 = instance_base_builder(md, prog);
    let amb = ambient_builder(r, inst, md, prog, a, ca, c);
    let m1 = map_attrib_name_commands(b0, "position"@, "vertex_position"@);
    let m2 = map_attrib_name_commands(b0, "normal"@, "vertex_normal"@);
    let m3 = map_attrib_name_commands(b0, "texcoord"@, "vertex_uv0"@);
    let lp = light_pass_commands(relaxed_builder(amb), r.lights@, r.anchors, ca.view_transform);
    lemma_map_attrib_name_no_draws(b0, "position"@, "vertex_position"@);
    lemma_map_attrib_name_no_draws(b0, "normal"@, "vertex_normal"@);
    lemma_map_attrib_name_no_draws(b0, "texcoord"@, "vertex_uv0"@);
    lemma_draw_commands_state(amb);
    lemma_light_pass_draws(relaxed_builder(amb), r.lights@, r.anchors, ca.view_transform);
    lemma_count_draws_concat(m1, m2);
    lemma_count_draws_concat(m1 + m2, m3);
    lemma_count_draws_concat(m1 + m2 + m3, draw_commands(amb));
    lemma_count_draws_concat(m1 + m2 + m3 + draw_commands(amb), lp);
}

/// Law: the instances section issues `(1 + lights)` draws per anchored
/// instance and none for instances without an anchor.
pub proof fn lemma_instances_draw_count(
    r: GlRender,
    c: Camera,
    ca: Anchor,
    insts: Seq<(u64, MeshInstance)>,
)
    ensures
        count_draws(instances_commands(r, c, ca, insts)) == anchored_instance_count(insts) * (1
            + r.lights@.len()),
    decreases insts.len(),
{
    if insts.len() == 0 {
        crate::commands::lemma_count_draws_zero(instances_commands(r, c, ca, insts));
    } else {
        lemma_instances_draw_count(r, c, ca, insts.skip(1));
        let head = (match insts[0].1.anchor {
            Some(_) => instance_commands(r, insts[0].1, c, ca),
            None => Seq::<GlCommand>::empty(),
        });
        if insts[0].1.anchor is Some {
            lemma_instance_draw_count(r, insts[0].1, c, ca);
        } else {
            crate::commands::lemma_count_draws_zero(head);
        }
        lemma_count_draws_concat(head, instances_commands(r, c, ca, insts.skip(1)));
        let n = anchored_instance_count(insts.skip(1));
        let l = r.lights@.len() as int;
        assert((1 + n) * (1 + l) == (1 + l) + n * (1 + l)) by (nonlinear_arith);
    }
}

/// Law: a frame issues exactly one ambient draw plus one draw per
/// registered light for every anchored mesh instance, and no draws at all
/// when no camera is registered.
pub proof fn lemma_frame_draw_count(r: GlRender)
    ensures
        count_draws(frame_commands(r)) == if r.cameras@.len() == 0 {
            0int
        } else {
            anchored_instance_count(r.mesh_instances@) * (1 + r.lights@.len())
        },
{
    let clear = seq![GlCommand::Clear];
    let swap = seq![GlCommand::SwapBuffers];
    assert(count_draws(Seq::<GlCommand>::empty()) == 0);
    assert(clear.drop_last() =~= Seq::<GlCommand>::empty());
    assert(count_draws(clear) == 0);
    assert(swap.drop_last() =~= Seq::<GlCommand>::empty());
    assert(count_draws(swap) == 0);
    if r.cameras@.len() == 0 {
        crate::commands::lemma_count_draws_zero(camera_commands(r));
    } else {
        let c = r.cameras@[0].1;
        let ca = r.anchors.spec_get(c.anchor->Some_0)->Some_0;
        lemma_instances_draw_count(r, c, ca, r.mesh_instances@);
    }
    lemma_count_draws_concat(clear, camera_commands(r));
    lemma_count_draws_concat(clear + camera_commands(r), swap);
}

/// Law: a texture property whose id has no registered device texture is
/// staged as the shared default texture binding, not an error.
pub proof fn lemma_texture_fallback(tid: u64, textures: Registry<GpuTexture>)
    ensures
        !textures.spec_contains(tid) ==> property_uniform_value(
            MaterialProperty::Texture(tid),
            textures,
        ) == UniformValue::Texture(TextureBinding::DefaultEmpty),
        textures.spec_contains(tid) ==> property_uniform_value(
            MaterialProperty::Texture(tid),
            textures,
        ) == UniformValue::Texture(TextureBinding::Registered(tid)),
{
}

} // verus!
