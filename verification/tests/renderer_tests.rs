use polygon::commands::{Comparison, DestFactor, GlCommand, SourceFactor, TextureBinding};
use polygon::material::{
    Color, MaterialProperty, MaterialSource, PropertySource, PropertyType, Vector3,
};
use polygon::renderer::GlRender;
use polygon::scene::{
    Anchor, Camera, DataFormat, Light, LightData, Mesh, MeshInstance, Point, Texture2d,
    TextureData, TextureFormat, TextureInternalFormat, VertexAttribute,
};

fn default_source() -> MaterialSource {
    MaterialSource {
        properties: vec![
            PropertySource {
                name: "surface_color".to_string(),
                property_type: PropertyType::Color,
            },
            PropertySource { name: "shininess".to_string(), property_type: PropertyType::Scalar },
        ],
        vertex_source: None,
        fragment_source: Some("@color = surface_color;".to_string()),
    }
}

fn test_anchor(seed: u64) -> Anchor {
    Anchor {
        transform: seed,
        normal_transform: seed + 1,
        view_transform: seed + 2,
        inverse_view_transform: seed + 3,
        position: Point { x: 1, y: 2, z: 3, w: 4 },
    }
}

fn test_mesh() -> Mesh {
    Mesh {
        vertex_data: (0..32u32).collect(),
        position: VertexAttribute { elements: 4, stride: 4, offset: 0 },
        normal: None,
        texcoord: vec![],
        indices: vec![0, 1, 2, 2, 3, 0],
    }
}

fn count_draws(cmds: &[GlCommand]) -> usize {
    cmds.iter()
        .filter(|c| matches!(c, GlCommand::DrawElements { .. } | GlCommand::DrawArrays { .. }))
        .count()
}

/// One renderer with one camera, one mesh, and one anchored instance of the
/// default material.
fn scene() -> GlRender {
    let mut renderer = GlRender::new(default_source()).unwrap();
    let camera_anchor = renderer.register_anchor(test_anchor(100));
    renderer.register_camera(Camera { anchor: Some(camera_anchor), projection_transform: 300 });
    let mesh = renderer.register_mesh(&test_mesh());
    let instance_anchor = renderer.register_anchor(test_anchor(200));
    let mut instance = MeshInstance::new(mesh, renderer.default_material());
    instance.anchor = Some(instance_anchor);
    renderer.register_mesh_instance(instance);
    renderer
}

#[test]
fn renderer_ids_are_distinct_and_increasing() {
    let mut renderer = GlRender::new(default_source()).unwrap();
    let a = renderer.register_anchor(test_anchor(1));
    let b = renderer.register_anchor(test_anchor(2));
    let c = renderer.register_anchor(test_anchor(3));
    assert!(a < b && b < c);
    let m1 = renderer.register_material(renderer.default_material());
    let m2 = renderer.register_material(renderer.default_material());
    assert!(m1 < m2);
    assert!(renderer.get_anchor(a).is_some());
    assert!(renderer.get_material(m1).is_some());
    assert!(renderer.get_material(m2 + 1).is_none());
}

#[test]
fn built_material_starts_at_type_defaults() {
    let mut renderer = GlRender::new(default_source()).unwrap();
    let material = renderer
        .build_material(MaterialSource {
            properties: vec![
                PropertySource {
                    name: "surface_color".to_string(),
                    property_type: PropertyType::Color,
                },
                PropertySource {
                    name: "shininess".to_string(),
                    property_type: PropertyType::Scalar,
                },
                PropertySource { name: "albedo".to_string(), property_type: PropertyType::Texture2d },
                PropertySource { name: "wind".to_string(), property_type: PropertyType::Vector3 },
            ],
            vertex_source: None,
            fragment_source: Some("@color = surface_color;".to_string()),
        })
        .unwrap();
    assert_eq!(
        material.get_property("surface_color"),
        Some(&MaterialProperty::Color(Color { r: 0, g: 0, b: 0, a: 0 }))
    );
    assert_eq!(material.get_property("shininess"), Some(&MaterialProperty::Scalar(0)));
    assert_eq!(material.get_property("albedo"), Some(&MaterialProperty::Texture(0)));
    assert_eq!(
        material.get_property("wind"),
        Some(&MaterialProperty::Vector3(Vector3 { x: 0, y: 0, z: 0 }))
    );
}

#[test]
fn build_material_without_fragment_source_fails() {
    let mut renderer = GlRender::new(default_source()).unwrap();
    let result = renderer.build_material(MaterialSource {
        properties: vec![],
        vertex_source: None,
        fragment_source: None,
    });
    assert!(result.is_err());
}

#[test]
fn frame_with_one_instance_and_no_lights_draws_once() {
    let renderer = scene();
    let cmds = renderer.draw();
    assert_eq!(count_draws(&cmds), 1);
    assert_eq!(cmds.first(), Some(&GlCommand::Clear));
    assert_eq!(cmds.last(), Some(&GlCommand::SwapBuffers));
}

#[test]
fn each_light_adds_one_relaxed_additive_draw() {
    let mut renderer = scene();
    let light_anchor = renderer.register_anchor(test_anchor(400));
    renderer.register_light(Light {
        anchor: Some(light_anchor),
        color: Color { r: 1, g: 1, b: 1, a: 1 },
        strength: 2,
        data: LightData::Point { radius: 3 },
    });
    renderer.register_light(Light {
        anchor: None,
        color: Color { r: 1, g: 1, b: 1, a: 1 },
        strength: 2,
        data: LightData::Directional { direction: Vector3 { x: 1, y: 0, z: 0 } },
    });
    let cmds = renderer.draw();
    assert_eq!(count_draws(&cmds), 3);

    // every draw after the first is issued with the depth test relaxed to
    // less-or-equal and additive blending
    let mut last_depth = None;
    let mut last_blend = None;
    let mut draws_seen = 0;
    for cmd in &cmds {
        match cmd {
            GlCommand::SetDepthFunction(comparison) => last_depth = Some(*comparison),
            GlCommand::SetBlend(s, d) => last_blend = Some((*s, *d)),
            GlCommand::DrawElements { .. } | GlCommand::DrawArrays { .. } => {
                draws_seen += 1;
                if draws_seen == 1 {
                    assert_eq!(last_depth, Some(Comparison::Less));
                } else {
                    assert_eq!(last_depth, Some(Comparison::LessThanOrEqual));
                    assert_eq!(last_blend, Some((SourceFactor::One, DestFactor::One)));
                }
            },
            _ => {},
        }
    }
    assert_eq!(draws_seen, 3);
}

#[test]
fn instance_without_anchor_is_skipped() {
    let mut renderer = scene();
    let mesh = renderer.register_mesh(&test_mesh());
    let unanchored = MeshInstance::new(mesh, renderer.default_material());
    renderer.register_mesh_instance(unanchored);
    let cmds = renderer.draw();
    assert_eq!(count_draws(&cmds), 1);
}

#[test]
fn frame_without_camera_draws_nothing() {
    let mut renderer = GlRender::new(default_source()).unwrap();
    let mesh = renderer.register_mesh(&test_mesh());
    let anchor = renderer.register_anchor(test_anchor(10));
    let mut instance = MeshInstance::new(mesh, renderer.default_material());
    instance.anchor = Some(anchor);
    renderer.register_mesh_instance(instance);
    let cmds = renderer.draw();
    assert_eq!(cmds, vec![GlCommand::Clear, GlCommand::SwapBuffers]);
}

#[test]
fn unregistered_texture_property_falls_back_to_default() {
    let mut renderer = GlRender::new(default_source()).unwrap();
    let material = renderer
        .build_material(MaterialSource {
            properties: vec![PropertySource {
                name: "albedo".to_string(),
                property_type: PropertyType::Texture2d,
            }],
            vertex_source: None,
            fragment_source: Some("@color = vec4(1.0);".to_string()),
        })
        .unwrap();
    let camera_anchor = renderer.register_anchor(test_anchor(100));
    renderer.register_camera(Camera { anchor: Some(camera_anchor), projection_transform: 300 });
    let mesh = renderer.register_mesh(&test_mesh());
    let instance_anchor = renderer.register_anchor(test_anchor(200));
    let mut instance = MeshInstance::new(mesh, material);
    instance.anchor = Some(instance_anchor);
    renderer.register_mesh_instance(instance);

    let cmds = renderer.draw();
    assert_eq!(count_draws(&cmds), 1);
    assert!(cmds.contains(&GlCommand::BindTexture(TextureBinding::DefaultEmpty)));
    assert!(!cmds.iter().any(|c| matches!(c, GlCommand::BindTexture(TextureBinding::Registered(_)))));
}

#[test]
fn registered_texture_property_binds_that_texture() {
    let mut renderer = GlRender::new(default_source()).unwrap();
    let texture = renderer.register_texture(Texture2d {
        format: DataFormat::Rgba,
        width: 2,
        height: 2,
        data: TextureData::BytesRgba(vec![0; 16]),
    });
    let mut material = renderer
        .build_material(MaterialSource {
            properties: vec![PropertySource {
                name: "albedo".to_string(),
                property_type: PropertyType::Texture2d,
            }],
            vertex_source: None,
            fragment_source: Some("@color = vec4(1.0);".to_string()),
        })
        .unwrap();
    material.set_texture("albedo", texture);
    let camera_anchor = renderer.register_anchor(test_anchor(100));
    renderer.register_camera(Camera { anchor: Some(camera_anchor), projection_transform: 300 });
    let mesh = renderer.register_mesh(&test_mesh());
    let instance_anchor = renderer.register_anchor(test_anchor(200));
    let mut instance = MeshInstance::new(mesh, material);
    instance.anchor = Some(instance_anchor);
    renderer.register_mesh_instance(instance);

    let cmds = renderer.draw();
    assert!(cmds.contains(&GlCommand::BindTexture(TextureBinding::Registered(texture))));
}

#[test]
fn register_texture_resolves_upload_formats() {
    let mut renderer = GlRender::new(default_source()).unwrap();
    let cases = [
        (DataFormat::Rgb, TextureFormat::Rgb, TextureInternalFormat::Rgb),
        (DataFormat::Rgba, TextureFormat::Rgba, TextureInternalFormat::Rgba),
        (DataFormat::Bgr, TextureFormat::Bgr, TextureInternalFormat::Rgb),
        (DataFormat::Bgra, TextureFormat::Bgra, TextureInternalFormat::Rgba),
    ];
    for (data_format, expected_format, expected_internal) in cases {
        let id = renderer.register_texture(Texture2d {
            format: data_format,
            width: 1,
            height: 1,
            data: TextureData::Bytes(vec![0, 0, 0, 0]),
        });
        let stored = renderer.textures.get(id).unwrap();
        assert_eq!(stored.format, expected_format);
        assert_eq!(stored.internal_format, expected_internal);
    }
}

#[test]
fn register_mesh_records_layout_and_indices() {
    let mut renderer = GlRender::new(default_source()).unwrap();
    let mesh = Mesh {
        vertex_data: (0..36u32).collect(),
        position: VertexAttribute { elements: 4, stride: 9, offset: 0 },
        normal: Some(VertexAttribute { elements: 3, stride: 9, offset: 4 }),
        texcoord: vec![VertexAttribute { elements: 2, stride: 9, offset: 7 }],
        indices: vec![0, 1, 2],
    };
    let id = renderer.register_mesh(&mesh);
    let data = renderer.meshes.get(id).unwrap();
    assert_eq!(data.vertex_array.name, id);
    assert_eq!(data.element_count, 3);
    let buffer = &data.vertex_array.vertex_buffer;
    assert_eq!(
        buffer.attrib("position"),
        Some(&polygon::layout::AttribLayout { elements: 4, stride: 9, offset: 0 })
    );
    assert_eq!(
        buffer.attrib("normal"),
        Some(&polygon::layout::AttribLayout { elements: 3, stride: 9, offset: 4 })
    );
    assert_eq!(
        buffer.attrib("texcoord"),
        Some(&polygon::layout::AttribLayout { elements: 2, stride: 9, offset: 7 })
    );
    // the last attribute set determines the element count: (36 - 7) / 2 + 9
    assert_eq!(buffer.element_len, 23);
    assert_eq!(data.vertex_array.index_buffer.as_ref().unwrap().data, vec![0, 1, 2]);
}

#[test]
fn ambient_light_is_settable() {
    let mut renderer = scene();
    renderer.set_ambient_light(Color { r: 10, g: 20, b: 30, a: 40 });
    assert_eq!(renderer.ambient_color, Color { r: 10, g: 20, b: 30, a: 40 });
}

#[test]
fn get_mut_accessors_update_scene_state() {
    let mut renderer = scene();
    let anchor_id = renderer.register_anchor(test_anchor(500));
    if let Some(anchor) = renderer.get_anchor_mut(anchor_id) {
        anchor.transform = 999;
    }
    assert_eq!(renderer.get_anchor(anchor_id).unwrap().transform, 999);

    let camera_id = renderer.register_camera(Camera { anchor: None, projection_transform: 1 });
    if let Some(camera) = renderer.get_camera_mut(camera_id) {
        camera.projection_transform = 2;
    }
    assert_eq!(renderer.get_camera(camera_id).unwrap().projection_transform, 2);

    let light_id = renderer.register_light(Light {
        anchor: None,
        color: Color { r: 0, g: 0, b: 0, a: 0 },
        strength: 0,
        data: LightData::Directional { direction: Vector3 { x: 0, y: 0, z: 1 } },
    });
    if let Some(light) = renderer.get_light_mut(light_id) {
        light.strength = 5;
    }
    assert_eq!(renderer.get_light(light_id).unwrap().strength, 5);
}
