use polygon::material::{
    Color, Material, MaterialProperty, MaterialSource, PropertySource, PropertyType, Vector3,
};
use polygon::shader_gen::{generate_sources, replace_all};

fn source_with(
    properties: Vec<PropertySource>,
    vertex: Option<&str>,
    fragment: Option<&str>,
) -> MaterialSource {
    MaterialSource {
        properties,
        vertex_source: vertex.map(|s| s.to_string()),
        fragment_source: fragment.map(|s| s.to_string()),
    }
}

#[test]
fn replace_all_replaces_every_occurrence() {
    assert_eq!(replace_all("@color = @color;", "@color", "out_color"), "out_color = out_color;");
    assert_eq!(replace_all("nothing here", "@color", "x"), "nothing here");
    assert_eq!(replace_all("", "@color", "x"), "");
    // left-to-right, non-overlapping
    assert_eq!(replace_all("aaa", "aa", "b"), "ba");
}

#[test]
fn missing_fragment_source_is_a_build_error() {
    let source = source_with(vec![], None, None);
    assert!(generate_sources(&source).is_err());
}

#[test]
fn generated_source_declares_each_property_once() {
    let source = source_with(
        vec![
            PropertySource { name: "surface_color".to_string(), property_type: PropertyType::Color },
            PropertySource { name: "shininess".to_string(), property_type: PropertyType::Scalar },
        ],
        None,
        Some("@color = surface_color;"),
    );
    let sources = generate_sources(&source).unwrap();
    // exactly one declaration per property, with the mapped GLSL type
    assert_eq!(sources.vertex.matches("uniform vec4 surface_color;\n").count(), 1);
    assert_eq!(sources.vertex.matches("uniform float shininess;\n").count(), 1);
    assert_eq!(sources.fragment.matches("uniform vec4 surface_color;\n").count(), 1);
    assert_eq!(sources.fragment.matches("uniform float shininess;\n").count(), 1);
    // 17 built-in uniforms plus the two property declarations
    assert_eq!(sources.vertex.matches("uniform ").count(), 19);
    assert_eq!(sources.fragment.matches("uniform ").count(), 19);
}

#[test]
fn fragment_keywords_are_substituted() {
    let source = source_with(
        vec![],
        None,
        Some("@color = vec4(@vertex.world_normal, 1.0) + @vertex.uv0.xyxy;"),
    );
    let sources = generate_sources(&source).unwrap();
    assert!(sources.fragment.contains(
        "_fragment_color_ = vec4(_vertex_world_normal_, 1.0) + _vertex_uv0_.xyxy;"
    ));
    assert!(!sources.fragment.contains("@color"));
    assert!(!sources.fragment.contains("@vertex"));
}

#[test]
fn vertex_keywords_are_substituted_in_custom_body() {
    let source = source_with(
        vec![],
        Some("@position = model_view_projection * vertex_position;\n@vertex.normal = vertex_normal;"),
        Some("@color = vec4(1.0);"),
    );
    let sources = generate_sources(&source).unwrap();
    assert!(sources.vertex.contains("gl_Position = model_view_projection * vertex_position;"));
    assert!(sources.vertex.contains("_vertex_normal_ = vertex_normal;"));
    assert!(!sources.vertex.contains("@position"));
}

#[test]
fn default_vertex_body_is_used_when_none_is_supplied() {
    let source = source_with(vec![], None, Some("@color = vec4(1.0);"));
    let sources = generate_sources(&source).unwrap();
    assert!(sources.vertex.contains("gl_Position = model_view_projection * vertex_position;"));
    assert!(sources.vertex.contains(
        "_vertex_world_normal_ = normalize(normal_transform * vertex_normal);"
    ));
    assert!(sources.vertex.contains("void main(void) {"));
    assert!(sources.vertex.starts_with("#version 150\n"));
}

#[test]
fn material_properties_start_at_type_defaults_and_overwrite() {
    let mut material = Material::new(3);
    assert_eq!(material.shader(), 3);
    assert_eq!(material.get_property("surface_color"), None);

    material.set_color("surface_color", Color { r: 0, g: 0, b: 0, a: 0 });
    material.set_f32("shininess", 0);
    assert_eq!(
        material.get_property("surface_color"),
        Some(&MaterialProperty::Color(Color { r: 0, g: 0, b: 0, a: 0 }))
    );
    assert_eq!(material.get_property("shininess"), Some(&MaterialProperty::Scalar(0)));

    // last write wins, and other properties are untouched
    material.set_color("surface_color", Color { r: 1, g: 2, b: 3, a: 4 });
    assert_eq!(
        material.get_property("surface_color"),
        Some(&MaterialProperty::Color(Color { r: 1, g: 2, b: 3, a: 4 }))
    );
    assert_eq!(material.get_property("shininess"), Some(&MaterialProperty::Scalar(0)));

    material.set_vector3("wind", Vector3 { x: 7, y: 8, z: 9 });
    material.set_texture("albedo", 12);
    assert_eq!(
        material.get_property("wind"),
        Some(&MaterialProperty::Vector3(Vector3 { x: 7, y: 8, z: 9 }))
    );
    assert_eq!(material.get_property("albedo"), Some(&MaterialProperty::Texture(12)));
}

#[test]
fn duplicate_copies_shader_and_properties() {
    let mut material = Material::new(5);
    material.set_f32("shininess", 77);
    let copy = material.duplicate();
    assert_eq!(copy.shader(), 5);
    assert_eq!(copy.get_property("shininess"), Some(&MaterialProperty::Scalar(77)));
}
