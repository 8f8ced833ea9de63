use polygon::commands::{
    Comparison, DestFactor, DrawMode, Face, GlCommand, GlMatrix, MatrixData, PolygonMode,
    SourceFactor, TextureBinding, UniformValue, WindingOrder,
};
use polygon::draw_builder::DrawBuilder;
use polygon::layout::{AttribLayout, IndexBuffer, VertexArray, VertexBuffer};
use polygon::program::Program;

fn test_array() -> VertexArray {
    let mut buffer = VertexBuffer::new();
    let data: Vec<u32> = (0..24u32).collect();
    buffer.set_data_f32(&data);
    // (24 - 0) / 4 + 4 = 10
    buffer.set_attrib_f32("position", AttribLayout { elements: 4, stride: 4, offset: 0 });
    VertexArray::new(1, buffer)
}

fn test_program() -> Program {
    Program::new(
        7,
        vec![("vertex_position".to_string(), 0)],
        vec![("color".to_string(), 3), ("strength".to_string(), 4)],
    )
}

#[test]
fn uniform_with_unknown_name_is_ignored() {
    let array = test_array();
    let program = test_program();
    let mut builder = DrawBuilder::new(&array, DrawMode::Triangles);
    builder.program(&program);
    builder.uniform("color", UniformValue::F32(17));
    let staged_before = builder.uniforms.clone();
    builder.uniform("no_such_uniform", UniformValue::F32(99));
    assert_eq!(builder.uniforms, staged_before);
}

#[test]
fn uniform_overwrites_by_resolved_location() {
    let array = test_array();
    let program = test_program();
    let mut builder = DrawBuilder::new(&array, DrawMode::Triangles);
    builder.program(&program);
    builder.uniform("color", UniformValue::F32(1));
    builder.uniform("strength", UniformValue::F32(2));
    builder.uniform("color", UniformValue::F32(3));
    assert_eq!(
        builder.uniforms,
        vec![(3, UniformValue::F32(3)), (4, UniformValue::F32(2))]
    );
}

#[test]
fn map_attrib_name_with_unknown_names_is_silent() {
    let array = test_array();
    let program = test_program();
    let mut builder = DrawBuilder::new(&array, DrawMode::Triangles);
    builder.program(&program);
    // the program has no such input
    assert_eq!(builder.map_attrib_name("position", "no_such_input"), vec![]);
    // the buffer has no such attribute
    assert_eq!(builder.map_attrib_name("no_such_attrib", "vertex_position"), vec![]);
}

#[test]
fn map_attrib_name_binds_known_names() {
    let array = test_array();
    let program = test_program();
    let mut builder = DrawBuilder::new(&array, DrawMode::Triangles);
    builder.program(&program);
    let cmds = builder.map_attrib_name("position", "vertex_position");
    assert_eq!(
        cmds,
        vec![
            GlCommand::BindVertexArray(1),
            GlCommand::EnableVertexAttribArray(0),
            GlCommand::VertexAttribPointer { location: 0, elements: 4, stride: 4, offset: 0 },
        ]
    );
}

#[test]
fn map_attrib_location_binds_the_layout() {
    let array = test_array();
    let builder = DrawBuilder::new(&array, DrawMode::Triangles);
    let cmds = builder.map_attrib_location("position", 5);
    assert_eq!(
        cmds,
        vec![
            GlCommand::BindVertexArray(1),
            GlCommand::EnableVertexAttribArray(5),
            GlCommand::VertexAttribPointer { location: 5, elements: 4, stride: 4, offset: 0 },
        ]
    );
}

#[test]
fn draw_emits_configured_state_and_one_draw() {
    let array = test_array();
    let program = test_program();
    let mut builder = DrawBuilder::new(&array, DrawMode::Triangles);
    builder.program(&program);
    builder.polygon_mode(PolygonMode::Line);
    builder.cull(Face::Back);
    builder.winding(WindingOrder::Clockwise);
    builder.depth_test(Comparison::Less);
    builder.blend(SourceFactor::One, DestFactor::One);
    builder.uniform("color", UniformValue::F32(41));
    let cmds = builder.draw();
    assert_eq!(
        cmds,
        vec![
            GlCommand::SetPolygonMode(PolygonMode::Line),
            GlCommand::UseProgram(Some(7)),
            GlCommand::EnableCull(true),
            GlCommand::SetCullFace(Face::Back),
            GlCommand::SetWindingOrder(WindingOrder::Clockwise),
            GlCommand::EnableDepthTest(true),
            GlCommand::SetDepthFunction(Comparison::Less),
            GlCommand::SetBlend(SourceFactor::One, DestFactor::One),
            GlCommand::SetUniform { location: 3, value: UniformValue::F32(41) },
            GlCommand::BindVertexArray(1),
            GlCommand::DrawArrays { mode: DrawMode::Triangles, count: 10 },
        ]
    );
}

#[test]
fn draw_defaults_and_indexed_draw() {
    let mut buffer = VertexBuffer::new();
    buffer.set_data_f32(&[0; 16]);
    let mut indices = IndexBuffer::new();
    indices.set_data_u32(&[0, 1, 2, 0, 2, 3]);
    let array = VertexArray::with_index_buffer(2, buffer, indices);
    let builder = DrawBuilder::new(&array, DrawMode::Lines);
    let cmds = builder.draw();
    assert_eq!(
        cmds,
        vec![
            GlCommand::SetPolygonMode(PolygonMode::Fill),
            GlCommand::UseProgram(None),
            GlCommand::EnableCull(false),
            GlCommand::EnableDepthTest(false),
            GlCommand::SetBlend(SourceFactor::One, DestFactor::Zero),
            GlCommand::BindVertexArray(2),
            GlCommand::DrawElements { mode: DrawMode::Lines, count: 6 },
        ]
    );
}

#[test]
fn texture_uniforms_take_sequential_units() {
    let array = test_array();
    let program = Program::new(
        8,
        vec![],
        vec![
            ("albedo".to_string(), 0),
            ("detail".to_string(), 1),
            ("gloss".to_string(), 2),
        ],
    );
    let mut builder = DrawBuilder::new(&array, DrawMode::Triangles);
    builder.program(&program);
    builder.uniform("albedo", UniformValue::Texture(TextureBinding::Registered(40)));
    builder.uniform("gloss", UniformValue::F32(9));
    builder.uniform("detail", UniformValue::Texture(TextureBinding::DefaultEmpty));
    let cmds = builder.draw();
    let expected_uniforms = vec![
        GlCommand::SetActiveTexture(0),
        GlCommand::BindTexture(TextureBinding::Registered(40)),
        GlCommand::SetUniform { location: 0, value: UniformValue::I32(0) },
        GlCommand::SetUniform { location: 2, value: UniformValue::F32(9) },
        GlCommand::SetActiveTexture(1),
        GlCommand::BindTexture(TextureBinding::DefaultEmpty),
        GlCommand::SetUniform { location: 1, value: UniformValue::I32(1) },
    ];
    // the uniform block sits between SetBlend and BindVertexArray
    let start = cmds.iter().position(|c| matches!(c, GlCommand::SetBlend(_, _))).unwrap() + 1;
    let end = cmds.iter().position(|c| matches!(c, GlCommand::BindVertexArray(_))).unwrap();
    assert_eq!(&cmds[start..end], &expected_uniforms[..]);
}

#[test]
fn matrix_uniform_payloads_survive_staging() {
    let array = test_array();
    let program = test_program();
    let mut builder = DrawBuilder::new(&array, DrawMode::Triangles);
    builder.program(&program);
    let matrix = UniformValue::Matrix(GlMatrix {
        data: MatrixData::Raw3([1, 2, 3, 4, 5, 6, 7, 8, 9]),
        transpose: true,
    });
    builder.uniform("color", matrix);
    let cmds = builder.draw();
    assert!(cmds.contains(&GlCommand::SetUniform { location: 3, value: matrix }));
}
