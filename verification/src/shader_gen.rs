//! Shader source generation.
//!
//! A material's declarative property list and optional custom shader
//! bodies are turned into complete GLSL source for the vertex and fragment
//! stages: one uniform declaration per property, a fixed header of built-in
//! engine uniforms, stage-specific input/output declarations, and the body
//! with every `@`-keyword textually substituted for its internal variable
//! name.  Substitution is left-to-right and non-overlapping.

use vstd::prelude::*;

use crate::material::{BuildMaterialError, MaterialSource, PropertySource, PropertyType,
    property_sources_view};

verus! {

/// `s` with every occurrence of `pat` replaced by `rep`, scanning left to
/// right without overlap.  An empty pattern replaces nothing.
pub open spec fn replaced(s: Seq<char>, pat: Seq<char>, rep: Seq<char>) -> Seq<char>
    decreases s.len(),
{
    if pat.len() == 0 || s.len() < pat.len() {
        s
    } else if s.take(pat.len() as int) == pat {
        rep + replaced(s.skip(pat.len() as int), pat, rep)
    } else {
        seq![s[0]] + replaced(s.skip(1), pat, rep)
    }
}

/// Whether `pat` occurs in `s` starting at character position `i`.
fn matches_at(s: &str, pat: &str, i: usize) -> (r: bool)
    requires
        i + pat@.len() <= s@.len(),
    ensures
        r == (s@.subrange(i as int, i + pat@.len()) == pat@),
{
    let n = s.unicode_len();
    let m = pat.unicode_len();
    let ghost sub = s@.subrange(i as int, i + pat@.len());
    let mut j: usize = 0;
    while j < m
        invariant
            n == s@.len(),
            m == pat@.len(),
            i + m <= n,
            sub == s@.subrange(i as int, i + m),
            j <= m,
            forall|k: int| 0 <= k < j ==> s@[i + k] == pat@[k],
        decreases m - j,
    {
        if s.get_char(i + j) != pat.get_char(j) {
            proof {
                assert(sub[j as int] == s@[i + j]);
            }
            return false;
        }
        j += 1;
    }
    proof {
        assert(sub =~= pat@);
    }
    true
}

/// Replaces every occurrence of `pat` in `s` by `rep`, scanning left to
/// right without overlap.
pub fn replace_all(s: &str, pat: &str, rep: &str) -> (out: String)
    requires
        pat@.len() >= 1,
    ensures
        out@ == replaced(s@, pat@, rep@),
{
    let n = s.unicode_len();
    let m = pat.unicode_len();
    let mut out = String::new();
    let mut i: usize = 0;
    proof {
        assert(s@.skip(0) =~= s@);
    }
    while i < n
        invariant
            n == s@.len(),
            m == pat@.len(),
            m >= 1,
            i <= n,
            replaced(s@, pat@, rep@) == out@ + replaced(s@.skip(i as int), pat@, rep@),
        decreases n - i,
    {
        let ghost suf = s@.skip(i as int);
        if m <= n - i && matches_at(s, pat, i) {
            out.append(rep);
            proof {
                assert(suf.take(m as int) =~= s@.subrange(i as int, i + m));
                assert(suf.skip(m as int) =~= s@.skip(i + m));
                assert(replaced(suf, pat@, rep@) == rep@ + replaced(s@.skip(i + m), pat@, rep@));
                assert(replaced(s@, pat@, rep@) =~= out@ + replaced(s@.skip(i + m), pat@, rep@));
            }
            i = i + m;
        } else {
            let piece = s.substring_char(i, i + 1);
            out.append(piece);
            proof {
                assert(suf[0] == s@[i as int]);
                assert(piece@ =~= seq![s@[i as int]]);
                assert(suf.skip(1) =~= s@.skip(i + 1));
                if m <= suf.len() {
                    assert(suf.take(m as int) =~= s@.subrange(i as int, i + m));
                    assert(suf.take(m as int) != pat@);
                    assert(replaced(suf, pat@, rep@) == seq![suf[0]] + replaced(
                        s@.skip(i + 1),
                        pat@,
                        rep@,
                    ));
                } else {
                    assert(replaced(suf, pat@, rep@) == suf);
                    assert(s@.skip(i + 1).len() < m);
                    assert(replaced(s@.skip(i + 1), pat@, rep@) == s@.skip(i + 1));
                    assert(suf =~= seq![suf[0]] + s@.skip(i + 1));
                }
                assert(replaced(s@, pat@, rep@) =~= out@ + replaced(s@.skip(i + 1), pat@, rep@));
            }
            i = i + 1;
        }
    }
    proof {
        assert(s@.skip(n as int) =~= Seq::<char>::empty());
        assert(replaced(s@, pat@, rep@) =~= out@);
    }
    out
}

/// The GLSL type one property type maps to.
pub open spec fn glsl_type_name(t: PropertyType) -> Seq<char> {
    match t {
        PropertyType::Color => "vec4"@,
        PropertyType::Texture2d => "sampler2D"@,
        PropertyType::Scalar => "float"@,
        PropertyType::Vector3 => "vec3"@,
    }
}

/// One `uniform <glsl-type> <name>;` line per declared property, in
/// declaration order.
pub open spec fn uniform_declarations(props: Seq<(Seq<char>, PropertyType)>) -> Seq<char>
    decreases props.len(),
{
    if props.len() == 0 {
        Seq::<char>::empty()
    } else {
        uniform_declarations(props.drop_last()) + "uniform "@ + glsl_type_name(props.last().1)
            + " "@ + props.last().0 + ";\n"@
    }
}

/// Emits the uniform declaration block for a property list.
pub fn generate_uniform_declarations(properties: &Vec<PropertySource>) -> (out: String)
    ensures
        out@ == uniform_declarations(property_sources_view(properties@)),
{
    let ghost v = property_sources_view(properties@);
    let mut out = String::new();
    let n = properties.len();
    let mut i: usize = 0;
    proof {
        assert(v.take(0) =~= Seq::<(Seq<char>, PropertyType)>::empty());
    }
    while i < n
        invariant
            v == property_sources_view(properties@),
            n == properties@.len(),
            v.len() == n,
            i <= n,
            out@ == uniform_declarations(v.take(i as int)),
        decreases n - i,
    {
        out.append("uniform ");
        match properties[i].property_type {
            PropertyType::Color => out.append("vec4"),
            PropertyType::Texture2d => out.append("sampler2D"),
            PropertyType::Scalar => out.append("float"),
            PropertyType::Vector3 => out.append("vec3"),
        }
        out.append(" ");
        out.append(properties[i].name.as_str());
        out.append(";\n");
        proof {
            assert(v.take(i + 1).drop_last() =~= v.take(i as int));
            assert(v.take(i + 1).last() == v[i as int]);
            assert(out@ =~= uniform_declarations(v.take(i + 1)));
        }
        i += 1;
    }
    proof {
        assert(v.take(n as int) =~= v);
    }
    out
}

/// The fallback vertex stage body used when a material supplies none: it
/// passes position, normal, and uv through and computes world- and
/// view-space position and normal.
pub open spec fn default_vertex_body() -> Seq<char> {
    "@position = model_view_projection * vertex_position;\n@vertex.position = vertex_position;\n@vertex.normal = vertex_normal;\n@vertex.uv0 = vertex_uv0;\n@vertex.world_position = model_transform * vertex_position;\n@vertex.world_normal = normalize(normal_transform * vertex_normal);\n@vertex.view_position = model_view_transform * vertex_position;\n@vertex.view_normal = normalize(view_normal_transform * vertex_normal);\n"@
}

/// A vertex body with every vertex-stage keyword substituted.
pub open spec fn vertex_keywords_replaced(body: Seq<char>) -> Seq<char> {
    replaced(
        replaced(
            replaced(
                replaced(
                    replaced(
                        replaced(
                            replaced(
                                replaced(body, "@position"@, "gl_Position"@),
                                "@vertex.position"@,
                                "_vertex_position_"@,
                            ),
                            "@vertex.normal"@,
                            "_vertex_normal_"@,
                        ),
                        "@vertex.uv0"@,
                        "_vertex_uv0_"@,
                    ),
                    "@vertex.world_position"@,
                    "_vertex_world_position_"@,
                ),
                "@vertex.world_normal"@,
                "_vertex_world_normal_"@,
            ),
            "@vertex.view_position"@,
            "_vertex_view_position_"@,
        ),
        "@vertex.view_normal"@,
        "_vertex_view_normal_"@,
    )
}

/// A fragment body with every fragment-stage keyword substituted.
pub open spec fn fragment_keywords_replaced(body: Seq<char>) -> Seq<char> {
    replaced(
        replaced(
            replaced(
                replaced(
                    replaced(
                        replaced(
                            replaced(
                                replaced(body, "@color"@, "_fragment_color_"@),
                                "@vertex.position"@,
                                "_vertex_position_"@,
                            ),
                            "@vertex.normal"@,
                            "_vertex_normal_"@,
                        ),
                        "@vertex.uv0"@,
                        "_vertex_uv0_"@,
                    ),
                    "@vertex.world_position"@,
                    "_vertex_world_position_"@,
                ),
                "@vertex.world_normal"@,
                "_vertex_world_normal_"@,
            ),
            "@vertex.view_position"@,
            "_vertex_view_position_"@,
        ),
        "@vertex.view_normal"@,
        "_vertex_view_normal_"@,
    )
}

/// Substitutes the vertex-stage keywords in `body`.
pub fn replace_vertex_keywords(body: &str) -> (out: String)
    ensures
        out@ == vertex_keywords_replaced(body@),
{
    proof {
        reveal_strlit("@position");
        reveal_strlit("@vertex.position");
        reveal_strlit("@vertex.normal");
        reveal_strlit("@vertex.uv0");
        reveal_strlit("@vertex.world_position");
        reveal_strlit("@vertex.world_normal");
        reveal_strlit("@vertex.view_position");
        reveal_strlit("@vertex.view_normal");
    }
    let s1 = replace_all(body, "@position", "gl_Position");
    let s2 = replace_all(s1.as_str(), "@vertex.position", "_vertex_position_");
    let s3 = replace_all(s2.as_str(), "@vertex.normal", "_vertex_normal_");
    let s4 = replace_all(s3.as_str(), "@vertex.uv0", "_vertex_uv0_");
    let s5 = replace_all(s4.as_str(), "@vertex.world_position", "_vertex_world_position_");
    let s6 = replace_all(s5.as_str(), "@vertex.world_normal", "_vertex_world_normal_");
    let s7 = replace_all(s6.as_str(), "@vertex.view_position", "_vertex_view_position_");
    replace_all(s7.as_str(), "@vertex.view_normal", "_vertex_view_normal_")
}

/// Substitutes the fragment-stage keywords in `body`.
pub fn replace_fragment_keywords(body: &str) -> (out: String)
    ensures
        out@ == fragment_keywords_replaced(body@),
{
    proof {
        reveal_strlit("@color");
        reveal_strlit("@vertex.position");
        reveal_strlit("@vertex.normal");
        reveal_strlit("@vertex.uv0");
        reveal_strlit("@vertex.world_position");
        reveal_strlit("@vertex.world_normal");
        reveal_strlit("@vertex.view_position");
        reveal_strlit("@vertex.view_normal");
    }
    let s1 = replace_all(body, "@color", "_fragment_color_");
    let s2 = replace_all(s1.as_str(), "@vertex.position", "_vertex_position_");
    let s3 = replace_all(s2.as_str(), "@vertex.normal", "_vertex_normal_");
    let s4 = replace_all(s3.as_str(), "@vertex.uv0", "_vertex_uv0_");
    let s5 = replace_all(s4.as_str(), "@vertex.world_position", "_vertex_world_position_");
    let s6 = replace_all(s5.as_str(), "@vertex.world_normal", "_vertex_world_normal_");
    let s7 = replace_all(s6.as_str(), "@vertex.view_position", "_vertex_view_position_");
    replace_all(s7.as_str(), "@vertex.view_normal", "_vertex_view_normal_")
}

/// The version directive and the fixed block of built-in engine uniforms
/// shared by both stages.
pub open spec fn shader_header() -> Seq<char> {
    "#version 150\n\nuniform mat4 model_transform;\nuniform mat3 normal_transform;\nuniform mat4 view_transform;\nuniform mat3 view_normal_transform;\nuniform mat4 model_view_transform;\nuniform mat4 projection_transform;\nuniform mat4 model_view_projection;\n\nuniform vec4 global_ambient;\nuniform vec4 camera_position;\nuniform vec4 light_position;\nuniform vec4 light_position_view;\nuniform float light_strength;\nuniform vec4 light_color;\nuniform int light_type;\nuniform float light_radius;\nuniform vec3 light_direction;\nuniform vec3 light_direction_view;\n\n"@
}

/// The vertex stage's input and pass-through output declarations, up to
/// the opening of `main`.
pub open spec fn vertex_io_block() -> Seq<char> {
    "\nin vec4 vertex_position;\nin vec3 vertex_normal;\nin vec2 vertex_uv0;\n\nout vec4 _vertex_position_;\nout vec3 _vertex_normal_;\nout vec2 _vertex_uv0_;\nout vec4 _vertex_world_position_;\nout vec3 _vertex_world_normal_;\nout vec4 _vertex_view_position_;\nout vec3 _vertex_view_normal_;\n\nvoid main(void) {\n"@
}

/// The fragment stage's input declarations, color output, and the opening
/// of `main`.
pub open spec fn fragment_io_block() -> Seq<char> {
    "\nin vec4 _vertex_position_;\nin vec3 _vertex_normal_;\nin vec2 _vertex_uv0_;\nin vec4 _vertex_world_position_;\nin vec3 _vertex_world_normal_;\nin vec4 _vertex_view_position_;\nin vec3 _vertex_view_normal_;\n\nout vec4 _fragment_color_;\n\nvoid main(void) {\n"@
}

/// The closing of `main`.
pub open spec fn main_close() -> Seq<char> {
    "\n}\n"@
}

/// The vertex stage body a source compiles: the supplied body, or the
/// default pass-through body when none is supplied.
pub open spec fn vertex_body_of(src: MaterialSource) -> Seq<char> {
    match src.vertex_source {
        Some(body) => body@,
        None => default_vertex_body(),
    }
}

/// The complete generated vertex stage source.
pub open spec fn generated_vertex_source(src: MaterialSource) -> Seq<char> {
    shader_header() + uniform_declarations(property_sources_view(src.properties@))
        + vertex_io_block() + vertex_keywords_replaced(vertex_body_of(src)) + main_close()
}

/// The complete generated fragment stage source.  Meaningful only when the
/// source supplies a fragment body.
pub open spec fn generated_fragment_source(src: MaterialSource) -> Seq<char> {
    shader_header() + uniform_declarations(property_sources_view(src.properties@))
        + fragment_io_block() + fragment_keywords_replaced(src.fragment_source->Some_0@)
        + main_close()
}

/// The generated GLSL for both stages of one material.
pub struct ShaderSources {
    pub vertex: String,
    pub fragment: String,
}

/// Generates complete vertex and fragment stage sources for a material
/// source.  Fails exactly when no fragment body is supplied; a missing
/// vertex body falls back to the default pass-through stage.
pub fn generate_sources(source: &MaterialSource) -> (r: Result<ShaderSources, BuildMaterialError>)
    ensures
        r is Ok <==> source.fragment_source is Some,
        r is Ok ==> r->Ok_0.vertex@ == generated_vertex_source(*source),
        r is Ok ==> r->Ok_0.fragment@ == generated_fragment_source(*source),
{
    let fragment_body: &String = match &source.fragment_source {
        Some(body) => body,
        None => {
            return Err(BuildMaterialError);
        },
    };
    let declarations = generate_uniform_declarations(&source.properties);

    let mut vertex = String::new();
    vertex.append(
        "#version 150\n\nuniform mat4 model_transform;\nuniform mat3 normal_transform;\nuniform mat4 view_transform;\nuniform mat3 view_normal_transform;\nuniform mat4 model_view_transform;\nuniform mat4 projection_transform;\nuniform mat4 model_view_projection;\n\nuniform vec4 global_ambient;\nuniform vec4 camera_position;\nuniform vec4 light_position;\nuniform vec4 light_position_view;\nuniform float light_strength;\nuniform vec4 light_color;\nuniform int light_type;\nuniform float light_radius;\nuniform vec3 light_direction;\nuniform vec3 light_direction_view;\n\n",
    );
    vertex.append(declarations.as_str());
    vertex.append(
        "\nin vec4 vertex_position;\nin vec3 vertex_normal;\nin vec2 vertex_uv0;\n\nout vec4 _vertex_position_;\nout vec3 _vertex_normal_;\nout vec2 _vertex_uv0_;\nout vec4 _vertex_world_position_;\nout vec3 _vertex_world_normal_;\nout vec4 _vertex_view_position_;\nout vec3 _vertex_view_normal_;\n\nvoid main(void) {\n",
    );
    let vertex_body = match &source.vertex_source {
        Some(body) => replace_vertex_keywords(body.as_str()),
        None => replace_vertex_keywords(
            "@position = model_view_projection * vertex_position;\n@vertex.position = vertex_position;\n@vertex.normal = vertex_normal;\n@vertex.uv0 = vertex_uv0;\n@vertex.world_position = model_transform * vertex_position;\n@vertex.world_normal = normalize(normal_transform * vertex_normal);\n@vertex.view_position = model_view_transform * vertex_position;\n@vertex.view_normal = normalize(view_normal_transform * vertex_normal);\n",
        ),
    };
    vertex.append(vertex_body.as_str());
    vertex.append("\n}\n");

    let mut fragment = String::new();
    fragment.append(
        "#version 150\n\nuniform mat4 model_transform;\nuniform mat3 normal_transform;\nuniform mat4 view_transform;\nuniform mat3 view_normal_transform;\nuniform mat4 model_view_transform;\nuniform mat4 projection_transform;\nuniform mat4 model_view_projection;\n\nuniform vec4 global_ambient;\nuniform vec4 camera_position;\nuniform vec4 light_position;\nuniform vec4 light_position_view;\nuniform float light_strength;\nuniform vec4 light_color;\nuniform int light_type;\nuniform float light_radius;\nuniform vec3 light_direction;\nuniform vec3 light_direction_view;\n\n",
    );
    fragment.append(declarations.as_str());
    fragment.append(
        "\nin vec4 _vertex_position_;\nin vec3 _vertex_normal_;\nin vec2 _vertex_uv0_;\nin vec4 _vertex_world_position_;\nin vec3 _vertex_world_normal_;\nin vec4 _vertex_view_position_;\nin vec3 _vertex_view_normal_;\n\nout vec4 _fragment_color_;\n\nvoid main(void) {\n",
    );
    let fragment_replaced = replace_fragment_keywords(fragment_body.as_str());
    fragment.append(fragment_replaced.as_str());
    fragment.append("\n}\n");

    proof {
        assert(vertex@ =~= generated_vertex_source(*source));
        assert(fragment@ =~= generated_fragment_source(*source));
    }
    Ok(ShaderSources { vertex, fragment })
}

} // verus!
