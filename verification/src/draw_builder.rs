//! Per-draw configuration.
//!
//! A `DrawBuilder` is an ephemeral object configured for exactly one draw
//! call's worth of state: topology, fill mode, program, culling, depth
//! test, blending, and a staged uniform map keyed by resolved uniform
//! location.  Configuration methods only mutate builder state; the two
//! attribute-binding operations and `draw` itself return the device
//! commands they issue.
//!
//! Mapping a uniform or attribute by name is a deliberate best-effort
//! operation: a name the program or buffer does not know is silently
//! skipped, so one material skeleton can serve meshes and programs whose
//! attribute and uniform sets only partially overlap.  Binding an attribute
//! to an explicit location, by contrast, demands that the attribute exists.

use vstd::prelude::*;

use crate::assoc::{keyed_get, keyed_put, keyed_insert_u32};
use crate::commands::{
    Comparison, DestFactor, DrawMode, Face, GlCommand, PolygonMode, SourceFactor, UniformValue,
    WindingOrder, count_draws, is_draw_call, lemma_count_draws_concat, lemma_count_draws_zero,
};
use crate::layout::{AttribLayout, VertexArray};
use crate::program::Program;

verus! {

/// The abstract state of a draw builder: the referenced values and the
/// staged uniform map as a sequence.
#[verifier::ext_equal]
pub ghost struct BuilderView {
    pub vertex_array: VertexArray,
    pub draw_mode: DrawMode,
    pub polygon_mode: Option<PolygonMode>,
    pub program: Option<Program>,
    pub cull: Option<Face>,
    pub depth_test: Option<Comparison>,
    pub winding_order: WindingOrder,
    pub blend: (SourceFactor, DestFactor),
    pub uniforms: Seq<(u32, UniformValue)>,
}

/// A configuration object for one draw call.
pub struct DrawBuilder<'a> {
    pub vertex_array: &'a VertexArray,
    pub draw_mode: DrawMode,
    pub polygon_mode: Option<PolygonMode>,
    pub program: Option<&'a Program>,
    pub cull: Option<Face>,
    pub depth_test: Option<Comparison>,
    pub winding_order: WindingOrder,
    pub blend: (SourceFactor, DestFactor),
    pub uniforms: Vec<(u32, UniformValue)>,
}

impl<'a> View for DrawBuilder<'a> {
    type V = BuilderView;

    open spec fn view(&self) -> BuilderView {
        BuilderView {
            vertex_array: *self.vertex_array,
            draw_mode: self.draw_mode,
            polygon_mode: self.polygon_mode,
            program: match self.program {
                Some(p) => Some(*p),
                None => None,
            },
            cull: self.cull,
            depth_test: self.depth_test,
            winding_order: self.winding_order,
            blend: self.blend,
            uniforms: self.uniforms@,
        }
    }
}

/// Staging a uniform by name: resolves the name through the program's
/// uniform table and overwrites the staged value at that location; a name
/// the program does not know leaves the builder unchanged.
pub open spec fn stage_uniform(b: BuilderView, name: Seq<char>, value: UniformValue) -> BuilderView {
    match b.program {
        Some(p) => match p.spec_uniform(name) {
            Some(location) => BuilderView {
                uniforms: keyed_put(b.uniforms, location, value),
                ..b
            },
            None => b,
        },
        None => b,
    }
}

/// The three device calls that bind one vertex attribute: bind the array,
/// enable the location, describe the attribute's layout.
pub open spec fn attrib_pointer_commands(
    va: VertexArray,
    location: u32,
    layout: AttribLayout,
) -> Seq<GlCommand> {
    seq![
        GlCommand::BindVertexArray(va.name),
        GlCommand::EnableVertexAttribArray(location),
        GlCommand::VertexAttribPointer {
            location: location,
            elements: layout.elements,
            stride: layout.stride,
            offset: layout.offset,
        },
    ]
}

/// The commands issued by mapping a buffer attribute to a program input by
/// name: empty when either name is unknown.
pub open spec fn map_attrib_name_commands(
    b: BuilderView,
    buffer_attrib_name: Seq<char>,
    program_attrib_name: Seq<char>,
) -> Seq<GlCommand> {
    match b.program {
        Some(p) => match p.spec_attrib(program_attrib_name) {
            Some(location) => match b.vertex_array.vertex_buffer.spec_attrib(buffer_attrib_name) {
                Some(layout) => attrib_pointer_commands(b.vertex_array, location, layout),
                None => Seq::<GlCommand>::empty(),
            },
            None => Seq::<GlCommand>::empty(),
        },
        None => Seq::<GlCommand>::empty(),
    }
}

/// The commands that apply one staged uniform.  A texture consumes the next
/// sequential texture unit: the texture is bound to that unit and the unit
/// index is written as the uniform's integer value.
pub open spec fn apply_uniform_commands(location: u32, value: UniformValue, unit: int) -> Seq<
    GlCommand,
> {
    match value {
        UniformValue::Texture(t) => seq![
            GlCommand::SetActiveTexture(unit as u32),
            GlCommand::BindTexture(t),
            GlCommand::SetUniform { location: location, value: UniformValue::I32(unit as i32) },
        ],
        _ => seq![GlCommand::SetUniform { location: location, value: value }],
    }
}

/// How many texture units a staged uniform map consumes.
pub open spec fn texture_units_used(us: Seq<(u32, UniformValue)>) -> int
    decreases us.len(),
{
    if us.len() == 0 {
        0
    } else {
        texture_units_used(us.drop_last()) + if us.last().1 is Texture {
            1int
        } else {
            0int
        }
    }
}

/// The commands that apply a staged uniform map, in staging order, with
/// texture units assigned sequentially from 0.
pub open spec fn uniform_commands(us: Seq<(u32, UniformValue)>) -> Seq<GlCommand>
    decreases us.len(),
{
    if us.len() == 0 {
        Seq::<GlCommand>::empty()
    } else {
        uniform_commands(us.drop_last()) + apply_uniform_commands(
            us.last().0,
            us.last().1,
            texture_units_used(us.drop_last()),
        )
    }
}

/// The fixed-function state commands issued by a draw before its uniforms
/// are applied.
pub open spec fn pre_uniform_commands(b: BuilderView) -> Seq<GlCommand> {
    seq![
        GlCommand::SetPolygonMode(
            match b.polygon_mode {
                Some(mode) => mode,
                None => PolygonMode::Fill,
            },
        ),
        GlCommand::UseProgram(
            match b.program {
                Some(p) => Some(p.id),
                None => None,
            },
        ),
    ] + (match b.cull {
        Some(face) => seq![
            GlCommand::EnableCull(true),
            GlCommand::SetCullFace(face),
            GlCommand::SetWindingOrder(b.winding_order),
        ],
        None => seq![GlCommand::EnableCull(false)],
    }) + (match b.depth_test {
        Some(comparison) => seq![
            GlCommand::EnableDepthTest(true),
            GlCommand::SetDepthFunction(comparison),
        ],
        None => seq![GlCommand::EnableDepthTest(false)],
    }) + seq![GlCommand::SetBlend(b.blend.0, b.blend.1)]
}

/// The final commands of a draw: bind the vertex array, then an indexed
/// draw if an index buffer is present (count from the index buffer), else a
/// non-indexed draw using the vertex buffer's computed element count.
pub open spec fn post_uniform_commands(b: BuilderView) -> Seq<GlCommand> {
    seq![
        GlCommand::BindVertexArray(b.vertex_array.name),
        match b.vertex_array.index_buffer {
            Some(ib) => GlCommand::DrawElements {
                mode: b.draw_mode,
                count: ib.data@.len() as usize,
            },
            None => GlCommand::DrawArrays {
                mode: b.draw_mode,
                count: b.vertex_array.vertex_buffer.element_len,
            },
        },
    ]
}

/// Everything one `draw` issues, in order.
pub open spec fn draw_commands(b: BuilderView) -> Seq<GlCommand> {
    pre_uniform_commands(b) + uniform_commands(b.uniforms) + post_uniform_commands(b)
}

/// Law: best-effort name resolution is a silent no-op on unknown names.
/// Staging a uniform whose name the program's uniform table does not know
/// leaves the builder exactly as it was, and mapping an attribute by name
/// issues no commands when either the program lacks the input or the
/// buffer lacks the attribute; neither fails.
pub proof fn lemma_unknown_names_are_ignored(
    b: BuilderView,
    name: Seq<char>,
    value: UniformValue,
    buffer_attrib_name: Seq<char>,
    program_attrib_name: Seq<char>,
)
    ensures
        b.program is Some && b.program->Some_0.spec_uniform(name) is None ==> stage_uniform(
            b,
            name,
            value,
        ) == b,
        b.program is Some && b.program->Some_0.spec_attrib(program_attrib_name) is None
            ==> map_attrib_name_commands(b, buffer_attrib_name, program_attrib_name) == Seq::<
            GlCommand,
        >::empty(),
        b.vertex_array.vertex_buffer.spec_attrib(buffer_attrib_name) is None
            ==> map_attrib_name_commands(b, buffer_attrib_name, program_attrib_name) == Seq::<
            GlCommand,
        >::empty(),
{
}

/// Applying staged uniforms issues no draw calls.
pub proof fn lemma_uniform_commands_no_draws(us: Seq<(u32, UniformValue)>)
    ensures
        forall|i: int|
            0 <= i < uniform_commands(us).len() ==> !is_draw_call(#[trigger] uniform_commands(us)[i]),
        count_draws(uniform_commands(us)) == 0,
    decreases us.len(),
{
    if us.len() > 0 {
        lemma_uniform_commands_no_draws(us.drop_last());
        let left = uniform_commands(us.drop_last());
        let right = apply_uniform_commands(
            us.last().0,
            us.last().1,
            texture_units_used(us.drop_last()),
        );
        assert(uniform_commands(us) == left + right);
        assert forall|i: int| 0 <= i < uniform_commands(us).len() implies !is_draw_call(
            #[trigger] uniform_commands(us)[i],
        ) by {
            if i < left.len() {
                assert(uniform_commands(us)[i] == left[i]);
            } else {
                assert(uniform_commands(us)[i] == right[i - left.len()]);
            }
        }
        lemma_count_draws_zero(uniform_commands(us));
    } else {
        lemma_count_draws_zero(uniform_commands(us));
    }
}

/// Mapping an attribute by name issues no draw calls.
pub proof fn lemma_map_attrib_name_no_draws(
    b: BuilderView,
    buffer_attrib_name: Seq<char>,
    program_attrib_name: Seq<char>,
)
    ensures
        forall|i: int|
            0 <= i < map_attrib_name_commands(b, buffer_attrib_name, program_attrib_name).len()
                ==> !is_draw_call(
                #[trigger] map_attrib_name_commands(b, buffer_attrib_name, program_attrib_name)[i],
            ),
        count_draws(map_attrib_name_commands(b, buffer_attrib_name, program_attrib_name)) == 0,
{
    lemma_count_draws_zero(map_attrib_name_commands(b, buffer_attrib_name, program_attrib_name));
}

/// Law: one call to `draw` issues exactly one draw call, and the state it
/// issues comes from the builder: the depth function set is the builder's
/// depth test and the blend factors set are the builder's blend factors.
pub proof fn lemma_draw_commands_state(b: BuilderView)
    ensures
        count_draws(draw_commands(b)) == 1,
        b.depth_test is Some ==> draw_commands(b).contains(
            GlCommand::SetDepthFunction(b.depth_test->Some_0),
        ),
        draw_commands(b).contains(GlCommand::SetBlend(b.blend.0, b.blend.1)),
        forall|i: int|
            0 <= i < draw_commands(b).len() && (#[trigger] draw_commands(b)[i])
                is SetDepthFunction ==> draw_commands(b)[i] == GlCommand::SetDepthFunction(
                b.depth_test->Some_0,
            ),
        forall|i: int|
            0 <= i < draw_commands(b).len() && (#[trigger] draw_commands(b)[i]) is SetBlend
                ==> draw_commands(b)[i] == GlCommand::SetBlend(b.blend.0, b.blend.1),
{
    let pre = pre_uniform_commands(b);
    let uni = uniform_commands(b.uniforms);
    let post = post_uniform_commands(b);
    let dc = draw_commands(b);
    assert(dc == pre + uni + post);

    assert forall|i: int| 0 <= i < pre.len() implies !is_draw_call(#[trigger] pre[i]) by {}
    lemma_count_draws_zero(pre);
    lemma_uniform_commands_no_draws(b.uniforms);
    assert(post.drop_last() =~= seq![GlCommand::BindVertexArray(b.vertex_array.name)]);
    assert(seq![GlCommand::BindVertexArray(b.vertex_array.name)].drop_last() =~= Seq::<
        GlCommand,
    >::empty());
    assert(is_draw_call(post.last()));
    assert(count_draws(Seq::<GlCommand>::empty()) == 0);
    assert(count_draws(seq![GlCommand::BindVertexArray(b.vertex_array.name)]) == 0);
    assert(count_draws(post) == 1);
    lemma_count_draws_concat(pre, uni);
    lemma_count_draws_concat(pre + uni, post);

    let cull_len: int = if b.cull is Some {
        3
    } else {
        1
    };
    if b.depth_test is Some {
        assert(pre[2 + cull_len + 1] == GlCommand::SetDepthFunction(b.depth_test->Some_0));
        assert(dc[2 + cull_len + 1] == pre[2 + cull_len + 1]);
    }
    let depth_len: int = if b.depth_test is Some {
        2
    } else {
        1
    };
    assert(pre[2 + cull_len + depth_len] == GlCommand::SetBlend(b.blend.0, b.blend.1));
    assert(dc[2 + cull_len + depth_len] == pre[2 + cull_len + depth_len]);

    assert forall|i: int|
        0 <= i < dc.len() && (#[trigger] dc[i]) is SetDepthFunction implies dc[i]
        == GlCommand::SetDepthFunction(b.depth_test->Some_0) by {
        if i < pre.len() {
            assert(dc[i] == pre[i]);
        } else if i < pre.len() + uni.len() {
            assert(dc[i] == uni[i - pre.len()]);
            lemma_uniform_no_state_commands(b.uniforms, i - pre.len());
        } else {
            assert(dc[i] == post[i - pre.len() - uni.len()]);
        }
    }
    assert forall|i: int|
        0 <= i < dc.len() && (#[trigger] dc[i]) is SetBlend implies dc[i] == GlCommand::SetBlend(
        b.blend.0,
        b.blend.1,
    ) by {
        if i < pre.len() {
            assert(dc[i] == pre[i]);
        } else if i < pre.len() + uni.len() {
            assert(dc[i] == uni[i - pre.len()]);
            lemma_uniform_no_state_commands(b.uniforms, i - pre.len());
        } else {
            assert(dc[i] == post[i - pre.len() - uni.len()]);
        }
    }
}

/// Applying staged uniforms never sets depth or blend state.
proof fn lemma_uniform_no_state_commands(us: Seq<(u32, UniformValue)>, i: int)
    requires
        0 <= i < uniform_commands(us).len(),
    ensures
        !(uniform_commands(us)[i] is SetDepthFunction),
        !(uniform_commands(us)[i] is SetBlend),
    decreases us.len(),
{
    if us.len() > 0 {
        let left = uniform_commands(us.drop_last());
        let right = apply_uniform_commands(
            us.last().0,
            us.last().1,
            texture_units_used(us.drop_last()),
        );
        assert(uniform_commands(us) == left + right);
        if i < left.len() {
            assert(uniform_commands(us)[i] == left[i]);
            lemma_uniform_no_state_commands(us.drop_last(), i);
        } else {
            assert(uniform_commands(us)[i] == right[i - left.len()]);
        }
    }
}

impl<'a> DrawBuilder<'a> {
    /// Creates a builder over `vertex_array` with every toggle at its
    /// default: fill polygon mode, no program, no culling, no depth test,
    /// counter-clockwise front faces, overwrite blending, nothing staged.
    pub fn new(vertex_array: &'a VertexArray, draw_mode: DrawMode) -> (r: DrawBuilder<'a>)
        ensures
            r@ == (BuilderView {
                vertex_array: *vertex_array,
                draw_mode: draw_mode,
                polygon_mode: None,
                program: None,
                cull: None,
                depth_test: None,
                winding_order: WindingOrder::CounterClockwise,
                blend: (SourceFactor::One, DestFactor::Zero),
                uniforms: Seq::<(u32, UniformValue)>::empty(),
            }),
    {
        let r = DrawBuilder {
            vertex_array,
            draw_mode,
            polygon_mode: None,
            program: None,
            cull: None,
            depth_test: None,
            winding_order: WindingOrder::CounterClockwise,
            blend: (SourceFactor::One, DestFactor::Zero),
            uniforms: Vec::new(),
        };
        proof {
            assert(r@.uniforms =~= Seq::<(u32, UniformValue)>::empty());
        }
        r
    }

    pub fn polygon_mode(&mut self, polygon_mode: PolygonMode)
        ensures
            final(self)@ == (BuilderView { polygon_mode: Some(polygon_mode), ..old(self)@ }),
    {
        self.polygon_mode = Some(polygon_mode);
    }

    /// Sets the program used to resolve names and bound at draw time.
    pub fn program(&mut self, program: &'a Program)
        ensures
            final(self)@ == (BuilderView { program: Some(*program), ..old(self)@ }),
    {
        self.program = Some(program);
    }

    pub fn cull(&mut self, face: Face)
        ensures
            final(self)@ == (BuilderView { cull: Some(face), ..old(self)@ }),
    {
        self.cull = Some(face);
    }

    pub fn depth_test(&mut self, comparison: Comparison)
        ensures
            final(self)@ == (BuilderView { depth_test: Some(comparison), ..old(self)@ }),
    {
        self.depth_test = Some(comparison);
    }

    pub fn winding(&mut self, winding_order: WindingOrder)
        ensures
            final(self)@ == (BuilderView { winding_order: winding_order, ..old(self)@ }),
    {
        self.winding_order = winding_order;
    }

    pub fn blend(&mut self, source_factor: SourceFactor, dest_factor: DestFactor)
        ensures
            final(self)@ == (BuilderView { blend: (source_factor, dest_factor), ..old(self)@ }),
    {
        self.blend = (source_factor, dest_factor);
    }

    /// Binds the named buffer attribute to an explicit attribute location,
    /// issuing the binding commands immediately.  A buffer attribute name
    /// that does not exist is a fatal logic error and excluded by contract.
    pub fn map_attrib_location(&self, buffer_attrib_name: &str, attrib_location: u32) -> (cmds: Vec<
        GlCommand,
    >)
        requires
            self.vertex_array.vertex_buffer.spec_attrib(buffer_attrib_name@) is Some,
        ensures
            cmds@ == attrib_pointer_commands(
                *self.vertex_array,
                attrib_location,
                self.vertex_array.vertex_buffer.spec_attrib(buffer_attrib_name@)->Some_0,
            ),
    {
        let layout = *self.vertex_array.vertex_buffer.attrib(buffer_attrib_name).unwrap();
        let mut cmds: Vec<GlCommand> = Vec::new();
        cmds.push(GlCommand::BindVertexArray(self.vertex_array.name));
        cmds.push(GlCommand::EnableVertexAttribArray(attrib_location));
        cmds.push(GlCommand::VertexAttribPointer {
            location: attrib_location,
            elements: layout.elements,
            stride: layout.stride,
            offset: layout.offset,
        });
        proof {
            assert(cmds@ =~= attrib_pointer_commands(
                *self.vertex_array,
                attrib_location,
                self.vertex_array.vertex_buffer.spec_attrib(buffer_attrib_name@)->Some_0,
            ));
        }
        cmds
    }

    /// Binds the named buffer attribute to the program input of the given
    /// name, issuing the binding commands immediately.  Requires a program;
    /// if either the program lacks the input or the buffer lacks the
    /// attribute, no commands are issued and nothing fails, so attributes
    /// can be mapped speculatively.
    pub fn map_attrib_name(&self, buffer_attrib_name: &str, program_attrib_name: &str) -> (cmds:
        Vec<GlCommand>)
        requires
            self.program is Some,
        ensures
            cmds@ == map_attrib_name_commands(self@, buffer_attrib_name@, program_attrib_name@),
    {
        let program = self.program.unwrap();
        let location = match program.get_attrib(program_attrib_name) {
            Some(location) => location,
            None => {
                let cmds: Vec<GlCommand> = Vec::new();
                proof {
                    assert(cmds@ =~= map_attrib_name_commands(
                        self@,
                        buffer_attrib_name@,
                        program_attrib_name@,
                    ));
                }
                return cmds;
            },
        };
        match self.vertex_array.vertex_buffer.attrib(buffer_attrib_name) {
            Some(layout) => {
                let layout = *layout;
                let mut cmds: Vec<GlCommand> = Vec::new();
                cmds.push(GlCommand::BindVertexArray(self.vertex_array.name));
                cmds.push(GlCommand::EnableVertexAttribArray(location));
                cmds.push(GlCommand::VertexAttribPointer {
                    location: location,
                    elements: layout.elements,
                    stride: layout.stride,
                    offset: layout.offset,
                });
                proof {
                    assert(cmds@ =~= map_attrib_name_commands(
                        self@,
                        buffer_attrib_name@,
                        program_attrib_name@,
                    ));
                }
                cmds
            },
            None => {
                let cmds: Vec<GlCommand> = Vec::new();
                proof {
                    assert(cmds@ =~= map_attrib_name_commands(
                        self@,
                        buffer_attrib_name@,
                        program_attrib_name@,
                    ));
                }
                cmds
            },
        }
    }

    /// Stages `value` for the uniform named `name`, overwriting any value
    /// already staged at that uniform's location.  Requires a program; a
    /// name the program's uniform table does not know is silently ignored
    /// and leaves the builder unchanged, so uniforms can be set
    /// speculatively.
    pub fn uniform(&mut self, name: &str, value: UniformValue)
        requires
            old(self).program is Some,
        ensures
            final(self)@ == stage_uniform(old(self)@, name@, value),
            final(self)@.uniforms.len() <= old(self)@.uniforms.len() + 1,
    {
        let location = match self.program {
            Some(program) => program.get_uniform_location(name),
            None => None,
        };
        match location {
            Some(location) => {
                proof {
                    crate::assoc::lemma_keyed_put_len(self.uniforms@, location, value);
                }
                keyed_insert_u32(&mut self.uniforms, location, value);
            },
            None => {},
        }
    }

    /// Issues one draw call: applies the polygon mode (default if unset),
    /// binds the program (or none), sets cull, depth-test, and blend state,
    /// applies every staged uniform (textures take sequential units from
    /// 0), binds the vertex array, and draws - indexed if an index buffer
    /// is present, else non-indexed with the computed element count.
    #[verifier::rlimit(60)]
    pub fn draw(&self) -> (cmds: Vec<GlCommand>)
        requires
            self.uniforms@.len() <= 0x7fff_ffff,
        ensures
            cmds@ == draw_commands(self@),
    {
        let mut cmds: Vec<GlCommand> = Vec::new();
        cmds.push(GlCommand::SetPolygonMode(
            match self.polygon_mode {
                Some(mode) => mode,
                None => PolygonMode::Fill,
            },
        ));
        cmds.push(GlCommand::UseProgram(
            match self.program {
                Some(p) => Some(p.id),
                None => None,
            },
        ));
        match self.cull {
            Some(face) => {
                cmds.push(GlCommand::EnableCull(true));
                cmds.push(GlCommand::SetCullFace(face));
                cmds.push(GlCommand::SetWindingOrder(self.winding_order));
            },
            None => {
                cmds.push(GlCommand::EnableCull(false));
            },
        }
        match self.depth_test {
            Some(comparison) => {
                cmds.push(GlCommand::EnableDepthTest(true));
                cmds.push(GlCommand::SetDepthFunction(comparison));
            },
            None => {
                cmds.push(GlCommand::EnableDepthTest(false));
            },
        }
        cmds.push(GlCommand::SetBlend(self.blend.0, self.blend.1));
        proof {
            assert(cmds@ =~= pre_uniform_commands(self@));
            assert(self.uniforms@.take(0) =~= Seq::<(u32, UniformValue)>::empty());
        }

        let n = self.uniforms.len();
        let mut unit: u32 = 0;
        let mut i: usize = 0;
        while i < n
            invariant
                n == self.uniforms@.len(),
                n <= 0x7fff_ffff,
                i <= n,
                unit <= i,
                unit as int == texture_units_used(self.uniforms@.take(i as int)),
                cmds@ == pre_uniform_commands(self@) + uniform_commands(
                    self.uniforms@.take(i as int),
                ),
            decreases n - i,
        {
            let (location, value) = self.uniforms[i];
            proof {
                assert(self.uniforms@.take(i + 1).drop_last() =~= self.uniforms@.take(i as int));
                assert(self.uniforms@.take(i + 1).last() == self.uniforms@[i as int]);
            }
            match value {
                UniformValue::Texture(texture) => {
                    cmds.push(GlCommand::SetActiveTexture(unit));
                    cmds.push(GlCommand::BindTexture(texture));
                    cmds.push(GlCommand::SetUniform {
                        location: location,
                        value: UniformValue::I32(unit as i32),
                    });
                    unit = unit + 1;
                },
                _ => {
                    cmds.push(GlCommand::SetUniform { location: location, value: value });
                },
            }
            i += 1;
        }
        proof {
            assert(self.uniforms@.take(n as int) =~= self.uniforms@);
        }

        cmds.push(GlCommand::BindVertexArray(self.vertex_array.name));
        match &self.vertex_array.index_buffer {
            Some(index_buffer) => {
                cmds.push(GlCommand::DrawElements {
                    mode: self.draw_mode,
                    count: index_buffer.data.len(),
                });
            },
            None => {
                cmds.push(GlCommand::DrawArrays {
                    mode: self.draw_mode,
                    count: self.vertex_array.vertex_buffer.element_len,
                });
            },
        }
        proof {
            assert(cmds@ =~= draw_commands(self@));
        }
        cmds
    }
}

} // verus!
