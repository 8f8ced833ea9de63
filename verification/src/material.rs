//! Materials and the declarative sources they are built from.
//!
//! A material references a compiled shader program by id and carries a
//! named set of user-tunable properties (colors, scalars, vectors,
//! textures).  A material source is the declarative input to the shader
//! compiler: a property list plus optional custom shader bodies.
//! Scalar payloads are f32 values carried as u32 bit patterns.

use vstd::prelude::*;

use crate::assoc::{keyed_get, keyed_put};
use crate::names::{named_lookup, named_insert, names_view};

verus! {

/// An RGBA color, each channel an f32 bit pattern.
#[derive(Clone, Copy, PartialEq, Eq, Structural, Debug)]
pub struct Color {
    pub r: u32,
    pub g: u32,
    pub b: u32,
    pub a: u32,
}

impl Color {
    /// All channels at the f32 bit pattern of 0.0.
    pub fn black() -> (c: Color)
        ensures
            c == (Color { r: 0, g: 0, b: 0, a: 0 }),
    {
        Color { r: 0, g: 0, b: 0, a: 0 }
    }
}

/// A three-component vector, each component an f32 bit pattern.
#[derive(Clone, Copy, PartialEq, Eq, Structural, Debug)]
pub struct Vector3 {
    pub x: u32,
    pub y: u32,
    pub z: u32,
}

/// The type of one declared material property.
#[derive(Clone, Copy, PartialEq, Eq, Structural, Debug)]
pub enum PropertyType {
    Color,
    Texture2d,
    Scalar,
    Vector3,
}

/// The value of one material property.  `Texture` holds the id of a
/// renderer-registered texture.
#[derive(Clone, Copy, PartialEq, Eq, Structural, Debug)]
pub enum MaterialProperty {
    Color(Color),
    Scalar(u32),
    Vector3(Vector3),
    Texture(u64),
}

/// The default value a property of the given type starts with: zero bits
/// for numeric types, texture id 0 (which no registry ever hands out) for
/// textures.
pub open spec fn default_property(t: PropertyType) -> MaterialProperty {
    match t {
        PropertyType::Color => MaterialProperty::Color(Color { r: 0, g: 0, b: 0, a: 0 }),
        PropertyType::Texture2d => MaterialProperty::Texture(0),
        PropertyType::Scalar => MaterialProperty::Scalar(0),
        PropertyType::Vector3 => MaterialProperty::Vector3(Vector3 { x: 0, y: 0, z: 0 }),
    }
}

/// The property table a freshly built material starts with: every declared
/// property at its type's default, written in declaration order (so a
/// repeated name keeps one entry, last declaration winning).
pub open spec fn default_properties(props: Seq<(Seq<char>, PropertyType)>) -> Seq<
    (Seq<char>, MaterialProperty),
>
    decreases props.len(),
{
    if props.len() == 0 {
        Seq::<(Seq<char>, MaterialProperty)>::empty()
    } else {
        keyed_put(
            default_properties(props.drop_last()),
            props.last().0,
            default_property(props.last().1),
        )
    }
}

/// A material: a shader program reference plus named property values.
/// Handed to scene objects by value.
pub struct Material {
    /// The id of the compiled program this material renders with.
    pub shader: u64,
    /// The property values, keyed by property name, in declaration order.
    pub properties: Vec<(String, MaterialProperty)>,
}

impl Material {
    /// The property table as name-sequence-keyed pairs.
    pub open spec fn properties_view(self) -> Seq<(Seq<char>, MaterialProperty)> {
        names_view(self.properties@)
    }

    /// The value of property `name`, if declared.
    pub open spec fn spec_property(self, name: Seq<char>) -> Option<MaterialProperty> {
        keyed_get(self.properties_view(), name)
    }

    /// A material over the given program with no properties.
    pub fn new(shader: u64) -> (r: Material)
        ensures
            r.shader == shader,
            r.properties_view() == Seq::<(Seq<char>, MaterialProperty)>::empty(),
    {
        let r = Material { shader, properties: Vec::new() };
        proof {
            assert(r.properties_view() =~= Seq::<(Seq<char>, MaterialProperty)>::empty());
        }
        r
    }

    /// The id of the program this material renders with.
    pub fn shader(&self) -> (r: u64)
        ensures
            r == self.shader,
    {
        self.shader
    }

    /// Sets a color property (last write wins).
    pub fn set_color(&mut self, name: &str, color: Color)
        ensures
            final(self).shader == old(self).shader,
            final(self).properties_view() == keyed_put(
                old(self).properties_view(),
                name@,
                MaterialProperty::Color(color),
            ),
    {
        named_insert(&mut self.properties, name, MaterialProperty::Color(color));
    }

    /// Sets a scalar property from an f32 bit pattern (last write wins).
    pub fn set_f32(&mut self, name: &str, value: u32)
        ensures
            final(self).shader == old(self).shader,
            final(self).properties_view() == keyed_put(
                old(self).properties_view(),
                name@,
                MaterialProperty::Scalar(value),
            ),
    {
        named_insert(&mut self.properties, name, MaterialProperty::Scalar(value));
    }

    /// Sets a vector property (last write wins).
    pub fn set_vector3(&mut self, name: &str, value: Vector3)
        ensures
            final(self).shader == old(self).shader,
            final(self).properties_view() == keyed_put(
                old(self).properties_view(),
                name@,
                MaterialProperty::Vector3(value),
            ),
    {
        named_insert(&mut self.properties, name, MaterialProperty::Vector3(value));
    }

    /// Sets a texture property to a registered texture id (last write
    /// wins).
    pub fn set_texture(&mut self, name: &str, texture: u64)
        ensures
            final(self).shader == old(self).shader,
            final(self).properties_view() == keyed_put(
                old(self).properties_view(),
                name@,
                MaterialProperty::Texture(texture),
            ),
    {
        named_insert(&mut self.properties, name, MaterialProperty::Texture(texture));
    }

    /// Looks up the value of property `name`.
    pub fn get_property(&self, name: &str) -> (r: Option<&MaterialProperty>)
        ensures
            match r {
                Some(p) => self.spec_property(name@) == Some(*p),
                None => self.spec_property(name@) is None,
            },
    {
        named_lookup(&self.properties, name)
    }

    /// An independent copy with the same shader and the same properties.
    pub fn duplicate(&self) -> (r: Material)
        ensures
            r.shader == self.shader,
            r.properties@ == self.properties@,
    {
        let mut properties: Vec<(String, MaterialProperty)> = Vec::new();
        let n = self.properties.len();
        let mut i: usize = 0;
        while i < n
            invariant
                n == self.properties@.len(),
                i <= n,
                properties@ == self.properties@.take(i as int),
            decreases n - i,
        {
            let entry = &self.properties[i];
            properties.push((entry.0.clone(), entry.1));
            proof {
                assert(self.properties@.take(i + 1) =~= self.properties@.take(i as int).push(
                    self.properties@[i as int],
                ));
            }
            i += 1;
        }
        proof {
            assert(self.properties@.take(n as int) =~= self.properties@);
        }
        Material { shader: self.shader, properties }
    }
}

/// One declared property of a material source.
pub struct PropertySource {
    pub name: String,
    pub property_type: PropertyType,
}

/// The declared properties as name-sequence-keyed pairs.
pub open spec fn property_sources_view(s: Seq<PropertySource>) -> Seq<(Seq<char>, PropertyType)> {
    s.map_values(|p: PropertySource| (p.name@, p.property_type))
}

/// A declarative material description: the property list and optional
/// custom shader bodies.  A missing vertex body falls back to a default
/// pass-through stage; a missing fragment body is a build error.
pub struct MaterialSource {
    pub properties: Vec<PropertySource>,
    pub vertex_source: Option<String>,
    pub fragment_source: Option<String>,
}

/// The single opaque error produced when building a material fails.
#[derive(Clone, Copy, PartialEq, Eq, Structural, Debug)]
pub struct BuildMaterialError;

} // verus!
