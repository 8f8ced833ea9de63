//! The observable state of a compiled, linked shader program.
//!
//! Compiling and linking happen on the device; what the draw protocol needs
//! from a program afterwards is its id and its cached name-to-location
//! tables for vertex inputs and uniforms.  A program is never mutated after
//! creation.

use vstd::prelude::*;

use crate::assoc::keyed_get;
use crate::names::{named_lookup, names_view};

verus! {

/// A compiled program: an id for `GlCommand::UseProgram` plus the cached
/// lookup tables resolved at link time.
pub struct Program {
    /// The id under which the program is registered.
    pub id: u64,
    /// Vertex input name to attribute location.
    pub attribs: Vec<(String, u32)>,
    /// Uniform name to uniform location.
    pub uniforms: Vec<(String, u32)>,
}

impl Program {
    /// The vertex input table as name-sequence-keyed pairs.
    pub open spec fn attribs_view(self) -> Seq<(Seq<char>, u32)> {
        names_view(self.attribs@)
    }

    /// The uniform table as name-sequence-keyed pairs.
    pub open spec fn uniforms_view(self) -> Seq<(Seq<char>, u32)> {
        names_view(self.uniforms@)
    }

    /// The attribute location of vertex input `name`, if the program has
    /// such an input.
    pub open spec fn spec_attrib(self, name: Seq<char>) -> Option<u32> {
        keyed_get(self.attribs_view(), name)
    }

    /// The location of uniform `name`, if the program has such a uniform.
    pub open spec fn spec_uniform(self, name: Seq<char>) -> Option<u32> {
        keyed_get(self.uniforms_view(), name)
    }

    /// Records the observable result of linking: the program id and the
    /// resolved variable tables.
    pub fn new(id: u64, attribs: Vec<(String, u32)>, uniforms: Vec<(String, u32)>) -> (r: Program)
        ensures
            r.id == id,
            r.attribs@ == attribs@,
            r.uniforms@ == uniforms@,
    {
        Program { id, attribs, uniforms }
    }

    /// Looks up the attribute location of vertex input `name`.
    pub fn get_attrib(&self, name: &str) -> (r: Option<u32>)
        ensures
            r == self.spec_attrib(name@),
    {
        match named_lookup(&self.attribs, name) {
            Some(location) => Some(*location),
            None => None,
        }
    }

    /// Looks up the location of uniform `name`.
    pub fn get_uniform_location(&self, name: &str) -> (r: Option<u32>)
        ensures
            r == self.spec_uniform(name@),
    {
        match named_lookup(&self.uniforms, name) {
            Some(location) => Some(*location),
            None => None,
        }
    }
}

} // verus!
