//! Logical vertex and index buffers and the vertex arrays built from them.
//!
//! A buffer owns the client-side copy of its contents (f32 values as u32
//! bit patterns for vertex data, u32 indices for index data); the host
//! uploads those contents to the device.  A vertex buffer additionally
//! carries a named-attribute layout table and the element count implied by
//! the most recently set attribute.

use vstd::prelude::*;

use crate::assoc::{keyed_get, keyed_put};
use crate::names::{named_lookup, named_insert, names_view};

verus! {

/// How one named attribute is packed inside a vertex buffer's raw f32
/// array: `elements` components per vertex, laid out `stride` elements
/// apart, starting `offset` elements into the buffer.
#[derive(Clone, Copy, PartialEq, Eq, Structural, Debug)]
pub struct AttribLayout {
    pub elements: usize,
    pub stride: usize,
    pub offset: usize,
}

/// The element count implied by an attribute layout over a buffer of
/// `len` f32 values: `(len - offset) / elements + stride`, with truncating
/// division.
pub open spec fn attrib_element_count(len: nat, layout: AttribLayout) -> int {
    (len - layout.offset) / (layout.elements as int) + layout.stride
}

/// A buffer of vertex data and the layout of that data.
pub struct VertexBuffer {
    /// The buffer contents: f32 values as bit patterns, in buffer order.
    pub data: Vec<u32>,
    /// The element count implied by the most recently set attribute; zero
    /// until an attribute is set.
    pub element_len: usize,
    /// The per-attribute layout table, keyed by attribute name.
    pub attribs: Vec<(String, AttribLayout)>,
}

impl VertexBuffer {
    /// The number of f32 values currently stored.
    pub open spec fn spec_len(self) -> nat {
        self.data@.len()
    }

    /// The attribute table as name-sequence-keyed pairs.
    pub open spec fn attribs_view(self) -> Seq<(Seq<char>, AttribLayout)> {
        names_view(self.attribs@)
    }

    /// The layout stored under `name`, if any.
    pub open spec fn spec_attrib(self, name: Seq<char>) -> Option<AttribLayout> {
        keyed_get(self.attribs_view(), name)
    }

    /// Creates an empty vertex buffer with no attributes.
    pub fn new() -> (r: VertexBuffer)
        ensures
            r.spec_len() == 0,
            r.element_len == 0,
            r.attribs_view() == Seq::<(Seq<char>, AttribLayout)>::empty(),
    {
        let r = VertexBuffer { data: Vec::new(), element_len: 0, attribs: Vec::new() };
        proof {
            assert(r.attribs_view() =~= Seq::<(Seq<char>, AttribLayout)>::empty());
        }
        r
    }

    /// Fills the buffer with the given f32 bit patterns, replacing any
    /// previous contents and updating the stored length.
    pub fn set_data_f32(&mut self, data: &[u32])
        ensures
            final(self).data@ == data@,
            final(self).element_len == old(self).element_len,
            final(self).attribs@ == old(self).attribs@,
    {
        self.data = vstd::slice::slice_to_vec(data);
    }

    /// Records how the data for attribute `name` is laid out in the buffer
    /// (overwriting any previous layout under that name) and recomputes the
    /// implied element count as `(len - offset) / elements + stride`.
    ///
    /// A layout reaching past the buffer, a zero component count, or an
    /// element count that does not fit in `usize` is excluded by contract.
    pub fn set_attrib_f32(&mut self, name: &str, layout: AttribLayout)
        requires
            layout.elements > 0,
            layout.offset <= old(self).spec_len(),
            attrib_element_count(old(self).spec_len(), layout) <= usize::MAX,
        ensures
            final(self).element_len == attrib_element_count(old(self).spec_len(), layout),
            final(self).attribs_view() == keyed_put(old(self).attribs_view(), name@, layout),
            final(self).data@ == old(self).data@,
    {
        self.element_len = (self.data.len() - layout.offset) / layout.elements + layout.stride;
        named_insert(&mut self.attribs, name, layout);
    }

    /// Looks up the layout stored under `name`.
    pub fn attrib(&self, name: &str) -> (r: Option<&AttribLayout>)
        ensures
            match r {
                Some(layout) => self.spec_attrib(name@) == Some(*layout),
                None => self.spec_attrib(name@) is None,
            },
    {
        named_lookup(&self.attribs, name)
    }
}

/// A buffer of u32 index data used to index into a vertex buffer when
/// drawing.
pub struct IndexBuffer {
    /// The buffer contents, in buffer order.
    pub data: Vec<u32>,
}

impl IndexBuffer {
    /// The number of indices currently stored.
    pub open spec fn spec_len(self) -> nat {
        self.data@.len()
    }

    /// Creates an empty index buffer.
    pub fn new() -> (r: IndexBuffer)
        ensures
            r.spec_len() == 0,
    {
        IndexBuffer { data: Vec::new() }
    }

    /// Fills the buffer with the given indices, replacing any previous
    /// contents and updating the stored length.
    pub fn set_data_u32(&mut self, data: &[u32])
        ensures
            final(self).data@ == data@,
    {
        self.data = vstd::slice::slice_to_vec(data);
    }
}

/// A vertex array: a host-side array handle together with the vertex buffer
/// (and optional index buffer) it was built from.  The array takes
/// ownership of its buffers; their lifetime is subsumed by the array's.
pub struct VertexArray {
    /// The host-side handle bound by `GlCommand::BindVertexArray`.
    pub name: u64,
    pub vertex_buffer: VertexBuffer,
    pub index_buffer: Option<IndexBuffer>,
}

impl VertexArray {
    /// Builds a vertex array over `vertex_buffer` alone; draws through it
    /// are non-indexed.
    pub fn new(name: u64, vertex_buffer: VertexBuffer) -> (r: VertexArray)
        ensures
            r.name == name,
            r.vertex_buffer == vertex_buffer,
            r.index_buffer is None,
    {
        VertexArray { name, vertex_buffer, index_buffer: None }
    }

    /// Builds a vertex array over a vertex buffer and an index buffer;
    /// draws through it are indexed.
    pub fn with_index_buffer(name: u64, vertex_buffer: VertexBuffer, index_buffer: IndexBuffer) -> (r:
        VertexArray)
        ensures
            r.name == name,
            r.vertex_buffer == vertex_buffer,
            r.index_buffer == Some(index_buffer),
    {
        VertexArray { name, vertex_buffer, index_buffer: Some(index_buffer) }
    }
}

} // verus!
