//! Mesh resource: owns the vertex bytes and the 16-bit index list that are
//! uploaded verbatim as the GPU vertex and index buffers, together with the
//! vertex-shape tag and the index count used to size each draw call.

use vstd::prelude::*;

use crate::vertex::VertexType;

verus! {

/// Width of the integers in an index buffer. Meshes of this sandbox always
/// use 16-bit indices, a hard limit of 65,536 distinct vertices per mesh.
#[derive(Clone, Copy, PartialEq, Eq, Structural, Debug)]
pub enum IndexFormat {
    Uint16,
    Uint32,
}

/// A mesh: the contents of its vertex-usage buffer (raw bytes), the contents
/// of its index-usage buffer (16-bit indices), the vertex-shape tag the
/// bytes are laid out for, and the stored index count that sizes each draw
/// call. Immutable after creation; there is no update or streaming path.
pub struct Mesh {
    vertices: Vec<u8>,
    indices: Vec<u16>,
    vertex_type: VertexType,
    index_count: u32,
}

impl Mesh {
    /// The vertex bytes this mesh uploads.
    pub closed spec fn vertices_spec(self) -> Seq<u8> {
        self.vertices@
    }

    /// The indices this mesh uploads.
    pub closed spec fn indices_spec(self) -> Seq<u16> {
        self.indices@
    }

    /// The vertex-shape tag the vertex bytes follow.
    pub closed spec fn vertex_type_spec(self) -> VertexType {
        self.vertex_type
    }

    /// How many whole vertex records the vertex bytes hold.
    pub open spec fn vertex_count_spec(self) -> int {
        self.vertices_spec().len() as int / self.vertex_type_spec().stride_spec() as int
    }

    /// The stored index count.
    pub closed spec fn index_count_spec(self) -> u32 {
        self.index_count
    }

    /// Every index addresses a vertex record that lies inside the vertex
    /// bytes, the bytes hold whole records (so draw calls never read past
    /// the vertex buffer), and the stored index count sizes the full index
    /// range.
    pub open spec fn wf(self) -> bool {
        &&& self.vertices_spec().len() as int % self.vertex_type_spec().stride_spec() as int == 0
        &&& forall|i: int|
            0 <= i < self.indices_spec().len() ==> self.indices_spec()[i] < self.vertex_count_spec()
        &&& self.index_count_spec() == self.indices_spec().len()
    }

    /// Build a mesh that owns a copy of the given vertex bytes and indices.
    ///
    /// The caller guarantees that the byte layout matches the tag's stride
    /// and that every index addresses an existing vertex; a violation would
    /// be undefined behavior at draw time, so both are preconditions here.
    pub fn new(vertices: Vec<u8>, vertex_type: VertexType, indices: Vec<u16>) -> (m: Mesh)
        requires
            vertices@.len() as int % vertex_type.stride_spec() as int == 0,
            forall|i: int|
                0 <= i < indices@.len()
                    ==> indices@[i] < vertices@.len() as int / vertex_type.stride_spec() as int,
            indices@.len() <= u32::MAX,
        ensures
            m.vertices_spec() == vertices@,
            m.indices_spec() == indices@,
            m.vertex_type_spec() == vertex_type,
            m.index_count_spec() == indices@.len(),
            m.wf(),
    {
        let index_count = indices.len() as u32;
        Mesh { vertices, indices, vertex_type, index_count }
    }

    /// The contents of the vertex-usage GPU buffer.
    pub fn vertex_buffer(&self) -> (v: &Vec<u8>)
        ensures
            v@ == self.vertices_spec(),
    {
        &self.vertices
    }

    /// The contents of the index-usage GPU buffer.
    pub fn index_buffer(&self) -> (v: &Vec<u16>)
        ensures
            v@ == self.indices_spec(),
    {
        &self.indices
    }

    /// The index list, as handed in at creation.
    pub fn indices(&self) -> (v: &Vec<u16>)
        ensures
            v@ == self.indices_spec(),
    {
        &self.indices
    }

    /// The vertex-shape tag of this mesh.
    pub fn vertex_type(&self) -> (t: VertexType)
        ensures
            t == self.vertex_type_spec(),
    {
        self.vertex_type
    }

    /// The stored number of indices, used to size the indexed draw covering
    /// the mesh's full index range.
    pub fn index_count(&self) -> (n: u32)
        ensures
            n == self.index_count_spec(),
            self.wf() ==> n == self.indices_spec().len(),
    {
        self.index_count
    }
}

} // verus!
