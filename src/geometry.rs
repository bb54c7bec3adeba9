use vstd::prelude::*;
use crate::layout::{VertexAttribute, VertexBufferLayout, VertexFormat, VertexStepMode};

verus! {

/// Bytes taken by one vertex: six 32-bit float components.
pub const VERTEX_SIZE: u64 = 24;

/// Byte offset of the colour inside a vertex: after three position components.
pub const COLOR_OFFSET: u64 = 12;

/// One vertex of a mesh. Each component is the bit pattern of a 32-bit float.
#[derive(Clone, Copy, Debug)]
pub struct Vertex {
    pub position: [u32; 3],
    pub color: [u32; 3],
}

/// The six components of a vertex in memory order: position, then colour.
pub open spec fn vertex_components(v: Vertex) -> Seq<u32> {
    seq![
        v.position@[0],
        v.position@[1],
        v.position@[2],
        v.color@[0],
        v.color@[1],
        v.color@[2],
    ]
}

/// The components of a sequence of vertices, one vertex after the other.
pub open spec fn vertex_words(vs: Seq<Vertex>) -> Seq<u32>
    decreases vs.len(),
{
    if vs.len() == 0 {
        Seq::empty()
    } else {
        vertex_words(vs.drop_last()) + vertex_components(vs.last())
    }
}

/// Byte `j` (counting from the least significant) of the non-negative `x`.
pub open spec fn byte_of(x: int, j: int) -> u8 {
    let scale: int = if j == 0 {
        1
    } else if j == 1 {
        0x100
    } else if j == 2 {
        0x1_0000
    } else {
        0x100_0000
    };
    ((x / scale) % 0x100) as u8
}

/// Words laid out in memory least significant byte first.
pub open spec fn words_le_bytes(w: Seq<u32>) -> Seq<u8> {
    Seq::new(4 * w.len(), |k: int| byte_of(w[k / 4] as int, k % 4))
}

/// Words laid out in memory most significant byte first.
pub open spec fn words_be_bytes(w: Seq<u32>) -> Seq<u8> {
    Seq::new(4 * w.len(), |k: int| byte_of(w[k / 4] as int, 3 - k % 4))
}

/// 16-bit values laid out in memory least significant byte first.
pub open spec fn halves_le_bytes(h: Seq<u16>) -> Seq<u8> {
    Seq::new(2 * h.len(), |k: int| byte_of(h[k / 2] as int, k % 2))
}

/// 16-bit values laid out in memory most significant byte first.
pub open spec fn halves_be_bytes(h: Seq<u16>) -> Seq<u8> {
    Seq::new(2 * h.len(), |k: int| byte_of(h[k / 2] as int, 1 - k % 2))
}

/// Relies on bytemuck::cast_slice from `u32` to `u8`: the words' bytes as
/// they lie in memory, in the machine's byte order; it cannot fail here.
#[verifier::external_body]
fn words_as_bytes(w: &[u32]) -> (r: Vec<u8>)
    ensures
        r@ == words_le_bytes(w@) || r@ == words_be_bytes(w@),
{
    bytemuck::cast_slice::<u32, u8>(w).to_vec()
}

/// Relies on bytemuck::cast_slice from `u16` to `u8`: the values' bytes as
/// they lie in memory, in the machine's byte order; it cannot fail here.
#[verifier::external_body]
fn halves_as_bytes(h: &[u16]) -> (r: Vec<u8>)
    ensures
        r@ == halves_le_bytes(h@) || r@ == halves_be_bytes(h@),
{
    bytemuck::cast_slice::<u16, u8>(h).to_vec()
}

/// Every index names an existing vertex.
pub open spec fn indices_in_range(vertex_count: int, indices: Seq<u16>) -> bool {
    forall|i: int| 0 <= i < indices.len() ==> (indices[i] as int) < vertex_count
}

/// Why a mesh was refused.
#[derive(Clone, Copy, Debug, PartialEq, Eq, Structural)]
pub enum MeshError {
    /// The index at `position` names no vertex.
    IndexOutOfRange { position: usize, index: u16 },
    /// More indices than a draw call can count.
    TooManyIndices,
}

/// Vertices and the 16-bit indices of a triangle list over them
/// (counter-clockwise front faces).
#[derive(Clone, Debug)]
pub struct Mesh {
    pub vertices: Vec<Vertex>,
    pub indices: Vec<u16>,
}

/// What is uploaded for a mesh: the vertex buffer's and the index buffer's
/// contents, and the number of indices drawn.
#[derive(Clone, Debug)]
pub struct MeshBuffers {
    pub vertex_bytes: Vec<u8>,
    pub index_bytes: Vec<u8>,
    pub index_count: u32,
}

impl Mesh {
    /// Every index is below the vertex count, and the indices can be counted in a `u32`.
    pub open spec fn wf(&self) -> bool {
        &&& indices_in_range(self.vertices@.len() as int, self.indices@)
        &&& self.indices@.len() <= u32::MAX
    }

    /// Builds a mesh, refusing an index count over `u32::MAX` and then the
    /// first index that names no vertex.
    pub fn new(vertices: Vec<Vertex>, indices: Vec<u16>) -> (r: Result<Mesh, MeshError>)
        ensures
            r is Ok <==> indices_in_range(vertices@.len() as int, indices@) && indices@.len()
                <= u32::MAX,
            r matches Ok(m) ==> m.wf() && m.vertices@ == vertices@ && m.indices@ == indices@,
            r == Err::<Mesh, MeshError>(MeshError::TooManyIndices) <==> indices@.len() > u32::MAX,
            r matches Err(MeshError::IndexOutOfRange { position, index }) ==> {
                &&& indices@.len() <= u32::MAX
                &&& position < indices@.len()
                &&& index == indices@[position as int]
                &&& index as int >= vertices@.len()
                &&& indices_in_range(vertices@.len() as int, indices@.take(position as int))
            },
    {
        if indices.len() > 0xffff_ffff {
            return Err(MeshError::TooManyIndices);
        }
        let n = vertices.len();
        let mut i: usize = 0;
        while i < indices.len()
            invariant
                0 <= i <= indices@.len(),
                n == vertices@.len(),
                indices@.len() <= u32::MAX,
                indices_in_range(n as int, indices@.take(i as int)),
            decreases indices@.len() - i,
        {
            let ix = indices[i];
            if ix as usize >= n {
                return Err(MeshError::IndexOutOfRange { position: i, index: ix });
            }
            assert(indices@.take(i + 1) =~= indices@.take(i as int).push(ix));
            i = i + 1;
        }
        assert(indices@.take(i as int) =~= indices@);
        Ok(Mesh { vertices, indices })
    }

    /// The components of all vertices, one vertex after the other.
    pub fn vertex_words(&self) -> (r: Vec<u32>)
        ensures
            r@ == vertex_words(self.vertices@),
    {
        let mut words: Vec<u32> = Vec::new();
        let mut i: usize = 0;
        while i < self.vertices.len()
            invariant
                0 <= i <= self.vertices@.len(),
                words@ == vertex_words(self.vertices@.take(i as int)),
            decreases self.vertices@.len() - i,
        {
            let v = self.vertices[i];
            words.push(v.position[0]);
            words.push(v.position[1]);
            words.push(v.position[2]);
            words.push(v.color[0]);
            words.push(v.color[1]);
            words.push(v.color[2]);
            assert(self.vertices@.take(i + 1).drop_last() =~= self.vertices@.take(i as int));
            i = i + 1;
            assert(words@ =~= vertex_words(self.vertices@.take(i as int)));
        }
        assert(self.vertices@.take(i as int) =~= self.vertices@);
        words
    }

    /// The contents of the vertex and index buffers, and the index count.
    pub fn buffer_contents(&self) -> (r: MeshBuffers)
        requires
            self.wf(),
        ensures
            r.index_count == self.indices@.len(),
            r.vertex_bytes@ == words_le_bytes(vertex_words(self.vertices@)) || r.vertex_bytes@
                == words_be_bytes(vertex_words(self.vertices@)),
            r.index_bytes@ == halves_le_bytes(self.indices@) || r.index_bytes@
                == halves_be_bytes(self.indices@),
            r.vertex_bytes@.len() == VERTEX_SIZE * self.vertices@.len(),
            r.index_bytes@.len() == 2 * self.indices@.len(),
    {
        let words = self.vertex_words();
        let vertex_bytes = words_as_bytes(words.as_slice());
        let index_bytes = halves_as_bytes(self.indices.as_slice());
        proof {
            lemma_vertex_words_len(self.vertices@);
        }
        MeshBuffers { vertex_bytes, index_bytes, index_count: self.indices.len() as u32 }
    }
}

/// The layout's stride is the size of one vertex whatever the mesh holds:
/// the encoded vertex data of any vertices is the stride times their number,
/// and the two attributes lie back to back and fill the stride exactly.
pub proof fn lemma_stride_fits_vertex_data(vs: Seq<Vertex>)
    ensures
        4 * vertex_words(vs).len() == VERTEX_SIZE * vs.len(),
        vertex_attributes()[0].offset == 0,
        vertex_attributes()[0].offset + vertex_attributes()[0].format.size_spec()
            == vertex_attributes()[1].offset,
        vertex_attributes()[1].offset + vertex_attributes()[1].format.size_spec() == VERTEX_SIZE,
{
    lemma_vertex_words_len(vs);
}

/// Six components per vertex.
pub proof fn lemma_vertex_words_len(vs: Seq<Vertex>)
    ensures
        vertex_words(vs).len() == 6 * vs.len(),
    decreases vs.len(),
{
    if vs.len() > 0 {
        lemma_vertex_words_len(vs.drop_last());
    }
}

/// The attributes of a `Vertex`: the position at offset 0 (shader location
/// 0), then the colour (shader location 1), each three 32-bit floats.
pub open spec fn vertex_attributes() -> Seq<VertexAttribute> {
    seq![
        VertexAttribute { offset: 0, format: VertexFormat::Float32x3, shader_location: 0 },
        VertexAttribute { offset: COLOR_OFFSET, format: VertexFormat::Float32x3, shader_location: 1 },
    ]
}

impl Vertex {
    /// The vertex buffer layout of a `Vertex`: a 24-byte stride stepped per
    /// vertex, the position at offset 0 (shader location 0) and the colour at
    /// offset 12 (shader location 1), each three 32-bit floats.
    pub fn desc() -> (r: VertexBufferLayout)
        ensures
            r.array_stride == VERTEX_SIZE,
            r.step_mode == VertexStepMode::Vertex,
            r.attributes@ == vertex_attributes(),
    {
        let mut attributes: Vec<VertexAttribute> = Vec::new();
        attributes.push(
            VertexAttribute { offset: 0, format: VertexFormat::Float32x3, shader_location: 0 },
        );
        attributes.push(
            VertexAttribute {
                offset: COLOR_OFFSET,
                format: VertexFormat::Float32x3,
                shader_location: 1,
            },
        );
        assert(attributes@ =~= vertex_attributes());
        VertexBufferLayout { array_stride: VERTEX_SIZE, step_mode: VertexStepMode::Vertex, attributes }
    }
}

} // verus!
