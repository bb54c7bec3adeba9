use vstd::prelude::*;

verus! {

/// The format of one vertex attribute.
#[derive(Clone, Copy, Debug, PartialEq, Eq, Structural)]
pub enum VertexFormat {
    /// Three 32-bit floats.
    Float32x3,
}

impl VertexFormat {
    /// Bytes taken by one attribute of this format.
    pub open spec fn size_spec(self) -> u64 {
        match self {
            VertexFormat::Float32x3 => 12,
        }
    }

    /// Bytes taken by one attribute of this format.
    pub fn size(&self) -> (r: u64)
        ensures
            r == self.size_spec(),
    {
        match self {
            VertexFormat::Float32x3 => 12,
        }
    }
}

/// Whether a vertex buffer advances per vertex or per instance.
#[derive(Clone, Copy, Debug, PartialEq, Eq, Structural)]
pub enum VertexStepMode {
    Vertex,
    Instance,
}

/// One attribute of a vertex buffer: where it lies and where the shader reads it.
#[derive(Clone, Copy, Debug, PartialEq, Eq, Structural)]
pub struct VertexAttribute {
    pub offset: u64,
    pub format: VertexFormat,
    pub shader_location: u32,
}

/// How the elements of a vertex buffer are laid out.
#[derive(Clone, Debug)]
pub struct VertexBufferLayout {
    pub array_stride: u64,
    pub step_mode: VertexStepMode,
    pub attributes: Vec<VertexAttribute>,
}

} // verus!
