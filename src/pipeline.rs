use vstd::prelude::*;
use crate::geometry::{vertex_attributes, Vertex, VERTEX_SIZE};
use crate::layout::{VertexBufferLayout, VertexStepMode};

verus! {

/// How vertices are assembled into primitives.
#[derive(Clone, Copy, Debug, PartialEq, Eq, Structural)]
pub enum PrimitiveTopology {
    PointList,
    LineList,
    LineStrip,
    TriangleList,
    TriangleStrip,
}

/// The winding of front-facing triangles.
#[derive(Clone, Copy, Debug, PartialEq, Eq, Structural)]
pub enum FrontFace {
    Ccw,
    Cw,
}

/// A side of a triangle.
#[derive(Clone, Copy, Debug, PartialEq, Eq, Structural)]
pub enum Face {
    Front,
    Back,
}

/// How triangles are rasterised.
#[derive(Clone, Copy, Debug, PartialEq, Eq, Structural)]
pub enum PolygonMode {
    Fill,
    Line,
    Point,
}

/// The width of one index.
#[derive(Clone, Copy, Debug, PartialEq, Eq, Structural)]
pub enum IndexFormat {
    Uint16,
    Uint32,
}

/// How fragment output is combined with the colour target.
#[derive(Clone, Copy, Debug, PartialEq, Eq, Structural)]
pub enum BlendMode {
    /// The output replaces what is there, alpha included.
    Replace,
    AlphaBlending,
    PremultipliedAlphaBlending,
}

/// The whole fixed state of the rendering pipeline.
#[derive(Debug)]
pub struct PipelineDescriptor {
    pub vertex_entry: &'static str,
    pub fragment_entry: &'static str,
    pub vertex_layout: VertexBufferLayout,
    pub color_format: wgpu::TextureFormat,
    pub blend: BlendMode,
    pub write_all_channels: bool,
    pub topology: PrimitiveTopology,
    pub strip_index_format: Option<IndexFormat>,
    pub front_face: FrontFace,
    pub cull_mode: Option<Face>,
    pub unclipped_depth: bool,
    pub polygon_mode: PolygonMode,
    pub conservative: bool,
    pub depth_stencil: bool,
    pub sample_count: u32,
    pub sample_mask: u64,
    pub alpha_to_coverage: bool,
    pub multiview: Option<u32>,
}

/// The pipeline for a colour target of `format`: both shader stages from one
/// program (`vs_main`, `fs_main`), one buffer of `Vertex`, replace blending on
/// all channels, filled counter-clockwise triangle lists with back faces
/// culled, no depth or stencil, one sample with a full mask, no multiview.
pub fn pipeline_descriptor(format: wgpu::TextureFormat) -> (r: PipelineDescriptor)
    ensures
        r.vertex_entry@ == "vs_main"@,
        r.fragment_entry@ == "fs_main"@,
        r.vertex_layout.array_stride == VERTEX_SIZE,
        r.vertex_layout.step_mode == VertexStepMode::Vertex,
        r.vertex_layout.attributes@ == vertex_attributes(),
        r.color_format == format,
        r.blend == BlendMode::Replace,
        r.write_all_channels,
        r.topology == PrimitiveTopology::TriangleList,
        r.strip_index_format is None,
        r.front_face == FrontFace::Ccw,
        r.cull_mode == Some(Face::Back),
        !r.unclipped_depth,
        r.polygon_mode == PolygonMode::Fill,
        !r.conservative,
        !r.depth_stencil,
        r.sample_count == 1,
        r.sample_mask == u64::MAX,
        !r.alpha_to_coverage,
        r.multiview is None,
{
    proof {
        reveal_strlit("vs_main");
        reveal_strlit("fs_main");
    }
    PipelineDescriptor {
        vertex_entry: "vs_main",
        fragment_entry: "fs_main",
        vertex_layout: Vertex::desc(),
        color_format: format,
        blend: BlendMode::Replace,
        write_all_channels: true,
        topology: PrimitiveTopology::TriangleList,
        strip_index_format: None,
        front_face: FrontFace::Ccw,
        cull_mode: Some(Face::Back),
        unclipped_depth: false,
        polygon_mode: PolygonMode::Fill,
        conservative: false,
        depth_stencil: false,
        sample_count: 1,
        sample_mask: 0xffff_ffff_ffff_ffff,
        alpha_to_coverage: false,
        multiview: None,
    }
}

} // verus!
