//! Primitive topology, rasterizer and sampler configuration values.

use vstd::prelude::*;

verus! {

/// How the vertex stream is assembled into primitives.
#[derive(Clone, Copy, PartialEq, Eq, Structural, Debug)]
pub enum Primitive {
    PointList,
    LineList,
    LineStrip,
    TriangleList,
    TriangleStrip,
    TriangleFan,
}

/// Winding order that marks a face as front-facing.
#[derive(Clone, Copy, PartialEq, Eq, Structural, Debug)]
pub enum FrontFace {
    Clockwise,
    CounterClockwise,
}

/// Which faces are culled before rasterization.
#[derive(Clone, Copy, PartialEq, Eq, Structural, Debug)]
pub enum CullFace {
    Nothing,
    Front,
    Back,
}

/// How a primitive is rasterized.
#[derive(Clone, Copy, PartialEq, Eq, Structural, Debug)]
pub enum RasterMethod {
    Point,
    Line(u32),
    Fill,
}

/// Rasterizer configuration for a pipeline.
#[derive(Clone, Copy, PartialEq, Eq, Structural, Debug)]
pub struct Rasterizer {
    pub front_face: FrontFace,
    pub cull_face: CullFace,
    pub method: RasterMethod,
}

/// The default rasterizer: filled faces, counter-clockwise front, no culling.
pub open spec fn fill_rasterizer() -> Rasterizer {
    Rasterizer {
        front_face: FrontFace::CounterClockwise,
        cull_face: CullFace::Nothing,
        method: RasterMethod::Fill,
    }
}

impl Rasterizer {
    /// A rasterizer that fills triangle faces without culling.
    pub fn new_fill() -> (r: Rasterizer)
        ensures
            r == fill_rasterizer(),
    {
        Rasterizer {
            front_face: FrontFace::CounterClockwise,
            cull_face: CullFace::Nothing,
            method: RasterMethod::Fill,
        }
    }
}

/// Texture filtering requested of a sampler.
#[derive(Clone, Copy, PartialEq, Eq, Structural, Debug)]
pub enum FilterMethod {
    Scale,
    Mipmap,
    Bilinear,
    Trilinear,
    Anisotropic(u8),
}

/// How texture coordinates outside `[0, 1]` are addressed.
#[derive(Clone, Copy, PartialEq, Eq, Structural, Debug)]
pub enum WrapMode {
    Tile,
    Mirror,
    Clamp,
    Border,
}

/// The full configuration a sampler is requested with.
#[derive(Clone, Copy, PartialEq, Eq, Structural, Debug)]
pub struct SamplerInfo {
    pub filter: FilterMethod,
    /// Addressing along the first texture axis.
    pub wrap_u: WrapMode,
    /// Addressing along the second texture axis.
    pub wrap_v: WrapMode,
}

/// The configuration of a linear convenience sampler: trilinear filtering and
/// clamp addressing in both axes.
pub open spec fn linear_sampler_info() -> SamplerInfo {
    SamplerInfo { filter: FilterMethod::Trilinear, wrap_u: WrapMode::Clamp, wrap_v: WrapMode::Clamp }
}

impl SamplerInfo {
    /// A sampler configuration with the given filter and the same addressing
    /// in both axes.
    pub fn new(filter: FilterMethod, wrap: WrapMode) -> (r: SamplerInfo)
        ensures
            r == (SamplerInfo { filter, wrap_u: wrap, wrap_v: wrap }),
    {
        SamplerInfo { filter, wrap_u: wrap, wrap_v: wrap }
    }
}

} // verus!
