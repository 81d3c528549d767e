//! Shader stages, compiled shader sets, and shader-domain errors.

use vstd::prelude::*;

use crate::resources::Shader;

verus! {

/// A programmable stage of the pipeline.
#[derive(Clone, Copy, PartialEq, Eq, Structural, Debug)]
pub enum Stage {
    Vertex,
    Pixel,
}

/// Why the backend rejected one shader stage.
#[derive(Clone, PartialEq, Debug)]
pub enum CreateShaderError {
    /// The backend does not support the shader model the code was written for.
    ModelNotSupported,
    /// The backend does not support this stage.
    StageNotSupported(Stage),
    /// The backend rejected the shader source or bytecode.
    CompilationFailed(String),
}

/// An error of shader assembly or linking, tagged with the stage (or the link
/// step) it came from.
#[derive(Clone, PartialEq, Debug)]
pub enum ProgramError {
    /// The vertex stage failed to compile.
    Vertex(CreateShaderError),
    /// The pixel stage failed to compile.
    Pixel(CreateShaderError),
    /// The compiled stages were incompatible at link time.
    Link(String),
}

/// Compiled shader stages not yet linked into an executable program.
#[derive(Clone, Copy, PartialEq, Eq, Structural, Debug)]
pub enum ShaderSet {
    /// A vertex stage and a pixel stage.
    Simple(Shader, Shader),
}

} // verus!
