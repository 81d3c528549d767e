//! Backend-owned resource handles and the reflected program interface.
//!
//! A handle is an opaque reference to a resource the device owns. The model
//! keeps, as plain values, exactly what the pipeline-construction logic reads
//! of each resource: a buffer's element count and a program's reflected
//! interface.

use vstd::prelude::*;

use crate::state::SamplerInfo;

verus! {

/// The role a buffer is allocated for.
#[derive(Clone, Copy, PartialEq, Eq, Structural, Debug)]
pub enum BufferRole {
    /// Vertex data.
    Vertex,
    /// Index data.
    Index,
    /// Uniform (constant) data.
    Uniform,
}

/// A handle to a device-owned buffer, together with its element count.
#[derive(Clone, Copy, PartialEq, Eq, Structural, Debug)]
pub struct Buffer {
    /// Backend-chosen identifier of the underlying resource.
    pub id: u64,
    /// Number of elements the buffer was allocated for.
    pub len: usize,
}

/// A handle to one compiled shader stage.
#[derive(Clone, Copy, PartialEq, Eq, Structural, Debug)]
pub struct Shader {
    /// Backend-chosen identifier of the underlying resource.
    pub id: u64,
}

/// A handle to a device-owned sampler, together with the configuration it was
/// requested with.
#[derive(Clone, Copy, PartialEq, Eq, Structural, Debug)]
pub struct Sampler {
    /// Backend-chosen identifier of the underlying resource.
    pub id: u64,
    /// The configuration the sampler was created from.
    pub info: SamplerInfo,
}

/// A handle to a raw, backend-specific pipeline-state object.
#[derive(Clone, Copy, PartialEq, Eq, Structural, Debug)]
pub struct RawPipelineState {
    /// Backend-chosen identifier of the underlying resource.
    pub id: u64,
}

/// The scalar base type of a vertex attribute.
#[derive(Clone, Copy, PartialEq, Eq, Structural, Debug)]
pub enum BaseType {
    I32,
    U32,
    F32,
    Bool,
}

/// The element format of a vertex attribute: a scalar base type and how many
/// components each element has.
#[derive(Clone, Copy, PartialEq, Eq, Structural, Debug)]
pub struct Format {
    pub base: BaseType,
    pub components: u8,
}

/// One vertex attribute of a program's reflected interface: its name, the
/// descriptor slot it is bound at, and its element format.
#[derive(Clone, PartialEq, Debug)]
pub struct AttributeVar {
    pub name: String,
    pub slot: u8,
    pub format: Format,
}

/// The mathematical value of an [`AttributeVar`].
pub struct AttributeVarView {
    pub name: Seq<char>,
    pub slot: u8,
    pub format: Format,
}

impl View for AttributeVar {
    type V = AttributeVarView;

    open spec fn view(&self) -> AttributeVarView {
        AttributeVarView { name: self.name@, slot: self.slot, format: self.format }
    }
}

/// The reflected interface of a linked program: the named, typed inputs the
/// compiled program exposes.
#[derive(Clone, PartialEq, Debug)]
pub struct ProgramInfo {
    pub attributes: Vec<AttributeVar>,
}

impl View for ProgramInfo {
    type V = Seq<AttributeVarView>;

    open spec fn view(&self) -> Seq<AttributeVarView> {
        self.attributes@.map_values(|a: AttributeVar| a@)
    }
}

/// A handle to a linked shader program, together with its reflected interface.
#[derive(Clone, PartialEq, Debug)]
pub struct Program {
    /// Backend-chosen identifier of the underlying resource.
    pub id: u64,
    /// The interface the compiled program exposes.
    pub info: ProgramInfo,
}

/// The mathematical value of a [`Program`].
pub struct ProgramView {
    pub id: u64,
    pub attributes: Seq<AttributeVarView>,
}

impl View for Program {
    type V = ProgramView;

    open spec fn view(&self) -> ProgramView {
        ProgramView { id: self.id, attributes: self.info@ }
    }
}

impl Program {
    /// The reflected interface of the program.
    pub fn get_info(&self) -> (r: &ProgramInfo)
        ensures
            r@ == self@.attributes,
    {
        &self.info
    }
}

} // verus!
