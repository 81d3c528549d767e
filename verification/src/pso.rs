//! Pipeline descriptors, typed pipeline specifications, and pipeline states.

use vstd::prelude::*;

use crate::resources::{AttributeVarView, Format, ProgramInfo, RawPipelineState};
use crate::state::{Primitive, Rasterizer};

verus! {

/// One filled vertex-attribute binding slot of a descriptor.
#[derive(Clone, Copy, PartialEq, Eq, Structural, Debug)]
pub struct AttributeDesc {
    /// The descriptor slot the attribute is bound at.
    pub slot: u8,
    /// The element format bound at that slot.
    pub format: Format,
}

/// The mutable draft of a pipeline's binding layout: primitive topology,
/// rasterizer configuration, and the binding slots filled by the linking
/// step. Created fresh per pipeline build.
#[derive(Clone, PartialEq, Debug)]
pub struct Descriptor {
    pub primitive: Primitive,
    pub rasterizer: Rasterizer,
    /// Vertex-attribute slots filled so far, in linking order.
    pub attributes: Vec<AttributeDesc>,
}

/// The mathematical value of a [`Descriptor`].
#[verifier::ext_equal]
pub struct DescriptorView {
    pub primitive: Primitive,
    pub rasterizer: Rasterizer,
    pub attributes: Seq<AttributeDesc>,
}

impl View for Descriptor {
    type V = DescriptorView;

    open spec fn view(&self) -> DescriptorView {
        DescriptorView {
            primitive: self.primitive,
            rasterizer: self.rasterizer,
            attributes: self.attributes@,
        }
    }
}

/// A descriptor with the given topology and rasterizer and no slot filled.
pub open spec fn empty_descriptor(primitive: Primitive, rasterizer: Rasterizer) -> DescriptorView {
    DescriptorView { primitive, rasterizer, attributes: Seq::empty() }
}

impl Descriptor {
    /// A fresh descriptor with no binding slot filled.
    pub fn new(primitive: Primitive, rasterizer: Rasterizer) -> (d: Descriptor)
        ensures
            d@ == empty_descriptor(primitive, rasterizer),
    {
        Descriptor { primitive, rasterizer, attributes: Vec::new() }
    }
}

/// Why a typed specification could not be linked against a program's
/// reflected interface. The payload names the specification field concerned.
#[derive(Clone, PartialEq, Debug)]
pub enum InitError {
    /// The specification references an attribute name the program does not
    /// expose.
    Missing(String),
    /// The named attribute exists, but its declared format is incompatible
    /// with the program's reflected format for that slot.
    Mismatch(String),
}

/// Why the device refused a fully-specified pipeline state.
#[derive(Clone, Copy, PartialEq, Eq, Structural, Debug)]
pub struct CreationError;

/// A caller's strongly-typed pipeline specification.
///
/// Linking populates a descriptor's binding slots against a program's
/// reflected interface and yields `Meta`, the binding metadata used at draw
/// time. The spec functions fix the outcome of linking as a function of the
/// specification and the reflected interface alone, so that every
/// implementation's `link_to` is deterministic and leaves the descriptor's
/// topology and rasterizer untouched.
pub trait PipelineInit: Sized {
    /// Binding metadata produced on a successful link.
    type Meta: View;

    /// What linking this specification against the given reflected interface
    /// yields: the metadata's mathematical value, or the error.
    spec fn link_outcome(&self, attributes: Seq<AttributeVarView>) -> Result<
        <Self::Meta as View>::V,
        InitError,
    >;

    /// The attribute slots a successful link appends to the descriptor, in
    /// linking order.
    spec fn linked_attributes(&self, attributes: Seq<AttributeVarView>) -> Seq<AttributeDesc>;

    /// Populate `descriptor`'s binding slots against the program interface
    /// `info` and return the binding metadata, or fail with the name or
    /// format mismatch found.
    fn link_to(&self, descriptor: &mut Descriptor, info: &ProgramInfo) -> (r: Result<
        Self::Meta,
        InitError,
    >)
        ensures
            final(descriptor)@.primitive == old(descriptor)@.primitive,
            final(descriptor)@.rasterizer == old(descriptor)@.rasterizer,
            match r {
                Ok(meta) => {
                    &&& self.link_outcome(info@) matches Ok(mv) && meta@ == mv
                    &&& final(descriptor)@.attributes == old(descriptor)@.attributes
                        + self.linked_attributes(info@)
                },
                Err(e) => self.link_outcome(info@) matches Err(e2) && e == e2,
            },
    ;
}

/// The final artifact of a pipeline build: a raw device pipeline handle, the
/// primitive topology it was built for, and the typed binding metadata.
/// Immutable once constructed.
#[derive(Clone, PartialEq, Debug)]
pub struct PipelineState<M> {
    /// The raw, backend-specific pipeline-state object.
    pub raw: RawPipelineState,
    /// The topology the pipeline assembles primitives with.
    pub primitive: Primitive,
    /// Binding metadata mapping the typed specification's fields to resolved
    /// descriptor slots.
    pub meta: M,
}

/// The mathematical value of a [`PipelineState`].
pub struct PipelineStateView<MV> {
    pub raw: RawPipelineState,
    pub primitive: Primitive,
    pub meta: MV,
}

impl<M: View> View for PipelineState<M> {
    type V = PipelineStateView<<M as View>::V>;

    open spec fn view(&self) -> PipelineStateView<<M as View>::V> {
        PipelineStateView { raw: self.raw, primitive: self.primitive, meta: self.meta@ }
    }
}

impl<M: View> PipelineState<M> {
    /// Package a raw pipeline handle, its topology and its binding metadata.
    pub fn new(raw: RawPipelineState, primitive: Primitive, meta: M) -> (r: PipelineState<M>)
        ensures
            r.raw == raw,
            r.primitive == primitive,
            r.meta == meta,
    {
        PipelineState { raw, primitive, meta }
    }
}

} // verus!
