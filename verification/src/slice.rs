//! Draw ranges over vertex and index streams.

use vstd::prelude::*;

use crate::resources::Buffer;

verus! {

/// The index buffer a draw range decodes through. Exactly one variant is
/// active; the width determines index decoding during draw.
#[derive(Clone, Copy, PartialEq, Eq, Structural, Debug)]
pub enum IndexBuffer {
    /// No index buffer: draw in vertex order.
    Auto,
    /// 16-bit indices held by the given buffer.
    Index16(Buffer),
    /// 32-bit indices held by the given buffer.
    Index32(Buffer),
}

/// Caller-supplied index input, converted into an [`IndexBuffer`] when a
/// vertex buffer and its slice are built together.
#[derive(Clone, PartialEq, Debug)]
pub enum IndexData {
    /// Draw in vertex order; no device index buffer is created.
    Auto,
    /// 16-bit indices to upload into a device index buffer.
    Index16(Vec<u16>),
    /// 32-bit indices to upload into a device index buffer.
    Index32(Vec<u32>),
}

/// The number of elements of the index input: the index count when indices
/// are given, and zero when drawing follows the vertex order.
pub open spec fn index_data_len(indices: IndexData) -> nat {
    match indices {
        IndexData::Auto => 0,
        IndexData::Index16(v) => v@.len(),
        IndexData::Index32(v) => v@.len(),
    }
}

/// A draw range over a vertex or index stream.
#[derive(Clone, Copy, PartialEq, Debug)]
pub struct Slice {
    /// First element of the range.
    pub start: u32,
    /// One past the last element of the range.
    pub end: u32,
    /// Added to each index before vertex lookup.
    pub base_vertex: u32,
    /// Number of instances to draw, when instancing.
    pub instances: Option<u32>,
    /// The index buffer the range draws through.
    pub buffer: IndexBuffer,
}

impl Slice {
    /// The slice's invariant: the range does not run backwards.
    pub open spec fn wf(&self) -> bool {
        self.start <= self.end
    }
}

/// The slice covering a whole stream of `len` elements from its start, with
/// the given index buffer.
pub open spec fn full_slice(len: u32, buffer: IndexBuffer) -> Slice {
    Slice { start: 0, end: len, base_vertex: 0, instances: None, buffer }
}

} // verus!
