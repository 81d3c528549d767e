//! The device capability and the convenience extension every device gains.
//!
//! [`Factory`] is the base capability a backend implements: raw buffer
//! allocation, raw shader-stage compilation, raw program linking, raw
//! pipeline-state allocation, raw sampler allocation. Its contract models the
//! backend as a state machine: what each call returns and what state it
//! leaves behind are functions (`*_result`, `after_*`) of the state the call
//! was made in, fixed by the implementation. An implementation must make its
//! methods agree with those two functions; everything proved of the
//! operations below holds of every implementation that does.
//!
//! [`FactoryExt`] is the blanket extension: every `Factory` automatically
//! gains shader assembly, program linking, typed pipeline-state creation, and
//! buffer and sampler shortcuts, with no additional state.

use vstd::prelude::*;

use crate::pso::{Descriptor, DescriptorView, PipelineInit, PipelineState, PipelineStateView};
use crate::pso::{CreationError, InitError};
use crate::resources::{Buffer, BufferRole, Program, ProgramView, RawPipelineState, Sampler, Shader};
use crate::shade::{CreateShaderError, ProgramError, ShaderSet};
use crate::slice::{IndexBuffer, IndexData, Slice, full_slice, index_data_len};
use crate::state::{FilterMethod, Primitive, Rasterizer, SamplerInfo, WrapMode};
use crate::state::{fill_rasterizer, linear_sampler_info};

verus! {

/// Why the device refused a buffer allocation.
#[derive(Clone, Copy, PartialEq, Eq, Structural, Debug)]
pub enum BufferError {
    /// The device could not allocate the buffer.
    OutOfMemory,
    /// The device does not support buffers of the requested role.
    UnsupportedRole,
}

/// The base device capability: raw resource creation, implemented once per
/// backend.
///
/// The `*_result` and `after_*` spec functions are the backend's abstract
/// behaviour: in a given state, what a call returns and the state it leaves.
/// Each method promises exactly that its result and its effect on the device
/// follow those functions. A verified implementation overrides them with its
/// own model and proves its methods against it; the bodies here are
/// placeholders that leave the behaviour unconstrained until then.
pub trait Factory: Sized {
    /// What compiling vertex-stage code returns in this state.
    open spec fn vertex_result(&self, code: Seq<u8>) -> Result<Shader, CreateShaderError> {
        arbitrary()
    }

    /// The state after compiling vertex-stage code in this state.
    open spec fn after_vertex(&self, code: Seq<u8>) -> Self {
        arbitrary()
    }

    /// What compiling pixel-stage code returns in this state.
    open spec fn pixel_result(&self, code: Seq<u8>) -> Result<Shader, CreateShaderError> {
        arbitrary()
    }

    /// The state after compiling pixel-stage code in this state.
    open spec fn after_pixel(&self, code: Seq<u8>) -> Self {
        arbitrary()
    }

    /// What linking a shader set returns in this state; the error is the
    /// backend's link message.
    open spec fn program_result(&self, shaders: ShaderSet) -> Result<Program, String> {
        arbitrary()
    }

    /// The state after linking a shader set in this state.
    open spec fn after_program(&self, shaders: ShaderSet) -> Self {
        arbitrary()
    }

    /// What allocating an immutable buffer of `num` elements returns in this
    /// state.
    open spec fn buffer_const_result(&self, num: usize, role: BufferRole) -> Result<
        Buffer,
        BufferError,
    > {
        arbitrary()
    }

    /// The state after allocating an immutable buffer in this state.
    open spec fn after_buffer_const(&self, num: usize, role: BufferRole) -> Self {
        arbitrary()
    }

    /// What allocating a dynamically-updatable buffer of `num` elements
    /// returns in this state.
    open spec fn buffer_dynamic_result(&self, num: usize, role: BufferRole) -> Result<
        Buffer,
        BufferError,
    > {
        arbitrary()
    }

    /// The state after allocating a dynamically-updatable buffer in this
    /// state.
    open spec fn after_buffer_dynamic(&self, num: usize, role: BufferRole) -> Self {
        arbitrary()
    }

    /// What submitting a program and a finished descriptor returns in this
    /// state.
    open spec fn pipeline_result(&self, program: ProgramView, descriptor: DescriptorView) -> Result<
        RawPipelineState,
        CreationError,
    > {
        arbitrary()
    }

    /// The state after submitting a program and a descriptor in this state.
    open spec fn after_pipeline(&self, program: ProgramView, descriptor: DescriptorView) -> Self {
        arbitrary()
    }

    /// The sampler a request with the given configuration returns in this
    /// state.
    open spec fn sampler_result(&self, info: SamplerInfo) -> Sampler {
        arbitrary()
    }

    /// The state after a sampler request in this state.
    open spec fn after_sampler(&self, info: SamplerInfo) -> Self {
        arbitrary()
    }

    /// Allocate an immutable buffer sized for `num` elements of the given
    /// role, initialized by the caller's data upload.
    fn create_buffer_const(&mut self, num: usize, role: BufferRole) -> (r: Result<
        Buffer,
        BufferError,
    >)
        ensures
            r == old(self).buffer_const_result(num, role),
            *final(self) == old(self).after_buffer_const(num, role),
            r matches Ok(b) ==> b.len == num,
    ;

    /// Allocate a dynamically-updatable buffer sized for `num` elements of
    /// the given role, device-default-initialized.
    fn create_buffer_dynamic(&mut self, num: usize, role: BufferRole) -> (r: Result<
        Buffer,
        BufferError,
    >)
        ensures
            r == old(self).buffer_dynamic_result(num, role),
            *final(self) == old(self).after_buffer_dynamic(num, role),
            r matches Ok(b) ==> b.len == num,
    ;

    /// Compile vertex-stage shader code.
    fn create_shader_vertex(&mut self, code: &[u8]) -> (r: Result<Shader, CreateShaderError>)
        ensures
            r == old(self).vertex_result(code@),
            *final(self) == old(self).after_vertex(code@),
    ;

    /// Compile pixel-stage shader code.
    fn create_shader_pixel(&mut self, code: &[u8]) -> (r: Result<Shader, CreateShaderError>)
        ensures
            r == old(self).pixel_result(code@),
            *final(self) == old(self).after_pixel(code@),
    ;

    /// Link compiled stages into an executable program with its reflected
    /// interface.
    fn create_program(&mut self, shaders: &ShaderSet) -> (r: Result<Program, String>)
        ensures
            r == old(self).program_result(*shaders),
            *final(self) == old(self).after_program(*shaders),
    ;

    /// Allocate a raw pipeline-state object from a program and a finished
    /// descriptor.
    fn create_pipeline_state_raw(&mut self, program: &Program, descriptor: &Descriptor) -> (r:
        Result<RawPipelineState, CreationError>)
        ensures
            r == old(self).pipeline_result(program@, descriptor@),
            *final(self) == old(self).after_pipeline(program@, descriptor@),
    ;

    /// Allocate a sampler with the given configuration.
    fn create_sampler(&mut self, info: SamplerInfo) -> (r: Sampler)
        ensures
            r == old(self).sampler_result(info),
            *final(self) == old(self).after_sampler(info),
    ;
}

/// What assembling a shader set does to a device in state `f`: the vertex
/// stage is compiled first; its failure is returned vertex-tagged without the
/// pixel stage ever being submitted; a pixel failure after a vertex success
/// is returned pixel-tagged.
pub open spec fn shader_set_model<F: Factory>(f: F, vs_code: Seq<u8>, ps_code: Seq<u8>) -> (Result<
    ShaderSet,
    ProgramError,
>, F) {
    let f1 = f.after_vertex(vs_code);
    match f.vertex_result(vs_code) {
        Err(e) => (Err(ProgramError::Vertex(e)), f1),
        Ok(vs) => {
            let f2 = f1.after_pixel(ps_code);
            match f1.pixel_result(ps_code) {
                Err(e) => (Err(ProgramError::Pixel(e)), f2),
                Ok(ps) => (Ok(ShaderSet::Simple(vs, ps)), f2),
            }
        },
    }
}

/// What creating and linking a shader program from source does to a device in
/// state `f`: shader assembly, then the link step, whose failure is tagged as
/// a link error.
pub open spec fn link_program_model<F: Factory>(f: F, vs_code: Seq<u8>, ps_code: Seq<u8>) -> (
    Result<Program, ProgramError>,
    F,
) {
    let (set, f1) = shader_set_model(f, vs_code, ps_code);
    match set {
        Err(e) => (Err(e), f1),
        Ok(s) => {
            let f2 = f1.after_program(s);
            match f1.program_result(s) {
                Err(e) => (Err(ProgramError::Link(e)), f2),
                Ok(p) => (Ok(p), f2),
            }
        },
    }
}

/// An error creating a `PipelineState`: the three failure domains of a
/// pipeline build, in the order they are detected. The earliest-detectable
/// stage wins; no stage is retried.
#[derive(Clone, PartialEq, Debug)]
pub enum PipelineStateError {
    /// The shader program failed to compile or link.
    Program(ProgramError),
    /// The typed specification could not be linked into a descriptor.
    DescriptorInit(InitError),
    /// The device refused to create a handle from the finished descriptor.
    DeviceCreate(CreationError),
}

/// What building a pipeline from an already linked program does to a device
/// in state `f`: the typed specification `init` is linked against the
/// program's reflected interface into a fresh descriptor; a link failure is
/// returned as a descriptor-init error with the device untouched; otherwise
/// the finished descriptor is submitted, and the device's refusal or the
/// packaged pipeline state is returned.
pub open spec fn pipeline_from_program_model<F: Factory, I: PipelineInit>(
    f: F,
    program: ProgramView,
    primitive: Primitive,
    rasterizer: Rasterizer,
    init: I,
) -> (Result<PipelineStateView<<I::Meta as View>::V>, PipelineStateError>, F) {
    match init.link_outcome(program.attributes) {
        Err(e) => (Err(PipelineStateError::DescriptorInit(e)), f),
        Ok(mv) => {
            let descriptor = DescriptorView {
                primitive,
                rasterizer,
                attributes: init.linked_attributes(program.attributes),
            };
            let f1 = f.after_pipeline(program, descriptor);
            match f.pipeline_result(program, descriptor) {
                Err(e) => (Err(PipelineStateError::DeviceCreate(e)), f1),
                Ok(raw) => (Ok(PipelineStateView { raw, primitive, meta: mv }), f1),
            }
        },
    }
}

/// What building a pipeline from a not yet linked shader set does to a device
/// in state `f`: the set is linked first, a failure being tagged as a link
/// error; then the build continues from the linked program.
pub open spec fn pipeline_state_model<F: Factory, I: PipelineInit>(
    f: F,
    shaders: ShaderSet,
    primitive: Primitive,
    rasterizer: Rasterizer,
    init: I,
) -> (Result<PipelineStateView<<I::Meta as View>::V>, PipelineStateError>, F) {
    let f1 = f.after_program(shaders);
    match f.program_result(shaders) {
        Err(e) => (Err(PipelineStateError::Program(ProgramError::Link(e))), f1),
        Ok(p) => pipeline_from_program_model(f1, p@, primitive, rasterizer, init),
    }
}

/// What building a vertex buffer together with its slice does to a device in
/// state `f`: the vertex buffer is allocated first; then, when indices are
/// given, a device index buffer of their element count; the slice covers the
/// index buffer's element count when one was created, and the vertex buffer's
/// element count otherwise. The first allocation failure is propagated.
pub open spec fn vertex_buffer_with_slice_model<F: Factory>(
    f: F,
    num_vertices: usize,
    indices: IndexData,
) -> (Result<(Buffer, Slice), BufferError>, F) {
    let f1 = f.after_buffer_const(num_vertices, BufferRole::Vertex);
    match f.buffer_const_result(num_vertices, BufferRole::Vertex) {
        Err(e) => (Err(e), f1),
        Ok(vb) => match indices {
            IndexData::Auto => (Ok((vb, full_slice(vb.len as u32, IndexBuffer::Auto))), f1),
            IndexData::Index16(v) => {
                let n = v@.len() as usize;
                let f2 = f1.after_buffer_const(n, BufferRole::Index);
                match f1.buffer_const_result(n, BufferRole::Index) {
                    Err(e) => (Err(e), f2),
                    Ok(ib) => (
                        Ok((vb, full_slice(ib.len as u32, IndexBuffer::Index16(ib)))),
                        f2,
                    ),
                }
            },
            IndexData::Index32(v) => {
                let n = v@.len() as usize;
                let f2 = f1.after_buffer_const(n, BufferRole::Index);
                match f1.buffer_const_result(n, BufferRole::Index) {
                    Err(e) => (Err(e), f2),
                    Ok(ib) => (
                        Ok((vb, full_slice(ib.len as u32, IndexBuffer::Index32(ib)))),
                        f2,
                    ),
                }
            },
        },
    }
}

/// A typed specification that references an attribute name absent from the
/// program's reflected interface makes the pipeline build fail with a
/// descriptor-init error, never a device-create error: the device is never
/// asked to create anything and is left untouched.
pub proof fn lemma_missing_import_no_device_create<F: Factory>(
    f: F,
    program: ProgramView,
    primitive: Primitive,
    rasterizer: Rasterizer,
    init: crate::init::SimpleInit,
    i: int,
)
    requires
        0 <= i < init.imports@.len(),
        forall|k: int|
            0 <= k < program.attributes.len() ==> program.attributes[k].name
                != init.imports@[i]@.name,
    ensures
        pipeline_from_program_model(f, program, primitive, rasterizer, init).0 matches Err(e)
            && e is DescriptorInit,
        pipeline_from_program_model(f, program, primitive, rasterizer, init).1 == f,
{
    crate::init::lemma_missing_import_fails(init, program.attributes, i);
}

/// The convenience extension: every [`Factory`] implements it, gaining the
/// higher-level operations below with no additional state. Every operation
/// delegates to the base capability, and its contract fixes the result and
/// the device state left behind for every outcome of the underlying calls.
pub trait FactoryExt: Factory {
    /// Create an immutable vertex buffer sized and initialized from the
    /// supplied data. A `Slice` will have to be constructed separately. An
    /// allocation failure is propagated, not swallowed.
    fn create_vertex_buffer<T>(&mut self, vertices: &[T]) -> (r: Result<Buffer, BufferError>)
        ensures
            r == old(self).buffer_const_result(vertices@.len() as usize, BufferRole::Vertex),
            *final(self) == old(self).after_buffer_const(
                vertices@.len() as usize,
                BufferRole::Vertex,
            ),
            r matches Ok(b) ==> b.len == vertices@.len(),
    {
        self.create_buffer_const(vertices.len(), BufferRole::Vertex)
    }

    /// Create a vertex buffer from the supplied vertices together with a
    /// slice over it built from the supplied indices. When indices are given,
    /// a device index buffer is created here and the slice's length is its
    /// element count; with `IndexData::Auto` the slice's length is the vertex
    /// buffer's element count. The slice starts at zero, with no base-vertex
    /// offset and no instancing.
    fn create_vertex_buffer_with_slice<T>(&mut self, vertices: &[T], indices: IndexData) -> (r:
        Result<(Buffer, Slice), BufferError>)
        requires
            vertices@.len() <= u32::MAX,
            index_data_len(indices) <= u32::MAX,
        ensures
            ({
                let (m, ff) = vertex_buffer_with_slice_model(
                    *old(self),
                    vertices@.len() as usize,
                    indices,
                );
                r == m && *final(self) == ff
            }),
            r matches Ok((b, s)) ==> {
                &&& s.wf()
                &&& b.len == vertices@.len()
                &&& s.start == 0
                &&& s.base_vertex == 0
                &&& s.instances is None
                &&& match indices {
                    IndexData::Auto => s.end as nat == vertices@.len() && s.buffer is Auto,
                    IndexData::Index16(v) => s.end as nat == v@.len() && (
                    s.buffer matches IndexBuffer::Index16(ib) && ib.len == v@.len()),
                    IndexData::Index32(v) => s.end as nat == v@.len() && (
                    s.buffer matches IndexBuffer::Index32(ib) && ib.len == v@.len()),
                }
            },
    {
        let vertex_buffer = match self.create_vertex_buffer(vertices) {
            Ok(b) => b,
            Err(e) => { return Err(e); },
        };
        let index_buffer = match indices {
            IndexData::Auto => IndexBuffer::Auto,
            IndexData::Index16(v) => match self.create_buffer_const(v.len(), BufferRole::Index) {
                Ok(b) => IndexBuffer::Index16(b),
                Err(e) => { return Err(e); },
            },
            IndexData::Index32(v) => match self.create_buffer_const(v.len(), BufferRole::Index) {
                Ok(b) => IndexBuffer::Index32(b),
                Err(e) => { return Err(e); },
            },
        };
        let buffer_length = match index_buffer {
            IndexBuffer::Auto => vertex_buffer.len,
            IndexBuffer::Index16(ib) => ib.len,
            IndexBuffer::Index32(ib) => ib.len,
        };
        Ok(
            (
                vertex_buffer,
                Slice {
                    start: 0,
                    end: buffer_length as u32,
                    base_vertex: 0,
                    instances: None,
                    buffer: index_buffer,
                },
            ),
        )
    }

    /// Create a dynamically-updatable constant buffer sized for `num`
    /// elements, device-default-initialized. An allocation failure is
    /// propagated, not swallowed.
    fn create_constant_buffer(&mut self, num: usize) -> (r: Result<Buffer, BufferError>)
        ensures
            r == old(self).buffer_dynamic_result(num, BufferRole::Uniform),
            *final(self) == old(self).after_buffer_dynamic(num, BufferRole::Uniform),
            r matches Ok(b) ==> b.len == num,
    {
        self.create_buffer_dynamic(num, BufferRole::Uniform)
    }

    /// Create a linear convenience sampler: whatever the device's state, the
    /// sampler is requested with trilinear filtering and clamp addressing in
    /// both axes.
    fn create_sampler_linear(&mut self) -> (r: Sampler)
        ensures
            r == old(self).sampler_result(linear_sampler_info()),
            *final(self) == old(self).after_sampler(linear_sampler_info()),
    {
        self.create_sampler(SamplerInfo::new(FilterMethod::Trilinear, WrapMode::Clamp))
    }

    /// Compile the vertex stage, then the pixel stage, into a shader set.
    ///
    /// Compilation order is fixed and the first failure short-circuits: when
    /// the vertex stage fails, the pixel stage is never submitted to the
    /// backend (the device is left exactly in its state after the vertex
    /// attempt) and the error is vertex-tagged; a pixel failure after a
    /// vertex success is pixel-tagged.
    fn create_shader_set(&mut self, vs_code: &[u8], ps_code: &[u8]) -> (r: Result<
        ShaderSet,
        ProgramError,
    >)
        ensures
            ({
                let (set, ff) = shader_set_model(*old(self), vs_code@, ps_code@);
                r == set && *final(self) == ff
            }),
            old(self).vertex_result(vs_code@) matches Err(e) ==> r == Err::<
                ShaderSet,
                ProgramError,
            >(ProgramError::Vertex(e)) && *final(self) == old(self).after_vertex(vs_code@),
            old(self).vertex_result(vs_code@) is Ok ==> (old(self).after_vertex(
                vs_code@,
            ).pixel_result(ps_code@) matches Err(e) ==> r == Err::<ShaderSet, ProgramError>(
                ProgramError::Pixel(e),
            )),
    {
        let vs = match self.create_shader_vertex(vs_code) {
            Ok(s) => s,
            Err(e) => { return Err(ProgramError::Vertex(e)); },
        };
        let ps = match self.create_shader_pixel(ps_code) {
            Ok(s) => s,
            Err(e) => { return Err(ProgramError::Pixel(e)); },
        };
        Ok(ShaderSet::Simple(vs, ps))
    }

    /// Assemble a shader set from the supplied vertex and pixel shader code,
    /// then link it into an executable program. A compile failure keeps its
    /// stage tag; a link failure is tagged as such.
    fn link_program(&mut self, vs_code: &[u8], ps_code: &[u8]) -> (r: Result<
        Program,
        ProgramError,
    >)
        ensures
            ({
                let (program, ff) = link_program_model(*old(self), vs_code@, ps_code@);
                r == program && *final(self) == ff
            }),
    {
        let set = match self.create_shader_set(vs_code, ps_code) {
            Ok(s) => s,
            Err(e) => { return Err(e); },
        };
        match self.create_program(&set) {
            Ok(p) => Ok(p),
            Err(e) => Err(ProgramError::Link(e)),
        }
    }

    /// Build a typed pipeline state from an already linked program: construct
    /// a fresh descriptor from the topology and the rasterizer, link the
    /// typed specification `init` into it against the program's reflected
    /// interface, and submit the finished descriptor to the device.
    ///
    /// A specification that references a missing or type-incompatible program
    /// slot fails with a descriptor-init error and the device is never asked
    /// to create anything; only after a successful link can the device's own
    /// refusal be returned. On success, the stored topology is exactly the
    /// one supplied.
    fn create_pipeline_from_program<I: PipelineInit>(
        &mut self,
        program: &Program,
        primitive: Primitive,
        rasterizer: Rasterizer,
        init: I,
    ) -> (r: Result<PipelineState<I::Meta>, PipelineStateError>)
        ensures
            ({
                let (m, ff) = pipeline_from_program_model(
                    *old(self),
                    program@,
                    primitive,
                    rasterizer,
                    init,
                );
                &&& *final(self) == ff
                &&& match r {
                    Ok(ps) => m matches Ok(psv) && ps@ == psv,
                    Err(e) => m matches Err(e2) && e == e2,
                }
            }),
            init.link_outcome(program@.attributes) matches Err(e) ==> r == Err::<
                PipelineState<I::Meta>,
                PipelineStateError,
            >(PipelineStateError::DescriptorInit(e)) && *final(self) == *old(self),
            r matches Ok(ps) ==> ps.primitive == primitive,
    {
        let mut descriptor = Descriptor::new(primitive, rasterizer);
        let meta = match init.link_to(&mut descriptor, program.get_info()) {
            Ok(m) => m,
            Err(e) => { return Err(PipelineStateError::DescriptorInit(e)); },
        };
        proof {
            assert(descriptor@.attributes =~= init.linked_attributes(program@.attributes));
            assert(descriptor@ =~= (DescriptorView {
                primitive,
                rasterizer,
                attributes: init.linked_attributes(program@.attributes),
            }));
        }
        let raw = match self.create_pipeline_state_raw(program, &descriptor) {
            Ok(raw) => raw,
            Err(e) => { return Err(PipelineStateError::DeviceCreate(e)); },
        };
        Ok(PipelineState::new(raw, primitive, meta))
    }

    /// Like `create_pipeline_from_program`, but takes a not yet linked shader
    /// set: the set is linked first, a failure being tagged as a link error.
    fn create_pipeline_state<I: PipelineInit>(
        &mut self,
        shaders: &ShaderSet,
        primitive: Primitive,
        rasterizer: Rasterizer,
        init: I,
    ) -> (r: Result<PipelineState<I::Meta>, PipelineStateError>)
        ensures
            ({
                let (m, ff) = pipeline_state_model(
                    *old(self),
                    *shaders,
                    primitive,
                    rasterizer,
                    init,
                );
                &&& *final(self) == ff
                &&& match r {
                    Ok(ps) => m matches Ok(psv) && ps@ == psv,
                    Err(e) => m matches Err(e2) && e == e2,
                }
            }),
            r matches Ok(ps) ==> ps.primitive == primitive,
    {
        match self.create_program(shaders) {
            Ok(p) => self.create_pipeline_from_program(&p, primitive, rasterizer, init),
            Err(e) => Err(PipelineStateError::Program(ProgramError::Link(e))),
        }
    }

    /// Build a typed pipeline state straight from vertex and pixel shader
    /// code. Equivalent to assembling the shader set and calling
    /// `create_pipeline_state` with triangle-list topology and the default
    /// fill rasterizer without culling, as the contract states.
    fn create_pipeline_simple<I: PipelineInit>(
        &mut self,
        vs_code: &[u8],
        ps_code: &[u8],
        init: I,
    ) -> (r: Result<PipelineState<I::Meta>, PipelineStateError>)
        ensures
            ({
                let (set, f1) = shader_set_model(*old(self), vs_code@, ps_code@);
                match set {
                    Err(e) => r == Err::<PipelineState<I::Meta>, PipelineStateError>(
                        PipelineStateError::Program(e),
                    ) && *final(self) == f1,
                    Ok(s) => ({
                        let (m, f2) = pipeline_state_model(
                            f1,
                            s,
                            Primitive::TriangleList,
                            fill_rasterizer(),
                            init,
                        );
                        &&& *final(self) == f2
                        &&& match r {
                            Ok(ps) => m matches Ok(psv) && ps@ == psv,
                            Err(e) => m matches Err(e2) && e == e2,
                        }
                    }),
                }
            }),
    {
        match self.create_shader_set(vs_code, ps_code) {
            Ok(s) => self.create_pipeline_state(
                &s,
                Primitive::TriangleList,
                Rasterizer::new_fill(),
                init,
            ),
            Err(e) => Err(PipelineStateError::Program(e)),
        }
    }
}

impl<F: Factory> FactoryExt for F {
}

} // verus!
