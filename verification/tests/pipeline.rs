use gfx_factory::factory::{BufferError, Factory, FactoryExt, PipelineStateError};
use gfx_factory::init::{SimpleInit, VertexImport};
use gfx_factory::pso::{AttributeDesc, CreationError, Descriptor, InitError};
use gfx_factory::resources::{
    AttributeVar, BaseType, Buffer, BufferRole, Format, Program, ProgramInfo, RawPipelineState,
    Sampler, Shader,
};
use gfx_factory::shade::{CreateShaderError, ProgramError, ShaderSet, Stage};
use gfx_factory::slice::{IndexBuffer, IndexData};
use gfx_factory::state::{
    CullFace, FilterMethod, FrontFace, Primitive, RasterMethod, Rasterizer, SamplerInfo, WrapMode,
};

/// Everything a mock device was asked to do, in order.
#[derive(Debug, Clone, PartialEq)]
enum Call {
    BufferConst(usize, BufferRole),
    BufferDynamic(usize, BufferRole),
    VertexShader(Vec<u8>),
    PixelShader(Vec<u8>),
    LinkProgram(ShaderSet),
    CreatePipeline(u64, Descriptor),
    CreateSampler(SamplerInfo),
}

/// A recording in-memory device: every call is logged, identifiers are handed
/// out in sequence, and each stage can be told to fail.
struct MockFactory {
    calls: Vec<Call>,
    next_id: u64,
    vertex_error: Option<CreateShaderError>,
    pixel_error: Option<CreateShaderError>,
    buffer_error: Option<BufferError>,
    fail_link: bool,
    fail_device: bool,
    program_attributes: Vec<AttributeVar>,
}

impl MockFactory {
    fn new() -> MockFactory {
        MockFactory {
            calls: Vec::new(),
            next_id: 1,
            vertex_error: None,
            pixel_error: None,
            buffer_error: None,
            fail_link: false,
            fail_device: false,
            program_attributes: Vec::new(),
        }
    }

    fn fresh_id(&mut self) -> u64 {
        let id = self.next_id;
        self.next_id += 1;
        id
    }
}

impl Factory for MockFactory {
    fn create_buffer_const(&mut self, num: usize, role: BufferRole) -> Result<Buffer, BufferError> {
        self.calls.push(Call::BufferConst(num, role));
        if let Some(e) = self.buffer_error {
            return Err(e);
        }
        let id = self.fresh_id();
        Ok(Buffer { id, len: num })
    }

    fn create_buffer_dynamic(
        &mut self,
        num: usize,
        role: BufferRole,
    ) -> Result<Buffer, BufferError> {
        self.calls.push(Call::BufferDynamic(num, role));
        if let Some(e) = self.buffer_error {
            return Err(e);
        }
        let id = self.fresh_id();
        Ok(Buffer { id, len: num })
    }

    fn create_shader_vertex(&mut self, code: &[u8]) -> Result<Shader, CreateShaderError> {
        self.calls.push(Call::VertexShader(code.to_vec()));
        if let Some(e) = self.vertex_error.clone() {
            return Err(e);
        }
        let id = self.fresh_id();
        Ok(Shader { id })
    }

    fn create_shader_pixel(&mut self, code: &[u8]) -> Result<Shader, CreateShaderError> {
        self.calls.push(Call::PixelShader(code.to_vec()));
        if let Some(e) = self.pixel_error.clone() {
            return Err(e);
        }
        let id = self.fresh_id();
        Ok(Shader { id })
    }

    fn create_program(&mut self, shaders: &ShaderSet) -> Result<Program, String> {
        self.calls.push(Call::LinkProgram(*shaders));
        if self.fail_link {
            return Err("stages are incompatible".to_string());
        }
        let id = self.fresh_id();
        Ok(Program {
            id,
            info: ProgramInfo {
                attributes: self.program_attributes.clone(),
            },
        })
    }

    fn create_pipeline_state_raw(
        &mut self,
        program: &Program,
        descriptor: &Descriptor,
    ) -> Result<RawPipelineState, CreationError> {
        self.calls
            .push(Call::CreatePipeline(program.id, descriptor.clone()));
        if self.fail_device {
            return Err(CreationError);
        }
        let id = self.fresh_id();
        Ok(RawPipelineState { id })
    }

    fn create_sampler(&mut self, info: SamplerInfo) -> Sampler {
        self.calls.push(Call::CreateSampler(info));
        let id = self.fresh_id();
        Sampler { id, info }
    }
}

fn vec3() -> Format {
    Format {
        base: BaseType::F32,
        components: 3,
    }
}

fn vec4() -> Format {
    Format {
        base: BaseType::F32,
        components: 4,
    }
}

fn attribute(name: &str, slot: u8, format: Format) -> AttributeVar {
    AttributeVar {
        name: name.to_string(),
        slot,
        format,
    }
}

fn import(name: &str, format: Format) -> VertexImport {
    VertexImport {
        name: name.to_string(),
        format,
    }
}

#[test]
fn vertex_buffer_len_matches_data() {
    let mut factory = MockFactory::new();
    let vertices: Vec<[i32; 2]> = vec![[0, 0], [1, 0], [0, 1]];
    let buffer = factory.create_vertex_buffer(&vertices).unwrap();
    assert_eq!(buffer.len, 3);
    assert_eq!(factory.calls, vec![Call::BufferConst(3, BufferRole::Vertex)]);
}

#[test]
fn vertex_buffer_propagates_allocation_failure() {
    let mut factory = MockFactory::new();
    factory.buffer_error = Some(BufferError::OutOfMemory);
    let vertices: Vec<[i32; 2]> = vec![[0, 0]];
    let r = factory.create_vertex_buffer(&vertices);
    assert_eq!(r, Err(BufferError::OutOfMemory));
}

#[test]
fn slice_length_is_vertex_count_when_auto() {
    let mut factory = MockFactory::new();
    let vertices: Vec<[i32; 2]> = vec![[0, 0], [1, 0], [0, 1], [1, 1]];
    let (buffer, slice) = factory
        .create_vertex_buffer_with_slice(&vertices, IndexData::Auto)
        .unwrap();
    assert_eq!(buffer.len, 4);
    assert_eq!(slice.start, 0);
    assert_eq!(slice.end, 4);
    assert_eq!(slice.base_vertex, 0);
    assert_eq!(slice.instances, None);
    assert_eq!(slice.buffer, IndexBuffer::Auto);
    // no index buffer is created for Auto
    assert_eq!(factory.calls, vec![Call::BufferConst(4, BufferRole::Vertex)]);
}

#[test]
fn slice_length_is_index_count_with_index16() {
    let mut factory = MockFactory::new();
    let vertices: Vec<[i32; 2]> = vec![[0, 0], [1, 0], [0, 1], [1, 1]];
    let indices: Vec<u16> = vec![0, 1, 2, 2, 3, 0];
    let (buffer, slice) = factory
        .create_vertex_buffer_with_slice(&vertices, IndexData::Index16(indices))
        .unwrap();
    assert_eq!(buffer.len, 4);
    assert_eq!(slice.start, 0);
    assert_eq!(slice.end, 6);
    assert_eq!(slice.instances, None);
    match slice.buffer {
        IndexBuffer::Index16(ib) => assert_eq!(ib.len, 6),
        other => panic!("expected a 16-bit index buffer, got {:?}", other),
    }
    assert_eq!(
        factory.calls,
        vec![
            Call::BufferConst(4, BufferRole::Vertex),
            Call::BufferConst(6, BufferRole::Index),
        ]
    );
}

#[test]
fn slice_length_is_index_count_with_index32() {
    let mut factory = MockFactory::new();
    let vertices: Vec<[i32; 2]> = vec![[0, 0], [1, 0], [0, 1]];
    let indices: Vec<u32> = vec![0, 1, 2, 0];
    let (_, slice) = factory
        .create_vertex_buffer_with_slice(&vertices, IndexData::Index32(indices))
        .unwrap();
    assert_eq!(slice.end, 4);
    match slice.buffer {
        IndexBuffer::Index32(ib) => assert_eq!(ib.len, 4),
        other => panic!("expected a 32-bit index buffer, got {:?}", other),
    }
}

#[test]
fn slice_over_empty_vertices_is_empty() {
    let mut factory = MockFactory::new();
    let vertices: Vec<[i32; 2]> = Vec::new();
    let (buffer, slice) = factory
        .create_vertex_buffer_with_slice(&vertices, IndexData::Auto)
        .unwrap();
    assert_eq!(buffer.len, 0);
    assert_eq!(slice.end, 0);
}

#[test]
fn constant_buffer_is_dynamic_and_uniform() {
    let mut factory = MockFactory::new();
    let buffer = factory.create_constant_buffer(5).unwrap();
    assert_eq!(buffer.len, 5);
    assert_eq!(
        factory.calls,
        vec![Call::BufferDynamic(5, BufferRole::Uniform)]
    );
}

#[test]
fn constant_buffer_propagates_allocation_failure() {
    let mut factory = MockFactory::new();
    factory.buffer_error = Some(BufferError::UnsupportedRole);
    let r = factory.create_constant_buffer(2);
    assert_eq!(r, Err(BufferError::UnsupportedRole));
}

#[test]
fn shader_set_compiles_vertex_then_pixel() {
    let mut factory = MockFactory::new();
    let set = factory.create_shader_set(b"vs code", b"ps code").unwrap();
    let ShaderSet::Simple(vs, ps) = set;
    assert_ne!(vs.id, ps.id);
    assert_eq!(
        factory.calls,
        vec![
            Call::VertexShader(b"vs code".to_vec()),
            Call::PixelShader(b"ps code".to_vec()),
        ]
    );
}

#[test]
fn vertex_failure_short_circuits_and_is_vertex_tagged() {
    let mut factory = MockFactory::new();
    factory.vertex_error = Some(CreateShaderError::CompilationFailed(
        "bad vertex shader".to_string(),
    ));
    let r = factory.create_shader_set(b"vs", b"ps");
    assert_eq!(
        r,
        Err(ProgramError::Vertex(CreateShaderError::CompilationFailed(
            "bad vertex shader".to_string()
        )))
    );
    // the pixel stage was never submitted to the backend
    assert_eq!(factory.calls, vec![Call::VertexShader(b"vs".to_vec())]);
}

#[test]
fn pixel_failure_is_pixel_tagged_never_vertex() {
    let mut factory = MockFactory::new();
    factory.pixel_error = Some(CreateShaderError::StageNotSupported(Stage::Pixel));
    let r = factory.create_shader_set(b"vs", b"ps");
    assert_eq!(
        r,
        Err(ProgramError::Pixel(CreateShaderError::StageNotSupported(
            Stage::Pixel
        )))
    );
    assert_eq!(
        factory.calls,
        vec![
            Call::VertexShader(b"vs".to_vec()),
            Call::PixelShader(b"ps".to_vec()),
        ]
    );
}

#[test]
fn model_not_supported_is_reported() {
    let mut factory = MockFactory::new();
    factory.vertex_error = Some(CreateShaderError::ModelNotSupported);
    let r = factory.create_shader_set(b"vs", b"ps");
    assert_eq!(
        r,
        Err(ProgramError::Vertex(CreateShaderError::ModelNotSupported))
    );
}

#[test]
fn link_failure_is_link_tagged() {
    let mut factory = MockFactory::new();
    factory.fail_link = true;
    let r = factory.link_program(b"vs", b"ps");
    assert_eq!(
        r,
        Err(ProgramError::Link("stages are incompatible".to_string()))
    );
}

#[test]
fn link_program_returns_reflected_interface() {
    let mut factory = MockFactory::new();
    factory.program_attributes = vec![attribute("a_pos", 0, vec3())];
    let program = factory.link_program(b"vs", b"ps").unwrap();
    assert_eq!(program.info.attributes.len(), 1);
    assert_eq!(program.info.attributes[0].name, "a_pos");
}

#[test]
fn missing_attribute_fails_link_never_device_create() {
    let mut factory = MockFactory::new();
    factory.program_attributes = vec![attribute("a_pos", 0, vec3())];
    let program = factory.link_program(b"vs", b"ps").unwrap();
    let init = SimpleInit {
        imports: vec![import("a_color", vec4())],
    };
    let before = factory.calls.clone();
    let r = factory.create_pipeline_from_program(
        &program,
        Primitive::TriangleList,
        Rasterizer::new_fill(),
        init,
    );
    assert_eq!(
        r,
        Err(PipelineStateError::DescriptorInit(InitError::Missing(
            "a_color".to_string()
        )))
    );
    // the device was never asked to create a pipeline
    assert_eq!(factory.calls, before);
}

#[test]
fn format_mismatch_fails_link() {
    let mut factory = MockFactory::new();
    factory.program_attributes = vec![attribute("a_pos", 0, vec4())];
    let program = factory.link_program(b"vs", b"ps").unwrap();
    let init = SimpleInit {
        imports: vec![import("a_pos", vec3())],
    };
    let r = factory.create_pipeline_from_program(
        &program,
        Primitive::TriangleList,
        Rasterizer::new_fill(),
        init,
    );
    assert_eq!(
        r,
        Err(PipelineStateError::DescriptorInit(InitError::Mismatch(
            "a_pos".to_string()
        )))
    );
}

#[test]
fn device_refusal_is_device_create_tagged() {
    let mut factory = MockFactory::new();
    factory.program_attributes = vec![attribute("a_pos", 0, vec3())];
    factory.fail_device = true;
    let program = factory.link_program(b"vs", b"ps").unwrap();
    let init = SimpleInit {
        imports: vec![import("a_pos", vec3())],
    };
    let r = factory.create_pipeline_from_program(
        &program,
        Primitive::TriangleList,
        Rasterizer::new_fill(),
        init,
    );
    assert_eq!(r, Err(PipelineStateError::DeviceCreate(CreationError)));
}

#[test]
fn pipeline_state_stores_the_supplied_primitive() {
    let mut factory = MockFactory::new();
    factory.program_attributes = vec![attribute("a_pos", 3, vec3())];
    let set = factory.create_shader_set(b"vs", b"ps").unwrap();
    let init = SimpleInit {
        imports: vec![import("a_pos", vec3())],
    };
    let rasterizer = Rasterizer {
        front_face: FrontFace::Clockwise,
        cull_face: CullFace::Back,
        method: RasterMethod::Line(2),
    };
    let ps = factory
        .create_pipeline_state(&set, Primitive::LineStrip, rasterizer, init)
        .unwrap();
    assert_eq!(ps.primitive, Primitive::LineStrip);
    assert_eq!(ps.meta.slots, vec![3]);
    // the descriptor submitted to the device carried the same configuration
    match factory.calls.last().unwrap() {
        Call::CreatePipeline(_, descriptor) => {
            assert_eq!(descriptor.primitive, Primitive::LineStrip);
            assert_eq!(descriptor.rasterizer, rasterizer);
            assert_eq!(
                descriptor.attributes,
                vec![AttributeDesc {
                    slot: 3,
                    format: vec3()
                }]
            );
        }
        other => panic!("expected a pipeline creation, got {:?}", other),
    }
}

#[test]
fn meta_resolves_slots_in_specification_order() {
    let mut factory = MockFactory::new();
    factory.program_attributes = vec![
        attribute("a_pos", 2, vec3()),
        attribute("a_color", 0, vec4()),
    ];
    let program = factory.link_program(b"vs", b"ps").unwrap();
    let init = SimpleInit {
        imports: vec![import("a_color", vec4()), import("a_pos", vec3())],
    };
    let ps = factory
        .create_pipeline_from_program(
            &program,
            Primitive::TriangleList,
            Rasterizer::new_fill(),
            init,
        )
        .unwrap();
    assert_eq!(ps.meta.slots, vec![0, 2]);
}

#[test]
fn empty_specification_links_against_any_program() {
    let mut factory = MockFactory::new();
    factory.program_attributes = vec![attribute("a_pos", 0, vec3())];
    let program = factory.link_program(b"vs", b"ps").unwrap();
    let init = SimpleInit {
        imports: Vec::new(),
    };
    let ps = factory
        .create_pipeline_from_program(
            &program,
            Primitive::PointList,
            Rasterizer::new_fill(),
            init,
        )
        .unwrap();
    assert_eq!(ps.meta.slots, Vec::<u8>::new());
    assert_eq!(ps.primitive, Primitive::PointList);
}

#[test]
fn pipeline_simple_matches_explicit_triangle_list_fill() {
    let attrs = vec![attribute("a_pos", 1, vec3())];
    let init_a = SimpleInit {
        imports: vec![import("a_pos", vec3())],
    };
    let init_b = SimpleInit {
        imports: vec![import("a_pos", vec3())],
    };

    let mut simple = MockFactory::new();
    simple.program_attributes = attrs.clone();
    let ps_a = simple.create_pipeline_simple(b"vs", b"ps", init_a).unwrap();

    let mut explicit = MockFactory::new();
    explicit.program_attributes = attrs;
    let set = explicit.create_shader_set(b"vs", b"ps").unwrap();
    let ps_b = explicit
        .create_pipeline_state(&set, Primitive::TriangleList, Rasterizer::new_fill(), init_b)
        .unwrap();

    // both paths asked the device for the same calls, descriptor included
    assert_eq!(simple.calls, explicit.calls);
    assert_eq!(ps_a.primitive, ps_b.primitive);
    assert_eq!(ps_a.meta.slots, ps_b.meta.slots);
    match simple.calls.last().unwrap() {
        Call::CreatePipeline(_, descriptor) => {
            assert_eq!(descriptor.primitive, Primitive::TriangleList);
            assert_eq!(descriptor.rasterizer.cull_face, CullFace::Nothing);
            assert_eq!(descriptor.rasterizer.method, RasterMethod::Fill);
        }
        other => panic!("expected a pipeline creation, got {:?}", other),
    }
}

#[test]
fn pipeline_simple_propagates_shader_errors() {
    let mut factory = MockFactory::new();
    factory.vertex_error = Some(CreateShaderError::CompilationFailed("bad".to_string()));
    let init = SimpleInit {
        imports: Vec::new(),
    };
    let r = factory.create_pipeline_simple(b"vs", b"ps", init);
    assert_eq!(
        r,
        Err(PipelineStateError::Program(ProgramError::Vertex(
            CreateShaderError::CompilationFailed("bad".to_string())
        )))
    );
}

#[test]
fn sampler_linear_requests_trilinear_clamp() {
    let mut factory = MockFactory::new();
    let sampler = factory.create_sampler_linear();
    let expected = SamplerInfo {
        filter: FilterMethod::Trilinear,
        wrap_u: WrapMode::Clamp,
        wrap_v: WrapMode::Clamp,
    };
    assert_eq!(sampler.info, expected);
    assert_eq!(factory.calls, vec![Call::CreateSampler(expected)]);
}

#[test]
fn sampler_linear_ignores_prior_sampler_state() {
    let mut factory = MockFactory::new();
    factory.create_sampler(SamplerInfo::new(
        FilterMethod::Anisotropic(8),
        WrapMode::Mirror,
    ));
    let sampler = factory.create_sampler_linear();
    let expected = SamplerInfo {
        filter: FilterMethod::Trilinear,
        wrap_u: WrapMode::Clamp,
        wrap_v: WrapMode::Clamp,
    };
    assert_eq!(sampler.info, expected);
    assert_eq!(
        factory.calls.last().unwrap(),
        &Call::CreateSampler(expected)
    );
}
